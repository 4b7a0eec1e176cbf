//! Finding and asking the `gcloud` command-line tool: where it is looked
//! for, the commands that are run, and what is made of their answers. Each
//! search tries the candidate paths in order; the process work happens
//! outside, and the decisions here say what each answer means.

use vstd::prelude::*;
use vstd::utf8::{decode_utf8, encode_utf8, valid_utf8};
use crate::decoding::{
    decode_utf8_lossy, decode_utf8_strict, lossy_text, utf8_error_message, utf8_lossy_text,
};
use crate::text::{
    i64_to_decimal, is_white_space, join, join_spec, lemma_trim_padded, signed_decimal_spec,
    strings_view, trim, trim_spec,
    until_char, until_char_spec,
};

verus! {

/// Where `gcloud` is looked for on Linux and macOS, in order, for a home
/// directory `home` (empty when unknown).
pub open spec fn unix_candidates_spec(home: Seq<char>) -> Seq<Seq<char>> {
    seq![
        "/opt/homebrew/bin/gcloud"@,
        "/usr/local/bin/gcloud"@,
        home + "/google-cloud-sdk/bin/gcloud"@,
    ]
}

/// Where `gcloud` is looked for on Windows, in order: the two system-wide
/// installations and, when the user name is known, the per-user one.
pub open spec fn windows_candidates_spec(user: Option<Seq<char>>) -> Seq<Seq<char>> {
    let system = seq![
        "C:\\Program Files (x86)\\Google\\Cloud SDK\\google-cloud-sdk\\bin\\gcloud.cmd"@,
        "C:\\Program Files\\Google\\Cloud SDK\\google-cloud-sdk\\bin\\gcloud.cmd"@,
    ];
    match user {
        Some(u) => system.push(
            "C:\\Users\\"@ + u + "\\AppData\\Local\\Google\\Cloud SDK\\google-cloud-sdk\\bin\\gcloud.cmd"@,
        ),
        None => system,
    }
}

/// The paths where `gcloud` is looked for on Linux and macOS.
pub fn unix_gcloud_candidates(home: &str) -> (r: Vec<String>)
    ensures
        strings_view(r@) == unix_candidates_spec(home@),
{
    let mut user_path = home.to_owned();
    user_path.append("/google-cloud-sdk/bin/gcloud");
    let r = vec![
        String::from_str("/opt/homebrew/bin/gcloud"),
        String::from_str("/usr/local/bin/gcloud"),
        user_path,
    ];
    assert(strings_view(r@) =~= unix_candidates_spec(home@));
    r
}

/// The paths where `gcloud` is looked for on Windows; `user` is the user
/// name, where it is known and wanted.
pub fn windows_gcloud_candidates(user: Option<&str>) -> (r: Vec<String>)
    ensures
        strings_view(r@) == windows_candidates_spec(
            match user {
                Some(u) => Some(u@),
                None => None,
            },
        ),
{
    let mut r = vec![
        String::from_str("C:\\Program Files (x86)\\Google\\Cloud SDK\\google-cloud-sdk\\bin\\gcloud.cmd"),
        String::from_str("C:\\Program Files\\Google\\Cloud SDK\\google-cloud-sdk\\bin\\gcloud.cmd"),
    ];
    match user {
        Some(u) => {
            let mut p = String::from_str("C:\\Users\\");
            p.append(u);
            p.append("\\AppData\\Local\\Google\\Cloud SDK\\google-cloud-sdk\\bin\\gcloud.cmd");
            r.push(p);
        },
        None => {},
    }
    assert(strings_view(r@) =~= windows_candidates_spec(
        match user {
            Some(u) => Some(u@),
            None => None,
        },
    ));
    r
}

/// A command to run: the program and its arguments.
#[derive(Debug, PartialEq, Eq)]
pub struct CommandPlan {
    pub program: String,
    pub args: Vec<String>,
}

impl CommandPlan {
    /// The program and the arguments, as text.
    pub open spec fn parts(&self) -> (Seq<char>, Seq<Seq<char>>) {
        (self.program@, strings_view(self.args@))
    }
}

/// The `PATH` under which `gcloud` is run on Linux and macOS, where
/// programs started from a desktop do not inherit the user's shell `PATH`.
pub open spec fn search_path_spec(home: Seq<char>) -> Seq<char> {
    "/opt/homebrew/bin:/opt/homebrew/sbin:/usr/local/bin:/usr/local/google-cloud-sdk/bin:"@ + home
        + "/.local/bin:/usr/bin:/bin:/usr/sbin:/sbin"@
}

/// The shell line that asks `gcloud` at `path` for an identity token under
/// the `PATH` `search`.
pub open spec fn token_shell_line_spec(search: Seq<char>, path: Seq<char>) -> Seq<char> {
    "PATH=\""@ + search + "\" \""@ + path + "\" auth print-identity-token"@
}

/// The `PATH` under which `gcloud` is run on Linux and macOS.
pub fn gcloud_search_path(home: &str) -> (r: String)
    ensures
        r@ == search_path_spec(home@),
{
    let mut r = String::from_str(
        "/opt/homebrew/bin:/opt/homebrew/sbin:/usr/local/bin:/usr/local/google-cloud-sdk/bin:",
    );
    r.append(home);
    r.append("/.local/bin:/usr/bin:/bin:/usr/sbin:/sbin");
    r
}

/// The command that asks `gcloud` at `path` for an identity token on Linux
/// and macOS: `/bin/sh -c` with the `PATH` of `home` set inline.
pub fn unix_token_command(home: &str, path: &str) -> (r: CommandPlan)
    ensures
        r.parts() == ("/bin/sh"@, seq!["-c"@, token_shell_line_spec(search_path_spec(home@), path@)]),
{
    let search = gcloud_search_path(home);
    let mut line = String::from_str("PATH=\"");
    line.append(search.as_str());
    line.append("\" \"");
    line.append(path);
    line.append("\" auth print-identity-token");
    let args = vec![String::from_str("-c"), line];
    let r = CommandPlan { program: String::from_str("/bin/sh"), args };
    assert(strings_view(r.args@) =~= seq!["-c"@, token_shell_line_spec(search_path_spec(home@), path@)]);
    r
}

/// The command that asks `gcloud` at `path` for an identity token on Windows.
pub fn windows_token_command(path: &str) -> (r: CommandPlan)
    ensures
        r.parts() == (path@, seq!["auth"@, "print-identity-token"@]),
{
    let args = vec![String::from_str("auth"), String::from_str("print-identity-token")];
    let r = CommandPlan { program: path.to_owned(), args };
    assert(strings_view(r.args@) =~= seq!["auth"@, "print-identity-token"@]);
    r
}

/// The command that asks `gcloud` at `path` for the signed-in account.
pub fn account_command(path: &str) -> (r: CommandPlan)
    ensures
        r.parts() == (path@, seq!["config"@, "get-value"@, "account"@]),
{
    let args = vec![String::from_str("config"), String::from_str("get-value"), String::from_str("account")];
    let r = CommandPlan { program: path.to_owned(), args };
    assert(strings_view(r.args@) =~= seq!["config"@, "get-value"@, "account"@]);
    r
}

/// The command that asks `gcloud` at `path` for the latest version of the
/// secret `secret`.
pub fn secret_command(path: &str, secret: &str) -> (r: CommandPlan)
    ensures
        r.parts() == (
            path@,
            seq!["secrets"@, "versions"@, "access"@, "latest"@, "--secret="@ + secret@],
        ),
{
    let mut flag = String::from_str("--secret=");
    flag.append(secret);
    let args = vec![
        String::from_str("secrets"),
        String::from_str("versions"),
        String::from_str("access"),
        String::from_str("latest"),
        flag,
    ];
    let r = CommandPlan { program: path.to_owned(), args };
    assert(strings_view(r.args@) =~= seq![
        "secrets"@,
        "versions"@,
        "access"@,
        "latest"@,
        "--secret="@ + secret@,
    ]);
    r
}

/// The account user name in what `gcloud config get-value account` wrote:
/// nothing when it failed or wrote only whitespace, and otherwise the part
/// of the trimmed answer before the first `@`.
pub open spec fn account_from_output_spec(success: bool, stdout: Seq<u8>) -> Option<Seq<char>> {
    let account = trim_spec(lossy_text(stdout));
    if success && account.len() > 0 {
        Some(until_char_spec(account, '@'))
    } else {
        None
    }
}

/// The account user name in an answer of `gcloud config get-value account`.
pub fn account_from_output(success: bool, stdout: &[u8]) -> (r: Option<String>)
    ensures
        match r {
            Some(a) => account_from_output_spec(success, stdout@) == Some(a@),
            None => account_from_output_spec(success, stdout@) is None,
        },
{
    if !success {
        return None;
    }
    let text = decode_utf8_lossy(stdout);
    let account = trim(text.as_str());
    if account.as_str().is_empty() {
        None
    } else {
        Some(until_char(account.as_str(), '@'))
    }
}

/// The user name taken from an account holds no `@` and starts the
/// trimmed answer; an answer without `@` is taken whole.
pub proof fn lemma_account_user_name(success: bool, stdout: Seq<u8>)
    ensures
        account_from_output_spec(success, stdout) matches Some(user) ==> {
            let account = trim_spec(lossy_text(stdout));
            &&& !user.contains('@')
            &&& account.take(user.len() as int) == user
            &&& (!account.contains('@') ==> user == account)
            &&& (account.contains('@') ==> user.len() < account.len() && account[user.len() as int]
                == '@')
        },
{
    let account = trim_spec(lossy_text(stdout));
    crate::text::lemma_until_char_law(account, '@');
    let u = until_char_spec(account, '@');
    if account.contains('@') && u.len() == account.len() {
        assert(account.take(account.len() as int) =~= account);
        assert(u =~= account);
        assert(u.contains('@'));
    }
}

/// The error when no candidate answered with an account or a secret.
pub const GCLOUD_NOT_CONFIGURED: &'static str = "gcloud not found or not configured";

/// The account recorded with a saved row: the signed-in user name, or
/// `unknown` when it could not be had.
pub fn account_or_unknown(account: Result<String, String>) -> (r: String)
    ensures
        match account {
            Ok(a) => r@ == a@,
            Err(_) => r@ == "unknown"@,
        },
{
    match account {
        Ok(a) => a,
        Err(_) => String::from_str("unknown"),
    }
}

/// What an identity-token command's answer yields: for a failed command an
/// error with its standard error; for output that is not UTF-8 an error
/// with the decoder's message; no token for blank output; otherwise the
/// trimmed output.
pub open spec fn token_from_output_spec(success: bool, stdout: Seq<u8>, stderr: Seq<u8>) -> Result<
    Seq<char>,
    Seq<char>,
> {
    if !success {
        Err("gcloud command failed: "@ + lossy_text(stderr))
    } else if !valid_utf8(stdout) {
        Err("Failed to parse gcloud output: "@ + utf8_error_message(stdout))
    } else if trim_spec(decode_utf8(stdout)).len() == 0 {
        Err("No token returned from gcloud"@)
    } else {
        Ok(trim_spec(decode_utf8(stdout)))
    }
}

/// A token command that succeeds with the UTF-8 text of a token `t`,
/// surrounded by any whitespace (a line break, as `gcloud` writes it, or
/// more), yields exactly `t`: all of it, with nothing cut or added.
pub proof fn lemma_token_is_whole_output(
    before: Seq<char>,
    t: Seq<char>,
    after: Seq<char>,
    stderr: Seq<u8>,
)
    requires
        t.len() > 0,
        !is_white_space(t[0]),
        !is_white_space(t.last()),
        forall|k: int| 0 <= k < before.len() ==> is_white_space(#[trigger] before[k]),
        forall|k: int| 0 <= k < after.len() ==> is_white_space(#[trigger] after[k]),
    ensures
        token_from_output_spec(true, encode_utf8(before + t + after), stderr) == Ok::<
            Seq<char>,
            Seq<char>,
        >(t),
{
    let text = before + t + after;
    vstd::utf8::encode_utf8_valid_utf8(text);
    vstd::utf8::encode_utf8_decode_utf8(text);
    lemma_trim_padded(before, t, after);
}

/// The text of a result of strings.
pub open spec fn text_result(r: Result<String, String>) -> Result<Seq<char>, Seq<char>> {
    match r {
        Ok(s) => Ok(s@),
        Err(e) => Err(e@),
    }
}

/// The identity token in the answer of a token command.
pub fn gcloud_output_to_token(success: bool, stdout: &[u8], stderr: &[u8]) -> (r: Result<String, String>)
    ensures
        text_result(r) == token_from_output_spec(success, stdout@, stderr@),
{
    if !success {
        let err = decode_utf8_lossy(stderr);
        let mut m = String::from_str("gcloud command failed: ");
        m.append(err.as_str());
        return Err(m);
    }
    let text = match decode_utf8_strict(stdout) {
        Ok(t) => t,
        Err(e) => {
            let mut m = String::from_str("Failed to parse gcloud output: ");
            m.append(e.as_str());
            return Err(m);
        },
    };
    let token = trim(text.as_str());
    if token.as_str().is_empty() {
        return Err(String::from_str("No token returned from gcloud"));
    }
    Ok(token)
}


/// How a run of a `gcloud` command went.
#[derive(Debug, PartialEq, Eq)]
pub enum ProbeOutcome {
    /// The command ran to its end, with its exit status (`code` is missing
    /// when a signal ended it) and what it wrote.
    Exited { success: bool, code: Option<i32>, stdout: Vec<u8>, stderr: Vec<u8> },
    /// The command could not be started; the error's text.
    SpawnFailed(String),
    /// The command was started but could not be waited for; the error's text.
    WaitFailed(String),
}

/// The note kept about a token command that ended without success.
pub open spec fn exit_diagnostic_spec(path: Seq<char>, code: Option<i32>, stdout: Seq<u8>, stderr: Seq<u8>) -> Seq<char> {
    let shown_code: int = match code {
        Some(c) => c as int,
        None => -1,
    };
    "["@ + path + "] exit="@ + signed_decimal_spec(shown_code) + " stdout='"@ + trim_spec(
        lossy_text(stdout),
    ) + "' stderr='"@ + trim_spec(lossy_text(stderr)) + "'"@
}

/// The note kept about a token command that could not be run.
pub open spec fn spawn_diagnostic_spec(path: Seq<char>, error: Seq<char>) -> Seq<char> {
    "["@ + path + "] spawn error: "@ + error
}

/// The error of a token search that found no token: when no candidate
/// could be tried, the list of candidates that were checked; otherwise the
/// notes about each candidate that failed.
pub open spec fn search_failure_spec(candidates: Seq<Seq<char>>, diagnostics: Seq<Seq<char>>) -> Seq<char> {
    if diagnostics.len() == 0 {
        "gcloud not found. Checked: "@ + join_spec(candidates, ", "@)
            + ". Ensure Google Cloud SDK is installed."@
    } else {
        "gcloud found but failed. Diagnostics: "@ + join_spec(diagnostics, " | "@)
    }
}

/// The search for an identity token over the candidate `gcloud` paths.
/// Missing candidates are skipped outside; each candidate that is run is
/// reported to `observe`, which either ends the search or keeps a note.
#[derive(Debug)]
pub struct TokenSearch {
    pub candidates: Vec<String>,
    pub diagnostics: Vec<String>,
}

impl TokenSearch {
    /// The candidates, as text.
    pub open spec fn candidates_view(&self) -> Seq<Seq<char>> {
        strings_view(self.candidates@)
    }

    /// The notes kept so far, as text.
    pub open spec fn diagnostics_view(&self) -> Seq<Seq<char>> {
        strings_view(self.diagnostics@)
    }

    /// A search over `candidates` with no notes yet.
    pub fn new(candidates: Vec<String>) -> (r: TokenSearch)
        ensures
            r.candidates_view() == strings_view(candidates@),
            r.diagnostics_view() == Seq::<Seq<char>>::empty(),
    {
        let r = TokenSearch { candidates, diagnostics: Vec::new() };
        assert(r.diagnostics_view() =~= Seq::<Seq<char>>::empty());
        r
    }

    /// Takes in how running the candidate `path` went. A successful run ends
    /// the search with what its answer yields; a failed or impossible run is
    /// noted and the search goes on.
    pub fn observe(&mut self, path: &str, outcome: ProbeOutcome) -> (r: Option<Result<String, String>>)
        ensures
            final(self).candidates_view() == old(self).candidates_view(),
            match outcome {
                ProbeOutcome::Exited { success, code, stdout, stderr } => if success {
                    &&& r matches Some(t) && text_result(t) == token_from_output_spec(true, stdout@, stderr@)
                    &&& final(self).diagnostics_view() == old(self).diagnostics_view()
                } else {
                    &&& r is None
                    &&& final(self).diagnostics_view() == old(self).diagnostics_view().push(
                        exit_diagnostic_spec(path@, code, stdout@, stderr@),
                    )
                },
                ProbeOutcome::SpawnFailed(e) => {
                    &&& r is None
                    &&& final(self).diagnostics_view() == old(self).diagnostics_view().push(
                        spawn_diagnostic_spec(path@, e@),
                    )
                },
                ProbeOutcome::WaitFailed(e) => {
                    &&& r is None
                    &&& final(self).diagnostics_view() == old(self).diagnostics_view().push(
                        spawn_diagnostic_spec(path@, e@),
                    )
                },
            },
    {
        let note = match outcome {
            ProbeOutcome::Exited { success, code, stdout, stderr } => {
                if success {
                    return Some(gcloud_output_to_token(true, stdout.as_slice(), stderr.as_slice()));
                }
                exit_diagnostic(path, code, stdout.as_slice(), stderr.as_slice())
            },
            ProbeOutcome::SpawnFailed(e) => spawn_diagnostic(path, e.as_str()),
            ProbeOutcome::WaitFailed(e) => spawn_diagnostic(path, e.as_str()),
        };
        let ghost before = self.diagnostics@;
        self.diagnostics.push(note);
        assert(strings_view(self.diagnostics@) =~= strings_view(before).push(note@));
        None
    }

    /// The error when every candidate has been tried without a token.
    pub fn failure(&self) -> (r: String)
        ensures
            r@ == search_failure_spec(self.candidates_view(), self.diagnostics_view()),
    {
        if self.diagnostics.len() == 0 {
            let mut m = String::from_str("gcloud not found. Checked: ");
            let list = join(&self.candidates, ", ");
            m.append(list.as_str());
            m.append(". Ensure Google Cloud SDK is installed.");
            m
        } else {
            let mut m = String::from_str("gcloud found but failed. Diagnostics: ");
            let list = join(&self.diagnostics, " | ");
            m.append(list.as_str());
            m
        }
    }
}

/// The note about a token command that ended without success.
pub fn exit_diagnostic(path: &str, code: Option<i32>, stdout: &[u8], stderr: &[u8]) -> (r: String)
    ensures
        r@ == exit_diagnostic_spec(path@, code, stdout@, stderr@),
{
    let shown: i64 = match code {
        Some(c) => c as i64,
        None => -1,
    };
    let out_text = decode_utf8_lossy(stdout);
    let out = trim(out_text.as_str());
    let err_text = decode_utf8_lossy(stderr);
    let err = trim(err_text.as_str());
    let mut m = String::from_str("[");
    m.append(path);
    m.append("] exit=");
    let digits = i64_to_decimal(shown);
    m.append(digits.as_str());
    m.append(" stdout='");
    m.append(out.as_str());
    m.append("' stderr='");
    m.append(err.as_str());
    m.append("'");
    m
}

/// The note about a token command that could not be run.
pub fn spawn_diagnostic(path: &str, error: &str) -> (r: String)
    ensures
        r@ == spawn_diagnostic_spec(path@, error@),
{
    let mut m = String::from_str("[");
    m.append(path);
    m.append("] spawn error: ");
    m.append(error);
    m
}

/// What to do after running the secret command at one candidate.
#[derive(Debug, PartialEq, Eq)]
pub enum SecretStep {
    /// Parse this text as the database configuration and end the search.
    Parse(String),
    /// End the search with this error.
    Fail(String),
    /// Go on with the next candidate.
    Next,
}

/// The text of a secret step.
pub open spec fn secret_step_view(s: SecretStep) -> Option<Result<Seq<char>, Seq<char>>> {
    match s {
        SecretStep::Parse(t) => Some(Ok(t@)),
        SecretStep::Fail(e) => Some(Err(e@)),
        SecretStep::Next => None,
    }
}

/// On Linux and macOS: a successful run yields its output to parse; any
/// other outcome moves on to the next candidate.
pub open spec fn unix_secret_step_spec(outcome: ProbeOutcome) -> Option<Result<Seq<char>, Seq<char>>> {
    match outcome {
        ProbeOutcome::Exited { success, stdout, .. } => if success {
            Some(Ok(lossy_text(stdout@)))
        } else {
            None
        },
        _ => None,
    }
}

/// On Windows: a successful run yields its output to parse, and every other
/// outcome ends the search with an error that says what went wrong.
pub open spec fn windows_secret_step_spec(outcome: ProbeOutcome) -> Option<Result<Seq<char>, Seq<char>>> {
    match outcome {
        ProbeOutcome::Exited { success, stdout, stderr, .. } => if success {
            Some(Ok(lossy_text(stdout@)))
        } else {
            Some(Err("Failed to access secret: "@ + lossy_text(stderr@)))
        },
        ProbeOutcome::SpawnFailed(e) => Some(Err("Failed to spawn gcloud command: "@ + e@)),
        ProbeOutcome::WaitFailed(e) => Some(Err("Failed to wait for gcloud command: "@ + e@)),
    }
}

/// A successful secret command hands over all it wrote, decoded: for output
/// that is the UTF-8 text `text`, exactly `text`, line breaks and all, on
/// either system; for output that is not UTF-8, its lossy decoding.
pub proof fn lemma_secret_text_is_whole_output(
    code: Option<i32>,
    stdout: Vec<u8>,
    stderr: Vec<u8>,
    text: Seq<char>,
)
    ensures
        stdout@ == encode_utf8(text) ==> {
            let outcome = ProbeOutcome::Exited { success: true, code, stdout, stderr };
            &&& unix_secret_step_spec(outcome) == Some(Ok::<Seq<char>, Seq<char>>(text))
            &&& windows_secret_step_spec(outcome) == Some(Ok::<Seq<char>, Seq<char>>(text))
        },
        !valid_utf8(stdout@) ==> {
            let outcome = ProbeOutcome::Exited { success: true, code, stdout, stderr };
            &&& unix_secret_step_spec(outcome) == Some(
                Ok::<Seq<char>, Seq<char>>(utf8_lossy_text(stdout@)),
            )
            &&& windows_secret_step_spec(outcome) == Some(
                Ok::<Seq<char>, Seq<char>>(utf8_lossy_text(stdout@)),
            )
        },
{
    vstd::utf8::encode_utf8_valid_utf8(text);
    vstd::utf8::encode_utf8_decode_utf8(text);
}

/// What to do after running the secret command at a candidate on Linux
/// and macOS.
pub fn unix_secret_step(outcome: ProbeOutcome) -> (r: SecretStep)
    ensures
        secret_step_view(r) == unix_secret_step_spec(outcome),
{
    match outcome {
        ProbeOutcome::Exited { success, stdout, .. } => if success {
            SecretStep::Parse(decode_utf8_lossy(stdout.as_slice()))
        } else {
            SecretStep::Next
        },
        _ => SecretStep::Next,
    }
}

/// What to do after running the secret command at a candidate on Windows.
pub fn windows_secret_step(outcome: ProbeOutcome) -> (r: SecretStep)
    ensures
        secret_step_view(r) == windows_secret_step_spec(outcome),
{
    match outcome {
        ProbeOutcome::Exited { success, stdout, stderr, .. } => if success {
            SecretStep::Parse(decode_utf8_lossy(stdout.as_slice()))
        } else {
            let err = decode_utf8_lossy(stderr.as_slice());
            let mut m = String::from_str("Failed to access secret: ");
            m.append(err.as_str());
            SecretStep::Fail(m)
        },
        ProbeOutcome::SpawnFailed(e) => {
            let mut m = String::from_str("Failed to spawn gcloud command: ");
            m.append(e.as_str());
            SecretStep::Fail(m)
        },
        ProbeOutcome::WaitFailed(e) => {
            let mut m = String::from_str("Failed to wait for gcloud command: ");
            m.append(e.as_str());
            SecretStep::Fail(m)
        },
    }
}

/// The error when no candidate on Windows could be asked for the secret.
pub const GCLOUD_NOT_FOUND: &'static str = "gcloud not found";

} // verus!
