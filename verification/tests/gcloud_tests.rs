use api_tester::gcloud::{
    account_command, account_from_output, account_or_unknown, exit_diagnostic, gcloud_output_to_token,
    gcloud_search_path, secret_command, spawn_diagnostic, unix_gcloud_candidates, unix_secret_step,
    unix_token_command, windows_gcloud_candidates, windows_secret_step, windows_token_command, ProbeOutcome,
    SecretStep, TokenSearch, GCLOUD_NOT_CONFIGURED, GCLOUD_NOT_FOUND,
};

fn strings(v: &[&str]) -> Vec<String> {
    v.iter().map(|s| s.to_string()).collect()
}

fn exited(success: bool, code: Option<i32>, stdout: &[u8], stderr: &[u8]) -> ProbeOutcome {
    ProbeOutcome::Exited { success, code, stdout: stdout.to_vec(), stderr: stderr.to_vec() }
}

#[test]
fn unix_candidates() {
    assert_eq!(
        unix_gcloud_candidates("/home/ana"),
        strings(&["/opt/homebrew/bin/gcloud", "/usr/local/bin/gcloud", "/home/ana/google-cloud-sdk/bin/gcloud"])
    );
    assert_eq!(unix_gcloud_candidates("")[2], "/google-cloud-sdk/bin/gcloud");
}

#[test]
fn windows_candidates() {
    let system = windows_gcloud_candidates(None);
    assert_eq!(system.len(), 2);
    assert_eq!(system[0], r"C:\Program Files (x86)\Google\Cloud SDK\google-cloud-sdk\bin\gcloud.cmd");
    assert_eq!(system[1], r"C:\Program Files\Google\Cloud SDK\google-cloud-sdk\bin\gcloud.cmd");
    let with_user = windows_gcloud_candidates(Some("ana"));
    assert_eq!(with_user.len(), 3);
    assert_eq!(with_user[2], r"C:\Users\ana\AppData\Local\Google\Cloud SDK\google-cloud-sdk\bin\gcloud.cmd");
}

#[test]
fn token_commands() {
    assert_eq!(
        gcloud_search_path("/home/ana"),
        "/opt/homebrew/bin:/opt/homebrew/sbin:/usr/local/bin:/usr/local/google-cloud-sdk/bin:/home/ana/.local/bin:/usr/bin:/bin:/usr/sbin:/sbin"
    );
    let unix = unix_token_command("/h", "/usr/local/bin/gcloud");
    assert_eq!(unix.program, "/bin/sh");
    assert_eq!(unix.args[0], "-c");
    assert_eq!(
        unix.args[1],
        format!("PATH=\"{}\" \"/usr/local/bin/gcloud\" auth print-identity-token", gcloud_search_path("/h"))
    );
    let win = windows_token_command("g.cmd");
    assert_eq!(win.program, "g.cmd");
    assert_eq!(win.args, strings(&["auth", "print-identity-token"]));
}

#[test]
fn account_and_secret_commands() {
    let a = account_command("gcloud");
    assert_eq!(a.args, strings(&["config", "get-value", "account"]));
    let s = secret_command("gcloud", "db-secret");
    assert_eq!(s.args, strings(&["secrets", "versions", "access", "latest", "--secret=db-secret"]));
}

#[test]
fn account_is_the_user_name_before_the_at_sign() {
    assert_eq!(account_from_output(true, b"ana.silva@example.com\n"), Some("ana.silva".to_string()));
    assert_eq!(account_from_output(true, b"  service-account  \n"), Some("service-account".to_string()));
    assert_eq!(account_from_output(true, b"@example.com"), Some(String::new()));
}

#[test]
fn no_account_from_failure_or_blank_output() {
    assert_eq!(account_from_output(false, b"ana@example.com"), None);
    assert_eq!(account_from_output(true, b" \n"), None);
    assert_eq!(account_from_output(true, b""), None);
}

#[test]
fn account_falls_back_to_unknown() {
    assert_eq!(account_or_unknown(Ok("ana".into())), "ana");
    assert_eq!(account_or_unknown(Err(GCLOUD_NOT_CONFIGURED.into())), "unknown");
}

#[test]
fn token_from_output() {
    assert_eq!(gcloud_output_to_token(true, b"eyJ.abc.def\n", b""), Ok("eyJ.abc.def".to_string()));
    assert_eq!(gcloud_output_to_token(true, b"  \n", b""), Err("No token returned from gcloud".to_string()));
    assert_eq!(
        gcloud_output_to_token(false, b"", b"ERROR: not logged in"),
        Err("gcloud command failed: ERROR: not logged in".to_string())
    );
}

#[test]
fn token_output_that_is_not_utf8() {
    let bad = [0x66u8, 0xff, 0x67];
    let expected = String::from_utf8(bad.to_vec()).unwrap_err().to_string();
    assert_eq!(
        gcloud_output_to_token(true, &bad, b""),
        Err(format!("Failed to parse gcloud output: {}", expected))
    );
}

#[test]
fn failed_command_stderr_is_read_lossily() {
    assert_eq!(
        gcloud_output_to_token(false, b"", &[b'x', 0xff]),
        Err("gcloud command failed: x\u{fffd}".to_string())
    );
}

#[test]
fn diagnostics() {
    assert_eq!(
        exit_diagnostic("/usr/local/bin/gcloud", Some(1), b" out \n", b"err\n"),
        "[/usr/local/bin/gcloud] exit=1 stdout='out' stderr='err'"
    );
    assert_eq!(exit_diagnostic("g", None, b"", b""), "[g] exit=-1 stdout='' stderr=''");
    assert_eq!(spawn_diagnostic("g", "permission denied"), "[g] spawn error: permission denied");
}

#[test]
fn search_ends_at_the_first_successful_run() {
    let mut search = TokenSearch::new(strings(&["a", "b"]));
    assert_eq!(search.observe("a", exited(true, Some(0), b"tok\n", b"")), Some(Ok("tok".to_string())));
    assert!(search.diagnostics.is_empty());
}

#[test]
fn search_notes_each_failure_in_order() {
    let mut search = TokenSearch::new(strings(&["a", "b", "c"]));
    assert_eq!(search.observe("a", exited(false, Some(2), b"", b"boom")), None);
    assert_eq!(search.observe("b", ProbeOutcome::SpawnFailed("denied".into())), None);
    assert_eq!(
        search.failure(),
        "gcloud found but failed. Diagnostics: [a] exit=2 stdout='' stderr='boom' | [b] spawn error: denied"
    );
}

#[test]
fn search_without_any_run_lists_the_candidates() {
    let search = TokenSearch::new(strings(&["a", "b"]));
    assert_eq!(search.failure(), "gcloud not found. Checked: a, b. Ensure Google Cloud SDK is installed.");
}

#[test]
fn unix_secret_steps() {
    assert_eq!(unix_secret_step(exited(true, Some(0), b"{\"host\":1}", b"")), SecretStep::Parse("{\"host\":1}".into()));
    assert_eq!(unix_secret_step(exited(false, Some(1), b"", b"denied")), SecretStep::Next);
    assert_eq!(unix_secret_step(ProbeOutcome::SpawnFailed("x".into())), SecretStep::Next);
    assert_eq!(GCLOUD_NOT_CONFIGURED, "gcloud not found or not configured");
}

#[test]
fn windows_secret_steps() {
    assert_eq!(windows_secret_step(exited(true, Some(0), b"{}", b"")), SecretStep::Parse("{}".into()));
    assert_eq!(
        windows_secret_step(exited(false, Some(1), b"", b"denied")),
        SecretStep::Fail("Failed to access secret: denied".into())
    );
    assert_eq!(
        windows_secret_step(ProbeOutcome::SpawnFailed("no such file".into())),
        SecretStep::Fail("Failed to spawn gcloud command: no such file".into())
    );
    assert_eq!(
        windows_secret_step(ProbeOutcome::WaitFailed("interrupted".into())),
        SecretStep::Fail("Failed to wait for gcloud command: interrupted".into())
    );
    assert_eq!(GCLOUD_NOT_FOUND, "gcloud not found");
}

#[test]
fn token_output_in_multibyte_utf8_is_decoded() {
    assert_eq!(gcloud_output_to_token(true, "tök€n\n".as_bytes(), b""), Ok("tök€n".to_string()));
}

#[test]
fn account_user_names_hold_no_at_sign() {
    let user = account_from_output(true, "  ana@x@y \n".as_bytes()).unwrap();
    assert!(!user.contains('@'));
    assert_eq!(user, "ana");
}
