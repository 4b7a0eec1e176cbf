//! Text helpers with exact contracts: whitespace trimming as `str::trim`
//! does it, decimal formatting of integers, joining with a separator and
//! cutting a string at the first occurrence of a character.

use vstd::prelude::*;

verus! {

/// `String::push` appends one character.
pub assume_specification[ String::push ](s: &mut String, ch: char)
    ensures
        final(s)@ == old(s)@.push(ch),
;

/// The Unicode `White_Space` property, the set of characters that
/// `char::is_whitespace` and `str::trim` treat as whitespace.
pub open spec fn is_white_space(c: char) -> bool {
    let u = c as u32;
    ||| 0x09 <= u <= 0x0d
    ||| u == 0x20
    ||| u == 0x85
    ||| u == 0xa0
    ||| u == 0x1680
    ||| 0x2000 <= u <= 0x200a
    ||| u == 0x2028
    ||| u == 0x2029
    ||| u == 0x202f
    ||| u == 0x205f
    ||| u == 0x3000
}

/// `s` without its leading whitespace.
pub open spec fn trim_start_spec(s: Seq<char>) -> Seq<char>
    decreases s.len(),
{
    if s.len() > 0 && is_white_space(s[0]) {
        trim_start_spec(s.drop_first())
    } else {
        s
    }
}

/// `s` without its trailing whitespace.
pub open spec fn trim_end_spec(s: Seq<char>) -> Seq<char>
    decreases s.len(),
{
    if s.len() > 0 && is_white_space(s.last()) {
        trim_end_spec(s.drop_last())
    } else {
        s
    }
}

/// `s` without leading and trailing whitespace, as `str::trim` gives it.
pub open spec fn trim_spec(s: Seq<char>) -> Seq<char> {
    trim_end_spec(trim_start_spec(s))
}

/// Whether `c` is a Unicode whitespace character.
pub fn is_white_space_char(c: char) -> (r: bool)
    ensures
        r == is_white_space(c),
{
    let u = c as u32;
    (0x09 <= u && u <= 0x0d) || u == 0x20 || u == 0x85 || u == 0xa0 || u == 0x1680 || (0x2000
        <= u && u <= 0x200a) || u == 0x2028 || u == 0x2029 || u == 0x202f || u == 0x205f || u
        == 0x3000
}

proof fn lemma_trim_start_skip(s: Seq<char>, i: int)
    requires
        0 <= i < s.len(),
        is_white_space(s[i]),
    ensures
        trim_start_spec(s.skip(i)) == trim_start_spec(s.skip(i + 1)),
{
    assert(s.skip(i).drop_first() =~= s.skip(i + 1));
}

proof fn lemma_trim_end_take(s: Seq<char>, k: int)
    requires
        0 < k <= s.len(),
        is_white_space(s[k - 1]),
    ensures
        trim_end_spec(s.take(k)) == trim_end_spec(s.take(k - 1)),
{
    assert(s.take(k).drop_last() =~= s.take(k - 1));
}

/// Removes leading and trailing whitespace, as `str::trim` does.
pub fn trim(s: &str) -> (r: String)
    ensures
        r@ == trim_spec(s@),
{
    let len = s.unicode_len();
    let mut a: usize = 0;
    assert(s@.skip(0) =~= s@);
    while a < len && is_white_space_char(s.get_char(a))
        invariant
            len == s@.len(),
            a <= len,
            trim_start_spec(s@) == trim_start_spec(s@.skip(a as int)),
        decreases len - a,
    {
        proof {
            lemma_trim_start_skip(s@, a as int);
        }
        a = a + 1;
    }
    let ghost front = s@.skip(a as int);
    assert(trim_start_spec(s@) == front) by {
        if a < len {
            assert(front[0] == s@[a as int]);
        }
    }
    let mut b: usize = len;
    assert(front.take((b - a) as int) =~= front);
    while b > a && is_white_space_char(s.get_char(b - 1))
        invariant
            len == s@.len(),
            a <= b <= len,
            front == s@.skip(a as int),
            trim_end_spec(front) == trim_end_spec(front.take((b - a) as int)),
        decreases b,
    {
        proof {
            assert(front[(b - a) - 1] == s@[b - 1]);
            lemma_trim_end_take(front, (b - a) as int);
        }
        b = b - 1;
    }
    let ghost kept = front.take((b - a) as int);
    assert(trim_end_spec(kept) == kept) by {
        if b > a {
            assert(kept.last() == s@[b - 1]);
        }
    }
    let sub = s.substring_char(a, b);
    assert(sub@ =~= kept);
    sub.to_owned()
}

/// Whether `c` is one of the ASCII digits `0` to `9`.
pub open spec fn is_digit(c: char) -> bool {
    '0' <= c <= '9'
}

/// The ASCII digit of a number below ten.
pub open spec fn digit_char(d: nat) -> char {
    ((d + 48) as u32) as char
}

/// The decimal notation of `n`, without sign or leading zeros.
pub open spec fn decimal_spec(n: nat) -> Seq<char>
    decreases n,
{
    if n < 10 {
        seq![digit_char(n)]
    } else {
        decimal_spec(n / 10).push(digit_char(n % 10))
    }
}

/// The decimal notation of `i`, with a leading `-` when it is negative, as
/// `Display` writes integers.
pub open spec fn signed_decimal_spec(i: int) -> Seq<char> {
    if i < 0 {
        seq!['-'] + decimal_spec((-i) as nat)
    } else {
        decimal_spec(i as nat)
    }
}

fn digit(d: u64) -> (c: char)
    requires
        d < 10,
    ensures
        c == digit_char(d as nat),
{
    let b: u8 = (d as u8) + 48;
    b as char
}

/// Writes `n` in decimal.
pub fn u64_to_decimal(n: u64) -> (r: String)
    ensures
        r@ == decimal_spec(n as nat),
    decreases n,
{
    if n < 10 {
        let mut s = String::new();
        s.push(digit(n));
        assert(s@ =~= seq![digit_char(n as nat)]);
        s
    } else {
        let mut s = u64_to_decimal(n / 10);
        s.push(digit(n % 10));
        s
    }
}

/// Writes `i` in decimal, with a leading `-` when it is negative.
pub fn i64_to_decimal(i: i64) -> (r: String)
    ensures
        r@ == signed_decimal_spec(i as int),
{
    if i < 0 {
        let n: u64 = ((-(i + 1)) as u64) + 1;
        let digits = u64_to_decimal(n);
        let mut s = String::new();
        s.push('-');
        s.append(digits.as_str());
        assert(s@ =~= seq!['-'] + decimal_spec((-i) as nat));
        s
    } else {
        u64_to_decimal(i as u64)
    }
}


/// The characters of `s` before the first `c`; all of `s` when `c` does
/// not occur. This is the first piece that `str::split(c)` yields.
pub open spec fn until_char_spec(s: Seq<char>, c: char) -> Seq<char>
    decreases s.len(),
{
    if s.len() == 0 || s[0] == c {
        seq![]
    } else {
        seq![s[0]] + until_char_spec(s.drop_first(), c)
    }
}

/// The characters of `s` before the first occurrence of `c`.
pub fn until_char(s: &str, c: char) -> (r: String)
    ensures
        r@ == until_char_spec(s@, c),
{
    let len = s.unicode_len();
    let mut i: usize = 0;
    assert(s@.skip(0) =~= s@);
    assert(s@.take(0) + until_char_spec(s@, c) =~= until_char_spec(s@, c));
    while i < len && s.get_char(i) != c
        invariant
            len == s@.len(),
            i <= len,
            until_char_spec(s@, c) == s@.take(i as int) + until_char_spec(s@.skip(i as int), c),
        decreases len - i,
    {
        proof {
            let rest = s@.skip(i as int);
            assert(rest[0] == s@[i as int]);
            assert(rest.drop_first() =~= s@.skip(i + 1));
            assert(s@.take(i as int) + (seq![s@[i as int]] + until_char_spec(s@.skip(i + 1), c))
                =~= s@.take(i + 1) + until_char_spec(s@.skip(i + 1), c));
        }
        i = i + 1;
    }
    proof {
        let rest = s@.skip(i as int);
        if i < len {
            assert(rest[0] == s@[i as int]);
        }
        assert(until_char_spec(rest, c) =~= seq![]);
        assert(s@.take(i as int) + seq![] =~= s@.take(i as int));
    }
    let sub = s.substring_char(0, i);
    assert(sub@ =~= s@.take(i as int));
    sub.to_owned()
}

/// The pieces of `items` with `sep` between each two neighbours, as
/// `[T]::join` gives them.
pub open spec fn join_spec(items: Seq<Seq<char>>, sep: Seq<char>) -> Seq<char>
    decreases items.len(),
{
    if items.len() == 0 {
        seq![]
    } else if items.len() == 1 {
        items[0]
    } else {
        join_spec(items.drop_last(), sep) + sep + items.last()
    }
}

/// The characters of each string of `v`.
pub open spec fn strings_view(v: Seq<String>) -> Seq<Seq<char>> {
    v.map_values(|s: String| s@)
}

/// Joins `items` with `sep` between each two neighbours.
pub fn join(items: &Vec<String>, sep: &str) -> (r: String)
    ensures
        r@ == join_spec(strings_view(items@), sep@),
{
    let mut r = String::new();
    let ghost all = strings_view(items@);
    let mut i: usize = 0;
    assert(all.take(0) =~= Seq::<Seq<char>>::empty());
    while i < items.len()
        invariant
            i <= items.len(),
            all == strings_view(items@),
            all.len() == items.len(),
            r@ == join_spec(all.take(i as int), sep@),
        decreases items.len() - i,
    {
        assert(all.take(i + 1).drop_last() =~= all.take(i as int));
        if i > 0 {
            r.append(sep);
        }
        r.append(items[i].as_str());
        proof {
            if i == 0 {
                assert(r@ =~= all.take(1)[0]);
            }
        }
        i = i + 1;
    }
    assert(all.take(items.len() as int) =~= all);
    r
}

/// The number that a string of decimal digits stands for.
pub open spec fn decimal_value(s: Seq<char>) -> nat
    decreases s.len(),
{
    if s.len() == 0 {
        0
    } else {
        decimal_value(s.drop_last()) * 10 + ((s.last() as u32) - 48) as nat
    }
}

/// Decimal notation loses nothing: it uses digits only, starts with no
/// superfluous zero, and reads back as the number it was written from.
pub proof fn lemma_decimal_reads_back(n: nat)
    ensures
        decimal_value(decimal_spec(n)) == n,
        decimal_spec(n).len() >= 1,
        forall|k: int| 0 <= k < decimal_spec(n).len() ==> is_digit(#[trigger] decimal_spec(n)[k]),
        decimal_spec(n).len() > 1 ==> decimal_spec(n)[0] != '0',
    decreases n,
{
    let s = decimal_spec(n);
    if n >= 10 {
        lemma_decimal_reads_back(n / 10);
        assert(s.drop_last() =~= decimal_spec(n / 10));
        assert(((digit_char(n % 10) as u32) - 48) as nat == n % 10);
        assert(n == (n / 10) * 10 + n % 10) by (nonlinear_arith);
        assert(s.last() == digit_char(n % 10));
        assert(decimal_value(s) == decimal_value(decimal_spec(n / 10)) * 10 + n % 10);
        assert(forall|k: int| 0 <= k < s.len() - 1 ==> s[k] == decimal_spec(n / 10)[k]);
        assert(s[0] == decimal_spec(n / 10)[0]);
        if n / 10 < 10 {
            assert(decimal_spec(n / 10)[0] == digit_char(n / 10));
            assert(digit_char(n / 10) as u32 == n / 10 + 48);
            assert(digit_char(n / 10) != '0');
        } else {
            lemma_decimal_reads_back(n / 100);
            assert(n / 10 / 10 == n / 100);
            assert(decimal_spec(n / 10) == decimal_spec(n / 100).push(digit_char((n / 10) % 10)));
            assert(decimal_spec(n / 10).len() > 1);
        }
    } else {
        assert(s.drop_last() =~= Seq::<char>::empty());
        assert(decimal_value(Seq::<char>::empty()) == 0);
        assert(digit_char(n) as u32 == n + 48);
        assert(s.last() == digit_char(n));
        assert(decimal_value(s) == n);
    }
}


proof fn lemma_trim_start_shape(s: Seq<char>)
    ensures
        trim_start_spec(s).len() <= s.len(),
        trim_start_spec(s) == s.skip(s.len() - trim_start_spec(s).len()),
        trim_start_spec(s).len() > 0 ==> !is_white_space(trim_start_spec(s)[0]),
        trim_start_spec(s).len() > 0 ==> trim_start_spec(s).last() == s.last(),
    decreases s.len(),
{
    if s.len() > 0 && is_white_space(s[0]) {
        lemma_trim_start_shape(s.drop_first());
        let t = trim_start_spec(s.drop_first());
        assert(s.drop_first().skip(s.drop_first().len() - t.len()) =~= s.skip(s.len() - t.len()));
    } else {
        assert(s.skip(0) =~= s);
    }
}

proof fn lemma_trim_end_shape(s: Seq<char>)
    ensures
        trim_end_spec(s).len() <= s.len(),
        trim_end_spec(s) == s.take(trim_end_spec(s).len() as int),
        trim_end_spec(s).len() > 0 ==> !is_white_space(trim_end_spec(s).last()),
        trim_end_spec(s).len() > 0 ==> trim_end_spec(s)[0] == s[0],
    decreases s.len(),
{
    if s.len() > 0 && is_white_space(s.last()) {
        lemma_trim_end_shape(s.drop_last());
        let t = trim_end_spec(s.drop_last());
        assert(s.drop_last().take(t.len() as int) =~= s.take(t.len() as int));
    } else {
        assert(s.take(s.len() as int) =~= s);
    }
}

/// Trimming leaves a piece of the text that neither starts nor ends with
/// whitespace, and trimming that piece again changes nothing.
pub proof fn lemma_trim_law(s: Seq<char>)
    ensures
        trim_spec(s).len() > 0 ==> !is_white_space(trim_spec(s)[0]),
        trim_spec(s).len() > 0 ==> !is_white_space(trim_spec(s).last()),
        exists|a: int, b: int| 0 <= a <= b <= s.len() && trim_spec(s) == s.subrange(a, b),
        trim_spec(trim_spec(s)) == trim_spec(s),
{
    let f = trim_start_spec(s);
    let t = trim_spec(s);
    lemma_trim_start_shape(s);
    lemma_trim_end_shape(f);
    let a = s.len() - f.len();
    assert(t =~= s.subrange(a, a + t.len()));
    if t.len() > 0 {
        assert(t[0] == f[0]);
        assert(!is_white_space(t[0]));
        assert(trim_start_spec(t) == t);
        assert(trim_end_spec(t) == t);
    } else {
        assert(trim_start_spec(t) == t);
        assert(trim_end_spec(t) == t);
    }
}

/// Trimming text that is `t` padded with whitespace on either side gives
/// exactly `t`, when `t` neither starts nor ends with whitespace.
pub proof fn lemma_trim_padded(before: Seq<char>, t: Seq<char>, after: Seq<char>)
    requires
        t.len() > 0,
        !is_white_space(t[0]),
        !is_white_space(t.last()),
        forall|k: int| 0 <= k < before.len() ==> is_white_space(#[trigger] before[k]),
        forall|k: int| 0 <= k < after.len() ==> is_white_space(#[trigger] after[k]),
    ensures
        trim_spec(before + t + after) == t,
    decreases before.len() + after.len(),
{
    if before.len() > 0 {
        let s = before + t + after;
        assert(s[0] == before[0]);
        assert(s.drop_first() =~= before.drop_first() + t + after);
        lemma_trim_padded(before.drop_first(), t, after);
    } else if after.len() > 0 {
        let s = before + t + after;
        assert(s =~= t + after);
        assert(trim_start_spec(s) == s) by {
            assert(s[0] == t[0]);
        }
        assert(s.last() == after.last());
        assert(s.drop_last() =~= before + t + after.drop_last());
        lemma_trim_padded(before, t, after.drop_last());
        let r = before + t + after.drop_last();
        assert(r =~= t + after.drop_last());
        assert(trim_start_spec(r) == r) by {
            assert(r[0] == t[0]);
        }
    } else {
        let s = before + t + after;
        assert(s =~= t);
        assert(trim_start_spec(t) == t);
        assert(trim_end_spec(t) == t);
    }
}

proof fn lemma_until_char_shape(s: Seq<char>, c: char)
    ensures
        until_char_spec(s, c).len() <= s.len(),
        until_char_spec(s, c) == s.take(until_char_spec(s, c).len() as int),
        !until_char_spec(s, c).contains(c),
        until_char_spec(s, c).len() < s.len() ==> s[until_char_spec(s, c).len() as int] == c,
    decreases s.len(),
{
    if s.len() > 0 && s[0] != c {
        lemma_until_char_shape(s.drop_first(), c);
        let u = until_char_spec(s.drop_first(), c);
        let r = until_char_spec(s, c);
        assert(r =~= s.take(r.len() as int));
        assert forall|k: int| 0 <= k < r.len() implies r[k] != c by {
            if k > 0 {
                assert(r[k] == u[k - 1]);
            }
        }
    } else {
        assert(until_char_spec(s, c) =~= s.take(0));
    }
}

/// The text before the first `c` is the longest start of the text without
/// `c`: it holds no `c`, and when it is not the whole text, a `c` follows it.
pub proof fn lemma_until_char_law(s: Seq<char>, c: char)
    ensures
        until_char_spec(s, c).len() <= s.len(),
        s.take(until_char_spec(s, c).len() as int) == until_char_spec(s, c),
        !until_char_spec(s, c).contains(c),
        until_char_spec(s, c).len() < s.len() ==> s[until_char_spec(s, c).len() as int] == c,
        !s.contains(c) ==> until_char_spec(s, c) == s,
{
    lemma_until_char_shape(s, c);
    let u = until_char_spec(s, c);
    if !s.contains(c) && u.len() < s.len() {
        assert(s[u.len() as int] == c);
        assert(false);
    }
    if u.len() == s.len() {
        assert(s.take(s.len() as int) =~= s);
    }
}

} // verus!
