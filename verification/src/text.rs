//! Character-level helpers shared by the URL and settings builders.

use vstd::prelude::*;

verus! {

/// Appends one character to a string.
///
/// Trusted: std's `String::push`, which appends `c` at the end.
#[verifier::external_body]
pub(crate) fn push_char(s: &mut String, c: char)
    ensures
        final(s)@ == old(s)@.push(c),
{
    s.push(c);
}

/// The text of an optional string.
pub open spec fn opt_text(o: Option<String>) -> Option<Seq<char>> {
    match o {
        Some(s) => Some(s@),
        None => None,
    }
}

/// The texts of a list of string pairs.
pub open spec fn pairs_text(p: Seq<(String, String)>) -> Seq<(Seq<char>, Seq<char>)> {
    Seq::new(p.len(), |i: int| (p[i].0@, p[i].1@))
}

/// A pair of strings made from two texts.
pub fn text_pair(k: &str, v: &str) -> (res: (String, String))
    ensures
        res.0@ == k@,
        res.1@ == v@,
{
    (String::from_str(k), String::from_str(v))
}

/// `s` with every trailing `/` removed.
pub open spec fn trim_trailing_slashes(s: Seq<char>) -> Seq<char>
    decreases s.len(),
{
    if s.len() > 0 && s.last() == '/' {
        trim_trailing_slashes(s.drop_last())
    } else {
        s
    }
}

/// Whether `s` ends with `/v1`.
pub open spec fn ends_with_v1(s: Seq<char>) -> bool {
    s.len() >= 3 && s[s.len() - 3] == '/' && s[s.len() - 2] == 'v' && s[s.len() - 1] == '1'
}

/// A base URL with its trailing slashes removed and then one trailing `/v1`
/// removed, if there is one.
pub open spec fn base_without_v1(s: Seq<char>) -> Seq<char> {
    let t = trim_trailing_slashes(s);
    if ends_with_v1(t) {
        t.subrange(0, t.len() - 3)
    } else {
        t
    }
}

/// Number of leading characters of `s` that remain once trailing slashes are removed.
fn trimmed_len(s: &str) -> (n: usize)
    ensures
        n <= s@.len(),
        s@.subrange(0, n as int) == trim_trailing_slashes(s@),
{
    let len = s.unicode_len();
    let mut end = len;
    assert(s@.subrange(0, len as int) =~= s@);
    while end > 0 && s.get_char(end - 1) == '/'
        invariant
            end <= len,
            len == s@.len(),
            trim_trailing_slashes(s@.subrange(0, end as int)) == trim_trailing_slashes(s@),
        decreases end,
    {
        assert(s@.subrange(0, end as int).drop_last() =~= s@.subrange(0, end - 1));
        end = end - 1;
    }
    end
}

/// Removes trailing slashes, then one trailing `/v1`.
pub fn strip_base_v1(base: &str) -> (res: String)
    ensures
        res@ == base_without_v1(base@),
{
    let n = trimmed_len(base);
    let mut keep = n;
    if n >= 3 && base.get_char(n - 3) == '/' && base.get_char(n - 2) == 'v' && base.get_char(n - 1) == '1' {
        keep = n - 3;
    }
    assert(base@.subrange(0, keep as int) =~= base_without_v1(base@).subrange(0, keep as int)) by {
        let t = base@.subrange(0, n as int);
        assert(t.subrange(0, keep as int) =~= base@.subrange(0, keep as int));
    }
    String::from_str(base.substring_char(0, keep))
}

/// `s` with every trailing `/v1` segment removed (slashes are not touched).
pub open spec fn strip_v1_segments(s: Seq<char>) -> Seq<char>
    decreases s.len(),
{
    if ends_with_v1(s) {
        strip_v1_segments(s.subrange(0, s.len() - 3))
    } else {
        s
    }
}

/// A base URL with its trailing slashes removed, then every trailing `/v1`
/// segment removed.
pub open spec fn base_without_v1s(s: Seq<char>) -> Seq<char> {
    strip_v1_segments(trim_trailing_slashes(s))
}

/// What remains after removing the `/v1` segments no longer ends in `/v1`,
/// and removing them again changes nothing.
pub proof fn lemma_strip_v1_segments_done(s: Seq<char>)
    ensures
        !ends_with_v1(strip_v1_segments(s)),
        strip_v1_segments(strip_v1_segments(s)) == strip_v1_segments(s),
    decreases s.len(),
{
    if ends_with_v1(s) {
        lemma_strip_v1_segments_done(s.subrange(0, s.len() - 3));
    }
}

/// Removes trailing slashes, then every trailing `/v1` segment.
pub fn strip_all_v1(base: &str) -> (res: String)
    ensures
        res@ == base_without_v1s(base@),
{
    let n = trimmed_len(base);
    let mut end = n;
    let ghost t0 = base@.subrange(0, n as int);
    while end >= 3 && base.get_char(end - 3) == '/' && base.get_char(end - 2) == 'v'
        && base.get_char(end - 1) == '1'
        invariant
            end <= n,
            n <= base@.len(),
            t0 == base@.subrange(0, n as int),
            t0 == trim_trailing_slashes(base@),
            strip_v1_segments(base@.subrange(0, end as int)) == strip_v1_segments(t0),
        decreases end,
    {
        let ghost t = base@.subrange(0, end as int);
        assert(ends_with_v1(t));
        assert(t.subrange(0, t.len() - 3) =~= base@.subrange(0, end - 3));
        end = end - 3;
    }
    let ghost t = base@.subrange(0, end as int);
    assert(!ends_with_v1(t));
    String::from_str(base.substring_char(0, end))
}

/// The decimal digit character for `d`.
pub open spec fn digit_char(d: nat) -> char {
    if d == 0 { '0' }
    else if d == 1 { '1' }
    else if d == 2 { '2' }
    else if d == 3 { '3' }
    else if d == 4 { '4' }
    else if d == 5 { '5' }
    else if d == 6 { '6' }
    else if d == 7 { '7' }
    else if d == 8 { '8' }
    else { '9' }
}

/// Decimal representation of `n`, without leading zeros.
pub open spec fn decimal(n: nat) -> Seq<char>
    decreases n,
{
    if n < 10 {
        seq![digit_char(n)]
    } else {
        decimal(n / 10).push(digit_char(n % 10))
    }
}

fn digit(d: u32) -> (c: char)
    requires
        d < 10,
    ensures
        c == digit_char(d as nat),
{
    if d == 0 { '0' }
    else if d == 1 { '1' }
    else if d == 2 { '2' }
    else if d == 3 { '3' }
    else if d == 4 { '4' }
    else if d == 5 { '5' }
    else if d == 6 { '6' }
    else if d == 7 { '7' }
    else if d == 8 { '8' }
    else { '9' }
}

/// Appends the decimal representation of `n`.
pub fn push_decimal(s: &mut String, n: u32)
    ensures
        final(s)@ == old(s)@ + decimal(n as nat),
    decreases n,
{
    if n >= 10 {
        push_decimal(s, n / 10);
    }
    push_char(s, digit(n % 10));
    assert(final(s)@ =~= old(s)@ + decimal(n as nat));
}

/// The number that a text of decimal digits denotes, reading each digit by
/// its character code (`'0'` is 48).
pub open spec fn decimal_value(s: Seq<char>) -> int
    decreases s.len(),
{
    if s.len() == 0 {
        0
    } else {
        decimal_value(s.drop_last()) * 10 + (s.last() as int - 48)
    }
}

/// Each digit character is the character whose code is `'0'` plus the digit.
pub proof fn lemma_digit_char_code(d: nat)
    requires
        d < 10,
    ensures
        digit_char(d) as int == 48 + d,
{
}

/// The decimal text of `n` consists of digits `0`–`9`, is never empty, and
/// reads back as `n`.
pub proof fn lemma_decimal_reads_back(n: nat)
    ensures
        decimal(n).len() > 0,
        forall|i: int| 0 <= i < decimal(n).len() ==> '0' <= #[trigger] decimal(n)[i] <= '9',
        decimal_value(decimal(n)) == n,
    decreases n,
{
    lemma_digit_char_code(n % 10);
    if n >= 10 {
        lemma_decimal_reads_back(n / 10);
        let d = decimal(n);
        assert(d.drop_last() =~= decimal(n / 10));
        assert forall|i: int| 0 <= i < d.len() implies '0' <= #[trigger] d[i] <= '9' by {
            if i < d.len() - 1 {
                assert(d[i] == decimal(n / 10)[i]);
            }
        }
        assert(d.last() == digit_char(n % 10));
        assert(decimal_value(d) == decimal_value(d.drop_last()) * 10 + (d.last() as int - 48));
        assert(decimal_value(d) == (n / 10) * 10 + (n % 10)) by (nonlinear_arith)
            requires
                decimal_value(d) == decimal_value(d.drop_last()) * 10 + (d.last() as int - 48),
                decimal_value(d.drop_last()) == n / 10,
                d.last() as int == 48 + n % 10,
        ;
        assert(n == (n / 10) * 10 + n % 10);
    } else {
        let d = decimal(n);
        assert(d.drop_last() =~= Seq::<char>::empty());
        assert(d.last() == digit_char(n));
        assert(decimal_value(d) == decimal_value(d.drop_last()) * 10 + (d.last() as int - 48));
    }
}

} // verus!
