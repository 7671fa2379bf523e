//! Small string operations the panel is built from: repetition, character
//! prefixes, trimming, search-and-replace, decimal rendering and joining.
//!
//! Everything here is ordinary text manipulation on `Seq<char>` views; the
//! few places where an outside crate or an unspecified `std` function does
//! the work are isolated in trusted wrappers with exact contracts.

use vstd::prelude::*;
use vstd::string::StringSliceAdditionalSpecFns;

verus! {

/// `n` copies of the character `c`.
pub open spec fn repeated(c: char, n: nat) -> Seq<char> {
    Seq::new(n, |i: int| c)
}

/// The first `n` characters of `s`, or all of `s` when it is shorter.
pub open spec fn prefix_of(s: Seq<char>, n: nat) -> Seq<char> {
    if n <= s.len() {
        s.take(n as int)
    } else {
        s
    }
}

/// `s` with every trailing copy of `c` removed.
pub open spec fn trim_end_spec(s: Seq<char>, c: char) -> Seq<char>
    decreases s.len(),
{
    if s.len() > 0 && s.last() == c {
        trim_end_spec(s.drop_last(), c)
    } else {
        s
    }
}

/// `s` with every leading copy of `c` removed.
pub open spec fn trim_start_spec(s: Seq<char>, c: char) -> Seq<char>
    decreases s.len(),
{
    if s.len() > 0 && s.first() == c {
        trim_start_spec(s.drop_first(), c)
    } else {
        s
    }
}

/// `s` with every leading and every trailing copy of `c` removed.
pub open spec fn trim_both_spec(s: Seq<char>, c: char) -> Seq<char> {
    trim_end_spec(trim_start_spec(s, c), c)
}

/// The UTF-8 byte length of a character sequence: the length thresholds
/// that decide truncation are byte counts, as `str::len` reports them.
pub open spec fn byte_len(s: Seq<char>) -> nat {
    vstd::utf8::encode_utf8(s).len()
}

/// The number of UTF-8 bytes `s` occupies.
pub fn byte_count(s: &str) -> (r: usize)
    ensures
        r == byte_len(s@),
{
    let r = s.as_bytes().len();
    proof {
        assert(s.spec_bytes() == vstd::utf8::encode_utf8(s@));
    }
    r
}

/// The uppercase mapping of one character: the sequence of characters that
/// `char::to_uppercase` yields.
pub uninterp spec fn upper_of(c: char) -> Seq<char>;

/// Relies on `str::eq`: two string slices are equal exactly when their
/// character sequences are equal.
#[verifier::external_body]
pub(crate) fn str_eq(a: &str, b: &str) -> (r: bool)
    ensures
        r <==> a@ == b@,
{
    a == b
}

/// Relies on `substring::Substring::substring` with a start index of zero:
/// the first `n` characters of the string, clamped to its length.
#[verifier::external_body]
pub(crate) fn char_prefix(s: &str, n: usize) -> (r: String)
    ensures
        r@ == prefix_of(s@, n as nat),
{
    substring::Substring::substring(s, 0, n).to_string()
}

/// Relies on `char::to_uppercase`: its result depends on the character
/// alone and always yields at least one character (a character with no
/// uppercase mapping yields itself).
#[verifier::external_body]
pub(crate) fn char_upper(c: char) -> (r: String)
    ensures
        r@ == upper_of(c),
        r@.len() >= 1,
{
    c.to_uppercase().collect::<String>()
}

/// Relies on `String::push`: it appends exactly the given character.
#[verifier::external_body]
pub(crate) fn push_char(s: &mut String, c: char)
    ensures
        final(s)@ == old(s)@.push(c),
{
    s.push(c)
}

/// A string of `n` copies of `c`.
pub fn repeat_char(c: char, n: usize) -> (r: String)
    ensures
        r@ == repeated(c, n as nat),
{
    let mut out = String::new();
    let mut i: usize = 0;
    while i < n
        invariant
            i <= n,
            out@ == repeated(c, i as nat),
        decreases n - i,
    {
        push_char(&mut out, c);
        assert(repeated(c, i as nat).push(c) =~= repeated(c, (i + 1) as nat));
        i = i + 1;
    }
    out
}

/// Trailing copies of `c`, and nothing else, stand at or after `end`.
proof fn lemma_trim_end_take(s: Seq<char>, c: char, end: int)
    requires
        0 <= end <= s.len(),
        forall|j: int| end <= j < s.len() ==> s[j] == c,
        end > 0 ==> s[end - 1] != c,
    ensures
        trim_end_spec(s, c) == s.take(end),
    decreases s.len(),
{
    if s.len() == 0 {
        assert(s.take(end) =~= s);
    } else if end == s.len() {
        assert(s.take(end) =~= s);
    } else {
        assert(s.last() == c);
        lemma_trim_end_take(s.drop_last(), c, end);
        assert(s.drop_last().take(end) =~= s.take(end));
    }
}

/// `s` with every trailing copy of `c` removed.
pub fn trim_end_char(s: &str, c: char) -> (r: String)
    ensures
        r@ == trim_end_spec(s@, c),
{
    let len = s.unicode_len();
    let mut end: usize = len;
    while end > 0 && s.get_char(end - 1) == c
        invariant
            end <= len,
            len == s@.len(),
            forall|j: int| end <= j < s@.len() ==> s@[j] == c,
        decreases end,
    {
        end = end - 1;
    }
    proof {
        lemma_trim_end_take(s@, c, end as int);
    }
    let out = s.substring_char(0, end);
    assert(out@ =~= s@.take(end as int));
    out.to_owned()
}

/// Leading copies of `c`, and nothing else, stand before `start`.
proof fn lemma_trim_start_skip(s: Seq<char>, c: char, start: int)
    requires
        0 <= start <= s.len(),
        forall|j: int| 0 <= j < start ==> s[j] == c,
        start < s.len() ==> s[start] != c,
    ensures
        trim_start_spec(s, c) == s.skip(start),
    decreases start,
{
    if start == 0 {
        assert(s.skip(0) =~= s);
    } else {
        assert(s.first() == c);
        lemma_trim_start_skip(s.drop_first(), c, start - 1);
        assert(s.drop_first().skip(start - 1) =~= s.skip(start));
    }
}

/// `s` with every leading copy of `c` removed.
pub fn trim_start_char(s: &str, c: char) -> (r: String)
    ensures
        r@ == trim_start_spec(s@, c),
{
    let len = s.unicode_len();
    let mut start: usize = 0;
    while start < len && s.get_char(start) == c
        invariant
            start <= len,
            len == s@.len(),
            forall|j: int| 0 <= j < start ==> s@[j] == c,
        decreases len - start,
    {
        start = start + 1;
    }
    proof {
        lemma_trim_start_skip(s@, c, start as int);
    }
    let out = s.substring_char(start, len);
    assert(out@ =~= s@.skip(start as int));
    out.to_owned()
}

/// `s` with every leading and every trailing copy of `c` removed.
pub fn trim_both_char(s: &str, c: char) -> (r: String)
    ensures
        r@ == trim_both_spec(s@, c),
{
    let stripped = trim_start_char(s, c);
    trim_end_char(stripped.as_str(), c)
}

/// `s` with every non-overlapping occurrence of `pat`, found left to
/// right, replaced by `rep`.
pub open spec fn replace_spec(s: Seq<char>, pat: Seq<char>, rep: Seq<char>) -> Seq<char>
    decreases s.len(),
    when pat.len() > 0
{
    if s.len() < pat.len() {
        s
    } else if s.take(pat.len() as int) == pat {
        rep + replace_spec(s.skip(pat.len() as int), pat, rep)
    } else {
        seq![s[0]] + replace_spec(s.skip(1), pat, rep)
    }
}

/// `s` with every occurrence of `pat` replaced by `rep`, as `str::replace`
/// does it.
pub fn replace_all(s: &str, pat: &str, rep: &str) -> (r: String)
    requires
        pat@.len() > 0,
    ensures
        r@ == replace_spec(s@, pat@, rep@),
{
    let len = s.unicode_len();
    let plen = pat.unicode_len();
    let mut out = String::new();
    let mut i: usize = 0;
    assert(s@.skip(0) =~= s@);
    assert(Seq::<char>::empty() + replace_spec(s@, pat@, rep@) =~= replace_spec(s@, pat@, rep@));
    while i < len
        invariant
            i <= len,
            len == s@.len(),
            plen == pat@.len(),
            plen > 0,
            replace_spec(s@, pat@, rep@) == out@ + replace_spec(s@.skip(i as int), pat@, rep@),
        decreases len - i,
    {
        let ghost rest = s@.skip(i as int);
        if plen <= len - i && str_eq(s.substring_char(i, i + plen), pat) {
            proof {
                assert(s@.subrange(i as int, i + plen) =~= rest.take(plen as int));
                assert(rest.skip(plen as int) =~= s@.skip(i + plen));
            }
            out.append(rep);
            i = i + plen;
        } else {
            proof {
                if plen <= len - i {
                    assert(s@.subrange(i as int, i + plen) =~= rest.take(plen as int));
                }
                assert(rest.skip(1) =~= s@.skip(i + 1));
                assert(seq![rest[0]] =~= s@.subrange(i as int, i + 1));
            }
            let piece = s.substring_char(i, i + 1);
            out.append(piece);
            i = i + 1;
        }
    }
    assert(s@.skip(len as int) =~= Seq::<char>::empty());
    assert(out@ + Seq::<char>::empty() =~= out@);
    out
}

/// The character for one decimal digit.
pub open spec fn digit_char(d: nat) -> char {
    if d == 0 {
        '0'
    } else if d == 1 {
        '1'
    } else if d == 2 {
        '2'
    } else if d == 3 {
        '3'
    } else if d == 4 {
        '4'
    } else if d == 5 {
        '5'
    } else if d == 6 {
        '6'
    } else if d == 7 {
        '7'
    } else if d == 8 {
        '8'
    } else {
        '9'
    }
}

/// The decimal rendering of `n`, without a sign and without leading zeros.
pub open spec fn dec_spec(n: nat) -> Seq<char>
    decreases n,
{
    if n < 10 {
        seq![digit_char(n)]
    } else {
        dec_spec(n / 10) + seq![digit_char(n % 10)]
    }
}

/// The decimal rendering of `n`.
pub fn u64_dec(n: u64) -> (r: String)
    ensures
        r@ == dec_spec(n as nat),
    decreases n,
{
    let d = n % 10;
    let c: char = if d == 0 {
        '0'
    } else if d == 1 {
        '1'
    } else if d == 2 {
        '2'
    } else if d == 3 {
        '3'
    } else if d == 4 {
        '4'
    } else if d == 5 {
        '5'
    } else if d == 6 {
        '6'
    } else if d == 7 {
        '7'
    } else if d == 8 {
        '8'
    } else {
        '9'
    };
    if n < 10 {
        let mut out = String::new();
        push_char(&mut out, c);
        assert(out@ =~= seq![digit_char(n as nat)]);
        out
    } else {
        let mut out = u64_dec(n / 10);
        push_char(&mut out, c);
        assert(out@ =~= dec_spec((n / 10) as nat) + seq![digit_char((n % 10) as nat)]);
        out
    }
}

/// `parts` joined with the separator `sep` between neighbours.
pub open spec fn join_spec(parts: Seq<Seq<char>>, sep: Seq<char>) -> Seq<char>
    decreases parts.len(),
{
    if parts.len() == 0 {
        Seq::empty()
    } else if parts.len() == 1 {
        parts[0]
    } else {
        join_spec(parts.drop_last(), sep) + sep + parts.last()
    }
}

/// `parts` joined with `sep`, as `[String]::join` does it.
pub fn join_strs(parts: &Vec<String>, sep: &str) -> (r: String)
    ensures
        r@ == join_spec(parts.deep_view(), sep@),
{
    let mut out = String::new();
    let mut i: usize = 0;
    while i < parts.len()
        invariant
            i <= parts.deep_view().len(),
            parts.deep_view().len() == parts.len(),
            out@ == join_spec(parts.deep_view().take(i as int), sep@),
        decreases parts.len() - i,
    {
        if i > 0 {
            out.append(sep);
        }
        out.append(parts[i].as_str());
        proof {
            let pv = parts.deep_view();
            assert(parts[i as int]@ == pv[i as int]);
            assert(pv.take(i + 1).drop_last() =~= pv.take(i as int));
            assert(pv.take(i + 1).last() == pv[i as int]);
            if i == 0 {
                assert(join_spec(pv.take(1), sep@) == pv[0]);
            }
        }
        i = i + 1;
    }
    assert(parts.deep_view().take(parts.deep_view().len() as int) =~= parts.deep_view());
    out
}

} // verus!
