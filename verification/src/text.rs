//! Byte and character helpers used to turn fixed-size kernel buffers into
//! text.

use vstd::prelude::*;
use vstd::slice::slice_subrange;
use vstd::utf8::{decode_utf8, valid_utf8};

verus! {

/// Unicode `White_Space` characters, as `char::is_whitespace` classifies them.
pub open spec fn is_whitespace(c: char) -> bool {
    ||| '\t' <= c <= '\r'
    ||| c == ' '
    ||| c == '\u{85}'
    ||| c == '\u{a0}'
    ||| c == '\u{1680}'
    ||| '\u{2000}' <= c <= '\u{200a}'
    ||| c == '\u{2028}'
    ||| c == '\u{2029}'
    ||| c == '\u{202f}'
    ||| c == '\u{205f}'
    ||| c == '\u{3000}'
}

/// `s` without its trailing whitespace, as `str::trim_end` gives it.
pub open spec fn trim_end(s: Seq<char>) -> Seq<char>
    decreases s.len(),
{
    if s.len() > 0 && is_whitespace(s.last()) {
        trim_end(s.drop_last())
    } else {
        s
    }
}

/// Executable form of `is_whitespace`.
pub fn char_is_whitespace(c: char) -> (r: bool)
    ensures
        r == is_whitespace(c),
{
    ('\t' <= c && c <= '\r') || c == ' ' || c == '\u{85}' || c == '\u{a0}' || c == '\u{1680}'
        || ('\u{2000}' <= c && c <= '\u{200a}') || c == '\u{2028}' || c == '\u{2029}'
        || c == '\u{202f}' || c == '\u{205f}' || c == '\u{3000}'
}

/// `trim_end(s)` is a prefix of `s` followed in `s` only by whitespace.
pub proof fn lemma_trim_end_prefix(s: Seq<char>)
    ensures
        trim_end(s).len() <= s.len(),
        trim_end(s) =~= s.subrange(0, trim_end(s).len() as int),
        forall|i: int| trim_end(s).len() <= i < s.len() ==> is_whitespace(#[trigger] s[i]),
        trim_end(s).len() == 0 || !is_whitespace(trim_end(s).last()),
    decreases s.len(),
{
    if s.len() > 0 && is_whitespace(s.last()) {
        lemma_trim_end_prefix(s.drop_last());
        assert forall|i: int| trim_end(s).len() <= i < s.len() implies is_whitespace(
            #[trigger] s[i],
        ) by {
            if i < s.len() - 1 {
                assert(s[i] == s.drop_last()[i]);
            }
        }
    }
}

/// Trimming twice trims no more than trimming once.
pub proof fn lemma_trim_end_idempotent(s: Seq<char>)
    ensures
        trim_end(trim_end(s)) == trim_end(s),
{
    lemma_trim_end_prefix(s);
}

/// Trimming a prefix that ends where all the rest is whitespace gives the
/// same result as trimming the whole sequence.
proof fn lemma_trim_end_of_prefix(s: Seq<char>, n: int)
    requires
        0 <= n <= s.len(),
        forall|i: int| n <= i < s.len() ==> is_whitespace(#[trigger] s[i]),
    ensures
        trim_end(s) == trim_end(s.subrange(0, n)),
    decreases s.len() - n,
{
    if n < s.len() {
        assert(s.drop_last() =~= s.subrange(0, s.len() - 1));
        lemma_trim_end_of_prefix(s.drop_last(), n);
        assert(s.drop_last().subrange(0, n) =~= s.subrange(0, n));
    } else {
        assert(s.subrange(0, n) =~= s);
    }
}

/// Removes the trailing whitespace of `v`.
pub fn trim_end_chars(v: &mut Vec<char>)
    ensures
        final(v)@ == trim_end(old(v)@),
{
    let ghost orig = v@;
    while v.len() > 0 && char_is_whitespace(v[v.len() - 1])
        invariant
            v@.len() <= orig.len(),
            v@ =~= orig.subrange(0, v@.len() as int),
            forall|i: int| v@.len() <= i < orig.len() ==> is_whitespace(#[trigger] orig[i]),
        decreases v.len(),
    {
        v.pop();
    }
    proof {
        lemma_trim_end_of_prefix(orig, v@.len() as int);
        assert(orig.subrange(0, v@.len() as int) =~= v@);
    }
}

/// The characters `String::from_utf8_lossy` decodes from a byte sequence.
pub uninterp spec fn utf8_lossy(bytes: Seq<u8>) -> Seq<char>;

/// Whether no byte is zero.
pub open spec fn no_zero_byte(bytes: Seq<u8>) -> bool {
    forall|i: int| 0 <= i < bytes.len() ==> #[trigger] bytes[i] != 0
}

/// Whether no character is NUL.
pub open spec fn no_nul_char(s: Seq<char>) -> bool {
    forall|i: int| 0 <= i < s.len() ==> #[trigger] s[i] != '\0'
}

/// The characters of a byte sequence read one byte per character.
pub open spec fn ascii_chars(bytes: Seq<u8>) -> Seq<char> {
    bytes.map_values(|b: u8| b as char)
}

/// Calls `String::from_utf8_lossy`. Claimed: the result is `utf8_lossy` of
/// the bytes; valid UTF-8 is returned unchanged, so it decodes to its
/// characters, and bytes that are all ASCII decode one character per byte;
/// invalid sequences become U+FFFD, so a NUL character comes only from a
/// zero byte.
#[verifier::external_body]
pub(crate) fn lossy_chars(bytes: &[u8]) -> (res: Vec<char>)
    ensures
        res@ == utf8_lossy(bytes@),
        valid_utf8(bytes@) ==> res@ == decode_utf8(bytes@),
        no_zero_byte(bytes@) ==> no_nul_char(res@),
        (forall|i: int| 0 <= i < bytes@.len() ==> #[trigger] bytes@[i] < 0x80) ==> res@
            == ascii_chars(bytes@),
{
    String::from_utf8_lossy(bytes).chars().collect()
}

/// Calls `String::from_iter` on characters. Claimed: the string holds exactly
/// those characters.
#[verifier::external_body]
pub(crate) fn string_from_chars(chars: &[char]) -> (res: String)
    ensures
        res@ == chars@,
{
    chars.iter().collect()
}

/// The bytes of `bytes` before its first zero byte (all of them if none is
/// zero).
pub open spec fn until_nul(bytes: Seq<u8>) -> Seq<u8> {
    if exists|i: int| 0 <= i < bytes.len() && bytes[i] == 0 {
        bytes.take(choose|i: int| 0 <= i < bytes.len() && bytes[i] == 0
            && forall|j: int| 0 <= j < i ==> bytes[j] != 0)
    } else {
        bytes
    }
}

/// Position of the first zero byte, or the length where there is none.
pub fn nul_position(bytes: &[u8]) -> (pos: usize)
    ensures
        pos <= bytes@.len(),
        forall|j: int| 0 <= j < pos ==> bytes@[j] != 0,
        pos < bytes@.len() ==> bytes@[pos as int] == 0,
        bytes@.take(pos as int) == until_nul(bytes@),
{
    let mut i: usize = 0;
    while i < bytes.len()
        invariant
            i <= bytes@.len(),
            forall|j: int| 0 <= j < i ==> bytes@[j] != 0,
        decreases bytes.len() - i,
    {
        if bytes[i] == 0 {
            proof {
                let w = choose|k: int| 0 <= k < bytes@.len() && bytes@[k] == 0
                    && forall|j: int| 0 <= j < k ==> bytes@[j] != 0;
                assert(0 <= i < bytes@.len() && bytes@[i as int] == 0
                    && forall|j: int| 0 <= j < i ==> bytes@[j] != 0);
                if w < i {
                } else if w > i {
                    assert(bytes@[i as int] != 0);
                }
            }
            return i;
        }
        i += 1;
    }
    assert(bytes@.take(i as int) =~= bytes@);
    i
}

/// Decodes the bytes before the first zero byte, replacing invalid UTF-8.
pub fn str_from_bytes(bytes: &[u8]) -> (s: String)
    ensures
        s@ == utf8_lossy(until_nul(bytes@)),
        no_nul_char(s@),
{
    let pos = nul_position(bytes);
    let head = slice_prefix(bytes, pos);
    let chars = lossy_chars(head);
    string_from_chars(chars.as_slice())
}

/// The first `n` bytes of `bytes`.
pub(crate) fn slice_prefix(bytes: &[u8], n: usize) -> (res: &[u8])
    requires
        n <= bytes@.len(),
    ensures
        res@ == bytes@.take(n as int),
{
    let res = slice_subrange(bytes, 0, n);
    assert(res@ =~= bytes@.take(n as int));
    res
}

/// `bytes` with every zero byte replaced by a space.
pub open spec fn nul_to_space(bytes: Seq<u8>) -> Seq<u8> {
    bytes.map_values(|b: u8| if b == 0 { 0x20u8 } else { b })
}

/// Replaces every zero byte of `bytes` by a space.
pub fn replace_nul_with_space(bytes: &mut [u8])
    ensures
        final(bytes)@ == nul_to_space(old(bytes)@),
{
    let ghost orig = bytes@;
    let n = bytes.len();
    let mut i: usize = 0;
    while i < n
        invariant
            n == bytes@.len(),
            orig.len() == n,
            i <= n,
            forall|j: int| 0 <= j < i ==> bytes@[j] == nul_to_space(orig)[j],
            forall|j: int| i <= j < n ==> bytes@[j] == orig[j],
        decreases n - i,
    {
        if bytes[i] == 0 {
            bytes[i] = 0x20;
        }
        i += 1;
    }
    assert(bytes@ =~= nul_to_space(orig));
}

/// Whether the two strings hold the same characters.
pub(crate) fn str_eq(a: &str, b: &str) -> (res: bool)
    ensures
        res == (a@ == b@),
{
    let n = a.unicode_len();
    if n != b.unicode_len() {
        return false;
    }
    let mut i: usize = 0;
    while i < n
        invariant
            n == a@.len(),
            n == b@.len(),
            i <= n,
            forall|j: int| 0 <= j < i ==> a@[j] == b@[j],
        decreases n - i,
    {
        if a.get_char(i) != b.get_char(i) {
            return false;
        }
        i += 1;
    }
    assert(a@ =~= b@);
    true
}

} // verus!
