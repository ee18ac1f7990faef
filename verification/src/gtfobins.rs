//! Configuration of the GTFOBins detector: the keys of the map of
//! GTFOBins command lines that the kernel-side program matches executions
//! against.

use vstd::prelude::*;

use crate::buf::buf_overwrite;
use crate::event::{MAX_ARGS_SIZE, MAX_FILENAME_SIZE};
use crate::yaml::{load_yaml, scan_error_message, yaml_load, YamlNode};
use vstd::utf8::encode_utf8;

verus! {

/// Size of a GTFOBins key: the executable name, a separator, the arguments.
pub const GTFOBINS_KEY_SIZE: usize = 1057;

/// Offset of the arguments in a GTFOBins key.
pub const GTFOBINS_ARGS_OFFSET: usize = 33;

/// The space byte that separates the words of a command line.
pub const SPACE: u8 = 0x20;

/// Number of leading bytes of `b` that are not spaces.
pub open spec fn space_pos(b: Seq<u8>) -> nat
    decreases b.len(),
{
    if b.len() == 0 || b[0] == SPACE {
        0
    } else {
        1 + space_pos(b.drop_first())
    }
}

/// The pieces of `b` between spaces, as `str::split(' ')` gives them:
/// empty pieces included, always at least one.
pub open spec fn split_spaces(b: Seq<u8>) -> Seq<Seq<u8>>
    decreases b.len(),
{
    let p = space_pos(b);
    if p >= b.len() {
        seq![b]
    } else {
        seq![b.take(p as int)] + split_spaces(b.skip(p + 1int))
    }
}

/// `key` with `s` written at `idx`.
pub open spec fn write_at(key: Seq<u8>, idx: nat, s: Seq<u8>) -> Seq<u8> {
    key.take(idx as int) + buf_overwrite(key.skip(idx as int), s)
}

/// Packs the words into the key from position `idx`: a word that fits
/// (`idx + len < GTFOBINS_KEY_SIZE`) is written at `idx`; the first word
/// written moves `idx` to the arguments, any other moves it past the word
/// and one separator; a word that does not fit is skipped.
pub open spec fn pack_words(key: Seq<u8>, idx: nat, words: Seq<Seq<u8>>) -> Seq<u8>
    decreases words.len(),
{
    if words.len() == 0 {
        key
    } else {
        let s = words[0];
        if idx + s.len() < GTFOBINS_KEY_SIZE {
            pack_words(
                write_at(key, idx, s),
                if idx == 0 {
                    GTFOBINS_ARGS_OFFSET as nat
                } else {
                    idx + s.len() + 1
                },
                words.drop_first(),
            )
        } else {
            pack_words(key, idx, words.drop_first())
        }
    }
}

/// A key of zero bytes.
pub open spec fn zero_key() -> Seq<u8> {
    Seq::new(GTFOBINS_KEY_SIZE as nat, |i: int| 0u8)
}

/// The key of a GTFOBins command line given as UTF-8 bytes.
pub open spec fn key_of(text: Seq<u8>) -> Seq<u8> {
    pack_words(zero_key(), 0, split_spaces(text))
}

/// The words, each followed by a zero byte.
pub open spec fn nul_join(words: Seq<Seq<u8>>) -> Seq<u8>
    decreases words.len(),
{
    if words.len() == 0 {
        Seq::empty()
    } else {
        words[0] + seq![0u8] + nul_join(words.drop_first())
    }
}

/// `s` followed by zero bytes up to `n` bytes.
pub open spec fn zero_padded(s: Seq<u8>, n: nat) -> Seq<u8> {
    s + Seq::new((n - s.len()) as nat, |i: int| 0u8)
}

/// Words packed from a position past the executable name, into a key that
/// is zero from there on, land one after the other, each followed by a
/// zero byte, where they all fit.
proof fn lemma_pack_args(key: Seq<u8>, idx: nat, words: Seq<Seq<u8>>)
    requires
        key.len() == GTFOBINS_KEY_SIZE,
        GTFOBINS_ARGS_OFFSET <= idx,
        idx + nul_join(words).len() <= GTFOBINS_KEY_SIZE,
        forall|j: int| idx <= j < GTFOBINS_KEY_SIZE ==> key[j] == 0,
    ensures
        pack_words(key, idx, words) =~= key.take(idx as int) + zero_padded(
            nul_join(words),
            (GTFOBINS_KEY_SIZE - idx) as nat,
        ),
    decreases words.len(),
{
    if words.len() == 0 {
        assert(key =~= key.take(idx as int) + zero_padded(
            nul_join(words),
            (GTFOBINS_KEY_SIZE - idx) as nat,
        ));
    } else {
        let w = words[0];
        let rest = words.drop_first();
        let key1 = write_at(key, idx, w);
        let idx1: nat = idx + w.len() + 1;
        assert(idx + w.len() < GTFOBINS_KEY_SIZE);
        assert(pack_words(key, idx, words) == pack_words(key1, idx1, rest));
        assert forall|j: int| idx1 <= j < GTFOBINS_KEY_SIZE implies key1[j] == 0 by {
            assert(key1[j] == key[j]);
        }
        lemma_pack_args(key1, idx1, rest);
        let lhs = key1.take(idx1 as int) + zero_padded(
            nul_join(rest),
            (GTFOBINS_KEY_SIZE - idx1) as nat,
        );
        let rhs = key.take(idx as int) + zero_padded(
            nul_join(words),
            (GTFOBINS_KEY_SIZE - idx) as nat,
        );
        assert(nul_join(words) == w + seq![0u8] + nul_join(rest));
        assert(lhs.len() == rhs.len());
        assert forall|j: int| 0 <= j < lhs.len() implies lhs[j] == rhs[j] by {
            if j < idx {
            } else if j < idx + w.len() {
                assert(rhs[j] == nul_join(words)[j - idx]);
                assert(nul_join(words)[j - idx] == w[j - idx]);
            } else if j == idx + w.len() {
                assert(rhs[j] == nul_join(words)[j - idx]);
                assert(key1[j] == key[j]);
            } else if j < idx1 + nul_join(rest).len() {
                assert(rhs[j] == nul_join(words)[j - idx]);
                assert(nul_join(words)[j - idx] == nul_join(rest)[j - idx1]);
            } else {
            }
        }
        assert(lhs =~= rhs);
    }
}

/// The layout of a GTFOBins key: the executable name (the text up to the
/// first space) at the start, zero-padded to the arguments offset; then the
/// other words, each followed by a zero byte; then zeros. This holds where
/// the name is shorter than the offset and all words fit in the key.
pub proof fn lemma_key_layout(text: Seq<u8>)
    requires
        split_spaces(text)[0].len() < GTFOBINS_ARGS_OFFSET,
        GTFOBINS_ARGS_OFFSET + nul_join(split_spaces(text).drop_first()).len() <= GTFOBINS_KEY_SIZE,
    ensures
        split_spaces(text).len() >= 1,
        key_of(text) == zero_padded(split_spaces(text)[0], GTFOBINS_ARGS_OFFSET as nat)
            + zero_padded(
            nul_join(split_spaces(text).drop_first()),
            (GTFOBINS_KEY_SIZE - GTFOBINS_ARGS_OFFSET) as nat,
        ),
{
    let ws = split_spaces(text);
    assert(ws.len() >= 1);
    let w0 = ws[0];
    let key1 = write_at(zero_key(), 0, w0);
    assert(key_of(text) == pack_words(key1, GTFOBINS_ARGS_OFFSET as nat, ws.drop_first()));
    assert forall|j: int| GTFOBINS_ARGS_OFFSET <= j < GTFOBINS_KEY_SIZE implies key1[j] == 0 by {}
    lemma_pack_args(key1, GTFOBINS_ARGS_OFFSET as nat, ws.drop_first());
    assert(key1.take(GTFOBINS_ARGS_OFFSET as int) =~= zero_padded(w0, GTFOBINS_ARGS_OFFSET as nat));
}

proof fn lemma_space_pos(b: Seq<u8>, i: int)
    requires
        0 <= i <= b.len(),
        forall|j: int| 0 <= j < i ==> b[j] != SPACE,
        i == b.len() || b[i] == SPACE,
    ensures
        space_pos(b) == i,
    decreases b.len(),
{
    if b.len() > 0 && b[0] != SPACE {
        lemma_space_pos(b.drop_first(), i - 1);
    }
}

/// The key of a GTFOBins command line: its words, split at spaces, packed
/// as `pack_words` says.
pub fn gtfobins_key(text: &str) -> (k: [u8; GTFOBINS_KEY_SIZE])
    ensures
        k@ == key_of(encode_utf8(text@)),
{
    let b = text.as_bytes();
    let ghost bs = b@;
    let mut k = [0u8; GTFOBINS_KEY_SIZE];
    assert(k@ =~= zero_key());
    let mut idx: usize = 0;
    let mut start: usize = 0;
    let mut i: usize = 0;
    assert(bs.skip(0) =~= bs);
    loop
        invariant
            bs == b@,
            bs == encode_utf8(text@),
            start <= i <= bs.len(),
            idx <= GTFOBINS_KEY_SIZE,
            forall|j: int| start <= j < i ==> bs[j] != SPACE,
            key_of(bs) == pack_words(k@, idx as nat, split_spaces(bs.skip(start as int))),
        decreases bs.len() - i,
    {
        if i == b.len() || b[i] == SPACE {
            let ghost rest = bs.skip(start as int);
            let len = i - start;
            proof {
                lemma_space_pos(rest, len as int);
            }
            let ghost word = rest.take(len as int);
            assert(word =~= bs.subrange(start as int, i as int));
            let ghost k0 = k@;
            let ghost idx0 = idx as nat;
            if len < GTFOBINS_KEY_SIZE - idx {
                let ghost before = k@;
                let mut j: usize = 0;
                while j < len
                    invariant
                        bs == b@,
                        start + len == i,
                        i <= bs.len(),
                        idx + len < GTFOBINS_KEY_SIZE,
                        k@.len() == GTFOBINS_KEY_SIZE,
                        before.len() == GTFOBINS_KEY_SIZE,
                        j <= len,
                        forall|m: int| 0 <= m < idx ==> k@[m] == before[m],
                        forall|m: int| idx <= m < idx + j ==> #[trigger] k@[m] == bs[start + (m - idx)],
                        forall|m: int| idx + j <= m < GTFOBINS_KEY_SIZE ==> k@[m] == before[m],
                    decreases len - j,
                {
                    k[idx + j] = b[start + j];
                    j += 1;
                }
                assert(k@ =~= write_at(before, idx as nat, word));
                idx = if idx == 0 {
                    GTFOBINS_ARGS_OFFSET
                } else {
                    idx + len + 1
                };
            }
            if i == b.len() {
                assert(split_spaces(rest) == seq![rest]);
                assert(rest =~= word);
                assert(seq![rest].drop_first() =~= Seq::<Seq<u8>>::empty());
                assert(pack_words(k@, idx as nat, Seq::<Seq<u8>>::empty()) == k@);
                assert(pack_words(k0, idx0, seq![rest]) == k@);
                return k;
            }
            proof {
                assert(rest.skip(len + 1) =~= bs.skip(i + 1));
                let tail = split_spaces(bs.skip(i + 1));
                assert((seq![word] + tail).drop_first() =~= tail);
                assert((seq![word] + tail)[0] == word);
            }
            start = i + 1;
            i = i + 1;
        } else {
            i = i + 1;
        }
    }
}

} // verus!
