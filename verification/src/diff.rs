//! Character-level difference between two text snapshots.

use vstd::prelude::*;
use vstd::string::*;
use vstd::utf8::*;

verus! {

/// One piece of an edit script, borrowed from the two compared texts.
#[derive(Clone, Copy, Debug)]
pub enum Chunk<'a> {
    /// Text present in both snapshots.
    Equal(&'a str),
    /// Text present only in the old snapshot.
    Delete(&'a str),
    /// Text present only in the current snapshot.
    Insert(&'a str),
}

/// Mathematical form of a [`Chunk`]: the kind of edit and the characters it covers.
pub enum Edit {
    Equal(Seq<char>),
    Delete(Seq<char>),
    Insert(Seq<char>),
}

impl<'a> View for Chunk<'a> {
    type V = Edit;

    open spec fn view(&self) -> Edit {
        match *self {
            Chunk::Equal(text) => Edit::Equal(text@),
            Chunk::Delete(text) => Edit::Delete(text@),
            Chunk::Insert(text) => Edit::Insert(text@),
        }
    }
}

/// The edit script as a sequence of mathematical edits.
pub open spec fn edits(chunks: Seq<Chunk>) -> Seq<Edit> {
    chunks.map_values(|chunk: Chunk| chunk@)
}

/// Number of characters that the insertions of `script` add.
pub open spec fn added_chars(script: Seq<Edit>) -> nat
    decreases script.len(),
{
    if script.len() == 0 {
        0
    } else {
        added_chars(script.drop_last()) + match script.last() {
            Edit::Insert(text) => text.len(),
            _ => 0,
        }
    }
}

/// Number of characters that the deletions of `script` remove.
pub open spec fn removed_chars(script: Seq<Edit>) -> nat
    decreases script.len(),
{
    if script.len() == 0 {
        0
    } else {
        removed_chars(script.drop_last()) + match script.last() {
            Edit::Delete(text) => text.len(),
            _ => 0,
        }
    }
}

/// The edit script that the diff engine produces for a pair of texts.
pub uninterp spec fn edit_script(old: Seq<char>, current: Seq<char>) -> Seq<Edit>;

/// Calls `dissimilar::diff` and hands its chunks over one for one.
///
/// Trusted: the chunks are the engine's edit script for the two texts, which
/// depends on the texts alone. The engine cuts its insertions out of
/// `current` and its deletions out of `old`, one after the other and without
/// overlap, so neither side holds more characters than the text it was cut
/// from. Nothing else is claimed of the script.
#[verifier::external_body]
fn diff_chunks<'a>(old: &'a str, current: &'a str) -> (chunks: Vec<Chunk<'a>>)
    ensures
        edits(chunks@) == edit_script(old@, current@),
        added_chars(edits(chunks@)) <= current@.len(),
        removed_chars(edits(chunks@)) <= old@.len(),
{
    dissimilar::diff(old, current)
        .into_iter()
        .map(|chunk| match chunk {
            dissimilar::Chunk::Equal(text) => Chunk::Equal(text),
            dissimilar::Chunk::Delete(text) => Chunk::Delete(text),
            dissimilar::Chunk::Insert(text) => Chunk::Insert(text),
        })
        .collect()
}

/// The text that lossy decoding makes of bytes that are not valid UTF-8.
pub uninterp spec fn lossy_text(bytes: Seq<u8>) -> Seq<char>;

/// The text that captured bytes are read as: the text they encode when they
/// are valid UTF-8, and what lossy decoding makes of them when they are not.
pub open spec fn decoded_text(bytes: Seq<u8>) -> Seq<char> {
    if valid_utf8(bytes) {
        decode_utf8(bytes)
    } else {
        lossy_text(bytes)
    }
}

/// Decodes captured bytes with `String::from_utf8_lossy`.
///
/// Trusted: valid UTF-8 comes back as the text it encodes; for other bytes
/// the text, with its replacement characters, depends on the bytes alone.
#[verifier::external_body]
fn decode_lossy(bytes: &[u8]) -> (text: String)
    ensures
        valid_utf8(bytes@) ==> text@ == decode_utf8(bytes@),
        !valid_utf8(bytes@) ==> text@ == lossy_text(bytes@),
{
    String::from_utf8_lossy(bytes).into_owned()
}

/// What comparing `old` with `current` reports: the characters added and the
/// characters removed. Identical texts differ in nothing; any other pair is
/// judged by the engine's edit script.
pub open spec fn diff_counts(old: Seq<char>, current: Seq<char>) -> (nat, nat) {
    if old == current {
        (0, 0)
    } else {
        (added_chars(edit_script(old, current)), removed_chars(edit_script(old, current)))
    }
}

/// The diff of two captured outputs, each read as text.
pub open spec fn output_diff_counts(old: Seq<u8>, current: Seq<u8>) -> (nat, nat) {
    diff_counts(decoded_text(old), decoded_text(current))
}

/// A text never has more characters than its encoding has bytes.
pub proof fn lemma_chars_within_bytes(text: Seq<char>)
    ensures
        text.len() <= encode_utf8(text).len(),
    decreases text.len(),
{
    if text.len() > 0 {
        lemma_chars_within_bytes(text.drop_first());
        assert(encode_scalar(text[0] as u32).len() >= 1);
    }
}

/// The counts of a script's beginning never exceed those of the whole script.
pub proof fn lemma_counts_grow(script: Seq<Edit>, n: int)
    requires
        0 <= n <= script.len(),
    ensures
        added_chars(script.take(n)) <= added_chars(script),
        removed_chars(script.take(n)) <= removed_chars(script),
    decreases script.len(),
{
    if n == script.len() {
        assert(script.take(n) =~= script);
    } else {
        lemma_counts_grow(script.drop_last(), n);
        assert(script.drop_last().take(n) =~= script.take(n));
    }
}

/// Whether two texts hold the same characters.
pub fn same_text(a: &str, b: &str) -> (same: bool)
    ensures
        same == (a@ == b@),
{
    broadcast use encode_utf8_decode_utf8;

    let left = a.as_bytes();
    let right = b.as_bytes();
    if left.len() != right.len() {
        return false;
    }
    let mut i: usize = 0;
    while i < left.len()
        invariant
            i <= left.len(),
            left.len() == right.len(),
            left@ == encode_utf8(a@),
            right@ == encode_utf8(b@),
            forall|k: int| 0 <= k < i ==> left@[k] == right@[k],
        decreases left.len() - i,
    {
        if left[i] != right[i] {
            return false;
        }
        i += 1;
    }
    assert(left@ =~= right@);
    assert(decode_utf8(encode_utf8(a@)) == a@);
    assert(decode_utf8(encode_utf8(b@)) == b@);
    true
}

/// Adds up an edit script: the characters of its insertions and the
/// characters of its deletions, counted as characters and not as bytes.
/// Unchanged chunks count for nothing.
pub fn tally(chunks: &[Chunk<'_>]) -> (counts: (u64, u64))
    requires
        added_chars(edits(chunks@)) <= u64::MAX,
        removed_chars(edits(chunks@)) <= u64::MAX,
    ensures
        counts.0 == added_chars(edits(chunks@)),
        counts.1 == removed_chars(edits(chunks@)),
{
    let ghost script = edits(chunks@);
    let mut added: u64 = 0;
    let mut removed: u64 = 0;
    let mut i: usize = 0;
    while i < chunks.len()
        invariant
            i <= chunks.len(),
            script == edits(chunks@),
            added == added_chars(script.take(i as int)),
            removed == removed_chars(script.take(i as int)),
            added_chars(script) <= u64::MAX,
            removed_chars(script) <= u64::MAX,
        decreases chunks.len() - i,
    {
        proof {
            lemma_counts_grow(script, i + 1);
            assert(script.take(i + 1).drop_last() =~= script.take(i as int));
            assert(script.take(i + 1).last() == chunks@[i as int]@);
        }
        match chunks[i] {
            Chunk::Equal(_) => {},
            Chunk::Delete(text) => {
                let n: usize = text.unicode_len();
                removed = removed + n as u64;
            },
            Chunk::Insert(text) => {
                let n: usize = text.unicode_len();
                added = added + n as u64;
            },
        }
        i += 1;
    }
    assert(script.take(i as int) =~= script);
    (added, removed)
}

/// The length of a text in bytes, which bounds its length in characters.
fn byte_len(text: &str) -> (len: usize)
    ensures
        len == encode_utf8(text@).len(),
        text@.len() <= len,
{
    proof {
        lemma_chars_within_bytes(text@);
    }
    text.as_bytes().len()
}

/// Compares two text snapshots and counts, in characters, what was added and
/// what was removed on the way from `old` to `current`.
pub fn count_diff(old: &str, current: &str) -> (counts: (u64, u64))
    ensures
        counts.0 == diff_counts(old@, current@).0,
        counts.1 == diff_counts(old@, current@).1,
        old@ == current@ ==> counts == (0u64, 0u64),
{
    if same_text(old, current) {
        return (0, 0);
    }
    // Neither count can pass the size of the text it is taken from.
    let _ = byte_len(old);
    let _ = byte_len(current);
    let chunks = diff_chunks(old, current);
    tally(chunks.as_slice())
}

/// Compares two captured outputs as text. Bytes that are not valid UTF-8 are
/// read with lossy decoding, so the comparison never fails.
pub fn output_diff(old: &[u8], current: &[u8]) -> (counts: (u64, u64))
    ensures
        counts.0 == output_diff_counts(old@, current@).0,
        counts.1 == output_diff_counts(old@, current@).1,
        old@ == current@ ==> counts == (0u64, 0u64),
{
    let old_text = decode_lossy(old);
    let current_text = decode_lossy(current);
    count_diff(old_text.as_str(), current_text.as_str())
}

} // verus!
