//! The 16-bit ones'-complement checksum of an ICMP message.

use vstd::prelude::*;

verus! {

/// The longest input that [`checksum`] takes: the largest ICMP message
/// that an IP datagram can carry stays well below it.
pub const MAX_CHECKSUM_INPUT: usize = 131_072;

/// The big-endian 16-bit word number `index` of `data`. An odd last byte is
/// the high half of a word whose low half is zero.
pub open spec fn word_at(data: Seq<u8>, index: int) -> int {
    if 2 * index + 1 < data.len() {
        data[2 * index] * 256 + data[2 * index + 1]
    } else {
        data[2 * index] * 256
    }
}

/// Number of 16-bit words in `data`, an odd last byte counted as one.
pub open spec fn word_count(data: Seq<u8>) -> int {
    (data.len() + 1) as int / 2
}

/// Sum of the first `words` words of `data`, with word number `skipped` taken
/// as zero.
pub open spec fn word_sum(data: Seq<u8>, skipped: int, words: int) -> int
    decreases words,
{
    if words <= 0 {
        0
    } else {
        word_sum(data, skipped, words - 1) + if words - 1 == skipped {
            0
        } else {
            word_at(data, words - 1)
        }
    }
}

/// Adds whatever a sum holds above its low 16 bits back onto those 16 bits,
/// until nothing is left above them.
pub open spec fn fold_carries(sum: int) -> int
    decreases sum,
{
    if sum < 0x1_0000 {
        sum
    } else {
        fold_carries(sum / 0x1_0000 + sum % 0x1_0000)
    }
}

/// The checksum of `data`: the complement of the ones'-complement sum of its
/// 16-bit words, with word number `skipped` (the checksum field itself) taken
/// as zero. Of no data at all it is zero.
pub open spec fn internet_checksum(data: Seq<u8>, skipped: int) -> u16 {
    if data.len() == 0 {
        0
    } else {
        (0xFFFF - fold_carries(word_sum(data, skipped, word_count(data)))) as u16
    }
}

/// Calls `pnet::util::checksum`, which adds up the big-endian 16-bit words of
/// `data` but the one at word offset `skipword`, folds the carries back in
/// and complements the result; for empty data it returns zero. It adds in 32
/// bits, so the length is kept below what could overflow that sum.
///
/// Trusted: the body is not verified against the contract.
#[verifier::external_body]
pub(crate) fn checksum(data: &[u8], skipword: usize) -> (sum: u16)
    requires
        data@.len() <= MAX_CHECKSUM_INPUT,
    ensures
        sum == internet_checksum(data@, skipword as int),
{
    pnet::util::checksum(data, skipword)
}

/// The word sum does not look at the skipped word: two inputs of one length
/// that differ only there have the same word sum.
pub proof fn lemma_word_sum_ignores_skipped(a: Seq<u8>, b: Seq<u8>, skipped: int, words: int)
    requires
        a.len() == b.len(),
        words <= word_count(a),
        forall|i: int| 0 <= i < a.len() && i != 2 * skipped && i != 2 * skipped + 1 ==> a[i] == b[i],
    ensures
        word_sum(a, skipped, words) == word_sum(b, skipped, words),
    decreases words,
{
    if words > 0 {
        lemma_word_sum_ignores_skipped(a, b, skipped, words - 1);
    }
}

/// The checksum does not look at the skipped word: two inputs of one length
/// that differ only there have the same checksum.
pub proof fn lemma_checksum_ignores_skipped(a: Seq<u8>, b: Seq<u8>, skipped: int)
    requires
        a.len() == b.len(),
        forall|i: int| 0 <= i < a.len() && i != 2 * skipped && i != 2 * skipped + 1 ==> a[i] == b[i],
    ensures
        internet_checksum(a, skipped) == internet_checksum(b, skipped),
{
    lemma_word_sum_ignores_skipped(a, b, skipped, word_count(a));
}

} // verus!
