//! The Internet checksum: the one's-complement sum of a byte sequence read as
//! big-endian 16-bit words, complemented, with zero sent as all ones.

use vstd::prelude::*;
use crate::common::bytes::u16_from_be;

verus! {

/// The checksum that stands for a computed value of zero.
pub const CHECKSUM_ALL_ONES: u16 = 0xFFFF;

/// `data` with one zero byte appended if its length is odd.
pub open spec fn spec_pad(data: Seq<u8>) -> Seq<u8> {
    if data.len() % 2 == 0 {
        data
    } else {
        data.push(0u8)
    }
}

/// The `i`-th big-endian 16-bit word of a sequence of even length.
pub open spec fn spec_word_at(padded: Seq<u8>, i: int) -> int {
    padded[2 * i] as int * 256 + padded[2 * i + 1] as int
}

/// The sum of the first `n` words of a sequence of even length.
pub open spec fn spec_sum_words(padded: Seq<u8>, n: int) -> int
    decreases n,
{
    if n <= 0 {
        0
    } else {
        spec_sum_words(padded, n - 1) + spec_word_at(padded, n - 1)
    }
}

/// The sum of all 16-bit words of `data`, padded to even length.
pub open spec fn spec_raw_sum(data: Seq<u8>) -> int {
    spec_sum_words(spec_pad(data), spec_pad(data).len() as int / 2)
}

/// Adds what lies above the low 16 bits of `sum` back into them until the
/// result fits in 16 bits.
pub open spec fn spec_fold_carries(sum: int) -> int
    decreases sum,
{
    if sum < 0x10000 {
        sum
    } else {
        spec_fold_carries(sum % 0x10000 + sum / 0x10000)
    }
}

/// The one's complement of a folded sum, with zero replaced by all ones.
pub open spec fn spec_complement(folded: int) -> u16 {
    if folded == 0xFFFF {
        CHECKSUM_ALL_ONES
    } else {
        (0xFFFF - folded) as u16
    }
}

/// The Internet checksum of `data`.
pub open spec fn spec_internet_checksum(data: Seq<u8>) -> u16 {
    spec_complement(spec_fold_carries(spec_raw_sum(data)))
}

/// A sum of words is never negative, and each word adds at most 0xFFFF.
pub proof fn lemma_sum_words_bounds(padded: Seq<u8>, n: int)
    requires
        0 <= n,
    ensures
        0 <= spec_sum_words(padded, n) <= n * 0xFFFF,
    decreases n,
{
    if n > 0 {
        lemma_sum_words_bounds(padded, n - 1);
    }
}

/// A sum of words is at least each of the words it adds.
pub proof fn lemma_sum_words_at_least(padded: Seq<u8>, n: int, k: int)
    requires
        0 <= k < n,
    ensures
        spec_sum_words(padded, n) >= spec_word_at(padded, k),
    decreases n,
{
    lemma_sum_words_bounds(padded, n - 1);
    if k < n - 1 {
        lemma_sum_words_at_least(padded, n - 1, k);
    }
}

/// Writing a new word in place of the `k`-th changes the sum by the
/// difference of the two words, and only where the sum reaches that word.
pub proof fn lemma_sum_words_update(padded: Seq<u8>, n: int, k: int, hi: u8, lo: u8)
    requires
        0 <= k,
        2 * k + 1 < padded.len(),
        0 <= n,
        2 * n <= padded.len(),
    ensures
        spec_sum_words(padded.update(2 * k, hi).update(2 * k + 1, lo), n) == spec_sum_words(
            padded,
            n,
        ) + if k < n {
            hi as int * 256 + lo as int - spec_word_at(padded, k)
        } else {
            0
        },
    decreases n,
{
    if n > 0 {
        lemma_sum_words_update(padded, n - 1, k, hi, lo);
        let written = padded.update(2 * k, hi).update(2 * k + 1, lo);
        if k != n - 1 {
            assert(written[2 * (n - 1)] == padded[2 * (n - 1)]);
            assert(written[2 * (n - 1) + 1] == padded[2 * (n - 1) + 1]);
        } else {
            assert(written[2 * k] == hi);
            assert(written[2 * k + 1] == lo);
        }
    }
}

/// Folding has a closed form: zero stays zero, and a positive sum goes to
/// the one number in 1..=0xFFFF that is congruent to it modulo 0xFFFF.
pub proof fn lemma_fold_closed_form(sum: int)
    requires
        0 <= sum,
    ensures
        spec_fold_carries(sum) == if sum == 0 {
            0
        } else {
            (sum - 1) % 0xFFFF + 1
        },
    decreases sum,
{
    if sum >= 0x10000 {
        let low = sum % 0x10000;
        let high = sum / 0x10000;
        let next = low + high;
        assert(sum == high * 0x10000 + low);
        assert(1 <= next < sum);
        lemma_fold_closed_form(next);
        assert(sum - 1 == (next - 1) + high * 0xFFFF);
        assert((sum - 1) % 0xFFFF == (next - 1) % 0xFFFF) by {
            vstd::arithmetic::div_mod::lemma_mod_multiples_vanish(high, next - 1, 0xFFFF);
        }
    }
}

/// A folded sum fits in 16 bits.
pub proof fn lemma_fold_range(sum: int)
    requires
        0 <= sum,
    ensures
        0 <= spec_fold_carries(sum) <= 0xFFFF,
        spec_fold_carries(sum) == 0 <==> sum == 0,
{
    lemma_fold_closed_form(sum);
}

/// Two sums that fold to the same value still do after the same word is
/// added to both.
pub proof fn lemma_fold_add(a: int, b: int, word: int)
    requires
        0 <= a,
        0 <= b,
        0 <= word,
        spec_fold_carries(a) == spec_fold_carries(b),
    ensures
        spec_fold_carries(a + word) == spec_fold_carries(b + word),
{
    lemma_fold_closed_form(a);
    lemma_fold_closed_form(b);
    lemma_fold_closed_form(a + word);
    lemma_fold_closed_form(b + word);
    if a > 0 && b > 0 {
        let ra = (a - 1) % 0xFFFF;
        let rb = (b - 1) % 0xFFFF;
        assert(ra == rb);
        vstd::arithmetic::div_mod::lemma_add_mod_noop(a - 1, word, 0xFFFF);
        vstd::arithmetic::div_mod::lemma_add_mod_noop(b - 1, word, 0xFFFF);
    }
}

/// One folding step leaves the folded value as it is.
pub proof fn lemma_fold_step(sum: int)
    requires
        0 <= sum,
    ensures
        spec_fold_carries(sum % 0x10000 + sum / 0x10000) == spec_fold_carries(sum),
{
    if sum < 0x10000 {
        assert(sum % 0x10000 == sum);
        assert(sum / 0x10000 == 0);
    }
}

/// The checksum is a function of the bytes it covers: equal inputs give
/// equal checksums.
pub proof fn lemma_checksum_deterministic(first: Seq<u8>, second: Seq<u8>)
    requires
        first == second,
    ensures
        spec_internet_checksum(first) == spec_internet_checksum(second),
{
}

/// No input has the checksum zero: zero is left to mean that no checksum was
/// computed.
pub proof fn lemma_checksum_never_zero(data: Seq<u8>)
    ensures
        spec_internet_checksum(data) != 0,
{
    lemma_sum_words_bounds(spec_pad(data), spec_pad(data).len() as int / 2);
    lemma_fold_range(spec_raw_sum(data));
}

/// Where the words sum to zero, and where they fold to 0xFFFF so that the
/// complement would be zero, the checksum is 0xFFFF.
pub proof fn lemma_checksum_all_ones(data: Seq<u8>)
    ensures
        spec_raw_sum(data) == 0 ==> spec_internet_checksum(data) == CHECKSUM_ALL_ONES,
        spec_fold_carries(spec_raw_sum(data)) == 0xFFFF ==> spec_internet_checksum(data)
            == CHECKSUM_ALL_ONES,
{
}

/// Adding its own checksum to a positive sum gives a sum that folds to
/// 0xFFFF: this is how a receiver recognises an undamaged datagram.
pub proof fn lemma_complement_verifies(sum: int)
    requires
        0 < sum,
    ensures
        spec_fold_carries(sum + spec_complement(spec_fold_carries(sum))) == 0xFFFF,
{
    let folded = spec_fold_carries(sum);
    let checksum = spec_complement(folded) as int;
    lemma_fold_closed_form(sum);
    lemma_fold_closed_form(sum + checksum);
    let quotient = (sum - 1) / 0xFFFF;
    assert(sum - 1 == quotient * 0xFFFF + (folded - 1)) by {
        vstd::arithmetic::div_mod::lemma_fundamental_div_mod(sum - 1, 0xFFFF);
    }
    if folded == 0xFFFF {
        assert(sum + checksum - 1 == (quotient + 1) * 0xFFFF + 0xFFFE);
        vstd::arithmetic::div_mod::lemma_fundamental_div_mod_converse(
            sum + checksum - 1,
            0xFFFF,
            quotient + 1,
            0xFFFE,
        );
    } else {
        assert(sum + checksum - 1 == quotient * 0xFFFF + 0xFFFE);
        vstd::arithmetic::div_mod::lemma_fundamental_div_mod_converse(
            sum + checksum - 1,
            0xFFFF,
            quotient,
            0xFFFE,
        );
    }
}

/// One folding step: what lies above the low 16 bits is added to them.
fn fold_once(sum: u32) -> (folded: u32)
    ensures
        folded as int == sum as int % 0x10000 + sum as int / 0x10000,
        sum > 0xFFFF ==> folded < sum,
        spec_fold_carries(folded as int) == spec_fold_carries(sum as int),
{
    assert((sum & 0xFFFF) == sum % 0x10000 && (sum >> 16) == sum / 0x10000 && (sum > 0xFFFF ==> (
    sum & 0xFFFF) + (sum >> 16) < sum)) by (bit_vector);
    proof {
        lemma_fold_step(sum as int);
    }
    (sum & 0xFFFF) + (sum >> 16)
}

/// Adds `word` to the accumulator, which stands for the sum `total` of the
/// words before it. The accumulator is folded first where it has grown
/// close to 32 bits, so that it holds whatever the length of the input.
fn add_word(sum: u32, word: u16, Ghost(total): Ghost<int>) -> (next: u32)
    requires
        0 <= total,
        spec_fold_carries(sum as int) == spec_fold_carries(total),
    ensures
        spec_fold_carries(next as int) == spec_fold_carries(total + word as int),
{
    let room: u32 = if sum > 0xFFFF_0000 {
        fold_once(sum)
    } else {
        sum
    };
    proof {
        lemma_fold_add(room as int, total, word as int);
    }
    room + word as u32
}

/// Computes the Internet checksum of `data`.
///
/// The words are summed in a 32-bit accumulator; the carries are folded back
/// into the low 16 bits, the result is complemented, and a complement of zero
/// is given as 0xFFFF. The result is therefore never zero.
pub fn internet_checksum(data: &[u8]) -> (checksum: u16)
    ensures
        checksum == spec_internet_checksum(data@),
        checksum != 0,
{
    let n: usize = data.len();
    let ghost padded = spec_pad(data@);
    let mut sum: u32 = 0;
    let mut i: usize = 0;
    while n - i >= 2
        invariant
            n == data@.len(),
            padded == spec_pad(data@),
            i <= n,
            i % 2 == 0,
            0 <= spec_sum_words(padded, i as int / 2),
            spec_fold_carries(sum as int) == spec_fold_carries(
                spec_sum_words(padded, i as int / 2),
            ),
        decreases n - i,
    {
        let word = u16_from_be(data[i], data[i + 1]);
        assert(spec_word_at(padded, i as int / 2) == word);
        sum = add_word(sum, word, Ghost(spec_sum_words(padded, i as int / 2)));
        i = i + 2;
    }
    if i < n {
        // An odd byte is left: the high half of a word padded with zero.
        let word = u16_from_be(data[i], 0);
        assert(spec_word_at(padded, i as int / 2) == word);
        sum = add_word(sum, word, Ghost(spec_sum_words(padded, i as int / 2)));
    }
    assert(spec_fold_carries(sum as int) == spec_fold_carries(spec_raw_sum(data@)));
    while sum > 0xFFFF
        invariant
            spec_fold_carries(sum as int) == spec_fold_carries(spec_raw_sum(data@)),
        decreases sum,
    {
        sum = fold_once(sum);
    }
    let folded: u16 = sum as u16;
    assert(!folded == 0xFFFFu16 - folded) by (bit_vector);
    let complement: u16 = !folded;
    if complement == 0 {
        CHECKSUM_ALL_ONES
    } else {
        complement
    }
}

} // verus!
