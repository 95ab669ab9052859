//! 16-bit PCM audio: resampling, byte order, and its Base64 text.

use base64::engine::general_purpose::STANDARD;
use base64::Engine;
use vstd::prelude::*;

verus! {

/// One byte of a 16-bit sample in little-endian order: the low byte first.
pub open spec fn sample_byte(sample: i16, k: int) -> u8 {
    if k == 0 {
        (sample as int % 256) as u8
    } else {
        ((sample as int / 256) % 256) as u8
    }
}

/// How many samples at `target` samples per second stand for `len` samples at `source`. The
/// product saturates at the largest machine word.
pub open spec fn resampled_len(len: nat, source: nat, target: nat) -> nat {
    if source == 0 {
        0
    } else if len * target > usize::MAX {
        usize::MAX as nat / source
    } else {
        len * target / source
    }
}

/// The position of the input sample that the output sample at `i` repeats: the one that was
/// playing at that moment.
pub open spec fn source_position(i: int, source: int, target: int) -> int {
    i * source / target
}

/// The bytes of `samples` resampled from `source` to `target` samples per second.
pub open spec fn pcm16(samples: Seq<i16>, source: nat, target: nat) -> Seq<u8> {
    Seq::new(
        2 * resampled_len(samples.len(), source, target),
        |i: int|
            sample_byte(samples[source_position(i / 2, source as int, target as int)], i % 2),
    )
}

/// Resampling never looks past the end of its input.
pub proof fn resampling_stays_in_range(len: nat, source: nat, target: nat, i: int)
    requires
        0 <= i < resampled_len(len, source, target),
    ensures
        target > 0,
        0 <= i * source <= usize::MAX,
        0 <= source_position(i, source as int, target as int) < len,
{
    let product = if len * target > usize::MAX {
        usize::MAX as nat
    } else {
        len * target
    };
    let n = resampled_len(len, source, target);
    assert(n == product / source);
    assert((i + 1) * source <= product) by (nonlinear_arith)
        requires
            0 <= i < n,
            source > 0,
            n == product / source,
    ;
    assert(target > 0) by (nonlinear_arith)
        requires
            (i + 1) * source <= product,
            i >= 0,
            source > 0,
            product <= len * target,
            target >= 0,
    ;
    assert(0 <= i * source < len * target && i * source <= product) by (nonlinear_arith)
        requires
            (i + 1) * source <= product,
            product <= len * target,
            source > 0,
            i >= 0,
    ;
    assert(0 <= i * source / (target as int) < len) by (nonlinear_arith)
        requires
            0 <= i * source < len * target,
            target > 0,
    ;
}

/// Resampling to the rate that the samples already have keeps each of them.
pub proof fn resampling_to_the_same_rate_keeps_the_samples(samples: Seq<i16>, rate: nat)
    requires
        rate > 0,
        samples.len() * rate <= usize::MAX,
    ensures
        pcm16(samples, rate, rate) == Seq::new(
            2 * samples.len(),
            |i: int| sample_byte(samples[i / 2], i % 2),
        ),
{
    let n = samples.len();
    assert(n * rate / rate == n) by (nonlinear_arith)
        requires
            rate > 0,
    ;
    assert forall|i: int| 0 <= i < n implies source_position(i, rate as int, rate as int) == i by {
        assert(i * (rate as int) / (rate as int) == i) by (nonlinear_arith)
            requires
                rate > 0,
        ;
    }
    assert(pcm16(samples, rate, rate) =~= Seq::new(
        2 * samples.len(),
        |i: int| sample_byte(samples[i / 2], i % 2),
    ));
}

/// Resampling keeps the duration: audio of whole seconds at one rate lasts as many seconds at the
/// other.
pub proof fn resampling_keeps_the_duration(seconds: nat, source: nat, target: nat)
    requires
        source > 0,
        seconds * source * target <= usize::MAX,
    ensures
        resampled_len(seconds * source, source, target) == seconds * target,
{
    assert(seconds * source * target / source == seconds * target) by (nonlinear_arith)
        requires
            source > 0,
    ;
}

proof fn lemma_sample_bytes(sample: i16, word: u16)
    requires
        word == sample as u16,
    ensures
        (word % 256) as u8 == sample_byte(sample, 0),
        (word / 256) as u8 == sample_byte(sample, 1),
{
    assert(sample >= 0 ==> sample as u16 == sample) by (bit_vector);
    assert(sample < 0 ==> sample as u16 == sample + 65536) by (bit_vector);
}

/// The samples, resampled from `source_rate` to `target_rate` samples per second by repeating the
/// sample that was playing at each moment, as little-endian bytes.
pub fn resample_to_pcm16(samples: &[i16], source_rate: u32, target_rate: u32) -> (output: Vec<u8>)
    requires
        2 * resampled_len(samples@.len(), source_rate as nat, target_rate as nat) <= isize::MAX,
    ensures
        output@ == pcm16(samples@, source_rate as nat, target_rate as nat),
{
    let source: usize = source_rate as usize;
    let target: usize = target_rate as usize;
    if samples.len() == 0 || source == 0 {
        let output: Vec<u8> = Vec::new();
        assert(0 * target_rate as nat == 0) by (nonlinear_arith);
        assert(output@ =~= pcm16(samples@, source_rate as nat, target_rate as nat));
        return output;
    }
    let output_len: usize = match samples.len().checked_mul(target) {
        Some(product) => product / source,
        None => usize::MAX / source,
    };
    assert(output_len == resampled_len(samples@.len(), source as nat, target as nat));
    let mut output: Vec<u8> = Vec::with_capacity(output_len * 2);
    let mut index: usize = 0;
    while index < output_len
        invariant
            source == source_rate,
            target == target_rate,
            output_len == resampled_len(samples@.len(), source as nat, target as nat),
            index <= output_len,
            output@ == pcm16(samples@, source as nat, target as nat).take(2 * index),
        decreases output_len - index,
    {
        proof {
            resampling_stays_in_range(samples@.len(), source as nat, target as nat, index as int);
        }
        let position: usize = index * source / target;
        let sample: i16 = samples[position];
        let word: u16 = #[verifier::truncate] (sample as u16);
        let low: u8 = (word % 256) as u8;
        let high: u8 = (word / 256) as u8;
        proof {
            lemma_sample_bytes(sample, word);
        }
        output.push(low);
        output.push(high);
        index += 1;
        assert(output@ =~= pcm16(samples@, source as nat, target as nat).take(2 * index));
    }
    assert(output@ =~= pcm16(samples@, source_rate as nat, target_rate as nat));
    output
}

/// The character of a six-bit group in the standard Base64 alphabet.
pub open spec fn base64_digit(v: int) -> char {
    if v < 26 {
        ('A' as int + v) as char
    } else if v < 52 {
        ('a' as int + v - 26) as char
    } else if v < 62 {
        ('0' as int + v - 52) as char
    } else if v == 62 {
        '+'
    } else {
        '/'
    }
}

/// The byte at `i`, and zero past the end.
pub open spec fn byte_or_zero(bytes: Seq<u8>, i: int) -> int {
    if 0 <= i < bytes.len() {
        bytes[i] as int
    } else {
        0
    }
}

/// The length of the Base64 text of `len` bytes: four characters for each three bytes begun.
pub open spec fn base64_len(len: nat) -> nat {
    (len + 2) / 3 * 4
}

/// The character at `i` of the Base64 text of `bytes`: each three bytes make four groups of six
/// bits, and a group that no byte reaches into is written `=`.
pub open spec fn base64_char(bytes: Seq<u8>, i: int) -> char {
    let start = i / 4 * 3;
    let first = byte_or_zero(bytes, start);
    let second = byte_or_zero(bytes, start + 1);
    let third = byte_or_zero(bytes, start + 2);
    if i % 4 == 0 {
        base64_digit(first / 4)
    } else if i % 4 == 1 {
        base64_digit(first % 4 * 16 + second / 16)
    } else if start + i % 4 - 1 >= bytes.len() {
        '='
    } else if i % 4 == 2 {
        base64_digit(second % 16 * 4 + third / 64)
    } else {
        base64_digit(third % 64)
    }
}

/// The padded Base64 text of `bytes` in the standard alphabet.
pub open spec fn base64_of(bytes: Seq<u8>) -> Seq<char> {
    Seq::new(base64_len(bytes.len()), |i: int| base64_char(bytes, i))
}

/// `Engine::encode` of `base64::engine::general_purpose::STANDARD`: the padded Base64 text of the
/// bytes in the standard alphabet. The text has to fit in memory.
#[verifier::external_body]
pub(crate) fn encode_base64(bytes: &[u8]) -> (r: String)
    requires
        base64_len(bytes@.len()) <= isize::MAX,
    ensures
        r@ == base64_of(bytes@),
{
    STANDARD.encode(bytes)
}

/// The two bytes of a sample make it up again, with those below zero counted down from 2^16.
pub proof fn samples_are_made_of_their_bytes(sample: i16)
    ensures
        sample_byte(sample, 0) + 256 * sample_byte(sample, 1) == if sample < 0 {
            sample + 65536
        } else {
            sample as int
        },
{
}

/// Resampled audio is as long as it can be without lasting longer than the audio that it was made
/// of, whose length in samples of both rates saturates at the largest machine word. Without a rate
/// there is none.
pub proof fn resampled_audio_lasts_as_long(len: nat, source: nat, target: nat)
    ensures
        source == 0 ==> resampled_len(len, source, target) == 0,
        source > 0 && len * target <= usize::MAX ==> resampled_len(len, source, target) * source
            <= len * target < (resampled_len(len, source, target) + 1) * source,
        source > 0 && len * target > usize::MAX ==> resampled_len(len, source, target) * source
            <= usize::MAX < (resampled_len(len, source, target) + 1) * source,
{
    if source > 0 {
        let product = if len * target > usize::MAX {
            usize::MAX as nat
        } else {
            len * target
        };
        let n = product / source;
        assert(n * source <= product < (n + 1) * source) by (nonlinear_arith)
            requires
                source > 0,
                n == product / source,
        ;
    }
}

/// Each two bytes of resampled audio make up the sample that was playing at their moment: the last
/// one that had begun by then.
pub proof fn resampled_audio_repeats_what_was_playing(
    samples: Seq<i16>,
    source: nat,
    target: nat,
    k: int,
    p: int,
)
    requires
        0 <= k < resampled_len(samples.len(), source, target),
        p * target <= k * source < (p + 1) * target,
    ensures
        pcm16(samples, source, target).len() == 2 * resampled_len(samples.len(), source, target),
        0 <= p < samples.len(),
        pcm16(samples, source, target)[2 * k] + 256 * pcm16(samples, source, target)[2 * k + 1]
            == if samples[p] < 0 {
            samples[p] + 65536
        } else {
            samples[p] as int
        },
{
    resampling_stays_in_range(samples.len(), source, target, k);
    let position = source_position(k, source as int, target as int);
    assert(position == p) by (nonlinear_arith)
        requires
            position == k * source / (target as int),
            p * target <= k * source < (p + 1) * target,
            target > 0,
    ;
    samples_are_made_of_their_bytes(samples[p]);
    assert((2 * k) / 2 == k && (2 * k) % 2 == 0);
    assert((2 * k + 1) / 2 == k && (2 * k + 1) % 2 == 1);
}

/// The digits of Base64 are the capitals, the small letters, the decimal digits, `+` and `/`.
pub proof fn base64_digits_are_the_standard_ones(v: int)
    requires
        0 <= v < 64,
    ensures
        v < 26 ==> base64_digit(v) as int == 65 + v,
        26 <= v < 52 ==> base64_digit(v) as int == 97 + v - 26,
        52 <= v < 62 ==> base64_digit(v) as int == 48 + v - 52,
        v == 62 ==> base64_digit(v) as int == 43,
        v == 63 ==> base64_digit(v) as int == 47,
{
}

/// Each three bytes become four digits of the same number in base 64. At the end, bytes that are
/// missing count as zero, and `=` stands for the digits that they alone would make.
pub proof fn base64_texts_hold_their_bytes(bytes: Seq<u8>, k: int)
    requires
        0 <= 3 * k < bytes.len(),
    ensures
        base64_of(bytes).len() == (bytes.len() + 2) / 3 * 4,
        4 * k + 3 < base64_of(bytes).len(),
        exists|a: int, b: int, c: int, d: int|
            #![trigger base64_digit(a), base64_digit(b), base64_digit(c), base64_digit(d)]
            {
                let second = if 3 * k + 1 < bytes.len() {
                    bytes[3 * k + 1] as int
                } else {
                    0
                };
                let third = if 3 * k + 2 < bytes.len() {
                    bytes[3 * k + 2] as int
                } else {
                    0
                };
                &&& 0 <= a < 64 && 0 <= b < 64 && 0 <= c < 64 && 0 <= d < 64
                &&& ((a * 64 + b) * 64 + c) * 64 + d == (bytes[3 * k] * 256 + second) * 256 + third
                &&& base64_of(bytes)[4 * k] == base64_digit(a)
                &&& base64_of(bytes)[4 * k + 1] == base64_digit(b)
                &&& base64_of(bytes)[4 * k + 2] == if 3 * k + 1 < bytes.len() {
                    base64_digit(c)
                } else {
                    '='
                }
                &&& base64_of(bytes)[4 * k + 3] == if 3 * k + 2 < bytes.len() {
                    base64_digit(d)
                } else {
                    '='
                }
            },
{
    let first = byte_or_zero(bytes, 3 * k);
    let second = byte_or_zero(bytes, 3 * k + 1);
    let third = byte_or_zero(bytes, 3 * k + 2);
    let a = first / 4;
    let b = first % 4 * 16 + second / 16;
    let c = second % 16 * 4 + third / 64;
    let d = third % 64;
    assert((4 * k) / 4 == k && (4 * k + 1) / 4 == k && (4 * k + 2) / 4 == k && (4 * k + 3) / 4 == k);
    assert((4 * k) % 4 == 0 && (4 * k + 1) % 4 == 1 && (4 * k + 2) % 4 == 2 && (4 * k + 3) % 4 == 3);
    assert(((a * 64 + b) * 64 + c) * 64 + d == (first * 256 + second) * 256 + third);
    assert(0 <= a < 64 && 0 <= b < 64 && 0 <= c < 64 && 0 <= d < 64);
    let digits = seq![base64_digit(a), base64_digit(b), base64_digit(c), base64_digit(d)];
    assert(digits[2] == base64_digit(c) && digits[3] == base64_digit(d));
    assert(base64_of(bytes)[4 * k] == base64_digit(a));
    assert(base64_of(bytes)[4 * k + 1] == base64_digit(b));
    assert(base64_of(bytes)[4 * k + 2] == if 3 * k + 1 < bytes.len() {
        base64_digit(c)
    } else {
        '='
    });
    assert(base64_of(bytes)[4 * k + 3] == if 3 * k + 2 < bytes.len() {
        base64_digit(d)
    } else {
        '='
    });
}

} // verus!
