//! Response frames and command payloads: checksum-protected big-endian words
//! and the 8.8 fixed-point humidity encoding.
use crate::checksum::{calculate_crc, crc8_of};
use vstd::prelude::*;

verus! {

/// The 16-bit value of two bytes, high byte first.
pub open spec fn be_word(hi: u8, lo: u8) -> u16 {
    (hi as int * 256 + lo as int) as u16
}

/// The two bytes of `w`, high byte first.
pub open spec fn word_bytes(w: u16) -> Seq<u8> {
    seq![(w / 256) as u8, (w % 256) as u8]
}

/// `w` as it stands on the wire: its two bytes and their checksum.
pub open spec fn protected_word(w: u16) -> Seq<u8> {
    word_bytes(w).push(crc8_of(word_bytes(w)))
}

/// The word at offset `i` of `f` is followed by its checksum.
pub open spec fn word_valid(f: Seq<u8>, i: int) -> bool {
    f[i + 2] == crc8_of(f.subrange(i, i + 2))
}

/// The word at offset `i` of `f`.
pub open spec fn word_at(f: Seq<u8>, i: int) -> u16 {
    be_word(f[i], f[i + 1])
}

/// A 3-byte frame holding one word; `None` on a checksum mismatch.
pub open spec fn single_of(f: Seq<u8>) -> Option<u16> {
    if word_valid(f, 0) {
        Some(word_at(f, 0))
    } else {
        None
    }
}

/// A 6-byte frame holding two words; `None` on a checksum mismatch.
pub open spec fn pair_of(f: Seq<u8>) -> Option<(u16, u16)> {
    if word_valid(f, 0) && word_valid(f, 3) {
        Some((word_at(f, 0), word_at(f, 3)))
    } else {
        None
    }
}

/// A 9-byte frame holding three words, read as one number with the first
/// word highest; `None` on a checksum mismatch.
pub open spec fn serial_of(f: Seq<u8>) -> Option<u64> {
    if word_valid(f, 0) && word_valid(f, 3) && word_valid(f, 6) {
        Some(
            (word_at(f, 0) as int * 0x1_0000_0000 + word_at(f, 3) as int * 0x1_0000
                + word_at(f, 6) as int) as u64,
        )
    } else {
        None
    }
}

/// The self-test pattern the sensor answers with when it is healthy.
pub open spec fn self_test_of(f: Seq<u8>) -> Option<bool> {
    if word_valid(f, 0) {
        Some(f[0] == 0xD4 && f[1] == 0)
    } else {
        None
    }
}

/// Product type (high nibble of the first byte) and product version (second
/// byte); `None` on a checksum mismatch.
pub open spec fn feature_set_of(f: Seq<u8>) -> Option<(u8, u8)> {
    if word_valid(f, 0) {
        Some(((f[0] / 16) as u8, f[1]))
    } else {
        None
    }
}

/// The 8.8 fixed-point form of `milli` thousandths: whole part in the high
/// byte, the rest scaled by 256 and truncated in the low byte. `None` when
/// either part does not fit in a byte.
pub open spec fn fixed_point_of(milli: u32) -> Option<u16> {
    let whole = milli as int / 1000;
    let frac = (milli as int % 1000) * 256 / 1000;
    if whole > 255 || frac > 255 {
        None
    } else {
        Some((whole * 256 + frac) as u16)
    }
}

/// Whether the word at offset `i` of `frame` matches its checksum.
fn check_word(frame: &[u8], i: usize) -> (r: bool)
    requires
        i + 3 <= frame@.len(),
    ensures
        r == word_valid(frame@, i as int),
{
    let word: [u8; 2] = [frame[i], frame[i + 1]];
    let c = calculate_crc(word.as_slice());
    assert(word@ =~= frame@.subrange(i as int, i as int + 2));
    c == frame[i + 2]
}

/// The word at offset `i` of `frame`.
fn read_word(frame: &[u8], i: usize) -> (r: u16)
    requires
        i + 2 <= frame@.len(),
    ensures
        r == word_at(frame@, i as int),
{
    (frame[i] as u16) * 256 + (frame[i + 1] as u16)
}

/// Decodes a frame of one checksum-protected word.
pub fn decode_word(frame: &[u8]) -> (r: Option<u16>)
    requires
        frame@.len() == 3,
    ensures
        r == single_of(frame@),
{
    if !check_word(frame, 0) {
        return None;
    }
    Some(read_word(frame, 0))
}

/// Decodes a frame of two checksum-protected words.
pub fn decode_pair(frame: &[u8]) -> (r: Option<(u16, u16)>)
    requires
        frame@.len() == 6,
    ensures
        r == pair_of(frame@),
{
    if !check_word(frame, 0) || !check_word(frame, 3) {
        return None;
    }
    Some((read_word(frame, 0), read_word(frame, 3)))
}

/// Decodes a frame of three checksum-protected words into a 48-bit serial
/// number, first word highest.
pub fn decode_serial(frame: &[u8]) -> (r: Option<u64>)
    requires
        frame@.len() == 9,
    ensures
        r == serial_of(frame@),
        r matches Some(v) ==> v < 0x1_0000_0000_0000,
{
    if !check_word(frame, 0) || !check_word(frame, 3) || !check_word(frame, 6) {
        return None;
    }
    let high = read_word(frame, 0) as u64;
    let mid = read_word(frame, 3) as u64;
    let low = read_word(frame, 6) as u64;
    Some(high * 0x1_0000_0000 + mid * 0x1_0000 + low)
}

/// Decodes the answer to the self-test: whether it is the healthy pattern.
pub fn decode_self_test(frame: &[u8]) -> (r: Option<bool>)
    requires
        frame@.len() == 3,
    ensures
        r == self_test_of(frame@),
{
    if !check_word(frame, 0) {
        return None;
    }
    Some(frame[0] == 0xD4 && frame[1] == 0x00)
}

/// Decodes the feature set: product type and product version.
pub fn decode_feature_set(frame: &[u8]) -> (r: Option<(u8, u8)>)
    requires
        frame@.len() == 3,
    ensures
        r == feature_set_of(frame@),
{
    if !check_word(frame, 0) {
        return None;
    }
    let b = frame[0];
    assert(b >> 4 == b / 16) by (bit_vector);
    Some((b >> 4, frame[1]))
}

/// Appends `w` to `out` as it goes on the wire: two bytes, high first, and
/// their checksum.
pub fn push_word(out: &mut Vec<u8>, w: u16)
    ensures
        final(out)@ == old(out)@ + protected_word(w),
{
    let hi = (w / 256) as u8;
    let lo = (w % 256) as u8;
    let bytes: [u8; 2] = [hi, lo];
    let c = calculate_crc(bytes.as_slice());
    assert(bytes@ =~= word_bytes(w));
    out.push(hi);
    out.push(lo);
    out.push(c);
    assert(final(out)@ =~= old(out)@ + protected_word(w));
}

/// Converts a quantity given in thousandths (mg/m³ for an absolute humidity
/// in g/m³) to 8.8 fixed point, truncating the fraction.
pub fn fixed_point_from_milli(milli: u32) -> (r: Option<u16>)
    ensures
        r == fixed_point_of(milli),
{
    let whole = milli / 1000;
    let frac = (milli % 1000) * 256 / 1000;
    if whole > 255 || frac > 255 {
        return None;
    }
    Some(whole as u16 * 256 + frac as u16)
}

/// Two checksums of the same bytes agree: the checksum depends on the bytes
/// alone.
pub proof fn lemma_checksum_deterministic(a: Seq<u8>, b: Seq<u8>)
    requires
        a == b,
    ensures
        crc8_of(a) == crc8_of(b),
{
}

/// A word written by `push_word` reads back as itself.
pub proof fn lemma_word_round_trip(f: Seq<u8>, i: int, w: u16)
    requires
        0 <= i,
        i + 3 <= f.len(),
        f.subrange(i, i + 3) == protected_word(w),
    ensures
        word_valid(f, i),
        word_at(f, i) == w,
{
    assert(f.subrange(i, i + 2) =~= word_bytes(w)) by {
        assert(f.subrange(i, i + 2) =~= f.subrange(i, i + 3).subrange(0, 2));
    }
    assert(f[i] == protected_word(w)[0]);
    assert(f[i + 1] == protected_word(w)[1]);
    assert(f[i + 2] == protected_word(w)[2]);
}

/// A one-word frame of a protected word decodes to that word.
pub proof fn lemma_single_round_trip(w: u16)
    ensures
        single_of(protected_word(w)) == Some(w),
{
    assert(protected_word(w).subrange(0, 3) =~= protected_word(w));
    lemma_word_round_trip(protected_word(w), 0, w);
}

/// A two-word frame of protected words decodes to the pair, in order.
pub proof fn lemma_pair_round_trip(a: u16, b: u16)
    ensures
        pair_of(protected_word(a) + protected_word(b)) == Some((a, b)),
{
    let f = protected_word(a) + protected_word(b);
    assert(f.subrange(0, 3) =~= protected_word(a));
    assert(f.subrange(3, 6) =~= protected_word(b));
    lemma_word_round_trip(f, 0, a);
    lemma_word_round_trip(f, 3, b);
}

/// A three-word frame of protected words decodes to the words concatenated
/// big-endian, first word highest, with the top 16 bits zero.
pub proof fn lemma_serial_concatenates(w0: u16, w1: u16, w2: u16)
    ensures
        serial_of(protected_word(w0) + protected_word(w1) + protected_word(w2)) == Some(
            (w0 as int * 0x1_0000_0000 + w1 as int * 0x1_0000 + w2 as int) as u64,
        ),
        (w0 as int * 0x1_0000_0000 + w1 as int * 0x1_0000 + w2 as int) < 0x1_0000_0000_0000,
{
    let f = protected_word(w0) + protected_word(w1) + protected_word(w2);
    assert(f.subrange(0, 3) =~= protected_word(w0));
    assert(f.subrange(3, 6) =~= protected_word(w1));
    assert(f.subrange(6, 9) =~= protected_word(w2));
    lemma_word_round_trip(f, 0, w0);
    lemma_word_round_trip(f, 3, w1);
    lemma_word_round_trip(f, 6, w2);
}

/// The self-test answer with a matching checksum is `true` for the word
/// 0xD400 and `false` for every other word.
pub proof fn lemma_self_test_pattern(w: u16)
    ensures
        self_test_of(protected_word(w)) == Some(w == 0xD400),
{
    assert(protected_word(w).subrange(0, 3) =~= protected_word(w));
    lemma_word_round_trip(protected_word(w), 0, w);
}

/// The frame decoders of this module, all at once: `None` from each one that
/// reads a frame of `f`'s length.
pub open spec fn rejected(f: Seq<u8>) -> bool {
    &&& f.len() == 3 ==> single_of(f) is None && self_test_of(f) is None && feature_set_of(f) is None
    &&& f.len() == 6 ==> pair_of(f) is None
    &&& f.len() == 9 ==> serial_of(f) is None
}

/// A frame in which one word's checksum byte was changed, and nothing else,
/// is refused by every decoder.
pub proof fn lemma_altered_checksum_rejected(f: Seq<u8>, i: int, b: u8)
    requires
        f.len() == 3 || f.len() == 6 || f.len() == 9,
        i == 0 || i == 3 || i == 6,
        i + 3 <= f.len(),
        word_valid(f, i),
        b != f[i + 2],
    ensures
        rejected(f.update(i + 2, b)),
        !word_valid(f.update(i + 2, b), i),
{
    let g = f.update(i + 2, b);
    assert(g.subrange(i, i + 2) =~= f.subrange(i, i + 2));
}

/// A frame in which one data byte of a word was changed while its checksum
/// byte was kept is refused by every decoder, whenever the changed word's
/// checksum differs from the original word's (CRC-8 gives two words that
/// differ in one byte different checksums).
pub proof fn lemma_stale_checksum_rejected(f: Seq<u8>, i: int, j: int, b: u8)
    requires
        f.len() == 3 || f.len() == 6 || f.len() == 9,
        i == 0 || i == 3 || i == 6,
        i + 3 <= f.len(),
        j == i || j == i + 1,
        word_valid(f, i),
        crc8_of(f.update(j, b).subrange(i, i + 2)) != crc8_of(f.subrange(i, i + 2)),
    ensures
        rejected(f.update(j, b)),
        !word_valid(f.update(j, b), i),
{
}

} // verus!
