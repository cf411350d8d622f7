use vstd::prelude::*;

verus! {

/// Largest value (exclusive) that fits into two base-240 digits whose high
/// digit is at most 240.
pub const BASE240_LIMIT: u16 = 57840;

/// The high digit of `value` in base 240.
pub open spec fn base240_high(value: int) -> int {
    value / 240
}

/// The low digit of `value` in base 240.
pub open spec fn base240_low(value: int) -> int {
    value % 240
}

/// The two bytes, high digit first, that encode `value` in base 240.
pub open spec fn spec_encode_base240(value: int) -> Seq<u8> {
    seq![base240_high(value) as u8, base240_low(value) as u8]
}

/// The value that a high and a low base-240 digit stand for.
pub open spec fn spec_decode_base240(h: u8, l: u8) -> int {
    240 * h + l
}

/// XOR of all bytes, folded from the first to the last.
pub open spec fn spec_xor(data: Seq<u8>) -> u8
    decreases data.len(),
{
    if data.len() == 0 {
        0
    } else {
        spec_xor(data.drop_last()) ^ data.last()
    }
}

/// Splits `value` into a high and a low base-240 digit, so that neither
/// byte reaches the frame markers 0xfa and 0xf8.
pub fn encode_base240(value: u16) -> (r: (u8, u8))
    requires
        value < BASE240_LIMIT,
    ensures
        r.0 == base240_high(value as int),
        r.1 == base240_low(value as int),
        r.0 <= 240,
        r.1 < 240,
{
    let h = (value / 240) as u8;
    let l = (value % 240) as u8;
    (h, l)
}

/// Combines a high and a low base-240 digit into a value.
pub fn decode_base240(h: u8, l: u8) -> (v: u16)
    ensures
        v == spec_decode_base240(h, l),
{
    240 * h as u16 + l as u16
}

/// XOR of all bytes of `data`.
pub fn xor_checksum(data: &[u8]) -> (r: u8)
    ensures
        r == spec_xor(data@),
{
    let mut acc: u8 = 0;
    let mut i: usize = 0;
    while i < data.len()
        invariant
            i <= data.len(),
            acc == spec_xor(data@.take(i as int)),
        decreases data.len() - i,
    {
        assert(data@.take(i + 1).drop_last() =~= data@.take(i as int));
        acc = acc ^ data[i];
        i = i + 1;
    }
    assert(data@.take(i as int) =~= data@);
    acc
}

/// Decoding what was encoded gives the value back, and both encoded bytes
/// lie below the frame markers.
pub proof fn lemma_base240_roundtrip(value: u16)
    requires
        value < BASE240_LIMIT,
    ensures
        ({
            let e = spec_encode_base240(value as int);
            &&& spec_decode_base240(e[0], e[1]) == value
            &&& e[0] <= 240 && e[1] < 240
        }),
{
}

/// Two digits with a low digit below 240 are exactly the encoding of the
/// value they decode to.
pub proof fn lemma_base240_digits_unique(h: u8, l: u8)
    requires
        l < 240,
        h <= 240,
    ensures
        spec_decode_base240(h, l) < BASE240_LIMIT,
        spec_encode_base240(spec_decode_base240(h, l)) == seq![h, l],
{
    let v = spec_decode_base240(h, l);
    assert(v / 240 == h && v % 240 == l) by (nonlinear_arith)
        requires
            v == 240 * h + l,
            0 <= l < 240,
            0 <= h,
    ;
    assert(spec_encode_base240(v) =~= seq![h, l]);
}

/// Appending the checksum of a sequence to it gives a sequence whose
/// checksum is zero.
pub proof fn lemma_xor_with_checksum_is_zero(data: Seq<u8>)
    ensures
        spec_xor(data.push(spec_xor(data))) == 0,
{
    let x = spec_xor(data);
    assert(data.push(x).drop_last() =~= data);
    assert(x ^ x == 0u8) by (bit_vector);
}

} // verus!
