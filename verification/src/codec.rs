//! The pixel codec: pure conversions between an 8-bit RGBA pixel and a
//! packed 16-bit ARGB-1555 value (bit 15 = alpha, bits 14..10 = red,
//! bits 9..5 = green, bits 4..0 = blue).

use vstd::prelude::*;
use vstd::arithmetic::div_mod::{
    lemma_div_is_ordered, lemma_fundamental_div_mod, lemma_fundamental_div_mod_converse,
    lemma_mod_bound,
};

verus! {

/// Quantize an 8-bit channel to 5 bits: round(c * 31 / 255), computed as
/// (c * 31 + 127) / 255 in integers (add half the divisor, then divide).
pub open spec fn quant5(c: u8) -> u16 {
    ((c * 31 + 127) / 255) as u16
}

/// Expand a 5-bit channel to 8 bits: round(c5 * 255 / 31), computed as
/// (c5 * 255 + 15) / 31 in integers.
pub open spec fn expand8(c5: u16) -> u8 {
    ((c5 * 255 + 15) / 31) as u8
}

/// The red field of a packed value: bits 14..10.
pub open spec fn field_r5(v: u16) -> u16 {
    (v >> 10) & 0x1F
}

/// The green field of a packed value: bits 9..5.
pub open spec fn field_g5(v: u16) -> u16 {
    (v >> 5) & 0x1F
}

/// The blue field of a packed value: bits 4..0.
pub open spec fn field_b5(v: u16) -> u16 {
    v & 0x1F
}

/// The alpha bit of a packed value: bit 15.
pub open spec fn alpha_bit(v: u16) -> bool {
    (v >> 15) & 1 == 1
}

/// The packed ARGB-1555 value for an RGBA pixel with binarized alpha.
pub open spec fn pack_spec(r: u8, g: u8, b: u8, a: bool) -> u16 {
    ((if a {
        1u16
    } else {
        0u16
    }) << 15) | (quant5(r) << 10) | (quant5(g) << 5) | quant5(b)
}

/// The RGBA pixel encoded by a packed ARGB-1555 value: each colour field is
/// expanded to 8 bits, and the alpha bit expands to 255 or 0.
pub open spec fn unpack_spec(v: u16) -> (u8, u8, u8, u8) {
    (
        expand8(field_r5(v)),
        expand8(field_g5(v)),
        expand8(field_b5(v)),
        if alpha_bit(v) {
            255u8
        } else {
            0u8
        },
    )
}

/// Quantization is exact integer division of c * 31 + 127 by 255, and its
/// result fits in 5 bits for every 8-bit input.
pub proof fn lemma_quant5_bounds(c: u8)
    ensures
        quant5(c) == (c * 31 + 127) / 255,
        quant5(c) <= 31,
{
    let x: int = c * 31 + 127;
    lemma_fundamental_div_mod_converse(0, 255, 0, 0);
    lemma_div_is_ordered(0, x, 255);
    lemma_fundamental_div_mod_converse(8032, 255, 31, 127);
    lemma_div_is_ordered(x, 8032, 255);
}

/// Expansion is exact integer division of c5 * 255 + 15 by 31 for every
/// 5-bit input (so it fits in 8 bits).
pub proof fn lemma_expand8_exact(c5: u16)
    requires
        c5 <= 31,
    ensures
        expand8(c5) == (c5 * 255 + 15) / 31,
{
    let x: int = c5 * 255 + 15;
    lemma_fundamental_div_mod_converse(0, 31, 0, 0);
    lemma_div_is_ordered(0, x, 31);
    lemma_fundamental_div_mod_converse(7920, 31, 255, 15);
    lemma_div_is_ordered(x, 7920, 31);
}

/// Quantization preserves the order of channel values.
pub proof fn lemma_quant5_monotonic(c1: u8, c2: u8)
    requires
        c1 <= c2,
    ensures
        quant5(c1) <= quant5(c2),
{
    lemma_quant5_bounds(c1);
    lemma_quant5_bounds(c2);
    lemma_div_is_ordered(c1 * 31 + 127, c2 * 31 + 127, 255);
}

/// Expanding a 5-bit value to 8 bits and quantizing the result gives the
/// original value back: the 32 expanded levels re-quantize exactly.
pub proof fn lemma_requant_exact(c5: u16)
    requires
        c5 <= 31,
    ensures
        quant5(expand8(c5)) == c5,
{
    lemma_expand8_exact(c5);
    let x: int = c5 * 255 + 15;
    let e: int = x / 31;
    let m: int = x % 31;
    lemma_fundamental_div_mod(x, 31);
    lemma_mod_bound(x, 31);
    assert(e * 31 + 127 == c5 * 255 + 142 - m);
    lemma_fundamental_div_mod_converse(e * 31 + 127, 255, c5 as int, 142 - m);
}

/// Each channel of a packed value occupies its own bit field: reading the
/// fields of the assembled word gives back exactly the quantized channels
/// and the alpha flag, with no bleed between fields.
pub proof fn lemma_pack_fields(r: u8, g: u8, b: u8, a: bool)
    ensures
        quant5(r) <= 31,
        quant5(g) <= 31,
        quant5(b) <= 31,
        field_r5(pack_spec(r, g, b, a)) == quant5(r),
        field_g5(pack_spec(r, g, b, a)) == quant5(g),
        field_b5(pack_spec(r, g, b, a)) == quant5(b),
        alpha_bit(pack_spec(r, g, b, a)) == a,
{
    lemma_quant5_bounds(r);
    lemma_quant5_bounds(g);
    lemma_quant5_bounds(b);
    let ab: u16 = if a {
        1
    } else {
        0
    };
    let r5 = quant5(r);
    let g5 = quant5(g);
    let b5 = quant5(b);
    let v = (ab << 15) | (r5 << 10) | (g5 << 5) | b5;
    assert((v >> 10) & 0x1F == r5 && (v >> 5) & 0x1F == g5 && v & 0x1F == b5 && (v >> 15) & 1
        == ab) by (bit_vector)
        requires
            ab <= 1,
            r5 <= 31,
            g5 <= 31,
            b5 <= 31,
            v == (ab << 15) | (r5 << 10) | (g5 << 5) | b5,
    ;
}

/// Round-trip stability: unpacking any 16-bit value and re-packing the
/// result (with the unpacked alpha binarized again) reproduces the value
/// exactly.
pub proof fn lemma_unpack_then_pack(v: u16)
    ensures
        ({
            let (r, g, b, a) = unpack_spec(v);
            pack_spec(r, g, b, a > 0) == v
        }),
{
    let r5 = field_r5(v);
    let g5 = field_g5(v);
    let b5 = field_b5(v);
    assert(r5 <= 31 && g5 <= 31 && b5 <= 31 && (v >> 15) & 1 <= 1) by (bit_vector)
        requires
            r5 == (v >> 10) & 0x1F,
            g5 == (v >> 5) & 0x1F,
            b5 == v & 0x1F,
    ;
    lemma_requant_exact(r5);
    lemma_requant_exact(g5);
    lemma_requant_exact(b5);
    let ab: u16 = if alpha_bit(v) {
        1
    } else {
        0
    };
    assert(v == (ab << 15) | (r5 << 10) | (g5 << 5) | b5) by (bit_vector)
        requires
            r5 == (v >> 10) & 0x1F,
            g5 == (v >> 5) & 0x1F,
            b5 == v & 0x1F,
            ab == (v >> 15) & 1,
    ;
}

/// Alpha is binarized: packing sets bit 15 exactly when the alpha flag is
/// set, and unpacking returns alpha 255 exactly when bit 15 is set, else 0.
pub proof fn lemma_alpha_binarization(r: u8, g: u8, b: u8, a: bool, v: u16)
    ensures
        alpha_bit(pack_spec(r, g, b, a)) == a,
        unpack_spec(v).3 == 255 <==> alpha_bit(v),
        unpack_spec(v).3 == 0 <==> !alpha_bit(v),
{
    lemma_pack_fields(r, g, b, a);
}

/// Pack one RGBA pixel into a 16-bit ARGB-1555 value. Each colour channel
/// is quantized to 5 bits with round-to-nearest scaling; the alpha flag
/// becomes bit 15.
pub fn pack(r: u8, g: u8, b: u8, a: bool) -> (packed: u16)
    ensures
        packed == pack_spec(r, g, b, a),
{
    proof {
        lemma_quant5_bounds(r);
        lemma_quant5_bounds(g);
        lemma_quant5_bounds(b);
    }
    let a_bit: u16 = if a {
        1
    } else {
        0
    };
    let r5: u16 = (r as u16 * 31 + 127) / 255;
    let g5: u16 = (g as u16 * 31 + 127) / 255;
    let b5: u16 = (b as u16 * 31 + 127) / 255;
    (a_bit << 15) | (r5 << 10) | (g5 << 5) | b5
}

/// Unpack a 16-bit ARGB-1555 value into an (r, g, b, a) pixel. Each 5-bit
/// colour field is expanded to 8 bits with round-to-nearest scaling; the
/// alpha bit expands to 255 or 0.
pub fn unpack(argb_1555: u16) -> (rgba: (u8, u8, u8, u8))
    ensures
        rgba == unpack_spec(argb_1555),
{
    let a: u8 = if (argb_1555 >> 15) & 1 == 1 {
        255
    } else {
        0
    };
    let r5: u16 = (argb_1555 >> 10) & 0x1F;
    let g5: u16 = (argb_1555 >> 5) & 0x1F;
    let b5: u16 = argb_1555 & 0x1F;
    proof {
        assert(r5 <= 31 && g5 <= 31 && b5 <= 31) by (bit_vector)
            requires
                r5 == (argb_1555 >> 10) & 0x1F,
                g5 == (argb_1555 >> 5) & 0x1F,
                b5 == argb_1555 & 0x1F,
        ;
        lemma_expand8_exact(r5);
        lemma_expand8_exact(g5);
        lemma_expand8_exact(b5);
    }
    let r: u32 = (r5 as u32 * 255 + 15) / 31;
    let g: u32 = (g5 as u32 * 255 + 15) / 31;
    let b: u32 = (b5 as u32 * 255 + 15) / 31;
    (r as u8, g as u8, b as u8, a)
}

} // verus!
