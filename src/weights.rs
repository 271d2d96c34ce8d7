//! Packing of four 8-bit blend weights into one 32-bit vertex attribute.
//!
//! Lane `k` (layer `k` of the material) occupies bits `8k .. 8k + 8` of the
//! packed value: `packed = w0 | (w1 << 8) | (w2 << 16) | (w3 << 24)`.
use vstd::prelude::*;

verus! {

/// The packed attribute value of the four lanes `w`.
pub open spec fn packed_weights(w: [u8; 4]) -> u32 {
    (w[0] as u32) | ((w[1] as u32) << 8u32) | ((w[2] as u32) << 16u32) | ((w[3] as u32) << 24u32)
}

/// Lane `k` of a packed attribute value: bits `8k .. 8k + 8`.
pub open spec fn weight_lane(packed: u32, k: u32) -> u8 {
    ((packed >> (8 * k)) & 0xffu32) as u8
}

/// Packs four blend weights into one vertex attribute value.
pub fn encode_weights(w: [u8; 4]) -> (r: u32)
    ensures
        r == packed_weights(w),
{
    (w[0] as u32) | ((w[1] as u32) << 8u32) | ((w[2] as u32) << 16u32) | ((w[3] as u32) << 24u32)
}

/// Unpacks a vertex attribute value into its four blend weights.
pub fn decode_weights(packed: u32) -> (r: [u8; 4])
    ensures
        r[0] == weight_lane(packed, 0),
        r[1] == weight_lane(packed, 1),
        r[2] == weight_lane(packed, 2),
        r[3] == weight_lane(packed, 3),
{
    proof {
        lemma_lanes_fit(packed);
    }
    [
        (packed & 0xffu32) as u8,
        ((packed >> 8u32) & 0xffu32) as u8,
        ((packed >> 16u32) & 0xffu32) as u8,
        ((packed >> 24u32) & 0xffu32) as u8,
    ]
}

/// Packs the two-layer blend used for generated meshes: `w` on layer 0 and the
/// complement `255 - w` on layer 2, the other layers empty.
pub fn encode_two_layer_blend(w: u8) -> (r: u32)
    ensures
        r == packed_weights([w, 0, (255 - w) as u8, 0]),
{
    encode_weights([w, 0, 255 - w, 0])
}

proof fn lemma_lanes_of_packed(a: u8, b: u8, c: u8, d: u8)
    by (bit_vector)
    ensures
        (((a as u32) | ((b as u32) << 8u32) | ((c as u32) << 16u32) | ((d as u32) << 24u32)) >> (8
            * 0u32)) & 0xff == a,
        (((a as u32) | ((b as u32) << 8u32) | ((c as u32) << 16u32) | ((d as u32) << 24u32)) >> (8
            * 1u32)) & 0xff == b,
        (((a as u32) | ((b as u32) << 8u32) | ((c as u32) << 16u32) | ((d as u32) << 24u32)) >> (8
            * 2u32)) & 0xff == c,
        (((a as u32) | ((b as u32) << 8u32) | ((c as u32) << 16u32) | ((d as u32) << 24u32)) >> (8
            * 3u32)) & 0xff == d,
{
}

/// Unpacking a packed value gives back every lane that was packed:
/// `decode_weights(encode_weights(w)) == w` for all four-lane weights `w`.
pub proof fn lemma_weights_round_trip(w: [u8; 4])
    ensures
        weight_lane(packed_weights(w), 0) == w[0],
        weight_lane(packed_weights(w), 1) == w[1],
        weight_lane(packed_weights(w), 2) == w[2],
        weight_lane(packed_weights(w), 3) == w[3],
{
    lemma_lanes_of_packed(w[0], w[1], w[2], w[3]);
}

proof fn lemma_lanes_fit(p: u32)
    by (bit_vector)
    ensures
        p & 0xff < 256,
        (p >> 8) & 0xff < 256,
        (p >> 16) & 0xff < 256,
        (p >> 24) & 0xff < 256,
        (p >> (8 * 0u32)) & 0xff == p & 0xff,
        (p >> (8 * 1u32)) & 0xff == (p >> 8) & 0xff,
        (p >> (8 * 2u32)) & 0xff == (p >> 16) & 0xff,
        (p >> (8 * 3u32)) & 0xff == (p >> 24) & 0xff,
{
}

} // verus!
