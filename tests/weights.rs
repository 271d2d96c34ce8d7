use bevy_triplanar_splatting::weights::{decode_weights, encode_two_layer_blend, encode_weights};

#[test]
fn encode_example_matches_formula() {
    let packed = encode_weights([200, 0, 55, 0]);
    assert_eq!(packed, 200 | (55 << 16));
    assert_eq!(packed, 3604680);
}

#[test]
fn decode_example() {
    assert_eq!(decode_weights(3604680), [200, 0, 55, 0]);
}

#[test]
fn lanes_are_little_endian() {
    assert_eq!(encode_weights([1, 2, 3, 4]), 0x0403_0201);
    assert_eq!(decode_weights(0x0403_0201), [1, 2, 3, 4]);
}

#[test]
fn extreme_lanes() {
    assert_eq!(encode_weights([0, 0, 0, 0]), 0);
    assert_eq!(encode_weights([255, 255, 255, 255]), u32::MAX);
    assert_eq!(decode_weights(u32::MAX), [255, 255, 255, 255]);
    assert_eq!(encode_weights([0, 0, 0, 255]), 0xff00_0000);
}

#[test]
fn round_trip_on_samples() {
    let samples: [[u8; 4]; 5] = [
        [0, 0, 0, 0],
        [255, 0, 0, 0],
        [12, 34, 56, 78],
        [255, 128, 1, 254],
        [200, 0, 55, 0],
    ];
    for w in samples {
        assert_eq!(decode_weights(encode_weights(w)), w);
    }
}

#[test]
fn two_layer_blend_puts_complement_on_layer_two() {
    assert_eq!(encode_two_layer_blend(200), encode_weights([200, 0, 55, 0]));
    assert_eq!(decode_weights(encode_two_layer_blend(0)), [0, 0, 255, 0]);
    assert_eq!(decode_weights(encode_two_layer_blend(255)), [255, 0, 0, 0]);
}
