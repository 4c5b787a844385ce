use unreal_ffi::codec::{get_word, put_word};
use unreal_ffi::{Color, QuaternionBits, Vector3Bits};

fn vec3(x: f32, y: f32, z: f32) -> Vector3Bits {
    Vector3Bits { x: x.to_bits(), y: y.to_bits(), z: z.to_bits() }
}

#[test]
fn word_bytes_are_little_endian() {
    let mut out = vec![9u8];
    put_word(&mut out, 0x3f80_0000);
    assert_eq!(out, vec![9, 0x00, 0x00, 0x80, 0x3f]);
    assert_eq!(get_word(&out, 1), 0x3f80_0000);
    assert_eq!(get_word(&[1, 2, 3, 4], 0), 0x0403_0201);
}

#[test]
fn vector3_round_trip_is_bit_identical() {
    for v in [
        vec3(1.0, -2.5, 0.0),
        vec3(-0.0, f32::NAN, f32::INFINITY),
        vec3(f32::MIN_POSITIVE, f32::MAX, -f32::MAX),
    ] {
        let b = v.to_bytes();
        assert_eq!(b.len(), 12);
        assert_eq!(Vector3Bits::from_bytes(&b), Some(v));
    }
    let b = vec3(1.0, 0.0, 0.0).to_bytes();
    assert_eq!(b, vec![0, 0, 0x80, 0x3f, 0, 0, 0, 0, 0, 0, 0, 0]);
}

#[test]
fn vector3_bytes_round_trip() {
    let b: Vec<u8> = (0u8..12).collect();
    let v = Vector3Bits::from_bytes(&b).unwrap();
    assert_eq!(v.x, 0x0302_0100);
    assert_eq!(v.to_bytes(), b);
    assert_eq!(Vector3Bits::from_bytes(&b[..11]), None);
}

#[test]
fn quaternion_round_trip_is_bit_identical() {
    let q = QuaternionBits {
        x: 0.0f32.to_bits(),
        y: 0.0f32.to_bits(),
        z: 0.70710677f32.to_bits(),
        w: (-0.70710677f32).to_bits(),
    };
    let b = q.to_bytes();
    assert_eq!(b.len(), 16);
    assert_eq!(&b[12..16], &[0xf3, 0x04, 0x35, 0xbf]);
    assert_eq!(QuaternionBits::from_bytes(&b), Some(q));
    assert_eq!(QuaternionBits::from_bytes(&b[..12]), None);
}

#[test]
fn color_round_trip() {
    let c = Color::red();
    assert_eq!((c.r, c.g, c.b, c.a), (255, 0, 0, 255));
    assert_eq!(c.to_bytes(), vec![255, 0, 0, 255]);
    assert_eq!(Color::from_bytes(&c.to_bytes()), Some(c));
    let d = Color { r: 1, g: 2, b: 3, a: 4 };
    assert_eq!(Color::from_bytes(&[1, 2, 3, 4]), Some(d));
    assert_eq!(Color::from_bytes(&[1, 2, 3]), None);
}
