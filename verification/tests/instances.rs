use cgmath::Matrix4;
use cgmath::Quaternion;
use cgmath::Vector3;
use instanced_renderer::instance::Instance;
use instanced_renderer::words::Mat3Bits;
use instanced_renderer::words::QuatBits;
use instanced_renderer::words::Vec3Bits;

fn vec3_bits(v: Vector3<f32>) -> Vec3Bits {
    Vec3Bits { x: v.x.to_bits(), y: v.y.to_bits(), z: v.z.to_bits() }
}

fn quat_bits(q: Quaternion<f32>) -> QuatBits {
    QuatBits { x: q.v.x.to_bits(), y: q.v.y.to_bits(), z: q.v.z.to_bits(), w: q.s.to_bits() }
}

fn rotation_block_bits(m: &Matrix4<f32>) -> Mat3Bits {
    Mat3Bits {
        c0r0: m.x.x.to_bits(),
        c0r1: m.x.y.to_bits(),
        c0r2: m.x.z.to_bits(),
        c1r0: m.y.x.to_bits(),
        c1r1: m.y.y.to_bits(),
        c1r2: m.y.z.to_bits(),
        c2r0: m.z.x.to_bits(),
        c2r1: m.z.y.to_bits(),
        c2r2: m.z.z.to_bits(),
    }
}

#[test]
fn translation_column_round_trips_exactly() {
    let position = Vec3Bits { x: 0x3FC0_0000, y: 0xC119_999A, z: 0x4120_0000 };
    let rotation = QuatBits { x: 0x3E80_0000, y: 0x3F00_0000, z: 0x0000_0000, w: 0x3F5D_B3D7 };
    let block = Mat3Bits {
        c0r0: 1,
        c0r1: 2,
        c0r2: 3,
        c1r0: 4,
        c1r1: 5,
        c1r2: 6,
        c2r0: 7,
        c2r1: 8,
        c2r2: 9,
    };
    let inst = Instance { position, rotation };
    let raw = inst.to_raw(&block);
    assert_eq!(raw.translation(), position, "translation survives bit for bit");
}

#[test]
fn raw_bytes_are_64_and_carry_the_translation_column() {
    let position = Vec3Bits { x: 0x1122_3344, y: 0x5566_7788, z: 0x99AA_BBCC };
    let rotation = QuatBits { x: 0, y: 0, z: 0, w: 0x3F80_0000 };
    let block = Mat3Bits {
        c0r0: 0x3F80_0000,
        c0r1: 0,
        c0r2: 0,
        c1r0: 0,
        c1r1: 0x3F80_0000,
        c1r2: 0,
        c2r0: 0,
        c2r1: 0,
        c2r2: 0x3F80_0000,
    };
    let raw = Instance { position, rotation }.to_raw(&block);
    let bytes = raw.bytes();
    assert_eq!(bytes.len(), 64);
    // Fourth column starts at byte 48: position words little-endian, then 1.0.
    assert_eq!(&bytes[48..52], &[0x44, 0x33, 0x22, 0x11]);
    assert_eq!(&bytes[52..56], &[0x88, 0x77, 0x66, 0x55]);
    assert_eq!(&bytes[56..60], &[0xCC, 0xBB, 0xAA, 0x99]);
    assert_eq!(&bytes[60..64], &[0x00, 0x00, 0x80, 0x3F]);
    // First column: rotation block column 0 then the 0.0 word.
    assert_eq!(&bytes[0..4], &[0x00, 0x00, 0x80, 0x3F]);
    assert_eq!(&bytes[12..16], &[0x00, 0x00, 0x00, 0x00]);
}

#[test]
fn raw_model_matches_the_float_product_translation_times_rotation() {
    let p = Vector3::new(1.5f32, -9.6, 10.0);
    // A unit quaternion: rotation about the y axis by 45 degrees.
    let q = Quaternion::new(0.923_879_5f32, 0.0, 0.382_683_43, 0.0);
    let rotation: Matrix4<f32> = Matrix4::from(q);
    let expected = Matrix4::from_translation(p) * rotation;

    let inst = Instance { position: vec3_bits(p), rotation: quat_bits(q) };
    let raw = inst.to_raw(&rotation_block_bits(&rotation));

    let got = [
        raw.model.c0r0, raw.model.c0r1, raw.model.c0r2, raw.model.c0r3,
        raw.model.c1r0, raw.model.c1r1, raw.model.c1r2, raw.model.c1r3,
        raw.model.c2r0, raw.model.c2r1, raw.model.c2r2, raw.model.c2r3,
        raw.model.c3r0, raw.model.c3r1, raw.model.c3r2, raw.model.c3r3,
    ];
    let want = [
        expected.x.x, expected.x.y, expected.x.z, expected.x.w,
        expected.y.x, expected.y.y, expected.y.z, expected.y.w,
        expected.z.x, expected.z.y, expected.z.z, expected.z.w,
        expected.w.x, expected.w.y, expected.w.z, expected.w.w,
    ];
    for (i, (g, w)) in got.iter().zip(want.iter()).enumerate() {
        assert_eq!(f32::from_bits(*g), *w, "model word {} disagrees with the float product", i);
    }
}
