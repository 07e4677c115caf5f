use instanced_renderer::object::Object;
use instanced_renderer::object::Vertex;
use instanced_renderer::words::Mat3Bits;
use instanced_renderer::words::QuatBits;
use instanced_renderer::words::Vec3Bits;

fn any_block() -> Mat3Bits {
    Mat3Bits {
        c0r0: 0x3F80_0000,
        c0r1: 0,
        c0r2: 0,
        c1r0: 0,
        c1r1: 0x3F80_0000,
        c1r2: 0,
        c2r0: 0,
        c2r1: 0,
        c2r2: 0x3F80_0000,
    }
}

fn any_position(i: u32) -> Vec3Bits {
    Vec3Bits { x: i, y: i.wrapping_mul(7), z: i.wrapping_mul(13) }
}

fn any_rotation() -> QuatBits {
    QuatBits { x: 0, y: 0, z: 0, w: 0x3F80_0000 }
}

#[test]
fn instance_count_and_buffer_size_track_every_append() {
    let mut o = Object::new(Vec::new(), Vec::new());
    assert_eq!(o.num_instances(), 0);
    assert_eq!(o.instance_buffer_size(), 0);
    for n in 0..4usize {
        let idx = o.add_instance(any_position(n as u32), any_rotation(), any_block());
        assert_eq!(idx, n, "appends hand out consecutive zero-based indices");
        assert_eq!(o.num_instances(), n + 1);
        assert_eq!(o.instance_buffer_size(), (n + 1) * 64);
        assert_eq!(o.instance_buffer_bytes().len(), (n + 1) * 64);
    }
}

#[test]
fn vertex_bytes_have_the_declared_layout() {
    let v = Vertex {
        position: Vec3Bits { x: 0x0403_0201, y: 0x0807_0605, z: 0x0C0B_0A09 },
        color: Vec3Bits { x: 0x1013_1211, y: 0x1417_1615, z: 0x181B_1A19 },
    };
    let o = Object::new(vec![v], Vec::new());
    let bytes = o.vertex_bytes();
    assert_eq!(
        bytes,
        vec![
            0x01, 0x02, 0x03, 0x04, 0x05, 0x06, 0x07, 0x08, 0x09, 0x0A, 0x0B, 0x0C, 0x11, 0x12,
            0x13, 0x10, 0x15, 0x16, 0x17, 0x14, 0x19, 0x1A, 0x1B, 0x18,
        ],
        "position words then color words, little-endian"
    );
}

#[test]
fn index_bytes_are_little_endian_u16() {
    let o = Object::new(Vec::new(), vec![0u16, 1, 2, 0x1234]);
    assert_eq!(o.num_indices(), 4);
    assert_eq!(o.index_bytes(), vec![0, 0, 1, 0, 2, 0, 0x34, 0x12]);
}

#[test]
fn geometry_is_untouched_by_appends() {
    let v = Vertex {
        position: Vec3Bits { x: 1, y: 2, z: 3 },
        color: Vec3Bits { x: 4, y: 5, z: 6 },
    };
    let mut o = Object::new(vec![v], vec![0u16, 1, 2]);
    let vertex_bytes = o.vertex_bytes();
    let index_bytes = o.index_bytes();
    o.add_instance(any_position(1), any_rotation(), any_block());
    assert_eq!(o.vertex_bytes(), vertex_bytes);
    assert_eq!(o.index_bytes(), index_bytes);
}
