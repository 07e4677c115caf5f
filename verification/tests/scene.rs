use instanced_renderer::object::Vertex;
use instanced_renderer::state::BoundInstanceBuffer;
use instanced_renderer::state::ClearColor;
use instanced_renderer::state::GraphicsConfig;
use instanced_renderer::state::PresentMode;
use instanced_renderer::state::State;
use instanced_renderer::uniforms::clip_space_correction;
use instanced_renderer::words::Mat3Bits;
use instanced_renderer::words::Mat4Bits;
use instanced_renderer::words::QuatBits;
use instanced_renderer::words::Vec3Bits;

fn test_config() -> GraphicsConfig {
    GraphicsConfig {
        clear_color: ClearColor {
            r: 0.1f64.to_bits(),
            g: 0.2f64.to_bits(),
            b: 0.3f64.to_bits(),
            a: 1.0f64.to_bits(),
        },
        present_mode: PresentMode::Fifo,
    }
}

fn any_block() -> Mat3Bits {
    Mat3Bits {
        c0r0: 0x3F80_0000,
        c0r1: 0,
        c0r2: 0,
        c1r0: 0,
        c1r1: 0x3F80_0000,
        c1r2: 0,
        c2r0: 0,
        c2r1: 0,
        c2r2: 0x3F80_0000,
    }
}

fn unit_quat() -> QuatBits {
    QuatBits { x: 0, y: 0, z: 0, w: 0x3F80_0000 }
}

fn triangle() -> (Vec<Vertex>, Vec<u16>) {
    let v = Vertex {
        position: Vec3Bits { x: 0, y: 0, z: 0 },
        color: Vec3Bits { x: 0x3F80_0000, y: 0, z: 0 },
    };
    (vec![v, v, v], vec![0u16, 1, 2])
}

#[test]
fn initial_state_matches_the_documented_defaults() {
    let s = State::new(test_config(), 640, 480);
    assert_eq!(s.width, 640);
    assert_eq!(s.height, 480);
    assert_eq!(s.camera.aspect_width, 640);
    assert_eq!(s.camera.aspect_height, 480);
    assert_eq!(f32::from_bits(s.camera.eye.x), 0.0);
    assert_eq!(f32::from_bits(s.camera.eye.y), 1.0);
    assert_eq!(f32::from_bits(s.camera.eye.z), 50.0);
    assert_eq!(f32::from_bits(s.camera.fovy), 45.0);
    assert_eq!(f32::from_bits(s.camera.znear), 0.1);
    assert_eq!(f32::from_bits(s.camera.zfar), 100.0);
    assert_eq!(f32::from_bits(s.camera_controller.speed), 0.2);
    assert_eq!(s.bound_instance, BoundInstanceBuffer::Placeholder);
    assert_eq!(s.bound_instance_range, 1);
    assert!(!s.binding_dirty);
    assert_eq!(s.uniforms.view_proj, Mat4Bits {
        c0r0: 0, c0r1: 0, c0r2: 0, c0r3: 0,
        c1r0: 0, c1r1: 0, c1r2: 0, c1r3: 0,
        c2r0: 0, c2r1: 0, c2r2: 0, c2r3: 0,
        c3r0: 0, c3r1: 0, c3r2: 0, c3r3: 0,
    });
}

#[test]
fn object_handles_count_up_from_zero() {
    let mut s = State::new(test_config(), 100, 100);
    let (vs, is) = triangle();
    assert_eq!(s.create_object(vs.clone(), is.clone()), 0);
    assert_eq!(s.create_object(vs, is), 1);
    assert_eq!(s.instance_count(0), Some(0));
    assert_eq!(s.instance_count(1), Some(0));
}

#[test]
fn unknown_handle_is_not_found_and_has_no_side_effect() {
    let mut s = State::new(test_config(), 100, 100);
    let (vs, is) = triangle();
    let id = s.create_object(vs, is);
    s.create_instance(id, Vec3Bits { x: 1, y: 2, z: 3 }, unit_quat(), any_block());
    let counts_before = (s.instance_count(0), s.instance_count(7));
    let bytes_before = s.objects[0].instance_buffer_bytes().clone();
    let dirty_before = s.binding_dirty;

    assert_eq!(s.create_instance(7, Vec3Bits { x: 9, y: 9, z: 9 }, unit_quat(), any_block()), None);

    assert_eq!((s.instance_count(0), s.instance_count(7)), counts_before);
    assert_eq!(s.objects[0].instance_buffer_bytes(), &bytes_before);
    assert_eq!(s.binding_dirty, dirty_before);
}

#[test]
fn resize_is_idempotent_for_the_same_extent() {
    let mut s = State::new(test_config(), 100, 100);
    s.resize(1280, 720);
    let size_once = (s.width, s.height);
    let aspect_once = (s.camera.aspect_width, s.camera.aspect_height);
    s.resize(1280, 720);
    assert_eq!((s.width, s.height), size_once);
    assert_eq!((s.camera.aspect_width, s.camera.aspect_height), aspect_once);
}

#[test]
fn update_returns_the_uniform_staging_bytes() {
    let mut s = State::new(test_config(), 100, 100);
    let eye = Vec3Bits { x: 0x0101_0101, y: 0x0202_0202, z: 0x0303_0303 };
    let matrix = Mat4Bits {
        c0r0: 0x0403_0201, c0r1: 0, c0r2: 0, c0r3: 0,
        c1r0: 0, c1r1: 0x3F80_0000, c1r2: 0, c1r3: 0,
        c2r0: 0, c2r1: 0, c2r2: 0x3F80_0000, c2r3: 0,
        c3r0: 0, c3r1: 0, c3r2: 0, c3r3: 0x3F80_0000,
    };
    let staging = s.update(eye, &matrix);
    assert_eq!(staging.len(), 64);
    assert_eq!(&staging[0..4], &[0x01, 0x02, 0x03, 0x04]);
    assert_eq!(s.camera.eye, eye);
    assert_eq!(s.uniforms.view_proj, matrix);
    assert_eq!(staging, s.uniforms.bytes());
}

#[test]
fn one_draw_per_populated_object_and_none_for_empty_ones() {
    let mut s = State::new(test_config(), 100, 100);
    let (vs, is) = triangle();
    let populated = s.create_object(vs.clone(), is.clone());
    let empty = s.create_object(vs, is);
    for k in 0..3u32 {
        let idx = s.create_instance(
            populated,
            Vec3Bits { x: k, y: k, z: k },
            unit_quat(),
            any_block(),
        );
        assert_eq!(idx, Some(k as usize));
    }
    assert_eq!(s.instance_count(populated), Some(3));
    assert_eq!(s.instance_count(empty), Some(0));

    let plan = s.render();
    assert_eq!(plan.draws.len(), 1, "exactly one instanced draw");
    assert_eq!(plan.draws[0].object, populated);
    assert_eq!(plan.draws[0].instance_count, 3);
    assert_eq!(plan.draws[0].index_count, 3);
    assert_eq!(plan.clear_color, test_config().clear_color);

    let rebuild = plan.rebuild.expect("a regrown buffer owes a bind-group rebuild");
    assert_eq!(rebuild.object, populated);
    assert_eq!(rebuild.uniform_bytes, 64);
    assert_eq!(rebuild.instance_buffer_bytes, 3 * 64);
    assert!(!s.binding_dirty);

    let second = s.render();
    assert!(second.rebuild.is_none(), "nothing changed, nothing to rebuild");
    assert_eq!(second.draws.len(), 1);
    assert_eq!(second.draws[0].instance_count, 3);
}

#[test]
fn draws_come_in_creation_order_and_skip_empty_objects() {
    let mut s = State::new(test_config(), 100, 100);
    let (vs, is) = triangle();
    let first = s.create_object(vs.clone(), is.clone());
    let middle = s.create_object(vs.clone(), is.clone());
    let last = s.create_object(vs, is);
    s.create_instance(last, Vec3Bits { x: 1, y: 0, z: 0 }, unit_quat(), any_block());
    s.create_instance(first, Vec3Bits { x: 2, y: 0, z: 0 }, unit_quat(), any_block());
    s.create_instance(first, Vec3Bits { x: 3, y: 0, z: 0 }, unit_quat(), any_block());
    assert_eq!(s.instance_count(middle), Some(0));

    let plan = s.render();
    let drawn: Vec<(usize, usize)> =
        plan.draws.iter().map(|d| (d.object, d.instance_count)).collect();
    assert_eq!(drawn, vec![(first, 2), (last, 1)]);

    // The rebuild covers the buffer touched by the latest append.
    let rebuild = plan.rebuild.expect("the binding went stale");
    assert_eq!(rebuild.object, first);
    assert_eq!(rebuild.instance_buffer_bytes, 2 * 64);
}

#[test]
fn input_feeds_the_controller_and_reports_consumption() {
    let mut s = State::new(test_config(), 100, 100);
    assert!(s.input(instanced_renderer::camera::KeyCode::D, true));
    assert_eq!(s.camera_controller.x_axis, 1);
    assert!(!s.input(instanced_renderer::camera::KeyCode::Other, true));
    assert_eq!(s.camera_controller.x_axis, 1);
}

#[test]
fn clip_space_correction_is_the_documented_constant() {
    let m = clip_space_correction();
    assert_eq!(f32::from_bits(m.c0r0), 1.0);
    assert_eq!(f32::from_bits(m.c1r1), 1.0);
    assert_eq!(f32::from_bits(m.c2r2), 0.5);
    assert_eq!(f32::from_bits(m.c3r2), 0.5);
    assert_eq!(f32::from_bits(m.c3r3), 1.0);
    let zeros = [
        m.c0r1, m.c0r2, m.c0r3, m.c1r0, m.c1r2, m.c1r3, m.c2r0, m.c2r1, m.c2r3, m.c3r0, m.c3r1,
    ];
    for w in zeros {
        assert_eq!(f32::from_bits(w), 0.0);
    }
    // The same entries cgmath would build the correction matrix from.
    let c: cgmath::Matrix4<f32> = cgmath::Matrix4::new(
        1.0, 0.0, 0.0, 0.0, 0.0, 1.0, 0.0, 0.0, 0.0, 0.0, 0.5, 0.0, 0.0, 0.0, 0.5, 1.0,
    );
    assert_eq!(m.c2r2, c.z.z.to_bits());
    assert_eq!(m.c3r2, c.w.z.to_bits());
    assert_eq!(m.c3r3, c.w.w.to_bits());
}
