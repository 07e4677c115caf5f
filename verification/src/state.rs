//! The render-pipeline manager: the bookkeeping state machine behind the
//! per-frame input / update / render cycle and the out-of-band object and
//! instance mutations.
//!
//! The manager owns the scene's value state — camera, controller, uniform
//! block, object list — plus the binding bookkeeping: which instance buffer
//! the single bind group references, the byte range it was built over, and
//! whether that binding went stale because an instance buffer was regrown.
//! Appending an instance marks the binding dirty; the next `render` emits a
//! rebuild step sized byte-for-byte to the current buffer contents, so the
//! manager is always externally observed in a renderable state.  The actual
//! GPU objects (device, queue, surface, pipeline, buffers, bind group) live
//! in the host shell, which executes the plans this module returns.

use vstd::prelude::*;

use crate::camera::Camera;
use crate::camera::CameraController;
use crate::camera::consumed_spec;
use crate::camera::KeyCode;
use crate::camera::SpeedMultiplier;
use crate::camera::step_spec;
use crate::instance::Instance;
use crate::object::Object;
use crate::uniforms::UNIFORM_BLOCK_BYTES;
use crate::uniforms::Uniforms;
use crate::words::F32_ONE_BITS;
use crate::words::F32_ZERO_BITS;
use crate::words::Mat3Bits;
use crate::words::Mat4Bits;
use crate::words::QuatBits;
use crate::words::Vec3Bits;
use crate::object::Vertex;

verus! {

/// Bit pattern of `50.0f32`: the camera's starting distance along z.
pub const CAMERA_START_Z_BITS: u32 = 0x4248_0000;

/// Bit pattern of `45.0f32`: the camera's vertical field of view in
/// degrees.
pub const CAMERA_FOVY_BITS: u32 = 0x4234_0000;

/// Bit pattern of `0.1f32`: the camera's near plane.
pub const CAMERA_ZNEAR_BITS: u32 = 0x3DCC_CCCD;

/// Bit pattern of `100.0f32`: the camera's far plane.
pub const CAMERA_ZFAR_BITS: u32 = 0x42C8_0000;

/// Bit pattern of `0.2f32`: the controller's base step length.
pub const CAMERA_SPEED_BITS: u32 = 0x3E4C_CCCD;

/// Byte range the initial bind group covers over the placeholder instance
/// buffer created before any object exists.
pub const PLACEHOLDER_BINDING_BYTES: usize = 1;

/// Clear color for the render pass, as `f64` bit patterns (RGBA).
#[derive(Clone, Copy, Debug, PartialEq, Eq, Structural)]
pub struct ClearColor {
    pub r: u64,
    pub g: u64,
    pub b: u64,
    pub a: u64,
}

/// The frame-pacing strategy the presentation surface is configured with.
#[derive(Clone, Copy, Debug, PartialEq, Eq, Structural)]
pub enum PresentMode {
    Immediate,
    Mailbox,
    Fifo,
}

/// Presentation options supplied at initialization.
#[derive(Clone, Copy, Debug, PartialEq, Eq, Structural)]
pub struct GraphicsConfig {
    pub clear_color: ClearColor,
    pub present_mode: PresentMode,
}

/// Which instance buffer the bind group's storage binding references.
#[derive(Clone, Copy, Debug, PartialEq, Eq, Structural)]
pub enum BoundInstanceBuffer {
    /// The placeholder buffer bound before any instance was added.
    Placeholder,
    /// The instance buffer of the object with this handle.
    ObjectBuffer(usize),
}

/// One instanced, indexed draw: issued for `object`, covering its whole
/// index data, for every one of its instances.
#[derive(Clone, Copy, Debug, PartialEq, Eq, Structural)]
pub struct DrawCall {
    pub object: usize,
    pub index_count: usize,
    pub instance_count: usize,
}

/// A bind-group rebuild step: the uniform binding must cover exactly
/// `uniform_bytes`, and the storage binding must cover exactly
/// `instance_buffer_bytes` of `object`'s current instance buffer.
#[derive(Clone, Copy, Debug, PartialEq, Eq, Structural)]
pub struct BindingPlan {
    pub uniform_bytes: usize,
    pub object: usize,
    pub instance_buffer_bytes: usize,
}

/// Everything one frame's render pass must do, in order: rebuild the bind
/// group if requested, clear to `clear_color`, then issue the draws.
#[derive(Debug)]
pub struct FramePlan {
    pub rebuild: Option<BindingPlan>,
    pub clear_color: ClearColor,
    pub draws: Vec<DrawCall>,
}

/// The camera the manager starts with: eye at `(0, 1, 50)`, up along y,
/// aspect resynced to the surface size, and the fixed lens parameters.
pub open spec fn initial_camera(width: u32, height: u32) -> Camera {
    Camera {
        eye: Vec3Bits { x: F32_ZERO_BITS, y: F32_ONE_BITS, z: CAMERA_START_Z_BITS },
        up: Vec3Bits { x: F32_ZERO_BITS, y: F32_ONE_BITS, z: F32_ZERO_BITS },
        aspect_width: width,
        aspect_height: height,
        fovy: CAMERA_FOVY_BITS,
        znear: CAMERA_ZNEAR_BITS,
        zfar: CAMERA_ZFAR_BITS,
    }
}

/// The draw list derived from the object list: one call per object with at
/// least one instance, in creation order; objects without instances are
/// skipped.
pub open spec fn draw_calls_spec(objects: Seq<Object>) -> Seq<DrawCall>
    decreases objects.len(),
{
    if objects.len() == 0 {
        Seq::empty()
    } else {
        let prefix = draw_calls_spec(objects.drop_last());
        let last = objects.last();
        if last.instances@.len() > 0 {
            prefix.push(
                DrawCall {
                    object: (objects.len() - 1) as usize,
                    index_count: last.indices@.len() as usize,
                    instance_count: last.instances@.len() as usize,
                },
            )
        } else {
            prefix
        }
    }
}

/// Every draw in the derived list addresses an existing object, covers its
/// whole index data, and carries its exact, non-zero instance count: an
/// instanced draw with instance count 0 is never issued.
pub proof fn lemma_draw_calls_faithful(objects: Seq<Object>)
    requires
        objects.len() <= usize::MAX,
    ensures
        forall|k: int|
            0 <= k < draw_calls_spec(objects).len() ==> {
                let d = #[trigger] draw_calls_spec(objects)[k];
                &&& d.object < objects.len()
                &&& d.instance_count == objects[d.object as int].instances@.len() as usize
                &&& objects[d.object as int].instances@.len() > 0
                &&& d.index_count == objects[d.object as int].indices@.len() as usize
            },
    decreases objects.len(),
{
    if objects.len() > 0 {
        lemma_draw_calls_faithful(objects.drop_last());
        assert forall|k: int| 0 <= k < draw_calls_spec(objects).len() implies {
            let d = #[trigger] draw_calls_spec(objects)[k];
            &&& d.object < objects.len()
            &&& d.instance_count == objects[d.object as int].instances@.len() as usize
            &&& objects[d.object as int].instances@.len() > 0
            &&& d.index_count == objects[d.object as int].indices@.len() as usize
        } by {
            let prefix = draw_calls_spec(objects.drop_last());
            if k < prefix.len() {
                assert(draw_calls_spec(objects)[k] == prefix[k]);
                assert(objects.drop_last()[prefix[k].object as int] == objects[prefix[k].object as int]);
            }
        }
    }
}

/// Draws come out in creation order: the drawn object handles are strictly
/// increasing along the list, so no object is drawn twice.
pub proof fn lemma_draw_calls_ordered(objects: Seq<Object>)
    requires
        objects.len() <= usize::MAX,
    ensures
        forall|k1: int, k2: int|
            0 <= k1 < k2 < draw_calls_spec(objects).len() ==> #[trigger] draw_calls_spec(
                objects,
            )[k1].object < #[trigger] draw_calls_spec(objects)[k2].object,
    decreases objects.len(),
{
    if objects.len() > 0 {
        lemma_draw_calls_ordered(objects.drop_last());
        lemma_draw_calls_faithful(objects.drop_last());
        let prefix = draw_calls_spec(objects.drop_last());
        assert forall|k1: int, k2: int|
            0 <= k1 < k2 < draw_calls_spec(objects).len() implies #[trigger] draw_calls_spec(
            objects,
        )[k1].object < #[trigger] draw_calls_spec(objects)[k2].object by {
            assert(draw_calls_spec(objects)[k1] == prefix[k1]);
            if k2 < prefix.len() {
                assert(draw_calls_spec(objects)[k2] == prefix[k2]);
            } else {
                assert(draw_calls_spec(objects)[k2].object == objects.len() - 1);
                assert(prefix[k1].object < objects.drop_last().len());
            }
        }
    }
}

/// Every object with at least one instance receives a draw call.
pub proof fn lemma_draw_calls_complete(objects: Seq<Object>)
    requires
        objects.len() <= usize::MAX,
    ensures
        forall|j: int|
            0 <= j < objects.len() && objects[j].instances@.len() > 0 ==> exists|k: int|
                0 <= k < draw_calls_spec(objects).len() && (#[trigger] draw_calls_spec(
                    objects,
                )[k]).object == j,
    decreases objects.len(),
{
    if objects.len() > 0 {
        lemma_draw_calls_complete(objects.drop_last());
        let prefix = draw_calls_spec(objects.drop_last());
        assert forall|j: int|
            0 <= j < objects.len() && objects[j].instances@.len() > 0 implies exists|k: int|
            0 <= k < draw_calls_spec(objects).len() && (#[trigger] draw_calls_spec(
                objects,
            )[k]).object == j by {
            if j == objects.len() - 1 {
                assert(draw_calls_spec(objects)[prefix.len() as int].object == j);
            } else {
                assert(objects.drop_last()[j] == objects[j]);
                let k = choose|k: int|
                    0 <= k < prefix.len() && (#[trigger] prefix[k]).object == j;
                assert(draw_calls_spec(objects)[k].object == j);
            }
        }
    }
}

/// The state after a window resize: the stored size and the camera's
/// aspect pair both take the new extent; everything else is untouched.
pub open spec fn resize_spec(s: State, width: u32, height: u32) -> State {
    State {
        width,
        height,
        camera: Camera { aspect_width: width, aspect_height: height, ..s.camera },
        ..s
    }
}

/// The bind-group rebuild the next frame owes: sized to the bound object's
/// current instance buffer when the binding is dirty, nothing otherwise.
pub open spec fn rebuild_plan_spec(s: State) -> Option<BindingPlan> {
    if s.binding_dirty {
        match s.bound_instance {
            BoundInstanceBuffer::ObjectBuffer(id) => Some(
                BindingPlan {
                    uniform_bytes: UNIFORM_BLOCK_BYTES,
                    object: id,
                    instance_buffer_bytes: s.objects@[id as int].raw_bytes@.len() as usize,
                },
            ),
            BoundInstanceBuffer::Placeholder => None,
        }
    } else {
        None
    }
}

/// The render-pipeline manager's value state.
#[derive(Debug)]
pub struct State {
    pub config: GraphicsConfig,
    pub camera: Camera,
    pub camera_controller: CameraController,
    pub uniforms: Uniforms,
    pub width: u32,
    pub height: u32,
    pub objects: Vec<Object>,
    pub bound_instance: BoundInstanceBuffer,
    pub bound_instance_range: usize,
    pub binding_dirty: bool,
}

impl State {
    /// Consistency of the manager: every object is internally consistent,
    /// the camera's aspect pair equals the surface size, and the binding
    /// bookkeeping is sound — a clean binding covers its buffer's byte size
    /// exactly, a dirty one can only reference an existing object.
    pub open spec fn wf(self) -> bool {
        &&& forall|i: int| 0 <= i < self.objects@.len() ==> (#[trigger] self.objects@[i]).wf()
        &&& self.camera.aspect_width == self.width
        &&& self.camera.aspect_height == self.height
        &&& match self.bound_instance {
            BoundInstanceBuffer::Placeholder => !self.binding_dirty && self.bound_instance_range
                == PLACEHOLDER_BINDING_BYTES,
            BoundInstanceBuffer::ObjectBuffer(i) => i < self.objects@.len() && (!self.binding_dirty
                ==> self.bound_instance_range == self.objects@[i as int].raw_bytes@.len()),
        }
    }

    /// The manager ready to render an empty scene: default camera resynced
    /// to the surface size, controller at rest, zeroed uniform block, no
    /// objects, and the bind group covering the placeholder buffer.  The
    /// host shell performs the GPU-side initialization around this value
    /// and fails fatally there if no adapter or device can be had.
    pub fn new(config: GraphicsConfig, width: u32, height: u32) -> (s: State)
        ensures
            s.wf(),
            s.config == config,
            s.camera == initial_camera(width, height),
            s.camera_controller == (CameraController {
                speed: CAMERA_SPEED_BITS,
                x_axis: 0,
                y_axis: 0,
                z_axis: 0,
                speed_multiplier: SpeedMultiplier::Normal,
            }),
            s.uniforms.view_proj == Mat4Bits::zero_spec(),
            s.width == width,
            s.height == height,
            s.objects@.len() == 0,
            s.bound_instance == BoundInstanceBuffer::Placeholder,
            s.bound_instance_range == PLACEHOLDER_BINDING_BYTES,
            s.binding_dirty == false,
    {
        State {
            config,
            camera: Camera {
                eye: Vec3Bits { x: F32_ZERO_BITS, y: F32_ONE_BITS, z: CAMERA_START_Z_BITS },
                up: Vec3Bits { x: F32_ZERO_BITS, y: F32_ONE_BITS, z: F32_ZERO_BITS },
                aspect_width: width,
                aspect_height: height,
                fovy: CAMERA_FOVY_BITS,
                znear: CAMERA_ZNEAR_BITS,
                zfar: CAMERA_ZFAR_BITS,
            },
            camera_controller: CameraController::new(CAMERA_SPEED_BITS),
            uniforms: Uniforms::new(),
            width,
            height,
            objects: Vec::new(),
            bound_instance: BoundInstanceBuffer::Placeholder,
            bound_instance_range: PLACEHOLDER_BINDING_BYTES,
            binding_dirty: false,
        }
    }

    /// Creates an object from its immutable geometry and returns its
    /// handle: the object's position in the creation order.  Handles are
    /// stable; objects are never removed or reordered.
    pub fn create_object(&mut self, vertices: Vec<Vertex>, indices: Vec<u16>) -> (id: usize)
        requires
            old(self).wf(),
        ensures
            final(self).wf(),
            id == old(self).objects@.len(),
            *final(self) == (State { objects: final(self).objects, ..*old(self) }),
            final(self).objects@.len() == old(self).objects@.len() + 1,
            forall|i: int|
                0 <= i < old(self).objects@.len() ==> final(self).objects@[i] == old(
                    self,
                ).objects@[i],
            final(self).objects@[id as int].wf(),
            final(self).objects@[id as int].vertices == vertices,
            final(self).objects@[id as int].indices == indices,
            final(self).objects@[id as int].instances@.len() == 0,
            final(self).objects@[id as int].raw_bytes@.len() == 0,
    {
        let id = self.objects.len();
        let object = Object::new(vertices, indices);
        self.objects.push(object);
        id
    }

    /// Appends an instance transform to the object with handle `object_id`
    /// and returns the new instance's zero-based index within that object,
    /// or `None` — with no side effect on any state — if the handle is
    /// unknown.  A successful append points the binding bookkeeping at the
    /// regrown buffer and marks it dirty; the next `render` rebuilds the
    /// bind group before drawing.  `rotation_matrix` is the 3x3 matrix of
    /// `rotation`, computed by the host's math collaborator.
    pub fn create_instance(
        &mut self,
        object_id: usize,
        position: Vec3Bits,
        rotation: QuatBits,
        rotation_matrix: Mat3Bits,
    ) -> (r: Option<usize>)
        requires
            old(self).wf(),
        ensures
            final(self).wf(),
            object_id >= old(self).objects@.len() ==> r == (Option::<usize>::None) && *final(self)
                == *old(self),
            object_id < old(self).objects@.len() ==> r == Some(
                old(self).objects@[object_id as int].instances@.len() as usize,
            ),
            object_id < old(self).objects@.len() ==> *final(self) == (State {
                objects: final(self).objects,
                bound_instance: BoundInstanceBuffer::ObjectBuffer(object_id),
                binding_dirty: true,
                ..*old(self)
            }),
            object_id < old(self).objects@.len() ==> final(self).objects@
                == old(self).objects@.update(object_id as int, final(self).objects@[object_id as int]),
            object_id < old(self).objects@.len() ==> final(self).objects@[object_id as int] == ({
                let o = old(self).objects@[object_id as int];
                Object {
                    instances: final(self).objects@[object_id as int].instances,
                    raws: final(self).objects@[object_id as int].raws,
                    raw_bytes: final(self).objects@[object_id as int].raw_bytes,
                    ..o
                }
            }),
            object_id < old(self).objects@.len() ==> final(self).objects@[object_id as int].instances@
                == old(self).objects@[object_id as int].instances@.push((Instance { position, rotation })),
            object_id < old(self).objects@.len() ==> final(self).objects@[object_id as int].raw_bytes@
                == old(self).objects@[object_id as int].raw_bytes@
                + (Instance { position, rotation }).raw_spec(rotation_matrix).bytes_spec(),
    {
        if object_id < self.objects.len() {
            let obj = &mut self.objects[object_id];
            let idx = obj.add_instance(position, rotation, rotation_matrix);
            self.bound_instance = BoundInstanceBuffer::ObjectBuffer(object_id);
            self.binding_dirty = true;
            proof {
                assert(final(self).objects@ =~= old(self).objects@.update(
                    object_id as int,
                    final(self).objects@[object_id as int],
                ));
            }
            Some(idx)
        } else {
            None
        }
    }

    /// The number of instances of the object with handle `object_id`, or
    /// `None` for an unknown handle.
    pub fn instance_count(&self, object_id: usize) -> (r: Option<usize>)
        ensures
            object_id < self.objects@.len() ==> r == Some(
                self.objects@[object_id as int].instances@.len() as usize,
            ),
            object_id >= self.objects@.len() ==> r == (Option::<usize>::None),
    {
        if object_id < self.objects.len() {
            Some(self.objects[object_id].num_instances())
        } else {
            None
        }
    }

    /// Applies one raw key event to the camera controller and reports
    /// whether it was consumed.
    pub fn input(&mut self, key: KeyCode, pressed: bool) -> (consumed: bool)
        requires
            old(self).wf(),
        ensures
            final(self).wf(),
            *final(self) == (State {
                camera_controller: step_spec(old(self).camera_controller, key, pressed),
                ..*old(self)
            }),
            consumed == consumed_spec(key),
    {
        self.camera_controller.process_events(key, pressed)
    }

    /// Takes the new extent for the presentation surface and resyncs the
    /// camera's aspect pair to it; the host shell reconfigures the surface
    /// to the same extent.  Repeating the call with the same size changes
    /// nothing further.
    pub fn resize(&mut self, width: u32, height: u32)
        requires
            old(self).wf(),
        ensures
            final(self).wf(),
            *final(self) == resize_spec(*old(self), width, height),
    {
        self.width = width;
        self.height = height;
        self.camera.aspect_width = width;
        self.camera.aspect_height = height;
    }

    /// Stores the advanced eye position and the freshly composed
    /// view-projection matrix (both computed by the host's math
    /// collaborator from the controller's velocity and the camera), and
    /// returns the uniform block's byte image for the staging copy.  The
    /// staging bytes are exactly `UNIFORM_BLOCK_BYTES` long — the size the
    /// bound uniform range covers — and the copy goes through a one-shot
    /// staging buffer, never directly into the live uniform buffer.
    pub fn update(&mut self, new_eye: Vec3Bits, view_proj: &Mat4Bits) -> (staging: Vec<u8>)
        requires
            old(self).wf(),
        ensures
            final(self).wf(),
            *final(self) == (State {
                camera: (Camera { eye: new_eye, ..old(self).camera }),
                uniforms: (Uniforms { view_proj: *view_proj }),
                ..*old(self)
            }),
            staging@ == view_proj.bytes_spec(),
            staging@.len() == UNIFORM_BLOCK_BYTES,
    {
        self.camera.eye = new_eye;
        self.uniforms.update_view_proj(view_proj);
        self.uniforms.bytes()
    }

    /// Produces the frame plan: the bind-group rebuild owed if an instance
    /// buffer was regrown since the last frame, the clear color, and one
    /// instanced indexed draw per object with at least one instance, in
    /// creation order.  Acquiring the presentable frame — and skipping the
    /// frame on a lost or timed-out surface — is the host shell's side of
    /// the call.
    pub fn render(&mut self) -> (plan: FramePlan)
        requires
            old(self).wf(),
        ensures
            final(self).wf(),
            *final(self) == (State {
                bound_instance_range: final(self).bound_instance_range,
                binding_dirty: false,
                ..*old(self)
            }),
            plan.rebuild == rebuild_plan_spec(*old(self)),
            !old(self).binding_dirty ==> *final(self) == *old(self),
            plan.clear_color == old(self).config.clear_color,
            plan.draws@ == draw_calls_spec(old(self).objects@),
    {
        let rebuild: Option<BindingPlan> = if self.binding_dirty {
            match self.bound_instance {
                BoundInstanceBuffer::ObjectBuffer(id) => {
                    let size = self.objects[id].instance_buffer_size();
                    self.bound_instance_range = size;
                    self.binding_dirty = false;
                    Some(
                        BindingPlan {
                            uniform_bytes: UNIFORM_BLOCK_BYTES,
                            object: id,
                            instance_buffer_bytes: size,
                        },
                    )
                },
                BoundInstanceBuffer::Placeholder => {
                    proof {
                        assert(false);
                    }
                    None
                },
            }
        } else {
            None
        };
        let mut draws: Vec<DrawCall> = Vec::new();
        let mut i: usize = 0;
        while i < self.objects.len()
            invariant
                i <= self.objects@.len(),
                draws@ == draw_calls_spec(self.objects@.take(i as int)),
            decreases self.objects@.len() - i,
        {
            let n = self.objects[i].num_instances();
            if n > 0 {
                let k = self.objects[i].num_indices();
                draws.push(DrawCall { object: i, index_count: k, instance_count: n });
            }
            proof {
                assert(self.objects@.take(i as int + 1).drop_last() =~= self.objects@.take(
                    i as int,
                ));
                assert(draws@ =~= draw_calls_spec(self.objects@.take(i as int + 1)));
            }
            i = i + 1;
        }
        proof {
            assert(self.objects@.take(self.objects@.len() as int) =~= self.objects@);
        }
        FramePlan { rebuild, clear_color: self.config.clear_color, draws }
    }
}

/// In every consistent manager state, every object's instance-buffer byte
/// size equals its instance count times the raw instance stride.
pub proof fn lemma_instance_buffers_sized_to_counts(s: State)
    requires
        s.wf(),
    ensures
        forall|i: int|
            0 <= i < s.objects@.len() ==> (#[trigger] s.objects@[i]).raw_bytes@.len()
                == crate::instance::RAW_INSTANCE_BYTES * s.objects@[i].instances@.len(),
{
    assert forall|i: int| 0 <= i < s.objects@.len() implies (#[trigger] s.objects@[i]).raw_bytes@.len()
        == crate::instance::RAW_INSTANCE_BYTES * s.objects@[i].instances@.len() by {
        crate::object::lemma_raws_bytes_len(s.objects@[i].raws@);
    }
}

/// Once the binding is clean, the bind group's ranges agree with the
/// buffers byte for byte: the uniform range is exactly the uniform block's
/// size, and the storage range is exactly the bound instance buffer's
/// contents (or the placeholder's fixed range before any instance exists).
pub proof fn lemma_clean_binding_covers_buffers(s: State)
    requires
        s.wf(),
        !s.binding_dirty,
    ensures
        (match s.bound_instance {
            BoundInstanceBuffer::Placeholder => s.bound_instance_range
                == PLACEHOLDER_BINDING_BYTES,
            BoundInstanceBuffer::ObjectBuffer(id) => s.bound_instance_range
                == s.objects@[id as int].raw_bytes@.len(),
        }),
{
}

/// Resizing twice with the same extent is the same as resizing once: the
/// reported surface size and the camera's aspect pair are unchanged by the
/// repeated call.
pub proof fn lemma_resize_idempotent(s: State, width: u32, height: u32)
    ensures
        resize_spec(resize_spec(s, width, height), width, height) == resize_spec(s, width, height),
{
}

} // verus!
