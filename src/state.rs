use vstd::prelude::*;

use crate::size::{PhysicalSize, ScalePolicy};

verus! {

/// Why the next presentable texture could not be acquired.
#[derive(Clone, Copy, Debug, PartialEq, Eq, Structural)]
pub enum SurfaceError {
    Timeout,
    Outdated,
    Lost,
    OutOfMemory,
}

/// The one draw call of a frame: vertices `first_vertex ..
/// first_vertex + vertex_count`, instances likewise. Vertex positions come
/// from the vertex index inside the shader, so no buffers are bound.
#[derive(Clone, Copy, Debug, PartialEq, Eq, Structural)]
pub struct DrawCall {
    pub first_vertex: u32,
    pub vertex_count: u32,
    pub first_instance: u32,
    pub instance_count: u32,
}

/// The fixed triangle: three vertices, one instance.
pub open spec fn triangle() -> DrawCall {
    DrawCall { first_vertex: 0, vertex_count: 3, first_instance: 0, instance_count: 1 }
}

/// What a `State` holds: the last positive window size, the size of the
/// surface configuration derived from it, and the sizing policy.
pub struct SurfaceModel {
    pub size: PhysicalSize,
    pub config: PhysicalSize,
    pub policy: ScalePolicy,
}

impl SurfaceModel {
    /// The configuration follows the window size through the policy
    /// whenever that gives a positive extent; otherwise it keeps the last one.
    pub open spec fn wf(self) -> bool {
        &&& self.policy.valid()
        &&& self.policy.extent_of(self.size).positive() ==> self.config == self.policy.extent_of(
            self.size,
        )
    }

    /// The surface holds a configuration it can present with.
    pub open spec fn configured(self) -> bool {
        self.size.positive() && self.config.positive()
    }
}

/// A resize to `new_size` updates the configuration: the size and the
/// surface extent it maps to are both positive.
pub open spec fn resize_applies(policy: ScalePolicy, new_size: PhysicalSize) -> bool {
    new_size.positive() && policy.extent_of(new_size).positive()
}

/// The model after `resize(new_size)`. A positive size is always recorded;
/// the configuration follows it only where its extent is positive, and
/// otherwise keeps its last value. A size with a zero dimension changes
/// nothing.
pub open spec fn resized(m: SurfaceModel, new_size: PhysicalSize) -> SurfaceModel {
    if !new_size.positive() {
        m
    } else if resize_applies(m.policy, new_size) {
        SurfaceModel { size: new_size, config: m.policy.extent_of(new_size), policy: m.policy }
    } else {
        SurfaceModel { size: new_size, ..m }
    }
}

/// The model after a sequence of resizes, applied in order.
pub open spec fn resized_all(m: SurfaceModel, sizes: Seq<PhysicalSize>) -> SurfaceModel
    decreases sizes.len(),
{
    if sizes.len() == 0 {
        m
    } else {
        resized(resized_all(m, sizes.drop_last()), sizes.last())
    }
}

/// Sizing and presentation state of the graphics context.
pub struct State {
    size: PhysicalSize,
    config: PhysicalSize,
    policy: ScalePolicy,
}

impl View for State {
    type V = SurfaceModel;

    closed spec fn view(&self) -> SurfaceModel {
        SurfaceModel { size: self.size, config: self.config, policy: self.policy }
    }
}

impl State {
    pub open spec fn wf(&self) -> bool {
        self@.wf()
    }

    /// A state for a window of physical size `size`; the configuration is
    /// derived from it through `policy`.
    pub fn new(size: PhysicalSize, policy: ScalePolicy) -> (r: State)
        requires
            policy.valid(),
        ensures
            r.wf(),
            r@.size == size,
            r@.config == policy.extent_of(size),
            r@.policy == policy,
    {
        let config = policy.extent(size);
        State { size, config, policy }
    }

    /// The last window size that was applied.
    pub fn size(&self) -> (r: PhysicalSize)
        ensures
            r == self@.size,
    {
        self.size
    }

    /// The width and height of the surface configuration.
    pub fn config_size(&self) -> (r: PhysicalSize)
        ensures
            r == self@.config,
    {
        self.config
    }

    /// The policy that maps window sizes to surface sizes.
    pub fn policy(&self) -> (r: ScalePolicy)
        ensures
            r == self@.policy,
    {
        self.policy
    }

    /// Whether the surface holds a configuration it can present with.
    pub fn is_configured(&self) -> (r: bool)
        ensures
            r == self@.configured(),
    {
        self.size.is_positive() && self.config.is_positive()
    }

    /// Applies a new window size. Returns whether the configuration was
    /// updated, in which case the caller reapplies `config_size()` to the
    /// surface. A size with a zero dimension changes nothing; a positive size
    /// whose extent has a zero dimension is recorded, and the configuration
    /// keeps its last value.
    pub fn resize(&mut self, new_size: PhysicalSize) -> (applied: bool)
        requires
            old(self).wf(),
        ensures
            final(self).wf(),
            applied == resize_applies(old(self)@.policy, new_size),
            final(self)@ == resized(old(self)@, new_size),
            applied ==> final(self)@.configured(),
    {
        if !new_size.is_positive() {
            return false;
        }
        self.size = new_size;
        let extent = self.policy.extent(new_size);
        if !extent.is_positive() {
            return false;
        }
        self.config = extent;
        true
    }

    /// Hook for interactive input; reports whether the event was fully
    /// consumed. No event is consumed.
    pub fn input(&mut self, event: &InputEvent) -> (consumed: bool)
        ensures
            *final(self) == *old(self),
            !consumed,
    {
        false
    }

    /// Per-frame update before rendering; there is no per-frame state.
    pub fn update(&mut self)
        ensures
            *final(self) == *old(self),
    {
    }

    /// Decides the frame once the next surface texture has been asked for:
    /// with a texture, the one triangle draw to record, submit and present;
    /// without one, the error, and nothing is submitted.
    pub fn render(&self, acquired: Result<(), SurfaceError>) -> (r: Result<DrawCall, SurfaceError>)
        requires
            self@.configured(),
        ensures
            r == frame_of(acquired),
    {
        match acquired {
            Ok(()) => Ok(DrawCall { first_vertex: 0, vertex_count: 3, first_instance: 0, instance_count: 1 }),
            Err(e) => Err(e),
        }
    }
}

/// The frame for an acquisition outcome.
pub open spec fn frame_of(acquired: Result<(), SurfaceError>) -> Result<DrawCall, SurfaceError> {
    match acquired {
        Ok(()) => Ok(triangle()),
        Err(e) => Err(e),
    }
}

/// Resizing to the size already held leaves the configuration as it is.
pub proof fn lemma_resize_to_current_size(m: SurfaceModel)
    requires
        m.wf(),
    ensures
        resized(m, m.size) == m,
{
}

/// A resize with a zero dimension changes neither the window size nor the
/// configuration.
pub proof fn lemma_resize_zero_is_noop(m: SurfaceModel, width: u32, height: u32)
    requires
        width == 0 || height == 0,
    ensures
        resized(m, PhysicalSize { width, height }) == m,
{
}

/// Every resize keeps the model well formed, whatever size it is given.
pub proof fn lemma_resized_all_wf(m: SurfaceModel, sizes: Seq<PhysicalSize>)
    requires
        m.wf(),
    ensures
        resized_all(m, sizes).wf(),
        resized_all(m, sizes).policy == m.policy,
    decreases sizes.len(),
{
    if sizes.len() > 0 {
        lemma_resized_all_wf(m, sizes.drop_last());
    }
}

/// Where physical sizes are used unchanged, after each of a sequence of
/// positive resizes the configuration's width and height equal the window's.
pub proof fn lemma_config_matches_size(m: SurfaceModel, sizes: Seq<PhysicalSize>)
    requires
        m.wf(),
        m.policy == ScalePolicy::Physical,
        sizes.len() > 0,
        forall|i: int| 0 <= i < sizes.len() ==> (#[trigger] sizes[i]).positive(),
    ensures
        resized_all(m, sizes).config.width == resized_all(m, sizes).size.width,
        resized_all(m, sizes).config.height == resized_all(m, sizes).size.height,
{
    lemma_resized_all_wf(m, sizes.drop_last());
    assert(sizes.last().positive());
}

/// Keyboard and pointer events offered to the input hook.
#[derive(Clone, Copy, Debug, PartialEq, Eq, Structural)]
pub enum InputEvent {
    Keyboard { key: KeyCode, pressed: bool },
    MouseButton { pressed: bool },
    MouseWheel,
    CursorMoved,
}

/// The physical keys the shell tells apart.
#[derive(Clone, Copy, Debug, PartialEq, Eq, Structural)]
pub enum KeyCode {
    Escape,
    Other,
}

} // verus!
