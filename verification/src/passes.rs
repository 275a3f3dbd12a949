//! The compute passes of a camera: which buffers each one binds, in which
//! slots, and how many workgroups it is dispatched with.

use vstd::prelude::*;

use crate::camera::ScreenPos;

pub mod direct_shading;
pub mod gi_temporal_resampling;
pub mod indirect_seeding;
pub mod indirect_specular_resolving;

verus! {

/// The buffers and textures that passes bind.
#[derive(Clone, Copy, Debug, PartialEq, Eq, Structural)]
pub enum Buffer {
    Triangles,
    Bvh,
    Materials,
    Lights,
    Images,
    World,
    Camera,
    PrevCamera,
    AtmosphereTransmittanceLut,
    AtmosphereSkyLut,
    DirectGbufferD0,
    DirectGbufferD1,
    PrevDirectGbufferD0,
    PrevDirectGbufferD1,
    DirectCurrReservoirs,
    ReprojectionMap,
    GiReservoirs1,
    GiReservoirs2,
    IndirectRays,
    IndirectGbufferD0,
    IndirectGbufferD1,
    IndirectSamples,
    IndirectSpecularReservoirs,
    IndirectSpecularSamples,
}

/// How a pass binds a buffer or a texture.
#[derive(Clone, Copy, Debug, PartialEq, Eq, Structural)]
pub enum Access {
    /// Read only; one slot.
    Readable,
    /// Read and written; one slot.
    Writable,
    /// A texture that is sampled; its sampler takes the slot after it.
    Sampled,
    /// The atlas of images; its sampler takes the slot after it.
    Atlas,
}

/// One thing a pass binds.
#[derive(Clone, Copy, Debug, PartialEq, Eq, Structural)]
pub struct Bind {
    pub buffer: Buffer,
    pub access: Access,
}

/// One thing a pass binds, and the first slot it takes.
#[derive(Clone, Copy, Debug, PartialEq, Eq, Structural)]
pub struct Slot {
    pub binding: u32,
    pub bind: Bind,
}

/// A compute pass that is ready to be dispatched.
#[derive(Debug)]
pub struct CameraComputePass {
    label: &'static str,
    groups: Vec<Vec<Slot>>,
}

/// A compute pass whose bind groups are being put together.
#[derive(Debug)]
pub struct CameraComputePassBuilder {
    label: &'static str,
    groups: Vec<Vec<Slot>>,
}

/// What every pass is told.
#[derive(Clone, Copy, Debug, PartialEq, Eq, Structural)]
pub struct PassParams {
    pub seed: u32,
    pub frame: u32,
}

/// What the indirect passes are told.
#[derive(Clone, Copy, Debug, PartialEq, Eq, Structural)]
pub struct IndirectPassParams {
    pub seed: u32,
    pub frame: u32,
    pub mode: u32,
}

/// One dispatch of a pass: so many workgroups along each axis, with these
/// parameters.
#[derive(Clone, Copy, Debug)]
pub struct Dispatch<P> {
    pub size: ScreenPos,
    pub params: P,
}

/// Number of slots that a binding takes.
pub open spec fn width(access: Access) -> int {
    match access {
        Access::Readable => 1,
        Access::Writable => 1,
        Access::Sampled => 2,
        Access::Atlas => 2,
    }
}

/// Number of slots that the bindings take together.
pub open spec fn slots_taken(binds: Seq<Bind>) -> int
    decreases binds.len(),
{
    if binds.len() == 0 {
        0
    } else {
        slots_taken(binds.drop_last()) + width(binds.last().access)
    }
}

/// The layout of a bind group: every binding takes the slots that follow
/// those of the bindings before it.
pub open spec fn layout(binds: Seq<Bind>) -> Seq<Slot> {
    Seq::new(
        binds.len(),
        |k: int| Slot { binding: slots_taken(binds.take(k)) as u32, bind: binds[k] },
    )
}

/// The layouts of several bind groups.
pub open spec fn layouts(groups: Seq<Seq<Bind>>) -> Seq<Seq<Slot>> {
    Seq::new(groups.len(), |g: int| layout(groups[g]))
}

/// A buffer bound for reading.
pub open spec fn readable(buffer: Buffer) -> Bind {
    Bind { buffer, access: Access::Readable }
}

/// A buffer bound for reading and writing.
pub open spec fn writable(buffer: Buffer) -> Bind {
    Bind { buffer, access: Access::Writable }
}

/// A texture bound for sampling.
pub open spec fn sampled(buffer: Buffer) -> Bind {
    Bind { buffer, access: Access::Sampled }
}

/// The atlas of images.
pub open spec fn atlas() -> Bind {
    Bind { buffer: Buffer::Images, access: Access::Atlas }
}

impl Bind {
    /// Binds a buffer for reading.
    pub fn readable(buffer: Buffer) -> (bind: Bind)
        ensures
            bind == readable(buffer),
    {
        Bind { buffer, access: Access::Readable }
    }

    /// Binds a buffer for reading and writing.
    pub fn writable(buffer: Buffer) -> (bind: Bind)
        ensures
            bind == writable(buffer),
    {
        Bind { buffer, access: Access::Writable }
    }

    /// Binds a texture for sampling.
    pub fn sampled(buffer: Buffer) -> (bind: Bind)
        ensures
            bind == sampled(buffer),
    {
        Bind { buffer, access: Access::Sampled }
    }

    /// Binds the atlas of images.
    pub fn atlas() -> (bind: Bind)
        ensures
            bind == atlas(),
    {
        Bind { buffer: Buffer::Images, access: Access::Atlas }
    }
}

impl CameraComputePassBuilder {
    /// The label given to the pass.
    pub closed spec fn name(self) -> Seq<char> {
        self.label@
    }

    /// The layouts of the bind groups put together so far.
    pub closed spec fn plan(self) -> Seq<Seq<Slot>> {
        Seq::new(self.groups@.len(), |g: int| self.groups@[g]@)
    }

    /// Adds a bind group that holds `binds` in order.
    pub fn bind(self, binds: &[Bind]) -> (builder: CameraComputePassBuilder)
        requires
            binds@.len() <= 0x4000_0000,
        ensures
            builder.name() == self.name(),
            builder.plan() == self.plan().push(layout(binds@)),
    {
        let mut group: Vec<Slot> = Vec::new();
        let mut binding: u32 = 0;
        let mut k: usize = 0;
        while k < binds.len()
            invariant
                k <= binds@.len() <= 0x4000_0000,
                binding == slots_taken(binds@.take(k as int)),
                binding <= 2 * k,
                group@ == layout(binds@).take(k as int),
            decreases binds@.len() - k,
        {
            let bind = binds[k];
            group.push(Slot { binding, bind });
            assert(binds@.take(k + 1).drop_last() == binds@.take(k as int));
            binding += match bind.access {
                Access::Readable => 1,
                Access::Writable => 1,
                Access::Sampled => 2,
                Access::Atlas => 2,
            };
            assert(group@ =~= layout(binds@).take(k + 1));
            k += 1;
        }
        assert(layout(binds@).take(k as int) =~= layout(binds@));
        let ghost before = self.plan();
        let mut groups = self.groups;
        groups.push(group);
        let builder = CameraComputePassBuilder { label: self.label, groups };
        assert(builder.plan() =~= before.push(layout(binds@)));
        builder
    }

    /// Finishes the pass.
    pub fn build(self) -> (pass: CameraComputePass)
        ensures
            pass.name() == self.name(),
            pass.plan() == self.plan(),
    {
        let pass = CameraComputePass { label: self.label, groups: self.groups };
        assert(pass.plan() =~= self.plan());
        pass
    }
}

impl CameraComputePass {
    /// The label of the pass.
    pub closed spec fn name(self) -> Seq<char> {
        self.label@
    }

    /// The layouts of the bind groups of the pass.
    pub closed spec fn plan(self) -> Seq<Seq<Slot>> {
        Seq::new(self.groups@.len(), |g: int| self.groups@[g]@)
    }

    /// Starts a pass without bind groups.
    pub fn builder(label: &'static str) -> (builder: CameraComputePassBuilder)
        ensures
            builder.name() == label@,
            builder.plan() == Seq::<Seq<Slot>>::empty(),
    {
        let builder = CameraComputePassBuilder { label, groups: Vec::new() };
        assert(builder.plan() =~= Seq::<Seq<Slot>>::empty());
        builder
    }

    /// The label of the pass.
    pub fn label(&self) -> (label: &'static str)
        ensures
            label@ == self.name(),
    {
        self.label
    }

    /// Number of bind groups.
    pub fn group_count(&self) -> (count: usize)
        ensures
            count == self.plan().len(),
    {
        self.groups.len()
    }

    /// The layout of bind group `index`.
    pub fn group(&self, index: usize) -> (slots: &Vec<Slot>)
        requires
            index < self.plan().len(),
        ensures
            slots@ == self.plan()[index as int],
    {
        &self.groups[index]
    }

    /// Dispatches the pass with `size` workgroups along each axis.
    pub fn run<P>(&self, size: ScreenPos, params: P) -> (dispatch: Dispatch<P>)
        ensures
            dispatch.size == size,
            dispatch.params == params,
    {
        Dispatch { size, params }
    }
}

/// The passes of one camera.
#[derive(Debug)]
pub struct CameraPasses {
    pub direct_shading: direct_shading::DirectShadingPass,
    pub gi_temporal_resampling: gi_temporal_resampling::GiTemporalResamplingPass,
    pub indirect_seeding: indirect_seeding::IndirectSeedingPass,
    pub indirect_specular_resolving: indirect_specular_resolving::IndirectSpecularResolvingPass,
}

impl CameraPasses {
    /// Plans every pass of a camera.
    pub fn new() -> (passes: Self)
        ensures
            passes.direct_shading.name() == "direct_shading"@,
            passes.direct_shading.plan() == layouts(
                direct_shading::DirectShadingPass::binds(),
            ),
            passes.gi_temporal_resampling.name() == "gi_temporal_resampling"@,
            passes.gi_temporal_resampling.plan() == layouts(
                gi_temporal_resampling::GiTemporalResamplingPass::binds(),
            ),
            passes.indirect_seeding.name() == "indirect_seeding"@,
            passes.indirect_seeding.plan() == layouts(
                indirect_seeding::IndirectSeedingPass::binds(),
            ),
            passes.indirect_specular_resolving.name() == "indirect_specular_resolving"@,
            passes.indirect_specular_resolving.plan() == layouts(
                indirect_specular_resolving::IndirectSpecularResolvingPass::binds(),
            ),
    {
        CameraPasses {
            direct_shading: direct_shading::DirectShadingPass::new(),
            gi_temporal_resampling: gi_temporal_resampling::GiTemporalResamplingPass::new(),
            indirect_seeding: indirect_seeding::IndirectSeedingPass::new(),
            indirect_specular_resolving:
                indirect_specular_resolving::IndirectSpecularResolvingPass::new(),
        }
    }
}

} // verus!
