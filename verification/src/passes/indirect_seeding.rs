//! The pass that shades the surfaces the bounced rays hit, which seeds the
//! indirect reservoirs with new samples.

use rand::Rng;
use vstd::prelude::*;

use crate::camera::{covering_tiles, tiles_covering, ScreenPos};
use crate::passes::{
    atlas, layouts, readable, sampled, writable, Bind, Buffer, CameraComputePass, Dispatch,
    IndirectPassParams, Slot,
};

verus! {

/// The pass that seeds the indirect reservoirs with new samples.
#[derive(Debug)]
pub struct IndirectSeedingPass {
    pass: CameraComputePass,
}

/// Draws a seed from the thread's generator, `rand::thread_rng().gen()`.
/// Any 32-bit number may come back.
#[verifier::external_body]
fn random_seed() -> u32 {
    rand::thread_rng().gen()
}

/// The dispatch of the seeding pass for a given seed: one workgroup for
/// every tile of eight by eight pixels that holds a pixel of the viewport.
pub fn seeded(viewport_size: ScreenPos, seed: u32, frame: u32, mode: u32) -> (dispatch: Dispatch<
    IndirectPassParams,
>)
    ensures
        dispatch.size.x == tiles_covering(viewport_size.x as int),
        dispatch.size.y == tiles_covering(viewport_size.y as int),
        dispatch.params == (IndirectPassParams { seed, frame, mode }),
{
    Dispatch { size: covering_tiles(viewport_size), params: IndirectPassParams { seed, frame, mode } }
}

impl IndirectSeedingPass {
    /// What the pass binds: the scene in its first group, the camera's
    /// buffers in its second.
    pub open spec fn binds() -> Seq<Seq<Bind>> {
        seq![
            seq![
                readable(Buffer::Triangles),
                readable(Buffer::Bvh),
                readable(Buffer::Lights),
                readable(Buffer::Materials),
                atlas(),
                readable(Buffer::World),
            ],
            seq![
                readable(Buffer::Camera),
                sampled(Buffer::AtmosphereTransmittanceLut),
                sampled(Buffer::AtmosphereSkyLut),
                readable(Buffer::DirectGbufferD0),
                readable(Buffer::DirectGbufferD1),
                readable(Buffer::IndirectRays),
                readable(Buffer::IndirectGbufferD0),
                readable(Buffer::IndirectGbufferD1),
                writable(Buffer::IndirectSamples),
            ],
        ]
    }

    /// The layouts of the bind groups of the pass.
    pub closed spec fn plan(self) -> Seq<Seq<Slot>> {
        self.pass.plan()
    }

    /// The label of the pass.
    pub closed spec fn name(self) -> Seq<char> {
        self.pass.name()
    }

    /// Plans the pass.
    pub fn new() -> (pass: Self)
        ensures
            pass.name() == "indirect_seeding"@,
            pass.plan() == layouts(Self::binds()),
    {
        let scene = vec![
            Bind::readable(Buffer::Triangles),
            Bind::readable(Buffer::Bvh),
            Bind::readable(Buffer::Lights),
            Bind::readable(Buffer::Materials),
            Bind::atlas(),
            Bind::readable(Buffer::World),
        ];
        let camera = vec![
            Bind::readable(Buffer::Camera),
            Bind::sampled(Buffer::AtmosphereTransmittanceLut),
            Bind::sampled(Buffer::AtmosphereSkyLut),
            Bind::readable(Buffer::DirectGbufferD0),
            Bind::readable(Buffer::DirectGbufferD1),
            Bind::readable(Buffer::IndirectRays),
            Bind::readable(Buffer::IndirectGbufferD0),
            Bind::readable(Buffer::IndirectGbufferD1),
            Bind::writable(Buffer::IndirectSamples),
        ];
        assert(scene@ =~= Self::binds()[0]);
        assert(camera@ =~= Self::binds()[1]);
        let pass = CameraComputePass::builder("indirect_seeding").bind(scene.as_slice()).bind(
            camera.as_slice(),
        ).build();
        assert(pass.plan() =~= layouts(Self::binds()));
        IndirectSeedingPass { pass }
    }

    /// The compute pass itself.
    pub fn pass(&self) -> (pass: &CameraComputePass)
        ensures
            pass.plan() == self.plan(),
            pass.name() == self.name(),
    {
        &self.pass
    }

    /// Dispatches the pass over a viewport of `viewport_size` pixels with a
    /// seed drawn afresh.
    pub fn run(&self, viewport_size: ScreenPos, frame: u32, mode: u32) -> (dispatch: Dispatch<
        IndirectPassParams,
    >)
        ensures
            dispatch.size.x == tiles_covering(viewport_size.x as int),
            dispatch.size.y == tiles_covering(viewport_size.y as int),
            dispatch.params.frame == frame,
            dispatch.params.mode == mode,
    {
        seeded(viewport_size, random_seed(), frame, mode)
    }
}

} // verus!
