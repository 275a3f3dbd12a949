//! The pass that turns each pixel's specular reservoir into radiance.

use vstd::prelude::*;

use crate::camera::{covering_tiles, tiles_covering, ScreenPos};
use crate::passes::{
    layouts, readable, writable, Bind, Buffer, CameraComputePass, Dispatch, Slot,
};

verus! {

/// The pass that turns the specular reservoirs into radiance.
#[derive(Debug)]
pub struct IndirectSpecularResolvingPass {
    pass: CameraComputePass,
}

impl IndirectSpecularResolvingPass {
    /// What the pass binds, all in one group.
    pub open spec fn binds() -> Seq<Seq<Bind>> {
        seq![
            seq![
                readable(Buffer::Camera),
                readable(Buffer::DirectGbufferD0),
                readable(Buffer::DirectGbufferD1),
                readable(Buffer::IndirectSpecularReservoirs),
                writable(Buffer::IndirectSpecularSamples),
            ],
        ]
    }

    /// The layouts of the bind groups of the pass.
    pub closed spec fn plan(self) -> Seq<Seq<Slot>> {
        self.pass.plan()
    }

    /// The label of the pass.
    pub closed spec fn name(self) -> Seq<char> {
        self.pass.name()
    }

    /// Plans the pass.
    pub fn new() -> (pass: Self)
        ensures
            pass.name() == "indirect_specular_resolving"@,
            pass.plan() == layouts(Self::binds()),
    {
        let group = vec![
            Bind::readable(Buffer::Camera),
            Bind::readable(Buffer::DirectGbufferD0),
            Bind::readable(Buffer::DirectGbufferD1),
            Bind::readable(Buffer::IndirectSpecularReservoirs),
            Bind::writable(Buffer::IndirectSpecularSamples),
        ];
        assert(group@ =~= Self::binds()[0]);
        let pass = CameraComputePass::builder("indirect_specular_resolving").bind(
            group.as_slice(),
        ).build();
        assert(pass.plan() =~= layouts(Self::binds()));
        IndirectSpecularResolvingPass { pass }
    }

    /// The compute pass itself.
    pub fn pass(&self) -> (pass: &CameraComputePass)
        ensures
            pass.plan() == self.plan(),
            pass.name() == self.name(),
    {
        &self.pass
    }

    /// Dispatches the pass over a viewport of `viewport_size` pixels, one
    /// workgroup for every tile of eight by eight pixels that holds a pixel
    /// of it.
    pub fn run(&self, viewport_size: ScreenPos) -> (dispatch: Dispatch<()>)
        ensures
            dispatch.size.x == tiles_covering(viewport_size.x as int),
            dispatch.size.y == tiles_covering(viewport_size.y as int),
    {
        // This pass uses 8x8 warps:
        let size = covering_tiles(viewport_size);
        self.pass.run(size, ())
    }
}

} // verus!
