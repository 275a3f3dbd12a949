//! The pass that shades every pixel with the light chosen for it.

use vstd::prelude::*;

use crate::camera::{covering_tiles, tiles_covering, ScreenPos};
use crate::passes::{
    atlas, layouts, readable, writable, Bind, Buffer, CameraComputePass, Dispatch, PassParams,
    Slot,
};

verus! {

/// The pass that shades every pixel with the light chosen for it.
#[derive(Debug)]
pub struct DirectShadingPass {
    pass: CameraComputePass,
}

impl DirectShadingPass {
    /// What the pass binds: the scene in its first group, the camera's
    /// buffers in its second.
    pub open spec fn binds() -> Seq<Seq<Bind>> {
        seq![
            seq![
                readable(Buffer::Triangles),
                readable(Buffer::Bvh),
                readable(Buffer::Materials),
                readable(Buffer::Lights),
                atlas(),
                readable(Buffer::World),
            ],
            seq![
                readable(Buffer::Camera),
                readable(Buffer::DirectGbufferD0),
                readable(Buffer::DirectGbufferD1),
                writable(Buffer::DirectCurrReservoirs),
            ],
        ]
    }

    /// The layouts of the bind groups of the pass.
    pub closed spec fn plan(self) -> Seq<Seq<Slot>> {
        self.pass.plan()
    }

    /// The label of the pass.
    pub closed spec fn name(self) -> Seq<char> {
        self.pass.name()
    }

    /// Plans the pass.
    pub fn new() -> (pass: Self)
        ensures
            pass.name() == "direct_shading"@,
            pass.plan() == layouts(Self::binds()),
    {
        let scene = vec![
            Bind::readable(Buffer::Triangles),
            Bind::readable(Buffer::Bvh),
            Bind::readable(Buffer::Materials),
            Bind::readable(Buffer::Lights),
            Bind::atlas(),
            Bind::readable(Buffer::World),
        ];
        let camera = vec![
            Bind::readable(Buffer::Camera),
            Bind::readable(Buffer::DirectGbufferD0),
            Bind::readable(Buffer::DirectGbufferD1),
            Bind::writable(Buffer::DirectCurrReservoirs),
        ];
        assert(scene@ =~= Self::binds()[0]);
        assert(camera@ =~= Self::binds()[1]);
        let pass = CameraComputePass::builder("direct_shading").bind(scene.as_slice()).bind(
            camera.as_slice(),
        ).build();
        assert(pass.plan() =~= layouts(Self::binds()));
        DirectShadingPass { pass }
    }

    /// The compute pass itself.
    pub fn pass(&self) -> (pass: &CameraComputePass)
        ensures
            pass.plan() == self.plan(),
            pass.name() == self.name(),
    {
        &self.pass
    }

    /// Dispatches the pass over a viewport of `viewport_size` pixels, one
    /// workgroup for every tile of eight by eight pixels that holds a pixel
    /// of it.
    pub fn run(&self, viewport_size: ScreenPos, params: PassParams) -> (dispatch: Dispatch<
        PassParams,
    >)
        ensures
            dispatch.size.x == tiles_covering(viewport_size.x as int),
            dispatch.size.y == tiles_covering(viewport_size.y as int),
            dispatch.params == params,
    {
        // This pass uses 8x8 warps:
        let size = covering_tiles(viewport_size);
        self.pass.run(size, params)
    }
}

} // verus!
