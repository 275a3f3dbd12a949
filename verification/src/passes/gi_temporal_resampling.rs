//! The pass that merges each pixel's indirect reservoir with the one it
//! had in the previous frame.

use vstd::prelude::*;

use crate::camera::{covering_tiles, tiles_covering, ScreenPos};
use crate::passes::{
    layouts, readable, writable, Bind, Buffer, CameraComputePass, Dispatch, PassParams, Slot,
};

verus! {

/// The pass that merges the indirect reservoirs with those of the previous
/// frame.
#[derive(Debug)]
pub struct GiTemporalResamplingPass {
    pass: CameraComputePass,
}

impl GiTemporalResamplingPass {
    /// What the pass binds, all in one group: both cameras, the G-buffers
    /// of both frames, the reprojection map, the reservoirs it reads and
    /// the reservoirs it writes.
    pub open spec fn binds() -> Seq<Seq<Bind>> {
        seq![
            seq![
                readable(Buffer::Camera),
                readable(Buffer::PrevCamera),
                readable(Buffer::DirectGbufferD0),
                readable(Buffer::DirectGbufferD1),
                readable(Buffer::PrevDirectGbufferD0),
                readable(Buffer::PrevDirectGbufferD1),
                readable(Buffer::ReprojectionMap),
                readable(Buffer::GiReservoirs2),
                writable(Buffer::GiReservoirs1),
            ],
        ]
    }

    /// The layouts of the bind groups of the pass.
    pub closed spec fn plan(self) -> Seq<Seq<Slot>> {
        self.pass.plan()
    }

    /// The label of the pass.
    pub closed spec fn name(self) -> Seq<char> {
        self.pass.name()
    }

    /// Plans the pass.
    pub fn new() -> (pass: Self)
        ensures
            pass.name() == "gi_temporal_resampling"@,
            pass.plan() == layouts(Self::binds()),
    {
        let group = vec![
            Bind::readable(Buffer::Camera),
            Bind::readable(Buffer::PrevCamera),
            Bind::readable(Buffer::DirectGbufferD0),
            Bind::readable(Buffer::DirectGbufferD1),
            Bind::readable(Buffer::PrevDirectGbufferD0),
            Bind::readable(Buffer::PrevDirectGbufferD1),
            Bind::readable(Buffer::ReprojectionMap),
            Bind::readable(Buffer::GiReservoirs2),
            Bind::writable(Buffer::GiReservoirs1),
        ];
        assert(group@ =~= Self::binds()[0]);
        let pass = CameraComputePass::builder("gi_temporal_resampling").bind(
            group.as_slice(),
        ).build();
        assert(pass.plan() =~= layouts(Self::binds()));
        GiTemporalResamplingPass { pass }
    }

    /// The compute pass itself.
    pub fn pass(&self) -> (pass: &CameraComputePass)
        ensures
            pass.plan() == self.plan(),
            pass.name() == self.name(),
    {
        &self.pass
    }

    /// Dispatches the pass over a viewport of `viewport_size` pixels, one
    /// workgroup for every tile of eight by eight pixels that holds a pixel
    /// of it.
    pub fn run(&self, viewport_size: ScreenPos, params: PassParams) -> (dispatch: Dispatch<
        PassParams,
    >)
        ensures
            dispatch.size.x == tiles_covering(viewport_size.x as int),
            dispatch.size.y == tiles_covering(viewport_size.y as int),
            dispatch.params == params,
    {
        // This pass uses 8x8 warps:
        let size = covering_tiles(viewport_size);
        self.pass.run(size, params)
    }
}

} // verus!
