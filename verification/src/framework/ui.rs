//! What the immediate-mode UI hands over each frame: draw lists of
//! vertices, indices and commands.

use vstd::prelude::*;

use crate::common::{Color, Float32, Point, Rect};

verus! {

/// A vertex of the UI's mesh.
#[derive(Debug, Clone, Copy, PartialEq, Eq, Structural)]
pub struct DrawVert {
    /// Where it stands on the screen.
    pub pos: Point,
    /// Where it stands on its texture, each coordinate from 0 to 1.
    pub uv: Point,
    pub col: Color,
}

/// What a run of triangles shares.
#[derive(Debug, Clone, Copy, PartialEq, Eq)]
pub struct DrawCmdParams {
    /// Nothing is drawn outside this rectangle of the screen.
    pub clip_rect: Rect<Float32>,
    pub texture_id: usize,
    /// Added to every index of the run.
    pub vtx_offset: usize,
    /// Where in the index buffer the run begins.
    pub idx_offset: usize,
}

/// One command of a draw list.
#[derive(Debug, Clone, Copy, PartialEq, Eq)]
pub enum DrawCmd {
    /// `count` indices, three to a triangle.
    Elements { count: usize, cmd_params: DrawCmdParams },
    ResetRenderState,
    /// A callback of the UI's user, to be called with this command.
    RawCallback,
}

/// A mesh with the commands that draw it: each run of triangles takes its
/// indices from the index buffer, and each index names a vertex.
#[derive(Debug, Clone, PartialEq, Eq)]
pub struct DrawList {
    pub vtx_buffer: Vec<DrawVert>,
    pub idx_buffer: Vec<u16>,
    pub commands: Vec<DrawCmd>,
}

/// All that the UI draws in a frame, bottom layer first.
#[derive(Debug, Clone, PartialEq, Eq)]
pub struct DrawData {
    pub draw_lists: Vec<DrawList>,
}

impl DrawList {
    /// The run is made of whole triangles, lies within the index buffer,
    /// and each of its indices names a vertex of the vertex buffer. A run
    /// without triangles is in range wherever it begins.
    pub open spec fn run_in_range(&self, count: usize, params: DrawCmdParams) -> bool {
        &&& count % 3 == 0
        &&& count > 0 ==> params.idx_offset + count <= self.idx_buffer.len()
        &&& forall|j: int|
            params.idx_offset <= j < params.idx_offset + count ==> params.vtx_offset
                + #[trigger] self.idx_buffer@[j] < self.vtx_buffer.len()
    }

    /// A command that draws triangles draws a run in range.
    pub open spec fn command_in_range(&self, command: DrawCmd) -> bool {
        match command {
            DrawCmd::Elements { count, cmd_params } => self.run_in_range(count, cmd_params),
            _ => true,
        }
    }

    /// Every run of triangles is in range.
    pub open spec fn wf(&self) -> bool {
        forall|c: int|
            0 <= c < self.commands@.len() ==> self.command_in_range(#[trigger] self.commands@[c])
    }

    /// The vertex that the `k`-th index of a run names.
    pub open spec fn vertex(&self, params: DrawCmdParams, k: int) -> DrawVert {
        self.vtx_buffer@[params.vtx_offset + self.idx_buffer@[params.idx_offset + k]]
    }

    fn check_run(&self, count: usize, params: &DrawCmdParams) -> (ok: bool)
        ensures
            ok == self.run_in_range(count, *params),
    {
        if count % 3 != 0 {
            return false;
        }
        if count == 0 {
            return true;
        }
        if params.idx_offset > self.idx_buffer.len() || count > self.idx_buffer.len()
            - params.idx_offset {
            return false;
        }
        let end: usize = params.idx_offset + count;
        let mut j: usize = params.idx_offset;
        while j < end
            invariant
                params.idx_offset <= j <= end,
                end == params.idx_offset + count,
                end <= self.idx_buffer@.len(),
                forall|k: int|
                    params.idx_offset <= k < j ==> params.vtx_offset
                        + #[trigger] self.idx_buffer@[k] < self.vtx_buffer@.len(),
            decreases end - j,
        {
            let index: usize = self.idx_buffer[j] as usize;
            if params.vtx_offset >= self.vtx_buffer.len() || index >= self.vtx_buffer.len()
                - params.vtx_offset {
                return false;
            }
            j += 1;
        }
        true
    }

    /// Tests whether every run of triangles is in range.
    pub fn is_well_formed(&self) -> (ok: bool)
        ensures
            ok == self.wf(),
    {
        let mut c: usize = 0;
        while c < self.commands.len()
            invariant
                c <= self.commands@.len(),
                forall|d: int| 0 <= d < c ==> self.command_in_range(#[trigger] self.commands@[d]),
            decreases self.commands.len() - c,
        {
            match &self.commands[c] {
                DrawCmd::Elements { count, cmd_params } => {
                    if !self.check_run(*count, cmd_params) {
                        return false;
                    }
                },
                _ => {},
            }
            c += 1;
        }
        true
    }
}

impl DrawData {
    /// Every draw list is well formed.
    pub open spec fn wf(&self) -> bool {
        forall|l: int| 0 <= l < self.draw_lists@.len() ==> (#[trigger] self.draw_lists@[l]).wf()
    }

    /// Tests whether every draw list is well formed.
    pub fn is_well_formed(&self) -> (ok: bool)
        ensures
            ok == self.wf(),
    {
        let mut l: usize = 0;
        while l < self.draw_lists.len()
            invariant
                l <= self.draw_lists@.len(),
                forall|m: int| 0 <= m < l ==> (#[trigger] self.draw_lists@[m]).wf(),
            decreases self.draw_lists.len() - l,
        {
            if !self.draw_lists[l].is_well_formed() {
                return false;
            }
            l += 1;
        }
        true
    }
}

} // verus!
