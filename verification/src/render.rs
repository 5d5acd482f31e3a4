//! The render loop: one-time scene construction, then the per-frame
//! protocol — clear, draw, end-frame, error drain — as an explicit state
//! machine, until a finish request is observed at loop-top.

use vstd::prelude::*;
use crate::channel::{CommandChannel, FramePacket, QUEUE_DEPTH};
use crate::geom::{quad_vertices, quad_indices, quad_vertex_spec, quad_index_spec};
use crate::pixel::{Color, spec_force_opaque};
use crate::program::{
    ParamEntry, ParamSet, ParamValue, ShaderSource, ShaderVersion, UniformDecl, UniformType,
};
use crate::renderer::{
    ClearData, Command, ConnectedProgram, DrawState, Frame, IndexSlice, MeshHandle, Renderer,
    SamplerHandle, TextureHandle,
};
use crate::sampler::{FilterMethod, SamplerInfo, WrapMode};
use crate::texture::{TextureError, TextureInfo, TextureKind, PixelFormat};

verus! {

/// The side of the square window and of the noise texture, in pixels.
pub const SURFACE_SIZE: u16 = 600;

/// How many pixels a full-surface upload must supply.
pub const SURFACE_PIXELS: usize = 360000;

/// The vertex stage of the textured-quad program; declares no uniforms.
pub fn quad_vertex_shader() -> (r: ShaderSource)
    ensures
        r.version == ShaderVersion::Glsl150,
        r.uniforms@ == Seq::<UniformDecl>::empty(),
{
    let r = ShaderSource {
        version: ShaderVersion::Glsl150,
        code: "
    #version 150 core
    in vec2 pos;
    out vec2 uv;
    void main() {
        gl_Position = vec4(pos, 0.0, 1.0);
        uv = pos;
    }
".to_owned(),
        uniforms: Vec::new(),
    };
    proof {
        assert(r.uniforms@ =~= Seq::<UniformDecl>::empty());
    }
    r
}

/// The fragment stage of the textured-quad program; declares the single
/// sampler uniform `tex`.
pub fn quad_fragment_shader() -> (r: ShaderSource)
    ensures
        r.version == ShaderVersion::Glsl150,
        r.uniforms@.len() == 1,
        r.uniforms@[0].name@ == "tex"@,
        r.uniforms@[0].ty == UniformType::Sampler2D,
{
    let mut uniforms: Vec<UniformDecl> = Vec::new();
    uniforms.push(UniformDecl { name: "tex".to_owned(), ty: UniformType::Sampler2D });
    ShaderSource {
        version: ShaderVersion::Glsl150,
        code: "
    #version 150 core
    uniform sampler2D tex;
    in vec2 uv;
    out vec4 color;
    void main() {
        color = texture(tex, uv);
    }
".to_owned(),
        uniforms,
    }
}

/// Everything the per-frame protocol draws with, built once at startup.
pub struct Scene {
    pub mesh: MeshHandle,
    pub slice: IndexSlice,
    pub texture: TextureHandle,
    pub sampler: SamplerHandle,
    pub program: ConnectedProgram,
    pub frame: Frame,
    pub draw_state: DrawState,
    pub clear: ClearData,
}

/// The scene's handles are live in the renderer and its draw call cannot be
/// rejected.
pub open spec fn scene_valid(s: Scene, r: Renderer) -> bool {
    s.mesh.id < r.meshes@.len()
    && s.slice.buffer.id < r.buffers@.len()
    && r.spec_draw_outcome(s.mesh, s.slice, s.program) == Ok::<(), crate::renderer::DrawError>(())
}

/// Build every resource the textured-quad scene needs: the quad mesh, its
/// index buffer and slice, the noise texture with its sampler, and the
/// connected program. Succeeds exactly when the noise holds one pixel per
/// texel of the surface.
pub fn build_scene(r: &mut Renderer, noise: &Vec<u32>) -> (res: Result<Scene, TextureError>)
    ensures
        res is Ok <==> noise@.len() == SURFACE_PIXELS,
        res is Err ==> res == Err::<Scene, TextureError>(TextureError::SizeMismatch),
        match res {
            Ok(s) => {
                &&& scene_valid(s, *final(r))
                &&& final(r).meshes@[s.mesh.id as int].vertices@ == quad_vertex_spec()
                &&& final(r).buffers@[s.slice.buffer.id as int].indices@ == quad_index_spec()
                &&& s.slice.start == 0 && s.slice.count == 6
                &&& final(r).textures@[s.texture.id as int]@
                    == noise@.map_values(|p: u32| spec_force_opaque(p))
                &&& s.frame.width == SURFACE_SIZE && s.frame.height == SURFACE_SIZE
                &&& !s.draw_state.blend && !s.draw_state.depth_test
                &&& s.clear.color is Some && s.clear.depth is None && s.clear.stencil is None
            },
            Err(_) => true,
        },
        final(r).finish_requested == old(r).finish_requested,
        final(r).commands@ == old(r).commands@,
        final(r).pending_errors@ == old(r).pending_errors@,
{
    let frame = Frame::new(SURFACE_SIZE, SURFACE_SIZE);
    let draw_state = DrawState::new();

    let mesh = r.create_mesh(quad_vertices());
    let buf = r.create_buffer(Some(quad_indices()));
    let slice = IndexSlice { buffer: buf, start: 0, count: 6 };

    let texinfo = TextureInfo {
        width: SURFACE_SIZE,
        height: SURFACE_SIZE,
        depth: 1,
        mip_min: 0,
        mip_max: -1,
        kind: TextureKind::Texture2D,
        format: PixelFormat::Rgba8,
    };
    let imginfo = texinfo.to_image_info();
    let texture = r.create_texture(texinfo);
    match r.update_texture(texture, imginfo, noise) {
        Ok(()) => {},
        Err(e) => {
            return Err(e);
        },
    }

    let sampler = r.create_sampler(SamplerInfo::new(FilterMethod::Scale, WrapMode::Clamp));
    let prog = r.create_program(quad_vertex_shader(), quad_fragment_shader());
    let mut entries: Vec<ParamEntry> = Vec::new();
    entries.push(ParamEntry {
        name: "tex".to_owned(),
        value: ParamValue::TextureSampler(texture, Some(sampler)),
    });
    let params = ParamSet { entries };
    proof {
        let decls = r.programs@[prog.id as int].uniforms();
        assert(decls.len() == 1);
        assert(decls[0].name@ == "tex"@ && decls[0].ty == UniformType::Sampler2D);
        assert(crate::program::entry_matches(params.entries@[0], decls[0]));
        assert(crate::program::decl_satisfied(params.entries@, decls[0]));
    }
    let program = match r.connect_program(prog, params) {
        Ok(cp) => cp,
        Err(_) => vstd::pervasive::unreached(),
    };

    let clear = ClearData {
        color: Some(Color { r: 77, g: 77, b: 77, a: 255 }),
        depth: None,
        stencil: None,
    };

    let scene = Scene { mesh, slice, texture, sampler, program, frame, draw_state, clear };
    proof {
        let idxs = r.buffers@[slice.buffer.id as int].indices@;
        assert(idxs == quad_index_spec());
        assert forall|k: int| 0 <= k < 6 implies (#[trigger] idxs[k]) < 4 by {
            assert(quad_index_spec()[k] < 4);
        }
        assert(r.spec_draw_outcome(scene.mesh, scene.slice, scene.program)
            == Ok::<(), crate::renderer::DrawError>(()));
    }
    Ok(scene)
}

/// The render loop's position in its protocol.
#[derive(Clone, Copy, PartialEq, Eq, Structural, Debug)]
pub enum RenderState {
    Uninitialized,
    ResourcesBuilt,
    Clearing,
    Drawing,
    Presenting,
    Finished,
}

/// What one step of the loop did.
#[derive(Clone, Copy, PartialEq, Eq, Structural, Debug)]
pub enum StepAction {
    /// The frame's clear was recorded.
    Cleared,
    /// The frame's draw was recorded.
    Drew,
    /// The frame packet was handed to the channel.
    Presented,
    /// The channel was full; the step will be retried.
    Stalled,
    /// Deferred errors were drained.
    Drained,
    /// The finish request was observed; the loop is done.
    Stopped,
    /// Nothing to do: the loop had already finished.
    Idle,
}

/// The loop's transition function: from the current state, the finish flag
/// observed at loop-top, and whether the channel has room.
pub open spec fn next_render_state(
    state: RenderState, finish_requested: bool, channel_has_room: bool,
) -> RenderState {
    match state {
        RenderState::Uninitialized => RenderState::Uninitialized,
        RenderState::ResourcesBuilt => if finish_requested {
            RenderState::Finished
        } else {
            RenderState::Clearing
        },
        RenderState::Clearing => RenderState::Drawing,
        RenderState::Drawing => if channel_has_room {
            RenderState::Presenting
        } else {
            RenderState::Drawing
        },
        RenderState::Presenting => RenderState::ResourcesBuilt,
        RenderState::Finished => RenderState::Finished,
    }
}

/// Increment that stops at the counter's ceiling instead of wrapping.
pub open spec fn saturating_inc(x: u64) -> u64 {
    if x < u64::MAX { (x + 1) as u64 } else { x }
}

/// Saturating add of a drained-error count.
pub open spec fn saturating_add(x: u64, n: u64) -> u64 {
    if x + n <= u64::MAX { (x + n) as u64 } else { u64::MAX }
}

/// The render thread's whole state: the renderer it owns, the scene it
/// built, and its position in the per-frame protocol.
pub struct RenderLoop {
    pub renderer: Renderer,
    pub scene: Option<Scene>,
    pub state: RenderState,
    pub frames_presented: u64,
    pub errors_seen: u64,
}

impl RenderLoop {
    /// Once started, the loop always has a scene its renderer can draw.
    pub open spec fn wf(self) -> bool {
        self.state != RenderState::Uninitialized ==> {
            &&& self.scene is Some
            &&& scene_valid(self.scene.unwrap(), self.renderer)
        }
    }

    /// A loop that has not built its resources yet.
    pub fn new() -> (r: RenderLoop)
        ensures
            r.state == RenderState::Uninitialized,
            r.scene is None,
            r.frames_presented == 0,
            r.errors_seen == 0,
            !r.renderer.finish_requested,
            r.renderer.commands@ == Seq::<Command>::empty(),
            r.renderer.pending_errors@ == Seq::<crate::renderer::DeviceError>::empty(),
            r.wf(),
    {
        RenderLoop {
            renderer: Renderer::new(),
            scene: None,
            state: RenderState::Uninitialized,
            frames_presented: 0,
            errors_seen: 0,
        }
    }

    /// Build the scene once. Succeeds exactly when the noise holds one
    /// pixel per texel; on failure the loop stays unstarted.
    pub fn start(&mut self, noise: &Vec<u32>) -> (r: Result<(), TextureError>)
        requires
            old(self).state == RenderState::Uninitialized,
        ensures
            r is Ok <==> noise@.len() == SURFACE_PIXELS,
            r is Err ==> r == Err::<(), TextureError>(TextureError::SizeMismatch)
                && final(self).state == RenderState::Uninitialized,
            r is Ok ==> final(self).state == RenderState::ResourcesBuilt,
            final(self).wf(),
            final(self).frames_presented == old(self).frames_presented,
            final(self).errors_seen == old(self).errors_seen,
            final(self).renderer.finish_requested == old(self).renderer.finish_requested,
            final(self).renderer.commands@ == old(self).renderer.commands@,
            final(self).renderer.pending_errors@ == old(self).renderer.pending_errors@,
    {
        match build_scene(&mut self.renderer, noise) {
            Ok(s) => {
                self.scene = Some(s);
                self.state = RenderState::ResourcesBuilt;
                Ok(())
            },
            Err(e) => Err(e),
        }
    }

    /// One transition of the per-frame protocol. At loop-top the finish
    /// flag is observed; then clear, draw and end-frame follow in order;
    /// a full channel stalls the present until the consumer makes room;
    /// after a present the deferred errors are drained and counted.
    pub fn step(&mut self, channel: &mut CommandChannel) -> (a: StepAction)
        requires
            old(self).wf(),
            old(self).state != RenderState::Uninitialized,
            old(channel).wf(),
        ensures
            final(self).wf(),
            final(channel).wf(),
            final(self).state == next_render_state(
                old(self).state,
                old(self).renderer.finish_requested,
                old(channel)@.len() < QUEUE_DEPTH,
            ),
            final(self).scene == old(self).scene,
            final(self).renderer.finish_requested == old(self).renderer.finish_requested,
            final(self).renderer.meshes@ == old(self).renderer.meshes@,
            final(self).renderer.buffers@ == old(self).renderer.buffers@,
            final(self).renderer.programs@ == old(self).renderer.programs@,
            final(self).renderer.textures@ == old(self).renderer.textures@,
            // The channel gains the frame packet exactly on a present.
            (old(self).state == RenderState::Drawing && old(channel)@.len() < QUEUE_DEPTH) ==> {
                &&& final(channel)@ == old(channel)@.push(
                    FramePacket { commands: old(self).renderer.commands })
                &&& final(self).renderer.commands@ == Seq::<Command>::empty()
                &&& final(self).frames_presented == saturating_inc(old(self).frames_presented)
                &&& a == StepAction::Presented
            },
            !(old(self).state == RenderState::Drawing && old(channel)@.len() < QUEUE_DEPTH)
                ==> final(channel)@ == old(channel)@,
            old(self).state == RenderState::Drawing && old(channel)@.len() >= QUEUE_DEPTH ==> {
                &&& *final(self) == *old(self)
                &&& a == StepAction::Stalled
            },
            old(self).state == RenderState::ResourcesBuilt ==> {
                if old(self).renderer.finish_requested {
                    a == StepAction::Stopped && final(self).renderer == old(self).renderer
                } else {
                    a == StepAction::Cleared
                    && final(self).renderer.commands@ == old(self).renderer.commands@.push(
                        Command::Clear(old(self).scene.unwrap().clear, old(self).scene.unwrap().frame))
                }
            },
            old(self).state == RenderState::Clearing ==> {
                &&& a == StepAction::Drew
                &&& final(self).renderer.commands@ == old(self).renderer.commands@.push(
                    Command::Draw(crate::renderer::DrawCall {
                        mesh: old(self).scene.unwrap().mesh,
                        buffer: old(self).scene.unwrap().slice.buffer,
                        start: old(self).scene.unwrap().slice.start,
                        count: old(self).scene.unwrap().slice.count,
                        frame: old(self).scene.unwrap().frame,
                        program: old(self).scene.unwrap().program.program,
                        state: old(self).scene.unwrap().draw_state,
                    }))
            },
            old(self).state == RenderState::Presenting ==> {
                &&& a == StepAction::Drained
                &&& final(self).renderer.pending_errors@
                    == Seq::<crate::renderer::DeviceError>::empty()
                &&& final(self).errors_seen == saturating_add(
                    old(self).errors_seen, old(self).renderer.pending_errors@.len() as u64)
            },
            old(self).state == RenderState::Finished ==> *final(self) == *old(self)
                && a == StepAction::Idle,
    {
        match self.state {
            RenderState::Uninitialized => vstd::pervasive::unreached(),
            RenderState::ResourcesBuilt => {
                if self.renderer.should_finish() {
                    self.state = RenderState::Finished;
                    StepAction::Stopped
                } else {
                    match &self.scene {
                        Some(s) => {
                            self.renderer.clear(s.clear, s.frame);
                        },
                        None => vstd::pervasive::unreached(),
                    }
                    self.state = RenderState::Clearing;
                    StepAction::Cleared
                }
            },
            RenderState::Clearing => {
                match &self.scene {
                    Some(s) => {
                        let res = self.renderer.draw(
                            s.mesh, s.slice, &s.frame, &s.program, &s.draw_state);
                        proof {
                            assert(res is Ok);
                        }
                    },
                    None => vstd::pervasive::unreached(),
                }
                self.state = RenderState::Drawing;
                StepAction::Drew
            },
            RenderState::Drawing => {
                match self.renderer.end_frame(channel) {
                    crate::renderer::EndFrameOutcome::Presented => {
                        if self.frames_presented < u64::MAX {
                            self.frames_presented = self.frames_presented + 1;
                        }
                        self.state = RenderState::Presenting;
                        StepAction::Presented
                    },
                    crate::renderer::EndFrameOutcome::MustWait => {
                        StepAction::Stalled
                    },
                }
            },
            RenderState::Presenting => {
                let errs = self.renderer.errors();
                let n: u64 = errs.len() as u64;
                if n <= u64::MAX - self.errors_seen {
                    self.errors_seen = self.errors_seen + n;
                } else {
                    self.errors_seen = u64::MAX;
                }
                self.state = RenderState::ResourcesBuilt;
                StepAction::Drained
            },
            RenderState::Finished => StepAction::Idle,
        }
    }
}

} // verus!
