//! The render-thread context: the resource factory that turns CPU-side
//! descriptions into handles, and the frame submitter that records the
//! per-frame clear / draw / end-frame sequence.

use vstd::prelude::*;
use crate::channel::{CommandChannel, FramePacket, SendOutcome, QUEUE_DEPTH};
use crate::geom::Vertex;
use crate::pixel::{Color, spec_force_opaque};
use crate::program::{
    BindError, ParamSet, Program, ShaderSource, UniformDecl, params_satisfy, decl_satisfied,
};
use crate::sampler::SamplerInfo;
use crate::texture::{ImageInfo, Texture, TextureError, TextureInfo};

verus! {

/// Handle to a mesh owned by the renderer.
#[derive(Clone, Copy, PartialEq, Eq, Structural, Debug)]
pub struct MeshHandle {
    pub id: usize,
}

/// Handle to an index buffer owned by the renderer.
#[derive(Clone, Copy, PartialEq, Eq, Structural, Debug)]
pub struct BufferHandle {
    pub id: usize,
}

/// Handle to a texture owned by the renderer.
#[derive(Clone, Copy, PartialEq, Eq, Structural, Debug)]
pub struct TextureHandle {
    pub id: usize,
}

/// Handle to a sampler owned by the renderer.
#[derive(Clone, Copy, PartialEq, Eq, Structural, Debug)]
pub struct SamplerHandle {
    pub id: usize,
}

/// Handle to a shader program owned by the renderer.
#[derive(Clone, Copy, PartialEq, Eq, Structural, Debug)]
pub struct ProgramHandle {
    pub id: usize,
}

/// Static geometry: an ordered sequence of vertices.
pub struct Mesh {
    pub vertices: Vec<Vertex>,
}

/// An ordered sequence of indices into some mesh's vertices.
pub struct IndexBuffer {
    pub indices: Vec<u32>,
}

/// A contiguous range of an index buffer selected for one draw call.
#[derive(Clone, Copy, PartialEq, Eq, Structural, Debug)]
pub struct IndexSlice {
    pub buffer: BufferHandle,
    pub start: u32,
    pub count: u32,
}

/// The output surface a frame is drawn to: its dimensions only.
#[derive(Clone, Copy, PartialEq, Eq, Structural, Debug)]
pub struct Frame {
    pub width: u16,
    pub height: u16,
}

impl Frame {
    /// Describe a render target of the given dimensions.
    pub fn new(width: u16, height: u16) -> (r: Frame)
        ensures
            r.width == width,
            r.height == height,
    {
        Frame { width, height }
    }
}

/// Rasterizer configuration; trivial here: no blending, no depth test.
#[derive(Clone, Copy, PartialEq, Eq, Structural, Debug)]
pub struct DrawState {
    pub blend: bool,
    pub depth_test: bool,
}

impl DrawState {
    /// The default state: everything off.
    pub fn new() -> (r: DrawState)
        ensures
            !r.blend,
            !r.depth_test,
    {
        DrawState { blend: false, depth_test: false }
    }
}

/// What to reset at the start of a frame; `None` fields are left untouched.
#[derive(Clone, Copy, PartialEq, Eq, Structural, Debug)]
pub struct ClearData {
    pub color: Option<Color>,
    pub depth: Option<u32>,
    pub stencil: Option<u8>,
}

/// One recorded draw call.
#[derive(Clone, Copy, PartialEq, Eq, Structural, Debug)]
pub struct DrawCall {
    pub mesh: MeshHandle,
    pub buffer: BufferHandle,
    pub start: u32,
    pub count: u32,
    pub frame: Frame,
    pub program: ProgramHandle,
    pub state: DrawState,
}

/// A command recorded into the current frame.
#[derive(Clone, Copy, PartialEq, Eq, Structural, Debug)]
pub enum Command {
    Clear(ClearData, Frame),
    Draw(DrawCall),
}

/// Why a draw call was rejected.
#[derive(Clone, Copy, PartialEq, Eq, Structural, Debug)]
pub enum DrawError {
    /// The program's parameter set no longer matches its uniforms.
    NotConnected,
    /// The index slice reaches past the end of its index buffer.
    OutOfRange,
    /// An index in the slice reaches past the mesh's vertex count.
    VertexOutOfBounds,
}

/// A deferred error the device reports back between frames; drained once
/// per frame and logged, never fatal.
#[derive(Clone, Copy, PartialEq, Eq, Structural, Debug)]
pub enum DeviceError {
    OutOfMemory,
    InvalidOperation,
}

/// What `end_frame` did.
#[derive(Clone, Copy, PartialEq, Eq, Structural, Debug)]
pub enum EndFrameOutcome {
    /// The frame packet was handed to the channel.
    Presented,
    /// The channel is full; the producer must wait for the consumer.
    MustWait,
}

/// A program together with the parameter set it was connected with.
pub struct ConnectedProgram {
    pub program: ProgramHandle,
    pub params: ParamSet,
}

impl ConnectedProgram {
    /// The connection is valid against the renderer's program store.
    pub open spec fn connected(self, r: Renderer) -> bool {
        self.program.id < r.programs@.len()
            && params_satisfy(self.params.entries@, r.programs@[self.program.id as int].uniforms())
    }
}

/// The render-thread context: all GPU-side resources, the commands recorded
/// for the current frame, the deferred error queue, and the finish flag the
/// shutdown handshake sets.
pub struct Renderer {
    pub meshes: Vec<Mesh>,
    pub buffers: Vec<IndexBuffer>,
    pub textures: Vec<Texture>,
    pub samplers: Vec<SamplerInfo>,
    pub programs: Vec<Program>,
    pub commands: Vec<Command>,
    pub pending_errors: Vec<DeviceError>,
    pub finish_requested: bool,
}

impl Renderer {
    /// What a draw call against this renderer state must return.
    pub open spec fn spec_draw_outcome(
        self, mesh: MeshHandle, slice: IndexSlice, program: ConnectedProgram,
    ) -> Result<(), DrawError> {
        let idxs = self.buffers@[slice.buffer.id as int].indices@;
        let vcount = self.meshes@[mesh.id as int].vertices@.len();
        if !program.connected(self) {
            Err(DrawError::NotConnected)
        } else if slice.start + slice.count > idxs.len() {
            Err(DrawError::OutOfRange)
        } else if exists|k: int| slice.start <= k < slice.start + slice.count && idxs[k] >= vcount {
            Err(DrawError::VertexOutOfBounds)
        } else {
            Ok(())
        }
    }

    /// A fresh context with no resources and nothing recorded.
    pub fn new() -> (r: Renderer)
        ensures
            r.meshes@ == Seq::<Mesh>::empty(),
            r.buffers@ == Seq::<IndexBuffer>::empty(),
            r.textures@ == Seq::<Texture>::empty(),
            r.samplers@ == Seq::<SamplerInfo>::empty(),
            r.programs@ == Seq::<Program>::empty(),
            r.commands@ == Seq::<Command>::empty(),
            r.pending_errors@ == Seq::<DeviceError>::empty(),
            !r.finish_requested,
    {
        let r = Renderer {
            meshes: Vec::new(),
            buffers: Vec::new(),
            textures: Vec::new(),
            samplers: Vec::new(),
            programs: Vec::new(),
            commands: Vec::new(),
            pending_errors: Vec::new(),
            finish_requested: false,
        };
        proof {
            assert(r.meshes@ =~= Seq::<Mesh>::empty());
            assert(r.buffers@ =~= Seq::<IndexBuffer>::empty());
            assert(r.textures@ =~= Seq::<Texture>::empty());
            assert(r.samplers@ =~= Seq::<SamplerInfo>::empty());
            assert(r.programs@ =~= Seq::<Program>::empty());
            assert(r.commands@ =~= Seq::<Command>::empty());
            assert(r.pending_errors@ =~= Seq::<DeviceError>::empty());
        }
        r
    }

    /// Upload an ordered sequence of vertices; no failure path is modelled.
    pub fn create_mesh(&mut self, vertices: Vec<Vertex>) -> (h: MeshHandle)
        ensures
            h.id == old(self).meshes@.len(),
            final(self).meshes@ == old(self).meshes@.push(Mesh { vertices }),
            *final(self) == (Renderer { meshes: final(self).meshes, ..*old(self) }),
    {
        let h = MeshHandle { id: self.meshes.len() };
        self.meshes.push(Mesh { vertices });
        h
    }

    /// Allocate an index buffer, filled from the given data if any.
    pub fn create_buffer(&mut self, data: Option<Vec<u32>>) -> (h: BufferHandle)
        ensures
            h.id == old(self).buffers@.len(),
            final(self).buffers@.len() == old(self).buffers@.len() + 1,
            final(self).buffers@ == old(self).buffers@.push(final(self).buffers@[h.id as int]),
            final(self).buffers@[h.id as int].indices@ == (match data {
                Some(v) => v@,
                None => Seq::<u32>::empty(),
            }),
            *final(self) == (Renderer { buffers: final(self).buffers, ..*old(self) }),
    {
        let h = BufferHandle { id: self.buffers.len() };
        let indices: Vec<u32> = match data {
            Some(v) => v,
            None => Vec::new(),
        };
        proof {
            if indices@.len() == 0 {
                assert(indices@ =~= Seq::<u32>::empty());
            }
        }
        self.buffers.push(IndexBuffer { indices });
        h
    }

    /// Allocate a texture from its description; its store starts empty and
    /// is populated by a later `update_texture`.
    pub fn create_texture(&mut self, info: TextureInfo) -> (h: TextureHandle)
        ensures
            h.id == old(self).textures@.len(),
            final(self).textures@ == old(self).textures@.push(final(self).textures@[h.id as int]),
            final(self).textures@[h.id as int].info == info,
            final(self).textures@[h.id as int]@ == Seq::<u32>::empty(),
            *final(self) == (Renderer { textures: final(self).textures, ..*old(self) }),
    {
        let h = TextureHandle { id: self.textures.len() };
        self.textures.push(Texture::new(info));
        h
    }

    /// Populate a texture. Succeeds exactly when the data holds one pixel
    /// per texel; the stored pixels are the supplied ones with alpha forced
    /// opaque. On a size mismatch the texture is left untouched.
    pub fn update_texture(
        &mut self, h: TextureHandle, img: ImageInfo, data: &Vec<u32>,
    ) -> (r: Result<(), TextureError>)
        requires
            h.id < old(self).textures@.len(),
            img == old(self).textures@[h.id as int].info.spec_whole_image(),
        ensures
            r is Ok <==> data@.len() == old(self).textures@[h.id as int].info.pixel_count(),
            r is Ok ==> final(self).textures@[h.id as int]@
                == data@.map_values(|p: u32| spec_force_opaque(p)),
            r is Err ==> r == Err::<(), TextureError>(TextureError::SizeMismatch)
                && final(self).textures@[h.id as int]@ == old(self).textures@[h.id as int]@,
            final(self).textures@ == old(self).textures@.update(
                h.id as int, final(self).textures@[h.id as int]),
            final(self).textures@[h.id as int].info == old(self).textures@[h.id as int].info,
            *final(self) == (Renderer { textures: final(self).textures, ..*old(self) }),
    {
        let tex = &mut self.textures[h.id];
        let r = tex.update(img, data);
        proof {
            assert(self.textures@ =~= old(self).textures@.update(h.id as int, self.textures@[h.id as int]));
        }
        r
    }

    /// Record a sampler configuration.
    pub fn create_sampler(&mut self, info: SamplerInfo) -> (h: SamplerHandle)
        ensures
            h.id == old(self).samplers@.len(),
            final(self).samplers@ == old(self).samplers@.push(info),
            *final(self) == (Renderer { samplers: final(self).samplers, ..*old(self) }),
    {
        let h = SamplerHandle { id: self.samplers.len() };
        self.samplers.push(info);
        h
    }

    /// Compile a vertex/fragment source pair into a program.
    pub fn create_program(&mut self, vertex: ShaderSource, fragment: ShaderSource) -> (h: ProgramHandle)
        ensures
            h.id == old(self).programs@.len(),
            final(self).programs@ == old(self).programs@.push(Program { vertex, fragment }),
            *final(self) == (Renderer { programs: final(self).programs, ..*old(self) }),
    {
        let h = ProgramHandle { id: self.programs.len() };
        self.programs.push(Program { vertex, fragment });
        h
    }

    /// Connect a program to a parameter set. Succeeds exactly when every
    /// uniform the program declares has an entry of the same name and type;
    /// otherwise reports the first uniform left unfilled.
    pub fn connect_program(&self, h: ProgramHandle, params: ParamSet) -> (r: Result<ConnectedProgram, BindError>)
        requires
            h.id < self.programs@.len(),
        ensures
            r is Ok <==> params_satisfy(params.entries@, self.programs@[h.id as int].uniforms()),
            (match r {
                Ok(cp) => cp.program == h && cp.params == params && cp.connected(*self),
                Err(e) => exists|i: int| 0 <= i < self.programs@[h.id as int].uniforms().len()
                    && !decl_satisfied(params.entries@, #[trigger] self.programs@[h.id as int].uniforms()[i])
                    && e.uniform@ == self.programs@[h.id as int].uniforms()[i].name@,
            }),
    {
        let prog = &self.programs[h.id];
        proof {
            lemma_satisfy_split(params.entries@, prog.vertex.uniforms@, prog.fragment.uniforms@);
        }
        match crate::program::first_unsatisfied(&params.entries, &prog.vertex.uniforms) {
            Some(i) => {
                assert(prog.uniforms()[i as int] == prog.vertex.uniforms@[i as int]);
                Err(BindError { uniform: prog.vertex.uniforms[i].name.clone() })
            },
            None => {
                match crate::program::first_unsatisfied(&params.entries, &prog.fragment.uniforms) {
                    Some(i) => {
                        assert(prog.uniforms()[prog.vertex.uniforms@.len() + i]
                            == prog.fragment.uniforms@[i as int]);
                        Err(BindError { uniform: prog.fragment.uniforms[i].name.clone() })
                    },
                    None => Ok(ConnectedProgram { program: h, params }),
                }
            },
        }
    }

    /// Record a clear of the target frame; `None` fields of the descriptor
    /// leave the corresponding surface planes untouched when applied.
    pub fn clear(&mut self, data: ClearData, frame: Frame)
        ensures
            final(self).commands@ == old(self).commands@.push(Command::Clear(data, frame)),
            *final(self) == (Renderer { commands: final(self).commands, ..*old(self) }),
    {
        self.commands.push(Command::Clear(data, frame));
    }

    /// Record a draw of an index-slice of a mesh with a connected program.
    /// Rejects a slice that reaches past its index buffer, an index that
    /// reaches past the mesh's vertices, and a stale connection; on any
    /// rejection nothing is recorded.
    pub fn draw(
        &mut self,
        mesh: MeshHandle,
        slice: IndexSlice,
        frame: &Frame,
        program: &ConnectedProgram,
        state: &DrawState,
    ) -> (r: Result<(), DrawError>)
        requires
            mesh.id < old(self).meshes@.len(),
            slice.buffer.id < old(self).buffers@.len(),
        ensures
            r == old(self).spec_draw_outcome(mesh, slice, *program),
            r is Ok ==> final(self).commands@ == old(self).commands@.push(Command::Draw(DrawCall {
                mesh,
                buffer: slice.buffer,
                start: slice.start,
                count: slice.count,
                frame: *frame,
                program: program.program,
                state: *state,
            })),
            r is Err ==> *final(self) == *old(self),
            *final(self) == (Renderer { commands: final(self).commands, ..*old(self) }),
    {
        // The connection is re-checked against the current program store.
        if program.program.id >= self.programs.len() {
            return Err(DrawError::NotConnected);
        }
        let prog = &self.programs[program.program.id];
        proof {
            lemma_satisfy_split(program.params.entries@, prog.vertex.uniforms@, prog.fragment.uniforms@);
        }
        let vertex_ok = crate::program::first_unsatisfied(&program.params.entries, &prog.vertex.uniforms);
        let fragment_ok = crate::program::first_unsatisfied(&program.params.entries, &prog.fragment.uniforms);
        if vertex_ok.is_some() || fragment_ok.is_some() {
            return Err(DrawError::NotConnected);
        }
        let idx_len = self.buffers[slice.buffer.id].indices.len();
        let start: usize = slice.start as usize;
        let count: usize = slice.count as usize;
        if start > idx_len || count > idx_len - start {
            return Err(DrawError::OutOfRange);
        }
        let vcount = self.meshes[mesh.id].vertices.len();
        let end: usize = start + count;
        let mut k: usize = start;
        while k < end
            invariant
                start == slice.start as int,
                count == slice.count as int,
                end == start + count,
                program.connected(*self),
                end <= self.buffers@[slice.buffer.id as int].indices@.len(),
                slice.buffer.id < self.buffers@.len(),
                mesh.id < self.meshes@.len(),
                start <= k <= end,
                vcount == self.meshes@[mesh.id as int].vertices@.len(),
                forall|j: int| start <= j < k
                    ==> (#[trigger] self.buffers@[slice.buffer.id as int].indices@[j]) < vcount,
                *self == *old(self),
            decreases end - k,
        {
            if self.buffers[slice.buffer.id].indices[k] as usize >= vcount {
                assert(slice.start <= k && (k as int) < slice.start + slice.count
                    && self.buffers@[slice.buffer.id as int].indices@[k as int] >= vcount);
                return Err(DrawError::VertexOutOfBounds);
            }
            k = k + 1;
        }
        self.commands.push(Command::Draw(DrawCall {
            mesh,
            buffer: slice.buffer,
            start: slice.start,
            count: slice.count,
            frame: *frame,
            program: program.program,
            state: *state,
        }));
        Ok(())
    }

    /// Present the frame: hand the recorded commands to the channel as one
    /// packet. A full channel makes the producer wait: nothing is sent,
    /// nothing is dropped, and the recording is kept for the retry.
    pub fn end_frame(&mut self, channel: &mut CommandChannel) -> (r: EndFrameOutcome)
        requires
            old(channel).wf(),
        ensures
            final(channel).wf(),
            old(channel)@.len() < QUEUE_DEPTH ==> r == EndFrameOutcome::Presented
                && final(channel)@ == old(channel)@.push(FramePacket { commands: old(self).commands })
                && final(self).commands@ == Seq::<Command>::empty()
                && *final(self) == (Renderer { commands: final(self).commands, ..*old(self) }),
            old(channel)@.len() >= QUEUE_DEPTH ==> r == EndFrameOutcome::MustWait
                && final(channel)@ == old(channel)@
                && *final(self) == *old(self),
    {
        if channel.len() < QUEUE_DEPTH {
            let mut taken: Vec<Command> = Vec::new();
            core::mem::swap(&mut self.commands, &mut taken);
            proof {
                assert(self.commands@ =~= Seq::<Command>::empty());
            }
            match channel.send(FramePacket { commands: taken }) {
                SendOutcome::Accepted => EndFrameOutcome::Presented,
                SendOutcome::Full(_) => vstd::pervasive::unreached(),
            }
        } else {
            EndFrameOutcome::MustWait
        }
    }

    /// Drain the deferred errors accumulated since the last drain.
    pub fn errors(&mut self) -> (r: Vec<DeviceError>)
        ensures
            r@ == old(self).pending_errors@,
            final(self).pending_errors@ == Seq::<DeviceError>::empty(),
            *final(self) == (Renderer { pending_errors: final(self).pending_errors, ..*old(self) }),
    {
        let mut taken: Vec<DeviceError> = Vec::new();
        core::mem::swap(&mut self.pending_errors, &mut taken);
        proof {
            assert(self.pending_errors@ =~= Seq::<DeviceError>::empty());
        }
        taken
    }

    /// Report a deferred error for the next drain; the device side calls
    /// this when the backend surfaces an asynchronous failure.
    pub fn report_error(&mut self, e: DeviceError)
        ensures
            final(self).pending_errors@ == old(self).pending_errors@.push(e),
            *final(self) == (Renderer { pending_errors: final(self).pending_errors, ..*old(self) }),
    {
        self.pending_errors.push(e);
    }

    /// Ask the render loop to finish; it observes the flag at frame-top.
    pub fn request_finish(&mut self)
        ensures
            final(self).finish_requested,
            *final(self) == (Renderer { finish_requested: true, ..*old(self) }),
    {
        self.finish_requested = true;
    }

    /// Whether a finish has been requested.
    pub fn should_finish(&self) -> (r: bool)
        ensures
            r == self.finish_requested,
    {
        self.finish_requested
    }
}

/// A parameter set satisfies the concatenation of two declaration lists
/// exactly when it satisfies each of them.
pub proof fn lemma_satisfy_split(
    entries: Seq<crate::program::ParamEntry>, a: Seq<UniformDecl>, b: Seq<UniformDecl>,
)
    ensures
        params_satisfy(entries, a + b) == (params_satisfy(entries, a) && params_satisfy(entries, b)),
{
    if params_satisfy(entries, a) && params_satisfy(entries, b) {
        assert forall|i: int| 0 <= i < (a + b).len()
            implies decl_satisfied(entries, #[trigger] (a + b)[i]) by {
            if i < a.len() {
                assert((a + b)[i] == a[i]);
            } else {
                assert((a + b)[i] == b[i - a.len()]);
            }
        }
    }
    if params_satisfy(entries, a + b) {
        assert forall|i: int| 0 <= i < a.len()
            implies decl_satisfied(entries, #[trigger] a[i]) by {
            assert((a + b)[i] == a[i]);
        }
        assert forall|i: int| 0 <= i < b.len()
            implies decl_satisfied(entries, #[trigger] b[i]) by {
            assert((a + b)[a.len() + i] == b[i]);
        }
    }
}

} // verus!
