//! Render context: owns the surface configuration and the ordered pipeline,
//! texture and mesh lists, chooses the initial configuration from the
//! surface's capabilities, handles the resize/reconfiguration protocol that
//! keeps the swapchain valid, and plans each frame as the command sequence a
//! host executes against the GPU: clear, bind pipeline, bind texture groups,
//! bind mesh buffers, one indexed draw, present.

use vstd::prelude::*;

use crate::mesh::IndexFormat;
use crate::mesh::Mesh;
use crate::pipeline::Pipeline;
use crate::texture::Texture;
use crate::texture::TextureFormat;
use crate::texture::TEXTURE_USAGE_RENDER_ATTACHMENT;

verus! {

/// How the backend paces delivery of rendered frames to the display.
#[derive(Clone, Copy, PartialEq, Eq, Structural, Debug)]
pub enum PresentMode {
    AutoVsync,
    AutoNoVsync,
    Fifo,
    FifoRelaxed,
    Immediate,
    Mailbox,
}

/// How the surface's alpha channel is composited with the windowing system.
#[derive(Clone, Copy, PartialEq, Eq, Structural, Debug)]
pub enum CompositeAlphaMode {
    Auto,
    Opaque,
    PreMultiplied,
    PostMultiplied,
    Inherit,
}

/// The surface configuration: must always match the live window size.
#[derive(Clone, Copy, PartialEq, Eq, Structural, Debug)]
pub struct SurfaceConfiguration {
    pub usage: u32,
    pub format: TextureFormat,
    pub width: u32,
    pub height: u32,
    pub present_mode: PresentMode,
    pub alpha_mode: CompositeAlphaMode,
    pub desired_maximum_frame_latency: u32,
}

/// What the surface reports it supports, queried from the adapter.
pub struct SurfaceCapabilities {
    pub formats: Vec<TextureFormat>,
    pub present_modes: Vec<PresentMode>,
    pub alpha_modes: Vec<CompositeAlphaMode>,
}

/// Why context setup failed.
#[derive(Clone, Copy, PartialEq, Eq, Structural, Debug)]
pub enum SetupError {
    /// The surface supports no sRGB-capable format.
    NoSrgbFormat,
}

/// Why planning a frame failed.
#[derive(Clone, Copy, PartialEq, Eq, Structural, Debug)]
pub enum RenderError {
    /// No pipeline is registered at the requested index.
    PipelineOutOfRange,
    /// No mesh is registered at the requested index.
    MeshOutOfRange,
}

/// A clear color, each component in thousandths of full intensity.
#[derive(Clone, Copy, PartialEq, Eq, Structural, Debug)]
pub struct ClearColor {
    pub r_milli: u32,
    pub g_milli: u32,
    pub b_milli: u32,
    pub a_milli: u32,
}

/// The fixed dark background every frame clears to: 0.010 red, green and
/// blue at full alpha.
pub open spec fn background_color() -> ClearColor {
    ClearColor { r_milli: 10, g_milli: 10, b_milli: 10, a_milli: 1000 }
}

/// The plan for one frame, executed in order against an acquired surface
/// image: begin one render pass clearing the color target, bind the
/// pipeline, bind every registered texture's group to sequential slots, bind
/// the mesh's vertex and index buffers, issue one indexed draw over the
/// mesh's full index range for one instance, end the pass, submit, present.
pub struct FrameCommands {
    pub clear_color: ClearColor,
    pub pipeline_index: usize,
    pub bind_group_slots: Vec<usize>,
    pub vertex_buffer_slot: u32,
    pub mesh_index: usize,
    pub index_format: IndexFormat,
    pub index_count: u32,
    pub base_vertex: i32,
    pub instance_count: u32,
}

/// A window-system notification the host event loop delivers.
#[derive(Clone, Copy, PartialEq, Eq, Structural, Debug)]
pub enum WindowEvent {
    CloseRequested,
    Resized { width: u32, height: u32 },
    RedrawRequested,
    Other,
}

/// What the host must do after the context has handled one event.
pub enum FrameAction {
    /// Stop the event loop.
    Exit,
    /// Execute this frame plan and present the result.
    Present(FrameCommands),
    /// The frame could not be planned; the host treats this as fatal.
    Failed(RenderError),
    /// Nothing to do beyond requesting the next redraw.
    Continue,
}

/// The first sRGB-capable format of a capability list, if any.
pub open spec fn first_srgb(formats: Seq<TextureFormat>) -> Option<TextureFormat>
    decreases formats.len(),
{
    if formats.len() == 0 {
        None
    } else if formats[0].is_srgb_spec() {
        Some(formats[0])
    } else {
        first_srgb(formats.drop_first())
    }
}

/// The chosen surface format really is the first sRGB-capable one: when
/// `first_srgb` yields a format, that format is sRGB-capable and stands in
/// the capability list with only non-sRGB formats before it; when it yields
/// none, no format in the list is sRGB-capable.
pub proof fn lemma_first_srgb_is_first(formats: Seq<TextureFormat>)
    ensures
        first_srgb(formats) matches Some(f) ==> exists|i: int|
            {
                &&& 0 <= i < formats.len()
                &&& formats[i] == f
                &&& f.is_srgb_spec()
                &&& forall|j: int| 0 <= j < i ==> !formats[j].is_srgb_spec()
            },
        first_srgb(formats) is None ==> forall|i: int|
            0 <= i < formats.len() ==> !formats[i].is_srgb_spec(),
    decreases formats.len(),
{
    if formats.len() == 0 {
    } else if formats[0].is_srgb_spec() {
        let f = formats[0];
        assert(0 <= 0 < formats.len() && formats[0] == f && f.is_srgb_spec() && (forall|j: int|
            0 <= j < 0 ==> !formats[j].is_srgb_spec()));
    } else {
        let rest = formats.drop_first();
        lemma_first_srgb_is_first(rest);
        if first_srgb(formats) is Some {
            let f = first_srgb(formats).unwrap();
            let i = choose|i: int|
                {
                    &&& 0 <= i < rest.len()
                    &&& rest[i] == f
                    &&& f.is_srgb_spec()
                    &&& forall|j: int| 0 <= j < i ==> !rest[j].is_srgb_spec()
                };
            assert forall|j: int| 0 <= j < i + 1 implies !formats[j].is_srgb_spec() by {
                if j > 0 {
                    assert(formats[j] == rest[j - 1]);
                }
            }
            assert(formats[i + 1] == rest[i]);
            assert(0 <= i + 1 < formats.len() && formats[i + 1] == f && f.is_srgb_spec() && (
            forall|j: int| 0 <= j < i + 1 ==> !formats[j].is_srgb_spec()));
        } else {
            assert forall|i: int| 0 <= i < formats.len() implies !formats[i].is_srgb_spec() by {
                if i > 0 {
                    assert(formats[i] == rest[i - 1]);
                }
            }
        }
    }
}

/// A prefix of non-sRGB formats does not change which format is chosen.
proof fn lemma_first_srgb_skip(formats: Seq<TextureFormat>, i: int)
    requires
        0 <= i <= formats.len(),
        forall|j: int| 0 <= j < i ==> !formats[j].is_srgb_spec(),
    ensures
        first_srgb(formats) == first_srgb(formats.skip(i)),
    decreases i,
{
    if i > 0 {
        lemma_first_srgb_skip(formats, i - 1);
        assert(formats.skip(i - 1).drop_first() =~= formats.skip(i));
        assert(formats.skip(i - 1)[0] == formats[i - 1]);
    } else {
        assert(formats.skip(0) =~= formats);
    }
}

/// The render context. Owns the surface configuration, the current size and
/// the ordered pipeline, texture and mesh lists, each referenced by
/// positional index at draw time. All resources are created once at startup
/// and live until the context is released.
pub struct App {
    config: SurfaceConfiguration,
    width: u32,
    height: u32,
    pipelines: Vec<Pipeline>,
    textures: Vec<Texture>,
    meshes: Vec<Mesh>,
}

impl App {
    /// The current surface configuration.
    pub closed spec fn config_spec(self) -> SurfaceConfiguration {
        self.config
    }

    /// The current window size.
    pub closed spec fn size_spec(self) -> (u32, u32) {
        (self.width, self.height)
    }

    /// The registered pipelines, in registration order.
    pub closed spec fn pipelines_spec(self) -> Seq<Pipeline> {
        self.pipelines@
    }

    /// The registered textures, in registration order.
    pub closed spec fn textures_spec(self) -> Seq<Texture> {
        self.textures@
    }

    /// The registered meshes, in registration order.
    pub closed spec fn meshes_spec(self) -> Seq<Mesh> {
        self.meshes@
    }

    /// The context invariant: the surface configuration's width and height
    /// match the live window size and are both positive (a zero-sized
    /// swapchain is invalid), and every registered mesh is well formed.
    pub open spec fn wf(self) -> bool {
        &&& self.config_spec().width > 0
        &&& self.config_spec().height > 0
        &&& self.size_spec() == (self.config_spec().width, self.config_spec().height)
        &&& forall|i: int| 0 <= i < self.meshes_spec().len() ==> self.meshes_spec()[i].wf()
    }

    /// Build the initial context for a surface of the given window size,
    /// from the capabilities the surface reported: render-attachment usage,
    /// the first sRGB-capable format (an error when none exists), the window
    /// size, the first supported present mode, the first supported alpha
    /// mode, and a two-frame maximum latency. No pipelines, textures or
    /// meshes are registered yet.
    pub fn new(width: u32, height: u32, caps: &SurfaceCapabilities) -> (r: Result<App, SetupError>)
        requires
            width > 0,
            height > 0,
            caps.present_modes@.len() > 0,
            caps.alpha_modes@.len() > 0,
        ensures
            r is Ok <==> first_srgb(caps.formats@) is Some,
            r is Err ==> r == Err::<App, SetupError>(SetupError::NoSrgbFormat),
            r matches Ok(a) ==> {
                &&& a.config_spec() == (SurfaceConfiguration {
                    usage: TEXTURE_USAGE_RENDER_ATTACHMENT,
                    format: first_srgb(caps.formats@).unwrap(),
                    width,
                    height,
                    present_mode: caps.present_modes@[0],
                    alpha_mode: caps.alpha_modes@[0],
                    desired_maximum_frame_latency: 2,
                })
                &&& a.size_spec() == (width, height)
                &&& a.pipelines_spec().len() == 0
                &&& a.textures_spec().len() == 0
                &&& a.meshes_spec().len() == 0
                &&& a.wf()
            },
    {
        let mut idx: usize = 0;
        while idx < caps.formats.len() && !caps.formats[idx].is_srgb()
            invariant
                0 <= idx <= caps.formats@.len(),
                forall|j: int| 0 <= j < idx ==> !caps.formats@[j].is_srgb_spec(),
            decreases caps.formats@.len() - idx,
        {
            idx = idx + 1;
        }
        proof {
            lemma_first_srgb_skip(caps.formats@, idx as int);
        }
        if idx >= caps.formats.len() {
            proof {
                assert(caps.formats@.skip(idx as int).len() == 0);
            }
            return Err(SetupError::NoSrgbFormat);
        }
        let format = caps.formats[idx];
        proof {
            assert(caps.formats@.skip(idx as int)[0] == caps.formats@[idx as int]);
        }
        let config = SurfaceConfiguration {
            usage: TEXTURE_USAGE_RENDER_ATTACHMENT,
            format,
            width,
            height,
            present_mode: caps.present_modes[0],
            alpha_mode: caps.alpha_modes[0],
            desired_maximum_frame_latency: 2,
        };
        Ok(
            App {
                config,
                width,
                height,
                pipelines: Vec::new(),
                textures: Vec::new(),
                meshes: Vec::new(),
            },
        )
    }

    /// Handle a window resize. When both dimensions are positive, the stored
    /// size and the configuration's width and height become exactly the new
    /// size (the host then reconfigures the surface); a resize with a zero
    /// dimension leaves the context unchanged, so the swapchain never
    /// becomes degenerate.
    pub fn resize(&mut self, width: u32, height: u32)
        ensures
            width > 0 && height > 0 ==> {
                &&& final(self).config_spec() == (SurfaceConfiguration {
                    width,
                    height,
                    ..old(self).config_spec()
                })
                &&& final(self).size_spec() == (width, height)
                &&& final(self).pipelines_spec() == old(self).pipelines_spec()
                &&& final(self).textures_spec() == old(self).textures_spec()
                &&& final(self).meshes_spec() == old(self).meshes_spec()
            },
            !(width > 0 && height > 0) ==> *final(self) == *old(self),
            old(self).wf() ==> final(self).wf(),
    {
        if width > 0 && height > 0 {
            self.width = width;
            self.height = height;
            self.config.width = width;
            self.config.height = height;
        }
        proof {
            if old(self).wf() {
                assert forall|i: int|
                    0 <= i < self.meshes_spec().len() implies self.meshes_spec()[i].wf() by {
                    assert(self.meshes_spec() == old(self).meshes_spec());
                    assert(old(self).meshes_spec()[i].wf());
                }
            }
        }
    }

    /// Per-frame extension hook. Deliberately a no-op: the seam where future
    /// per-frame simulation would attach.
    pub fn update(&mut self)
        ensures
            *final(self) == *old(self),
    {
    }

    /// Register pipelines, appended in order after those already registered.
    pub fn add_pipelines(&mut self, pipelines: Vec<Pipeline>)
        ensures
            final(self).pipelines_spec() == old(self).pipelines_spec() + pipelines@,
            final(self).config_spec() == old(self).config_spec(),
            final(self).size_spec() == old(self).size_spec(),
            final(self).textures_spec() == old(self).textures_spec(),
            final(self).meshes_spec() == old(self).meshes_spec(),
            old(self).wf() ==> final(self).wf(),
    {
        let mut pipelines = pipelines;
        self.pipelines.append(&mut pipelines);
    }

    /// Register textures, appended in order after those already registered.
    pub fn add_textures(&mut self, textures: Vec<Texture>)
        ensures
            final(self).textures_spec() == old(self).textures_spec() + textures@,
            final(self).config_spec() == old(self).config_spec(),
            final(self).size_spec() == old(self).size_spec(),
            final(self).pipelines_spec() == old(self).pipelines_spec(),
            final(self).meshes_spec() == old(self).meshes_spec(),
            old(self).wf() ==> final(self).wf(),
    {
        let mut textures = textures;
        self.textures.append(&mut textures);
    }

    /// Register meshes, appended in order after those already registered.
    pub fn add_meshes(&mut self, meshes: Vec<Mesh>)
        ensures
            final(self).meshes_spec() == old(self).meshes_spec() + meshes@,
            final(self).config_spec() == old(self).config_spec(),
            final(self).size_spec() == old(self).size_spec(),
            final(self).pipelines_spec() == old(self).pipelines_spec(),
            final(self).textures_spec() == old(self).textures_spec(),
            old(self).wf() && (forall|i: int| 0 <= i < meshes@.len() ==> meshes@[i].wf())
                ==> final(self).wf(),
    {
        let ghost given: Seq<Mesh> = meshes@;
        let mut meshes = meshes;
        self.meshes.append(&mut meshes);
        proof {
            if old(self).wf() && (forall|i: int| 0 <= i < given.len() ==> given[i].wf()) {
                assert forall|i: int|
                    0 <= i < self.meshes_spec().len() implies self.meshes_spec()[i].wf() by {
                    if i < old(self).meshes_spec().len() {
                        assert(self.meshes_spec()[i] == old(self).meshes_spec()[i]);
                    } else {
                        assert(self.meshes_spec()[i] == given[i - old(self).meshes_spec().len()]);
                    }
                }
            }
        }
    }

    /// What the frame plan for the given pipeline and mesh must hold: the
    /// fixed background clear, the requested pipeline, every registered
    /// texture's group bound to the slot equal to its registration index,
    /// the mesh's buffers with vertex-buffer slot 0 and 16-bit indices, and
    /// one indexed draw over the mesh's stored index count, base vertex 0,
    /// one instance.
    pub open spec fn frame_commands_for(
        self,
        pipeline_index: usize,
        mesh_index: usize,
        fc: FrameCommands,
    ) -> bool {
        &&& fc.clear_color == background_color()
        &&& fc.pipeline_index == pipeline_index
        &&& fc.bind_group_slots@.len() == self.textures_spec().len()
        &&& forall|i: int| 0 <= i < fc.bind_group_slots@.len() ==> fc.bind_group_slots@[i] == i
        &&& fc.vertex_buffer_slot == 0
        &&& fc.mesh_index == mesh_index
        &&& fc.index_format == IndexFormat::Uint16
        &&& mesh_index < self.meshes_spec().len() ==> fc.index_count == self.meshes_spec()[
            mesh_index as int
        ].index_count_spec()
        &&& fc.base_vertex == 0
        &&& fc.instance_count == 1
    }

    /// Plan one frame drawing the mesh at `mesh_index` with the pipeline at
    /// `pipeline_index`. Succeeds exactly when both indices are in range;
    /// an out-of-range index is reported instead of reaching the GPU as
    /// undefined behavior.
    pub fn render(&self, pipeline_index: usize, mesh_index: usize) -> (r: Result<
        FrameCommands,
        RenderError,
    >)
        ensures
            r is Ok <==> {
                &&& pipeline_index < self.pipelines_spec().len()
                &&& mesh_index < self.meshes_spec().len()
            },
            !(pipeline_index < self.pipelines_spec().len()) ==> r == Err::<
                FrameCommands,
                RenderError,
            >(RenderError::PipelineOutOfRange),
            pipeline_index < self.pipelines_spec().len() && !(mesh_index
                < self.meshes_spec().len()) ==> r == Err::<FrameCommands, RenderError>(
                RenderError::MeshOutOfRange,
            ),
            r matches Ok(fc) ==> self.frame_commands_for(pipeline_index, mesh_index, fc),
            self.wf() ==> (r matches Ok(fc) ==> fc.index_count == self.meshes_spec()[
                mesh_index as int
            ].indices_spec().len()),
    {
        if pipeline_index >= self.pipelines.len() {
            return Err(RenderError::PipelineOutOfRange);
        }
        if mesh_index >= self.meshes.len() {
            return Err(RenderError::MeshOutOfRange);
        }
        let mut bind_group_slots: Vec<usize> = Vec::new();
        let mut i: usize = 0;
        while i < self.textures.len()
            invariant
                0 <= i <= self.textures@.len(),
                bind_group_slots@.len() == i,
                forall|j: int| 0 <= j < i ==> bind_group_slots@[j] == j,
            decreases self.textures@.len() - i,
        {
            bind_group_slots.push(i);
            i = i + 1;
        }
        let index_count = self.meshes[mesh_index].index_count();
        Ok(
            FrameCommands {
                clear_color: ClearColor { r_milli: 10, g_milli: 10, b_milli: 10, a_milli: 1000 },
                pipeline_index,
                bind_group_slots,
                vertex_buffer_slot: 0,
                mesh_index,
                index_format: IndexFormat::Uint16,
                index_count,
                base_vertex: 0,
                instance_count: 1,
            },
        )
    }

    /// Handle one window-system event, drawing the mesh at `mesh_index`
    /// with the pipeline at `pipeline_index` on each redraw: a close request
    /// exits, a resize updates the configuration, a redraw runs the per-
    /// frame hook and plans the frame, and anything else is ignored. The
    /// host requests the next redraw after every handled event.
    pub fn handle_event(&mut self, event: WindowEvent, pipeline_index: usize, mesh_index: usize)
        -> (a: FrameAction)
        ensures
            match event {
                WindowEvent::CloseRequested => *final(self) == *old(self) && a is Exit,
                WindowEvent::Resized { width, height } => {
                    &&& a is Continue
                    &&& width > 0 && height > 0 ==> {
                        &&& final(self).config_spec() == (SurfaceConfiguration {
                            width,
                            height,
                            ..old(self).config_spec()
                        })
                        &&& final(self).size_spec() == (width, height)
                        &&& final(self).pipelines_spec() == old(self).pipelines_spec()
                        &&& final(self).textures_spec() == old(self).textures_spec()
                        &&& final(self).meshes_spec() == old(self).meshes_spec()
                    }
                    &&& !(width > 0 && height > 0) ==> *final(self) == *old(self)
                },
                WindowEvent::RedrawRequested => {
                    &&& *final(self) == *old(self)
                    &&& a is Present <==> {
                        &&& pipeline_index < old(self).pipelines_spec().len()
                        &&& mesh_index < old(self).meshes_spec().len()
                    }
                    &&& a matches FrameAction::Present(fc) ==> old(self).frame_commands_for(
                        pipeline_index,
                        mesh_index,
                        fc,
                    )
                    &&& !(pipeline_index < old(self).pipelines_spec().len()) ==> (a matches
                        FrameAction::Failed(e) && e == RenderError::PipelineOutOfRange)
                    &&& pipeline_index < old(self).pipelines_spec().len() && !(mesh_index
                        < old(self).meshes_spec().len()) ==> (a matches FrameAction::Failed(e) && e
                        == RenderError::MeshOutOfRange)
                },
                WindowEvent::Other => *final(self) == *old(self) && a is Continue,
            },
            old(self).wf() ==> final(self).wf(),
    {
        match event {
            WindowEvent::CloseRequested => FrameAction::Exit,
            WindowEvent::Resized { width, height } => {
                self.resize(width, height);
                FrameAction::Continue
            }
            WindowEvent::RedrawRequested => {
                self.update();
                match self.render(pipeline_index, mesh_index) {
                    Ok(fc) => FrameAction::Present(fc),
                    Err(e) => FrameAction::Failed(e),
                }
            }
            WindowEvent::Other => FrameAction::Continue,
        }
    }

    /// The current surface configuration.
    pub fn config(&self) -> (c: &SurfaceConfiguration)
        ensures
            c == self.config_spec(),
    {
        &self.config
    }

    /// The current window size.
    pub fn size(&self) -> (s: (u32, u32))
        ensures
            s == self.size_spec(),
    {
        (self.width, self.height)
    }

    /// The registered pipelines, in registration order.
    pub fn pipelines(&self) -> (v: &Vec<Pipeline>)
        ensures
            v@ == self.pipelines_spec(),
    {
        &self.pipelines
    }

    /// The registered textures, in registration order.
    pub fn textures(&self) -> (v: &Vec<Texture>)
        ensures
            v@ == self.textures_spec(),
    {
        &self.textures
    }

    /// The registered meshes, in registration order.
    pub fn meshes(&self) -> (v: &Vec<Mesh>)
        ensures
            v@ == self.meshes_spec(),
    {
        &self.meshes
    }
}

} // verus!
