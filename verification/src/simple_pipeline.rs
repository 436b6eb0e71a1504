use vstd::prelude::*;
use crate::bind_group::BindGroupLayoutEntry;
use crate::camera::{camera_bind_group_layout, create_camera_bind_group_layout};
use crate::light::{create_light_bind_group_layout, light_bind_group_layout};
use crate::texture::{create_texture_bind_group_layout, texture_bind_group_layout};

verus! {

/// The two pipelines of the scene.
#[derive(Clone, Copy, Debug, PartialEq, Eq, Structural)]
pub enum PipelineKind {
    /// Lit, textured objects.
    Object,
    /// The emissive marker drawn at the light's position.
    LightMarker,
}

/// A set of resources that a pipeline binds as one group.
#[derive(Clone, Copy, Debug, PartialEq, Eq, Structural)]
pub enum BindGroupKind {
    Texture,
    Camera,
    Light,
}

/// A vertex stream that a pipeline consumes.
#[derive(Clone, Copy, Debug, PartialEq, Eq, Structural)]
pub enum VertexStream {
    /// Per-vertex geometry of a mesh.
    Geometry,
    /// Per-instance transform records.
    InstanceTransform,
}

#[derive(Clone, Copy, Debug, PartialEq, Eq, Structural)]
pub enum PrimitiveTopology {
    PointList,
    LineList,
    LineStrip,
    TriangleList,
    TriangleStrip,
}

#[derive(Clone, Copy, Debug, PartialEq, Eq, Structural)]
pub enum FrontFace {
    Ccw,
    Cw,
}

#[derive(Clone, Copy, Debug, PartialEq, Eq, Structural)]
pub enum Face {
    Front,
    Back,
}

#[derive(Clone, Copy, Debug, PartialEq, Eq, Structural)]
pub enum PolygonMode {
    Fill,
    Line,
    Point,
}

#[derive(Clone, Copy, Debug, PartialEq, Eq, Structural)]
pub enum CompareFunction {
    Never,
    Less,
    Equal,
    LessEqual,
    Greater,
    NotEqual,
    GreaterEqual,
    Always,
}

#[derive(Clone, Copy, Debug, PartialEq, Eq, Structural)]
pub enum DepthFormat {
    Depth16Unorm,
    Depth24Plus,
    Depth32Float,
}

/// How triangles are assembled and rasterized.
#[derive(Clone, Copy, Debug, PartialEq, Eq, Structural)]
pub struct PrimitiveState {
    pub topology: PrimitiveTopology,
    pub front_face: FrontFace,
    pub cull_mode: Option<Face>,
    pub polygon_mode: PolygonMode,
    pub unclipped_depth: bool,
    pub conservative: bool,
}

/// How fragments are tested against and written to the depth attachment.
#[derive(Clone, Copy, Debug, PartialEq, Eq, Structural)]
pub struct DepthStencilState {
    pub format: DepthFormat,
    pub depth_write_enabled: bool,
    pub depth_compare: CompareFunction,
    pub stencil: bool,
}

/// The configuration of one render pipeline.
#[derive(Clone, Debug)]
pub struct SimplePipeline {
    /// The bind groups, in slot order.
    pub bind_group_layouts: Vec<BindGroupKind>,
    /// The vertex streams, in slot order.
    pub vertex_buffers: Vec<VertexStream>,
    pub primitive: PrimitiveState,
    pub depth_stencil: DepthStencilState,
}

/// Triangle lists, counter-clockwise front faces, no culling.
pub open spec fn scene_primitive() -> PrimitiveState {
    PrimitiveState {
        topology: PrimitiveTopology::TriangleList,
        front_face: FrontFace::Ccw,
        cull_mode: None,
        polygon_mode: PolygonMode::Fill,
        unclipped_depth: false,
        conservative: false,
    }
}

/// 32-bit float depth, written, nearer fragments win, no stencil.
pub open spec fn scene_depth_stencil() -> DepthStencilState {
    DepthStencilState {
        format: DepthFormat::Depth32Float,
        depth_write_enabled: true,
        depth_compare: CompareFunction::Less,
        stencil: false,
    }
}

/// The bind groups of a pipeline, in slot order.
pub open spec fn bind_groups_of(kind: PipelineKind) -> Seq<BindGroupKind> {
    match kind {
        PipelineKind::Object => seq![
            BindGroupKind::Texture,
            BindGroupKind::Camera,
            BindGroupKind::Light,
        ],
        PipelineKind::LightMarker => seq![BindGroupKind::Camera, BindGroupKind::Light],
    }
}

/// The vertex streams of a pipeline, in slot order.
pub open spec fn vertex_streams_of(kind: PipelineKind) -> Seq<VertexStream> {
    match kind {
        PipelineKind::Object => seq![VertexStream::Geometry, VertexStream::InstanceTransform],
        PipelineKind::LightMarker => seq![VertexStream::Geometry],
    }
}

fn primitive_state() -> (p: PrimitiveState)
    ensures
        p == scene_primitive(),
{
    PrimitiveState {
        topology: PrimitiveTopology::TriangleList,
        front_face: FrontFace::Ccw,
        cull_mode: None,
        polygon_mode: PolygonMode::Fill,
        unclipped_depth: false,
        conservative: false,
    }
}

fn depth_stencil_state() -> (d: DepthStencilState)
    ensures
        d == scene_depth_stencil(),
{
    DepthStencilState {
        format: DepthFormat::Depth32Float,
        depth_write_enabled: true,
        depth_compare: CompareFunction::Less,
        stencil: false,
    }
}

impl SimplePipeline {
    /// Whether this is the configuration of the pipeline `kind`.
    pub open spec fn is_pipeline(&self, kind: PipelineKind) -> bool {
        &&& self.bind_group_layouts@ == bind_groups_of(kind)
        &&& self.vertex_buffers@ == vertex_streams_of(kind)
        &&& self.primitive == scene_primitive()
        &&& self.depth_stencil == scene_depth_stencil()
    }

    /// The object pipeline: texture, camera and light bind groups, in that
    /// order; per-vertex geometry in stream 0 and per-instance transforms in
    /// stream 1.
    pub fn new() -> (p: SimplePipeline)
        ensures
            p.is_pipeline(PipelineKind::Object),
    {
        let mut bind_group_layouts: Vec<BindGroupKind> = Vec::new();
        bind_group_layouts.push(BindGroupKind::Texture);
        bind_group_layouts.push(BindGroupKind::Camera);
        bind_group_layouts.push(BindGroupKind::Light);
        let mut vertex_buffers: Vec<VertexStream> = Vec::new();
        vertex_buffers.push(VertexStream::Geometry);
        vertex_buffers.push(VertexStream::InstanceTransform);
        assert(bind_group_layouts@ =~= bind_groups_of(PipelineKind::Object));
        assert(vertex_buffers@ =~= vertex_streams_of(PipelineKind::Object));
        SimplePipeline {
            bind_group_layouts,
            vertex_buffers,
            primitive: primitive_state(),
            depth_stencil: depth_stencil_state(),
        }
    }
}

/// The light-marker pipeline: camera and light bind groups only, and
/// per-vertex geometry only.
pub fn create_light_pipeline() -> (p: SimplePipeline)
    ensures
        p.is_pipeline(PipelineKind::LightMarker),
{
    let mut bind_group_layouts: Vec<BindGroupKind> = Vec::new();
    bind_group_layouts.push(BindGroupKind::Camera);
    bind_group_layouts.push(BindGroupKind::Light);
    let mut vertex_buffers: Vec<VertexStream> = Vec::new();
    vertex_buffers.push(VertexStream::Geometry);
    assert(bind_group_layouts@ =~= bind_groups_of(PipelineKind::LightMarker));
    assert(vertex_buffers@ =~= vertex_streams_of(PipelineKind::LightMarker));
    SimplePipeline {
        bind_group_layouts,
        vertex_buffers,
        primitive: primitive_state(),
        depth_stencil: depth_stencil_state(),
    }
}

/// The layout of a kind of bind group.
pub open spec fn layout_of(kind: BindGroupKind) -> Seq<BindGroupLayoutEntry> {
    match kind {
        BindGroupKind::Texture => texture_bind_group_layout(),
        BindGroupKind::Camera => camera_bind_group_layout(),
        BindGroupKind::Light => light_bind_group_layout(),
    }
}

/// The layout of a kind of bind group. Every call gives the same layout, so
/// a layout built for a pipeline and one built for a bind group agree.
pub fn create_bind_group_layout(kind: BindGroupKind) -> (entries: Vec<BindGroupLayoutEntry>)
    ensures
        entries@ == layout_of(kind),
{
    match kind {
        BindGroupKind::Texture => create_texture_bind_group_layout(),
        BindGroupKind::Camera => create_camera_bind_group_layout(),
        BindGroupKind::Light => create_light_bind_group_layout(),
    }
}

/// The slot at which a pipeline binds a group, if it binds it at all.
pub fn bind_group_slot(pipeline: PipelineKind, group: BindGroupKind) -> (slot: Option<u32>)
    ensures
        match slot {
            Some(i) => i < bind_groups_of(pipeline).len() && bind_groups_of(pipeline)[i as int]
                == group,
            None => !bind_groups_of(pipeline).contains(group),
        },
{
    match (pipeline, group) {
        (PipelineKind::Object, BindGroupKind::Texture) => Some(0),
        (PipelineKind::Object, BindGroupKind::Camera) => Some(1),
        (PipelineKind::Object, BindGroupKind::Light) => Some(2),
        (PipelineKind::LightMarker, BindGroupKind::Texture) => None,
        (PipelineKind::LightMarker, BindGroupKind::Camera) => Some(0),
        (PipelineKind::LightMarker, BindGroupKind::Light) => Some(1),
    }
}

/// The two pipelines share their rasterization and depth state and differ in
/// what they bind: the light marker binds no texture and reads no
/// per-instance stream.
pub proof fn lemma_pipelines_share_fixed_state(object: SimplePipeline, light: SimplePipeline)
    requires
        object.is_pipeline(PipelineKind::Object),
        light.is_pipeline(PipelineKind::LightMarker),
    ensures
        object.primitive == light.primitive,
        object.depth_stencil == light.depth_stencil,
        object.bind_group_layouts@ == seq![BindGroupKind::Texture] + light.bind_group_layouts@,
        object.vertex_buffers@ == light.vertex_buffers@ + seq![VertexStream::InstanceTransform],
        !light.bind_group_layouts@.contains(BindGroupKind::Texture),
        !light.vertex_buffers@.contains(VertexStream::InstanceTransform),
{
    assert(object.bind_group_layouts@ =~= seq![BindGroupKind::Texture] + light.bind_group_layouts@);
    assert(object.vertex_buffers@ =~= light.vertex_buffers@ + seq![VertexStream::InstanceTransform]);
}

} // verus!
