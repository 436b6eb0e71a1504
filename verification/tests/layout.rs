use cgmath::{Matrix, Matrix3, Matrix4, SquareMatrix, Vector3};
use render_state::bind_group::{BindGroupEntry, BindingResource, BindingType, ShaderStages};
use render_state::camera::create_camera_bind_group_layout;
use render_state::light::{create_light_bind_group, create_light_bind_group_layout};
use render_state::texture::create_texture_bind_group_layout;
use render_state::model_matrix::{desc, mat4_to_mat3, MODEL_BYTES, NORMAL_BYTES, RECORD_BYTES};
use render_state::simple_pipeline::{
    bind_group_slot, create_bind_group_layout, create_light_pipeline, BindGroupKind, CompareFunction, DepthFormat, FrontFace,
    PipelineKind, PolygonMode, PrimitiveTopology, SimplePipeline, VertexStream,
};
use render_state::vertex::{vertex_attr_array, VertexAttribute, VertexFormat, VertexStepMode};

#[test]
fn format_sizes() {
    assert_eq!(VertexFormat::Float32x2.size(), 8);
    assert_eq!(VertexFormat::Float32x3.size(), 12);
    assert_eq!(VertexFormat::Float32x4.size(), 16);
}

#[test]
fn attributes_are_laid_out_back_to_back() {
    let attrs = vertex_attr_array(&vec![
        (0, VertexFormat::Float32x3),
        (1, VertexFormat::Float32x2),
        (2, VertexFormat::Float32x3),
    ]);
    assert_eq!(
        attrs,
        vec![
            VertexAttribute { format: VertexFormat::Float32x3, offset: 0, shader_location: 0 },
            VertexAttribute { format: VertexFormat::Float32x2, offset: 12, shader_location: 1 },
            VertexAttribute { format: VertexFormat::Float32x3, offset: 20, shader_location: 2 },
        ]
    );
    assert!(vertex_attr_array(&vec![]).is_empty());
}

#[test]
fn transform_record_layout() {
    let layout = desc();
    assert_eq!(layout.array_stride, 100);
    assert_eq!(RECORD_BYTES, MODEL_BYTES + NORMAL_BYTES);
    assert_eq!(layout.step_mode, VertexStepMode::Instance);
    let offsets: Vec<u64> = layout.attributes.iter().map(|a| a.offset).collect();
    assert_eq!(offsets, vec![0, 16, 32, 48, 64, 76, 88]);
    let locations: Vec<u32> = layout.attributes.iter().map(|a| a.shader_location).collect();
    assert_eq!(locations, vec![3, 4, 5, 6, 7, 8, 9]);
    for a in &layout.attributes[..4] {
        assert_eq!(a.format, VertexFormat::Float32x4);
    }
    for a in &layout.attributes[4..] {
        assert_eq!(a.format, VertexFormat::Float32x3);
    }
    let last = layout.attributes[6];
    assert_eq!(last.offset + last.format.size(), layout.array_stride);
}

#[test]
fn upper_left_block() {
    let m = [[1, 2, 3, 4], [5, 6, 7, 8], [9, 10, 11, 12], [13, 14, 15, 16]];
    assert_eq!(mat4_to_mat3(m), [[1, 2, 3], [5, 6, 7], [9, 10, 11]]);
}

#[test]
fn upper_left_block_of_a_float_transform() {
    let model = Matrix4::from_translation(Vector3::new(1.0f32, 2.0, 3.0))
        * Matrix4::from_nonuniform_scale(2.0, 4.0, 0.5);
    let columns: [[f32; 4]; 4] = model.into();
    let block = mat4_to_mat3(columns);
    assert_eq!(block, [[2.0, 0.0, 0.0], [0.0, 4.0, 0.0], [0.0, 0.0, 0.5]]);
    let normal = Matrix3::from(block).transpose().invert().unwrap();
    assert_eq!(normal.x.x, 0.5);
    assert_eq!(normal.y.y, 0.25);
    assert_eq!(normal.z.z, 2.0);
}

#[test]
fn object_pipeline_binds_texture_camera_light() {
    let p = SimplePipeline::new();
    assert_eq!(
        p.bind_group_layouts,
        vec![BindGroupKind::Texture, BindGroupKind::Camera, BindGroupKind::Light]
    );
    assert_eq!(p.vertex_buffers, vec![VertexStream::Geometry, VertexStream::InstanceTransform]);
    assert_eq!(bind_group_slot(PipelineKind::Object, BindGroupKind::Texture), Some(0));
    assert_eq!(bind_group_slot(PipelineKind::Object, BindGroupKind::Camera), Some(1));
    assert_eq!(bind_group_slot(PipelineKind::Object, BindGroupKind::Light), Some(2));
}

#[test]
fn light_pipeline_binds_camera_light_only() {
    let p = create_light_pipeline();
    assert_eq!(p.bind_group_layouts, vec![BindGroupKind::Camera, BindGroupKind::Light]);
    assert_eq!(p.vertex_buffers, vec![VertexStream::Geometry]);
    assert_eq!(bind_group_slot(PipelineKind::LightMarker, BindGroupKind::Texture), None);
    assert_eq!(bind_group_slot(PipelineKind::LightMarker, BindGroupKind::Camera), Some(0));
    assert_eq!(bind_group_slot(PipelineKind::LightMarker, BindGroupKind::Light), Some(1));
}

#[test]
fn pipelines_share_depth_and_rasterization() {
    let object = SimplePipeline::new();
    let light = create_light_pipeline();
    assert_eq!(object.primitive, light.primitive);
    assert_eq!(object.depth_stencil, light.depth_stencil);
    assert_eq!(object.primitive.topology, PrimitiveTopology::TriangleList);
    assert_eq!(object.primitive.front_face, FrontFace::Ccw);
    assert_eq!(object.primitive.cull_mode, None);
    assert_eq!(object.primitive.polygon_mode, PolygonMode::Fill);
    assert_eq!(object.depth_stencil.format, DepthFormat::Depth32Float);
    assert!(object.depth_stencil.depth_write_enabled);
    assert_eq!(object.depth_stencil.depth_compare, CompareFunction::Less);
    assert!(!object.depth_stencil.stencil);
}

#[test]
fn light_layout_is_one_uniform_for_both_stages() {
    let layout = create_light_bind_group_layout();
    assert_eq!(layout.len(), 1);
    assert_eq!(layout[0].binding, 0);
    assert_eq!(layout[0].visibility, ShaderStages { vertex: true, fragment: true });
    assert_eq!(layout[0].ty, BindingType::UniformBuffer);
    assert_eq!(layout, create_light_bind_group_layout());
    assert_eq!(
        create_light_bind_group(),
        vec![BindGroupEntry { binding: 0, resource: BindingResource::Buffer }]
    );
}

#[test]
fn each_kind_of_bind_group_has_its_layout() {
    assert_eq!(create_bind_group_layout(BindGroupKind::Texture), create_texture_bind_group_layout());
    assert_eq!(create_bind_group_layout(BindGroupKind::Camera), create_camera_bind_group_layout());
    assert_eq!(create_bind_group_layout(BindGroupKind::Light), create_light_bind_group_layout());
    for kind in SimplePipeline::new().bind_group_layouts {
        assert_eq!(create_bind_group_layout(kind), create_bind_group_layout(kind));
    }
}
