//! Shared definitions of one table.

use sgfx_core::ir::{
    BlendState, CullMode, FrontFace, PrimitiveTopology, RasterState, VertexAttribute,
    VertexBufferLayout, VertexFormat, BindGroupDesc, BindGroupEntry, BindGroupLayoutDesc,
    BindGroupLayoutEntry, BindingResource, BindingType, PipelineLayoutDesc,
    ProgrammableRenderPipelineDesc, ShaderEntryPoint, BufferDesc, BufferUsage, TextureFormat,
    ShaderModuleDesc, ShaderStage, ShaderStages, ResourceTable, Error,
};
use std::rc::Rc;

#[test]
fn shared_bindings_retain_identity_across_table_growth_and_validate_owners() {
    let mut table = ResourceTable::new();
    let foreign = ResourceTable::new();
    let buffer = table
        .define_buffer(BufferDesc::new(16, BufferUsage::uniform()).unwrap())
        .unwrap()
        .id();
    let layout = BindGroupLayoutDesc::new(vec![BindGroupLayoutEntry::new(
        0,
        ShaderStages::vertex(),
        BindingType::UniformBuffer,
    )])
    .unwrap();
    let desc = BindGroupDesc::new(
        &table,
        layout,
        vec![BindGroupEntry::new(
            0,
            BindingResource::Buffer {
                buffer,
                offset: 0,
                size: 16,
            },
        )],
    )
    .unwrap();
    let reference = table.define_bind_group(desc.clone()).unwrap();
    let shared = table.bind_group_shared(reference).unwrap();
    for _ in 0..32 {
        table.define_bind_group(desc.clone()).unwrap();
        assert!(Rc::ptr_eq(
            &shared,
            &table.bind_group_shared(reference).unwrap()
        ));
    }
    let copied = table.bind_group(reference).unwrap();
    assert_eq!(*shared, copied);
    assert_ne!(shared.entries().as_ptr(), copied.entries().as_ptr());
    assert_eq!(
        foreign.bind_group_shared(reference).unwrap_err(),
        Error::ResourceTableMismatch
    );
    assert_eq!(
        foreign.bind_group(reference).unwrap_err(),
        Error::ResourceTableMismatch
    );
}

#[test]
fn shared_pipelines_preserve_copying_getter_and_survive_new_definitions() {
    let mut table = ResourceTable::new();
    let foreign = ResourceTable::new();
    let shader = table
        .define_shader_module(
            ShaderModuleDesc::wgsl(
                "@vertex fn vs() -> @builtin(position) vec4<f32> { return vec4<f32>(0.0); }
                 @fragment fn fs() -> @location(0) vec4<f32> { return vec4<f32>(1.0); }"
                    .into(),
            )
            .unwrap(),
        )
        .unwrap();
    let desc = ProgrammableRenderPipelineDesc::new(
        ShaderEntryPoint::new(&table, shader, ShaderStage::Vertex, "vs".into()).unwrap(),
        ShaderEntryPoint::new(&table, shader, ShaderStage::Fragment, "fs".into()).unwrap(),
        PipelineLayoutDesc::new(vec![]).unwrap(),
        TextureFormat::Rgba8Unorm,
        Some(
            VertexBufferLayout::new(
                8,
                vec![VertexAttribute::new(0, VertexFormat::Float32x2, 0)],
            )
            .unwrap(),
        ),
        PrimitiveTopology::TriangleList,
        BlendState::replace(),
        RasterState::new(CullMode::Disabled, FrontFace::CounterClockwise),
    )
    .unwrap();
    let reference = table
        .define_programmable_render_pipeline(desc.clone())
        .unwrap();
    let shared = table
        .programmable_render_pipeline_shared(reference)
        .unwrap();
    for _ in 0..32 {
        table
            .define_programmable_render_pipeline(desc.clone())
            .unwrap();
        assert!(Rc::ptr_eq(
            &shared,
            &table
                .programmable_render_pipeline_shared(reference)
                .unwrap()
        ));
    }
    let copied = table.programmable_render_pipeline(reference).unwrap();
    assert_eq!(*shared, copied);
    assert_ne!(
        shared.vertex_buffer().unwrap().attributes().as_ptr(),
        copied.vertex_buffer().unwrap().attributes().as_ptr()
    );
    assert_eq!(
        foreign
            .programmable_render_pipeline_shared(reference)
            .unwrap_err(),
        Error::ResourceTableMismatch
    );
    assert_eq!(
        foreign.programmable_render_pipeline(reference).unwrap_err(),
        Error::ResourceTableMismatch
    );
}
