//! Lowering of command buffers to plans of plain device work.

use sgfx_core::driver::{
    HandleError, IrAddressMode, IrFilterMode, IrFragmentProgram, IrRect, IrTextureFormat,
    MAX_IR_VERTICES,
};
use sgfx_core::ir::{
    AddressMode, BlendState, BufferDesc, BufferRef, BufferUsage, Color, CommandBuffer,
    CommandEncoder, CompareFunction, CullMode, DepthLoadOp, DepthState, DrawUniforms, Error, Extent2D, FilterMode, FragmentProgram,
    FrontFace, IndexFormat, LoadOp, PixelRect, PrimitiveTopology, RasterState, RenderPassDesc,
    RenderPassEncoder, RenderPipelineDesc, RenderPipelineRef, ResourceTable, SamplerDesc,
    SamplerRef, StoreOp, TextureDesc, TextureFormat, TextureRef, TextureSampleMode, TextureUsage,
    TextureWrite, Transform, VertexAttribute, VertexBufferLayout, VertexFormat,
};
use sgfx_core::ir_execute::plan::submit_ir;
use sgfx_core::ir_execute::{
    ExecutionEvent, ExecutionPlan, ExecutionTarget, Image, IrResources, IrSubmitError,
    UnsupportedIrFeature,
};

const CONTEXT: i32 = 5;

struct Scene {
    table: ResourceTable,
    target: TextureRef,
    offscreen: TextureRef,
    texture: TextureRef,
    coverage: TextureRef,
    sampler: SamplerRef,
    vertices: BufferRef,
    indices: BufferRef,
    solid: RenderPipelineRef,
    colored: RenderPipelineRef,
    textured: RenderPipelineRef,
}

fn raster() -> RasterState {
    RasterState::new(CullMode::Back, FrontFace::Clockwise)
}

fn pipeline(
    table: &mut ResourceTable,
    stride: u32,
    attributes: Vec<VertexAttribute>,
    fragment: FragmentProgram,
) -> RenderPipelineRef {
    table
        .define_render_pipeline(
            RenderPipelineDesc::new(
                TextureFormat::Bgra8Unorm,
                PrimitiveTopology::TriangleList,
                VertexBufferLayout::new(stride, attributes).unwrap(),
                fragment,
                BlendState::replace(),
                raster(),
            )
            .unwrap(),
        )
        .unwrap()
}

fn texture(table: &mut ResourceTable, format: TextureFormat, usage: TextureUsage) -> TextureRef {
    table
        .define_texture(TextureDesc::new(format, Extent2D::new(8, 8).unwrap(), usage).unwrap())
        .unwrap()
}

fn scene() -> Scene {
    let mut table = ResourceTable::new();
    let target = texture(
        &mut table,
        TextureFormat::Bgra8Unorm,
        TextureUsage::render_attachment().union(TextureUsage::present()),
    );
    let offscreen = texture(
        &mut table,
        TextureFormat::Bgra8Unorm,
        TextureUsage::render_attachment()
            .union(TextureUsage::sampled())
            .union(TextureUsage::copy_src())
            .union(TextureUsage::copy_dst()),
    );
    let sampled = texture(
        &mut table,
        TextureFormat::Rgba8Unorm,
        TextureUsage::sampled().union(TextureUsage::copy_dst()),
    );
    let coverage = texture(
        &mut table,
        TextureFormat::R8Unorm,
        TextureUsage::sampled().union(TextureUsage::copy_dst()),
    );
    let sampler = table
        .define_sampler(SamplerDesc::new(
            FilterMode::Nearest,
            FilterMode::Linear,
            AddressMode::ClampToEdge,
            AddressMode::Repeat,
        ))
        .unwrap();
    let vertices = table
        .define_buffer(
            BufferDesc::new(4096, BufferUsage::vertex().union(BufferUsage::copy_dst())).unwrap(),
        )
        .unwrap();
    let indices = table
        .define_buffer(
            BufferDesc::new(64, BufferUsage::index().union(BufferUsage::copy_dst())).unwrap(),
        )
        .unwrap();
    let solid = pipeline(
        &mut table,
        8,
        vec![VertexAttribute::new(0, VertexFormat::Float32x2, 0)],
        FragmentProgram::Solid,
    );
    let colored = pipeline(
        &mut table,
        16,
        vec![
            VertexAttribute::new(0, VertexFormat::Float32x3, 0),
            VertexAttribute::new(1, VertexFormat::Unorm8x4, 12),
        ],
        FragmentProgram::VertexColor,
    );
    let textured = pipeline(
        &mut table,
        16,
        vec![
            VertexAttribute::new(0, VertexFormat::Float32x2, 0),
            VertexAttribute::new(1, VertexFormat::Float32x2, 8),
        ],
        FragmentProgram::Texture(TextureSampleMode::Rgba),
    );
    Scene {
        table,
        target,
        offscreen,
        texture: sampled,
        coverage,
        sampler,
        vertices,
        indices,
        solid,
        colored,
        textured,
    }
}

fn floats(values: &[f32]) -> Vec<u8> {
    let mut bytes = Vec::new();
    for value in values {
        bytes.extend_from_slice(&value.to_le_bytes());
    }
    bytes
}

fn bits(values: [f32; 4]) -> [u32; 4] {
    [
        values[0].to_bits(),
        values[1].to_bits(),
        values[2].to_bits(),
        values[3].to_bits(),
    ]
}

fn color(values: [f32; 4]) -> Color {
    let values = bits(values);
    Color::rgba(values[0], values[1], values[2], values[3]).unwrap()
}

fn uniforms() -> DrawUniforms {
    DrawUniforms::new(Transform::identity(), color([1.0, 0.5, 0.25, 1.0]))
}

fn full() -> PixelRect {
    PixelRect::new(0, 0, 8, 8).unwrap()
}

fn image(resource_id: u32) -> Image {
    Image {
        resource_id,
        context_id: CONTEXT,
        width: 8,
        height: 8,
    }
}

fn mapped(scene: &Scene) -> IrResources {
    let mut resources = IrResources::new(&scene.table, CONTEXT).unwrap();
    resources
        .map_image(&scene.table, scene.target.id(), image(7))
        .unwrap();
    resources
}

fn begin<'encoder, 'r, 'data>(
    encoder: &'encoder mut CommandEncoder<'r, 'data>,
    scene: &'r Scene,
    target: TextureRef,
    load: LoadOp,
) -> RenderPassEncoder<'encoder, 'r, 'data> {
    let desc =
        RenderPassDesc::new(&scene.table, target, full(), load, StoreOp::Store).unwrap();
    encoder.begin_render_pass(desc).unwrap()
}

fn plan(
    resources: &IrResources,
    commands: &CommandBuffer<'_, '_>,
) -> Result<ExecutionPlan, IrSubmitError> {
    submit_ir(CONTEXT, CONTEXT, resources, commands)
}

fn failure(resources: &IrResources, commands: &CommandBuffer<'_, '_>) -> IrSubmitError {
    match plan(resources, commands) {
        Ok(_) => panic!("expected a failure"),
        Err(error) => error,
    }
}

#[test]
fn draws_are_decoded_in_order() {
    let scene = scene();
    let resources = mapped(&scene);
    let data = floats(&[0.0, 0.5, 1.0, -1.0, 0.25, 2.0, 3.0, 4.0]);
    let part = PixelRect::new(1, 2, 3, 4).unwrap();
    let mut encoder = CommandEncoder::new(&scene.table);
    encoder.write_buffer(scene.vertices, 8, &data).unwrap();
    let mut pass = begin(
        &mut encoder,
        &scene,
        scene.target,
        LoadOp::Clear(color([0.0, 0.0, 0.0, 1.0])),
    );
    pass.set_pipeline(scene.solid).unwrap();
    pass.set_vertex_buffer(scene.vertices, 8).unwrap();
    pass.set_uniforms(uniforms()).unwrap();
    pass.draw(3, 0).unwrap();
    pass.set_scissor(Some(part)).unwrap();
    pass.draw(3, 1).unwrap();
    pass.end().unwrap();
    let commands = encoder.finish().unwrap();

    let plan = plan(&resources, &commands).unwrap();
    assert_eq!(plan.events.len(), 1);
    match &plan.events[0] {
        ExecutionEvent::Pass(pass) => {
            assert_eq!(pass.target, ExecutionTarget::Mapped(image(7)));
            let submission = &pass.submission;
            assert_eq!(submission.clear_color, Some(bits([0.0, 0.0, 0.0, 1.0])));
            assert_eq!(submission.vertices.len(), 6);
            assert_eq!(submission.vertices[0].position, bits([0.0, 0.5, 0.0, 1.0]));
            assert_eq!(submission.vertices[3].position, bits([1.0, -1.0, 0.0, 1.0]));
            assert_eq!(submission.vertices[5].position, bits([3.0, 4.0, 0.0, 1.0]));
            assert_eq!(submission.draws.len(), 2);
            let first = &submission.draws[0];
            assert_eq!((first.start_vertex, first.vertex_count), (0, 3));
            assert_eq!(first.pipeline.fragment, IrFragmentProgram::Solid);
            assert_eq!(first.uniforms.color, bits([1.0, 0.5, 0.25, 1.0]));
            assert_eq!(
                first.scissor,
                IrRect {
                    x: 0,
                    y: 0,
                    width: 8,
                    height: 8
                }
            );
            let second = &submission.draws[1];
            assert_eq!((second.start_vertex, second.vertex_count), (3, 3));
            assert_eq!(
                second.scissor,
                IrRect {
                    x: 1,
                    y: 2,
                    width: 3,
                    height: 4
                }
            );
        }
        _ => panic!("expected a pass"),
    }
    assert_eq!(plan.buffer_updates.len(), 1);
    assert_eq!(plan.buffer_updates[0].bytes.len(), 40);
    assert_eq!(plan.buffer_updates[0].bytes[..8], [0u8; 8]);
    assert_eq!(plan.buffer_updates[0].bytes[8..], data[..]);
}

#[test]
fn committed_buffers_are_read_by_later_plans() {
    let scene = scene();
    let mut resources = mapped(&scene);
    let data = floats(&[0.0, 0.0, 1.0, 0.0, 0.0, 1.0]);
    let index_data = [2u8, 0, 1, 0, 0, 0];
    let mut encoder = CommandEncoder::new(&scene.table);
    encoder.write_buffer(scene.vertices, 0, &data).unwrap();
    encoder.write_buffer(scene.indices, 0, &index_data).unwrap();
    let mut pass = begin(&mut encoder, &scene, scene.target, LoadOp::Load);
    pass.set_pipeline(scene.solid).unwrap();
    pass.set_vertex_buffer(scene.vertices, 0).unwrap();
    pass.set_uniforms(uniforms()).unwrap();
    pass.draw(3, 0).unwrap();
    pass.end().unwrap();
    let first = encoder.finish().unwrap();

    let mut encoder = CommandEncoder::new(&scene.table);
    let mut pass = begin(&mut encoder, &scene, scene.target, LoadOp::Load);
    pass.set_pipeline(scene.solid).unwrap();
    pass.set_vertex_buffer(scene.vertices, 0).unwrap();
    pass.set_index_buffer(scene.indices, 0, IndexFormat::Uint16)
        .unwrap();
    pass.set_uniforms(uniforms()).unwrap();
    pass.draw_indexed(3, 0, 0).unwrap();
    pass.end().unwrap();
    let second = encoder.finish().unwrap();

    assert_eq!(
        failure(&resources, &second),
        IrSubmitError::InvalidVertexData
    );
    let planned = plan(&resources, &first).unwrap();
    resources.commit_buffer_updates(planned.buffer_updates);
    assert_eq!(resources.shadow(0), Some(&data[..]));
    assert_eq!(resources.shadow(1), Some(&index_data[..]));
    assert_eq!(resources.shadow(2), None);
    match &plan(&resources, &second).unwrap().events[0] {
        ExecutionEvent::Pass(pass) => {
            let vertices = &pass.submission.vertices;
            assert_eq!(vertices[0].position, bits([0.0, 1.0, 0.0, 1.0]));
            assert_eq!(vertices[1].position, bits([1.0, 0.0, 0.0, 1.0]));
            assert_eq!(vertices[2].position, bits([0.0, 0.0, 0.0, 1.0]));
        }
        _ => panic!("expected a pass"),
    }
}

#[test]
fn colors_are_normalized_and_textures_bound() {
    let scene = scene();
    let resources = mapped(&scene);
    let mut data = floats(&[0.0, 0.0, 0.5]);
    data.extend_from_slice(&[0, 51, 128, 63]);
    data.extend_from_slice(&floats(&[1.0, 0.0, 0.5]));
    data.extend_from_slice(&[255, 255, 255, 0]);
    data.extend_from_slice(&floats(&[0.0, 1.0, 0.5]));
    data.extend_from_slice(&[1, 2, 3, 4]);
    let mut encoder = CommandEncoder::new(&scene.table);
    encoder.write_buffer(scene.vertices, 0, &data).unwrap();
    let mut pass = begin(&mut encoder, &scene, scene.offscreen, LoadOp::DontCare);
    pass.set_pipeline(scene.colored).unwrap();
    pass.set_vertex_buffer(scene.vertices, 0).unwrap();
    pass.set_uniforms(uniforms()).unwrap();
    pass.draw(3, 0).unwrap();
    pass.set_pipeline(scene.textured).unwrap();
    pass.set_texture(scene.texture).unwrap();
    pass.set_sampler(scene.sampler).unwrap();
    pass.draw(3, 0).unwrap();
    pass.end().unwrap();
    let commands = encoder.finish().unwrap();
    match &plan(&resources, &commands).unwrap().events[0] {
        ExecutionEvent::Pass(pass) => {
            assert!(matches!(pass.target, ExecutionTarget::Internal(spec)
                if spec.slot == 1 && spec.width == 8 && spec.format == IrTextureFormat::Bgra8));
            let submission = &pass.submission;
            assert_eq!(submission.clear_color, None);
            let secondary = submission.vertices[0].secondary;
            assert_eq!(
                secondary,
                bits([0.0, 51.0 / 255.0, 128.0 / 255.0, 63.0 / 255.0])
            );
            assert_eq!(
                submission.vertices[1].secondary,
                bits([1.0, 1.0, 1.0, 0.0])
            );
            assert_eq!(
                submission.vertices[2].secondary,
                bits([1.0 / 255.0, 2.0 / 255.0, 3.0 / 255.0, 4.0 / 255.0])
            );
            let draw = &submission.draws[1];
            assert_eq!(draw.pipeline.fragment, IrFragmentProgram::TextureRgba);
            assert_eq!(draw.texture.unwrap().slot, 2);
            assert_eq!(draw.sampler.unwrap().slot, 0);
            assert!(submission.draws[0].texture.is_none());
        }
        _ => panic!("expected a pass"),
    }
}

#[test]
fn uploads_become_tight_bgra_rows() {
    let scene = scene();
    let resources = mapped(&scene);
    let rgba = [1u8, 2, 3, 4, 5, 6, 7, 8, 99, 99, 9, 10, 11, 12, 13, 14, 15, 16];
    let coverage = [1u8, 2, 99, 3, 4];
    let corner = PixelRect::new(6, 6, 2, 2).unwrap();
    let mut encoder = CommandEncoder::new(&scene.table);
    encoder
        .write_texture(scene.texture, TextureWrite::new(corner, 10, &rgba).unwrap())
        .unwrap();
    encoder
        .write_texture(scene.coverage, TextureWrite::new(corner, 3, &coverage).unwrap())
        .unwrap();
    encoder
        .copy_texture_to_texture(
            scene.offscreen,
            PixelRect::new(0, 0, 4, 4).unwrap(),
            scene.offscreen,
            PixelRect::new(4, 4, 4, 4).unwrap(),
        )
        .unwrap();
    let commands = encoder.finish().unwrap();
    let plan = plan(&resources, &commands).unwrap();
    assert_eq!(plan.events.len(), 3);
    match &plan.events[0] {
        ExecutionEvent::Upload(spec, upload) => {
            assert_eq!(spec.slot, 2);
            assert_eq!(
                upload.pixels,
                [3, 2, 1, 4, 7, 6, 5, 8, 11, 10, 9, 12, 15, 14, 13, 16]
            );
            assert_eq!((upload.destination.x, upload.destination.y), (6, 6));
        }
        _ => panic!("expected an upload"),
    }
    match &plan.events[1] {
        ExecutionEvent::Upload(_, upload) => assert_eq!(
            upload.pixels,
            [0, 0, 0, 1, 0, 0, 0, 2, 0, 0, 0, 3, 0, 0, 0, 4]
        ),
        _ => panic!("expected an upload"),
    }
    assert!(matches!(&plan.events[2], ExecutionEvent::Copy(copy)
        if copy.source_rect.x == 0 && copy.destination_rect.x == 4));
}

#[test]
fn sequences_that_do_nothing_or_come_late_are_refused() {
    let scene = scene();
    let resources = mapped(&scene);
    let sequence = IrSubmitError::Unsupported(UnsupportedIrFeature::CommandSequence);
    let data = floats(&[0.0, 0.0, 1.0, 0.0, 0.0, 1.0]);

    let encoder = CommandEncoder::new(&scene.table);
    let empty = encoder.finish().unwrap();
    assert_eq!(failure(&resources, &empty), sequence);

    let mut encoder = CommandEncoder::new(&scene.table);
    begin(&mut encoder, &scene, scene.target, LoadOp::Load)
        .end()
        .unwrap();
    let drawless = encoder.finish().unwrap();
    assert_eq!(failure(&resources, &drawless), sequence);

    let mut encoder = CommandEncoder::new(&scene.table);
    encoder.write_buffer(scene.vertices, 0, &data).unwrap();
    let mut pass = begin(&mut encoder, &scene, scene.target, LoadOp::Load);
    pass.set_pipeline(scene.solid).unwrap();
    pass.set_vertex_buffer(scene.vertices, 0).unwrap();
    pass.set_uniforms(uniforms()).unwrap();
    pass.draw(3, 0).unwrap();
    pass.end().unwrap();
    encoder.write_buffer(scene.vertices, 0, &data).unwrap();
    let late = encoder.finish().unwrap();
    assert_eq!(failure(&resources, &late), sequence);
}

#[test]
fn malformed_vertices_are_refused() {
    let scene = scene();
    let resources = mapped(&scene);
    let good = floats(&[0.0, 0.0, 1.0, 0.0, 0.0, 1.0]);
    let infinite = floats(&[0.0, 0.0, 1.0, f32::INFINITY, 0.0, 1.0]);
    let cases: [(&[u8], IndexFormat, [u8; 12], i32); 4] = [
        (&infinite, IndexFormat::Uint16, [0, 0, 1, 0, 2, 0, 0, 0, 0, 0, 0, 0], 0),
        (&good, IndexFormat::Uint16, [0, 0, 1, 0, 3, 0, 0, 0, 0, 0, 0, 0], 0),
        (&good, IndexFormat::Uint16, [0, 0, 1, 0, 2, 0, 0, 0, 0, 0, 0, 0], -1),
        (&good, IndexFormat::Uint32, [0, 0, 0, 0, 1, 0, 0, 0, 0, 0, 1, 0], 0),
    ];
    for (vertices, format, indices, base) in cases {
        let mut encoder = CommandEncoder::new(&scene.table);
        encoder.write_buffer(scene.vertices, 0, vertices).unwrap();
        encoder.write_buffer(scene.indices, 0, &indices).unwrap();
        let mut pass = begin(&mut encoder, &scene, scene.target, LoadOp::Load);
        pass.set_pipeline(scene.solid).unwrap();
        pass.set_vertex_buffer(scene.vertices, 0).unwrap();
        pass.set_index_buffer(scene.indices, 0, format).unwrap();
        pass.set_uniforms(uniforms()).unwrap();
        pass.draw_indexed(3, 0, base).unwrap();
        pass.end().unwrap();
        let commands = encoder.finish().unwrap();
        assert_eq!(
            failure(&resources, &commands),
            IrSubmitError::InvalidVertexData
        );
    }
}

#[test]
fn vertices_of_a_pass_are_bounded() {
    let scene = scene();
    let resources = mapped(&scene);
    let data = vec![0u8; 4080];
    for (draws, accepted) in [(3, true), (4, false)] {
        let mut encoder = CommandEncoder::new(&scene.table);
        encoder.write_buffer(scene.vertices, 0, &data).unwrap();
        let mut pass = begin(&mut encoder, &scene, scene.target, LoadOp::Load);
        pass.set_pipeline(scene.solid).unwrap();
        pass.set_vertex_buffer(scene.vertices, 0).unwrap();
        pass.set_uniforms(uniforms()).unwrap();
        for _ in 0..draws {
            pass.draw(510, 0).unwrap();
        }
        pass.end().unwrap();
        let commands = encoder.finish().unwrap();
        match plan(&resources, &commands) {
            Ok(plan) => {
                assert!(accepted);
                assert!(matches!(&plan.events[0], ExecutionEvent::Pass(pass)
                    if pass.submission.vertices.len() <= MAX_IR_VERTICES));
            }
            Err(error) => {
                assert!(!accepted);
                assert_eq!(
                    error,
                    IrSubmitError::Unsupported(UnsupportedIrFeature::CommandStream)
                );
            }
        }
    }
}

#[test]
fn mappings_and_owners_are_checked() {
    let mut scene = scene();
    let second = texture(
        &mut scene.table,
        TextureFormat::Bgra8Unorm,
        TextureUsage::render_attachment().union(TextureUsage::present()),
    );
    let mut resources = mapped(&scene);
    let table = &scene.table;
    assert_eq!(
        resources.map_image(table, scene.target.id(), image(8)),
        Err(IrSubmitError::TextureAlreadyMapped)
    );
    assert_eq!(
        resources.map_image(table, second.id(), image(7)),
        Err(IrSubmitError::ImageAlreadyMapped)
    );
    assert_eq!(
        resources.map_image(table, scene.texture.id(), image(8)),
        Err(IrSubmitError::Unsupported(UnsupportedIrFeature::TargetFormat))
    );
    assert_eq!(
        resources.map_image(table, scene.offscreen.id(), image(8)),
        Err(IrSubmitError::Unsupported(UnsupportedIrFeature::TargetUsage))
    );
    let mut narrow = image(8);
    narrow.width = 4;
    assert_eq!(
        resources.map_image(table, second.id(), narrow),
        Err(IrSubmitError::TargetExtentMismatch)
    );
    let mut elsewhere = image(8);
    elsewhere.context_id = 6;
    assert_eq!(
        resources.map_image(table, second.id(), elsewhere),
        Err(IrSubmitError::ContextMismatch)
    );
    let other = ResourceTable::new();
    assert_eq!(
        resources.map_image(&other, second.id(), image(8)),
        Err(IrSubmitError::ResourceTableMismatch)
    );
    assert_eq!(resources.image_of(scene.target.id()), Some(image(7)));
    assert_eq!(resources.image_of(second.id()), None);
    assert!(!resources.images()[0].backend_registered);
    resources.mark_registered(0);
    assert!(resources.images()[0].backend_registered);

    let mut encoder = CommandEncoder::new(table);
    let mut pass = begin(&mut encoder, &scene, second, LoadOp::Load);
    pass.set_uniforms(uniforms()).unwrap();
    pass.end().unwrap();
    let commands = encoder.finish().unwrap();
    assert_eq!(failure(&resources, &commands), IrSubmitError::ImageNotMapped);
    assert!(matches!(
        submit_ir(6, CONTEXT, &resources, &commands),
        Err(IrSubmitError::ContextMismatch)
    ));
    let foreign = IrResources::new(&other, CONTEXT).unwrap();
    assert_eq!(
        failure(&foreign, &commands),
        IrSubmitError::ResourceTableMismatch
    );
}

#[test]
fn failures_keep_their_reason() {
    assert_eq!(
        IrSubmitError::from(Error::OutOfBounds),
        IrSubmitError::InvalidIr(Error::OutOfBounds)
    );
    assert_eq!(
        IrSubmitError::from(HandleError::SystemError(-3)),
        IrSubmitError::Backend(HandleError::SystemError(-3))
    );
}

#[test]
fn mip_chains_levels_of_detail_and_depth_attachments_are_planned() {
    let mut scene = scene();
    let chain = scene
        .table
        .define_texture(
            TextureDesc::new(
                TextureFormat::Rgba8Unorm,
                Extent2D::new(8, 8).unwrap(),
                TextureUsage::sampled().union(TextureUsage::copy_dst()),
            )
            .unwrap()
            .with_mip_level_count(4)
            .unwrap(),
        )
        .unwrap();
    let detailed = scene
        .table
        .define_sampler(
            SamplerDesc::new(
                FilterMode::Linear,
                FilterMode::Nearest,
                AddressMode::Repeat,
                AddressMode::MirrorRepeat,
            )
            .with_mip_filter(FilterMode::Linear, 0, 3.0f32.to_bits())
            .unwrap(),
        )
        .unwrap();
    let depth = texture(
        &mut scene.table,
        TextureFormat::Depth32Float,
        TextureUsage::render_attachment(),
    );
    let deep = scene
        .table
        .define_render_pipeline(
            RenderPipelineDesc::new(
                TextureFormat::Bgra8Unorm,
                PrimitiveTopology::TriangleList,
                VertexBufferLayout::new(
                    16,
                    vec![
                        VertexAttribute::new(0, VertexFormat::Float32x2, 0),
                        VertexAttribute::new(1, VertexFormat::Float32x2, 8),
                    ],
                )
                .unwrap(),
                FragmentProgram::Texture(TextureSampleMode::Rgba),
                BlendState::replace(),
                raster(),
            )
            .unwrap()
            .with_depth_state(DepthState::new(
                TextureFormat::Depth32Float,
                CompareFunction::Less,
                true,
            ))
            .unwrap(),
        )
        .unwrap();
    let resources = mapped(&scene);
    let data = floats(&[0.0; 12]);
    let pixels = [9u8; 16];
    let mut encoder = CommandEncoder::new(&scene.table);
    encoder.write_buffer(scene.vertices, 0, &data).unwrap();
    encoder
        .write_texture(
            chain,
            TextureWrite::new(PixelRect::new(0, 0, 2, 2).unwrap(), 8, &pixels)
                .unwrap()
                .with_mip_level(2),
        )
        .unwrap();
    let desc = RenderPassDesc::new(
        &scene.table,
        scene.target,
        full(),
        LoadOp::Load,
        StoreOp::Store,
    )
    .unwrap()
    .with_depth_attachment(
        &scene.table,
        depth,
        DepthLoadOp::Clear(1.0f32.to_bits()),
        StoreOp::Store,
    )
    .unwrap();
    let mut pass = encoder.begin_render_pass(desc).unwrap();
    pass.set_pipeline(deep).unwrap();
    pass.set_vertex_buffer(scene.vertices, 0).unwrap();
    pass.set_uniforms(uniforms()).unwrap();
    pass.set_texture(chain).unwrap();
    pass.set_sampler(detailed).unwrap();
    pass.draw(3, 0).unwrap();
    pass.end().unwrap();
    let commands = encoder.finish().unwrap();

    let plan = plan(&resources, &commands).unwrap();
    assert_eq!(plan.events.len(), 2);
    match &plan.events[0] {
        ExecutionEvent::Upload(spec, upload) => {
            assert_eq!((spec.width, spec.height), (8, 8));
            assert_eq!(upload.destination.width, 2);
            assert_eq!(upload.pixels, vec![9u8; 16]);
        }
        _ => panic!("expected an upload"),
    }
    match &plan.events[1] {
        ExecutionEvent::Pass(pass) => {
            let draw = &pass.submission.draws[0];
            assert_eq!(draw.texture.unwrap().slot, chain.slot());
            let sampling = draw.sampler.unwrap();
            assert_eq!(sampling.slot, detailed.slot());
            assert_eq!(sampling.min_filter, IrFilterMode::Linear);
            assert_eq!(sampling.address_v, IrAddressMode::MirrorRepeat);
        }
        _ => panic!("expected a pass"),
    }
}

#[test]
fn refusals_come_before_storage() {
    let mut scene = scene();
    let shown = texture(
        &mut scene.table,
        TextureFormat::Bgra8Unorm,
        TextureUsage::render_attachment()
            .union(TextureUsage::present())
            .union(TextureUsage::copy_dst()),
    );
    let mut resources = mapped(&scene);
    resources
        .map_image(&scene.table, shown.id(), image(8))
        .unwrap();
    let mut encoder = CommandEncoder::new(&scene.table);
    encoder
        .write_texture(
            shown,
            TextureWrite::new(PixelRect::new(0, 0, 1, 1).unwrap(), 4, &[1, 2, 3, 4]).unwrap(),
        )
        .unwrap();
    let commands = encoder.finish().unwrap();
    assert_eq!(
        failure(&resources, &commands),
        IrSubmitError::Unsupported(UnsupportedIrFeature::TextureUpload)
    );
}
