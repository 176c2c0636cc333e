//! Shader generation, object caches and submission plans of the WGPU backend.

use sgfx_core::ir::{
    AddressMode, BlendState, BufferDesc, BufferRef, BufferUsage, Color, CommandEncoder,
    CompareFunction, CullMode, DepthLoadOp, DepthState, DrawUniforms, Error as IrError, Extent2D,
    FilterMode, FragmentProgram, FrontFace, IndexFormat, LoadOp, PixelRect, PrimitiveTopology,
    RasterState, RenderPassDesc, RenderPipelineDesc, RenderPipelineRef, ResourceTable,
    SamplerDesc, SamplerRef, StoreOp, TextureDesc, TextureFormat, TextureRef, TextureSampleMode,
    TextureUsage, TextureWrite, Transform, VertexAttribute, VertexBufferLayout, VertexFormat,
};
use sgfx_core::wgpu_backend::format::{
    buffer_usage, clear_uniform_bytes, color_load_op, depth_load_op, logical_format, raw_format,
    render_area_is_full, texture_usage, uniform_bytes, ColorLoad, DepthLoad, GpuBufferUsage,
    GpuTextureUsage, SurfaceFormat,
};
use sgfx_core::wgpu_backend::queue::{submit, EncoderOperation, PassOperation, SubmissionPlan};
use sgfx_core::wgpu_backend::resources::{
    Creation, Image, Interruption, Resources, TexturePlace,
};
use sgfx_core::wgpu_backend::shader::shader_source;
use sgfx_core::wgpu_backend::{Error, UnsupportedFeature};

fn pipeline(fragment: FragmentProgram) -> RenderPipelineDesc {
    RenderPipelineDesc::new(
        TextureFormat::Bgra8Unorm,
        PrimitiveTopology::TriangleList,
        VertexBufferLayout::new(
            40,
            vec![
                VertexAttribute::new(0, VertexFormat::Float32x4, 0),
                VertexAttribute::new(1, VertexFormat::Float32x4, 16),
                VertexAttribute::new(2, VertexFormat::Float32x2, 32),
            ],
        )
        .expect("valid vertex layout"),
        fragment,
        BlendState::source_over_straight_alpha(),
        RasterState::new(CullMode::Disabled, FrontFace::CounterClockwise),
    )
    .expect("valid pipeline")
}

#[test]
fn generated_texture_vertex_color_shader_contains_both_bindings() {
    let source = shader_source(
        &pipeline(FragmentProgram::TextureVertexColor(TextureSampleMode::Rgba)),
        None,
    )
    .expect("shader source");
    assert!(source.contains("@binding(1) var sampled_texture"));
    assert!(source.contains("@binding(2) var texture_sampler"));
    assert!(source.contains("input.attr2"));
}

#[test]
fn alpha_mask_shader_reads_the_r8_channel_for_glyph_atlases() {
    let descriptor = pipeline(FragmentProgram::TextureVertexColor(
        TextureSampleMode::AlphaMask,
    ));
    let r8_source = shader_source(&descriptor, Some(TextureFormat::R8Unorm))
        .expect("R8 alpha-mask shader source");
    assert!(r8_source.contains("sampled.r * input.color.a"));

    let rgba_source = shader_source(&descriptor, None).expect("RGBA alpha-mask shader source");
    assert!(rgba_source.contains("sampled.a * input.color.a"));
}

#[test]
fn logical_surface_formats_accept_srgb_color_targets() {
    assert_eq!(
        logical_format(SurfaceFormat::Bgra8UnormSrgb),
        Some(TextureFormat::Bgra8Unorm)
    );
    assert_eq!(
        logical_format(SurfaceFormat::Rgba8UnormSrgb),
        Some(TextureFormat::Rgba8Unorm)
    );
    assert_eq!(logical_format(SurfaceFormat::Depth32Float), None);
}

#[test]
fn only_an_exact_target_sized_area_uses_attachment_clear() {
    let full = PixelRect::new(0, 0, 8, 6).expect("full area");
    let partial = PixelRect::new(1, 1, 6, 4).expect("partial area");
    assert!(render_area_is_full(full, 8, 6));
    assert!(!render_area_is_full(partial, 8, 6));
}

#[test]
fn solid_shader_source_is_complete() {
    let descriptor = RenderPipelineDesc::new(
        TextureFormat::Bgra8Unorm,
        PrimitiveTopology::TriangleList,
        VertexBufferLayout::new(8, vec![VertexAttribute::new(0, VertexFormat::Float32x2, 0)])
            .unwrap(),
        FragmentProgram::Solid,
        BlendState::replace(),
        RasterState::new(CullMode::Disabled, FrontFace::CounterClockwise),
    )
    .unwrap();
    let source = shader_source(&descriptor, None).unwrap();
    assert!(source.starts_with("struct Uniforms { transform: mat4x4<f32>, color: vec4<f32>, };\n"));
    assert!(source.contains("@location(0) attr0: vec2<f32>"));
    assert!(source.contains("@vertex fn vs_main"));
    assert!(source.contains("@fragment fn fs_main"));
    assert!(!source.contains("sampled_texture"));
}

#[test]
fn formats_and_usages_map_to_the_gpu() {
    assert_eq!(raw_format(TextureFormat::R8Unorm), SurfaceFormat::R8Unorm);
    assert_eq!(logical_format(SurfaceFormat::Other), None);
    let texture = TextureDesc::new(
        TextureFormat::Rgba8Unorm,
        Extent2D::new(4, 4).unwrap(),
        TextureUsage::sampled().union(TextureUsage::copy_dst()),
    )
    .unwrap();
    assert_eq!(
        texture_usage(texture),
        Ok(GpuTextureUsage {
            texture_binding: true,
            render_attachment: false,
            copy_src: false,
            copy_dst: true,
        })
    );
    let presented = TextureDesc::new(
        TextureFormat::Rgba8Unorm,
        Extent2D::new(4, 4).unwrap(),
        TextureUsage::present(),
    )
    .unwrap();
    assert_eq!(texture_usage(presented), Err(Error::InvalidState));
    let buffer = BufferDesc::new(16, BufferUsage::vertex().union(BufferUsage::index())).unwrap();
    assert_eq!(
        buffer_usage(buffer),
        GpuBufferUsage {
            vertex: true,
            index: true,
            copy_src: false,
            copy_dst: false,
        }
    );
}

#[test]
fn load_operations_keep_their_values() {
    let color = Color::rgba(
        0.25f32.to_bits(),
        0.5f32.to_bits(),
        0.75f32.to_bits(),
        1.0f32.to_bits(),
    )
    .unwrap();
    assert!(matches!(
        color_load_op(LoadOp::Clear(color)),
        ColorLoad::Clear(components) if components == color.components()
    ));
    assert!(matches!(color_load_op(LoadOp::Load), ColorLoad::Load));
    assert_eq!(
        depth_load_op(DepthLoadOp::Clear(0.5f32.to_bits())),
        DepthLoad::Clear(0.5f32.to_bits())
    );
    assert_eq!(depth_load_op(DepthLoadOp::Load), DepthLoad::Load);
}

#[test]
fn uniform_memory_has_the_byte_order_of_the_machine() {
    let color = Color::rgba(
        0.1f32.to_bits(),
        0.2f32.to_bits(),
        0.3f32.to_bits(),
        0.4f32.to_bits(),
    )
    .unwrap();
    let mut expected = Vec::new();
    for component in [0.1f32, 0.2, 0.3, 0.4] {
        expected.extend_from_slice(&component.to_ne_bytes());
    }
    assert_eq!(clear_uniform_bytes(color), expected);
    let uniforms = uniform_bytes(DrawUniforms::new(Transform::identity(), color));
    assert_eq!(uniforms.len(), 80);
    assert_eq!(uniforms[..4], 1.0f32.to_ne_bytes());
    assert_eq!(uniforms[4..8], 0.0f32.to_ne_bytes());
    assert_eq!(uniforms[20..24], 1.0f32.to_ne_bytes());
    assert_eq!(uniforms[64..], expected[..]);
}

struct Scene {
    table: ResourceTable,
    target: TextureRef,
    texture: TextureRef,
    glyphs: TextureRef,
    sampler: SamplerRef,
    vertices: BufferRef,
    indices: BufferRef,
    solid: RenderPipelineRef,
    textured: RenderPipelineRef,
}

fn textured_pipeline(mode: TextureSampleMode) -> RenderPipelineDesc {
    RenderPipelineDesc::new(
        TextureFormat::Bgra8Unorm,
        PrimitiveTopology::TriangleList,
        VertexBufferLayout::new(
            16,
            vec![
                VertexAttribute::new(0, VertexFormat::Float32x2, 0),
                VertexAttribute::new(1, VertexFormat::Float32x2, 8),
            ],
        )
        .unwrap(),
        FragmentProgram::Texture(mode),
        BlendState::replace(),
        RasterState::new(CullMode::Disabled, FrontFace::CounterClockwise),
    )
    .unwrap()
}

fn scene() -> Scene {
    let mut table = ResourceTable::new();
    let extent = Extent2D::new(8, 8).unwrap();
    let target = table
        .define_texture(
            TextureDesc::new(
                TextureFormat::Bgra8Unorm,
                extent,
                TextureUsage::render_attachment()
                    .union(TextureUsage::present())
                    .union(TextureUsage::copy_src()),
            )
            .unwrap(),
        )
        .unwrap();
    let texture = table
        .define_texture(
            TextureDesc::new(
                TextureFormat::Bgra8Unorm,
                extent,
                TextureUsage::sampled().union(TextureUsage::copy_dst()),
            )
            .unwrap(),
        )
        .unwrap();
    let glyphs = table
        .define_texture(
            TextureDesc::new(
                TextureFormat::R8Unorm,
                extent,
                TextureUsage::sampled().union(TextureUsage::copy_dst()),
            )
            .unwrap(),
        )
        .unwrap();
    let sampler = table
        .define_sampler(SamplerDesc::new(
            FilterMode::Nearest,
            FilterMode::Linear,
            AddressMode::ClampToEdge,
            AddressMode::Repeat,
        ))
        .unwrap();
    let vertices = table
        .define_buffer(
            BufferDesc::new(48, BufferUsage::vertex().union(BufferUsage::copy_dst())).unwrap(),
        )
        .unwrap();
    let indices = table
        .define_buffer(
            BufferDesc::new(6, BufferUsage::index().union(BufferUsage::copy_dst())).unwrap(),
        )
        .unwrap();
    let solid = table
        .define_render_pipeline(
            RenderPipelineDesc::new(
                TextureFormat::Bgra8Unorm,
                PrimitiveTopology::TriangleList,
                VertexBufferLayout::new(
                    16,
                    vec![VertexAttribute::new(0, VertexFormat::Float32x2, 0)],
                )
                .unwrap(),
                FragmentProgram::Solid,
                BlendState::replace(),
                RasterState::new(CullMode::Disabled, FrontFace::CounterClockwise),
            )
            .unwrap(),
        )
        .unwrap();
    let textured = table
        .define_render_pipeline(textured_pipeline(TextureSampleMode::Rgba))
        .unwrap();
    Scene {
        table,
        target,
        texture,
        glyphs,
        sampler,
        vertices,
        indices,
        solid,
        textured,
    }
}

fn image(id: u64) -> Image {
    Image {
        id,
        device: 1,
        width: 8,
        height: 8,
        raw_format: SurfaceFormat::Bgra8UnormSrgb,
        format: TextureFormat::Bgra8Unorm,
    }
}

fn uniforms() -> DrawUniforms {
    let one = 1.0f32.to_bits();
    DrawUniforms::new(
        Transform::identity(),
        Color::rgba(one, one, one, one).unwrap(),
    )
}

/// Plan again and again, installing what is asked for.
fn plan<'data>(
    resources: &mut Resources,
    commands: &sgfx_core::ir::CommandBuffer<'_, 'data>,
    asked: &mut Vec<Creation>,
) -> Result<SubmissionPlan<'data>, Error> {
    loop {
        match submit(1, resources, commands) {
            Ok(plan) => return Ok(plan),
            Err(Interruption::Failed(error)) => return Err(error),
            Err(Interruption::Create(creation)) => {
                assert!(!asked.contains(&creation));
                asked.push(creation);
                resources.install(creation);
            }
        }
    }
}

#[test]
fn submissions_upload_first_and_ask_for_each_object_once() {
    let scene = scene();
    let table = &scene.table;
    let clear = Color::rgba(0, 0, 0, 1.0f32.to_bits()).unwrap();
    let full = PixelRect::new(0, 0, 8, 8).unwrap();
    let part = PixelRect::new(2, 2, 4, 4).unwrap();
    let vertex_data = [7u8; 48];
    let pixels = [3u8; 256];
    let mut encoder = CommandEncoder::new(table);
    encoder.write_buffer(scene.vertices, 0, &vertex_data).unwrap();
    encoder
        .write_texture(scene.texture, TextureWrite::new(full, 32, &pixels).unwrap())
        .unwrap();
    encoder
        .copy_texture_to_texture(scene.target, part, scene.texture, part)
        .unwrap();
    let desc =
        RenderPassDesc::new(table, scene.target, full, LoadOp::Clear(clear), StoreOp::Store)
            .unwrap();
    let mut pass = encoder.begin_render_pass(desc).unwrap();
    pass.set_pipeline(scene.textured).unwrap();
    pass.set_texture(scene.texture).unwrap();
    pass.set_sampler(scene.sampler).unwrap();
    pass.set_vertex_buffer(scene.vertices, 0).unwrap();
    pass.set_uniforms(uniforms()).unwrap();
    pass.set_scissor(Some(part)).unwrap();
    pass.draw(3, 0).unwrap();
    pass.set_scissor(None).unwrap();
    pass.set_pipeline(scene.solid).unwrap();
    pass.draw(3, 0).unwrap();
    pass.end().unwrap();
    let commands = encoder.finish().unwrap();

    let mut resources = Resources::new(1, table);
    let mut asked = Vec::new();
    assert!(matches!(
        plan(&mut resources, &commands, &mut asked),
        Err(Error::ImageNotMapped)
    ));
    assert_eq!(
        resources.map_image(table, scene.target.id(), image(10)),
        Ok(())
    );
    let first = plan(&mut resources, &commands, &mut asked).unwrap();
    // Vertex buffer, sampled texture, sampler, the textured pipeline before and
    // after its texture was known, and the solid pipeline.
    assert_eq!(asked.len(), 6);
    assert_eq!(first.buffer_writes.len(), 1);
    assert_eq!(first.buffer_writes[0].data, &vertex_data[..]);
    assert_eq!(first.texture_writes.len(), 1);
    assert_eq!(first.texture_writes[0].bytes_per_row, 32);
    assert_eq!(first.operations.len(), 2);
    assert!(matches!(
        first.operations[0],
        EncoderOperation::CopyTexture {
            source: TexturePlace::Mapped(0),
            destination: TexturePlace::Owned(0),
            ..
        }
    ));
    match &first.operations[1] {
        EncoderOperation::RenderPass(pass) => {
            assert_eq!(pass.frame.target.raw_format, SurfaceFormat::Bgra8UnormSrgb);
            assert_eq!(pass.partial_clear, None);
            assert!(
                matches!(pass.color_load, ColorLoad::Clear(color) if color == clear.components())
            );
            assert_eq!(pass.operations.len(), 7);
            assert_eq!(pass.operations[0], PassOperation::SetPipeline(0));
            assert_eq!(pass.operations[1], PassOperation::SetPipeline(1));
            assert_eq!(pass.operations[2], PassOperation::SetScissor(part));
            assert!(matches!(
                pass.operations[3],
                PassOperation::Draw { first: 0, end: 3, binding }
                    if binding.sampled == Some((TexturePlace::Owned(0), 0)) && binding.pipeline == 1
            ));
            assert_eq!(pass.operations[4], PassOperation::SetScissor(full));
            assert_eq!(pass.operations[5], PassOperation::SetPipeline(2));
            assert!(matches!(
                pass.operations[6],
                PassOperation::Draw { binding, .. } if binding.sampled.is_none()
            ));
        }
        _ => panic!("expected a pass"),
    }
    let again = plan(&mut resources, &commands, &mut asked).unwrap();
    assert_eq!(asked.len(), 6);
    assert_eq!(again.operations.len(), 2);
}

#[test]
fn partial_passes_clear_by_drawing() {
    let scene = scene();
    let table = &scene.table;
    let clear = Color::rgba(0, 0, 0, 1.0f32.to_bits()).unwrap();
    let part = PixelRect::new(2, 2, 4, 4).unwrap();
    let mut encoder = CommandEncoder::new(table);
    let desc =
        RenderPassDesc::new(table, scene.target, part, LoadOp::Clear(clear), StoreOp::Store)
            .unwrap();
    let pass = encoder.begin_render_pass(desc).unwrap();
    pass.end().unwrap();
    let commands = encoder.finish().unwrap();
    let mut resources = Resources::new(1, table);
    resources
        .map_image(table, scene.target.id(), image(10))
        .unwrap();
    let mut asked = Vec::new();
    let plan = plan(&mut resources, &commands, &mut asked).unwrap();
    assert!(matches!(asked[..], [Creation::ClearPipeline(key)]
        if key.target_format == SurfaceFormat::Bgra8UnormSrgb && !key.has_depth));
    match &plan.operations[0] {
        EncoderOperation::RenderPass(pass) => {
            assert!(matches!(pass.color_load, ColorLoad::Load));
            assert_eq!(pass.partial_clear, Some((0, clear)));
            assert!(pass.operations.is_empty());
        }
        _ => panic!("expected a pass"),
    }
}

#[test]
fn depth_passes_need_depth_pipelines_and_full_clears() {
    let mut scene = scene();
    let depth = scene
        .table
        .define_texture(
            TextureDesc::new(
                TextureFormat::Depth32Float,
                Extent2D::new(8, 8).unwrap(),
                TextureUsage::render_attachment(),
            )
            .unwrap(),
        )
        .unwrap();
    let depth_pipeline = scene
        .table
        .define_render_pipeline(
            textured_pipeline(TextureSampleMode::Rgba)
                .with_depth_state(DepthState::new(
                    TextureFormat::Depth32Float,
                    CompareFunction::Less,
                    true,
                ))
                .unwrap(),
        )
        .unwrap();
    let table = &scene.table;
    let mut resources = Resources::new(1, table);
    resources
        .map_image(table, scene.target.id(), image(10))
        .unwrap();
    let mut asked = Vec::new();
    for (area, expected) in [
        (PixelRect::new(0, 0, 8, 8).unwrap(), None),
        (
            PixelRect::new(0, 0, 4, 4).unwrap(),
            Some(Error::Unsupported(UnsupportedFeature::PartialDepthClear)),
        ),
    ] {
        let desc = RenderPassDesc::new(table, scene.target, area, LoadOp::Load, StoreOp::Store)
            .unwrap()
            .with_depth_attachment(
                table,
                depth,
                DepthLoadOp::Clear(1.0f32.to_bits()),
                StoreOp::DontCare,
            )
            .unwrap();
        let mut encoder = CommandEncoder::new(table);
        let mut pass = encoder.begin_render_pass(desc).unwrap();
        pass.set_pipeline(depth_pipeline).unwrap();
        pass.end().unwrap();
        let commands = encoder.finish().unwrap();
        match plan(&mut resources, &commands, &mut asked) {
            Ok(plan) => {
                assert_eq!(expected, None);
                match &plan.operations[0] {
                    EncoderOperation::RenderPass(pass) => assert_eq!(
                        pass.depth_operations,
                        Some((DepthLoad::Clear(1.0f32.to_bits()), StoreOp::DontCare))
                    ),
                    _ => panic!("expected a pass"),
                }
            }
            Err(error) => assert_eq!(expected, Some(error)),
        }
    }
    let desc = RenderPassDesc::new(
        table,
        scene.target,
        PixelRect::new(0, 0, 8, 8).unwrap(),
        LoadOp::Load,
        StoreOp::Store,
    )
    .unwrap()
    .with_depth_attachment(table, depth, DepthLoadOp::Load, StoreOp::Store)
    .unwrap();
    let mut encoder = CommandEncoder::new(table);
    let mut pass = encoder.begin_render_pass(desc).unwrap();
    pass.set_pipeline(scene.solid).unwrap();
    pass.end().unwrap();
    let commands = encoder.finish().unwrap();
    assert!(matches!(
        plan(&mut resources, &commands, &mut asked),
        Err(Error::InvalidState)
    ));
}

#[test]
fn late_uploads_and_foreign_resources_are_refused() {
    let scene = scene();
    let table = &scene.table;
    let part = PixelRect::new(0, 0, 2, 2).unwrap();
    let data = [0u8; 4];
    let mut encoder = CommandEncoder::new(table);
    encoder
        .copy_texture_to_texture(scene.target, part, scene.texture, part)
        .unwrap();
    encoder.write_buffer(scene.vertices, 0, &data).unwrap();
    let commands = encoder.finish().unwrap();
    let mut resources = Resources::new(1, table);
    resources
        .map_image(table, scene.target.id(), image(10))
        .unwrap();
    let mut asked = Vec::new();
    assert!(matches!(
        plan(&mut resources, &commands, &mut asked),
        Err(Error::Unsupported(UnsupportedFeature::LateUpload))
    ));
    assert!(matches!(
        submit(2, &resources, &commands),
        Err(Interruption::Failed(Error::InvalidState))
    ));
    let other = ResourceTable::new();
    let foreign = Resources::new(1, &other);
    assert!(matches!(
        submit(1, &foreign, &commands),
        Err(Interruption::Failed(Error::ResourceTableMismatch))
    ));
}

#[test]
fn mapping_replaces_an_image_but_never_shares_one() {
    let mut scene = scene();
    let second = scene
        .table
        .define_texture(
            TextureDesc::new(
                TextureFormat::Bgra8Unorm,
                Extent2D::new(8, 8).unwrap(),
                TextureUsage::render_attachment().union(TextureUsage::present()),
            )
            .unwrap(),
        )
        .unwrap();
    let table = &scene.table;
    let mut resources = Resources::new(1, table);
    assert_eq!(
        resources.map_image(table, scene.target.id(), image(10)),
        Ok(())
    );
    assert_eq!(
        resources.map_image(table, second.id(), image(10)),
        Err(Error::ImageAlreadyMapped)
    );
    assert_eq!(
        resources.map_image(table, scene.target.id(), image(11)),
        Ok(())
    );
    assert_eq!(resources.map_image(table, second.id(), image(10)), Ok(()));
    assert_eq!(resources.mapped_place(scene.target.id()), Some(0));
    assert_eq!(resources.mapped_place(second.id()), Some(1));
    let mut elsewhere = image(12);
    elsewhere.device = 2;
    assert_eq!(
        resources.map_image(table, second.id(), elsewhere),
        Err(Error::InvalidState)
    );
    let mut small = image(12);
    small.width = 4;
    assert_eq!(
        resources.map_image(table, second.id(), small),
        Err(Error::InvalidState)
    );
    assert_eq!(
        resources.map_image(table, scene.texture.id(), image(12)),
        Err(Error::InvalidState)
    );
    let other = ResourceTable::new();
    assert_eq!(
        resources.map_image(&other, second.id(), image(12)),
        Err(Error::ResourceTableMismatch)
    );
    assert_eq!(Image::check_new(0, 4, TextureFormat::Bgra8Unorm), Err(Error::InvalidState));
    assert_eq!(Image::check_new(4, 4, TextureFormat::Depth32Float), Err(Error::InvalidState));
    assert_eq!(Image::check_new(4, 4, TextureFormat::R8Unorm), Ok(()));
}

#[test]
fn single_channel_textures_are_only_sampled_as_masks() {
    let mut scene = scene();
    let masked = scene
        .table
        .define_render_pipeline(textured_pipeline(TextureSampleMode::AlphaMask))
        .unwrap();
    let table = &scene.table;
    let mut resources = Resources::new(1, table);
    resources
        .map_image(table, scene.target.id(), image(10))
        .unwrap();
    let mut asked = Vec::new();
    let full = PixelRect::new(0, 0, 8, 8).unwrap();
    let index_data = [0u8, 0, 1, 0, 2, 0];
    for (pipeline, accepted) in [(masked, true), (scene.textured, false)] {
        let mut encoder = CommandEncoder::new(table);
        encoder.write_buffer(scene.indices, 0, &index_data).unwrap();
        let desc =
            RenderPassDesc::new(table, scene.target, full, LoadOp::Load, StoreOp::Store).unwrap();
        let mut pass = encoder.begin_render_pass(desc).unwrap();
        pass.set_texture(scene.glyphs).unwrap();
        pass.set_sampler(scene.sampler).unwrap();
        pass.set_pipeline(pipeline).unwrap();
        pass.set_vertex_buffer(scene.vertices, 0).unwrap();
        pass.set_index_buffer(scene.indices, 0, IndexFormat::Uint16)
            .unwrap();
        pass.set_uniforms(uniforms()).unwrap();
        pass.draw_indexed(3, 0, 0).unwrap();
        pass.end().unwrap();
        let commands = encoder.finish().unwrap();
        match plan(&mut resources, &commands, &mut asked) {
            Ok(plan) => {
                assert!(accepted);
                match &plan.operations[0] {
                    EncoderOperation::RenderPass(pass) => assert!(matches!(
                        pass.operations[1],
                        PassOperation::DrawIndexed {
                            index_format: IndexFormat::Uint16,
                            first: 0,
                            end: 3,
                            base_vertex: 0,
                            ..
                        }
                    )),
                    _ => panic!("expected a pass"),
                }
            }
            Err(error) => {
                assert!(!accepted);
                assert_eq!(
                    error,
                    Error::Unsupported(UnsupportedFeature::TextureFormat)
                );
            }
        }
    }
}

#[test]
fn logical_errors_keep_their_reason() {
    assert_eq!(
        Error::from(IrError::OutOfBounds),
        Error::InvalidIr(IrError::OutOfBounds)
    );
}

#[test]
fn mip_chains_and_levels_of_detail_are_created() {
    let mut table = ResourceTable::new();
    let chain = table
        .define_texture(
            TextureDesc::new(
                TextureFormat::Rgba8Unorm,
                Extent2D::new(8, 4).unwrap(),
                TextureUsage::sampled(),
            )
            .unwrap()
            .with_mip_level_count(3)
            .unwrap(),
        )
        .unwrap();
    let plain = SamplerDesc::new(
        FilterMode::Nearest,
        FilterMode::Linear,
        AddressMode::ClampToEdge,
        AddressMode::Repeat,
    );
    let detailed = plain
        .with_mip_filter(FilterMode::Linear, 0, 2.0f32.to_bits())
        .unwrap();
    let sampler = table.define_sampler(detailed).unwrap();
    let comparing = table
        .define_sampler(plain.with_compare(Some(CompareFunction::Less)))
        .unwrap();
    let resources = Resources::new(1, &table);
    assert_eq!(
        resources.texture(&table, chain),
        Err(Interruption::Create(Creation::Texture {
            texture: chain.id(),
            width: 8,
            height: 4,
            format: SurfaceFormat::Rgba8Unorm,
            usage: GpuTextureUsage {
                texture_binding: true,
                render_attachment: false,
                copy_src: false,
                copy_dst: false,
            },
        }))
    );
    assert_eq!(
        resources.sampler(&table, sampler),
        Err(Interruption::Create(Creation::Sampler {
            sampler: sampler.id(),
            descriptor: detailed,
        }))
    );
    assert_eq!(
        resources.sampler(&table, comparing),
        Err(Interruption::Failed(Error::Unsupported(
            UnsupportedFeature::Pipeline
        )))
    );
}
