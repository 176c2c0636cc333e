//! Command streams for a Virgl device.

use sgfx_core::driver::{
    HandleError, IrAddressMode, IrCullMode, IrFilterMode, IrFrontFace, IrRect, IrSamplerState,
    IrTextureCopy, IrTextureFormat, IrTextureSpec, IrTextureUpload,
};
use sgfx_core::ir::{
    AddressMode, BlendState, BufferDesc, BufferUsage, Color, CommandEncoder, CullMode,
    DrawUniforms, Extent2D, FilterMode, FragmentProgram, FrontFace, LoadOp, PixelRect,
    PrimitiveTopology, RasterState, RenderPassDesc, RenderPipelineDesc, ResourceTable,
    SamplerDesc, StoreOp, TextureDesc, TextureFormat, TextureSampleMode, TextureUsage,
    TextureWrite, Transform, VertexAttribute, VertexBufferLayout, VertexFormat,
};
use sgfx_core::ir_execute::plan::submit_ir;
use sgfx_core::ir_execute::{ExecutionEvent, Image as RetainedImage, IrResources as Retained};
use sgfx_core::memory::Memory;
use sgfx_core::virgl::composition::{
    append_composition_quad, composition_command_capacity, CompositionOperation, SourceAlpha,
    MAX_COMPOSITION_OPERATIONS,
};
use sgfx_core::virgl::draw::VertexClip4Color3;
use sgfx_core::virgl::execute::{complete_event, register_mapped_images, EventWork};
use sgfx_core::virgl::protocol::{
    command_header, push_constant_buffer, push_scissor, push_shader, push_viewport, stream_bytes,
    CCMD_BIND_OBJECT, CCMD_BIND_SHADER, CCMD_CLEAR, CCMD_CREATE_OBJECT, CCMD_DRAW_VBO,
    CCMD_RESOURCE_COPY_REGION, CCMD_RESOURCE_INLINE_WRITE, CCMD_SET_CONSTANT_BUFFER,
    CCMD_SET_SCISSOR_STATE, CCMD_SET_VIEWPORT_STATE, OBJECT_SAMPLER_VIEW, OBJECT_SHADER,
    OBJECT_SURFACE, SHADER_FRAGMENT, SHADER_VERTEX,
};
use sgfx_core::virgl::resources::{create_ir_resources, PassInterruption};
use sgfx_core::virgl::state::{
    resource_id_from_token, Capabilities, Context, Image, Queue, Texture,
    FIRST_DYNAMIC_OBJECT_HANDLE,
};

const LIMIT: u32 = 1 << 20;

/// Split a stream into its commands: code, object and payload.
fn commands(words: &[u32]) -> Vec<(u32, u32, Vec<u32>)> {
    let mut rest = words;
    let mut found = Vec::new();
    while let Some(header) = rest.first() {
        let length = (header >> 16) as usize;
        found.push((
            header & 0xff,
            (header >> 8) & 0xff,
            rest[1..1 + length].to_vec(),
        ));
        rest = &rest[1 + length..];
    }
    found
}

fn count(commands: &[(u32, u32, Vec<u32>)], code: u32, object: u32) -> usize {
    commands
        .iter()
        .filter(|command| command.0 == code && command.1 == object)
        .count()
}

fn rect(x: u32, y: u32, width: u32, height: u32) -> IrRect {
    IrRect {
        x,
        y,
        width,
        height,
    }
}

fn bits(values: [f32; 4]) -> [u32; 4] {
    [
        values[0].to_bits(),
        values[1].to_bits(),
        values[2].to_bits(),
        values[3].to_bits(),
    ]
}

fn device() -> (Context, Queue, Image, Texture) {
    let mut context = Context::new(3);
    let queue = context.register_queue(40).unwrap();
    let image = context.register_image(41, 16, 8).unwrap();
    let texture = context.register_texture(42, 4, 4).unwrap();
    (context, queue, image, texture)
}

#[test]
fn headers_hold_code_object_and_length() {
    assert_eq!(command_header(1, 4, 9), 0x0009_0401);
    assert_eq!(command_header(62, 0, 0xffff), 0xffff_003e);
}

#[test]
fn scissors_hold_both_corners() {
    let mut words = Vec::new();
    assert!(push_scissor(&mut words, rect(1, 2, 3, 4)));
    assert_eq!(
        words,
        [command_header(CCMD_SET_SCISSOR_STATE, 0, 3), 0, 0x0002_0001, 0x0006_0004]
    );
    assert!(!push_scissor(&mut words, rect(0, 0, 0x1_0000, 1)));
    assert!(!push_scissor(&mut words, rect(u32::MAX, 0, 1, 1)));
    assert_eq!(words.len(), 4);
}

#[test]
fn viewports_flip_rows() {
    for (width, height) in [(640u32, 480u32), (1, 1), (1919, 1079), (16_777_217, 3)] {
        let mut words = Vec::new();
        push_viewport(&mut words, width, height);
        assert_eq!(
            words,
            [
                command_header(CCMD_SET_VIEWPORT_STATE, 0, 7),
                0,
                (width as f32 / 2.0).to_bits(),
                (-(height as f32) / 2.0).to_bits(),
                0.5f32.to_bits(),
                (width as f32 / 2.0).to_bits(),
                (height as f32 / 2.0).to_bits(),
                0.5f32.to_bits(),
            ]
        );
    }
}

#[test]
fn shader_text_is_padded_with_a_terminator() {
    let mut words = Vec::new();
    push_shader(&mut words, 7, SHADER_VERTEX, "VERT\nabc");
    let found = commands(&words);
    assert_eq!(found.len(), 1);
    let (code, object, payload) = &found[0];
    assert_eq!((*code, *object), (CCMD_CREATE_OBJECT, OBJECT_SHADER));
    assert_eq!(payload[..5], [7, 0, 9, 300, 0]);
    assert_eq!(stream_bytes(&payload[5..]), *b"VERT\nabc\0\0\0\0");
}

#[test]
fn constants_and_bytes_keep_their_order() {
    let mut words = Vec::new();
    assert!(push_constant_buffer(&mut words, SHADER_FRAGMENT, &[5, 6]));
    assert_eq!(
        words,
        [command_header(CCMD_SET_CONSTANT_BUFFER, 0, 4), 1, 0, 5, 6]
    );
    assert_eq!(
        stream_bytes(&[0x0403_0201, 0x0807_0605]),
        [1, 2, 3, 4, 5, 6, 7, 8]
    );
}

#[test]
fn contexts_hand_out_each_handle_once() {
    let mut context = Context::new(3);
    assert_eq!(
        context.allocate_object_handle(),
        Ok(FIRST_DYNAMIC_OBJECT_HANDLE)
    );
    assert_eq!(
        context.allocate_object_handle(),
        Ok(FIRST_DYNAMIC_OBJECT_HANDLE + 1)
    );
    context.next_object_handle = u32::MAX;
    assert_eq!(
        context.allocate_object_handle(),
        Err(HandleError::OutOfResources)
    );
    assert_eq!(
        context.register_texture(9, 1, 1).err(),
        Some(HandleError::OutOfResources)
    );
    assert_eq!(resource_id_from_token(9), Ok(9));
    assert_eq!(resource_id_from_token(0), Err(HandleError::SystemError(-1)));
    assert_eq!(
        resource_id_from_token(1 << 32),
        Err(HandleError::SystemError(-1))
    );
    assert_eq!(
        Capabilities::of_device(true, false, true, true),
        Err(HandleError::Unsupported)
    );
    assert_eq!(
        Capabilities::of_device(false, true, true, true),
        Err(HandleError::Unsupported)
    );
}

#[test]
fn extents_uploads_and_owners_are_checked() {
    let (context, _, _, texture) = device();
    let capable = Capabilities::of_device(true, true, true, true).unwrap();
    let limited = Capabilities::of_device(true, true, true, false).unwrap();
    let invalid = Err(HandleError::InvalidParameter);
    assert_eq!(Context::check_extent(0, 4), invalid);
    assert_eq!(Context::check_extent(4, 4), Ok(()));
    assert_eq!(Context::check_sampled_texture(capable, 4, 4), Ok(()));
    assert_eq!(
        Context::check_sampled_texture(limited, 4, 4),
        Err(HandleError::Unsupported)
    );
    assert_eq!(Context::check_imported_texture(limited, 4, 4), invalid);
    assert_eq!(Context::check_imported_texture(capable, 4, 4), Ok(()));
    assert_eq!(Context::check_shared_texture(true, false, 4, 4), invalid);
    assert_eq!(Context::check_shared_texture(false, true, 4, 4), invalid);
    assert_eq!(Context::check_shared_texture(true, true, 4, 4), Ok(()));
    assert_eq!(context.check_upload(&texture, rect(0, 0, 4, 4)), Ok(()));
    assert_eq!(context.check_upload(&texture, rect(1, 0, 4, 4)), invalid);
    assert_eq!(context.check_release(3), Ok(()));
    assert_eq!(context.check_release(4), invalid);
}

#[test]
fn quads_cover_their_rectangle() {
    let mut vertices = Vec::new();
    let color = bits([1.0, 1.0, 1.0, 0.5]);
    append_composition_quad(
        &mut vertices,
        16,
        8,
        rect(4, 2, 8, 4),
        rect(1, 1, 2, 2),
        4,
        4,
        color,
    )
    .unwrap();
    assert_eq!(vertices.len(), 60);
    let corner = |x: f32, y: f32, u: f32, v: f32| {
        let mut words = vec![
            x.to_bits(),
            y.to_bits(),
            0,
            1.0f32.to_bits(),
            u.to_bits(),
            v.to_bits(),
        ];
        words.extend_from_slice(&color);
        words
    };
    let expected: Vec<u32> = [
        corner(-0.5, 0.5, 0.25, 0.25),
        corner(-0.5, -0.5, 0.25, 0.75),
        corner(0.5, -0.5, 0.75, 0.75),
        corner(-0.5, 0.5, 0.25, 0.25),
        corner(0.5, -0.5, 0.75, 0.75),
        corner(0.5, 0.5, 0.75, 0.25),
    ]
    .concat();
    assert_eq!(vertices, expected);
    assert_eq!(
        append_composition_quad(
            &mut vertices,
            16,
            8,
            rect(9, 2, 8, 4),
            rect(0, 0, 1, 1),
            1,
            1,
            color
        ),
        Err(HandleError::InvalidParameter)
    );
    assert_eq!(vertices.len(), 60);
}

#[test]
fn compositions_create_their_objects_once() {
    let (_, mut queue, mut image, mut texture) = device();
    let operations = [
        CompositionOperation::Textured {
            texture,
            destination: rect(0, 0, 4, 4),
            source: rect(0, 0, 4, 4),
            opacity: 1.0f32.to_bits(),
            source_alpha: SourceAlpha::Respect,
            clip: None,
        },
        CompositionOperation::Textured {
            texture,
            destination: rect(4, 0, 4, 4),
            source: rect(0, 0, 4, 4),
            opacity: 0.5f32.to_bits(),
            source_alpha: SourceAlpha::Ignore,
            clip: Some(rect(4, 0, 2, 2)),
        },
        CompositionOperation::Solid {
            destination: rect(8, 4, 8, 4),
            color: bits([1.0, 0.0, 0.0, 1.0]),
            clip: None,
        },
    ];
    let clear = bits([0.0, 0.0, 0.0, 1.0]);
    let prepared = queue
        .submit_composition(&image, clear, &operations, LIMIT)
        .unwrap();
    let found = commands(&prepared.commands);
    assert_eq!(count(&found, CCMD_CREATE_OBJECT, OBJECT_SHADER), 4);
    assert_eq!(count(&found, CCMD_CREATE_OBJECT, OBJECT_SURFACE), 1);
    assert_eq!(count(&found, CCMD_CREATE_OBJECT, OBJECT_SAMPLER_VIEW), 1);
    assert_eq!(count(&found, CCMD_CLEAR, 0), 1);
    assert_eq!(count(&found, CCMD_DRAW_VBO, 0), 3);
    assert_eq!(count(&found, CCMD_RESOURCE_INLINE_WRITE, 0), 1);
    assert!(prepared.needs_setup && prepared.needs_surface);
    assert_eq!(prepared.new_sampler_views, [texture.sampler_view_handle]);

    queue.complete_composition(&mut image, &prepared);
    prepared.complete_texture(&mut texture);
    assert!(queue.composition_initialized && image.composition_surface_initialized);
    let again = [CompositionOperation::Textured {
        texture,
        destination: rect(0, 0, 4, 4),
        source: rect(0, 0, 4, 4),
        opacity: 1.0f32.to_bits(),
        source_alpha: SourceAlpha::Respect,
        clip: None,
    }];
    let second = queue
        .submit_composition(&image, clear, &again, LIMIT)
        .unwrap();
    let found = commands(&second.commands);
    assert!(found.iter().all(|command| command.0 != CCMD_CREATE_OBJECT));
    assert!(!second.needs_setup && !second.needs_surface);
    assert!(second.new_sampler_views.is_empty());

    let empty = queue
        .submit_composition(&image, clear, &[], LIMIT)
        .unwrap();
    let found = commands(&empty.commands);
    assert_eq!(count(&found, CCMD_RESOURCE_INLINE_WRITE, 0), 0);
    assert_eq!(count(&found, CCMD_CLEAR, 0), 1);
}

#[test]
fn compositions_that_do_not_fit_are_refused() {
    let (_, queue, image, texture) = device();
    let clear = bits([0.0, 0.0, 0.0, 1.0]);
    let refused = |operation: CompositionOperation| {
        assert!(matches!(
            queue.submit_composition(&image, clear, &[operation], LIMIT),
            Err(HandleError::InvalidParameter)
        ));
    };
    let solid = |destination, color, clip| CompositionOperation::Solid {
        destination,
        color,
        clip,
    };
    let white = bits([1.0, 1.0, 1.0, 1.0]);
    refused(solid(rect(10, 0, 8, 4), white, None));
    refused(solid(rect(0, 0, 0, 4), white, None));
    refused(solid(rect(0, 0, 4, 4), bits([2.0, 0.0, 0.0, 0.0]), None));
    refused(solid(rect(0, 0, 4, 4), bits([f32::NAN, 0.0, 0.0, 0.0]), None));
    refused(solid(rect(0, 0, 4, 4), white, Some(rect(0, 0, 17, 1))));
    let mut foreign = texture;
    foreign.context_handle = 4;
    for (texture, source) in [(foreign, rect(0, 0, 4, 4)), (texture, rect(1, 0, 4, 4))] {
        refused(CompositionOperation::Textured {
            texture,
            destination: rect(0, 0, 4, 4),
            source,
            opacity: 1.0f32.to_bits(),
            source_alpha: SourceAlpha::Respect,
            clip: None,
        });
    }
    let fill = solid(rect(0, 0, 4, 4), white, None);
    let many = vec![fill; MAX_COMPOSITION_OPERATIONS + 1];
    assert!(matches!(
        queue.submit_composition(&image, clear, &many, LIMIT),
        Err(HandleError::InvalidParameter)
    ));
    assert!(queue
        .submit_composition(&image, clear, &many[1..], LIMIT)
        .is_ok());
    assert!(matches!(
        queue.submit_composition(&image, clear, &[fill], 1024),
        Err(HandleError::InvalidParameter)
    ));
    assert_eq!(composition_command_capacity(6, 1), Ok(16_384 + 72 * 4 + 200));
    assert_eq!(
        composition_command_capacity(usize::MAX, 0),
        Err(HandleError::InvalidParameter)
    );
}

#[test]
fn triangles_are_drawn_behind_a_clear() {
    let (context, queue, image, _) = device();
    let mut pipeline = context
        .register_pipeline(
            &image,
            50,
            6,
            IrCullMode::Back,
            IrFrontFace::CounterClockwise,
        )
        .unwrap();
    assert_eq!(context.pipeline_buffer_bytes(&image, 6), Ok(168));
    let vertex = VertexClip4Color3 {
        clip_position: bits([0.0, 0.5, 0.0, 1.0]),
        color: [0, 1, 2],
    };
    let clear = bits([0.0, 0.0, 0.0, 1.0]);
    let words = queue
        .submit(&image, 16, 8, clear, &pipeline, &[vertex; 3])
        .unwrap();
    let found = commands(&words);
    assert_eq!(count(&found, CCMD_CREATE_OBJECT, OBJECT_SHADER), 2);
    assert_eq!(count(&found, CCMD_BIND_SHADER, 0), 4);
    let write = found
        .iter()
        .find(|command| command.0 == CCMD_RESOURCE_INLINE_WRITE)
        .unwrap();
    assert_eq!(write.2[0], 50);
    assert_eq!(write.2.len(), 11 + 21);
    assert_eq!(write.2[11..15], vertex.clip_position);
    assert_eq!(write.2[15..18], vertex.color);
    let (code, _, draw) = found.last().unwrap();
    assert_eq!(*code, CCMD_DRAW_VBO);
    assert_eq!(draw[..3], [0, 3, 4]);
    assert_eq!(found[found.len() - 2].0, CCMD_CLEAR);

    pipeline.initialized = true;
    let words = queue
        .submit(&image, 16, 8, clear, &pipeline, &[vertex; 6])
        .unwrap();
    assert_eq!(
        commands(&words)
            .iter()
            .filter(|command| command.0 == CCMD_CREATE_OBJECT)
            .count(),
        0
    );
    for vertices in [0, 4, 9] {
        assert_eq!(
            queue.submit(&image, 16, 8, clear, &pipeline, &vec![vertex; vertices]),
            Err(HandleError::InvalidParameter)
        );
    }
    assert_eq!(
        queue.submit(&image, 0, 8, clear, &pipeline, &[vertex; 3]),
        Err(HandleError::InvalidParameter)
    );
}

fn spec(slot: usize) -> IrTextureSpec {
    IrTextureSpec {
        slot,
        width: 4,
        height: 4,
        sampled: true,
        render_attachment: true,
        copy_destination: true,
        present: false,
        format: IrTextureFormat::Bgra8,
    }
}

#[test]
fn copies_and_uploads_ask_for_missing_textures() {
    let (mut context, queue, _, texture) = device();
    let mut device = create_ir_resources(&mut context, 60).unwrap();
    let copy = IrTextureCopy {
        source: spec(0),
        source_rect: rect(0, 0, 2, 2),
        destination: spec(1),
        destination_rect: rect(2, 2, 2, 2),
    };
    assert_eq!(
        queue.copy_ir_texture(&context, &mut device, copy, Memory::System),
        Err(PassInterruption::CreateTexture(spec(0)))
    );
    device.install_texture(spec(0), texture);
    assert_eq!(
        queue.copy_ir_texture(&context, &mut device, copy, Memory::System),
        Err(PassInterruption::CreateTexture(spec(1)))
    );
    let second = context.register_texture(43, 4, 4).unwrap();
    device.install_texture(spec(1), second);
    let words = queue.copy_ir_texture(&context, &mut device, copy, Memory::System).unwrap();
    let found = commands(&words);
    assert_eq!(found.len(), 1);
    assert_eq!(found[0].0, CCMD_RESOURCE_COPY_REGION);
    assert_eq!(
        found[0].2,
        [43, 0, 2, 2, 0, 42, 0, 0, 0, 0, 2, 2, 1]
    );
    let upload = IrTextureUpload {
        texture: spec(1),
        destination: rect(0, 0, 2, 2),
        pixels: vec![0; 16],
    };
    assert_eq!(
        queue.upload_ir_texture(&context, &mut device, spec(1), &upload),
        Ok((second, 8))
    );
    assert_eq!(
        queue.upload_ir_texture(&context, &mut device, spec(0), &upload),
        Err(PassInterruption::Failed(HandleError::InvalidParameter))
    );
    let other = Context::new(9);
    assert_eq!(
        queue.copy_ir_texture(&other, &mut device, copy, Memory::System),
        Err(PassInterruption::Failed(HandleError::InvalidParameter))
    );
}

#[test]
fn samplers_and_pipelines_keep_their_handles() {
    let (mut context, _, _, _) = device();
    let mut device = create_ir_resources(&mut context, 60).unwrap();
    let state = IrSamplerState {
        slot: 2,
        min_filter: IrFilterMode::Linear,
        mag_filter: IrFilterMode::Nearest,
        address_u: IrAddressMode::ClampToEdge,
        address_v: IrAddressMode::Repeat,
    };
    let first = device.ir_sampler(&mut context, state).unwrap();
    assert_eq!(device.ir_sampler(&mut context, state), Ok(first));
    assert!(!first.initialized);
}

#[test]
fn planned_passes_are_encoded_performed_and_not_repeated() {
    let mut table = ResourceTable::new();
    let extent = Extent2D::new(16, 8).unwrap();
    let target = table
        .define_texture(
            TextureDesc::new(
                TextureFormat::Bgra8Unorm,
                extent,
                TextureUsage::render_attachment().union(TextureUsage::present()),
            )
            .unwrap(),
        )
        .unwrap();
    let sampled = table
        .define_texture(
            TextureDesc::new(
                TextureFormat::Rgba8Unorm,
                Extent2D::new(2, 2).unwrap(),
                TextureUsage::sampled().union(TextureUsage::copy_dst()),
            )
            .unwrap(),
        )
        .unwrap();
    let sampler = table
        .define_sampler(SamplerDesc::new(
            FilterMode::Linear,
            FilterMode::Linear,
            AddressMode::ClampToEdge,
            AddressMode::ClampToEdge,
        ))
        .unwrap();
    let vertices = table
        .define_buffer(
            BufferDesc::new(48, BufferUsage::vertex().union(BufferUsage::copy_dst())).unwrap(),
        )
        .unwrap();
    let pipeline = table
        .define_render_pipeline(
            RenderPipelineDesc::new(
                TextureFormat::Bgra8Unorm,
                PrimitiveTopology::TriangleList,
                VertexBufferLayout::new(
                    16,
                    vec![
                        VertexAttribute::new(0, VertexFormat::Float32x2, 0),
                        VertexAttribute::new(1, VertexFormat::Float32x2, 8),
                    ],
                )
                .unwrap(),
                FragmentProgram::Texture(TextureSampleMode::Rgba),
                BlendState::source_over_straight_alpha(),
                RasterState::new(CullMode::Disabled, FrontFace::Clockwise),
            )
            .unwrap(),
        )
        .unwrap();
    let one = 1.0f32.to_bits();
    let color = Color::rgba(one, one, one, one).unwrap();
    let area = PixelRect::new(0, 0, 16, 8).unwrap();
    let data = [0u8; 48];
    let pixels = [9u8; 16];
    let mut encoder = CommandEncoder::new(&table);
    encoder.write_buffer(vertices, 0, &data).unwrap();
    encoder
        .write_texture(
            sampled,
            TextureWrite::new(PixelRect::new(0, 0, 2, 2).unwrap(), 8, &pixels).unwrap(),
        )
        .unwrap();
    let desc =
        RenderPassDesc::new(&table, target, area, LoadOp::Clear(color), StoreOp::Store).unwrap();
    let mut pass = encoder.begin_render_pass(desc).unwrap();
    pass.set_pipeline(pipeline).unwrap();
    pass.set_texture(sampled).unwrap();
    pass.set_sampler(sampler).unwrap();
    pass.set_vertex_buffer(vertices, 0).unwrap();
    pass.set_uniforms(DrawUniforms::new(Transform::identity(), color))
        .unwrap();
    pass.draw(3, 0).unwrap();
    pass.end().unwrap();
    let buffer = encoder.finish().unwrap();

    let mut context = Context::new(3);
    let queue = context.register_queue(40).unwrap();
    let mut images = vec![context.register_image(41, 16, 8).unwrap()];
    let mut device = create_ir_resources(&mut context, 60).unwrap();
    let mut retained = Retained::new(&table, 3).unwrap();
    retained
        .map_image(
            &table,
            target.id(),
            RetainedImage {
                resource_id: 41,
                context_id: 3,
                width: 16,
                height: 8,
            },
        )
        .unwrap();
    let mut tokens = 70u64;
    let mut sizes = Vec::new();
    for round in 0..2 {
        register_mapped_images(&mut context, &mut device, &mut retained, &table, &images).unwrap();
        assert!(retained.images()[0].backend_registered);
        let plan = submit_ir(3, 3, &retained, &buffer).unwrap();
        assert_eq!(plan.events.len(), 2);
        for event in &plan.events {
            let work = loop {
                match queue.prepare_event(
                    &mut context,
                    &mut device,
                    &images,
                    event,
                    LIMIT,
                    Memory::System,
                ) {
                    Ok(work) => break work,
                    Err(PassInterruption::CreateTexture(spec)) => {
                        assert_eq!(round, 0);
                        let texture = context
                            .register_texture(tokens, spec.width, spec.height)
                            .unwrap();
                        tokens += 1;
                        device.install_texture(spec, texture);
                    }
                    Err(PassInterruption::Failed(error)) => panic!("failed: {error:?}"),
                }
            };
            match (&work, event) {
                (EventWork::Upload { texture, stride }, ExecutionEvent::Upload(..)) => {
                    assert_eq!((texture.resource_id, *stride), (70, 8));
                }
                (EventWork::Pass { prepared }, ExecutionEvent::Pass(_)) => {
                    let found = commands(&prepared.commands);
                    assert_eq!(count(&found, CCMD_DRAW_VBO, 0), 1);
                    assert_eq!(count(&found, CCMD_BIND_OBJECT, 1), 1);
                    sizes.push(
                        found
                            .iter()
                            .filter(|command| command.0 == CCMD_CREATE_OBJECT)
                            .count(),
                    );
                }
                _ => panic!("unexpected work"),
            }
            complete_event(&mut device, &mut images, event, &work).unwrap();
        }
        retained.commit_buffer_updates(plan.buffer_updates);
    }
    // Six shaders, the vertex layout, the surface, the view, the sampler and the
    // two pipeline objects are created by the first pass only.
    assert_eq!(sizes, [12, 0]);
    assert!(images[0].ir_surface_initialized);
    assert!(device.initialized);
}
