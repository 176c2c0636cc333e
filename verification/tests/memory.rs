//! What happens where requests for room are refused, and where they are granted.

use sgfx_core::driver::{
    HandleError, IrBlendComponent, IrBlendFactor, IrBlendOp, IrBlendState, IrCullMode, IrDraw,
    IrFragmentProgram, IrFrontFace, IrPipelineState, IrRect, IrSubmission, IrTextureCopy,
    IrTextureFormat, IrTextureSpec, IrTextureUpload, IrUniforms, IrVertex,
};
use sgfx_core::ir::{
    BlendState, BufferDesc, BufferRef, BufferUsage, Color, CommandEncoder, CullMode, DrawUniforms,
    Error, Extent2D, FragmentProgram, FrontFace, LoadOp, OwnedCommand, OwnedCommandBuffer,
    PixelRect, PrimitiveTopology, RasterState, RenderPassDesc, RenderPipelineDesc,
    RenderPipelineRef, ResourceTable, ShaderModuleDesc, ShaderStage, StoreOp, TextureDesc,
    TextureFormat, TextureRef, TextureUsage, TextureWrite, Transform, VertexAttribute,
    VertexBufferLayout, VertexFormat,
};
use sgfx_core::ir_execute::plan::{submit_ir, submit_ir_with};
use sgfx_core::ir_execute::upload::convert_texture_upload;
use sgfx_core::ir_execute::{IrResources as Retained, IrSubmitError, UnsupportedIrFeature};
use sgfx_core::memory::Memory;
use sgfx_core::virgl::resources::{
    create_ir_resources, create_ir_resources_with, PassInterruption,
};
use sgfx_core::virgl::state::Context;
use sgfx_core::virgl::target::IrPassTarget;

const GRANTED: Memory = Memory::Fixed(true);
const REFUSED: Memory = Memory::Fixed(false);
const LIMIT: u32 = 1 << 20;

struct Scene {
    table: ResourceTable,
    target: TextureRef,
    buffer: BufferRef,
    pipeline: RenderPipelineRef,
}

fn scene() -> Scene {
    let mut table = ResourceTable::new();
    let target = table
        .define_texture(
            TextureDesc::new(
                TextureFormat::Bgra8Unorm,
                Extent2D::new(8, 8).unwrap(),
                TextureUsage::render_attachment().union(TextureUsage::copy_dst()),
            )
            .unwrap(),
        )
        .unwrap();
    let buffer = table
        .define_buffer(
            BufferDesc::new(64, BufferUsage::vertex().union(BufferUsage::copy_dst())).unwrap(),
        )
        .unwrap();
    let pipeline = table
        .define_render_pipeline(
            RenderPipelineDesc::new(
                TextureFormat::Bgra8Unorm,
                PrimitiveTopology::TriangleList,
                VertexBufferLayout::new(
                    8,
                    vec![VertexAttribute::new(0, VertexFormat::Float32x2, 0)],
                )
                .unwrap(),
                FragmentProgram::Solid,
                BlendState::replace(),
                RasterState::new(CullMode::Disabled, FrontFace::Clockwise),
            )
            .unwrap(),
        )
        .unwrap();
    Scene {
        table,
        target,
        buffer,
        pipeline,
    }
}

fn uniforms() -> DrawUniforms {
    let one = 1.0f32.to_bits();
    DrawUniforms::new(
        Transform::identity(),
        Color::rgba(one, one, one, one).unwrap(),
    )
}

fn full() -> PixelRect {
    PixelRect::new(0, 0, 8, 8).unwrap()
}

#[test]
fn requests_are_answered_as_fixed() {
    let mut list = vec![1u8];
    assert!(Memory::System.reserve(&mut list, 8));
    assert!(GRANTED.reserve(&mut list, usize::MAX));
    assert!(!REFUSED.reserve(&mut list, 0));
    assert!(!Memory::System.reserve(&mut list, usize::MAX));
    assert_eq!(list, vec![1]);
}

#[test]
fn refused_commands_record_nothing_and_keep_their_own_errors() {
    let scene = scene();
    let mut encoder = CommandEncoder::with_memory(&scene.table, REFUSED);
    assert_eq!(
        encoder.write_buffer(scene.buffer, 0, &[1; 4]),
        Err(Error::OutOfMemory)
    );
    assert_eq!(
        encoder.write_buffer(scene.buffer, 64, &[1; 4]),
        Err(Error::OutOfBounds)
    );
    assert_eq!(
        encoder.begin_compute_pass().err(),
        Some(Error::OutOfMemory)
    );
    assert_eq!(encoder.finish().unwrap().command_count(), 0);

    let mut encoder = CommandEncoder::with_memory(&scene.table, GRANTED);
    encoder.write_buffer(scene.buffer, 0, &[1; 4]).unwrap();
    let desc = RenderPassDesc::new(
        &scene.table,
        scene.target,
        full(),
        LoadOp::Load,
        StoreOp::Store,
    )
    .unwrap();
    let mut pass = encoder.begin_render_pass(desc).unwrap();
    pass.set_pipeline(scene.pipeline).unwrap();
    pass.set_vertex_buffer(scene.buffer, 0).unwrap();
    pass.set_uniforms(uniforms()).unwrap();
    pass.draw(3, 0).unwrap();
    pass.end().unwrap();
    assert_eq!(encoder.finish().unwrap().command_count(), 7);
}

#[test]
fn tables_refuse_definitions_without_room() {
    let desc = BufferDesc::new(4, BufferUsage::vertex()).unwrap();
    let mut refusing = ResourceTable::with_identity_and_memory(7, REFUSED);
    assert_eq!(refusing.define_buffer(desc), Err(Error::OutOfMemory));
    let mut granting = ResourceTable::with_identity_and_memory(7, GRANTED);
    let reference = granting.define_buffer(desc).unwrap();
    assert_eq!(granting.buffer(reference), Ok(desc));
}

#[test]
fn recordings_repeat_where_room_is_granted() {
    let scene = scene();
    let write = OwnedCommand::WriteBuffer {
        buffer: scene.buffer.id(),
        offset: 0,
        data: vec![1, 2, 3, 4],
    };
    let recording = OwnedCommandBuffer::new(vec![write.clone(), write.clone()]);
    let first = recording.record_with(&scene.table, GRANTED).unwrap();
    let second = recording.record_with(&scene.table, GRANTED).unwrap();
    assert_eq!(first.command_count(), 2);
    assert_eq!(
        format!("{:?}", first.commands()),
        format!("{:?}", second.commands())
    );
    assert_eq!(
        recording.validate_with(&scene.table, REFUSED),
        Err(Error::OutOfMemory)
    );
    let nested = OwnedCommandBuffer::new(vec![OwnedCommand::EndRenderPass, write]);
    assert_eq!(
        nested.validate_with(&scene.table, REFUSED),
        Err(Error::InvalidDescriptor)
    );
    let empty = OwnedCommandBuffer::new(Vec::new());
    assert_eq!(empty.validate_with(&scene.table, REFUSED), Ok(()));
}

#[test]
fn modules_without_entry_points_need_no_room() {
    let header = vec![0x0723_0203, 0x0001_0000, 0, 8, 0];
    assert!(ShaderModuleDesc::spirv_with(header.clone(), REFUSED).is_ok());
    let mut words = header.clone();
    words.extend([(5 << 16) | 15, 5, 1, u32::from_le_bytes(*b"main"), 0]);
    assert_eq!(
        ShaderModuleDesc::spirv_with(words.clone(), REFUSED).err(),
        Some(Error::OutOfMemory)
    );
    let module = ShaderModuleDesc::spirv_with(words.clone(), GRANTED).unwrap();
    assert!(module.has_entry_point(ShaderStage::Compute, "main"));
    words[6] = 9;
    assert_eq!(
        ShaderModuleDesc::spirv_with(words, REFUSED).err(),
        Some(Error::InvalidDescriptor)
    );
}

#[test]
fn plans_need_room_for_what_they_store() {
    let scene = scene();
    assert_eq!(
        Retained::with_memory(&scene.table, 3, REFUSED).err(),
        Some(IrSubmitError::OutOfMemory)
    );
    let retained = Retained::with_memory(&scene.table, 3, GRANTED).unwrap();
    let pixels = [1u8, 2, 3, 4];
    let mut encoder = CommandEncoder::new(&scene.table);
    encoder
        .write_texture(
            scene.target,
            TextureWrite::new(PixelRect::new(0, 0, 1, 1).unwrap(), 4, &pixels).unwrap(),
        )
        .unwrap();
    let commands = encoder.finish().unwrap();
    assert_eq!(
        submit_ir_with(3, 3, &retained, &commands, REFUSED).err(),
        Some(IrSubmitError::OutOfMemory)
    );
    let granted = submit_ir_with(3, 3, &retained, &commands, GRANTED).unwrap();
    let system = submit_ir(3, 3, &retained, &commands).unwrap();
    assert_eq!(granted.events.len(), 1);
    assert_eq!(system.events.len(), 1);

    let empty = CommandEncoder::new(&scene.table).finish().unwrap();
    assert_eq!(
        submit_ir_with(3, 3, &retained, &empty, REFUSED).err(),
        Some(IrSubmitError::Unsupported(
            UnsupportedIrFeature::CommandSequence
        ))
    );
    assert_eq!(
        submit_ir_with(4, 3, &retained, &commands, REFUSED).err(),
        Some(IrSubmitError::ContextMismatch)
    );
}

fn spec(slot: usize) -> IrTextureSpec {
    IrTextureSpec {
        slot,
        width: 2,
        height: 2,
        sampled: true,
        render_attachment: false,
        copy_destination: true,
        present: false,
        format: IrTextureFormat::Rgba8,
    }
}

fn rect(width: u32, height: u32) -> IrRect {
    IrRect {
        x: 0,
        y: 0,
        width,
        height,
    }
}

#[test]
fn conversions_check_their_input_before_asking_for_room() {
    let pixels = [1u8, 2, 3, 4];
    let write = TextureWrite::new(PixelRect::new(0, 0, 1, 1).unwrap(), 4, &pixels).unwrap();
    let upload = convert_texture_upload(spec(0), write, GRANTED).unwrap();
    assert_eq!(upload.pixels, vec![3, 2, 1, 4]);
    assert_eq!(
        convert_texture_upload(spec(0), write, REFUSED).err(),
        Some(IrSubmitError::OutOfMemory)
    );
    let short = TextureWrite::new(PixelRect::new(0, 0, 2, 1).unwrap(), 8, &pixels).unwrap();
    assert_eq!(
        convert_texture_upload(spec(0), short, REFUSED).err(),
        Some(IrSubmitError::InvalidVertexData)
    );
}

fn submission(texture_uploads: Vec<IrTextureUpload>) -> IrSubmission {
    let component = IrBlendComponent {
        source_factor: IrBlendFactor::One,
        destination_factor: IrBlendFactor::Zero,
        operation: IrBlendOp::Add,
    };
    let one = 1.0f32.to_bits();
    let mut transform = [0u32; 16];
    for i in 0..4 {
        transform[5 * i] = one;
    }
    IrSubmission {
        clear_color: None,
        render_area: rect(16, 8),
        vertices: vec![
            IrVertex {
                position: [0, 0, 0, one],
                secondary: [one; 4],
            };
            3
        ],
        draws: vec![IrDraw {
            start_vertex: 0,
            vertex_count: 3,
            pipeline: IrPipelineState {
                slot: 0,
                fragment: IrFragmentProgram::Solid,
                blend: IrBlendState {
                    color: component,
                    alpha: component,
                },
                cull_mode: IrCullMode::Disabled,
                front_face: IrFrontFace::Clockwise,
            },
            texture: None,
            sampler: None,
            uniforms: IrUniforms {
                transform,
                color: [one; 4],
            },
            scissor: rect(16, 8),
        }],
        texture_uploads,
    }
}

#[test]
fn passes_name_their_uploads_and_refuse_those_without_a_texture() {
    let mut context = Context::new(3);
    let queue = context.register_queue(40).unwrap();
    let texture = context.register_texture(42, 2, 2).unwrap();
    assert_eq!(
        create_ir_resources_with(&mut context, 60, REFUSED).err(),
        Some(HandleError::OutOfResources)
    );
    let mut device = create_ir_resources(&mut context, 60).unwrap();
    let target = IrPassTarget {
        resource_id: 9,
        surface_handle: 8,
        surface_initialized: true,
        width: 16,
        height: 8,
    };
    let upload = |destination| IrTextureUpload {
        texture: spec(5),
        destination,
        pixels: vec![0; 16],
    };
    let pass = submission(vec![upload(rect(2, 2))]);
    assert_eq!(
        queue
            .submit_ir_target(&mut context, &mut device, target, &pass, LIMIT, REFUSED)
            .err(),
        Some(PassInterruption::Failed(HandleError::OutOfResources))
    );
    assert_eq!(
        queue
            .submit_ir_target(&mut context, &mut device, target, &pass, LIMIT, GRANTED)
            .err(),
        Some(PassInterruption::CreateTexture(spec(5)))
    );
    device.install_texture(spec(5), texture);
    let prepared = queue
        .submit_ir_target(&mut context, &mut device, target, &pass, LIMIT, GRANTED)
        .unwrap();
    assert_eq!(prepared.uploads.len(), 1);
    assert_eq!(
        (prepared.uploads[0].0.resource_id, prepared.uploads[0].1),
        (42, 8)
    );
    for destination in [rect(0, 2), rect(0x4000_0000, 1)] {
        let pass = submission(vec![upload(rect(2, 2)), upload(destination)]);
        assert_eq!(
            queue
                .submit_ir_target(&mut context, &mut device, target, &pass, LIMIT, GRANTED)
                .err(),
            Some(PassInterruption::Failed(HandleError::InvalidParameter))
        );
    }
    let copy = IrTextureCopy {
        source: spec(5),
        source_rect: rect(1, 1),
        destination: spec(5),
        destination_rect: rect(1, 1),
    };
    assert_eq!(
        queue.copy_ir_texture(&context, &mut device, copy, REFUSED),
        Err(PassInterruption::Failed(HandleError::OutOfResources))
    );
    assert!(queue
        .copy_ir_texture(&context, &mut device, copy, GRANTED)
        .is_ok());
}

#[test]
fn compositions_need_room_once_they_suit_the_image() {
    let mut context = Context::new(3);
    let queue = context.register_queue(40).unwrap();
    let image = context.register_image(41, 16, 8).unwrap();
    let clear = [0, 0, 0, 1.0f32.to_bits()];
    assert_eq!(
        queue
            .submit_composition_with(&image, clear, &[], LIMIT, REFUSED)
            .err(),
        Some(HandleError::OutOfResources)
    );
    assert_eq!(
        queue
            .submit_composition_with(&image, [2.0f32.to_bits(); 4], &[], LIMIT, REFUSED)
            .err(),
        Some(HandleError::InvalidParameter)
    );
    let granted = queue
        .submit_composition_with(&image, clear, &[], LIMIT, GRANTED)
        .unwrap();
    let system = queue.submit_composition(&image, clear, &[], LIMIT).unwrap();
    assert_eq!(granted.commands, system.commands);
}
