//! Validation and replay of owned recordings.

use sgfx_core::ir::{
    Command, CommandEncoder, MAX_COMMANDS, OwnedCommand, OwnedCommandBuffer,
    OwnedRenderPassDesc, OwnedResourceBarrier, BindGroupDesc, BindGroupEntry,
    BindGroupLayoutDesc, BindGroupLayoutEntry, BindingResource, BindingType, BufferAccess,
    ComputePipelineDesc, PipelineLayoutDesc, ResourceBarrier, ShaderEntryPoint, LoadOp,
    StoreOp, BufferDesc, BufferUsage, TextureDesc, TextureFormat, TextureUsage,
    ShaderModuleDesc, ShaderStage, ShaderStages, ResourceTable, Error, Extent2D, PixelRect,
};

fn render_desc(resources: &mut ResourceTable) -> OwnedRenderPassDesc {
    let target = resources
        .define_texture(
            TextureDesc::new(
                TextureFormat::Rgba8Unorm,
                Extent2D::new(4, 4).unwrap(),
                TextureUsage::render_attachment(),
            )
            .unwrap(),
        )
        .unwrap()
        .id();
    OwnedRenderPassDesc {
        target,
        area: PixelRect::new(0, 0, 4, 4).unwrap(),
        load: LoadOp::DontCare,
        store: StoreOp::Store,
        depth: None,
    }
}

#[test]
fn replay_borrows_owned_upload_bytes_and_can_be_repeated() {
    let mut resources = ResourceTable::new();
    let buffer = resources
        .define_buffer(BufferDesc::new(16, BufferUsage::copy_dst()).unwrap())
        .unwrap()
        .id();
    let data = vec![1, 2, 3, 4];
    let source_address = data.as_ptr();
    let recording = OwnedCommandBuffer::new(vec![OwnedCommand::WriteBuffer {
        buffer,
        offset: 4,
        data,
    }]);
    for _ in 0..2 {
        let commands = recording.record(&resources).unwrap();
        match &commands.commands()[0] {
            Command::WriteBuffer {
                buffer: actual_buffer,
                offset,
                data,
            } => {
                assert_eq!(actual_buffer.id(), buffer);
                assert_eq!(*offset, 4);
                assert_eq!(*data, [1, 2, 3, 4]);
                assert_eq!(data.as_ptr(), source_address);
            }
            _ => panic!("expected the recorded upload"),
        }
    }
}

#[test]
fn replay_rejects_foreign_resource_identities() {
    let mut owner = ResourceTable::new();
    let mut foreign = ResourceTable::new();
    let buffer = owner
        .define_buffer(BufferDesc::new(4, BufferUsage::copy_dst()).unwrap())
        .unwrap()
        .id();
    // A matching slot and descriptor do not make identities interchangeable.
    foreign
        .define_buffer(BufferDesc::new(4, BufferUsage::copy_dst()).unwrap())
        .unwrap();
    let recording = OwnedCommandBuffer::new(vec![OwnedCommand::WriteBuffer {
        buffer,
        offset: 0,
        data: vec![1, 2, 3, 4],
    }]);
    assert_eq!(
        recording.validate(&foreign),
        Err(Error::ResourceTableMismatch)
    );
    assert_eq!(recording.validate(&owner), Ok(()));
}

#[test]
fn upload_errors_match_borrowed_encoder_validation() {
    let mut resources = ResourceTable::new();
    let buffer = resources
        .define_buffer(BufferDesc::new(4, BufferUsage::copy_dst()).unwrap())
        .unwrap();
    for (offset, data) in [(0, vec![]), (3, vec![1, 2]), (u64::MAX, vec![1])] {
        let mut borrowed = CommandEncoder::new(&resources);
        let expected = borrowed.write_buffer(buffer, offset, &data);
        let recording = OwnedCommandBuffer::new(vec![OwnedCommand::WriteBuffer {
            buffer: buffer.id(),
            offset,
            data: data.clone(),
        }]);
        assert!(expected.is_err());
        assert_eq!(recording.validate(&resources), expected);
    }
}

#[test]
fn replay_preserves_sequential_render_and_compute_passes() {
    let mut resources = ResourceTable::new();
    let desc = render_desc(&mut resources);
    let recording = OwnedCommandBuffer::new(vec![
        OwnedCommand::BeginRenderPass(desc),
        OwnedCommand::EndRenderPass,
        OwnedCommand::BeginComputePass,
        OwnedCommand::EndComputePass,
        OwnedCommand::BeginRenderPass(desc),
        OwnedCommand::EndRenderPass,
    ]);
    let commands = recording.record(&resources).unwrap();
    assert_eq!(commands.command_count(), 6);
    assert!(matches!(
        commands.commands()[0],
        Command::BeginRenderPass(_)
    ));
    assert!(matches!(commands.commands()[1], Command::EndRenderPass));
    assert!(matches!(commands.commands()[2], Command::BeginComputePass));
    assert!(matches!(commands.commands()[3], Command::EndComputePass));
    assert!(matches!(
        commands.commands()[4],
        Command::BeginRenderPass(_)
    ));
    assert!(matches!(commands.commands()[5], Command::EndRenderPass));
}

#[test]
fn replay_resolves_compute_bindings_barriers_and_copies() {
    let mut resources = ResourceTable::new();
    let source = resources
        .define_buffer(
            BufferDesc::new(
                4,
                BufferUsage::storage() | BufferUsage::copy_src() | BufferUsage::copy_dst(),
            )
            .unwrap(),
        )
        .unwrap()
        .id();
    let destination = resources
        .define_buffer(BufferDesc::new(4, BufferUsage::copy_dst()).unwrap())
        .unwrap()
        .id();
    let layout = BindGroupLayoutDesc::new(vec![BindGroupLayoutEntry::new(
        0,
        ShaderStages::compute(),
        BindingType::StorageBuffer { read_only: false },
    )])
    .unwrap();
    let bind_group = resources
        .define_bind_group(
            BindGroupDesc::new(
                &resources,
                layout.clone(),
                vec![BindGroupEntry::new(
                    0,
                    BindingResource::Buffer {
                        buffer: source,
                        offset: 0,
                        size: 4,
                    },
                )],
            )
            .unwrap(),
        )
        .unwrap()
        .id();
    let shader = resources
        .define_shader_module(
            ShaderModuleDesc::wgsl(String::from(
                "@group(0) @binding(0) var<storage, read_write> value: u32;\n\
                 @compute @workgroup_size(1) fn main() { value = value + 1u; }",
            ))
            .unwrap(),
        )
        .unwrap();
    let pipeline = resources
        .define_compute_pipeline(
            ComputePipelineDesc::new(
                ShaderEntryPoint::new(&resources, shader, ShaderStage::Compute, String::from("main"))
                    .unwrap(),
                PipelineLayoutDesc::new(vec![layout]).unwrap(),
            )
            .unwrap(),
        )
        .unwrap()
        .id();
    let recording = OwnedCommandBuffer::new(vec![
        OwnedCommand::WriteBuffer {
            buffer: source,
            offset: 0,
            data: vec![0; 4],
        },
        OwnedCommand::ResourceBarrier(OwnedResourceBarrier::Buffer {
            buffer: source,
            before: BufferAccess::CopyDestination,
            after: BufferAccess::StorageReadWrite,
        }),
        OwnedCommand::BeginComputePass,
        OwnedCommand::SetComputePipeline(pipeline),
        OwnedCommand::SetBindGroup {
            index: 0,
            bind_group,
        },
        OwnedCommand::Dispatch { x: 1, y: 2, z: 3 },
        OwnedCommand::EndComputePass,
        OwnedCommand::ResourceBarrier(OwnedResourceBarrier::Buffer {
            buffer: source,
            before: BufferAccess::StorageReadWrite,
            after: BufferAccess::CopySource,
        }),
        OwnedCommand::CopyBufferToBuffer {
            source,
            source_offset: 0,
            destination,
            destination_offset: 0,
            size: 4,
        },
    ]);
    let commands = recording.record(&resources).unwrap();
    assert_eq!(commands.command_count(), 9);
    assert!(matches!(
        commands.commands()[5],
        Command::Dispatch { x: 1, y: 2, z: 3 }
    ));
    assert!(matches!(
        commands.commands()[8],
        Command::CopyBufferToBuffer { size: 4, .. }
    ));
}

#[test]
fn replay_rejects_unmatched_and_nested_pass_commands() {
    let mut resources = ResourceTable::new();
    let desc = render_desc(&mut resources);
    for commands in [
        vec![OwnedCommand::EndRenderPass],
        vec![OwnedCommand::EndComputePass],
        vec![OwnedCommand::BeginRenderPass(desc)],
        vec![OwnedCommand::BeginComputePass],
        vec![
            OwnedCommand::BeginRenderPass(desc),
            OwnedCommand::EndComputePass,
        ],
        vec![OwnedCommand::BeginComputePass, OwnedCommand::EndRenderPass],
        vec![
            OwnedCommand::BeginRenderPass(desc),
            OwnedCommand::BeginComputePass,
        ],
        vec![
            OwnedCommand::BeginComputePass,
            OwnedCommand::BeginRenderPass(desc),
        ],
        vec![OwnedCommand::Dispatch { x: 1, y: 1, z: 1 }],
    ] {
        assert_eq!(
            OwnedCommandBuffer::new(commands).validate(&resources),
            Err(Error::InvalidDescriptor)
        );
    }
}

#[test]
fn replay_enforces_canonical_command_capacity() {
    let mut resources = ResourceTable::new();
    let buffer = resources
        .define_buffer(BufferDesc::new(4, BufferUsage::copy_dst()).unwrap())
        .unwrap()
        .id();
    let command = OwnedCommand::WriteBuffer {
        buffer,
        offset: 0,
        data: vec![1, 2, 3, 4],
    };
    let at_limit = OwnedCommandBuffer::new(vec![command.clone(); MAX_COMMANDS]);
    assert_eq!(at_limit.validate(&resources), Ok(()));
    let above_limit = OwnedCommandBuffer::new(vec![command; MAX_COMMANDS + 1]);
    assert_eq!(
        above_limit.validate(&resources),
        Err(Error::CommandLimitExceeded)
    );
}

#[test]
fn replayed_commands_are_the_borrowed_forms_of_the_owned_ones() {
    let mut resources = ResourceTable::new();
    let desc = render_desc(&mut resources);
    let recording = OwnedCommandBuffer::new(vec![
        OwnedCommand::BeginRenderPass(desc),
        OwnedCommand::SetScissor(Some(desc.area)),
        OwnedCommand::EndRenderPass,
    ]);
    assert_eq!(recording.validate(&resources), Ok(()));
    let buffer = recording.record(&resources).unwrap();
    assert_eq!(buffer.command_count(), recording.command_count());
    match &buffer.commands()[0] {
        Command::BeginRenderPass(pass) => {
            assert_eq!(pass.target().id(), desc.target);
            assert_eq!(pass.area(), desc.area);
        }
        _ => panic!("expected a pass"),
    }
    assert!(matches!(
        buffer.commands()[1],
        Command::SetScissor(Some(area)) if area == desc.area
    ));
    assert!(matches!(buffer.commands()[2], Command::EndRenderPass));
    let refused = OwnedCommandBuffer::new(vec![OwnedCommand::EndRenderPass]);
    assert_eq!(refused.validate(&resources), Err(Error::InvalidDescriptor));
}
