//! Exact values of descriptors, tables and the accesses that they order.

use sgfx_core::ir::access::{contains_part, AccessTracker};
use sgfx_core::ir::float::{is_at_most, is_finite, is_in_unit_interval, sum_is_at_most};
use sgfx_core::ir::sort::sort;
use sgfx_core::ir::table::push_reserved;
use sgfx_core::ir::{
    Access, AddressMode, BindGroupLayoutEntry, BindingType, BlendFactor, BlendOp, BlendState,
    BufferAccess, BufferDesc, BufferUsage, CommandEncoder, CompareFunction, CullMode, DepthState,
    Error, Extent2D, FilterMode, FragmentProgram, FrontFace, IndexFormat, OwnedCommand,
    OwnedCommandBuffer, PixelRect, PrimitiveTopology, RasterState, RenderPipelineDesc,
    ResourcePart, ResourceTable, SamplerDesc, ShaderStage, ShaderStages, TextureAccess,
    TextureDesc, TextureFormat, TextureUsage, VertexAttribute, VertexBufferLayout, VertexFormat,
    Viewport, MAX_COMMANDS, MAX_SAMPLERS,
};

const NUMBERS: [f32; 16] = [
    0.0,
    -0.0,
    f32::MIN_POSITIVE,
    -f32::MIN_POSITIVE,
    1.0e-45,
    0.25,
    0.999_999_94,
    1.0,
    1.000_000_1,
    -1.0,
    2.5,
    1920.0,
    1_920.000_1,
    16_777_216.0,
    f32::MAX,
    f32::MIN,
];

fn texture(format: TextureFormat, width: u32, height: u32) -> TextureDesc {
    TextureDesc::new(
        format,
        Extent2D::new(width, height).unwrap(),
        TextureUsage::sampled(),
    )
    .unwrap()
}

fn sampler() -> SamplerDesc {
    SamplerDesc::new(
        FilterMode::Linear,
        FilterMode::Nearest,
        AddressMode::Repeat,
        AddressMode::ClampToEdge,
    )
}

#[test]
fn bit_patterns_are_judged_as_the_numbers_they_encode() {
    for value in NUMBERS {
        let bits = value.to_bits();
        assert!(is_finite(bits));
        assert_eq!(is_in_unit_interval(bits), (0.0..=1.0).contains(&value));
        for other in NUMBERS {
            assert_eq!(is_at_most(bits, other.to_bits()), value <= other);
            // A sum of two doubles is compared where it is exact.
            let (a, b) = (f64::from(value), f64::from(other));
            let exact = (a + b) - a == b && (a + b) - b == a;
            if value >= 0.0 && other >= 0.0 && exact {
                for limit in [1, 2, 1920, 16_777_216, u32::MAX] {
                    assert_eq!(
                        sum_is_at_most(bits, other.to_bits(), limit),
                        a + b <= f64::from(limit),
                        "{value} + {other} <= {limit}"
                    );
                }
            }
        }
    }
    assert!(sum_is_at_most(0.0f32.to_bits(), 1.0f32.to_bits(), 1));
    assert!(!sum_is_at_most(1, 1.0f32.to_bits(), 1));
    for value in [f32::INFINITY, f32::NEG_INFINITY, f32::NAN, -f32::NAN] {
        assert!(!is_finite(value.to_bits()));
        assert!(!is_in_unit_interval(value.to_bits()));
    }
}

#[test]
fn texture_levels_halve_and_sizes_add_up() {
    assert_eq!(TextureFormat::R8Unorm.bytes_per_pixel(), 1);
    assert_eq!(TextureFormat::Rgba8UnormSrgb.bytes_per_pixel(), 4);
    assert_eq!(TextureFormat::Depth32Float.bytes_per_pixel(), 4);

    let desc = texture(TextureFormat::Rgba8Unorm, 8, 3)
        .with_mip_level_count(4)
        .unwrap();
    let extents = [(8, 3), (4, 1), (2, 1), (1, 1)];
    for (level, (width, height)) in extents.into_iter().enumerate() {
        assert_eq!(desc.mip_extent(level as u32), Extent2D::new(width, height));
    }
    assert_eq!(desc.mip_extent(4), Err(Error::OutOfBounds));
    assert_eq!(desc.byte_size(), Ok(4 * (24 + 4 + 2 + 1)));
    let layers = desc.with_array_layer_count(6).unwrap();
    assert_eq!(layers.byte_size(), Ok(6 * 4 * (24 + 4 + 2 + 1)));
    assert_eq!(texture(TextureFormat::R8Unorm, 5, 3).byte_size(), Ok(15));
    assert_eq!(
        texture(TextureFormat::Rgba8Unorm, u32::MAX, u32::MAX).byte_size(),
        Err(Error::Overflow)
    );
    assert_eq!(
        texture(TextureFormat::R8Unorm, u32::MAX, u32::MAX).byte_size(),
        Ok(u64::from(u32::MAX) * u64::from(u32::MAX))
    );
}

#[test]
fn formats_that_differ_in_encoding_share_views() {
    let formats = [
        TextureFormat::R8Unorm,
        TextureFormat::Rgba8Unorm,
        TextureFormat::Rgba8UnormSrgb,
        TextureFormat::Bgra8Unorm,
        TextureFormat::Depth32Float,
    ];
    for (i, left) in formats.into_iter().enumerate() {
        for (j, right) in formats.into_iter().enumerate() {
            let expected = i == j || (i == 1 && j == 2) || (i == 2 && j == 1);
            assert_eq!(left.view_compatible(right), expected);
        }
    }
}

#[test]
fn samplers_check_their_levels_of_detail() {
    let plain = sampler();
    assert_eq!(plain.compare(), None);
    let mipped = plain
        .with_mip_filter(FilterMode::Linear, (-0.0f32).to_bits(), 3.5f32.to_bits())
        .unwrap();
    assert_eq!(mipped.mip_filter(), FilterMode::Linear);
    assert_eq!(mipped.min_lod(), 0);
    assert_eq!(mipped.max_lod(), 3.5f32.to_bits());
    assert_eq!(mipped.min_filter(), FilterMode::Linear);
    assert_eq!(mipped.mag_filter(), FilterMode::Nearest);
    for (min, max) in [
        (-1.0, 1.0),
        (2.0, 1.0),
        (0.0, f32::INFINITY),
        (f32::NAN, 1.0),
    ] {
        assert_eq!(
            plain.with_mip_filter(FilterMode::Linear, min.to_bits(), max.to_bits()),
            Err(Error::InvalidValue)
        );
    }
    assert_eq!(
        mipped.with_compare(Some(CompareFunction::Less)).compare(),
        Some(CompareFunction::Less)
    );
}

#[test]
fn blend_presets_name_their_factors() {
    let cases = [
        (
            BlendState::replace(),
            (BlendFactor::One, BlendFactor::Zero),
            (BlendFactor::One, BlendFactor::Zero),
        ),
        (
            BlendState::source_over_straight_alpha(),
            (BlendFactor::SourceAlpha, BlendFactor::OneMinusSourceAlpha),
            (BlendFactor::One, BlendFactor::OneMinusSourceAlpha),
        ),
        (
            BlendState::destination_in(),
            (BlendFactor::Zero, BlendFactor::SourceAlpha),
            (BlendFactor::Zero, BlendFactor::SourceAlpha),
        ),
    ];
    for (state, color, alpha) in cases {
        for (component, (source, destination)) in [(state.color(), color), (state.alpha(), alpha)] {
            assert_eq!(component.source_factor(), source);
            assert_eq!(component.destination_factor(), destination);
            assert_eq!(component.operation(), BlendOp::Add);
        }
    }
}

#[test]
fn vertex_and_index_values_have_fixed_widths() {
    assert_eq!(VertexFormat::Float32x2.byte_size(), 8);
    assert_eq!(VertexFormat::Float32x3.byte_size(), 12);
    assert_eq!(VertexFormat::Float32x4.byte_size(), 16);
    assert_eq!(VertexFormat::Unorm8x4.byte_size(), 4);
    assert_eq!(VertexFormat::Sint32.byte_size(), 4);
    assert_eq!(IndexFormat::Uint16.byte_size(), 2);
    assert_eq!(IndexFormat::Uint32.byte_size(), 4);
}

#[test]
fn depth_state_needs_a_depth_format() {
    let layout = VertexBufferLayout::new(
        8,
        vec![VertexAttribute::new(0, VertexFormat::Float32x2, 0)],
    )
    .unwrap();
    let desc = RenderPipelineDesc::new(
        TextureFormat::Rgba8Unorm,
        PrimitiveTopology::TriangleList,
        layout,
        FragmentProgram::Solid,
        BlendState::replace(),
        RasterState::new(CullMode::Back, FrontFace::Clockwise),
    )
    .unwrap();
    assert_eq!(desc.depth_state(), None);
    let depth = DepthState::new(TextureFormat::Depth32Float, CompareFunction::Less, true);
    assert_eq!(
        desc.clone().with_depth_stencil(depth).unwrap().depth_state(),
        Some(depth)
    );
    let color = DepthState::new(TextureFormat::Rgba8Unorm, CompareFunction::Less, true);
    assert!(matches!(
        desc.with_depth_stencil(color),
        Err(Error::InvalidDescriptor)
    ));
}

#[test]
fn rectangles_compare_with_extents_by_their_edges() {
    let extent = Extent2D::new(10, 4).unwrap();
    let rect = |x, y, width, height| PixelRect::new(x, y, width, height).unwrap();
    assert!(rect(0, 0, 10, 4).is_within(extent));
    assert!(rect(9, 3, 1, 1).is_within(extent));
    assert!(!rect(9, 3, 2, 1).is_within(extent));
    assert!(!rect(9, 3, 1, 2).is_within(extent));
    assert!(rect(0, 0, 3, 2).same_extent(rect(7, 1, 3, 2)));
    assert!(!rect(0, 0, 3, 2).same_extent(rect(0, 0, 2, 3)));
    assert!(PixelRect::new(u32::MAX, 0, 1, 1).is_err());
}

#[test]
fn viewports_are_finite_and_not_empty() {
    let viewport = |values: [f32; 6]| {
        let bits = values.map(f32::to_bits);
        Viewport::new(bits[0], bits[1], bits[2], bits[3], bits[4], bits[5])
    };
    assert!(viewport([0.0, 0.0, 1.0, 1.0, 0.0, 1.0]).is_ok());
    assert!(viewport([-4.0, -4.0, 0.5, 0.5, 1.0, 1.0]).is_ok());
    for values in [
        [f32::NAN, 0.0, 1.0, 1.0, 0.0, 1.0],
        [0.0, f32::INFINITY, 1.0, 1.0, 0.0, 1.0],
        [0.0, 0.0, 0.0, 1.0, 0.0, 1.0],
        [0.0, 0.0, 1.0, -1.0, 0.0, 1.0],
        [0.0, 0.0, 1.0, 1.0, 0.75, 0.25],
        [0.0, 0.0, 1.0, 1.0, 0.0, 1.5],
        [0.0, 0.0, 1.0, 1.0, -0.5, 1.0],
    ] {
        assert!(matches!(viewport(values), Err(Error::InvalidValue)));
    }
}

#[test]
fn sets_of_stages_hold_their_stages() {
    let all = ShaderStages::vertex()
        .union(ShaderStages::fragment())
        .union(ShaderStages::compute());
    for stage in [
        ShaderStage::Vertex,
        ShaderStage::Fragment,
        ShaderStage::Compute,
    ] {
        assert!(all.contains(ShaderStages::of_stage(stage)));
        assert!(!ShaderStages::empty().contains(ShaderStages::of_stage(stage)));
    }
    assert_eq!(
        ShaderStages::of_stage(ShaderStage::Fragment),
        ShaderStages::fragment()
    );
}

#[test]
fn sorting_keeps_items_and_orders_keys() {
    let entry = |binding| {
        BindGroupLayoutEntry::new(binding, ShaderStages::vertex(), BindingType::UniformBuffer)
    };
    let sorted = sort(vec![entry(5), entry(0), entry(3), entry(5), entry(1)]);
    assert_eq!(
        sorted,
        vec![entry(0), entry(1), entry(3), entry(5), entry(5)]
    );
}

#[test]
fn bounded_lists_report_limits_before_memory() {
    let mut items = vec![7u8];
    assert_eq!(push_reserved(&mut items, 8, 2, false), Err(Error::OutOfMemory));
    assert_eq!(push_reserved(&mut items, 8, 2, true), Ok(1));
    assert_eq!(
        push_reserved(&mut items, 9, 2, false),
        Err(Error::ResourceLimitExceeded)
    );
    assert_eq!(
        push_reserved(&mut items, 9, 2, true),
        Err(Error::ResourceLimitExceeded)
    );
    assert_eq!(items, vec![7, 8]);

    let mut table = ResourceTable::new();
    for _ in 0..MAX_SAMPLERS {
        table.define_sampler(sampler()).unwrap();
    }
    assert_eq!(
        table.define_sampler(sampler()),
        Err(Error::ResourceLimitExceeded)
    );
}

#[test]
fn recordings_end_at_the_command_limit() {
    let mut table = ResourceTable::new();
    let buffer = table
        .define_buffer(BufferDesc::new(4, BufferUsage::copy_dst()).unwrap())
        .unwrap();
    let mut encoder = CommandEncoder::new(&table);
    for _ in 0..MAX_COMMANDS {
        encoder.write_buffer(buffer, 0, &[1]).unwrap();
    }
    assert_eq!(
        encoder.write_buffer(buffer, 0, &[1]),
        Err(Error::CommandLimitExceeded)
    );
    assert_eq!(encoder.finish().unwrap().command_count(), MAX_COMMANDS);
}

#[test]
fn tables_resolve_what_they_defined_and_nothing_foreign() {
    let mut table = ResourceTable::new();
    let other = ResourceTable::new();
    assert_ne!(table.identity(), other.identity());
    let desc = texture(TextureFormat::Rgba8Unorm, 4, 4);
    let reference = table.define_texture(desc).unwrap();
    assert_eq!(reference.slot(), 0);
    assert!(reference.belongs_to(&table));
    assert!(!reference.belongs_to(&other));
    for level in 1..9 {
        table
            .define_texture(texture(TextureFormat::R8Unorm, level, 1))
            .unwrap();
        assert_eq!(table.texture(reference), Ok(desc));
        assert_eq!(table.texture_ref(reference.id()), Ok(reference));
    }
    assert_eq!(other.texture(reference), Err(Error::ResourceTableMismatch));
    assert_eq!(
        other.texture_ref(reference.id()),
        Err(Error::ResourceTableMismatch)
    );
    let twin = ResourceTable::with_identity(table.identity());
    assert_eq!(twin.texture(reference), Err(Error::InvalidDescriptor));
}

#[test]
fn recordings_replay_alike_after_the_table_grew() {
    let mut table = ResourceTable::new();
    let buffer = table
        .define_buffer(BufferDesc::new(8, BufferUsage::copy_dst()).unwrap())
        .unwrap();
    let recording = OwnedCommandBuffer::new(vec![
        OwnedCommand::WriteBuffer {
            buffer: buffer.id(),
            offset: 4,
            data: vec![1, 2, 3, 4],
        },
        OwnedCommand::WriteBuffer {
            buffer: buffer.id(),
            offset: 0,
            data: vec![5],
        },
    ]);
    let before = format!("{:?}", recording.record(&table).unwrap().commands());
    for size in 1..9 {
        table
            .define_buffer(BufferDesc::new(size, BufferUsage::vertex()).unwrap())
            .unwrap();
    }
    let after = format!("{:?}", recording.record(&table).unwrap().commands());
    assert_eq!(before, after);
}

#[test]
fn written_parts_await_a_barrier_that_announces_the_next_access() {
    let mut table = ResourceTable::new();
    let buffer = table
        .define_buffer(BufferDesc::new(4, BufferUsage::storage()).unwrap())
        .unwrap();
    let image = table
        .define_texture(texture(TextureFormat::Rgba8Unorm, 4, 4))
        .unwrap();
    let part = vec![ResourcePart::Buffer(buffer.id())];
    let level = vec![ResourcePart::TextureMip(image.id(), 1)];
    let other = vec![ResourcePart::TextureMip(image.id(), 0)];
    let write = Access::Buffer(BufferAccess::StorageReadWrite);
    let read = Access::Buffer(BufferAccess::CopySource);
    let sampled = Access::Texture(TextureAccess::Sampled);
    assert!(contains_part(&part, part[0]));
    assert!(!contains_part(&part, level[0]));

    let mut tracker = AccessTracker::new();
    assert_eq!(tracker.check(&part, read), Ok(()));
    tracker.note_use(&part, &part);
    tracker.note_use(&level, &level);
    assert_eq!(tracker.check(&part, read), Err(Error::MissingBarrier));
    assert_eq!(tracker.check(&level, sampled), Err(Error::MissingBarrier));
    assert_eq!(tracker.check(&other, sampled), Ok(()));
    assert_eq!(
        tracker.check_barrier(&part, read, false),
        Err(Error::InvalidResourceAccess)
    );
    assert_eq!(tracker.check_barrier(&part, write, true), Ok(()));
    tracker.note_barrier(&part, read);
    assert_eq!(tracker.check(&part, read), Ok(()));
    assert_eq!(
        tracker.check(&part, write),
        Err(Error::InvalidResourceAccess)
    );
    assert_eq!(
        tracker.check_barrier(&part, write, true),
        Err(Error::InvalidResourceAccess)
    );
    assert_eq!(tracker.check(&level, sampled), Err(Error::MissingBarrier));
    tracker.note_use(&part, &Vec::new());
    assert_eq!(tracker.check(&part, write), Ok(()));
}
