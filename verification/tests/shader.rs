//! Structural validation of shader modules.

use sgfx_core::ir::{
    ShaderModuleDesc, ShaderSource, ShaderStage, ShaderStages, MAX_SPIRV_WORDS,
    MAX_WGSL_BYTES, Error,
};

fn module() -> Vec<u32> {
    // Only structural metadata; intentionally not a semantically valid shader.
    vec![
        0x0723_0203,
        0x0001_0000,
        0,
        8,
        0,
        (6 << 16) | 15,
        5,
        1,
        u32::from_le_bytes(*b"main"),
        0,
        2,
    ]
}

#[test]
fn records_entry_point_name_and_stage_for_all_supported_versions() {
    for minor in 0..=6 {
        let mut words = module();
        words[1] |= minor << 8;
        let desc = ShaderModuleDesc::spirv(words.clone()).unwrap();
        assert_eq!(desc.source(), &ShaderSource::SpirV(words));
        assert!(desc.has_entry_point(ShaderStage::Compute, "main"));
        assert!(!desc.has_entry_point(ShaderStage::Vertex, "main"));
        assert!(!desc.has_entry_point(ShaderStage::Compute, "missing"));
    }
}

#[test]
fn rejects_invalid_header_fields() {
    for (index, value) in [
        (0, 0x0302_2307),
        (1, 0x0000_0000),
        (1, 0x0001_0700),
        (1, 0x0002_0000),
        (1, 0x0001_0001),
        (1, 0x0101_0000),
        (3, 0),
        (3, 0x0040_0000),
        (4, 1),
    ] {
        let mut words = module();
        words[index] = value;
        assert_eq!(
            ShaderModuleDesc::spirv(words),
            Err(Error::InvalidDescriptor)
        );
    }
    for length in 0..5 {
        assert_eq!(
            ShaderModuleDesc::spirv(module()[..length].to_vec()),
            Err(Error::InvalidDescriptor)
        );
    }
}

#[test]
fn rejects_zero_length_and_truncated_instructions() {
    for header in [15, (7 << 16) | 15] {
        let mut words = module();
        words[5] = header;
        assert_eq!(
            ShaderModuleDesc::spirv(words),
            Err(Error::InvalidDescriptor)
        );
    }
    let mut words = module();
    words.push(2 << 16);
    assert_eq!(
        ShaderModuleDesc::spirv(words),
        Err(Error::InvalidDescriptor)
    );
}

#[test]
fn rejects_malformed_entry_point_metadata() {
    for (index, value) in [
        (6, 3), // Non-portable geometry stage.
        (7, 0),
        (7, 8),
        (8, 0),           // Empty name.
        (8, 0x0000_00ff), // Invalid UTF-8.
        (8, 0x0062_0061), // Non-zero NUL padding.
        (10, 0),          // Invalid interface IDs.
        (10, 8),
    ] {
        let mut words = module();
        words[index] = value;
        assert_eq!(
            ShaderModuleDesc::spirv(words),
            Err(Error::InvalidDescriptor)
        );
    }
    let mut words = module();
    words[5] = (4 << 16) | 15;
    words.truncate(9); // Name fills its word but has no NUL terminator.
    assert_eq!(
        ShaderModuleDesc::spirv(words),
        Err(Error::InvalidDescriptor)
    );
    let mut words = module();
    words[5] = (3 << 16) | 15;
    words.truncate(8);
    assert_eq!(
        ShaderModuleDesc::spirv(words),
        Err(Error::InvalidDescriptor)
    );
}

#[test]
fn parses_utf8_entry_names_and_multiple_stages() {
    let mut words = module();
    words[8] = u32::from_le_bytes([0xe7, 0x82, 0xb9, 0]); // 点
    words.remove(9);
    words[5] = (5 << 16) | 15;
    words.extend([(4 << 16) | 15, 0, 3, u32::from_le_bytes(*b"vs\0\0")]);
    let desc = ShaderModuleDesc::spirv(words).unwrap();
    assert!(desc.has_entry_point(ShaderStage::Compute, "点"));
    assert!(desc.has_entry_point(ShaderStage::Vertex, "vs"));
}

#[test]
fn bounds_owned_source_sizes() {
    assert_eq!(
        ShaderModuleDesc::spirv(vec![0; MAX_SPIRV_WORDS + 1]),
        Err(Error::ResourceLimitExceeded)
    );
    assert_eq!(
        ShaderModuleDesc::wgsl(" ".repeat(MAX_WGSL_BYTES + 1)),
        Err(Error::ResourceLimitExceeded)
    );
}

#[test]
fn wgsl_entry_point_existence_is_left_to_the_backend() {
    for source in ["", " \n\t", "fn main() {}\0"] {
        assert_eq!(
            ShaderModuleDesc::wgsl(String::from(source)),
            Err(Error::InvalidDescriptor)
        );
    }
    let desc = ShaderModuleDesc::wgsl(String::from("backend validates this text")).unwrap();
    assert!(desc.has_entry_point(ShaderStage::Compute, "main"));
    assert!(desc.has_entry_point(ShaderStage::Fragment, "main"));
    assert!(desc.has_entry_point(ShaderStage::Compute, "e\u{301}"));
    for name in ["", "a\0b"] {
        assert!(!desc.has_entry_point(ShaderStage::Compute, name));
    }
}

#[test]
fn stage_flags_compose() {
    let mut stages = ShaderStages::vertex() | ShaderStages::fragment();
    assert!(stages.contains(ShaderStage::Vertex.into()));
    assert!(!stages.contains(ShaderStages::compute()));
    stages |= ShaderStages::compute();
    assert!(stages.contains(ShaderStages::compute()));
    assert!(ShaderStages::empty().is_empty());
}

#[test]
fn modules_without_entry_points_are_accepted() {
    let mut words = module();
    words.truncate(5);
    assert!(ShaderModuleDesc::spirv(words.clone()).is_ok());
    words.extend([(2 << 16) | 17, 1]);
    let desc = ShaderModuleDesc::spirv(words.clone()).unwrap();
    assert!(!desc.has_entry_point(ShaderStage::Compute, "main"));
    words.push((3 << 16) | 17);
    assert_eq!(
        ShaderModuleDesc::spirv(words).unwrap_err(),
        Error::InvalidDescriptor
    );
}
