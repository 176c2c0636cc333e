//! Decoding of vertex and index bytes.

use crate::driver::{IrFragmentProgram, IrVertex, VertexView};
use crate::ir::float::{is_finite, is_in_unit_interval, ONE_BITS};
use crate::ir::pipeline::{IndexFormat, VertexAttribute, VertexFormat};
use crate::ir::rounding::nearest_ratio;
use crate::ir_execute::state::PipelineInfo;
use crate::ir_execute::IrSubmitError;
use vstd::prelude::*;

verus! {

/// The little-endian 16-bit number at a position.
pub open spec fn le_u16(bytes: Seq<u8>, at: int) -> u16 {
    (bytes[at] + 0x100 * bytes[at + 1]) as u16
}

/// The little-endian 32-bit number at a position.
pub open spec fn le_u32(bytes: Seq<u8>, at: int) -> u32 {
    (bytes[at] + 0x100 * bytes[at + 1] + 0x1_0000 * bytes[at + 2] + 0x100_0000 * bytes[at
        + 3]) as u32
}

/// Read a little-endian 16-bit number. Fails when fewer than two bytes follow.
pub fn read_u16(bytes: &[u8], offset: usize) -> (r: Result<u16, IrSubmitError>)
    ensures
        r == (if offset + 2 <= bytes@.len() {
            Ok(le_u16(bytes@, offset as int))
        } else {
            Err(IrSubmitError::InvalidVertexData)
        }),
{
    if bytes.len() < 2 || offset > bytes.len() - 2 {
        return Err(IrSubmitError::InvalidVertexData);
    }
    Ok(bytes[offset] as u16 + 0x100 * (bytes[offset + 1] as u16))
}

/// Read a little-endian 32-bit number. Fails when fewer than four bytes follow.
pub fn read_u32(bytes: &[u8], offset: usize) -> (r: Result<u32, IrSubmitError>)
    ensures
        r == (if offset + 4 <= bytes@.len() {
            Ok(le_u32(bytes@, offset as int))
        } else {
            Err(IrSubmitError::InvalidVertexData)
        }),
{
    if bytes.len() < 4 || offset > bytes.len() - 4 {
        return Err(IrSubmitError::InvalidVertexData);
    }
    Ok(
        bytes[offset] as u32 + 0x100 * (bytes[offset + 1] as u32) + 0x1_0000 * (bytes[offset
            + 2] as u32) + 0x100_0000 * (bytes[offset + 3] as u32),
    )
}

/// Consecutive single-precision numbers from a position on.
pub open spec fn floats(bytes: Seq<u8>, at: int, count: nat) -> Seq<u32> {
    Seq::new(count, |i: int| le_u32(bytes, at + 4 * i))
}

/// Whether every number is finite.
pub open spec fn all_finite(values: Seq<u32>) -> bool {
    forall|i: int| 0 <= i < values.len() ==> crate::ir::float::finite(#[trigger] values[i])
}

/// Whether every number lies in the unit interval.
pub open spec fn all_in_unit_interval(values: Seq<u32>) -> bool {
    forall|i: int|
        0 <= i < values.len() ==> crate::ir::float::in_unit_interval(#[trigger] values[i])
}

/// Numbers that a floating-point attribute holds, none for other encodings.
pub open spec fn float_count(format: VertexFormat) -> nat {
    match format {
        VertexFormat::Float32x2 => 2,
        VertexFormat::Float32x3 => 3,
        VertexFormat::Float32x4 => 4,
        _ => 0,
    }
}

/// A vector completed by zeros and a final one.
pub open spec fn completed(values: Seq<u32>) -> Seq<u32> {
    Seq::new(
        4,
        |i: int|
            if i < values.len() {
                values[i]
            } else if i == 3 {
                ONE_BITS
            } else {
                0
            },
    )
}

/// The position that a vertex record holds: present, finite and completed to
/// four components.
pub open spec fn spec_decode_position(record: Seq<u8>, attribute: VertexAttribute) -> Option<
    Seq<u32>,
> {
    let count = float_count(attribute.format);
    let values = floats(record, attribute.offset as int, count);
    if count == 0 || attribute.offset + 4 * count > record.len() || !all_finite(values) {
        None
    } else {
        Some(completed(values))
    }
}

/// The four normalized bytes from a position on, each over 255.
pub open spec fn normalized(bytes: Seq<u8>, at: int) -> Seq<u32> {
    Seq::new(4, |i: int| crate::ir::rounding::nearest(bytes[at + i] as nat, 255) as u32)
}

/// The color that a vertex record holds: present and within the unit interval,
/// opaque where alpha is missing.
pub open spec fn spec_decode_color(record: Seq<u8>, attribute: VertexAttribute) -> Option<
    Seq<u32>,
> {
    let at = attribute.offset as int;
    match attribute.format {
        VertexFormat::Float32x3 | VertexFormat::Float32x4 => {
            let count = float_count(attribute.format);
            let values = floats(record, at, count);
            if at + 4 * count > record.len() || !all_in_unit_interval(values) {
                None
            } else {
                Some(completed(values))
            }
        },
        VertexFormat::Unorm8x4 => if at + 4 > record.len() {
            None
        } else {
            Some(normalized(record, at))
        },
        _ => None,
    }
}

/// The second input of a vertex: all ones where nothing reads it, else the color
/// or the texture coordinates.
pub open spec fn spec_decode_secondary(
    record: Seq<u8>,
    attribute: Option<VertexAttribute>,
    fragment: IrFragmentProgram,
) -> Option<Seq<u32>> {
    if attribute is None || fragment == IrFragmentProgram::Solid {
        Some(seq![ONE_BITS, ONE_BITS, ONE_BITS, ONE_BITS])
    } else if fragment == IrFragmentProgram::VertexColor {
        spec_decode_color(record, attribute->0)
    } else if attribute->0.format == VertexFormat::Float32x2 {
        spec_decode_position(record, attribute->0)
    } else {
        None
    }
}

/// The vertex at an index of a buffer, if it is there and well formed.
pub open spec fn spec_decode_vertex(
    bytes: Seq<u8>,
    vertex_offset: u64,
    index: int,
    pipeline: PipelineInfo,
) -> Option<VertexView> {
    let start = vertex_offset + index * pipeline.stride;
    let end = start + pipeline.stride;
    let record = bytes.subrange(start, end);
    if index < 0 || end > bytes.len() {
        None
    } else {
        let position = spec_decode_position(record, pipeline.position);
        let secondary = spec_decode_secondary(
            record,
            pipeline.secondary,
            pipeline.state.fragment,
        );
        if position is None || secondary is None {
            None
        } else {
            Some(VertexView { position: position->0, secondary: secondary->0 })
        }
    }
}

fn read_two(record: &[u8], offset: u32) -> (r: Option<[u32; 2]>)
    ensures
        match r {
            Some(values) => offset + 8 <= record@.len() && values@ == floats(
                record@,
                offset as int,
                2,
            ),
            None => offset + 8 > record@.len(),
        },
{
    if record.len() < 8 || (offset as u64) > (record.len() - 8) as u64 {
        return None;
    }
    let at: usize = offset as usize;
    match (read_u32(record, at), read_u32(record, at + 4)) {
        (Ok(a), Ok(b)) => {
            let values: [u32; 2] = [a, b];
            assert(values@ =~= floats(record@, offset as int, 2));
            Some(values)
        },
        _ => None,
    }
}

fn read_three(record: &[u8], offset: u32) -> (r: Option<[u32; 3]>)
    ensures
        match r {
            Some(values) => offset + 12 <= record@.len() && values@ == floats(
                record@,
                offset as int,
                3,
            ),
            None => offset + 12 > record@.len(),
        },
{
    if record.len() < 12 || (offset as u64) > (record.len() - 12) as u64 {
        return None;
    }
    let at: usize = offset as usize;
    match (read_u32(record, at), read_u32(record, at + 4), read_u32(record, at + 8)) {
        (Ok(a), Ok(b), Ok(c)) => {
            let values: [u32; 3] = [a, b, c];
            assert(values@ =~= floats(record@, offset as int, 3));
            Some(values)
        },
        _ => None,
    }
}

fn read_four(record: &[u8], offset: u32) -> (r: Option<[u32; 4]>)
    ensures
        match r {
            Some(values) => offset + 16 <= record@.len() && values@ == floats(
                record@,
                offset as int,
                4,
            ),
            None => offset + 16 > record@.len(),
        },
{
    if record.len() < 16 || (offset as u64) > (record.len() - 16) as u64 {
        return None;
    }
    let at: usize = offset as usize;
    match (
        read_u32(record, at),
        read_u32(record, at + 4),
        read_u32(record, at + 8),
        read_u32(record, at + 12),
    ) {
        (Ok(a), Ok(b), Ok(c), Ok(d)) => {
            let values: [u32; 4] = [a, b, c, d];
            assert(values@ =~= floats(record@, offset as int, 4));
            Some(values)
        },
        _ => None,
    }
}

/// Decode the position of a vertex record.
///
/// Fails with `IrSubmitError::InvalidVertexData` when the attribute is not made
/// of floating-point numbers, reaches past the record or is not finite.
pub fn decode_position(record: &[u8], attribute: VertexAttribute) -> (r: Result<
    [u32; 4],
    IrSubmitError,
>)
    ensures
        match r {
            Ok(position) => spec_decode_position(record@, attribute) == Some(position@),
            Err(error) => error == IrSubmitError::InvalidVertexData && spec_decode_position(
                record@,
                attribute,
            ) is None,
        },
{
    let ghost at = attribute.offset as int;
    match attribute.format() {
        VertexFormat::Float32x2 => {
            match read_two(record, attribute.offset()) {
                Some(v) => {
                    let ghost values = floats(record@, at, 2);
                    assert(v@[0] == values[0] && v@[1] == values[1]);
                    if is_finite(v[0]) && is_finite(v[1]) {
                        let position: [u32; 4] = [v[0], v[1], 0, ONE_BITS];
                        assert(all_finite(values));
                        assert(position@ =~= completed(values));
                        return Ok(position);
                    }
                    assert(!all_finite(values));
                },
                None => {},
            }
        },
        VertexFormat::Float32x3 => {
            match read_three(record, attribute.offset()) {
                Some(v) => {
                    let ghost values = floats(record@, at, 3);
                    assert(v@[0] == values[0] && v@[1] == values[1] && v@[2] == values[2]);
                    if is_finite(v[0]) && is_finite(v[1]) && is_finite(v[2]) {
                        let position: [u32; 4] = [v[0], v[1], v[2], ONE_BITS];
                        assert(all_finite(values));
                        assert(position@ =~= completed(values));
                        return Ok(position);
                    }
                    assert(!all_finite(values));
                },
                None => {},
            }
        },
        VertexFormat::Float32x4 => {
            match read_four(record, attribute.offset()) {
                Some(v) => {
                    let ghost values = floats(record@, at, 4);
                    assert(v@[0] == values[0] && v@[1] == values[1] && v@[2] == values[2]
                        && v@[3] == values[3]);
                    if is_finite(v[0]) && is_finite(v[1]) && is_finite(v[2]) && is_finite(v[3]) {
                        assert(all_finite(values));
                        assert(v@ =~= completed(values));
                        return Ok(v);
                    }
                    assert(!all_finite(values));
                },
                None => {},
            }
        },
        VertexFormat::Unorm8x4 | VertexFormat::Sint32 => {},
    }
    Err(IrSubmitError::InvalidVertexData)
}

/// The ratio of a byte to its greatest value.
fn normalized_byte(value: u8) -> (r: u32)
    ensures
        r == crate::ir::rounding::nearest(value as nat, 255),
{
    proof {
        vstd::arithmetic::power2::lemma2_to64();
    }
    nearest_ratio(value as u64, 255)
}

fn decode_color(record: &[u8], attribute: VertexAttribute) -> (r: Result<[u32; 4], IrSubmitError>)
    ensures
        match r {
            Ok(color) => spec_decode_color(record@, attribute) == Some(color@),
            Err(error) => error == IrSubmitError::InvalidVertexData && spec_decode_color(
                record@,
                attribute,
            ) is None,
        },
{
    let ghost at = attribute.offset as int;
    match attribute.format() {
        VertexFormat::Float32x3 => {
            match read_three(record, attribute.offset()) {
                Some(v) => {
                    let ghost values = floats(record@, at, 3);
                    assert(v@[0] == values[0] && v@[1] == values[1] && v@[2] == values[2]);
                    if is_in_unit_interval(v[0]) && is_in_unit_interval(v[1])
                        && is_in_unit_interval(v[2]) {
                        let color: [u32; 4] = [v[0], v[1], v[2], ONE_BITS];
                        assert(all_in_unit_interval(values));
                        assert(color@ =~= completed(values));
                        return Ok(color);
                    }
                    assert(!all_in_unit_interval(values));
                },
                None => {},
            }
        },
        VertexFormat::Float32x4 => {
            match read_four(record, attribute.offset()) {
                Some(v) => {
                    let ghost values = floats(record@, at, 4);
                    assert(v@[0] == values[0] && v@[1] == values[1] && v@[2] == values[2]
                        && v@[3] == values[3]);
                    if is_in_unit_interval(v[0]) && is_in_unit_interval(v[1])
                        && is_in_unit_interval(v[2]) && is_in_unit_interval(v[3]) {
                        assert(all_in_unit_interval(values));
                        assert(v@ =~= completed(values));
                        return Ok(v);
                    }
                    assert(!all_in_unit_interval(values));
                },
                None => {},
            }
        },
        VertexFormat::Unorm8x4 => {
            if record.len() >= 4 && (attribute.offset() as u64) <= (record.len() - 4) as u64 {
                let start: usize = attribute.offset() as usize;
                let color: [u32; 4] = [
                    normalized_byte(record[start]),
                    normalized_byte(record[start + 1]),
                    normalized_byte(record[start + 2]),
                    normalized_byte(record[start + 3]),
                ];
                assert(color@ =~= normalized(record@, at));
                return Ok(color);
            }
        },
        VertexFormat::Float32x2 | VertexFormat::Sint32 => {},
    }
    Err(IrSubmitError::InvalidVertexData)
}

/// Decode the color or texture coordinates of a vertex record.
///
/// Fails with `IrSubmitError::InvalidVertexData` when the attribute does not
/// suit the fragment program, reaches past the record, or holds a color outside
/// the unit interval or coordinates that are not finite.
pub fn decode_secondary(
    record: &[u8],
    attribute: Option<VertexAttribute>,
    fragment: IrFragmentProgram,
) -> (r: Result<[u32; 4], IrSubmitError>)
    ensures
        match r {
            Ok(secondary) => spec_decode_secondary(record@, attribute, fragment) == Some(
                secondary@,
            ),
            Err(error) => error == IrSubmitError::InvalidVertexData && spec_decode_secondary(
                record@,
                attribute,
                fragment,
            ) is None,
        },
{
    let ones: [u32; 4] = [ONE_BITS, ONE_BITS, ONE_BITS, ONE_BITS];
    assert(ones@ =~= seq![ONE_BITS, ONE_BITS, ONE_BITS, ONE_BITS]);
    let attribute: VertexAttribute = match attribute {
        Some(attribute) => attribute,
        None => {
            return Ok(ones);
        },
    };
    match fragment {
        IrFragmentProgram::Solid => Ok(ones),
        IrFragmentProgram::VertexColor => decode_color(record, attribute),
        IrFragmentProgram::TextureRgba
        | IrFragmentProgram::TextureRgbIgnoreAlpha
        | IrFragmentProgram::TextureAlphaMask => {
            if attribute.format() != VertexFormat::Float32x2 {
                return Err(IrSubmitError::InvalidVertexData);
            }
            decode_position(record, attribute)
        },
    }
}

/// Decode the vertex at an index of a buffer.
///
/// Fails with `IrSubmitError::InvalidVertexData` when it lies outside the buffer
/// or is malformed.
pub fn decode_vertex(
    bytes: &[u8],
    vertex_offset: u64,
    vertex_index: u64,
    pipeline: PipelineInfo,
) -> (r: Result<IrVertex, IrSubmitError>)
    ensures
        match r {
            Ok(vertex) => spec_decode_vertex(
                bytes@,
                vertex_offset,
                vertex_index as int,
                pipeline,
            ) == Some(vertex@),
            Err(error) => error == IrSubmitError::InvalidVertexData && spec_decode_vertex(
                bytes@,
                vertex_offset,
                vertex_index as int,
                pipeline,
            ) is None,
        },
{
    proof {
        let stride = pipeline.stride;
        assert(vertex_index * stride <= u64::MAX * u32::MAX) by (nonlinear_arith)
            requires
                vertex_index <= u64::MAX,
                stride <= u32::MAX,
        ;
        assert(0 <= vertex_index * stride) by (nonlinear_arith);
    }
    let start: u128 = vertex_offset as u128 + (vertex_index as u128) * (pipeline.stride as u128);
    let end: u128 = start + pipeline.stride as u128;
    if end > bytes.len() as u128 {
        return Err(IrSubmitError::InvalidVertexData);
    }
    let record: &[u8] = vstd::slice::slice_subrange(bytes, start as usize, end as usize);
    let position: [u32; 4] = match decode_position(record, pipeline.position) {
        Ok(position) => position,
        Err(error) => {
            return Err(error);
        },
    };
    match decode_secondary(record, pipeline.secondary, pipeline.state.fragment) {
        Ok(secondary) => Ok(IrVertex { position, secondary }),
        Err(error) => Err(error),
    }
}

} // verus!
