//! Conversion of uploaded pixels to the BGRA rows that devices take.

use crate::driver::{IrRect, IrTextureFormat, IrTextureSpec, IrTextureUpload, UploadView};
use crate::ir::resource::{TextureWrite, TextureWriteView};
use crate::ir_execute::state::ir_rect;
use crate::ir_execute::IrSubmitError;
use crate::memory::Memory;
use vstd::prelude::*;

verus! {

/// One channel of a device pixel, from the bytes of an uploaded row that starts
/// at `start`. Single-channel coverage becomes alpha over black.
pub open spec fn bgra_channel(
    data: Seq<u8>,
    start: int,
    format: IrTextureFormat,
    x: int,
    channel: int,
) -> u8 {
    match format {
        IrTextureFormat::Bgra8 => data[start + 4 * x + channel],
        IrTextureFormat::Rgba8 => if channel == 0 {
            data[start + 4 * x + 2]
        } else if channel == 2 {
            data[start + 4 * x]
        } else {
            data[start + 4 * x + channel]
        },
        IrTextureFormat::R8 => if channel == 3 {
            data[start + x]
        } else {
            0
        },
    }
}

/// The first pixels of a converted row.
pub open spec fn bgra_row(data: Seq<u8>, start: int, format: IrTextureFormat, width: nat) -> Seq<
    u8,
> {
    Seq::new(4 * width, |i: int| bgra_channel(data, start, format, i / 4, i % 4))
}

/// The first rows of a converted upload, one after the other.
pub open spec fn bgra_rows(
    data: Seq<u8>,
    stride: nat,
    format: IrTextureFormat,
    width: nat,
    rows: nat,
) -> Seq<u8>
    decreases rows,
{
    if rows == 0 {
        Seq::empty()
    } else {
        bgra_rows(data, stride, format, width, (rows - 1) as nat) + bgra_row(
            data,
            (rows - 1) * stride,
            format,
            width,
        )
    }
}

/// Every device pixel is the uploaded pixel at its place, and nothing else is
/// part of the converted rows.
pub proof fn law_converted_pixels(
    data: Seq<u8>,
    stride: nat,
    format: IrTextureFormat,
    width: nat,
    rows: nat,
    x: nat,
    y: nat,
    channel: nat,
)
    requires
        x < width,
        y < rows,
        channel < 4,
    ensures
        bgra_rows(data, stride, format, width, rows).len() == 4 * width * rows,
        4 * (y * width + x) + channel < 4 * width * rows,
        bgra_rows(data, stride, format, width, rows)[(4 * (y * width + x) + channel) as int]
            == bgra_channel(data, (y * stride) as int, format, x as int, channel as int),
    decreases rows,
{
    lemma_rows_length(data, stride, format, width, rows);
    let last = (rows - 1) as nat;
    lemma_rows_length(data, stride, format, width, last);
    let at = 4 * (y * width + x) + channel;
    assert(4 * width * rows == 4 * width * last + 4 * width) by (nonlinear_arith)
        requires
            rows == last + 1,
    ;
    if y == last {
        assert(4 * (y * width + x) == 4 * width * last + 4 * x) by (nonlinear_arith)
            requires
                y == last,
        ;
        let within = at - 4 * width * last;
        assert(within == 4 * x + channel);
        assert(within / 4 == x && within % 4 == channel);
        assert(bgra_rows(data, stride, format, width, rows)[at as int] == bgra_row(
            data,
            (last * stride) as int,
            format,
            width,
        )[within as int]);
    } else {
        law_converted_pixels(data, stride, format, width, last, x, y, channel);
        assert(bgra_rows(data, stride, format, width, rows)[at as int] == bgra_rows(
            data,
            stride,
            format,
            width,
            last,
        )[at as int]);
    }
}

proof fn lemma_rows_length(
    data: Seq<u8>,
    stride: nat,
    format: IrTextureFormat,
    width: nat,
    rows: nat,
)
    ensures
        bgra_rows(data, stride, format, width, rows).len() == 4 * width * rows,
    decreases rows,
{
    if rows > 0 {
        let last = (rows - 1) as nat;
        lemma_rows_length(data, stride, format, width, last);
        assert(4 * width * rows == 4 * width * last + 4 * width) by (nonlinear_arith)
            requires
                rows == last + 1,
        ;
    } else {
        assert(4 * width * rows == 0) by (nonlinear_arith)
            requires
                rows == 0,
        ;
    }
}

/// The converted upload, or why the pixels cannot be converted: rows overlap or
/// reach past the data, or the result cannot be addressed.
pub open spec fn spec_convert_texture_upload(
    texture: IrTextureSpec,
    write: TextureWriteView,
) -> Result<UploadView, IrSubmitError> {
    let width = write.destination@.width;
    let height = write.destination@.height;
    let tight = width * texture.format.bytes_per_pixel();
    let required = write.bytes_per_row * (height - 1) + tight;
    if required > usize::MAX || write.data.len() < required || write.bytes_per_row < tight {
        Err(IrSubmitError::InvalidVertexData)
    } else if width * height * 4 > usize::MAX {
        Err(IrSubmitError::OutOfMemory)
    } else {
        Ok(
            UploadView {
                texture,
                destination: crate::ir_execute::state::spec_ir_rect(write.destination@),
                pixels: bgra_rows(
                    write.data,
                    write.bytes_per_row as nat,
                    texture.format,
                    width as nat,
                    height as nat,
                ),
            },
        )
    }
}

/// Append one converted row.
fn push_row(pixels: &mut Vec<u8>, data: &[u8], start: usize, format: IrTextureFormat, width: usize)
    requires
        start + width * format.bytes_per_pixel() <= data@.len(),
    ensures
        final(pixels)@ == old(pixels)@ + bgra_row(data@, start as int, format, width as nat),
{
    let ghost before = pixels@;
    let length: usize = data.len();
    let mut x: usize = 0;
    assert(before + bgra_row(data@, start as int, format, 0) =~= before);
    while x < width
        invariant
            x <= width,
            length == data@.len(),
            start + width * format.bytes_per_pixel() <= data@.len(),
            pixels@ == before + bgra_row(data@, start as int, format, x as nat),
        decreases width - x,
    {
        proof {
            let size = format.bytes_per_pixel();
            assert(x * size + size <= width * size) by (nonlinear_arith)
                requires
                    x + 1 <= width,
            ;
        }
        let pixel: [u8; 4] = match format {
            IrTextureFormat::Bgra8 => {
                let at: usize = start + 4 * x;
                [data[at], data[at + 1], data[at + 2], data[at + 3]]
            },
            IrTextureFormat::Rgba8 => {
                let at: usize = start + 4 * x;
                [data[at + 2], data[at + 1], data[at], data[at + 3]]
            },
            IrTextureFormat::R8 => [0, 0, 0, data[start + x]],
        };
        pixels.push(pixel[0]);
        pixels.push(pixel[1]);
        pixels.push(pixel[2]);
        pixels.push(pixel[3]);
        proof {
            let shorter = bgra_row(data@, start as int, format, x as nat);
            let longer = bgra_row(data@, start as int, format, (x + 1) as nat);
            assert forall|i: int| 0 <= i < longer.len() implies longer[i] == (if i < 4 * x {
                shorter[i]
            } else {
                pixel@[i - 4 * x]
            }) by {}
            assert(pixels@ =~= before + longer);
        }
        x = x + 1;
    }
}

/// What a result of an upload holds.
pub open spec fn upload_outcome(result: Result<IrTextureUpload, IrSubmitError>) -> Result<
    UploadView,
    IrSubmitError,
> {
    match result {
        Ok(upload) => Ok(upload@),
        Err(error) => Err(error),
    }
}

/// Return the bytes that the converted pixels take, or why they cannot be converted.
fn upload_length(texture: IrTextureSpec, write: TextureWrite<'_>) -> (r: Result<
    usize,
    IrSubmitError,
>)
    ensures
        match spec_convert_texture_upload(texture, write@) {
            Ok(_) => r == Ok::<usize, IrSubmitError>(
                (write@.destination@.width * write@.destination@.height * 4) as usize,
            ) && write@.destination@.width * write@.destination@.height * 4 <= usize::MAX,
            Err(error) => r == Err::<usize, IrSubmitError>(error),
        },
{
    let destination: IrRect = ir_rect(write.destination());
    let data: &[u8] = write.data();
    let size: usize = texture.format.bytes_per_pixel();
    let tight: u64 = destination.width as u64 * size as u64;
    let stride: u32 = write.bytes_per_row();
    proof {
        let rows = destination.height - 1;
        assert(0 <= stride * rows <= u32::MAX * u32::MAX) by (nonlinear_arith)
            requires
                0 <= rows <= u32::MAX,
                0 <= stride <= u32::MAX,
        ;
        let height = destination.height;
        let width = destination.width;
        assert(0 <= width * height <= u32::MAX * u32::MAX) by (nonlinear_arith)
            requires
                0 <= height <= u32::MAX,
                0 <= width <= u32::MAX,
        ;
    }
    let required: u128 = stride as u128 * (destination.height - 1) as u128 + tight as u128;
    if required > usize::MAX as u128 || (data.len() as u128) < required || (stride as u64) < tight {
        return Err(IrSubmitError::InvalidVertexData);
    }
    let output: u128 = destination.width as u128 * destination.height as u128 * 4;
    if output > usize::MAX as u128 {
        return Err(IrSubmitError::OutOfMemory);
    }
    Ok(output as usize)
}

/// Convert the pixels of an upload to BGRA rows without padding.
///
/// Fails with `IrSubmitError::InvalidVertexData` when rows overlap or reach past
/// the data, and with `IrSubmitError::OutOfMemory` when the result cannot be
/// addressed or stored.
pub fn convert_texture_upload(
    texture: IrTextureSpec,
    write: TextureWrite<'_>,
    memory: Memory,
) -> (r: Result<IrTextureUpload, IrSubmitError>)
    ensures
        crate::ir_execute::draw::fulfilled(
            upload_outcome(r),
            spec_convert_texture_upload(texture, write@),
            spec_convert_texture_upload(texture, write@) is Ok,
            memory,
        ),
{
    let output: usize = match upload_length(texture, write) {
        Ok(output) => output,
        Err(error) => {
            return Err(error);
        },
    };
    let mut pixels: Vec<u8> = Vec::new();
    if !memory.reserve(&mut pixels, output) {
        return Err(IrSubmitError::OutOfMemory);
    }
    let destination: IrRect = ir_rect(write.destination());
    let data: &[u8] = write.data();
    let size: usize = texture.format.bytes_per_pixel();
    let tight: u64 = destination.width as u64 * size as u64;
    let stride: u32 = write.bytes_per_row();
    let length: usize = data.len();
    let mut row: u32 = 0;
    while row < destination.height
        invariant
            row <= destination.height,
            length == data@.len(),
            size == texture.format.bytes_per_pixel(),
            tight == destination.width * size,
            stride * (destination.height - 1) + tight <= data@.len(),
            destination.width <= tight,
            pixels@ == bgra_rows(
                data@,
                stride as nat,
                texture.format,
                destination.width as nat,
                row as nat,
            ),
        decreases destination.height - row,
    {
        proof {
            let last = destination.height - 1;
            assert(0 <= row * stride <= stride * last) by (nonlinear_arith)
                requires
                    0 <= row <= last,
                    0 <= stride,
            ;
        }
        let start: u128 = row as u128 * stride as u128;
        push_row(&mut pixels, data, start as usize, texture.format, destination.width as usize);
        row = row + 1;
    }
    Ok(IrTextureUpload { texture, destination, pixels })
}

} // verus!
