//! Turning the contents of a shared-memory buffer into what the render task
//! takes.

use crate::geometry::{to_u32, wrap_u32, Size2D};
use vstd::prelude::*;
use vstd::slice::{slice_subrange, slice_to_vec};

verus! {

/// The pixel formats of shared-memory buffers that are told apart.
#[derive(Clone, Copy, Debug, PartialEq, Eq, Structural)]
pub enum ShmFormat {
    Argb8888,
    Xrgb8888,
    Rgba8888,
    /// Any other format.
    Other,
}

/// The texture formats of the render task.
#[derive(Clone, Copy, Debug, PartialEq, Eq, Structural)]
pub enum TextureFormat {
    Rgba8Snorm,
    Rgba8UnormSrgb,
}

/// How the pixels of a buffer lie in its pool.
#[derive(Clone, Copy, Debug, PartialEq, Eq, Structural)]
pub struct BufferData {
    /// Where the buffer starts in the pool, in bytes.
    pub offset: i32,
    pub width: i32,
    pub height: i32,
    /// The bytes from one row to the next.
    pub stride: i32,
    pub format: ShmFormat,
}

/// How pixels that were copied to host memory lie there.
#[derive(Clone, Copy, Debug, PartialEq, Eq, Structural)]
pub struct HostAllocationInfo {
    pub size: Size2D,
    pub stride: u32,
    pub format: TextureFormat,
}

/// A buffer of the graphics device.
#[derive(Clone, Copy, Debug, PartialEq, Eq, Structural)]
pub struct DmabufInfo {
    pub fd: i32,
    pub size: Size2D,
    pub modifier: u64,
    pub plane_offset: u64,
    pub plane_stride: u32,
}

/// Where the render task takes the pixels of a surface from.
#[derive(Clone, Debug, PartialEq, Eq)]
#[allow(inconsistent_fields)]
pub enum SurfaceSource {
    HostAllocation { info: HostAllocationInfo, data: Vec<u8> },
    Dmabuf { info: DmabufInfo },
}

/// Why the contents of a buffer cannot be taken.
#[derive(Clone, Copy, Debug, PartialEq, Eq, Structural)]
pub enum ShmError {
    /// The buffer does not lie within its pool.
    OutOfBounds,
    /// The buffer does not hold a whole number of pixels of four bytes.
    PartialPixel,
    /// The format is none of those that can be converted.
    UnsupportedFormat,
}

/// The texture format that holds the pixels of a shared-memory format as
/// they are.
pub fn shm_to_vulkan_format(shm_format: ShmFormat) -> (r: Option<TextureFormat>)
    ensures
        r == match shm_format {
            ShmFormat::Rgba8888 => Some(TextureFormat::Rgba8Snorm),
            _ => None,
        },
{
    match shm_format {
        ShmFormat::Rgba8888 => Some(TextureFormat::Rgba8Snorm),
        _ => None,
    }
}

/// Where the bytes of the buffer end in the pool.
pub open spec fn end_of(info: BufferData) -> int {
    info.offset + info.height * info.stride
}

/// Whether the buffer lies within a pool of `len` bytes.
pub open spec fn within(info: BufferData, len: int) -> bool {
    0 <= info.offset <= end_of(info) <= len
}

/// The pixels of four bytes each shifted by one byte toward the end, the
/// last byte of each dropped and a zero put first: what shifting the pixel,
/// read as a little-endian word, left by eight bits gives.
pub open spec fn shifted(bytes: Seq<u8>) -> Seq<u8> {
    Seq::new(
        bytes.len(),
        |k: int|
            if k % 4 == 0 {
                0u8
            } else {
                bytes[k - 1]
            },
    )
}

/// How the converted pixels lie in host memory.
pub open spec fn host_info(info: BufferData) -> HostAllocationInfo {
    HostAllocationInfo {
        size: Size2D {
            width: wrap_u32(info.width as int),
            height: wrap_u32(info.height as int),
        },
        stride: wrap_u32(info.stride as int),
        format: TextureFormat::Rgba8UnormSrgb,
    }
}

/// What [`shm_convert_format`] gives for a pool that holds `data`.
pub open spec fn converted(data: Seq<u8>, info: BufferData) -> Result<
    (HostAllocationInfo, Seq<u8>),
    ShmError,
> {
    if !within(info, data.len() as int) {
        Err(ShmError::OutOfBounds)
    } else {
        let bytes = data.subrange(info.offset as int, end_of(info));
        match info.format {
            ShmFormat::Rgba8888 => Ok((host_info(info), bytes)),
            ShmFormat::Argb8888 | ShmFormat::Xrgb8888 => if bytes.len() % 4 == 0 {
                Ok((host_info(info), shifted(bytes)))
            } else {
                Err(ShmError::PartialPixel)
            },
            ShmFormat::Other => Err(ShmError::UnsupportedFormat),
        }
    }
}

/// Calls `bytemuck::try_cast_slice` to take bytes as pixels of four bytes:
/// it gives the pixels exactly when the number of bytes is a multiple of
/// four, and the bytes of the `i`-th pixel are then the four from the
/// `4 * i`-th on, in order. Nothing of this is proved here.
#[verifier::external_body]
fn pixels_of(data: &[u8]) -> (r: Option<Vec<[u8; 4]>>)
    ensures
        r is Some <==> data@.len() % 4 == 0,
        r matches Some(pixels) ==> {
            &&& pixels@.len() * 4 == data@.len()
            &&& forall|i: int, j: int|
                0 <= i < pixels@.len() && 0 <= j < 4 ==> (#[trigger] pixels@[i]@[j]) == data@[4 * i
                    + j]
        },
{
    match bytemuck::try_cast_slice::<u8, [u8; 4]>(data) {
        Ok(pixels) => Some(pixels.to_vec()),
        Err(_) => None,
    }
}

/// The bytes of the pixels, each pixel shifted by one byte toward the end:
/// its last byte is dropped and a zero is put first.
pub open spec fn shifted_pixels(pixels: Seq<[u8; 4]>) -> Seq<u8> {
    Seq::new(
        4 * pixels.len(),
        |k: int|
            if k % 4 == 0 {
                0u8
            } else {
                pixels[k / 4]@[k % 4 - 1]
            },
    )
}

/// Shifts each pixel by one byte toward the end, dropping its last byte
/// and putting a zero first.
pub fn shift_pixels(pixels: &Vec<[u8; 4]>) -> (r: Vec<u8>)
    ensures
        r@ == shifted_pixels(pixels@),
{
    let mut out: Vec<u8> = Vec::new();
    let mut i: usize = 0;
    while i < pixels.len()
        invariant
            i <= pixels@.len(),
            out@.len() == 4 * i,
            forall|k: int| 0 <= k < 4 * i ==> #[trigger] out@[k] == shifted_pixels(pixels@)[k],
        decreases pixels@.len() - i,
    {
        let pixel = pixels[i];
        out.push(0);
        out.push(pixel[0]);
        out.push(pixel[1]);
        out.push(pixel[2]);
        i = i + 1;
    }
    assert(out@ =~= shifted_pixels(pixels@));
    out
}

/// Takes the pixels of a shared-memory buffer out of its pool `data` and
/// brings them into the byte order of the render task: pixels in RGBA8888
/// are copied as they are; pixels in ARGB8888 or XRGB8888 are shifted left
/// by eight bits each. A buffer that does not lie within the pool, or does
/// not hold whole pixels, or has another format is refused.
pub fn shm_convert_format(data: &[u8], info: BufferData) -> (r: Result<SurfaceSource, ShmError>)
    ensures
        match r {
            Ok(SurfaceSource::HostAllocation { info: host, data: bytes }) => converted(data@, info)
                == Ok::<(HostAllocationInfo, Seq<u8>), ShmError>((host, bytes@)),
            Ok(SurfaceSource::Dmabuf { .. }) => false,
            Err(error) => converted(data@, info) == Err::<
                (HostAllocationInfo, Seq<u8>),
                ShmError,
            >(error),
        },
{
    let start: i64 = info.offset as i64;
    assert(-0x4000_0000_0000_0000 <= info.height * info.stride <= 0x4000_0000_0000_0000) by (nonlinear_arith)
        requires
            -0x8000_0000 <= info.height <= 0x7fff_ffff,
            -0x8000_0000 <= info.stride <= 0x7fff_ffff,
    ;
    let end: i64 = start + info.height as i64 * info.stride as i64;
    if start < 0 || end < start || end as u64 > data.len() as u64 {
        return Err(ShmError::OutOfBounds);
    }
    let bytes = slice_subrange(data, start as usize, end as usize);
    convert_bytes(bytes, info)
}

/// Converts the bytes of a buffer, already taken out of its pool.
fn convert_bytes(bytes: &[u8], info: BufferData) -> (r: Result<SurfaceSource, ShmError>)
    ensures
        match r {
            Ok(SurfaceSource::HostAllocation { info: host, data: out }) => {
                &&& host == host_info(info)
                &&& match info.format {
                    ShmFormat::Rgba8888 => out@ == bytes@,
                    ShmFormat::Argb8888 | ShmFormat::Xrgb8888 => bytes@.len() % 4 == 0 && out@
                        == shifted(bytes@),
                    ShmFormat::Other => false,
                }
            },
            Ok(SurfaceSource::Dmabuf { .. }) => false,
            Err(error) => match info.format {
                ShmFormat::Rgba8888 => false,
                ShmFormat::Argb8888 | ShmFormat::Xrgb8888 => bytes@.len() % 4 != 0 && error
                    == ShmError::PartialPixel,
                ShmFormat::Other => error == ShmError::UnsupportedFormat,
            },
        },
{
    let host = HostAllocationInfo {
        size: Size2D { width: to_u32(info.width as i64), height: to_u32(info.height as i64) },
        stride: to_u32(info.stride as i64),
        format: TextureFormat::Rgba8UnormSrgb,
    };
    match info.format {
        ShmFormat::Rgba8888 => Ok(
            SurfaceSource::HostAllocation { info: host, data: slice_to_vec(bytes) },
        ),
        ShmFormat::Argb8888 | ShmFormat::Xrgb8888 => match pixels_of(bytes) {
            Some(pixels) => {
                let out = shift_pixels(&pixels);
                assert(out@ =~= shifted(bytes@)) by {
                    assert forall|k: int| 0 <= k < out@.len() implies out@[k] == shifted(
                        bytes@,
                    )[k] by {
                        let i = k / 4;
                        let j = k % 4;
                        assert(k == 4 * i + j);
                        assert(0 <= i < pixels@.len());
                        if j > 0 {
                            assert(pixels@[i]@[j - 1] == bytes@[4 * i + (j - 1)]);
                        }
                        assert(out@[k] == shifted_pixels(pixels@)[k]);
                    }
                }
                Ok(SurfaceSource::HostAllocation { info: host, data: out })
            },
            None => Err(ShmError::PartialPixel),
        },
        ShmFormat::Other => Err(ShmError::UnsupportedFormat),
    }
}

} // verus!
