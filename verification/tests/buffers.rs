use wcomp::geometry::Size2D;
use wcomp::utils::{
    shift_pixels, shm_convert_format, shm_to_vulkan_format, BufferData, HostAllocationInfo,
    ShmError, ShmFormat, SurfaceSource, TextureFormat,
};

fn info(offset: i32, width: i32, height: i32, stride: i32, format: ShmFormat) -> BufferData {
    BufferData { offset, width, height, stride, format }
}

fn host(width: u32, height: u32, stride: u32) -> HostAllocationInfo {
    HostAllocationInfo {
        size: Size2D { width, height },
        stride,
        format: TextureFormat::Rgba8UnormSrgb,
    }
}

#[test]
fn only_rgba_is_taken_as_it_is() {
    assert_eq!(shm_to_vulkan_format(ShmFormat::Rgba8888), Some(TextureFormat::Rgba8Snorm));
    assert_eq!(shm_to_vulkan_format(ShmFormat::Argb8888), None);
    assert_eq!(shm_to_vulkan_format(ShmFormat::Xrgb8888), None);
    assert_eq!(shm_to_vulkan_format(ShmFormat::Other), None);
}

#[test]
fn rgba_is_copied_verbatim() {
    let pool: Vec<u8> = (0..16).collect();
    assert_eq!(
        shm_convert_format(&pool, info(4, 2, 1, 8, ShmFormat::Rgba8888)),
        Ok(SurfaceSource::HostAllocation {
            info: host(2, 1, 8),
            data: vec![4, 5, 6, 7, 8, 9, 10, 11],
        })
    );
}

#[test]
fn argb_pixels_are_shifted_by_one_byte() {
    let pool: Vec<u8> = vec![1, 2, 3, 4, 5, 6, 7, 8];
    assert_eq!(
        shm_convert_format(&pool, info(0, 2, 1, 8, ShmFormat::Argb8888)),
        Ok(SurfaceSource::HostAllocation {
            info: host(2, 1, 8),
            data: vec![0, 1, 2, 3, 0, 5, 6, 7],
        })
    );
    assert_eq!(
        shm_convert_format(&pool, info(4, 1, 1, 4, ShmFormat::Xrgb8888)),
        Ok(SurfaceSource::HostAllocation { info: host(1, 1, 4), data: vec![0, 5, 6, 7] })
    );
}

#[test]
fn pixels_are_shifted_one_by_one() {
    assert_eq!(shift_pixels(&vec![[9, 8, 7, 6], [1, 2, 3, 4]]), vec![0, 9, 8, 7, 0, 1, 2, 3]);
    assert_eq!(shift_pixels(&Vec::new()), Vec::<u8>::new());
}

#[test]
fn empty_buffer_converts_to_nothing() {
    assert_eq!(
        shm_convert_format(&[], info(0, 0, 0, 0, ShmFormat::Argb8888)),
        Ok(SurfaceSource::HostAllocation { info: host(0, 0, 0), data: vec![] })
    );
}

#[test]
fn buffer_outside_its_pool_is_refused() {
    let pool = [0u8; 8];
    assert_eq!(
        shm_convert_format(&pool, info(4, 2, 1, 8, ShmFormat::Rgba8888)),
        Err(ShmError::OutOfBounds)
    );
    assert_eq!(
        shm_convert_format(&pool, info(-4, 1, 1, 4, ShmFormat::Rgba8888)),
        Err(ShmError::OutOfBounds)
    );
    assert_eq!(
        shm_convert_format(&pool, info(4, 1, -1, 4, ShmFormat::Rgba8888)),
        Err(ShmError::OutOfBounds)
    );
    assert_eq!(
        shm_convert_format(&pool, info(0, 1, i32::MAX, i32::MAX, ShmFormat::Other)),
        Err(ShmError::OutOfBounds)
    );
}

#[test]
fn partial_pixels_are_refused() {
    let pool = [0u8; 8];
    assert_eq!(
        shm_convert_format(&pool, info(0, 1, 1, 6, ShmFormat::Argb8888)),
        Err(ShmError::PartialPixel)
    );
    // Copying verbatim does not need whole pixels.
    assert!(shm_convert_format(&pool, info(0, 1, 1, 6, ShmFormat::Rgba8888)).is_ok());
}

#[test]
fn other_formats_are_refused() {
    let pool = [0u8; 8];
    assert_eq!(
        shm_convert_format(&pool, info(0, 2, 1, 8, ShmFormat::Other)),
        Err(ShmError::UnsupportedFormat)
    );
}

#[test]
fn negative_extents_wrap_in_the_description() {
    let pool = [0u8; 8];
    assert_eq!(
        shm_convert_format(&pool, info(0, -1, 0, -4, ShmFormat::Rgba8888)),
        Ok(SurfaceSource::HostAllocation {
            info: host(u32::MAX, 0, u32::MAX - 3),
            data: vec![],
        })
    );
}
