use rmikanos::framebuffer::{Color, Point};
use rmikanos::info::{FrameBufferInfo, PixelFormat};
use rmikanos::lifecycle::{Screen, InitError};

fn small() -> FrameBufferInfo {
    FrameBufferInfo {
        horizontal_resolution: 2,
        vertical_resolution: 2,
        stride: 2,
        bytes_per_pixel: 3,
        pixel_format: PixelFormat::RGB8,
    }
}

#[test]
fn a_screen_starts_empty() {
    assert!(!Screen::uninit().is_initialized());
}

#[test]
fn first_init_succeeds() {
    let mut d = Screen::uninit();
    assert_eq!(d.init(vec![0u8; 12], small()), Ok(()));
    assert!(d.is_initialized());
    assert_eq!(*d.info(), small());
    assert_eq!(d.writer().buffer(), &[0u8; 12]);
}

#[test]
fn second_init_is_reported() {
    let mut d = Screen::uninit();
    assert_eq!(d.init(vec![1u8; 12], small()), Ok(()));
    assert_eq!(d.init(vec![2u8; 12], small()), Err(InitError::AlreadyInitialized));
    assert_eq!(d.init(Vec::new(), small()), Err(InitError::AlreadyInitialized));
    assert!(d.is_initialized());
    assert_eq!(d.writer().buffer(), &[1u8; 12]);
}

#[test]
fn init_refuses_a_short_buffer() {
    let mut d = Screen::uninit();
    assert_eq!(d.init(vec![0u8; 11], small()), Err(InitError::InvalidBuffer));
    assert!(!d.is_initialized());
    let mut bad = small();
    bad.stride = 1;
    assert_eq!(d.init(vec![0u8; 12], bad), Err(InitError::InvalidBuffer));
    assert!(!d.is_initialized());
    assert_eq!(d.init(vec![0u8; 12], small()), Ok(()));
}

#[test]
fn init_on_an_empty_screen() {
    let mut d = Screen::uninit();
    assert!(d.init(vec![3u8; 12], small()).is_ok());
    assert!(d.is_initialized());
    assert_eq!(d.info().horizontal_resolution, 2);
}

#[test]
fn writes_through_the_screen_stay() {
    let mut d = Screen::uninit();
    assert_eq!(d.init(vec![0u8; 12], small()), Ok(()));
    assert!(d.writer().write_pixel(Point::new(1usize, 1usize), Color::new(7, 8, 9)));
    assert!(!d.writer().write_pixel(Point::new(2usize, 0usize), Color::new(7, 8, 9)));
    assert_eq!(d.writer().buffer(), &[0, 0, 0, 0, 0, 0, 0, 0, 0, 7, 8, 9]);
}
