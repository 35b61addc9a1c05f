use rmikanos::color::Color;
use rmikanos::info::{FrameBufferInfo, PixelFormat};
use rmikanos::pixelwriter::{
    pixel_writer, BGRPixelWriter, PixelWrite, RGBPixelWriter, U8PixelWriter,
    UnsupportedPixelWriter,
};

#[test]
fn rgb_encoder_stores_red_green_blue() {
    let mut buf = [0u8; 6];
    assert!(RGBPixelWriter.write_pixel(&mut buf, 2, Color::new(1, 2, 3)));
    assert_eq!(buf, [0, 0, 1, 2, 3, 0]);
}

#[test]
fn bgr_encoder_stores_blue_green_red() {
    let mut buf = [0u8; 6];
    assert!(BGRPixelWriter.write_pixel(&mut buf, 3, Color::new(1, 2, 3)));
    assert_eq!(buf, [0, 0, 0, 3, 2, 1]);
}

#[test]
fn u8_encoder_stores_the_luma() {
    let mut buf = [0u8; 3];
    assert!(U8PixelWriter.write_pixel(&mut buf, 2, Color::new(255, 255, 255)));
    assert_eq!(buf, [0, 0, 255]);
    assert!(U8PixelWriter.write_pixel(&mut buf, 0, Color::new(10, 20, 30)));
    assert_eq!(buf, [18, 0, 255]);
}

#[test]
fn unsupported_encoder_stores_nothing() {
    let mut buf = [4u8; 3];
    assert!(!UnsupportedPixelWriter.write_pixel(&mut buf, 0, Color::new(1, 2, 3)));
    assert_eq!(buf, [4, 4, 4]);
    assert!(!UnsupportedPixelWriter.write_pixel(&mut buf, 3, Color::new(1, 2, 3)));
    assert_eq!(buf, [4, 4, 4]);
}

#[test]
fn every_format_selects_its_encoder() {
    let c = Color::new(1, 2, 3);
    let mut buf = [0u8; 4];
    assert!(pixel_writer(PixelFormat::RGB8).write_pixel(&mut buf, 1, c));
    assert_eq!(buf, [0, 1, 2, 3]);
    let mut buf = [0u8; 4];
    assert!(pixel_writer(PixelFormat::BGR8).write_pixel(&mut buf, 1, c));
    assert_eq!(buf, [0, 3, 2, 1]);
    let mut buf = [0u8; 4];
    assert!(pixel_writer(PixelFormat::Grayscale8).write_pixel(&mut buf, 3, Color::white()));
    assert_eq!(buf, [0, 0, 0, 255]);
    let mut buf = [0u8; 4];
    assert!(!pixel_writer(PixelFormat::Unsupported).write_pixel(&mut buf, 1, c));
    assert_eq!(buf, [0, 0, 0, 0]);
}

#[test]
fn channel_counts() {
    assert_eq!(PixelFormat::RGB8.channel_count(), 3);
    assert_eq!(PixelFormat::BGR8.channel_count(), 3);
    assert_eq!(PixelFormat::Grayscale8.channel_count(), 1);
    assert_eq!(PixelFormat::Unsupported.channel_count(), 0);
}

#[test]
fn description_validity_and_length() {
    let mut d = FrameBufferInfo {
        horizontal_resolution: 200,
        vertical_resolution: 100,
        stride: 208,
        bytes_per_pixel: 4,
        pixel_format: PixelFormat::BGR8,
    };
    assert!(d.is_valid());
    assert_eq!(d.required_len(), Some(83200));
    d.stride = 199;
    assert!(!d.is_valid());
    d.stride = 200;
    d.bytes_per_pixel = 2;
    assert!(!d.is_valid());
    d.bytes_per_pixel = 1;
    assert!(!d.is_valid());
    d.pixel_format = PixelFormat::Grayscale8;
    assert!(d.is_valid());
    d.pixel_format = PixelFormat::Unsupported;
    assert!(d.is_valid());
    d.bytes_per_pixel = 5;
    assert!(!d.is_valid());
    d.bytes_per_pixel = 4;
    d.stride = usize::MAX;
    assert_eq!(d.required_len(), None);
    d.vertical_resolution = 0;
    assert_eq!(d.required_len(), Some(0));
    d.vertical_resolution = 1;
    d.stride = usize::MAX / 4 + 1;
    assert_eq!(d.required_len(), None);
    d.stride = usize::MAX / 4;
    assert_eq!(d.required_len(), Some(usize::MAX / 4 * 4));
}
