//! Tests for image creation and validation.

use ggez::error::GameError;
use ggez::image::Image;
use ggez::types::{FilterMode, WrapMode};

#[test]
fn test_invalid_image_size() {
    assert!(Image::from_rgba8(0, 0, &vec![]).is_err());
    assert!(Image::from_rgba8(3432, 432, &vec![]).is_err());
    let _i = Image::from_rgba8(2, 2, &vec![99; 16]).unwrap();
}

#[test]
fn test_zero_by_zero_is_resource_load_error() {
    match Image::from_rgba8(0, 0, &vec![]) {
        Err(GameError::ResourceLoadError(_)) => {},
        _ => panic!("expected a ResourceLoadError"),
    }
}

#[test]
fn test_two_by_two_succeeds() {
    let img = Image::from_rgba8(2, 2, &vec![99u8; 16]).unwrap();
    assert_eq!(img.width(), 2);
    assert_eq!(img.height(), 2);
}

#[test]
fn test_length_mismatch_is_resource_load_error() {
    // Expected 3432 * 432 * 4 bytes, got 0.
    match Image::from_rgba8(3432, 432, &vec![]) {
        Err(GameError::ResourceLoadError(_)) => {},
        _ => panic!("expected a ResourceLoadError"),
    }
}

#[test]
fn test_one_by_one_is_valid() {
    let img = Image::from_rgba8(1, 1, &vec![1, 2, 3, 4]).unwrap();
    assert_eq!(img.width(), 1);
    assert_eq!(img.height(), 1);
}

#[test]
fn test_degenerate_dimensions_rejected() {
    assert!(Image::from_rgba8(0, 1, &vec![]).is_err());
    assert!(Image::from_rgba8(1, 0, &vec![]).is_err());
}

#[test]
fn test_wrong_byte_count_rejected() {
    // One byte short of the 1x1 pixel.
    assert!(Image::from_rgba8(1, 1, &vec![0, 0, 0]).is_err());
    // One byte too many.
    assert!(Image::from_rgba8(1, 1, &vec![0, 0, 0, 0, 0]).is_err());
}

#[test]
fn test_pixels_round_trip() {
    let bytes: Vec<u8> = (0u8..16u8).collect();
    let img = Image::from_rgba8(2, 2, &bytes).unwrap();
    assert_eq!(img.to_rgba8().unwrap(), bytes);
}

#[test]
fn test_dimensions_rect_is_in_fixed_point_units() {
    let img = Image::from_rgba8(2, 3, &vec![0u8; 24]).unwrap();
    let rect = img.dimensions();
    assert_eq!(rect.x, 0);
    assert_eq!(rect.y, 0);
    assert_eq!(rect.w, 2 * 65536);
    assert_eq!(rect.h, 3 * 65536);
}

#[test]
fn test_filter_and_wrap_state() {
    let mut img = Image::from_rgba8(1, 1, &vec![0u8; 4]).unwrap();
    assert_eq!(img.filter(), FilterMode::Linear);
    img.set_filter(FilterMode::Nearest);
    assert_eq!(img.filter(), FilterMode::Nearest);
    assert_eq!(img.wrap(), (WrapMode::Clamp, WrapMode::Clamp));
    img.set_wrap(WrapMode::Tile, WrapMode::Mirror);
    assert_eq!(img.wrap(), (WrapMode::Tile, WrapMode::Mirror));
}
