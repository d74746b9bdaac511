//! Tests for the one-time bootstrap decisions.

use ggez::bootstrap::{
    choose_image_count, choose_present_mode, find_memory_type_index, select_adapter, AdapterInfo,
    AdapterKind, PresentMode, SurfaceCaps,
};
use ggez::error::GameError;

fn adapter(kind: AdapterKind, graphics: bool, present: bool) -> AdapterInfo {
    AdapterInfo { kind, supports_graphics: graphics, supports_present: present }
}

fn caps(min: u32, max: u32) -> SurfaceCaps {
    SurfaceCaps {
        min_image_count: min,
        max_image_count: max,
        current_width: 800,
        current_height: 600,
    }
}

#[test]
fn test_select_adapter_prefers_discrete() {
    let adapters = vec![
        adapter(AdapterKind::Integrated, true, true),
        adapter(AdapterKind::Other, true, true),
        adapter(AdapterKind::Discrete, true, true),
    ];
    assert_eq!(select_adapter(&adapters).unwrap(), 2);
}

#[test]
fn test_select_adapter_takes_first_of_equal_rank() {
    let adapters = vec![
        adapter(AdapterKind::Other, true, true),
        adapter(AdapterKind::Integrated, true, true),
        adapter(AdapterKind::Integrated, true, true),
    ];
    assert_eq!(select_adapter(&adapters).unwrap(), 1);
}

#[test]
fn test_select_adapter_skips_unusable_devices() {
    // The discrete adapter lacks presentation support, so the
    // integrated one wins.
    let adapters = vec![
        adapter(AdapterKind::Discrete, true, false),
        adapter(AdapterKind::Integrated, true, true),
    ];
    assert_eq!(select_adapter(&adapters).unwrap(), 1);
}

#[test]
fn test_select_adapter_fails_when_none_eligible() {
    let adapters = vec![
        adapter(AdapterKind::Discrete, true, false),
        adapter(AdapterKind::Integrated, false, true),
    ];
    match select_adapter(&adapters) {
        Err(GameError::DeviceInitError(_)) => {},
        _ => panic!("expected a DeviceInitError"),
    }
    match select_adapter(&vec![]) {
        Err(GameError::DeviceInitError(_)) => {},
        _ => panic!("expected a DeviceInitError"),
    }
}

#[test]
fn test_image_count_is_min_plus_one_capped_by_max() {
    assert_eq!(choose_image_count(&caps(2, 0)).unwrap(), 3);
    assert_eq!(choose_image_count(&caps(2, 8)).unwrap(), 3);
    assert_eq!(choose_image_count(&caps(3, 3)).unwrap(), 3);
    assert_eq!(choose_image_count(&caps(2, 2)).unwrap(), 2);
}

#[test]
fn test_image_count_fails_below_double_buffering() {
    match choose_image_count(&caps(1, 1)) {
        Err(GameError::DeviceInitError(_)) => {},
        _ => panic!("expected a DeviceInitError"),
    }
}

#[test]
fn test_present_mode_vsync_needs_fifo() {
    let all = vec![PresentMode::Immediate, PresentMode::Mailbox, PresentMode::Fifo];
    assert_eq!(choose_present_mode(true, &all).unwrap(), PresentMode::Fifo);
    match choose_present_mode(true, &vec![PresentMode::Immediate]) {
        Err(GameError::DeviceInitError(_)) => {},
        _ => panic!("expected a DeviceInitError"),
    }
}

#[test]
fn test_present_mode_without_vsync_prefers_mailbox() {
    let all = vec![PresentMode::Immediate, PresentMode::Mailbox, PresentMode::Fifo];
    assert_eq!(choose_present_mode(false, &all).unwrap(), PresentMode::Mailbox);
    let fifo_only = vec![PresentMode::Fifo];
    assert_eq!(choose_present_mode(false, &fifo_only).unwrap(), PresentMode::Immediate);
}

#[test]
fn test_memory_type_index_first_suitable() {
    // Types 1 and 2 are allowed by the requirement bits; type 1 lacks
    // a required flag, so type 2 is chosen.
    let flags = vec![0xF, 0x1, 0x3];
    assert_eq!(find_memory_type_index(0b110, &flags, 0x3).unwrap(), 2);
    // With every type allowed, the first with the flags wins.
    assert_eq!(find_memory_type_index(0b111, &flags, 0x3).unwrap(), 0);
}

#[test]
fn test_memory_type_index_fails_when_nothing_fits() {
    let flags = vec![0x1, 0x2];
    match find_memory_type_index(0b01, &flags, 0x2) {
        Err(GameError::RenderError(_)) => {},
        _ => panic!("expected a RenderError"),
    }
}
