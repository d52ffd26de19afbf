use egui_wgpu::wgpu::TextureFormat;
use learn_egui::surface::{
    select_format_index, select_present_mode, select_surface_format, PixelSize, PresentMode,
    SurfaceSizes,
};

fn px(width: u32, height: u32) -> PixelSize {
    PixelSize { width, height }
}

#[test]
fn resize_scenario_minimize_then_restore() {
    let mut s = SurfaceSizes::new(px(900, 600));
    assert_eq!(s.configured, px(900, 600));
    assert!(!s.resize(px(0, 400)));
    assert_eq!(s.configured, px(900, 600));
    assert_eq!(s.window, px(900, 600));
    assert!(s.resize(px(800, 500)));
    assert_eq!(s.configured, px(800, 500));
    assert_eq!(s.window, px(800, 500));
}

#[test]
fn zero_resize_is_dropped() {
    let mut s = SurfaceSizes::new(px(640, 480));
    let before = s;
    assert!(!s.resize(px(0, 0)));
    assert!(!s.resize(px(320, 0)));
    assert_eq!(s, before);
}

#[test]
fn fresh_surface_never_zero() {
    let s = SurfaceSizes::new(px(0, 300));
    assert_eq!(s.window, px(0, 300));
    assert_eq!(s.configured, px(1, 300));
    let t = SurfaceSizes::new(px(0, 0));
    assert_eq!(t.configured, px(1, 1));
}

#[test]
fn present_mode_prefers_mailbox_then_fifo() {
    assert_eq!(select_present_mode(&vec![PresentMode::Fifo, PresentMode::Immediate, PresentMode::Mailbox]), Some(PresentMode::Mailbox));
    assert_eq!(select_present_mode(&vec![PresentMode::Immediate, PresentMode::Fifo]), Some(PresentMode::Fifo));
    assert_eq!(select_present_mode(&vec![PresentMode::Immediate, PresentMode::FifoRelaxed]), Some(PresentMode::Immediate));
    assert_eq!(select_present_mode(&vec![]), None);
}

#[test]
fn format_index_prefers_first_srgb() {
    assert_eq!(select_format_index(&vec![false, true, true]), Some(1));
    assert_eq!(select_format_index(&vec![false, false]), Some(0));
    assert_eq!(select_format_index(&vec![true]), Some(0));
    assert_eq!(select_format_index(&vec![]), None);
}

#[test]
fn surface_format_prefers_srgb() {
    let offered = vec![
        TextureFormat::Bgra8Unorm,
        TextureFormat::Rgba16Float,
        TextureFormat::Bgra8UnormSrgb,
        TextureFormat::Rgba8UnormSrgb,
    ];
    assert_eq!(select_surface_format(&offered), Some(TextureFormat::Bgra8UnormSrgb));
}

#[test]
fn surface_format_falls_back_to_first() {
    let offered = vec![TextureFormat::Rgba16Float, TextureFormat::Bgra8Unorm];
    assert_eq!(select_surface_format(&offered), Some(TextureFormat::Rgba16Float));
    assert_eq!(select_surface_format(&vec![]), None);
}
