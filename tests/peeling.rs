use depth_peel::context::{first_supported, ContextError, PresentMode, SurfaceConfig};
use depth_peel::peel::{blend_pass, peel_layers, FAR_DEPTH};

#[test]
fn two_quads_separate() {
    assert_eq!(peel_layers(&vec![100, 200]), (100, 200));
    assert_eq!(peel_layers(&vec![200, 100]), (100, 200));
}

#[test]
fn empty_pixel_stays_far() {
    assert_eq!(peel_layers(&vec![]), (FAR_DEPTH, FAR_DEPTH));
    assert_eq!(peel_layers(&vec![42]), (42, FAR_DEPTH));
    assert_eq!(peel_layers(&vec![42, 42]), (42, FAR_DEPTH));
}

#[test]
fn three_layers_keep_second() {
    assert_eq!(peel_layers(&vec![30, 10, 20, 10]), (10, 20));
    assert_eq!(blend_pass(&vec![30, 10, 20], Some(20)), 30);
}

#[test]
fn surface_format_is_first() {
    assert_eq!(first_supported(&[7u8, 3, 9]), Ok(7));
    assert_eq!(first_supported::<u8>(&[]), Err(ContextError::NoSurfaceFormat));
}

#[test]
fn surface_config_resize() {
    let mut c = SurfaceConfig::new(1u8, 0, 600);
    assert_eq!((c.width, c.height), (1, 600));
    assert_eq!(c.present_mode, PresentMode::Fifo);
    assert!(c.resize(800, 600));
    assert_eq!((c.width, c.height), (800, 600));
    assert!(!c.resize(0, 100));
    assert!(!c.resize(100, 0));
    assert_eq!((c.width, c.height), (800, 600));
}
