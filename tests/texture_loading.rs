use depth_peel::target::{Extent, ImageKind, RenderTarget, ViewDim};
use depth_peel::texture::{LoadError, TextureImage};
use image::ImageEncoder;

fn png_bytes(width: u32, height: u32) -> Vec<u8> {
    let pixels = vec![200u8; (width * height * 4) as usize];
    let mut out = Vec::new();
    image::codecs::png::PngEncoder::new(&mut out)
        .write_image(&pixels, width, height, image::ColorType::Rgba8)
        .unwrap();
    out
}

fn hdr_bytes(width: usize, height: usize) -> Vec<u8> {
    let pixels = vec![image::Rgb([0.5f32, 0.25, 1.0]); width * height];
    let mut out = Vec::new();
    image::codecs::hdr::HdrEncoder::new(&mut out).encode(&pixels, width, height).unwrap();
    out
}

#[test]
fn hdr_panorama_becomes_cube() {
    let t = TextureImage::from_bytes(&hdr_bytes(16, 9)).unwrap();
    assert_eq!(t.kind, ImageKind::Hdr);
    assert_eq!((t.source_width, t.source_height), (16, 9));
    assert_eq!(t.target.extent, Extent { width: 4, height: 3, layers: 6 });
    assert_eq!(t.target.view, ViewDim::Cube);
    assert_eq!(t.rgba.len(), 16 * 9 * 4);
}

#[test]
fn png_stays_flat() {
    let t = TextureImage::from_bytes(&png_bytes(16, 9)).unwrap();
    assert_eq!(t.kind, ImageKind::Png);
    assert_eq!(t.target.extent, Extent { width: 16, height: 9, layers: 1 });
    assert_eq!(t.target.view, ViewDim::D2);
    assert_eq!(t.rgba.len(), 16 * 9 * 4);
    assert_eq!(t.rgba[0], 200);
    assert_eq!(t.target.min_filter, depth_peel::target::Filter::Linear);
}

#[test]
fn unknown_bytes_are_unrecognized() {
    assert_eq!(TextureImage::from_bytes(&[1, 2, 3, 4]).err(), Some(LoadError::FormatUnrecognized));
    assert_eq!(TextureImage::from_bytes(&[]).err(), Some(LoadError::FormatUnrecognized));
    assert_eq!(TextureImage::from_bytes(&[0x89]).err(), Some(LoadError::FormatUnrecognized));
}

#[test]
fn truncated_png_fails_to_decode() {
    let bytes = png_bytes(4, 4);
    let cut = &bytes[..20];
    assert_eq!(TextureImage::from_bytes(cut).err(), Some(LoadError::DecodeFailed));
}

#[test]
fn image_target_sizing_rule() {
    let pano = RenderTarget::for_image(4096, 3072, ImageKind::OpenExr);
    assert_eq!(pano.extent, Extent { width: 1024, height: 1024, layers: 6 });
    let flat = RenderTarget::for_image(4096, 3072, ImageKind::Png);
    assert_eq!(flat.extent, Extent { width: 4096, height: 3072, layers: 1 });
    let odd = RenderTarget::for_image(10, 7, ImageKind::Hdr);
    assert_eq!(odd.extent, Extent { width: 2, height: 2, layers: 6 });
    assert!(!pano.tracks_surface);
}

#[test]
fn truncated_hdr_fails_to_decode() {
    let bytes = hdr_bytes(8, 6);
    assert_eq!(TextureImage::from_bytes(&bytes[..12]).err(), Some(LoadError::DecodeFailed));
}
