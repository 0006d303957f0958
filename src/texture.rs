//! Decoding image files into texture contents.
use vstd::prelude::*;
use crate::target::{ImageKind, RenderTarget, image_target_spec};

verus! {

/// The decoder's error, carried through without being read.
#[verifier::external_type_specification]
#[verifier::external_body]
pub struct ExImageError(image::ImageError);

/// Encoding that the decoder recognises from the first bytes of a file.
pub uninterp spec fn sniffed_kind(bytes: Seq<u8>) -> Option<ImageKind>;

/// Width, height and row-major RGBA8 pixels that the decoder makes of a file,
/// or nothing where it fails; under fixed decoding limits this depends on the
/// bytes alone.
pub uninterp spec fn decoded_of(bytes: Seq<u8>) -> Option<(u32, u32, Seq<u8>)>;

/// Signature of a PNG file.
pub open spec fn png_signature() -> Seq<u8> {
    seq![0x89u8, 0x50, 0x4e, 0x47, 0x0d, 0x0a, 0x1a, 0x0a]
}

/// Signature of a Radiance HDR file: `#?RADIANCE`.
pub open spec fn hdr_signature() -> Seq<u8> {
    seq![0x23u8, 0x3f, 0x52, 0x41, 0x44, 0x49, 0x41, 0x4e, 0x43, 0x45]
}

/// Signature of an OpenEXR file.
pub open spec fn exr_signature() -> Seq<u8> {
    seq![0x76u8, 0x2f, 0x31, 0x01]
}

pub open spec fn starts_with(bytes: Seq<u8>, sig: Seq<u8>) -> bool {
    bytes.len() >= sig.len() && bytes.subrange(0, sig.len() as int) == sig
}

/// Decoded pixels in row-major RGBA8 order.
struct DecodedPixels {
    width: u32,
    height: u32,
    rgba: Vec<u8>,
}

/// Relies on image::guess_format: it reads only the signature at the start of
/// the buffer, so the answer depends on the bytes alone. Encodings other than
/// PNG, HDR and EXR are reported as `Other`. Every signature in its table is at
/// least two bytes long, and no other signature shares the first byte of the
/// PNG, HDR or EXR one.
#[verifier::external_body]
fn guess_kind(bytes: &[u8]) -> (r: Option<ImageKind>)
    ensures
        r == sniffed_kind(bytes@),
        bytes@.len() < 2 ==> r is None,
        starts_with(bytes@, png_signature()) ==> r == Some(ImageKind::Png),
        starts_with(bytes@, hdr_signature()) ==> r == Some(ImageKind::Hdr),
        starts_with(bytes@, exr_signature()) ==> r == Some(ImageKind::OpenExr),
{
    match image::guess_format(bytes) {
        Ok(image::ImageFormat::Png) => Some(ImageKind::Png),
        Ok(image::ImageFormat::Hdr) => Some(ImageKind::Hdr),
        Ok(image::ImageFormat::OpenExr) => Some(ImageKind::OpenExr),
        Ok(_) => Some(ImageKind::Other),
        Err(_) => None,
    }
}

/// Relies on image::load_from_memory, which first guesses the format (failing
/// where guess_format fails) and then decodes under its default, constant
/// limits; `to_rgba8` yields four bytes for each of the `width * height`
/// pixels.
#[verifier::external_body]
fn decode_rgba(bytes: &[u8]) -> (r: Result<DecodedPixels, image::ImageError>)
    ensures
        r is Ok <==> decoded_of(bytes@) is Some,
        r is Ok ==> decoded_of(bytes@) == Some((r->Ok_0.width, r->Ok_0.height, r->Ok_0.rgba@)),
        r is Ok ==> sniffed_kind(bytes@) is Some,
        r is Ok ==> r->Ok_0.rgba@.len() == 4 * r->Ok_0.width * r->Ok_0.height,
{
    image::load_from_memory(bytes).map(|img| {
        let rgba = img.to_rgba8();
        DecodedPixels { width: rgba.width(), height: rgba.height(), rgba: rgba.into_raw() }
    })
}

/// Why an image file could not become a texture.
#[derive(Clone, Copy, PartialEq, Eq, Structural, Debug)]
pub enum LoadError {
    /// The bytes match no known image signature.
    FormatUnrecognized,
    /// The signature was recognised but the contents could not be decoded.
    DecodeFailed,
}

/// A decoded image together with the texture it is uploaded into.
pub struct TextureImage {
    pub kind: ImageKind,
    pub source_width: u32,
    pub source_height: u32,
    pub target: RenderTarget,
    pub rgba: Vec<u8>,
}

impl TextureImage {
    /// Decodes an encoded image. A panoramic HDR or EXR image becomes a cube
    /// texture of six `width / 4` x `height / 3` faces; any other image a flat
    /// texture of its own size.
    pub fn from_bytes(bytes: &[u8]) -> (r: Result<TextureImage, LoadError>)
        ensures
            sniffed_kind(bytes@) is None <==> r == Err::<TextureImage, LoadError>(LoadError::FormatUnrecognized),
            (sniffed_kind(bytes@) is Some && decoded_of(bytes@) is None) <==> r == Err::<TextureImage, LoadError>(
                LoadError::DecodeFailed,
            ),
            r is Ok <==> (sniffed_kind(bytes@) is Some && decoded_of(bytes@) is Some),
            bytes@.len() < 2 ==> r == Err::<TextureImage, LoadError>(LoadError::FormatUnrecognized),
            r is Ok ==> {
                let t = r->Ok_0;
                &&& sniffed_kind(bytes@) == Some(t.kind)
                &&& decoded_of(bytes@) == Some((t.source_width, t.source_height, t.rgba@))
                &&& t.target == image_target_spec(t.source_width, t.source_height, t.kind)
                &&& t.rgba@.len() == 4 * t.source_width * t.source_height
                &&& t.target.rgba_len() <= t.rgba@.len()
            },
    {
        let kind = match guess_kind(bytes) {
            Some(k) => k,
            None => return Err(LoadError::FormatUnrecognized),
        };
        match decode_rgba(bytes) {
            Ok(d) => {
                let target = RenderTarget::for_image(d.width, d.height, kind);
                proof {
                    crate::target::lemma_image_fits(d.width, d.height, kind);
                }
                Ok(TextureImage { kind, source_width: d.width, source_height: d.height, target, rgba: d.rgba })
            },
            Err(_) => Err(LoadError::DecodeFailed),
        }
    }
}

} // verus!
