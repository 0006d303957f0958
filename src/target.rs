//! Descriptors of the textures the renderer allocates.
use vstd::prelude::*;

verus! {

/// Pixel format of a texture. `Surface` stands for whatever format the
/// presentable surface was configured with.
#[derive(Clone, Copy, PartialEq, Eq, Structural, Debug)]
pub enum PixelFormat {
    Surface,
    Rgba8UnormSrgb,
    Rgba16Float,
    Rgba32Float,
    Depth32Float,
}

/// Usage flags a texture is created with.
#[derive(Clone, Copy, PartialEq, Eq, Structural, Debug)]
pub struct Usage {
    pub render_attachment: bool,
    pub texture_binding: bool,
    pub copy_src: bool,
    pub copy_dst: bool,
}

/// Size of a texture: width, height and number of array layers.
#[derive(Clone, Copy, PartialEq, Eq, Structural, Debug)]
pub struct Extent {
    pub width: u32,
    pub height: u32,
    pub layers: u32,
}

#[derive(Clone, Copy, PartialEq, Eq, Structural, Debug)]
pub enum Filter {
    Nearest,
    Linear,
}

/// How the texture's sampled view is shaped.
#[derive(Clone, Copy, PartialEq, Eq, Structural, Debug)]
pub enum ViewDim {
    D2,
    Cube,
}

/// Everything needed to allocate one texture with its view and sampler.
/// Addressing is always clamp-to-edge.
#[derive(Clone, Copy, PartialEq, Eq, Structural, Debug)]
pub struct RenderTarget {
    pub extent: Extent,
    pub format: PixelFormat,
    pub usage: Usage,
    pub view: ViewDim,
    pub mag_filter: Filter,
    pub min_filter: Filter,
    /// Whether the texture follows the size of the output surface.
    pub tracks_surface: bool,
}

/// Encoding an image file was recognised as.
#[derive(Clone, Copy, PartialEq, Eq, Structural, Debug)]
pub enum ImageKind {
    Png,
    Hdr,
    OpenExr,
    /// Any other encoding the decoder recognises.
    Other,
}

pub open spec fn usage_spec(ra: bool, tb: bool, cs: bool, cd: bool) -> Usage {
    Usage { render_attachment: ra, texture_binding: tb, copy_src: cs, copy_dst: cd }
}

impl Usage {
    pub fn new(render_attachment: bool, texture_binding: bool, copy_src: bool, copy_dst: bool) -> (r: Usage)
        ensures
            r == usage_spec(render_attachment, texture_binding, copy_src, copy_dst),
    {
        Usage { render_attachment, texture_binding, copy_src, copy_dst }
    }

    /// Render attachment that later passes sample.
    pub fn attachment_sampled() -> (r: Usage)
        ensures
            r == usage_spec(true, true, false, false),
    {
        Usage::new(true, true, false, false)
    }
}

/// Panoramic encodings, whose pixels are laid out as a cross of six faces.
pub open spec fn is_panorama(kind: ImageKind) -> bool {
    kind == ImageKind::Hdr || kind == ImageKind::OpenExr
}

/// Size of the texture made from a decoded image of `width` x `height` pixels:
/// a panorama is read as 4 columns by 3 rows of cube faces.
pub open spec fn image_extent(width: u32, height: u32, kind: ImageKind) -> Extent {
    if is_panorama(kind) {
        Extent { width: width / 4, height: height / 3, layers: 6 }
    } else {
        Extent { width, height, layers: 1 }
    }
}

pub open spec fn color_target_spec(width: u32, height: u32, format: PixelFormat, usage: Usage) -> RenderTarget {
    RenderTarget {
        extent: Extent { width, height, layers: 1 },
        format,
        usage,
        view: ViewDim::D2,
        mag_filter: Filter::Nearest,
        min_filter: Filter::Nearest,
        tracks_surface: true,
    }
}

pub open spec fn depth_target_spec(width: u32, height: u32) -> RenderTarget {
    RenderTarget {
        extent: Extent { width, height, layers: 1 },
        format: PixelFormat::Depth32Float,
        usage: usage_spec(true, true, false, false),
        view: ViewDim::D2,
        mag_filter: Filter::Linear,
        min_filter: Filter::Linear,
        tracks_surface: true,
    }
}

pub open spec fn cubemap_target_spec(size: u32, format: PixelFormat, usage: Usage) -> RenderTarget {
    RenderTarget {
        extent: Extent { width: size, height: size, layers: 6 },
        format,
        usage,
        view: ViewDim::Cube,
        mag_filter: Filter::Linear,
        min_filter: Filter::Linear,
        tracks_surface: false,
    }
}

pub open spec fn image_target_spec(width: u32, height: u32, kind: ImageKind) -> RenderTarget {
    RenderTarget {
        extent: image_extent(width, height, kind),
        format: PixelFormat::Rgba8UnormSrgb,
        usage: usage_spec(false, true, false, true),
        view: if is_panorama(kind) { ViewDim::Cube } else { ViewDim::D2 },
        mag_filter: Filter::Linear,
        min_filter: Filter::Linear,
        tracks_surface: false,
    }
}

/// The same target with its 2D size replaced.
pub open spec fn with_size(t: RenderTarget, width: u32, height: u32) -> RenderTarget {
    RenderTarget { extent: Extent { width, height, layers: t.extent.layers }, ..t }
}

pub fn is_panorama_kind(kind: ImageKind) -> (r: bool)
    ensures
        r == is_panorama(kind),
{
    match kind {
        ImageKind::Hdr | ImageKind::OpenExr => true,
        _ => false,
    }
}

impl RenderTarget {
    /// A screen-sized colour target, sampled without filtering.
    pub fn color(width: u32, height: u32, format: PixelFormat, usage: Usage) -> (r: RenderTarget)
        ensures
            r == color_target_spec(width, height, format, usage),
    {
        RenderTarget {
            extent: Extent { width, height, layers: 1 },
            format,
            usage,
            view: ViewDim::D2,
            mag_filter: Filter::Nearest,
            min_filter: Filter::Nearest,
            tracks_surface: true,
        }
    }

    /// A screen-sized 32-bit float depth buffer.
    pub fn depth(width: u32, height: u32) -> (r: RenderTarget)
        ensures
            r == depth_target_spec(width, height),
    {
        RenderTarget {
            extent: Extent { width, height, layers: 1 },
            format: PixelFormat::Depth32Float,
            usage: Usage::attachment_sampled(),
            view: ViewDim::D2,
            mag_filter: Filter::Linear,
            min_filter: Filter::Linear,
            tracks_surface: true,
        }
    }

    /// A fixed-size cube texture with six square faces of side `size`.
    pub fn cubemap(size: u32, format: PixelFormat, usage: Usage) -> (r: RenderTarget)
        ensures
            r == cubemap_target_spec(size, format, usage),
    {
        RenderTarget {
            extent: Extent { width: size, height: size, layers: 6 },
            format,
            usage,
            view: ViewDim::Cube,
            mag_filter: Filter::Linear,
            min_filter: Filter::Linear,
            tracks_surface: false,
        }
    }

    /// The texture that holds a decoded image of `width` x `height` pixels.
    pub fn for_image(width: u32, height: u32, kind: ImageKind) -> (r: RenderTarget)
        ensures
            r == image_target_spec(width, height, kind),
            r.extent == image_extent(width, height, kind),
    {
        let pano = is_panorama_kind(kind);
        let extent = if pano {
            Extent { width: width / 4, height: height / 3, layers: 6 }
        } else {
            Extent { width, height, layers: 1 }
        };
        RenderTarget {
            extent,
            format: PixelFormat::Rgba8UnormSrgb,
            usage: Usage::new(false, true, false, true),
            view: if pano { ViewDim::Cube } else { ViewDim::D2 },
            mag_filter: Filter::Linear,
            min_filter: Filter::Linear,
            tracks_surface: false,
        }
    }

    /// The same target reallocated at a new 2D size.
    pub fn resized(&self, width: u32, height: u32) -> (r: RenderTarget)
        ensures
            r == with_size(*self, width, height),
    {
        RenderTarget { extent: Extent { width, height, layers: self.extent.layers }, ..*self }
    }

    /// Number of bytes of RGBA8 pixel data the texture holds over all layers.
    pub open spec fn rgba_len(&self) -> int {
        4 * self.extent.width * self.extent.height * self.extent.layers
    }
}

/// A panorama of `width` x `height` pixels is read as six faces of
/// `width / 4` x `height / 3` pixels in a cube; any other image stays a flat
/// texture of its own size.
pub proof fn lemma_image_extent(width: u32, height: u32, kind: ImageKind)
    ensures
        (kind == ImageKind::Hdr || kind == ImageKind::OpenExr) ==> image_target_spec(width, height, kind).extent
            == (Extent { width: width / 4, height: height / 3, layers: 6 })
            && image_target_spec(width, height, kind).view == ViewDim::Cube,
        !(kind == ImageKind::Hdr || kind == ImageKind::OpenExr) ==> image_target_spec(width, height, kind).extent
            == (Extent { width, height, layers: 1 })
            && image_target_spec(width, height, kind).view == ViewDim::D2,
{
}

/// The faces cut from a panorama never need more pixel data than the
/// panorama itself holds.
pub proof fn lemma_image_fits(width: u32, height: u32, kind: ImageKind)
    ensures
        image_target_spec(width, height, kind).rgba_len() <= 4 * width * height,
{
    let w = width as int;
    let h = height as int;
    if is_panorama(kind) {
        assert((w / 4) * (h / 3) * 6 <= w * h) by (nonlinear_arith)
            requires w >= 0, h >= 0, 4 * (w / 4) <= w, 3 * (h / 3) <= h, w / 4 >= 0, h / 3 >= 0;
        assert(4 * (w / 4) * (h / 3) * 6 <= 4 * w * h) by (nonlinear_arith)
            requires (w / 4) * (h / 3) * 6 <= w * h;
    }
}

} // verus!
