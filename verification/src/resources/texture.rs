use vstd::prelude::*;
use vstd::arithmetic::div_mod::{lemma_fundamental_div_mod, lemma_fundamental_div_mod_converse};

verus! {

/// How the bytes of one pixel are laid out.
#[derive(Clone, Copy, PartialEq, Eq, Structural, Debug)]
pub enum PixelLayout {
    /// One 8-bit luminance channel.
    Luma8,
    /// 8-bit luminance followed by 8-bit alpha.
    LumaA8,
    /// 8-bit red, green and blue.
    Rgb8,
    /// 8-bit red, green, blue and alpha.
    Rgba8,
}

/// The number of bytes of one pixel in `layout`.
pub open spec fn channel_count(layout: PixelLayout) -> nat {
    match layout {
        PixelLayout::Luma8 => 1,
        PixelLayout::LumaA8 => 2,
        PixelLayout::Rgb8 => 3,
        PixelLayout::Rgba8 => 4,
    }
}

/// The last channel of a pixel in `layout` is its alpha.
pub open spec fn has_alpha(layout: PixelLayout) -> bool {
    layout is LumaA8 || layout is Rgba8
}

/// The number of bytes of one pixel in `layout`.
pub fn channels(layout: PixelLayout) -> (n: usize)
    ensures
        n == channel_count(layout),
{
    match layout {
        PixelLayout::Luma8 => 1,
        PixelLayout::LumaA8 => 2,
        PixelLayout::Rgb8 => 3,
        PixelLayout::Rgba8 => 4,
    }
}

/// An image as the proofs see it: row after row of pixels, each pixel one byte per
/// channel.
pub struct ImageView {
    pub width: nat,
    pub height: nat,
    pub layout: PixelLayout,
    pub data: Seq<u8>,
}

impl ImageView {
    /// The data holds exactly one pixel per position of the grid.
    pub open spec fn wf(self) -> bool {
        self.data.len() == self.width * self.height * channel_count(self.layout)
    }

    /// Where channel `c` of the pixel at column `x` and row `y` is stored.
    pub open spec fn index_of(self, x: int, y: int, c: int) -> int {
        (y * self.width + x) * channel_count(self.layout) + c
    }

    /// Channel `c` of the pixel at column `x` and row `y`.
    pub open spec fn sample(self, x: int, y: int, c: int) -> u8 {
        self.data[self.index_of(x, y, c)]
    }

    /// `(x, y, c)` names a channel of a pixel of the grid.
    pub open spec fn in_bounds(self, x: int, y: int, c: int) -> bool {
        0 <= x < self.width && 0 <= y < self.height && 0 <= c < channel_count(self.layout)
    }
}

/// Decoded pixel data, row after row, as the texture loader hands it on.
pub struct PixelImage {
    pub width: u32,
    pub height: u32,
    pub layout: PixelLayout,
    pub data: Vec<u8>,
}

impl View for PixelImage {
    type V = ImageView;

    open spec fn view(&self) -> ImageView {
        ImageView {
            width: self.width as nat,
            height: self.height as nat,
            layout: self.layout,
            data: self.data@,
        }
    }
}

/// The flips and quarter turns a texture can get after loading.
#[derive(Clone, Copy, PartialEq, Eq, Structural, Debug)]
pub enum Geometry {
    /// Upside down.
    FlipVertical,
    /// Left to right.
    FlipHorizontal,
    /// A quarter turn clockwise.
    Rotate90,
    /// A half turn.
    Rotate180,
    /// Three quarter turns clockwise.
    Rotate270,
}

/// The width of an image of `w x h` pixels after `g`.
pub open spec fn geometry_width(g: Geometry, w: nat, h: nat) -> nat {
    match g {
        Geometry::Rotate90 | Geometry::Rotate270 => h,
        _ => w,
    }
}

/// The height of an image of `w x h` pixels after `g`.
pub open spec fn geometry_height(g: Geometry, w: nat, h: nat) -> nat {
    match g {
        Geometry::Rotate90 | Geometry::Rotate270 => w,
        _ => h,
    }
}

/// The pixel of a `w x h` source that `g` moves to column `x`, row `y` of the result.
pub open spec fn geometry_source(g: Geometry, w: int, h: int, x: int, y: int) -> (int, int) {
    match g {
        Geometry::FlipVertical => (x, h - 1 - y),
        Geometry::FlipHorizontal => (w - 1 - x, y),
        Geometry::Rotate90 => (y, h - 1 - x),
        Geometry::Rotate180 => (w - 1 - x, h - 1 - y),
        Geometry::Rotate270 => (w - 1 - y, x),
    }
}

/// Byte `k` of the result of `g` on `v`.
pub open spec fn geometry_byte(v: ImageView, g: Geometry, k: int) -> u8 {
    let ch = channel_count(v.layout) as int;
    let ow = geometry_width(g, v.width, v.height) as int;
    let p = k / ch;
    let src = geometry_source(g, v.width as int, v.height as int, p % ow, p / ow);
    v.sample(src.0, src.1, k % ch)
}

/// The image `g` makes of `v`.
pub open spec fn geometry_view(v: ImageView, g: Geometry) -> ImageView {
    ImageView {
        width: geometry_width(g, v.width, v.height),
        height: geometry_height(g, v.width, v.height),
        layout: v.layout,
        data: Seq::new(v.data.len(), |k: int| geometry_byte(v, g, k)),
    }
}

/// The byte of channel `c` of pixel `(x, y)` of a `w x h` grid lies inside its data.
proof fn lemma_index_in_range(x: int, y: int, c: int, w: int, h: int, ch: int)
    requires
        0 <= x < w,
        0 <= y < h,
        0 <= c < ch,
    ensures
        0 <= y * w,
        y * w + x < w * h,
        0 <= (y * w + x) * ch,
        (y * w + x) * ch + c < w * h * ch,
        w * h <= w * h * ch,
{
    assert(0 <= y * w) by (nonlinear_arith)
        requires
            0 <= y,
            0 <= x < w,
    ;
    assert(y * w + x < w * h) by (nonlinear_arith)
        requires
            0 <= x < w,
            0 <= y < h,
    ;
    let p = y * w + x;
    assert(0 <= p * ch) by (nonlinear_arith)
        requires
            0 <= p,
            0 <= c < ch,
    ;
    assert(p * ch + c < w * h * ch) by (nonlinear_arith)
        requires
            0 <= p < w * h,
            0 <= c < ch,
    ;
    assert(w * h <= w * h * ch) by (nonlinear_arith)
        requires
            0 <= w * h,
            1 <= ch,
    ;
}

/// Splits the index of channel `c` of pixel `(x, y)` back into its parts.
proof fn lemma_split_index(x: int, y: int, c: int, w: int, ch: int)
    requires
        0 <= x < w,
        0 <= y,
        0 <= c < ch,
    ensures
        ((y * w + x) * ch + c) / ch == y * w + x,
        ((y * w + x) * ch + c) % ch == c,
        (y * w + x) / w == y,
        (y * w + x) % w == x,
{
    lemma_fundamental_div_mod_converse((y * w + x) * ch + c, ch, y * w + x, c);
    lemma_fundamental_div_mod_converse(y * w + x, w, y, x);
}

/// A grid position at or past row `h` lies past the data of a `w x h` grid.
proof fn lemma_past_last_row(x: int, y: int, c: int, w: int, h: int, ch: int)
    requires
        0 <= x,
        0 <= c,
        0 <= h <= y,
        0 <= w,
        0 <= ch,
    ensures
        (y * w + x) * ch + c >= w * h * ch,
{
    assert((y * w + x) * ch + c >= w * h * ch) by (nonlinear_arith)
        requires
            0 <= x,
            0 <= c,
            0 <= h <= y,
            0 <= w,
            0 <= ch,
    ;
}

/// Sizes of the result of `g`: its grid holds as many bytes as the source.
proof fn lemma_geometry_size(g: Geometry, w: nat, h: nat, ch: nat)
    ensures
        geometry_width(g, w, h) * geometry_height(g, w, h) * ch == w * h * ch,
{
    assert(h * w * ch == w * h * ch) by (nonlinear_arith);
}

/// The result of `g` on a well-formed image is well-formed, and each of its pixels
/// is the source pixel that `geometry_source` names, channel by channel.
pub proof fn lemma_geometry_sample(v: ImageView, g: Geometry, x: int, y: int, c: int)
    requires
        v.wf(),
        geometry_view(v, g).in_bounds(x, y, c),
    ensures
        geometry_view(v, g).wf(),
        v.in_bounds(
            geometry_source(g, v.width as int, v.height as int, x, y).0,
            geometry_source(g, v.width as int, v.height as int, x, y).1,
            c,
        ),
        geometry_view(v, g).sample(x, y, c) == v.sample(
            geometry_source(g, v.width as int, v.height as int, x, y).0,
            geometry_source(g, v.width as int, v.height as int, x, y).1,
            c,
        ),
{
    let ch = channel_count(v.layout) as int;
    let ow = geometry_width(g, v.width, v.height) as int;
    let oh = geometry_height(g, v.width, v.height) as int;
    lemma_geometry_size(g, v.width, v.height, channel_count(v.layout));
    lemma_index_in_range(x, y, c, ow, oh, ch);
    lemma_split_index(x, y, c, ow, ch);
}

/// The source pixel of the pixel at `(x, y)` of the result of `g` on a `w x h` image.
fn source_pixel(g: Geometry, w: u32, h: u32, x: u32, y: u32) -> (s: (u32, u32))
    requires
        x < geometry_width(g, w as nat, h as nat),
        y < geometry_height(g, w as nat, h as nat),
    ensures
        s.0 < w,
        s.1 < h,
        (s.0 as int, s.1 as int) == geometry_source(g, w as int, h as int, x as int, y as int),
{
    match g {
        Geometry::FlipVertical => (x, h - 1 - y),
        Geometry::FlipHorizontal => (w - 1 - x, y),
        Geometry::Rotate90 => (y, h - 1 - x),
        Geometry::Rotate180 => (w - 1 - x, h - 1 - y),
        Geometry::Rotate270 => (w - 1 - y, x),
    }
}

/// Flips or turns `img` as `g` says.
pub fn transform(img: &PixelImage, g: Geometry) -> (out: PixelImage)
    requires
        img@.wf(),
    ensures
        out@ == geometry_view(img@, g),
        out@.wf(),
{
    let ch = channels(img.layout);
    let w = img.width;
    let h = img.height;
    let (ow, oh) = match g {
        Geometry::Rotate90 | Geometry::Rotate270 => (h, w),
        _ => (w, h),
    };
    let total = img.data.len();
    proof {
        lemma_geometry_size(g, w as nat, h as nat, ch as nat);
    }
    let mut out: Vec<u8> = Vec::new();
    if total == 0 {
        assert(out@ =~= Seq::new(img@.data.len(), |k: int| geometry_byte(img@, g, k)));
        return PixelImage { width: ow, height: oh, layout: img.layout, data: out };
    }
    assert(ow > 0 && oh > 0) by (nonlinear_arith)
        requires
            total == ow * oh * ch,
            total > 0,
    ;
    let mut x: u32 = 0;
    let mut y: u32 = 0;
    let mut c: usize = 0;
    let mut k: usize = 0;
    assert((y * ow + x) * ch + c == 0) by (nonlinear_arith)
        requires
            y == 0,
            x == 0,
            c == 0,
    ;
    while k < total
        invariant
            img@.wf(),
            total == img.data@.len(),
            ch == channel_count(img.layout),
            w == img.width,
            h == img.height,
            ow == geometry_width(g, w as nat, h as nat),
            oh == geometry_height(g, w as nat, h as nat),
            total == ow * oh * ch,
            x < ow,
            c < ch,
            k == out@.len(),
            k <= total,
            k == (y * ow + x) * ch + c,
            forall|j: int| 0 <= j < k ==> out@[j] == geometry_byte(img@, g, j),
        decreases total - k,
    {
        if y >= oh {
            proof {
                lemma_past_last_row(x as int, y as int, c as int, ow as int, oh as int, ch as int);
            }
            assert(false);
        }
        let (sx, sy) = source_pixel(g, w, h, x, y);
        proof {
            lemma_index_in_range(sx as int, sy as int, c as int, w as int, h as int, ch as int);
            lemma_split_index(x as int, y as int, c as int, ow as int, ch as int);
        }
        let idx = (sy as usize * w as usize + sx as usize) * ch + c;
        out.push(img.data[idx]);
        proof {
            assert(out@[k as int] == geometry_byte(img@, g, k as int));
        }
        k = k + 1;
        if c + 1 < ch {
            c = c + 1;
        } else {
            proof {
                let p = y * ow + x;
                assert((p + 1) * ch == p * ch + ch) by (nonlinear_arith);
            }
            c = 0;
            if x + 1 < ow {
                x = x + 1;
            } else {
                proof {
                    assert((y + 1) * ow == y * ow + ow) by (nonlinear_arith);
                }
                x = 0;
                y = y + 1;
            }
        }
    }
    assert(out@ =~= Seq::new(img@.data.len(), |j: int| geometry_byte(img@, g, j)));
    PixelImage { width: ow, height: oh, layout: img.layout, data: out }
}


/// A channel value pushed into the byte range.
pub open spec fn clamp_channel(x: int) -> u8 {
    if x < 0 {
        0
    } else if x > 255 {
        255
    } else {
        x as u8
    }
}

/// Byte `k` of `v` brightened by `value`: colour channels move by `value` within the
/// byte range, alpha channels stay.
pub open spec fn brightened_byte(v: ImageView, value: int, k: int) -> u8 {
    let ch = channel_count(v.layout) as int;
    if has_alpha(v.layout) && k % ch == ch - 1 {
        v.data[k]
    } else {
        clamp_channel(v.data[k] + value)
    }
}

/// `v` brightened by `value` (darkened where `value` is negative).
pub open spec fn brightened_view(v: ImageView, value: int) -> ImageView {
    ImageView {
        width: v.width,
        height: v.height,
        layout: v.layout,
        data: Seq::new(v.data.len(), |k: int| brightened_byte(v, value, k)),
    }
}

/// Brightens `img` by `value`; a negative value darkens it.
pub fn brighten(img: &PixelImage, value: i32) -> (out: PixelImage)
    ensures
        out@ == brightened_view(img@, value as int),
{
    let ch = channels(img.layout);
    let alpha = match img.layout {
        PixelLayout::LumaA8 | PixelLayout::Rgba8 => true,
        _ => false,
    };
    let n = img.data.len();
    let mut out: Vec<u8> = Vec::new();
    let mut c: usize = 0;
    let ghost mut p: int = 0;
    let mut k: usize = 0;
    while k < n
        invariant
            n == img.data@.len(),
            ch == channel_count(img.layout),
            alpha == has_alpha(img.layout),
            c < ch,
            0 <= p,
            k == p * ch + c,
            k == out@.len(),
            k <= n,
            forall|j: int| 0 <= j < k ==> out@[j] == brightened_byte(img@, value as int, j),
        decreases n - k,
    {
        let b = img.data[k];
        let nb: u8 = if alpha && c + 1 == ch {
            b
        } else {
            let s: i64 = b as i64 + value as i64;
            if s < 0 {
                0
            } else if s > 255 {
                255
            } else {
                s as u8
            }
        };
        proof {
            lemma_fundamental_div_mod_converse(k as int, ch as int, p, c as int);
        }
        out.push(nb);
        k = k + 1;
        if c + 1 < ch {
            c = c + 1;
        } else {
            c = 0;
            proof {
                p = p + 1;
            }
        }
    }
    assert(out@ =~= Seq::new(img@.data.len(), |j: int| brightened_byte(img@, value as int, j)));
    PixelImage { width: img.width, height: img.height, layout: img.layout, data: out }
}

/// Byte `k` of the RGBA copy of the RGB image `v`: its colour bytes, then an opaque alpha.
pub open spec fn rgba_byte(v: ImageView, k: int) -> u8 {
    if k % 4 == 3 {
        255
    } else {
        v.data[(k / 4) * 3 + k % 4]
    }
}

/// The RGBA copy of the RGB image `v`, every pixel opaque.
pub open spec fn rgba_view(v: ImageView) -> ImageView {
    ImageView {
        width: v.width,
        height: v.height,
        layout: PixelLayout::Rgba8,
        data: Seq::new(v.width * v.height * 4, |k: int| rgba_byte(v, k)),
    }
}

/// Converts an RGB image into RGBA, every pixel opaque.
pub fn add_alpha(img: &PixelImage) -> (out: PixelImage)
    requires
        img.layout == PixelLayout::Rgb8,
        img@.wf(),
    ensures
        out@ == rgba_view(img@),
        out@.wf(),
{
    let n = img.data.len() / 3;
    let mut out: Vec<u8> = Vec::new();
    let mut q: usize = 0;
    while q < n
        invariant
            img.layout == PixelLayout::Rgb8,
            img@.wf(),
            n == img.width * img.height,
            img.data@.len() == n * 3,
            img.data.len() <= usize::MAX,
            out@.len() == q * 4,
            q <= n,
            forall|j: int| 0 <= j < q * 4 ==> out@[j] == rgba_byte(img@, j),
        decreases n - q,
    {
        let base = q * 3;
        out.push(img.data[base]);
        out.push(img.data[base + 1]);
        out.push(img.data[base + 2]);
        out.push(255u8);
        proof {
            assert forall|j: int| q * 4 <= j < q * 4 + 4 implies out@[j] == rgba_byte(img@, j) by {
                lemma_fundamental_div_mod_converse(j, 4, q as int, j - q * 4);
            }
        }
        q = q + 1;
    }
    assert(out@ =~= Seq::new(img@.width * img@.height * 4, |j: int| rgba_byte(img@, j)));
    PixelImage { width: img.width, height: img.height, layout: PixelLayout::Rgba8, data: out }
}

/// The formats the renderer uploads textures in.
#[derive(Clone, Copy, PartialEq, Eq, Structural, Debug)]
pub enum TextureFormat {
    R8Unorm,
    R8G8Unorm,
    R8G8B8A8Unorm,
}

/// The format an image in `layout` is uploaded in; RGB goes up as RGBA, which the
/// hardware supports more widely.
pub open spec fn upload_format(layout: PixelLayout) -> TextureFormat {
    match layout {
        PixelLayout::Luma8 => TextureFormat::R8Unorm,
        PixelLayout::LumaA8 => TextureFormat::R8G8Unorm,
        PixelLayout::Rgb8 => TextureFormat::R8G8B8A8Unorm,
        PixelLayout::Rgba8 => TextureFormat::R8G8B8A8Unorm,
    }
}

/// The bytes that are uploaded for `v`.
pub open spec fn upload_data(v: ImageView) -> Seq<u8> {
    if v.layout is Rgb8 {
        rgba_view(v).data
    } else {
        v.data
    }
}

/// What the renderer needs to create the GPU image of a texture.
pub struct ImageInfo {
    pub width: u32,
    pub height: u32,
    pub format: TextureFormat,
    pub data: Vec<u8>,
}

/// The upload information of `img`.
pub fn image_info(img: PixelImage) -> (info: ImageInfo)
    requires
        img@.wf(),
    ensures
        info.width == img.width,
        info.height == img.height,
        info.format == upload_format(img.layout),
        info.data@ == upload_data(img@),
{
    match img.layout {
        PixelLayout::Luma8 => ImageInfo {
            width: img.width,
            height: img.height,
            format: TextureFormat::R8Unorm,
            data: img.data,
        },
        PixelLayout::LumaA8 => ImageInfo {
            width: img.width,
            height: img.height,
            format: TextureFormat::R8G8Unorm,
            data: img.data,
        },
        PixelLayout::Rgb8 => {
            let rgba = add_alpha(&img);
            ImageInfo {
                width: img.width,
                height: img.height,
                format: TextureFormat::R8G8B8A8Unorm,
                data: rgba.data,
            }
        },
        PixelLayout::Rgba8 => ImageInfo {
            width: img.width,
            height: img.height,
            format: TextureFormat::R8G8B8A8Unorm,
            data: img.data,
        },
    }
}


/// Why a texture could not be made from its data.
#[derive(Clone, Copy, PartialEq, Eq, Structural, Debug)]
pub enum TextureError {
    /// The image decoder refused the data.
    DecodeFailed,
    /// The image does not store its channels as single bytes.
    UnsupportedLayout,
}

/// The error of the image crate, carried through without looking inside.
#[verifier::external_type_specification]
#[verifier::external_body]
pub struct ExImageError(image::ImageError);

/// The number of formats that `image::ImageFormat::all` lists. A format is passed
/// between the library and the image crate as its position in that list.
pub const IMAGE_FORMAT_COUNT: usize = 16;

/// The position, in `image::ImageFormat::all`, of the format that
/// `image::ImageFormat::from_path` picks for `path` from its extension, or `None`
/// where it picks none.
pub uninterp spec fn path_format_index(path: Seq<char>) -> Option<usize>;

/// The position, in `image::ImageFormat::all`, of the format that
/// `image::guess_format` recognises from the first bytes of `bytes`, or `None` where
/// it recognises none.
pub uninterp spec fn guessed_format_index(bytes: Seq<u8>) -> Option<usize>;

/// What `image::load_from_memory_with_format` makes of `bytes` decoded as the format
/// at position `format` of `image::ImageFormat::all`: `None` where it fails,
/// `Some(None)` where the image does not store its channels as single bytes, and
/// otherwise the width, height, layout and buffer of the decoded image.
pub uninterp spec fn decoded_with_format(bytes: Seq<u8>, format: usize) -> Option<Option<(u32, u32, PixelLayout, Seq<u8>)>>;

/// Calls `image::ImageFormat::from_path`, which picks a format from the extension of
/// the path alone, and gives the format's position in `image::ImageFormat::all`.
/// Claimed of it: the outcome is the one `path_format_index` names for the path, and
/// a position lies inside the list.
#[verifier::external_body]
fn format_index_from_path(path: &str) -> (i: Option<usize>)
    ensures
        i == path_format_index(path@),
        i matches Some(k) ==> k < IMAGE_FORMAT_COUNT,
{
    let format = image::ImageFormat::from_path(path).ok()?;
    image::ImageFormat::all().position(|f| f == format)
}

/// Calls `image::guess_format`, which recognises a format from the magic bytes at the
/// start of the data alone, and gives the format's position in
/// `image::ImageFormat::all`. Claimed of it: the outcome is the one
/// `guessed_format_index` names for the bytes, and a position lies inside the list.
#[verifier::external_body]
fn guess_format_index(bytes: &[u8]) -> (i: Option<usize>)
    ensures
        i == guessed_format_index(bytes@),
        i matches Some(k) ==> k < IMAGE_FORMAT_COUNT,
{
    let format = image::guess_format(bytes).ok()?;
    image::ImageFormat::all().position(|f| f == format)
}

/// Calls `image::load_from_memory_with_format` with the format at position `format`
/// of `image::ImageFormat::all`. With the format given, no registered decoding hook
/// takes part, and the decoders compute in integers (zune-jpeg documents its vector
/// paths as bit-identical with its scalar ones), so the outcome depends on the bytes
/// and the format alone. Claimed of it: the outcome is the one `decoded_with_format`
/// names, and a buffer that comes back holds at least one byte per channel of every
/// pixel, as `ImageBuffer::from_raw` refuses a shorter one.
#[verifier::external_body]
fn load_from_memory_with_format(bytes: &[u8], format: usize) -> (r: Result<Option<PixelImage>, image::ImageError>)
    requires
        format < IMAGE_FORMAT_COUNT,
    ensures
        match r {
            Err(_) => decoded_with_format(bytes@, format) is None,
            Ok(None) => decoded_with_format(bytes@, format) == Some(
                None::<(u32, u32, PixelLayout, Seq<u8>)>,
            ),
            Ok(Some(img)) => decoded_with_format(bytes@, format) == Some(
                Some((img.width, img.height, img.layout, img.data@)),
            ) && img.data@.len() >= img.width * img.height * channel_count(img.layout),
        },
{
    let format = image::ImageFormat::all().nth(format).unwrap();
    let decoded = image::load_from_memory_with_format(bytes, format)?;
    let (width, height) = (decoded.width(), decoded.height());
    let (layout, data) = match decoded {
        image::DynamicImage::ImageLuma8(b) => (PixelLayout::Luma8, b.into_raw()),
        image::DynamicImage::ImageLumaA8(b) => (PixelLayout::LumaA8, b.into_raw()),
        image::DynamicImage::ImageRgb8(b) => (PixelLayout::Rgb8, b.into_raw()),
        image::DynamicImage::ImageRgba8(b) => (PixelLayout::Rgba8, b.into_raw()),
        _ => return Ok(None),
    };
    Ok(Some(PixelImage { width, height, layout, data }))
}

/// `r` is what the library makes of the decoder's outcome `d`: a failed decode gives
/// `DecodeFailed`, an image without single-byte channels `UnsupportedLayout`, and a
/// decoded image the bytes of its grid (as `pixels_from_decoded` gives them).
pub open spec fn decode_result(
    r: Result<PixelImage, TextureError>,
    d: Option<Option<(u32, u32, PixelLayout, Seq<u8>)>>,
) -> bool {
    match d {
        None => r == Err::<PixelImage, TextureError>(TextureError::DecodeFailed),
        Some(None) => r == Err::<PixelImage, TextureError>(TextureError::UnsupportedLayout),
        Some(Some((w, h, layout, data))) => r matches Ok(out) && out.width == w && out.height
            == h && out.layout == layout && out.data@ == data.subrange(
            0,
            w * h * channel_count(layout),
        ) && out@.wf(),
    }
}

/// `r` is what decoding `bytes` as the format at position `format` gives, where a
/// format is known; no format gives `DecodeFailed`.
pub open spec fn decode_result_for_format(
    r: Result<PixelImage, TextureError>,
    bytes: Seq<u8>,
    format: Option<usize>,
) -> bool {
    match format {
        None => r == Err::<PixelImage, TextureError>(TextureError::DecodeFailed),
        Some(f) => decode_result(r, decoded_with_format(bytes, f)),
    }
}

/// The pixel data of a decoded image: the bytes of its grid, or
/// `UnsupportedLayout` where the decoder found no 8-bit layout (`None`).
pub fn pixels_from_decoded(decoded: Option<PixelImage>) -> (r: Result<PixelImage, TextureError>)
    requires
        decoded matches Some(img) ==> img.data@.len() >= img.width * img.height
            * channel_count(img.layout),
    ensures
        match decoded {
            None => r == Err::<PixelImage, TextureError>(TextureError::UnsupportedLayout),
            Some(img) => r matches Ok(out) && out.width == img.width && out.height == img.height
                && out.layout == img.layout && out.data@ == img.data@.subrange(
                0,
                img.width * img.height * channel_count(img.layout),
            ) && out@.wf(),
        },
{
    match decoded {
        None => Err(TextureError::UnsupportedLayout),
        Some(img) => {
            let ch = channels(img.layout);
            let len = img.data.len();
            assert(img.width * img.height * ch <= len);
            assert(img.width * img.height <= img.width * img.height * ch) by (nonlinear_arith)
                requires
                    ch >= 1,
            ;
            let area = img.width as usize * img.height as usize;
            let size = area * ch;
            let mut data = img.data;
            data.truncate(size);
            Ok(PixelImage { width: img.width, height: img.height, layout: img.layout, data })
        },
    }
}

/// Decodes image data, guessing its format from its first bytes: data in no known
/// format gives `DecodeFailed`, otherwise the result is what decoding the bytes in
/// the guessed format gives (see `decode_result`).
pub fn decode_image(bytes: &[u8]) -> (r: Result<PixelImage, TextureError>)
    ensures
        decode_result_for_format(r, bytes@, guessed_format_index(bytes@)),
        match r {
            Ok(out) => out@.wf(),
            Err(e) => e == TextureError::DecodeFailed || e == TextureError::UnsupportedLayout,
        },
{
    match guess_format_index(bytes) {
        None => Err(TextureError::DecodeFailed),
        Some(format) => match load_from_memory_with_format(bytes, format) {
            Err(_) => Err(TextureError::DecodeFailed),
            Ok(decoded) => pixels_from_decoded(decoded),
        },
    }
}


/// Decodes the contents of the image file at `path`, in the format its extension
/// names: a path without a known image extension gives `DecodeFailed`, otherwise the
/// result is what decoding the bytes in that format gives (see `decode_result`).
pub fn decode_image_file(bytes: &[u8], path: &str) -> (r: Result<PixelImage, TextureError>)
    ensures
        decode_result_for_format(r, bytes@, path_format_index(path@)),
        match r {
            Ok(out) => out@.wf(),
            Err(e) => e == TextureError::DecodeFailed || e == TextureError::UnsupportedLayout,
        },
{
    match format_index_from_path(path) {
        None => Err(TextureError::DecodeFailed),
        Some(format) => match load_from_memory_with_format(bytes, format) {
            Err(_) => Err(TextureError::DecodeFailed),
            Ok(decoded) => pixels_from_decoded(decoded),
        },
    }
}

/// How a sampler filters when the texture is magnified or minified.
#[derive(Clone, Copy, PartialEq, Eq, Structural, Debug)]
pub enum Filter {
    Nearest,
    Linear,
}

/// How a sampler picks between mip levels.
#[derive(Clone, Copy, PartialEq, Eq, Structural, Debug)]
pub enum MipmapMode {
    Nearest,
    Linear,
}

/// The colour a sampler returns outside the texture when it clamps to the border.
#[derive(Clone, Copy, PartialEq, Eq, Structural, Debug)]
pub enum BorderColor {
    FloatTransparentBlack,
    IntTransparentBlack,
    FloatOpaqueBlack,
    IntOpaqueBlack,
    FloatOpaqueWhite,
    IntOpaqueWhite,
}

/// How a sampler treats coordinates outside `0.0 ..= 1.0`.
#[derive(Clone, Copy, PartialEq, Eq, Structural, Debug)]
pub enum SamplerAddressMode {
    Repeat,
    MirroredRepeat,
    ClampToEdge,
    ClampToBorder(BorderColor),
    MirrorClampToEdge,
}

/// Bit pattern of the `f32` value `1.0`.
pub const ONE_F32_BITS: u32 = 0x3f80_0000;

/// Collects how a texture is sampled and how its image is changed after loading.
/// Floating point settings are held as the bit patterns of their `f32` values.
pub struct TextureBuilder {
    pub mag_filter: Filter,
    pub min_filter: Filter,
    pub mip_map_mode: MipmapMode,
    pub address_u: SamplerAddressMode,
    pub address_v: SamplerAddressMode,
    pub address_w: SamplerAddressMode,
    /// Added to the mip level distance.
    pub mip_lod_bias_bits: u32,
    /// The anisotropic filtering level, at least `1.0`.
    pub max_anisotropy_bits: u32,
    pub min_lod_bits: u32,
    pub max_lod_bits: u32,
    pub b_blur: bool,
    pub blur_factor_bits: u32,
    pub b_unsharpen: bool,
    pub sharp_factor_bits: u32,
    pub sharp_threshold: i32,
    pub b_brighten: bool,
    pub brighten_factor: i32,
    pub b_flipv: bool,
    pub b_fliph: bool,
    pub b_rotate90: bool,
    pub b_rotate180: bool,
    pub b_rotate270: bool,
    /// Where the image is read from when no data is given.
    pub image_path: String,
    /// The encoded image, if the texture is made from data.
    pub image_data: Option<Vec<u8>>,
}

impl TextureBuilder {
    /// The sampler and image settings a new builder starts with: linear filtering,
    /// nearest mip mapping, repeating coordinates, no bias, anisotropy `1.0`, mip
    /// levels `0.0` and no change to the image.
    pub open spec fn has_default_settings(self) -> bool {
        &&& self.mag_filter == Filter::Linear
        &&& self.min_filter == Filter::Linear
        &&& self.mip_map_mode == MipmapMode::Nearest
        &&& self.address_u == SamplerAddressMode::Repeat
        &&& self.address_v == SamplerAddressMode::Repeat
        &&& self.address_w == SamplerAddressMode::Repeat
        &&& self.mip_lod_bias_bits == 0
        &&& self.max_anisotropy_bits == ONE_F32_BITS
        &&& self.min_lod_bits == 0
        &&& self.max_lod_bits == 0
        &&& !self.b_blur && self.blur_factor_bits == 0
        &&& !self.b_unsharpen && self.sharp_factor_bits == 0 && self.sharp_threshold == 0
        &&& !self.b_brighten && self.brighten_factor == 0
        &&& !self.b_flipv && !self.b_fliph
        &&& !self.b_rotate90 && !self.b_rotate180 && !self.b_rotate270
    }

    fn with_source(image_path: String, image_data: Option<Vec<u8>>) -> (b: Self)
        ensures
            b.has_default_settings(),
            b.image_path == image_path,
            b.image_data == image_data,
    {
        TextureBuilder {
            mag_filter: Filter::Linear,
            min_filter: Filter::Linear,
            mip_map_mode: MipmapMode::Nearest,
            address_u: SamplerAddressMode::Repeat,
            address_v: SamplerAddressMode::Repeat,
            address_w: SamplerAddressMode::Repeat,
            mip_lod_bias_bits: 0,
            max_anisotropy_bits: ONE_F32_BITS,
            min_lod_bits: 0,
            max_lod_bits: 0,
            b_blur: false,
            blur_factor_bits: 0,
            b_unsharpen: false,
            sharp_factor_bits: 0,
            sharp_threshold: 0,
            b_brighten: false,
            brighten_factor: 0,
            b_flipv: false,
            b_fliph: false,
            b_rotate90: false,
            b_rotate180: false,
            b_rotate270: false,
            image_path,
            image_data,
        }
    }

    /// A builder with default settings for the image at `image_path`.
    pub fn from_image(image_path: &str) -> (b: Self)
        ensures
            b.has_default_settings(),
            b.image_path@ == image_path@,
            b.image_data is None,
    {
        Self::with_source(String::from_str(image_path), None)
    }

    /// A builder with default settings for the encoded image `data`.
    pub fn from_data(data: Vec<u8>) -> (b: Self)
        ensures
            b.has_default_settings(),
            b.image_path@ == "None"@,
            b.image_data == Some(data),
    {
        Self::with_source(String::from_str("None"), Some(data))
    }

    /// Sets the filters for magnification and minification.
    pub fn with_sampling_filter(self, mag_filter: Filter, min_filter: Filter) -> (b: Self)
        ensures
            b == (TextureBuilder { mag_filter, min_filter, ..self }),
    {
        TextureBuilder { mag_filter, min_filter, ..self }
    }

    /// Sets the mip mapping mode.
    pub fn with_mip_map_moe(self, new_mode: MipmapMode) -> (b: Self)
        ensures
            b == (TextureBuilder { mip_map_mode: new_mode, ..self }),
    {
        TextureBuilder { mip_map_mode: new_mode, ..self }
    }

    /// Sets how coordinates outside the texture are treated, per axis.
    pub fn with_tiling_mode(
        self,
        u: SamplerAddressMode,
        v: SamplerAddressMode,
        w: SamplerAddressMode,
    ) -> (b: Self)
        ensures
            b == (TextureBuilder { address_u: u, address_v: v, address_w: w, ..self }),
    {
        TextureBuilder { address_u: u, address_v: v, address_w: w, ..self }
    }

    /// Sets the mip level bias, given as the bit pattern of an `f32`.
    pub fn with_lod_bias_bits(self, bias_bits: u32) -> (b: Self)
        ensures
            b == (TextureBuilder { mip_lod_bias_bits: bias_bits, ..self }),
    {
        TextureBuilder { mip_lod_bias_bits: bias_bits, ..self }
    }

    /// The image is blurred by the factor with the bit pattern `factor_bits` after loading.
    pub fn with_blur_bits(self, factor_bits: u32) -> (b: Self)
        ensures
            b == (TextureBuilder { b_blur: true, blur_factor_bits: factor_bits, ..self }),
    {
        TextureBuilder { b_blur: true, blur_factor_bits: factor_bits, ..self }
    }

    /// The image gets an unsharpen mask after loading, with the blur factor of bit
    /// pattern `factor_bits` and the sharpening `threshold`.
    pub fn with_unsharpening_bits(self, factor_bits: u32, threshold: i32) -> (b: Self)
        ensures
            b == (TextureBuilder {
                b_unsharpen: true,
                sharp_factor_bits: factor_bits,
                sharp_threshold: threshold,
                ..self
            }),
    {
        TextureBuilder {
            b_unsharpen: true,
            sharp_factor_bits: factor_bits,
            sharp_threshold: threshold,
            ..self
        }
    }

    /// The image is brightened by `factor` after loading; a negative factor darkens it.
    pub fn with_brightening(self, factor: i32) -> (b: Self)
        ensures
            b == (TextureBuilder { b_brighten: true, brighten_factor: factor, ..self }),
    {
        TextureBuilder { b_brighten: true, brighten_factor: factor, ..self }
    }

    /// The image is flipped upside down after loading.
    pub fn with_flipped_v(self) -> (b: Self)
        ensures
            b == (TextureBuilder { b_flipv: true, ..self }),
    {
        TextureBuilder { b_flipv: true, ..self }
    }

    /// The image is flipped left to right after loading.
    pub fn with_flipped_h(self) -> (b: Self)
        ensures
            b == (TextureBuilder { b_fliph: true, ..self }),
    {
        TextureBuilder { b_fliph: true, ..self }
    }

    /// The image is turned a quarter clockwise after loading.
    pub fn with_rotation_90(self) -> (b: Self)
        ensures
            b == (TextureBuilder { b_rotate90: true, ..self }),
    {
        TextureBuilder { b_rotate90: true, ..self }
    }

    /// The image is turned half around after loading.
    pub fn with_rotation_180(self) -> (b: Self)
        ensures
            b == (TextureBuilder { b_rotate180: true, ..self }),
    {
        TextureBuilder { b_rotate180: true, ..self }
    }

    /// The image is turned three quarters clockwise after loading.
    pub fn with_rotation_270(self) -> (b: Self)
        ensures
            b == (TextureBuilder { b_rotate270: true, ..self }),
    {
        TextureBuilder { b_rotate270: true, ..self }
    }

    /// The decoded pixels of the builder's data, or `None` where the builder reads
    /// its image from `image_path`.
    pub fn decode_data(&self) -> (r: Option<Result<PixelImage, TextureError>>)
        ensures
            match self.image_data {
                None => r is None,
                Some(data) => r matches Some(res) && decode_result_for_format(
                    res,
                    data@,
                    guessed_format_index(data@),
                ) && match res {
                    Ok(out) => out@.wf(),
                    Err(e) => e == TextureError::DecodeFailed || e
                        == TextureError::UnsupportedLayout,
                },
            },
    {
        match &self.image_data {
            None => None,
            Some(data) => Some(decode_image(data.as_slice())),
        }
    }

    /// The decoded pixels of `bytes`, the contents of the file at `image_path`, or
    /// `None` where the builder holds its image as data and reads no file.
    pub fn decode_file(&self, bytes: &[u8]) -> (r: Option<Result<PixelImage, TextureError>>)
        ensures
            match self.image_data {
                Some(_) => r is None,
                None => r matches Some(res) && decode_result_for_format(
                    res,
                    bytes@,
                    path_format_index(self.image_path@),
                ) && match res {
                    Ok(out) => out@.wf(),
                    Err(e) => e == TextureError::DecodeFailed || e
                        == TextureError::UnsupportedLayout,
                },
            },
    {
        match &self.image_data {
            Some(_) => None,
            None => Some(decode_image_file(bytes, self.image_path.as_str())),
        }
    }
}

/// The image the builder's integer steps make of `v`, in the order they run:
/// brightening, the vertical flip, the horizontal flip, then the turns by 90, 180
/// and 270 degrees.
pub open spec fn post_processed(b: TextureBuilder, v: ImageView) -> ImageView {
    let v1 = if b.b_brighten { brightened_view(v, b.brighten_factor as int) } else { v };
    let v2 = if b.b_flipv { geometry_view(v1, Geometry::FlipVertical) } else { v1 };
    let v3 = if b.b_fliph { geometry_view(v2, Geometry::FlipHorizontal) } else { v2 };
    let v4 = if b.b_rotate90 { geometry_view(v3, Geometry::Rotate90) } else { v3 };
    let v5 = if b.b_rotate180 { geometry_view(v4, Geometry::Rotate180) } else { v4 };
    if b.b_rotate270 {
        geometry_view(v5, Geometry::Rotate270)
    } else {
        v5
    }
}

impl TextureBuilder {
    /// Applies the builder's brightening, flips and turns to `img`, in that order.
    /// Blur and unsharpening work on floating point and come before these steps.
    pub fn post_process(&self, img: PixelImage) -> (out: PixelImage)
        requires
            img@.wf(),
        ensures
            out@ == post_processed(*self, img@),
            out@.wf(),
    {
        let img = if self.b_brighten {
            brighten(&img, self.brighten_factor)
        } else {
            img
        };
        let img = if self.b_flipv {
            transform(&img, Geometry::FlipVertical)
        } else {
            img
        };
        let img = if self.b_fliph {
            transform(&img, Geometry::FlipHorizontal)
        } else {
            img
        };
        let img = if self.b_rotate90 {
            transform(&img, Geometry::Rotate90)
        } else {
            img
        };
        let img = if self.b_rotate180 {
            transform(&img, Geometry::Rotate180)
        } else {
            img
        };
        if self.b_rotate270 {
            transform(&img, Geometry::Rotate270)
        } else {
            img
        }
    }

    /// The upload information of the texture made from `img`, which already carries
    /// the builder's blur and unsharpening: the builder's remaining steps applied,
    /// RGB turned into RGBA.
    pub fn build_image(&self, img: PixelImage) -> (info: ImageInfo)
        requires
            img@.wf(),
        ensures
            info.width == post_processed(*self, img@).width,
            info.height == post_processed(*self, img@).height,
            info.format == upload_format(img.layout),
            info.data@ == upload_data(post_processed(*self, img@)),
    {
        let out = self.post_process(img);
        image_info(out)
    }
}


/// Two well-formed images of the same size and layout that agree on every channel
/// of every pixel are equal.
proof fn lemma_equal_by_samples(a: ImageView, b: ImageView)
    requires
        a.wf(),
        b.wf(),
        a.width == b.width,
        a.height == b.height,
        a.layout == b.layout,
        forall|x: int, y: int, c: int|
            a.in_bounds(x, y, c) ==> #[trigger] a.sample(x, y, c) == b.sample(x, y, c),
    ensures
        a == b,
{
    let w = a.width as int;
    let h = a.height as int;
    let ch = channel_count(a.layout) as int;
    assert forall|k: int| 0 <= k < a.data.len() implies a.data[k] == b.data[k] by {
        assert(w > 0 && h > 0 && ch > 0) by (nonlinear_arith)
            requires
                0 <= k < w * h * ch,
                w >= 0,
                h >= 0,
                ch >= 0,
        ;
        let p = k / ch;
        let c = k % ch;
        let x = p % w;
        let y = p / w;
        lemma_fundamental_div_mod(k, ch);
        lemma_fundamental_div_mod(p, w);
        assert(k == p * ch + c) by (nonlinear_arith)
            requires
                k == ch * p + c,
        ;
        assert(p == y * w + x) by (nonlinear_arith)
            requires
                p == w * y + x,
        ;
        assert(p < w * h) by (nonlinear_arith)
            requires
                k == p * ch + c,
                0 <= c,
                k < w * h * ch,
                ch > 0,
        ;
        assert(y < h) by (nonlinear_arith)
            requires
                p == y * w + x,
                0 <= x,
                p < w * h,
                w > 0,
        ;
        assert(a.in_bounds(x, y, c));
        assert(a.sample(x, y, c) == b.sample(x, y, c));
    }
    assert(a.data =~= b.data);
}

/// Flipping twice the same way, or turning half around twice, gives back the image.
pub proof fn law_flip_twice_is_identity(v: ImageView, g: Geometry)
    requires
        v.wf(),
        g is FlipVertical || g is FlipHorizontal || g is Rotate180,
    ensures
        geometry_view(geometry_view(v, g), g) == v,
{
    let once = geometry_view(v, g);
    let twice = geometry_view(once, g);
    lemma_geometry_size(g, v.width, v.height, channel_count(v.layout));
    assert forall|x: int, y: int, c: int| v.in_bounds(x, y, c) implies #[trigger] v.sample(x, y, c)
        == twice.sample(x, y, c) by {
        lemma_geometry_sample(once, g, x, y, c);
        let s = geometry_source(g, v.width as int, v.height as int, x, y);
        lemma_geometry_sample(v, g, s.0, s.1, c);
    }
    lemma_geometry_sample_wf(once, g);
    lemma_equal_by_samples(v, twice);
}

/// A quarter turn followed by three quarter turns gives back the image.
pub proof fn law_rotations_cancel(v: ImageView)
    requires
        v.wf(),
    ensures
        geometry_view(geometry_view(v, Geometry::Rotate90), Geometry::Rotate270) == v,
{
    let once = geometry_view(v, Geometry::Rotate90);
    let twice = geometry_view(once, Geometry::Rotate270);
    lemma_geometry_size(Geometry::Rotate90, v.width, v.height, channel_count(v.layout));
    lemma_geometry_sample_wf(v, Geometry::Rotate90);
    assert forall|x: int, y: int, c: int| v.in_bounds(x, y, c) implies #[trigger] v.sample(x, y, c)
        == twice.sample(x, y, c) by {
        lemma_geometry_sample(once, Geometry::Rotate270, x, y, c);
        let s = geometry_source(Geometry::Rotate270, once.width as int, once.height as int, x, y);
        lemma_geometry_sample(v, Geometry::Rotate90, s.0, s.1, c);
    }
    lemma_geometry_sample_wf(once, Geometry::Rotate270);
    lemma_equal_by_samples(v, twice);
}

/// The result of `g` on a well-formed image is well-formed.
proof fn lemma_geometry_sample_wf(v: ImageView, g: Geometry)
    requires
        v.wf(),
    ensures
        geometry_view(v, g).wf(),
{
    lemma_geometry_size(g, v.width, v.height, channel_count(v.layout));
}

/// Brightening by zero leaves the image as it is.
pub proof fn law_brighten_by_zero_is_identity(v: ImageView)
    ensures
        brightened_view(v, 0) == v,
{
    assert(brightened_view(v, 0).data =~= v.data);
}

/// A builder with default settings leaves the loaded image as it is.
pub proof fn law_default_builder_keeps_image(b: TextureBuilder, v: ImageView)
    requires
        b.has_default_settings(),
    ensures
        post_processed(b, v) == v,
{
}

/// Each channel of each pixel of the result of `g` on a well-formed image comes from
/// the source pixel that `geometry_source` names; the result keeps the layout.
proof fn lemma_geometry_all_samples(v: ImageView, g: Geometry)
    requires
        v.wf(),
    ensures
        geometry_view(v, g).wf(),
        geometry_view(v, g).layout == v.layout,
        forall|x: int, y: int, c: int|
            geometry_view(v, g).in_bounds(x, y, c) ==> #[trigger] geometry_view(v, g).sample(x, y, c)
                == v.sample(
                geometry_source(g, v.width as int, v.height as int, x, y).0,
                geometry_source(g, v.width as int, v.height as int, x, y).1,
                c,
            ),
{
    lemma_geometry_sample_wf(v, g);
    assert forall|x: int, y: int, c: int| geometry_view(v, g).in_bounds(x, y, c) implies #[trigger] geometry_view(v, g).sample(x, y, c)
        == v.sample(
        geometry_source(g, v.width as int, v.height as int, x, y).0,
        geometry_source(g, v.width as int, v.height as int, x, y).1,
        c,
    ) by {
        lemma_geometry_sample(v, g, x, y, c);
    }
}

/// A builder whose only step is the vertical flip turns the image upside down: the
/// size and layout stay, and the pixel at column `x`, row `y` of the result is the
/// pixel at column `x`, row `h - 1 - y` of the image.
pub proof fn law_vertical_flip_turns_image_upside_down(b: TextureBuilder, v: ImageView)
    requires
        v.wf(),
        b.b_flipv,
        !b.b_brighten,
        !b.b_fliph,
        !b.b_rotate90,
        !b.b_rotate180,
        !b.b_rotate270,
    ensures
        post_processed(b, v).wf(),
        post_processed(b, v).width == v.width,
        post_processed(b, v).height == v.height,
        post_processed(b, v).layout == v.layout,
        forall|x: int, y: int, c: int|
            0 <= x < v.width && 0 <= y < v.height && 0 <= c < channel_count(v.layout)
                ==> #[trigger] post_processed(b, v).sample(x, y, c) == v.sample(
                x,
                v.height - 1 - y,
                c,
            ),
{
    lemma_geometry_all_samples(v, Geometry::FlipVertical);
}

/// A builder whose only step is the horizontal flip mirrors the image left to right:
/// the size and layout stay, and the pixel at column `x`, row `y` of the result is
/// the pixel at column `w - 1 - x`, row `y` of the image.
pub proof fn law_horizontal_flip_mirrors_image(b: TextureBuilder, v: ImageView)
    requires
        v.wf(),
        b.b_fliph,
        !b.b_brighten,
        !b.b_flipv,
        !b.b_rotate90,
        !b.b_rotate180,
        !b.b_rotate270,
    ensures
        post_processed(b, v).wf(),
        post_processed(b, v).width == v.width,
        post_processed(b, v).height == v.height,
        post_processed(b, v).layout == v.layout,
        forall|x: int, y: int, c: int|
            0 <= x < v.width && 0 <= y < v.height && 0 <= c < channel_count(v.layout)
                ==> #[trigger] post_processed(b, v).sample(x, y, c) == v.sample(
                v.width - 1 - x,
                y,
                c,
            ),
{
    lemma_geometry_all_samples(v, Geometry::FlipHorizontal);
}

/// A builder whose only step is the quarter turn clockwise gives an image `h` pixels
/// wide and `w` high in the same layout, whose pixel at column `x`, row `y` is the
/// pixel at column `y`, row `h - 1 - x` of the image.
pub proof fn law_quarter_turn_rotates_clockwise(b: TextureBuilder, v: ImageView)
    requires
        v.wf(),
        b.b_rotate90,
        !b.b_brighten,
        !b.b_flipv,
        !b.b_fliph,
        !b.b_rotate180,
        !b.b_rotate270,
    ensures
        post_processed(b, v).wf(),
        post_processed(b, v).width == v.height,
        post_processed(b, v).height == v.width,
        post_processed(b, v).layout == v.layout,
        forall|x: int, y: int, c: int|
            0 <= x < v.height && 0 <= y < v.width && 0 <= c < channel_count(v.layout)
                ==> #[trigger] post_processed(b, v).sample(x, y, c) == v.sample(
                y,
                v.height - 1 - x,
                c,
            ),
{
    lemma_geometry_all_samples(v, Geometry::Rotate90);
}

/// A builder whose only step is the half turn keeps size and layout, and its pixel at
/// column `x`, row `y` is the pixel at column `w - 1 - x`, row `h - 1 - y` of the image.
pub proof fn law_half_turn_rotates_image(b: TextureBuilder, v: ImageView)
    requires
        v.wf(),
        b.b_rotate180,
        !b.b_brighten,
        !b.b_flipv,
        !b.b_fliph,
        !b.b_rotate90,
        !b.b_rotate270,
    ensures
        post_processed(b, v).wf(),
        post_processed(b, v).width == v.width,
        post_processed(b, v).height == v.height,
        post_processed(b, v).layout == v.layout,
        forall|x: int, y: int, c: int|
            0 <= x < v.width && 0 <= y < v.height && 0 <= c < channel_count(v.layout)
                ==> #[trigger] post_processed(b, v).sample(x, y, c) == v.sample(
                v.width - 1 - x,
                v.height - 1 - y,
                c,
            ),
{
    lemma_geometry_all_samples(v, Geometry::Rotate180);
}

/// A builder whose only step is the three quarter turn gives an image `h` pixels wide
/// and `w` high in the same layout, whose pixel at column `x`, row `y` is the pixel
/// at column `w - 1 - y`, row `x` of the image.
pub proof fn law_three_quarter_turn_rotates_anticlockwise(b: TextureBuilder, v: ImageView)
    requires
        v.wf(),
        b.b_rotate270,
        !b.b_brighten,
        !b.b_flipv,
        !b.b_fliph,
        !b.b_rotate90,
        !b.b_rotate180,
    ensures
        post_processed(b, v).wf(),
        post_processed(b, v).width == v.height,
        post_processed(b, v).height == v.width,
        post_processed(b, v).layout == v.layout,
        forall|x: int, y: int, c: int|
            0 <= x < v.height && 0 <= y < v.width && 0 <= c < channel_count(v.layout)
                ==> #[trigger] post_processed(b, v).sample(x, y, c) == v.sample(
                v.width - 1 - y,
                x,
                c,
            ),
{
    lemma_geometry_all_samples(v, Geometry::Rotate270);
}

/// A builder whose only step is brightening by `f` keeps size and layout and moves
/// each colour channel by `f`, stopping at `0` and `255`; the alpha channel of a
/// layout with alpha (the last channel of `LumaA8` and `Rgba8`) stays as it is.
pub proof fn law_brightening_moves_colour_channels(b: TextureBuilder, v: ImageView)
    requires
        v.wf(),
        b.b_brighten,
        !b.b_flipv,
        !b.b_fliph,
        !b.b_rotate90,
        !b.b_rotate180,
        !b.b_rotate270,
    ensures
        post_processed(b, v).wf(),
        post_processed(b, v).width == v.width,
        post_processed(b, v).height == v.height,
        post_processed(b, v).layout == v.layout,
        forall|x: int, y: int, c: int|
            0 <= x < v.width && 0 <= y < v.height && 0 <= c < channel_count(v.layout)
                ==> {
                let before = v.sample(x, y, c) as int;
                let after = #[trigger] post_processed(b, v).sample(x, y, c) as int;
                if (v.layout is LumaA8 && c == 1) || (v.layout is Rgba8 && c == 3) {
                    after == before
                } else if before + b.brighten_factor < 0 {
                    after == 0
                } else if before + b.brighten_factor > 255 {
                    after == 255
                } else {
                    after == before + b.brighten_factor
                }
            },
{
    let ch = channel_count(v.layout) as int;
    let w = v.width as int;
    let h = v.height as int;
    assert forall|x: int, y: int, c: int|
        0 <= x < v.width && 0 <= y < v.height && 0 <= c < channel_count(v.layout) implies {
        let before = v.sample(x, y, c) as int;
        let after = #[trigger] post_processed(b, v).sample(x, y, c) as int;
        if (v.layout is LumaA8 && c == 1) || (v.layout is Rgba8 && c == 3) {
            after == before
        } else if before + b.brighten_factor < 0 {
            after == 0
        } else if before + b.brighten_factor > 255 {
            after == 255
        } else {
            after == before + b.brighten_factor
        }
    } by {
        lemma_index_in_range(x, y, c, w, h, ch);
        lemma_split_index(x, y, c, w, ch);
    }
}

} // verus!
