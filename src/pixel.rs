use vstd::prelude::*;

use crate::error::WaylandError;
use image::{DynamicImage, RgbImage, RgbaImage};

verus! {

/// Wire code of `wl_shm` format `argb8888` (bytes in memory: B, G, R, A).
pub const ARGB8888: u32 = 0;

/// Wire code of `wl_shm` format `xrgb8888` (bytes in memory: B, G, R, x).
pub const XRGB8888: u32 = 1;

/// Wire code of `wl_shm` format `abgr8888` (bytes in memory: R, G, B, A).
pub const ABGR8888: u32 = 0x34324241;

/// Wire code of `wl_shm` format `xbgr8888` (bytes in memory: R, G, B, x).
pub const XBGR8888: u32 = 0x34324258;

/// Wire code of `wl_shm` format `bgr888` (bytes in memory: R, G, B).
pub const BGR888: u32 = 0x34324742;

/// The pixel format of a shared buffer, as announced by the compositor.
///
/// The formats that can be decoded have a variant of their own; every other
/// wire code is kept as it came.
#[derive(Debug, Clone, Copy, PartialEq, Eq, Structural)]
pub enum PixelFormat {
    Argb8888,
    Xrgb8888,
    Abgr8888,
    Xbgr8888,
    Bgr888,
    Other(u32),
}

/// The format that a wire code stands for.
pub open spec fn format_of_wire(code: u32) -> PixelFormat {
    if code == ARGB8888 {
        PixelFormat::Argb8888
    } else if code == XRGB8888 {
        PixelFormat::Xrgb8888
    } else if code == ABGR8888 {
        PixelFormat::Abgr8888
    } else if code == XBGR8888 {
        PixelFormat::Xbgr8888
    } else if code == BGR888 {
        PixelFormat::Bgr888
    } else {
        PixelFormat::Other(code)
    }
}

impl PixelFormat {
    /// Bytes that one pixel takes in the shared buffer; 0 for a format that cannot be decoded.
    pub open spec fn spec_bytes_per_pixel(self) -> nat {
        match self {
            PixelFormat::Argb8888 | PixelFormat::Xrgb8888 | PixelFormat::Abgr8888
            | PixelFormat::Xbgr8888 => 4,
            PixelFormat::Bgr888 => 3,
            PixelFormat::Other(_) => 0,
        }
    }

    /// Whether the colour bytes of a pixel lie in memory in the reverse of the
    /// canonical R, G, B order.
    pub open spec fn is_reversed(self) -> bool {
        self is Argb8888 || self is Xrgb8888
    }

    pub open spec fn is_supported(self) -> bool {
        !(self is Other)
    }

    /// The format that the wire code `code` stands for.
    pub fn from_wire(code: u32) -> (r: PixelFormat)
        ensures
            r == format_of_wire(code),
    {
        if code == ARGB8888 {
            PixelFormat::Argb8888
        } else if code == XRGB8888 {
            PixelFormat::Xrgb8888
        } else if code == ABGR8888 {
            PixelFormat::Abgr8888
        } else if code == XBGR8888 {
            PixelFormat::Xbgr8888
        } else if code == BGR888 {
            PixelFormat::Bgr888
        } else {
            PixelFormat::Other(code)
        }
    }

    /// The wire code of the format.
    pub open spec fn wire_code(self) -> u32 {
        match self {
            PixelFormat::Argb8888 => ARGB8888,
            PixelFormat::Xrgb8888 => XRGB8888,
            PixelFormat::Abgr8888 => ABGR8888,
            PixelFormat::Xbgr8888 => XBGR8888,
            PixelFormat::Bgr888 => BGR888,
            PixelFormat::Other(code) => code,
        }
    }

    /// The wire code of the format.
    pub fn to_wire(self) -> (r: u32)
        ensures
            r == self.wire_code(),
    {
        match self {
            PixelFormat::Argb8888 => ARGB8888,
            PixelFormat::Xrgb8888 => XRGB8888,
            PixelFormat::Abgr8888 => ABGR8888,
            PixelFormat::Xbgr8888 => XBGR8888,
            PixelFormat::Bgr888 => BGR888,
            PixelFormat::Other(code) => code,
        }
    }

    /// Bytes per pixel of a format that can be decoded, `None` for any other.
    pub fn bytes_per_pixel(self) -> (r: Option<u32>)
        ensures
            self.is_supported() ==> r == Some(self.spec_bytes_per_pixel() as u32),
            !self.is_supported() ==> r is None,
    {
        match self {
            PixelFormat::Argb8888 | PixelFormat::Xrgb8888 | PixelFormat::Abgr8888
            | PixelFormat::Xbgr8888 => Some(4),
            PixelFormat::Bgr888 => Some(3),
            PixelFormat::Other(_) => None,
        }
    }
}

/// Channel layout of a decoded image.
#[derive(Debug, Clone, Copy, PartialEq, Eq, Structural)]
pub enum ColorLayout {
    /// Three bytes per pixel: R, G, B.
    Rgb8,
    /// Four bytes per pixel: R, G, B, A.
    Rgba8,
}

impl ColorLayout {
    pub open spec fn channels(self) -> nat {
        match self {
            ColorLayout::Rgb8 => 3,
            ColorLayout::Rgba8 => 4,
        }
    }
}

/// The layout that a decodable format decodes to.
pub open spec fn layout_of(format: PixelFormat) -> ColorLayout {
    if format is Bgr888 {
        ColorLayout::Rgb8
    } else {
        ColorLayout::Rgba8
    }
}

/// A decoded image: `height` rows of `width` pixels, without row padding,
/// channels in canonical order.
#[derive(Debug)]
pub struct Image {
    pub width: u32,
    pub height: u32,
    pub layout: ColorLayout,
    pub data: Vec<u8>,
}

impl Image {
    pub open spec fn wf(&self) -> bool {
        self.data@.len() == self.width as nat * self.height as nat * self.layout.channels()
    }

    /// Hands the image over as an `image::DynamicImage` of the same layout;
    /// `None` where one row's bytes do not fit in `usize`, which the `image`
    /// crate refuses.
    pub fn into_dynamic(self) -> (r: Option<DynamicImage>)
        requires
            self.wf(),
        ensures
            r is Some <==> self.width as nat * self.layout.channels() <= usize::MAX,
    {
        let Image { width, height, layout, data } = self;
        let len = data.len();
        proof {
            let c = layout.channels();
            assert(width as nat * c * height as nat == len) by (nonlinear_arith)
                requires
                    width as nat * height as nat * c == len,
            ;
        }
        match layout {
            ColorLayout::Rgb8 => rgb_from_vec(width, height, data),
            ColorLayout::Rgba8 => rgba_from_vec(width, height, data),
        }
    }
}

#[verifier::external_type_specification]
#[verifier::external_body]
pub struct ExDynamicImage(DynamicImage);

/// Relies on `image::ImageBuffer::from_vec` for `Rgba<u8>` pixels: it computes
/// `4 * width` and then that times `height` with checked multiplications in
/// `usize`, and returns an image exactly when neither overflows and the
/// buffer holds at least that many bytes.
#[verifier::external_body]
fn rgba_from_vec(width: u32, height: u32, data: Vec<u8>) -> (r: Option<DynamicImage>)
    ensures
        r is Some <==> (4 * width as nat <= usize::MAX && 4 * width as nat * height as nat
            <= usize::MAX && 4 * width as nat * height as nat <= data@.len()),
{
    RgbaImage::from_vec(width, height, data).map(DynamicImage::ImageRgba8)
}

/// Relies on `image::ImageBuffer::from_vec` for `Rgb<u8>` pixels: it computes
/// `3 * width` and then that times `height` with checked multiplications in
/// `usize`, and returns an image exactly when neither overflows and the
/// buffer holds at least that many bytes.
#[verifier::external_body]
fn rgb_from_vec(width: u32, height: u32, data: Vec<u8>) -> (r: Option<DynamicImage>)
    ensures
        r is Some <==> (3 * width as nat <= usize::MAX && 3 * width as nat * height as nat
            <= usize::MAX && 3 * width as nat * height as nat <= data@.len()),
{
    RgbImage::from_vec(width, height, data).map(DynamicImage::ImageRgb8)
}

/// The canonical bytes of the pixel whose bytes start at `base` in `data`:
/// for a reversed format the three colour bytes change places, and a fourth
/// (alpha or padding) byte stays as it is.
pub open spec fn pixel_at(data: Seq<u8>, base: int, format: PixelFormat) -> Seq<u8> {
    let raw = data.subrange(base, base + format.spec_bytes_per_pixel() as int);
    if format.is_reversed() {
        seq![raw[2], raw[1], raw[0]] + raw.subrange(3, raw.len() as int)
    } else {
        raw
    }
}

/// The first `count` pixels of the row that starts at `row_start`, decoded.
pub open spec fn row_prefix(data: Seq<u8>, row_start: int, format: PixelFormat, count: nat) -> Seq<u8>
    decreases count,
{
    if count == 0 {
        seq![]
    } else {
        row_prefix(data, row_start, format, (count - 1) as nat) + pixel_at(
            data,
            row_start + (count - 1) * format.spec_bytes_per_pixel(),
            format,
        )
    }
}

/// The first `rows` rows of a buffer with `stride` bytes per row, each cut to
/// `width` pixels and decoded.
pub open spec fn decoded_rows(
    data: Seq<u8>,
    width: nat,
    stride: nat,
    format: PixelFormat,
    rows: nat,
) -> Seq<u8>
    decreases rows,
{
    if rows == 0 {
        seq![]
    } else {
        decoded_rows(data, width, stride, format, (rows - 1) as nat) + row_prefix(
            data,
            (rows - 1) * stride,
            format,
            width,
        )
    }
}

/// Whether a buffer of `len` bytes holds `height` rows of `stride` bytes, each
/// with room for `width` pixels of `format`.
pub open spec fn buffer_fits(len: nat, width: nat, height: nat, stride: nat, format: PixelFormat) -> bool {
    &&& width * format.spec_bytes_per_pixel() <= stride
    &&& height * stride <= len
}

/// Why a buffer of `len` bytes cannot be decoded, if it cannot.
pub open spec fn decode_error(
    len: nat,
    width: nat,
    height: nat,
    stride: nat,
    format: PixelFormat,
) -> Option<WaylandError> {
    if !format.is_supported() {
        Some(WaylandError::UnsupportedFormat(format->Other_0))
    } else if !buffer_fits(len, width, height, stride, format) {
        Some(WaylandError::ConvertImageFailed)
    } else {
        None
    }
}

/// `img` is the decoding of `data`, a buffer of `height` rows of `stride`
/// bytes with `width` pixels of `format` each.
pub open spec fn decodes_to(
    img: Image,
    data: Seq<u8>,
    width: u32,
    height: u32,
    stride: u32,
    format: PixelFormat,
) -> bool {
    &&& img.wf()
    &&& img.width == width
    &&& img.height == height
    &&& img.layout == layout_of(format)
    &&& img.data@ == decoded_rows(data, width as nat, stride as nat, format, height as nat)
}

/// Decoding is a function of the bytes and the announced parameters: two
/// decodings of the same buffer with the same width, height, stride and
/// format are equal byte for byte.
pub proof fn lemma_decoding_is_deterministic(
    a: Image,
    b: Image,
    data: Seq<u8>,
    width: u32,
    height: u32,
    stride: u32,
    format: PixelFormat,
)
    requires
        decodes_to(a, data, width, height, stride, format),
        decodes_to(b, data, width, height, stride, format),
    ensures
        a.data@ == b.data@,
        a.width == b.width,
        a.height == b.height,
        a.layout == b.layout,
{
}

/// The byte of a pixel in the buffer that becomes channel `c` of the decoded
/// pixel: for a reversed format the first and third change places; the
/// others, and a fourth (alpha or padding) byte, stay where they are.
pub open spec fn source_channel(format: PixelFormat, c: int) -> int {
    if format.is_reversed() && c < 3 {
        2 - c
    } else {
        c
    }
}

proof fn lemma_pixel_at_index(data: Seq<u8>, base: int, format: PixelFormat, c: int)
    requires
        format.is_supported(),
        0 <= base,
        base + format.spec_bytes_per_pixel() <= data.len(),
        0 <= c < format.spec_bytes_per_pixel(),
    ensures
        pixel_at(data, base, format).len() == format.spec_bytes_per_pixel(),
        pixel_at(data, base, format)[c] == data[base + source_channel(format, c)],
{
}

proof fn lemma_row_prefix_index(
    data: Seq<u8>,
    row_start: int,
    format: PixelFormat,
    count: nat,
    x: int,
    c: int,
)
    requires
        format.is_supported(),
        0 <= row_start,
        row_start + count * format.spec_bytes_per_pixel() <= data.len(),
        0 <= x < count,
        0 <= c < format.spec_bytes_per_pixel(),
    ensures
        row_prefix(data, row_start, format, count)[x * format.spec_bytes_per_pixel() + c]
            == data[row_start + x * format.spec_bytes_per_pixel() + source_channel(format, c)],
    decreases count,
{
    let bpp = format.spec_bytes_per_pixel();
    let prev = (count - 1) as nat;
    assert(prev * bpp + bpp == count * bpp) by (nonlinear_arith)
        requires
            prev + 1 == count,
    ;
    lemma_row_prefix_len(data, row_start, format, prev);
    if x < prev {
        assert(x * bpp + bpp <= prev * bpp) by (nonlinear_arith)
            requires
                x + 1 <= prev,
        ;
        lemma_row_prefix_index(data, row_start, format, prev, x, c);
    } else {
        lemma_pixel_at_index(data, row_start + prev * bpp, format, c);
    }
}

proof fn lemma_decoded_rows_index(
    data: Seq<u8>,
    width: nat,
    stride: nat,
    format: PixelFormat,
    rows: nat,
    y: int,
    x: int,
    c: int,
)
    requires
        format.is_supported(),
        buffer_fits(data.len(), width, rows, stride, format),
        0 <= y < rows,
        0 <= x < width,
        0 <= c < format.spec_bytes_per_pixel(),
    ensures
        decoded_rows(data, width, stride, format, rows)[(y * width + x)
            * format.spec_bytes_per_pixel() + c] == data[y * stride + x
            * format.spec_bytes_per_pixel() + source_channel(format, c)],
    decreases rows,
{
    let bpp = format.spec_bytes_per_pixel();
    let prev = (rows - 1) as nat;
    assert(prev * stride + stride == rows * stride) by (nonlinear_arith)
        requires
            prev + 1 == rows,
    ;
    assert(prev * stride <= rows * stride) by (nonlinear_arith)
        requires
            prev + 1 == rows,
    ;
    lemma_decoded_rows_len(data, width, stride, format, prev);
    assert(prev * stride + width * bpp <= rows * stride) by (nonlinear_arith)
        requires
            prev + 1 == rows,
            width * bpp <= stride,
    ;
    lemma_row_prefix_len(data, (prev * stride) as int, format, width);
    let head = decoded_rows(data, width, stride, format, prev);
    let tail = row_prefix(data, (prev * stride) as int, format, width);
    assert(decoded_rows(data, width, stride, format, rows) == head + tail);
    let idx = (y * width + x) * bpp + c;
    if y < prev {
        assert((y * width + x) * bpp + c < width * prev * bpp) by (nonlinear_arith)
            requires
                0 <= y,
                y + 1 <= prev,
                0 <= x < width,
                0 <= c < bpp,
        ;
        lemma_decoded_rows_index(data, width, stride, format, prev, y, x, c);
        assert((head + tail)[idx] == head[idx]);
    } else {
        assert((y * width + x) * bpp + c - width * prev * bpp == x * bpp + c) by (nonlinear_arith)
            requires
                y == prev,
        ;
        assert((y * width + x) * bpp + c >= width * prev * bpp) by (nonlinear_arith)
            requires
                y == prev,
                0 <= x,
                0 <= c,
        ;
        assert(x * bpp + c < width * bpp) by (nonlinear_arith)
            requires
                0 <= x < width,
                0 <= c < bpp,
        ;
        lemma_row_prefix_index(data, (prev * stride) as int, format, width, x, c);
        assert((head + tail)[idx] == tail[idx - head.len()]);
    }
}

/// Each decoded pixel is the pixel of the buffer at its row and column: the
/// pixel in column `x` of row `y` starts at `y * stride + x * bytes_per_pixel`
/// in the buffer, so row padding is skipped, and its bytes come in the order
/// of `source_channel`: for `Argb8888` and `Xrgb8888` the colour bytes are
/// reversed and the fourth byte stays as it is; for the other formats every
/// byte stays where it is.
pub proof fn lemma_decoded_pixel(
    data: Seq<u8>,
    width: u32,
    height: u32,
    stride: u32,
    format: PixelFormat,
    y: int,
    x: int,
)
    requires
        format.is_supported(),
        buffer_fits(data.len(), width as nat, height as nat, stride as nat, format),
        0 <= y < height,
        0 <= x < width,
    ensures
        forall|c: int|
            0 <= c < format.spec_bytes_per_pixel() ==> #[trigger] decoded_rows(
                data,
                width as nat,
                stride as nat,
                format,
                height as nat,
            )[(y * width + x) * format.spec_bytes_per_pixel() + c] == data[y * stride + x
                * format.spec_bytes_per_pixel() + source_channel(format, c)],
{
    assert forall|c: int| 0 <= c < format.spec_bytes_per_pixel() implies #[trigger] decoded_rows(
        data,
        width as nat,
        stride as nat,
        format,
        height as nat,
    )[(y * width + x) * format.spec_bytes_per_pixel() + c] == data[y * stride + x
        * format.spec_bytes_per_pixel() + source_channel(format, c)] by {
        lemma_decoded_rows_index(
            data,
            width as nat,
            stride as nat,
            format,
            height as nat,
            y,
            x,
            c,
        );
    }
}

proof fn lemma_row_prefix_len(data: Seq<u8>, row_start: int, format: PixelFormat, count: nat)
    requires
        0 <= row_start,
        row_start + count * format.spec_bytes_per_pixel() <= data.len(),
    ensures
        row_prefix(data, row_start, format, count).len() == count * format.spec_bytes_per_pixel(),
    decreases count,
{
    let bpp = format.spec_bytes_per_pixel();
    if count > 0 {
        assert((count - 1) * bpp + bpp == count * bpp) by (nonlinear_arith);
        assert((count - 1) * bpp <= count * bpp) by (nonlinear_arith);
        lemma_row_prefix_len(data, row_start, format, (count - 1) as nat);
    }
}

proof fn lemma_decoded_rows_len(
    data: Seq<u8>,
    width: nat,
    stride: nat,
    format: PixelFormat,
    rows: nat,
)
    requires
        buffer_fits(data.len(), width, rows, stride, format),
    ensures
        decoded_rows(data, width, stride, format, rows).len() == width * rows
            * format.spec_bytes_per_pixel(),
    decreases rows,
{
    let bpp = format.spec_bytes_per_pixel();
    if rows > 0 {
        assert((rows - 1) * stride + stride == rows * stride) by (nonlinear_arith);
        assert((rows - 1) * stride + width * bpp <= rows * stride) by (nonlinear_arith)
            requires
                width * bpp <= stride,
        ;
        assert((rows - 1) * stride <= rows * stride) by (nonlinear_arith);
        let prev = (rows - 1) as nat;
        lemma_decoded_rows_len(data, width, stride, format, prev);
        lemma_row_prefix_len(data, (prev * stride) as int, format, width);
        assert(width * prev * bpp + width * bpp == width * rows * bpp) by (nonlinear_arith)
            requires
                prev + 1 == rows,
        ;
        assert(decoded_rows(data, width, stride, format, rows) == decoded_rows(
            data,
            width,
            stride,
            format,
            prev,
        ) + row_prefix(data, (prev * stride) as int, format, width));
    } else {
        assert(width * rows * bpp == 0) by (nonlinear_arith)
            requires
                rows == 0,
        ;
    }
}

/// Appends the canonical bytes of the pixel at `base` to `out`.
fn push_pixel(out: &mut Vec<u8>, data: &Vec<u8>, base: usize, format: PixelFormat)
    requires
        format.is_supported(),
        base + format.spec_bytes_per_pixel() <= data@.len(),
    ensures
        final(out)@ == old(out)@ + pixel_at(data@, base as int, format),
{
    let ghost raw = data@.subrange(base as int, base + format.spec_bytes_per_pixel() as int);
    let len = data.len();
    assert(base + format.spec_bytes_per_pixel() <= len);
    match format {
        PixelFormat::Argb8888 | PixelFormat::Xrgb8888 => {
            out.push(data[base + 2]);
            out.push(data[base + 1]);
            out.push(data[base]);
            out.push(data[base + 3]);
            assert(pixel_at(data@, base as int, format) =~= seq![raw[2], raw[1], raw[0], raw[3]]);
        },
        PixelFormat::Bgr888 => {
            out.push(data[base]);
            out.push(data[base + 1]);
            out.push(data[base + 2]);
            assert(pixel_at(data@, base as int, format) =~= seq![raw[0], raw[1], raw[2]]);
        },
        _ => {
            out.push(data[base]);
            out.push(data[base + 1]);
            out.push(data[base + 2]);
            out.push(data[base + 3]);
            assert(pixel_at(data@, base as int, format) =~= seq![raw[0], raw[1], raw[2], raw[3]]);
        },
    }
    assert(final(out)@ =~= old(out)@ + pixel_at(data@, base as int, format));
}

/// Turns the raw bytes of a shared buffer into an image.
///
/// `data` holds `height` rows of `stride` bytes; each row starts with `width`
/// pixels of `format`, and what follows them in the row is padding that is
/// left out. Colour bytes of reversed formats are put in R, G, B order; an
/// alpha byte stays as it is.
pub fn image_from_wayland(
    data: &Vec<u8>,
    width: u32,
    height: u32,
    stride: u32,
    format: PixelFormat,
) -> (r: Result<Image, WaylandError>)
    ensures
        match decode_error(data@.len(), width as nat, height as nat, stride as nat, format) {
            Some(e) => r == Err::<Image, WaylandError>(e),
            None => r matches Ok(img) && decodes_to(img, data@, width, height, stride, format),
        },
{
    let bpp = match format.bytes_per_pixel() {
        Some(b) => b,
        None => {
            return Err(WaylandError::UnsupportedFormat(format.to_wire()));
        },
    };
    assert(bpp == 3 || bpp == 4);
    assert(width as nat * bpp as nat <= 0xffff_ffff * 4) by (nonlinear_arith)
        requires
            width <= 0xffff_ffff,
            bpp <= 4,
    ;
    assert(height as nat * stride as nat <= 0xffff_ffff * 0xffff_ffff) by (nonlinear_arith)
        requires
            height <= 0xffff_ffff,
            stride <= 0xffff_ffff,
    ;
    let row_bytes: u64 = width as u64 * bpp as u64;
    let total: u64 = height as u64 * stride as u64;
    let len = data.len();
    if row_bytes > stride as u64 || total > len as u64 {
        return Err(WaylandError::ConvertImageFailed);
    }
    let w = width as usize;
    let h = height as usize;
    let s = stride as usize;
    let b = bpp as usize;
    let ghost bppn = format.spec_bytes_per_pixel();
    let mut out: Vec<u8> = Vec::new();
    let mut y: usize = 0;
    while y < h
        invariant
            format.is_supported(),
            b as nat == bppn,
            bppn == format.spec_bytes_per_pixel(),
            w == width,
            h == height,
            s == stride,
            w * bppn <= s,
            h * s <= len,
            len == data@.len(),
            y <= h,
            out@ == decoded_rows(data@, w as nat, s as nat, format, y as nat),
        decreases h - y,
    {
        assert(y * s + s <= h * s) by (nonlinear_arith)
            requires
                y < h,
        ;
        let row_start: usize = y * s;
        let mut x: usize = 0;
        while x < w
            invariant
                format.is_supported(),
                b as nat == bppn,
                bppn == format.spec_bytes_per_pixel(),
                w == width,
                h == height,
                s == stride,
                w * bppn <= s,
                h * s <= len,
            len == data@.len(),
                y < h,
                row_start == y * s,
                row_start + s <= len,
                x <= w,
                out@ == decoded_rows(data@, w as nat, s as nat, format, y as nat) + row_prefix(
                    data@,
                    row_start as int,
                    format,
                    x as nat,
                ),
            decreases w - x,
        {
            assert(x * bppn + bppn <= w * bppn) by (nonlinear_arith)
                requires
                    x < w,
            ;
            let base: usize = row_start + x * b;
            push_pixel(&mut out, data, base, format);
            proof {
                let prev = decoded_rows(data@, w as nat, s as nat, format, y as nat);
                let rp = row_prefix(data@, row_start as int, format, x as nat);
                assert(row_prefix(data@, row_start as int, format, (x + 1) as nat) == rp
                    + pixel_at(data@, base as int, format));
                assert(prev + rp + pixel_at(data@, base as int, format) =~= prev + (rp + pixel_at(
                    data@,
                    base as int,
                    format,
                )));
            }
            x = x + 1;
        }
        proof {
            assert(decoded_rows(data@, w as nat, s as nat, format, (y + 1) as nat)
                == decoded_rows(data@, w as nat, s as nat, format, y as nat) + row_prefix(
                data@,
                row_start as int,
                format,
                w as nat,
            ));
        }
        y = y + 1;
    }
    proof {
        lemma_decoded_rows_len(data@, w as nat, s as nat, format, h as nat);
        assert(w * h * bppn == (w as nat) * (h as nat) * layout_of(format).channels());
    }
    let layout = if format == PixelFormat::Bgr888 {
        ColorLayout::Rgb8
    } else {
        ColorLayout::Rgba8
    };
    Ok(Image { width, height, layout, data: out })
}

} // verus!
