//! Cursor pipeline: turns a pointer bitmap into a size-constrained, PNG-encoded,
//! base64 data URL that a browser accepts as a cursor image.
//!
//! Browsers render cursors unreliably above 32x32 pixels, so any bitmap whose larger
//! side exceeds 32 is shrunk isotropically until that side is exactly 32. The geometry
//! is computed here with exact integer arithmetic; the resampling, the PNG encoding and
//! the base64 encoding are done by the `resize`, `png` and `base64` crates.

use base64::Engine;
use rgb::AsPixels;
use vstd::prelude::*;
use vstd::string::*;

verus! {

/// Largest cursor side, in pixels, handed to the presentation layer.
pub const MAX_CURSOR_SIZE: u16 = 32;

/// A decoded pointer bitmap: RGBA pixels, row by row, with its hotspot.
#[derive(Debug, Clone, PartialEq, Eq)]
pub struct PointerBitmap {
    pub width: u16,
    pub height: u16,
    pub hotspot_x: u16,
    pub hotspot_y: u16,
    pub bitmap_data: Vec<u8>,
}

/// The cursor representation exposed to presentation collaborators.
#[derive(Debug, Clone, PartialEq, Eq)]
pub enum CursorStyle {
    Default,
    Hidden,
    Url { data: String, hotspot_x: u16, hotspot_y: u16 },
}

/// Mathematical value of a [`CursorStyle`].
pub enum CursorStyleView {
    Default,
    Hidden,
    Url { data: Seq<char>, hotspot_x: u16, hotspot_y: u16 },
}

impl View for CursorStyle {
    type V = CursorStyleView;

    open spec fn view(&self) -> CursorStyleView {
        match self {
            CursorStyle::Default => CursorStyleView::Default,
            CursorStyle::Hidden => CursorStyleView::Hidden,
            CursorStyle::Url { data, hotspot_x, hotspot_y } => CursorStyleView::Url {
                data: data@,
                hotspot_x: *hotspot_x,
                hotspot_y: *hotspot_y,
            },
        }
    }
}

/// Why the resampler gave up, as the resampler itself tells it.
#[derive(Debug, Clone, Copy, PartialEq, Eq, Structural)]
pub enum ResizeFault {
    /// The resampler could not allocate its working memory.
    OutOfMemory,
    /// A dimension is zero, or a pixel buffer does not match the dimensions.
    InvalidParameters,
}

impl ResizeFault {
    pub open spec fn spec_description(self) -> Seq<char> {
        match self {
            ResizeFault::OutOfMemory => "out of memory"@,
            ResizeFault::InvalidParameters => "invalid parameters"@,
        }
    }

    /// The fault in the resampler's words.
    pub fn description(&self) -> (text: &'static str)
        ensures
            text@ == self.spec_description(),
    {
        match self {
            ResizeFault::OutOfMemory => "out of memory",
            ResizeFault::InvalidParameters => "invalid parameters",
        }
    }
}

/// Why a pointer bitmap could not be turned into a cursor style.
#[derive(Debug, Clone, Copy, PartialEq, Eq, Structural)]
pub enum CursorError {
    /// The resampler could not be set up.
    ResizerInit(ResizeFault),
    /// The resampler could not resample the pixels.
    Resize(ResizeFault),
    /// The PNG header could not be written.
    PngHeader,
    /// The PNG image data could not be written.
    PngEncode,
}

impl CursorError {
    pub open spec fn spec_description(self) -> Seq<char> {
        match self {
            CursorError::ResizerInit(_) => "failed to initialize cursor resizer"@,
            CursorError::Resize(_) => "failed to resize cursor"@,
            CursorError::PngHeader => "PNG encoder header write failed"@,
            CursorError::PngEncode => "failed to encode pointer PNG"@,
        }
    }

    /// Human-readable description of the failure.
    pub fn description(&self) -> (text: &'static str)
        ensures
            text@ == self.spec_description(),
    {
        match self {
            CursorError::ResizerInit(_) => "failed to initialize cursor resizer",
            CursorError::Resize(_) => "failed to resize cursor",
            CursorError::PngHeader => "PNG encoder header write failed",
            CursorError::PngEncode => "failed to encode pointer PNG",
        }
    }

    /// Whether the failure is the resampler running out of memory.
    pub open spec fn is_out_of_memory(self) -> bool {
        self == CursorError::ResizerInit(ResizeFault::OutOfMemory) || self == CursorError::Resize(
            ResizeFault::OutOfMemory,
        )
    }
}

/// Dimensions and hotspot of the image that is handed to the presentation layer.
#[derive(Debug, Clone, Copy, PartialEq, Eq, Structural)]
pub struct CursorGeometry {
    pub width: u16,
    pub height: u16,
    pub hotspot_x: u16,
    pub hotspot_y: u16,
    /// Whether the bitmap has to be resampled to reach these dimensions.
    pub scaled: bool,
}

/// The side that drives the scale factor `32 / side`, if the bitmap is too large:
/// the width when it is the larger side (or both are equal), else the height.
pub open spec fn driving_dimension(width: int, height: int) -> Option<int> {
    if width >= height && width > MAX_CURSOR_SIZE as int {
        Some(width)
    } else if height > MAX_CURSOR_SIZE as int {
        Some(height)
    } else {
        None
    }
}

/// `value` multiplied by the factor `32 / driving`, truncated toward zero.
pub open spec fn scaled_coordinate(value: int, driving: int) -> int {
    (value * (MAX_CURSOR_SIZE as int)) / driving
}

/// Geometry of the cursor image produced for a bitmap of the given size and hotspot.
pub open spec fn cursor_geometry_spec(
    width: u16,
    height: u16,
    hotspot_x: u16,
    hotspot_y: u16,
) -> CursorGeometry {
    match driving_dimension(width as int, height as int) {
        Some(driving) => CursorGeometry {
            width: scaled_coordinate(width as int, driving) as u16,
            height: scaled_coordinate(height as int, driving) as u16,
            hotspot_x: scaled_coordinate(hotspot_x as int, driving) as u16,
            hotspot_y: scaled_coordinate(hotspot_y as int, driving) as u16,
            scaled: true,
        },
        None => CursorGeometry { width, height, hotspot_x, hotspot_y, scaled: false },
    }
}

/// A scaled coordinate never exceeds the unscaled one, so it always fits the
/// coordinate range; a coordinate within the driving side lands within 32, and the
/// driving side itself lands on exactly 32.
pub proof fn lemma_scaled_coordinate_bounds(value: int, driving: int)
    requires
        0 <= value,
        driving > MAX_CURSOR_SIZE as int,
    ensures
        0 <= scaled_coordinate(value, driving) <= value,
        value <= driving ==> scaled_coordinate(value, driving) <= MAX_CURSOR_SIZE as int,
        value == driving ==> scaled_coordinate(value, driving) == MAX_CURSOR_SIZE as int,
{
    assert(0 <= (value * 32) / driving <= value) by (nonlinear_arith)
        requires
            0 <= value,
            driving > 32,
    ;
    if value <= driving {
        assert((value * 32) / driving <= 32) by (nonlinear_arith)
            requires
                0 <= value <= driving,
                driving > 32,
        ;
    }
    if value == driving {
        assert((value * 32) / driving == 32) by (nonlinear_arith)
            requires
                value == driving,
                driving > 32,
        ;
    }
}

/// A bitmap that is at most 32 pixels wide and high passes through unscaled:
/// same dimensions, same hotspot.
pub proof fn lemma_small_cursor_passes_through(
    width: u16,
    height: u16,
    hotspot_x: u16,
    hotspot_y: u16,
)
    requires
        width <= MAX_CURSOR_SIZE,
        height <= MAX_CURSOR_SIZE,
    ensures
        cursor_geometry_spec(width, height, hotspot_x, hotspot_y) == (CursorGeometry {
            width,
            height,
            hotspot_x,
            hotspot_y,
            scaled: false,
        }),
{
}

/// The produced image never exceeds 32x32 pixels (so its RGBA buffer never exceeds
/// 32 * 32 * 4 bytes) and is never larger than the bitmap it comes from. When the
/// bitmap is scaled, its larger side becomes exactly 32, and both sides and both
/// hotspot coordinates are scaled by the one factor `32 / larger side`.
pub proof fn lemma_cursor_geometry_bounds(width: u16, height: u16, hotspot_x: u16, hotspot_y: u16)
    ensures
        ({
            let g = cursor_geometry_spec(width, height, hotspot_x, hotspot_y);
            &&& g.width <= MAX_CURSOR_SIZE
            &&& g.height <= MAX_CURSOR_SIZE
            &&& g.width <= width
            &&& g.height <= height
            &&& g.hotspot_x <= hotspot_x
            &&& g.hotspot_y <= hotspot_y
            &&& 4 * g.width * g.height <= 4096
            &&& g.scaled <==> (width > MAX_CURSOR_SIZE || height > MAX_CURSOR_SIZE)
            &&& g.scaled && width >= height ==> g.width == MAX_CURSOR_SIZE
            &&& g.scaled && height >= width ==> g.height == MAX_CURSOR_SIZE
            &&& g.scaled ==> {
                let larger = if width >= height {
                    width as int
                } else {
                    height as int
                };
                &&& g.width == scaled_coordinate(width as int, larger)
                &&& g.height == scaled_coordinate(height as int, larger)
                &&& g.hotspot_x == scaled_coordinate(hotspot_x as int, larger)
                &&& g.hotspot_y == scaled_coordinate(hotspot_y as int, larger)
            }
        }),
{
    let g = cursor_geometry_spec(width, height, hotspot_x, hotspot_y);
    match driving_dimension(width as int, height as int) {
        Some(driving) => {
            lemma_scaled_coordinate_bounds(width as int, driving);
            lemma_scaled_coordinate_bounds(height as int, driving);
            lemma_scaled_coordinate_bounds(hotspot_x as int, driving);
            lemma_scaled_coordinate_bounds(hotspot_y as int, driving);
        },
        None => {},
    }
    assert(4 * g.width * g.height <= 4096) by (nonlinear_arith)
        requires
            g.width <= 32,
            g.height <= 32,
    ;
}

fn scale_coordinate(value: u16, driving: u16) -> (scaled: u16)
    requires
        driving > MAX_CURSOR_SIZE,
    ensures
        scaled == scaled_coordinate(value as int, driving as int),
{
    proof {
        lemma_scaled_coordinate_bounds(value as int, driving as int);
    }
    let product: u32 = (value as u32) * (MAX_CURSOR_SIZE as u32);
    let quotient: u32 = product / (driving as u32);
    quotient as u16
}

/// Computes the geometry of the cursor image for a bitmap of the given size and hotspot.
pub fn cursor_geometry(width: u16, height: u16, hotspot_x: u16, hotspot_y: u16) -> (g:
    CursorGeometry)
    ensures
        g == cursor_geometry_spec(width, height, hotspot_x, hotspot_y),
        g.width <= MAX_CURSOR_SIZE,
        g.height <= MAX_CURSOR_SIZE,
        width <= MAX_CURSOR_SIZE && height <= MAX_CURSOR_SIZE ==> !g.scaled && g.width == width
            && g.height == height && g.hotspot_x == hotspot_x && g.hotspot_y == hotspot_y,
{
    proof {
        lemma_cursor_geometry_bounds(width, height, hotspot_x, hotspot_y);
    }
    if width >= height && width > MAX_CURSOR_SIZE {
        CursorGeometry {
            width: scale_coordinate(width, width),
            height: scale_coordinate(height, width),
            hotspot_x: scale_coordinate(hotspot_x, width),
            hotspot_y: scale_coordinate(hotspot_y, width),
            scaled: true,
        }
    } else if height > MAX_CURSOR_SIZE {
        CursorGeometry {
            width: scale_coordinate(width, height),
            height: scale_coordinate(height, height),
            hotspot_x: scale_coordinate(hotspot_x, height),
            hotspot_y: scale_coordinate(hotspot_y, height),
            scaled: true,
        }
    } else {
        CursorGeometry { width, height, hotspot_x, hotspot_y, scaled: false }
    }
}

/// The PNG file that the `png` encoder writes for an 8-bit RGBA image of the given
/// size with fast compression.
pub uninterp spec fn png_rgba8(width: u32, height: u32, pixels: Seq<u8>) -> Seq<u8>;

/// The base64 text (standard alphabet, padded) of a byte string.
pub uninterp spec fn base64_standard(bytes: Seq<u8>) -> Seq<char>;

/// The data URL that embeds a PNG file.
pub open spec fn png_data_url(png: Seq<u8>) -> Seq<char> {
    "data:image/png;base64,"@ + base64_standard(png)
}

/// Whether the resampler is given a size of zero.
pub open spec fn resample_degenerate(
    src_width: u16,
    src_height: u16,
    dst_width: u16,
    dst_height: u16,
) -> bool {
    src_width == 0 || src_height == 0 || dst_width == 0 || dst_height == 0
}

/// Whether the pixel buffers match the sizes given to the resampler: the source
/// holds at least `src_width * src_height` whole pixels, the target exactly
/// `dst_width * dst_height`.
pub open spec fn resample_fits(
    src_len: nat,
    src_width: u16,
    src_height: u16,
    dst_len: nat,
    dst_width: u16,
    dst_height: u16,
) -> bool {
    src_len / 4 >= src_width * src_height && dst_len / 4 == dst_width * dst_height
}

/// Resamples `src` (RGBA, `src_width` x `src_height`) into `dst` (RGBA,
/// `dst_width` x `dst_height`) with `resize::new` and `Resizer::resize`, using the
/// Lanczos3 filter. The resampler's error is handed on as it is.
///
/// Trusted: `resize::new` refuses its parameters exactly when one of the four
/// sizes is zero; `Resizer::resize` refuses them exactly when a pixel buffer does
/// not match the sizes. On sizes and buffers that are in order the call succeeds
/// unless the resampler runs out of memory, which it reports as an error. The
/// length of `dst` never changes. Nothing is claimed about the resampled pixel
/// values, which come out of floating-point filtering.
#[verifier::external_body]
fn resample_rgba(
    src: &[u8],
    src_width: u16,
    src_height: u16,
    dst: &mut Vec<u8>,
    dst_width: u16,
    dst_height: u16,
) -> (r: Result<(), CursorError>)
    ensures
        final(dst)@.len() == old(dst)@.len(),
        resample_degenerate(src_width, src_height, dst_width, dst_height) ==> r is Err && r->Err_0
            == CursorError::ResizerInit(ResizeFault::InvalidParameters),
        !resample_degenerate(src_width, src_height, dst_width, dst_height) && !resample_fits(
            src@.len(),
            src_width,
            src_height,
            old(dst)@.len(),
            dst_width,
            dst_height,
        ) ==> r is Err && (r->Err_0 == CursorError::Resize(ResizeFault::InvalidParameters)
            || r->Err_0 == CursorError::ResizerInit(ResizeFault::OutOfMemory)),
        !resample_degenerate(src_width, src_height, dst_width, dst_height) && resample_fits(
            src@.len(),
            src_width,
            src_height,
            old(dst)@.len(),
            dst_width,
            dst_height,
        ) ==> r is Ok || (r is Err && r->Err_0.is_out_of_memory()),
{
    let fault = |error: resize::Error| match error {
        resize::Error::OutOfMemory => ResizeFault::OutOfMemory,
        resize::Error::InvalidParameters => ResizeFault::InvalidParameters,
    };
    let (w1, h1, w2, h2) = (src_width.into(), src_height.into(), dst_width.into(), dst_height.into());
    let made = resize::new(w1, h1, w2, h2, resize::Pixel::RGBA8P, resize::Type::Lanczos3);
    let mut resizer = made.map_err(|error| CursorError::ResizerInit(fault(error)))?;
    let resized = resizer.resize(src.as_pixels(), dst.as_mut_slice().as_pixels_mut());
    resized.map_err(|error| CursorError::Resize(fault(error)))
}

/// Encodes RGBA pixels as a PNG file in memory with `png::Encoder`
/// (`write_header`, then `Writer::write_image_data`), 8 bits per channel, fast
/// compression.
///
/// Trusted: the header is refused exactly when a dimension is zero; the image data
/// is refused exactly when its length is not `4 * width * height`; otherwise the
/// encoder, which writes into memory, succeeds, and the bytes are those named by
/// [`png_rgba8`].
#[verifier::external_body]
fn encode_png_rgba8(width: u32, height: u32, pixels: &[u8]) -> (r: Result<Vec<u8>, CursorError>)
    requires
        width <= MAX_CURSOR_SIZE,
        height <= MAX_CURSOR_SIZE,
    ensures
        (width == 0 || height == 0) ==> r matches Err(CursorError::PngHeader),
        (width > 0 && height > 0 && pixels@.len() != 4 * width * height) ==> r matches Err(
            CursorError::PngEncode,
        ),
        (width > 0 && height > 0 && pixels@.len() == 4 * width * height) ==> r is Ok && r->Ok_0@
            == png_rgba8(width, height, pixels@),
{
    let mut png_buffer = Vec::new();
    let mut encoder = png::Encoder::new(&mut png_buffer, width, height);
    encoder.set_color(png::ColorType::Rgba);
    encoder.set_depth(png::BitDepth::Eight);
    encoder.set_compression(png::Compression::Fast);
    let mut writer = match encoder.write_header() {
        Ok(writer) => writer,
        Err(_) => return Err(CursorError::PngHeader),
    };
    let written = writer.write_image_data(pixels);
    drop(writer);
    match written {
        Ok(()) => Ok(png_buffer),
        Err(_) => Err(CursorError::PngEncode),
    }
}

/// Appends the base64 text of `bytes` to `output` with `Engine::encode_string` of
/// `base64::engine::general_purpose::STANDARD`.
///
/// Trusted: what `output` held stays in front, and what is appended is the text
/// named by [`base64_standard`].
#[verifier::external_body]
fn append_base64(bytes: &[u8], output: &mut String)
    ensures
        final(output)@ == old(output)@ + base64_standard(bytes@),
{
    base64::engine::general_purpose::STANDARD.encode_string(bytes, output);
}

/// Embeds a PNG file in a `data:` URL.
pub fn data_url(png: &[u8]) -> (url: String)
    ensures
        url@ == png_data_url(png@),
{
    let mut style = String::from_str("data:image/png;base64,");
    append_base64(png, &mut style);
    style
}

/// The cursor style for an encoding outcome: the data URL of the PNG file with the
/// given hotspot, or the encoder's failure.
pub open spec fn style_of_png(
    png: Result<Seq<u8>, CursorError>,
    hotspot_x: u16,
    hotspot_y: u16,
) -> Result<CursorStyleView, CursorError> {
    match png {
        Ok(bytes) => Ok(
            CursorStyleView::Url { data: png_data_url(bytes), hotspot_x, hotspot_y },
        ),
        Err(e) => Err(e),
    }
}

/// View of a PNG encoding outcome.
pub open spec fn png_outcome_view(png: Result<Vec<u8>, CursorError>) -> Result<
    Seq<u8>,
    CursorError,
> {
    match png {
        Ok(bytes) => Ok(bytes@),
        Err(e) => Err(e),
    }
}

/// View of a cursor pipeline outcome.
pub open spec fn style_outcome_view(style: Result<CursorStyle, CursorError>) -> Result<
    CursorStyleView,
    CursorError,
> {
    match style {
        Ok(s) => Ok(s@),
        Err(e) => Err(e),
    }
}

/// Last stage of the pipeline: wraps an encoded PNG file into a URL cursor style,
/// and passes an encoding failure on.
pub fn cursor_style_from_png(png: Result<Vec<u8>, CursorError>, hotspot_x: u16, hotspot_y: u16) -> (r:
    Result<CursorStyle, CursorError>)
    ensures
        style_outcome_view(r) == style_of_png(png_outcome_view(png), hotspot_x, hotspot_y),
{
    match png {
        Ok(bytes) => Ok(CursorStyle::Url { data: data_url(bytes.as_slice()), hotspot_x, hotspot_y }),
        Err(e) => Err(e),
    }
}

fn zeroed_buffer(len: usize) -> (buffer: Vec<u8>)
    ensures
        buffer@.len() == len,
        forall|i: int| 0 <= i < len ==> buffer@[i] == 0u8,
{
    let mut buffer: Vec<u8> = Vec::new();
    let mut filled: usize = 0;
    while filled < len
        invariant
            filled <= len,
            buffer@.len() == filled,
            forall|i: int| 0 <= i < filled ==> buffer@[i] == 0u8,
        decreases len - filled,
    {
        buffer.push(0u8);
        filled = filled + 1;
    }
    buffer
}

/// Whether `style` is the URL cursor made from `pixels` laid out with geometry `g`.
pub open spec fn is_cursor_of(style: CursorStyleView, g: CursorGeometry, pixels: Seq<u8>) -> bool {
    &&& pixels.len() == 4 * g.width * g.height
    &&& style == CursorStyleView::Url {
        data: png_data_url(png_rgba8(g.width as u32, g.height as u32, pixels)),
        hotspot_x: g.hotspot_x,
        hotspot_y: g.hotspot_y,
    }
}

/// Whether a pipeline outcome is the given failure.
pub open spec fn fails_with(r: Result<CursorStyle, CursorError>, error: CursorError) -> bool {
    r is Err && r->Err_0 == error
}

/// Whether the resampler is handed sizes and buffers that are in order when the
/// bitmap `pointer` is scaled to the geometry `g`.
pub open spec fn scaling_in_order(pointer: PointerBitmap, g: CursorGeometry) -> bool {
    &&& !resample_degenerate(pointer.width, pointer.height, g.width, g.height)
    &&& pointer.bitmap_data@.len() / 4 >= pointer.width * pointer.height
}

/// The outcome of the cursor pipeline on `pointer`.
///
/// A bitmap within bounds whose pixel buffer matches its dimensions always yields
/// a URL cursor, made from its own pixels, with its own geometry. A larger bitmap
/// with a pixel buffer that covers its dimensions yields a URL cursor with the
/// geometry of [`cursor_geometry_spec`], made from resampled pixels of the
/// dictated size, unless the resampler runs out of memory. Every other bitmap is
/// refused, each with the failure named here.
pub open spec fn encode_cursor_post(
    pointer: PointerBitmap,
    r: Result<CursorStyle, CursorError>,
) -> bool {
    let g = cursor_geometry_spec(
        pointer.width,
        pointer.height,
        pointer.hotspot_x,
        pointer.hotspot_y,
    );
    if !g.scaled {
        if g.width == 0 || g.height == 0 {
            fails_with(r, CursorError::PngHeader)
        } else if pointer.bitmap_data@.len() != 4 * g.width * g.height {
            fails_with(r, CursorError::PngEncode)
        } else {
            r is Ok && is_cursor_of(r->Ok_0@, g, pointer.bitmap_data@)
        }
    } else {
        if resample_degenerate(pointer.width, pointer.height, g.width, g.height) {
            fails_with(r, CursorError::ResizerInit(ResizeFault::InvalidParameters))
        } else if !scaling_in_order(pointer, g) {
            fails_with(r, CursorError::Resize(ResizeFault::InvalidParameters)) || fails_with(
                r,
                CursorError::ResizerInit(ResizeFault::OutOfMemory),
            )
        } else {
            match r {
                Ok(style) => exists|pixels: Seq<u8>| is_cursor_of(style@, g, pixels),
                Err(error) => error.is_out_of_memory(),
            }
        }
    }
}

/// Runs the cursor pipeline on a pointer bitmap: scale down if a side exceeds 32,
/// encode as PNG, embed as a base64 data URL.
pub fn encode_cursor(pointer: &PointerBitmap) -> (r: Result<CursorStyle, CursorError>)
    ensures
        encode_cursor_post(*pointer, r),
{
    let g = cursor_geometry(pointer.width, pointer.height, pointer.hotspot_x, pointer.hotspot_y);
    if g.scaled {
        assert(4 * g.width * g.height <= 4096) by (nonlinear_arith)
            requires
                g.width <= 32,
                g.height <= 32,
        ;
        let resized_len: usize = 4 * (g.width as usize) * (g.height as usize);
        let mut resized = zeroed_buffer(resized_len);
        assert(resized@.len() / 4 == g.width * g.height) by (nonlinear_arith)
            requires
                resized@.len() == 4 * g.width * g.height,
        ;
        match resample_rgba(
            pointer.bitmap_data.as_slice(),
            pointer.width,
            pointer.height,
            &mut resized,
            g.width,
            g.height,
        ) {
            Ok(()) => {
                let png = encode_png_rgba8(g.width as u32, g.height as u32, resized.as_slice());
                let r = cursor_style_from_png(png, g.hotspot_x, g.hotspot_y);
                proof {
                    if r is Ok {
                        assert(is_cursor_of(r->Ok_0@, g, resized@));
                    }
                }
                r
            },
            Err(e) => Err(e),
        }
    } else {
        let png = encode_png_rgba8(
            g.width as u32,
            g.height as u32,
            pointer.bitmap_data.as_slice(),
        );
        cursor_style_from_png(png, g.hotspot_x, g.hotspot_y)
    }
}

/// Arguments of the cursor-style callback: the kind, the data URL if any, and the
/// hotspot (zero unless the cursor is a URL).
pub struct CursorCallbackArgs {
    pub kind: &'static str,
    pub data: Option<String>,
    pub hotspot_x: u16,
    pub hotspot_y: u16,
}

/// Mathematical value of [`CursorCallbackArgs`].
pub struct CursorCallbackArgsView {
    pub kind: Seq<char>,
    pub data: Option<Seq<char>>,
    pub hotspot_x: u16,
    pub hotspot_y: u16,
}

impl View for CursorCallbackArgs {
    type V = CursorCallbackArgsView;

    open spec fn view(&self) -> CursorCallbackArgsView {
        CursorCallbackArgsView {
            kind: self.kind@,
            data: match self.data {
                Some(data) => Some(data@),
                None => None,
            },
            hotspot_x: self.hotspot_x,
            hotspot_y: self.hotspot_y,
        }
    }
}

/// What the cursor-style callback is told for each style.
pub open spec fn callback_args_spec(style: CursorStyleView) -> CursorCallbackArgsView {
    match style {
        CursorStyleView::Default => CursorCallbackArgsView {
            kind: "default"@,
            data: None,
            hotspot_x: 0,
            hotspot_y: 0,
        },
        CursorStyleView::Hidden => CursorCallbackArgsView {
            kind: "hidden"@,
            data: None,
            hotspot_x: 0,
            hotspot_y: 0,
        },
        CursorStyleView::Url { data, hotspot_x, hotspot_y } => CursorCallbackArgsView {
            kind: "url"@,
            data: Some(data),
            hotspot_x,
            hotspot_y,
        },
    }
}

/// Flattens a cursor style into the arguments of the cursor-style callback.
pub fn cursor_callback_args(style: CursorStyle) -> (args: CursorCallbackArgs)
    ensures
        args@ == callback_args_spec(style@),
{
    match style {
        CursorStyle::Default => CursorCallbackArgs {
            kind: "default",
            data: None,
            hotspot_x: 0,
            hotspot_y: 0,
        },
        CursorStyle::Hidden => CursorCallbackArgs {
            kind: "hidden",
            data: None,
            hotspot_x: 0,
            hotspot_y: 0,
        },
        CursorStyle::Url { data, hotspot_x, hotspot_y } => CursorCallbackArgs {
            kind: "url",
            data: Some(data),
            hotspot_x,
            hotspot_y,
        },
    }
}

} // verus!
