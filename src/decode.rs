use vstd::prelude::*;
use crate::walker::PixelBuffer;

verus! {

/// Why an image could not be turned into a pixel buffer.
#[derive(Debug, Clone, Copy, PartialEq, Eq, Structural)]
pub enum ImageError {
    /// The bytes are not a readable PNG, or its pixel data does not fit its size.
    MalformedImage,
    /// Samples are not eight bits wide.
    UnsupportedBitDepth,
    /// A colour encoding other than RGB, RGBA, grayscale or grayscale with alpha.
    UnsupportedColorEncoding,
    /// The image holds no pixels.
    EmptyImage,
}

/// Bits per sample of a decoded image.
#[derive(Debug, Clone, Copy, PartialEq, Eq, Structural)]
pub enum SampleDepth {
    One,
    Two,
    Four,
    Eight,
    Sixteen,
}

/// How the samples of one pixel are laid out in a decoded image.
#[derive(Debug, Clone, Copy, PartialEq, Eq, Structural)]
pub enum ColorEncoding {
    Grayscale,
    Rgb,
    Indexed,
    GrayscaleAlpha,
    Rgba,
}

/// A decoded frame before its colours are normalised.
#[derive(Debug, Clone)]
pub struct RawImage {
    pub width: u32,
    pub height: u32,
    pub depth: SampleDepth,
    pub color: ColorEncoding,
    pub data: Vec<u8>,
}

/// Bytes per pixel of an eight-bit encoding.
pub open spec fn channels(c: ColorEncoding) -> int {
    match c {
        ColorEncoding::Grayscale => 1,
        ColorEncoding::Rgb => 3,
        ColorEncoding::Indexed => 1,
        ColorEncoding::GrayscaleAlpha => 2,
        ColorEncoding::Rgba => 4,
    }
}

/// The byte of the source that lands at position `j` of the RGB output:
/// alpha is dropped and gray is repeated over the three channels.
pub open spec fn source_index(c: ColorEncoding, j: int) -> int {
    match c {
        ColorEncoding::Rgb => j,
        ColorEncoding::Rgba => (j / 3) * 4 + j % 3,
        ColorEncoding::GrayscaleAlpha => (j / 3) * 2,
        _ => j / 3,
    }
}

/// Eight-bit samples of a supported encoding, as RGB triples. A trailing
/// partial pixel is dropped.
pub open spec fn rgb_of(c: ColorEncoding, data: Seq<u8>) -> Seq<u8> {
    let n = (data.len() as int / channels(c)) * 3;
    Seq::new(n as nat, |j: int| data[source_index(c, j)])
}

/// Converts eight-bit RGB, RGBA, grayscale or grayscale-with-alpha samples to
/// RGB triples; other depths and encodings are refused.
pub fn normalize_rgb(depth: SampleDepth, color: ColorEncoding, data: &Vec<u8>) -> (r: Result<
    Vec<u8>,
    ImageError,
>)
    ensures
        depth != SampleDepth::Eight ==> r == Err::<Vec<u8>, ImageError>(ImageError::UnsupportedBitDepth),
        depth == SampleDepth::Eight && color == ColorEncoding::Indexed ==> r == Err::<Vec<u8>, ImageError>(
            ImageError::UnsupportedColorEncoding,
        ),
        depth == SampleDepth::Eight && color != ColorEncoding::Indexed ==> (r matches Ok(v) && v@
            == rgb_of(color, data@)),
{
    if depth != SampleDepth::Eight {
        return Err(ImageError::UnsupportedBitDepth);
    }
    let ch: usize = match color {
        ColorEncoding::Grayscale => 1,
        ColorEncoding::Rgb => 3,
        ColorEncoding::GrayscaleAlpha => 2,
        ColorEncoding::Rgba => 4,
        ColorEncoding::Indexed => {
            return Err(ImageError::UnsupportedColorEncoding);
        },
    };
    let n: usize = data.len() / ch;
    let ghost want = rgb_of(color, data@);
    let mut out: Vec<u8> = Vec::new();
    assert((n as int) * (ch as int) <= data@.len()) by (nonlinear_arith)
        requires
            n as int == data@.len() as int / (ch as int),
            ch > 0,
    ;
    let total: usize = data.len();
    let mut p: usize = 0;
    while p < n
        invariant
            total as int == data@.len(),
            (n as int) * (ch as int) <= data@.len(),
            ch >= 1,
            ch as int == channels(color),
            color != ColorEncoding::Indexed,
            n as int == data@.len() as int / channels(color),
            want == rgb_of(color, data@),
            p <= n,
            out@.len() == 3 * p,
            forall|j: int| 0 <= j < out@.len() ==> #[trigger] out@[j] == want[j],
        decreases n - p,
    {
        assert((p as int) * (ch as int) + ch as int <= (n as int) * (ch as int)) by (nonlinear_arith)
            requires
                p < n,
                ch > 0,
        ;
        let base: usize = p * ch;
        let ghost prev = out@;
        if ch >= 3 {
            out.push(data[base]);
            out.push(data[base + 1]);
            out.push(data[base + 2]);
        } else {
            out.push(data[base]);
            out.push(data[base]);
            out.push(data[base]);
        }
        assert forall|j: int| 0 <= j < out@.len() implies #[trigger] out@[j] == want[j] by {
            if j >= prev.len() {
                let k = j - 3 * p;
                assert(j / 3 == p && j % 3 == k) by (nonlinear_arith)
                    requires
                        j == 3 * p + k,
                        0 <= k < 3,
                ;
                assert((n as int) * 3 >= 3 * p + 3);
            } else {
                assert(out@[j] == prev[j]);
            }
        }
        p = p + 1;
    }
    assert(out@ =~= want);
    Ok(out)
}

/// Builds a pixel buffer from RGB triples: empty data or a zero side is an
/// empty image, a length other than `width * height * 3` a malformed one.
pub fn pixels_from_rgb(width: u32, height: u32, data: Vec<u8>) -> (r: Result<PixelBuffer, ImageError>)
    ensures
        (data@.len() == 0 || width == 0 || height == 0) ==> r == Err::<PixelBuffer, ImageError>(
            ImageError::EmptyImage,
        ),
        !(data@.len() == 0 || width == 0 || height == 0) && data@.len() != (width as int) * (
        height as int) * 3 ==> r == Err::<PixelBuffer, ImageError>(ImageError::MalformedImage),
        r is Ok <==> !(data@.len() == 0 || width == 0 || height == 0) && data@.len() == (
        width as int) * (height as int) * 3,
        r matches Ok(b) ==> (b.wf() && b.width == width && b.height == height && b.data@ == data@),
{
    if data.len() == 0 || width == 0 || height == 0 {
        return Err(ImageError::EmptyImage);
    }
    let len: u128 = data.len() as u128;
    assert((width as int) * (height as int) <= (u32::MAX as int) * (u32::MAX as int))
        by (nonlinear_arith)
        requires
            width <= u32::MAX,
            height <= u32::MAX,
    ;
    if len != (width as u128) * (height as u128) * 3 {
        return Err(ImageError::MalformedImage);
    }
    Ok(PixelBuffer { width, height, data })
}

/// What normalising a decoded frame gives: the error for an unsupported
/// depth or encoding, an empty image or a size mismatch, or else the RGB
/// triples of the frame.
pub open spec fn frame_outcome(
    width: u32,
    height: u32,
    depth: SampleDepth,
    color: ColorEncoding,
    data: Seq<u8>,
) -> Result<Seq<u8>, ImageError> {
    if depth != SampleDepth::Eight {
        Err(ImageError::UnsupportedBitDepth)
    } else if color == ColorEncoding::Indexed {
        Err(ImageError::UnsupportedColorEncoding)
    } else {
        let rgb = rgb_of(color, data);
        if rgb.len() == 0 || width == 0 || height == 0 {
            Err(ImageError::EmptyImage)
        } else if rgb.len() != (width as int) * (height as int) * 3 {
            Err(ImageError::MalformedImage)
        } else {
            Ok(rgb)
        }
    }
}

/// `r` is the pixel buffer of `outcome` for an image of the given size, or
/// its error.
pub open spec fn is_outcome(
    r: Result<PixelBuffer, ImageError>,
    outcome: Result<Seq<u8>, ImageError>,
    width: u32,
    height: u32,
) -> bool {
    match outcome {
        Ok(rgb) => r matches Ok(b) && b.wf() && b.width == width && b.height == height && b.data@
            == rgb,
        Err(e) => r == Err::<PixelBuffer, ImageError>(e),
    }
}

/// Normalises a decoded frame to a pixel buffer. It succeeds exactly on an
/// eight-bit frame of a supported encoding whose RGB triples are non-empty and
/// fill `width * height` pixels.
pub fn image_from_frame(raw: RawImage) -> (r: Result<PixelBuffer, ImageError>)
    ensures
        is_outcome(
            r,
            frame_outcome(raw.width, raw.height, raw.depth, raw.color, raw.data@),
            raw.width,
            raw.height,
        ),
        r is Ok <==> frame_outcome(raw.width, raw.height, raw.depth, raw.color, raw.data@) is Ok,
{
    match normalize_rgb(raw.depth, raw.color, &raw.data) {
        Ok(rgb) => pixels_from_rgb(raw.width, raw.height, rgb),
        Err(e) => Err(e),
    }
}

#[verifier::external_type_specification]
#[verifier::external_body]
pub struct ExDecodingError(png::DecodingError);

#[verifier::external_type_specification]
#[verifier::external_body]
pub struct ExBitDepth(png::BitDepth);

#[verifier::external_type_specification]
#[verifier::external_body]
pub struct ExColorType(png::ColorType);

/// Relies on png's `BitDepth` variants: each maps to the depth of the same name.
#[verifier::external_body]
fn depth_of(d: png::BitDepth) -> SampleDepth {
    match d {
        png::BitDepth::One => SampleDepth::One,
        png::BitDepth::Two => SampleDepth::Two,
        png::BitDepth::Four => SampleDepth::Four,
        png::BitDepth::Eight => SampleDepth::Eight,
        png::BitDepth::Sixteen => SampleDepth::Sixteen,
    }
}

/// Relies on png's `ColorType` variants: each maps to the encoding of the same name.
#[verifier::external_body]
fn encoding_of(c: png::ColorType) -> ColorEncoding {
    match c {
        png::ColorType::Grayscale => ColorEncoding::Grayscale,
        png::ColorType::Rgb => ColorEncoding::Rgb,
        png::ColorType::Indexed => ColorEncoding::Indexed,
        png::ColorType::GrayscaleAlpha => ColorEncoding::GrayscaleAlpha,
        png::ColorType::Rgba => ColorEncoding::Rgba,
    }
}

/// The first frame that png decodes from a file's bytes, with no
/// transformations: width, height, sample depth, colour encoding and samples;
/// none where the bytes do not decode.
pub uninterp spec fn png_frame_of(bytes: Seq<u8>) -> Option<(u32, u32, SampleDepth, ColorEncoding, Seq<u8>)>;

/// Relies on png's `Decoder::read_info` and `Reader::next_frame`, with no
/// transformations: the outcome depends on the bytes alone, and is the first
/// frame's size, sample depth, colour encoding and samples.
#[verifier::external_body]
fn decode_png(bytes: &[u8]) -> (r: Result<RawImage, png::DecodingError>)
    ensures
        r is Ok <==> png_frame_of(bytes@) is Some,
        r matches Ok(raw) ==> png_frame_of(bytes@) == Some(
            (raw.width, raw.height, raw.depth, raw.color, raw.data@),
        ),
{
    let mut reader = png::Decoder::new(bytes).read_info()?;
    let mut data = vec![0u8; reader.output_buffer_size()];
    let info = reader.next_frame(&mut data)?;
    data.truncate(info.buffer_size());
    let depth = depth_of(info.bit_depth);
    let color = encoding_of(info.color_type);
    Ok(RawImage { width: info.width, height: info.height, depth, color, data })
}

/// Decodes a PNG file's bytes into a buffer of RGB triples. A file that does
/// not decode is malformed; otherwise the frame is normalised as
/// `image_from_frame` says.
pub fn load_png_rgb(bytes: &[u8]) -> (r: Result<PixelBuffer, ImageError>)
    ensures
        png_frame_of(bytes@) is None ==> r == Err::<PixelBuffer, ImageError>(
            ImageError::MalformedImage,
        ),
        png_frame_of(bytes@) matches Some(f) ==> is_outcome(
            r,
            frame_outcome(f.0, f.1, f.2, f.3, f.4),
            f.0,
            f.1,
        ),
        r matches Ok(b) ==> b.wf(),
{
    match decode_png(bytes) {
        Ok(raw) => image_from_frame(raw),
        Err(_) => Err(ImageError::MalformedImage),
    }
}

} // verus!
