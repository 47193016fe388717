//! Pictures: the window icon and the screenshots of the window.
use vstd::prelude::*;
use crate::text::decimal;
use crate::text::push_decimal;

verus! {

// ---------------------------------------------------------------------------------------
// The codec

/// How the samples of a decoded picture are to be read.
#[derive(Clone, Copy, Debug, PartialEq, Eq, Structural)]
pub enum PngColor {
    Grayscale,
    Rgb,
    Indexed,
    GrayscaleAlpha,
    Rgba,
}

/// The first frame of a decoded picture; its samples are the first `used` bytes of `data`.
#[derive(Debug)]
pub struct PngFrame {
    pub width: u32,
    pub height: u32,
    pub color: PngColor,
    pub used: usize,
    pub data: Vec<u8>,
}

/// A frame as a mathematical value.
pub struct Frame {
    pub width: u32,
    pub height: u32,
    pub color: PngColor,
    pub used: usize,
    pub data: Seq<u8>,
}

impl View for PngFrame {
    type V = Frame;

    open spec fn view(&self) -> Frame {
        Frame {
            width: self.width,
            height: self.height,
            color: self.color,
            used: self.used,
            data: self.data@,
        }
    }
}

/// The first frame that the bytes of a PNG file hold, if they hold one.
pub uninterp spec fn decoded_png(bytes: Seq<u8>) -> Option<Frame>;

/// `png::Decoder::read_info`, then `png::Reader::next_frame` into a buffer of
/// `png::Reader::output_buffer_size` bytes: the first frame with its size, colour type and
/// `png::OutputInfo::buffer_size`, or `None` where one of them fails. What a frame holds is a
/// function of the bytes alone and is left to the codec.
#[verifier::external_body]
fn png_decode(bytes: &[u8]) -> (r: Option<PngFrame>)
    ensures
        match r {
            Some(frame) => decoded_png(bytes@) == Some(frame@),
            None => decoded_png(bytes@) is None,
        },
{
    let mut reader = png::Decoder::new(std::io::Cursor::new(bytes)).read_info().ok()?;
    let mut data = vec![0; reader.output_buffer_size()?];
    let info = reader.next_frame(&mut data).ok()?;
    let color = match info.color_type {
        png::ColorType::Grayscale => PngColor::Grayscale,
        png::ColorType::Rgb => PngColor::Rgb,
        png::ColorType::Indexed => PngColor::Indexed,
        png::ColorType::GrayscaleAlpha => PngColor::GrayscaleAlpha,
        png::ColorType::Rgba => PngColor::Rgba,
    };
    Some(PngFrame { width: info.width, height: info.height, color, used: info.buffer_size(), data })
}

/// The error of the encoder.
#[verifier::external_type_specification]
#[verifier::external_body]
pub struct ExEncodingError(png::EncodingError);

/// The PNG file of a picture of 8-bit red, green, blue and alpha samples, if it can be written.
pub uninterp spec fn encoded_png(width: u32, height: u32, rgba: Seq<u8>) -> Option<Seq<u8>>;

/// `png::Encoder` set to 8-bit RGBA, `png::Writer::write_image_data` and `png::Writer::finish`,
/// into memory: the bytes of the file, or the encoder's error, which a picture without pixels
/// always gives. The bytes are a function of the size and the samples alone and are left to the
/// codec.
#[verifier::external_body]
fn png_encode(width: u32, height: u32, rgba: &[u8]) -> (r: Result<Vec<u8>, png::EncodingError>)
    requires
        rgba@.len() == 4 * width * height,
    ensures
        match r {
            Ok(bytes) => encoded_png(width, height, rgba@) == Some(bytes@),
            Err(_) => encoded_png(width, height, rgba@) is None,
        },
        width == 0 || height == 0 ==> r is Err,
{
    let mut bytes = Vec::new();
    let mut encoder = png::Encoder::new(&mut bytes, width, height);
    encoder.set_color(png::ColorType::Rgba);
    encoder.set_depth(png::BitDepth::Eight);
    let mut writer = encoder.write_header()?;
    writer.write_image_data(rgba)?;
    writer.finish()?;
    Ok(bytes)
}

// ---------------------------------------------------------------------------------------
// The icon

/// The picture of the window icon.
#[derive(Debug)]
pub struct IconData {
    pub rgba: Vec<u8>,
    pub width: u32,
    pub height: u32,
}

/// `icon` is the picture of a frame with an alpha channel.
pub open spec fn is_icon_of(icon: IconData, frame: Frame) -> bool {
    &&& frame.color == PngColor::Rgba
    &&& icon.width == frame.width
    &&& icon.height == frame.height
    &&& icon.rgba@ == (if frame.used < frame.data.len() {
        frame.data.take(frame.used as int)
    } else {
        frame.data
    })
}

/// The icon of a decoded frame; only a frame with an alpha channel makes an icon.
pub fn icon_of_frame(frame: PngFrame) -> (icon: Option<IconData>)
    ensures
        match icon {
            Some(icon) => is_icon_of(icon, frame@),
            None => frame.color != PngColor::Rgba,
        },
{
    if frame.color != PngColor::Rgba {
        return None;
    }
    let mut rgba = frame.data;
    if frame.used < rgba.len() {
        rgba.truncate(frame.used);
    }
    Some(IconData { rgba, width: frame.width, height: frame.height })
}

/// The icon in the bytes of a PNG file.
pub fn load_icon(bytes: &[u8]) -> (icon: Option<IconData>)
    ensures
        match icon {
            Some(icon) => decoded_png(bytes@) is Some && is_icon_of(icon, decoded_png(bytes@)->0),
            None => decoded_png(bytes@) is None || decoded_png(bytes@)->0.color != PngColor::Rgba,
        },
{
    match png_decode(bytes) {
        Some(frame) => icon_of_frame(frame),
        None => None,
    }
}

// ---------------------------------------------------------------------------------------
// Screenshots

/// Why a screenshot was not written.
#[derive(Clone, Copy, Debug, PartialEq, Eq, Structural)]
pub enum ScreenshotError {
    /// The pixels do not fill the picture.
    PixelCount,
    /// The encoder refused the picture.
    Encoding,
}

/// The samples of pixels, one after the other.
pub open spec fn samples(pixels: Seq<[u8; 4]>) -> Seq<u8> {
    Seq::new(4 * pixels.len(), |i: int| pixels[i / 4]@[i % 4])
}

pub fn flatten_pixels(pixels: &[[u8; 4]]) -> (rgba: Vec<u8>)
    ensures
        rgba@ == samples(pixels@),
{
    let mut rgba: Vec<u8> = Vec::new();
    let mut i: usize = 0;
    while i < pixels.len()
        invariant
            i <= pixels@.len(),
            rgba@ == samples(pixels@.take(i as int)),
        decreases pixels@.len() - i,
    {
        let pixel = pixels[i];
        rgba.push(pixel[0]);
        rgba.push(pixel[1]);
        rgba.push(pixel[2]);
        rgba.push(pixel[3]);
        assert(rgba@ =~= samples(pixels@.take(i + 1)));
        i += 1;
    }
    assert(pixels@.take(i as int) =~= pixels@);
    rgba
}

/// The PNG file of a picture of the window.
pub fn gui_screenshot_png(width: u32, height: u32, pixels: &[[u8; 4]]) -> (r: Result<Vec<u8>, ScreenshotError>)
    ensures
        match r {
            Ok(bytes) => pixels@.len() == width * height && encoded_png(width, height, samples(pixels@)) == Some(
                bytes@,
            ),
            Err(ScreenshotError::PixelCount) => pixels@.len() != width * height,
            Err(ScreenshotError::Encoding) => pixels@.len() == width * height && encoded_png(
                width,
                height,
                samples(pixels@),
            ) is None,
        },
        width == 0 || height == 0 ==> r is Err,
{
    let w: u64 = width as u64;
    let h: u64 = height as u64;
    assert(w * h <= 0xffff_ffff * 0xffff_ffff) by (nonlinear_arith)
        requires
            w <= 0xffff_ffff,
            h <= 0xffff_ffff,
    ;
    if pixels.len() as u64 != w * h {
        return Err(ScreenshotError::PixelCount);
    }
    let rgba = flatten_pixels(pixels);
    assert(4 * width * height == 4 * (width * height)) by (nonlinear_arith);
    match png_encode(width, height, rgba.as_slice()) {
        Ok(bytes) => Ok(bytes),
        Err(_) => Err(ScreenshotError::Encoding),
    }
}

/// The number of frames to wait before a screenshot is taken: five unless another number is
/// asked for, and from one to three hundred.
pub fn screenshot_frames(requested: Option<u32>) -> (frames: u32)
    ensures
        frames == (match requested {
            None => 5u32,
            Some(n) => if n < 1 {
                1
            } else if n > 300 {
                300
            } else {
                n
            },
        }),
{
    match requested {
        None => 5,
        Some(n) => if n < 1 {
            1
        } else if n > 300 {
            300
        } else {
            n
        },
    }
}

/// The file name of a picture of the magnified window taken at this time.
pub fn screenshot_file_name(unix_millis: u64) -> (name: String)
    ensures
        name@ == "cHiDeScaler-Neo_"@ + decimal(unix_millis as nat) + ".png"@,
{
    let mut name = String::from_str("cHiDeScaler-Neo_");
    push_decimal(&mut name, unix_millis);
    name.append(".png");
    name
}

/// A picture is handed on pixel by pixel, row by row, four bytes for each: red, green, blue and
/// opacity in their order.
pub proof fn a_picture_is_its_pixels_in_order(pixels: Seq<[u8; 4]>, i: int, k: int)
    requires
        0 <= i < pixels.len(),
        0 <= k < 4,
    ensures
        samples(pixels).len() == 4 * pixels.len(),
        samples(pixels)[4 * i + k] == pixels[i]@[k],
{
    assert((4 * i + k) / 4 == i);
    assert((4 * i + k) % 4 == k);
}

/// An icon is the whole of a decoded picture with opacity, and its size is that of the picture.
pub proof fn an_icon_is_the_whole_picture(icon: IconData, frame: Frame)
    requires
        is_icon_of(icon, frame),
    ensures
        frame.color == PngColor::Rgba,
        icon.width == frame.width,
        icon.height == frame.height,
        frame.used >= frame.data.len() ==> icon.rgba@ == frame.data,
        frame.used < frame.data.len() ==> icon.rgba@.len() == frame.used && forall|i: int|
            0 <= i < frame.used ==> #[trigger] icon.rgba@[i] == frame.data[i],
{
}

} // verus!
