//! Screen frames: choosing the display and encoding the pixels as PNG.
use vstd::prelude::*;

verus! {

/// Why a screenshot could not be had.
#[derive(Clone, Debug)]
pub enum CaptureError {
    /// The machine reports no display.
    NoDisplay,
    /// The display was there but capturing it failed.
    CaptureFailed(String),
    /// The pixels were captured but not encoded.
    EncodingFailed(String),
}

/// One captured frame: `width` by `height` pixels, four bytes (RGBA) each, row by row.
#[derive(Clone, Debug)]
pub struct Frame {
    pub width: u32,
    pub height: u32,
    pub rgba: Vec<u8>,
}

impl Frame {
    /// The pixel buffer holds exactly four bytes for every pixel.
    pub open spec fn wf(&self) -> bool {
        self.rgba@.len() == 4 * (self.width * self.height)
    }
}

/// The eight bytes that open every PNG file.
pub open spec fn png_signature() -> Seq<u8> {
    seq![137u8, 80u8, 78u8, 71u8, 13u8, 10u8, 26u8, 10u8]
}

/// `bytes` opens with the PNG signature.
pub open spec fn starts_as_png(bytes: Seq<u8>) -> bool {
    bytes.len() >= 8 && bytes.subrange(0, 8) == png_signature()
}

/// The PNG file that the png crate writes for an 8-bit RGBA image of the given size.
pub uninterp spec fn png_rgba8_of(width: u32, height: u32, rgba: Seq<u8>) -> Seq<u8>;

/// Relies on png's `Encoder` (`write_header`, then `write_image_data`, then the
/// writer's drop, which closes the file) on an 8-bit RGBA image. The header
/// write opens the output with the PNG signature; it fails only on a zero width
/// or height (8-bit RGBA is a valid colour and depth), and the data write fails
/// only on a buffer of the wrong length, which is ruled out here.
#[verifier::external_body]
fn png_rgba8(width: u32, height: u32, rgba: &Vec<u8>) -> (r: Result<Vec<u8>, String>)
    requires
        rgba@.len() == 4 * (width * height),
    ensures
        r matches Ok(b) ==> b@ == png_rgba8_of(width, height, rgba@),
        r matches Ok(b) ==> starts_as_png(b@),
        r is Ok <==> (width > 0 && height > 0),
{
    let mut out: Vec<u8> = Vec::new();
    {
        let mut encoder = png::Encoder::new(&mut out, width, height);
        encoder.set_color(png::ColorType::Rgba);
        encoder.set_depth(png::BitDepth::Eight);
        let mut writer = encoder.write_header().map_err(|e| e.to_string())?;
        writer.write_image_data(rgba).map_err(|e| e.to_string())?;
    }
    Ok(out)
}

/// `r` is the choice of display among `count` enumerated ones.
pub open spec fn selects_display(count: usize, r: Result<usize, CaptureError>) -> bool {
    if count > 0 {
        r == Ok::<usize, CaptureError>(0)
    } else {
        r == Err::<usize, CaptureError>(CaptureError::NoDisplay)
    }
}

/// Picks the display to capture among `count` enumerated ones: always the
/// first, and none when there is none.
pub fn select_display(count: usize) -> (r: Result<usize, CaptureError>)
    ensures
        selects_display(count, r),
{
    if count > 0 {
        Ok(0)
    } else {
        Err(CaptureError::NoDisplay)
    }
}

/// Whether the frame's buffer holds exactly four bytes per pixel.
pub fn is_well_formed(frame: &Frame) -> (r: bool)
    ensures
        r == frame.wf(),
{
    let len = frame.rgba.len() as u128;
    let w = frame.width as u128;
    let h = frame.height as u128;
    assert(w * h <= 0xffff_ffff_ffff_ffffu128) by (nonlinear_arith)
        requires
            w <= 0xffff_ffffu128,
            h <= 0xffff_ffffu128,
    ;
    len == 4 * (w * h)
}

/// A frame that the encoder accepts: a matching buffer and a non-empty size.
pub open spec fn encodable(frame: Frame) -> bool {
    frame.wf() && frame.width > 0 && frame.height > 0
}

/// Encodes a frame as a PNG file (8 bits per channel, RGBA). A buffer whose
/// length does not match the size is refused without calling the encoder;
/// an empty image is refused by the encoder, whose message is kept.
pub fn encode_png(frame: &Frame) -> (r: Result<Vec<u8>, CaptureError>)
    ensures
        r is Ok <==> encodable(*frame),
        !frame.wf() ==> r matches Err(CaptureError::EncodingFailed(_)),
        r matches Ok(b) ==> frame.wf() && b@ == png_rgba8_of(frame.width, frame.height, frame.rgba@),
        r matches Ok(b) ==> starts_as_png(b@),
        r matches Err(e) ==> e matches CaptureError::EncodingFailed(_),
{
    if !is_well_formed(frame) {
        return Err(CaptureError::EncodingFailed("pixel buffer does not match the frame size".to_owned()));
    }
    match png_rgba8(frame.width, frame.height, &frame.rgba) {
        Ok(b) => Ok(b),
        Err(d) => Err(CaptureError::EncodingFailed(d)),
    }
}

} // verus!
