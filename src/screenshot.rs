//! Turning a captured viewport into the data URL that clients receive.
use vstd::prelude::*;
use base64::Engine;

verus! {

/// A captured viewport.
#[derive(Debug)]
pub struct Screenshot {
    /// PNG bytes.
    pub data: Vec<u8>,
}

/// Why a capture failed.
#[derive(Debug)]
pub enum ScreenshotError {
    /// This platform offers no native capture; callers may fall back.
    PlatformUnsupported,
    CaptureFailed(String),
    EncodeFailed(String),
    Timeout,
}

impl ScreenshotError {
    /// The human-readable message.
    pub fn message(&self) -> (r: String)
        ensures
            r@ == (match self {
                ScreenshotError::PlatformUnsupported => "Platform not supported"@,
                ScreenshotError::CaptureFailed(m) => "Webview capture failed: "@ + m@,
                ScreenshotError::EncodeFailed(m) => "Encoding failed: "@ + m@,
                ScreenshotError::Timeout => "Timeout exceeded"@,
            }),
    {
        match self {
            ScreenshotError::PlatformUnsupported => String::from_str("Platform not supported"),
            ScreenshotError::CaptureFailed(m) => String::from_str("Webview capture failed: ").concat(m.as_str()),
            ScreenshotError::EncodeFailed(m) => String::from_str("Encoding failed: ").concat(m.as_str()),
            ScreenshotError::Timeout => String::from_str("Timeout exceeded"),
        }
    }

    /// Whether the failure means that native capture is absent here.
    pub fn is_unsupported(&self) -> (r: bool)
        ensures
            r == (self is PlatformUnsupported),
    {
        match self {
            ScreenshotError::PlatformUnsupported => true,
            _ => false,
        }
    }
}

/// Format asked for where the request names none.
pub open spec fn default_format() -> Seq<char> {
    "png"@
}

/// JPEG quality used where the request gives none.
pub const DEFAULT_QUALITY: u8 = 90;

/// The format and quality of a capture request, with defaults filled in.
pub fn capture_options(format: Option<String>, quality: Option<u8>) -> (r: (String, u8))
    ensures
        r.0@ == (match format { Some(f) => f@, None => default_format() }),
        r.1 == (match quality { Some(q) => q, None => DEFAULT_QUALITY }),
{
    let f = match format {
        Some(f) => f,
        None => String::from_str("png"),
    };
    let q = match quality {
        Some(q) => q,
        None => DEFAULT_QUALITY,
    };
    (f, q)
}

/// Character for a 6-bit value in the standard base64 alphabet.
pub open spec fn b64_char(v: int) -> char {
    if v < 26 {
        (('A' as u32) + v) as char
    } else if v < 52 {
        (('a' as u32) + (v - 26)) as char
    } else if v < 62 {
        (('0' as u32) + (v - 52)) as char
    } else if v == 62 {
        '+'
    } else {
        '/'
    }
}

/// Standard base64 with `=` padding.
pub open spec fn base64(s: Seq<u8>) -> Seq<char>
    decreases s.len(),
{
    if s.len() == 0 {
        Seq::empty()
    } else {
        let a = s[0] as int;
        let b = if s.len() > 1 { s[1] as int } else { 0 };
        let c = if s.len() > 2 { s[2] as int } else { 0 };
        let quad = seq![
            b64_char(a / 4),
            b64_char((a % 4) * 16 + b / 16),
            if s.len() > 1 { b64_char((b % 16) * 4 + c / 64) } else { '=' },
            if s.len() > 2 { b64_char(c % 64) } else { '=' },
        ];
        if s.len() <= 3 {
            quad
        } else {
            quad + base64(s.subrange(3, s.len() as int))
        }
    }
}

/// Relies on `base64::engine::general_purpose::STANDARD.encode`: the standard
/// alphabet with `=` padding.
#[verifier::external_body]
fn encode_base64(data: &Vec<u8>) -> (r: String)
    ensures
        r@ == base64(data@),
{
    base64::engine::general_purpose::STANDARD.encode(data)
}

/// The JPEG encoding, at `quality`, of the image in the PNG `png`; none where
/// it does not decode.
pub uninterp spec fn jpeg_from_png(png: Seq<u8>, quality: u8) -> Option<Seq<u8>>;

/// Relies on `image::load_from_memory_with_format` (PNG) and on
/// `JpegEncoder::new_with_quality` with `write_with_encoder`: the PNG decoded
/// and encoded again as JPEG at `quality`; a decoding or encoding error
/// gives none.
#[verifier::external_body]
fn png_to_jpeg(png: &Vec<u8>, quality: u8) -> (r: Option<Vec<u8>>)
    ensures
        r matches Some(j) ==> jpeg_from_png(png@, quality) == Some(j@),
        r is None ==> jpeg_from_png(png@, quality) is None,
{
    let img = image::load_from_memory_with_format(png, image::ImageFormat::Png).ok()?;
    let mut out = std::io::Cursor::new(Vec::new());
    let encoder = image::codecs::jpeg::JpegEncoder::new_with_quality(&mut out, quality);
    img.write_with_encoder(encoder).ok()?;
    Some(out.into_inner())
}

/// The bytes and media type sent for a capture: JPEG where asked for and the
/// conversion succeeds, the PNG as captured otherwise.
pub open spec fn encoded(png: Seq<u8>, format: Seq<char>, quality: u8) -> (Seq<u8>, Seq<char>) {
    if format == "jpeg"@ && jpeg_from_png(png, quality) is Some {
        (jpeg_from_png(png, quality)->0, "image/jpeg"@)
    } else {
        (png, "image/png"@)
    }
}

/// The data URL of a capture.
pub open spec fn data_url(png: Seq<u8>, format: Seq<char>, quality: u8) -> Seq<char> {
    "data:"@ + encoded(png, format, quality).1 + ";base64,"@ + base64(encoded(png, format, quality).0)
}

/// Builds the data URL from the bytes and media type chosen for a capture.
pub fn data_url_of(bytes: &Vec<u8>, mime: &str) -> (r: String)
    ensures
        r@ == "data:"@ + mime@ + ";base64,"@ + base64(bytes@),
{
    let b = encode_base64(bytes);
    String::from_str("data:").concat(mime).concat(";base64,").concat(b.as_str())
}

/// Encodes a captured viewport for a client: converted to JPEG where
/// `format` is `jpeg` (falling back to PNG if that fails), as a base64 data
/// URL.
pub fn encode_capture(shot: Screenshot, format: &str, quality: u8) -> (r: String)
    ensures
        r@ == data_url(shot.data@, format@, quality),
{
    let jpeg = if crate::json::same_text(format, "jpeg") {
        png_to_jpeg(&shot.data, quality)
    } else {
        None
    };
    match jpeg {
        Some(j) => data_url_of(&j, "image/jpeg"),
        None => data_url_of(&shot.data, "image/png"),
    }
}

/// The outcome of a capture request: the data URL, or the error's message.
pub fn capture_outcome(shot: Result<Screenshot, ScreenshotError>, format: &str, quality: u8) -> (r: Result<String, String>)
    ensures
        match shot {
            Ok(s) => r matches Ok(u) && u@ == data_url(s.data@, format@, quality),
            Err(e) => r matches Err(m) && m@ == (match e {
                ScreenshotError::PlatformUnsupported => "Platform not supported"@,
                ScreenshotError::CaptureFailed(m) => "Webview capture failed: "@ + m@,
                ScreenshotError::EncodeFailed(m) => "Encoding failed: "@ + m@,
                ScreenshotError::Timeout => "Timeout exceeded"@,
            }),
        },
{
    match shot {
        Ok(s) => Ok(encode_capture(s, format, quality)),
        Err(e) => Err(e.message()),
    }
}

} // verus!
