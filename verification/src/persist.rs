//! Image persistence: turning one raw RGBA frame into the encoded bytes of
//! the configured on-disk format, together with the destination path they
//! belong under. Encoding happens fully in memory; writing the bytes out is
//! the caller's last, trivial step, so no partial file can ever appear
//! under the final name.

use vstd::prelude::*;

use crate::config::Config;
use crate::config::OutputFormat;
use crate::config::parse_format;
use crate::config::spec_parse_format;
use crate::error::ScreenshotError;
use crate::path::generate_filename;
use crate::path::join_path;
use crate::path::spec_composed;
use crate::path::spec_join;
use crate::path::spec_sanitize;
use crate::path::spec_under_dir;
use crate::path::template_ok;

verus! {

/// One unencoded screen grab: a tightly packed RGBA8 buffer with its
/// dimensions. Produced by one capture, consumed by one persistence call.
#[derive(Debug)]
pub struct RawFrame {
    pub width: u32,
    pub height: u32,
    pub pixels: Vec<u8>,
}

impl RawFrame {
    /// Well-formed: positive dimensions and exactly four bytes per pixel.
    pub open spec fn wf(&self) -> bool {
        self.width > 0 && self.height > 0 && self.pixels@.len() == self.width * self.height * 4
    }
}

/// The result of preparing one capture for disk: the destination path and
/// the complete encoded file contents.
#[derive(Debug)]
pub struct PreparedImage {
    pub path: String,
    pub bytes: Vec<u8>,
}

/// What the PNG encoder yields for an RGBA8 buffer of these dimensions.
pub uninterp spec fn png_encoding(width: int, height: int, pixels: Seq<u8>) -> Seq<u8>;

/// What the JPEG encoder yields for an RGB8 buffer of these dimensions at
/// the given quality.
pub uninterp spec fn jpeg_encoding(width: int, height: int, quality: int, pixels: Seq<u8>) -> Seq<
    u8,
>;

/// Relies on image's PngEncoder::write_image: encodes an RGBA8 buffer into
/// an in-memory PNG container, a pure function of the buffer and
/// dimensions. The encoder panics when the buffer length does not match
/// the dimensions, so such buffers are required away; with a matching
/// buffer, writing into memory fails only on a zero dimension.
#[verifier::external_body]
fn png_encode(width: u32, height: u32, pixels: &Vec<u8>) -> (r: Result<Vec<u8>, String>)
    requires
        pixels@.len() == width * height * 4,
    ensures
        r matches Ok(bytes) ==> bytes@ == png_encoding(width as int, height as int, pixels@),
        width > 0 && height > 0 ==> r is Ok,
{
    let mut out: Vec<u8> = Vec::new();
    let encoder = image::codecs::png::PngEncoder::new(&mut out);
    match image::ImageEncoder::write_image(encoder, pixels, width, height, image::ColorType::Rgba8)
    {
        Ok(()) => Ok(out),
        Err(e) => Err(format!("{}", e)),
    }
}

/// Relies on image's JpegEncoder::encode: encodes an RGB8 buffer at the
/// given quality into an in-memory JPEG, a pure function of buffer,
/// dimensions and quality. The encoder panics when the buffer length does
/// not match the dimensions, so such buffers are required away; with a
/// matching buffer, writing into memory fails only when a dimension
/// exceeds 65535, the most the format can hold.
#[verifier::external_body]
fn jpeg_encode(width: u32, height: u32, quality: u8, pixels: &Vec<u8>) -> (r: Result<
    Vec<u8>,
    String,
>)
    requires
        pixels@.len() == width * height * 3,
        1 <= quality <= 100,
    ensures
        r matches Ok(bytes) ==> bytes@ == jpeg_encoding(
            width as int,
            height as int,
            quality as int,
            pixels@,
        ),
        0 < width <= 65535 && 0 < height <= 65535 ==> r is Ok,
{
    let mut out: Vec<u8> = Vec::new();
    let mut encoder = image::codecs::jpeg::JpegEncoder::new_with_quality(&mut out, quality);
    match encoder.encode(pixels, width, height, image::ColorType::Rgb8) {
        Ok(()) => Ok(out),
        Err(e) => Err(format!("{}", e)),
    }
}

/// The RGB reduction of an RGBA buffer: of every four-byte pixel group the
/// first three bytes are kept and the alpha byte is dropped.
pub open spec fn spec_rgb_of(s: Seq<u8>) -> Seq<u8> {
    Seq::new((s.len() / 4 * 3) as nat, |i: int| s[i / 3 * 4 + i % 3])
}

/// Drops the alpha channel of a tightly packed RGBA buffer.
pub fn rgba_to_rgb(data: &Vec<u8>) -> (r: Vec<u8>)
    requires
        data@.len() % 4 == 0,
    ensures
        r@ == spec_rgb_of(data@),
{
    let len = data.len();
    let n = len / 4;
    let mut out: Vec<u8> = Vec::new();
    let mut p: usize = 0;
    while p < n
        invariant
            p <= n,
            n == data@.len() / 4,
            data@.len() % 4 == 0,
            data@.len() <= usize::MAX,
            out@.len() == p * 3,
            forall|i: int| 0 <= i < p * 3 ==> (#[trigger] out@[i]) == data@[i / 3 * 4 + i % 3],
        decreases n - p,
    {
        proof {
            assert(data@.len() / 4 * 4 == data@.len());
            assert(4 * (p as int) + 3 < data@.len());
        }
        out.push(data[4 * p]);
        out.push(data[4 * p + 1]);
        out.push(data[4 * p + 2]);
        proof {
            let pi = p as int;
            assert((3 * pi + 0) / 3 == pi && (3 * pi + 0) % 3 == 0 && (3 * pi + 1) / 3 == pi && (3
                * pi + 1) % 3 == 1 && (3 * pi + 2) / 3 == pi && (3 * pi + 2) % 3 == 2) by (nonlinear_arith)
                requires pi >= 0;
        }
        p += 1;
    }
    proof {
        assert(out@ =~= spec_rgb_of(data@));
    }
    out
}

proof fn lemma_pixel_count_bound(w: int, h: int)
    requires
        0 <= w < 0x1_0000_0000,
        0 <= h < 0x1_0000_0000,
    ensures
        w * h <= 0xffff_ffff * 0xffff_ffff,
        w * h * 4 <= 0xffff_ffff * 0xffff_ffff * 4,
{
    assert(w * h <= 0xffff_ffff * 0xffff_ffff) by (nonlinear_arith)
        requires
            0 <= w < 0x1_0000_0000,
            0 <= h < 0x1_0000_0000,
    ;
}

fn frame_len_matches(frame: &RawFrame) -> (r: bool)
    ensures
        r == (frame.pixels@.len() == frame.width * frame.height * 4),
{
    proof {
        lemma_pixel_count_bound(frame.width as int, frame.height as int);
    }
    let expected = (frame.width as u128) * (frame.height as u128) * 4;
    (frame.pixels.len() as u128) == expected
}

/// Encodes one frame in the named format. PNG keeps the RGBA bytes
/// losslessly and succeeds on every well-formed frame; JPEG first reduces
/// RGBA to RGB by dropping every alpha byte, the quality it is handed
/// reaches the encoder, and it succeeds whenever the format can hold the
/// dimensions; WebP is a deliberate stub that always refuses. A buffer
/// whose length does not match the dimensions is an encoding-parameter
/// error, never silently truncated or padded, and nothing is produced on
/// any failure.
pub fn encode_frame(frame: &RawFrame, format: OutputFormat, quality: u8) -> (r: Result<
    Vec<u8>,
    ScreenshotError,
>)
    requires
        1 <= quality <= 100,
    ensures
        r matches Err(e) ==> (e is PlatformNotSupported || e is ImageError),
        format is WebP ==> (r matches Err(e) && e matches ScreenshotError::PlatformNotSupported(m)
            && m@ == "WebP format not yet supported"@),
        !(format is WebP) && frame.pixels@.len() != frame.width * frame.height * 4 ==> (r matches
        Err(e) && e is ImageError),
        format is Png && frame.pixels@.len() == frame.width * frame.height * 4 ==> (match r {
            Ok(bytes) => bytes@ == png_encoding(frame.width as int, frame.height as int,
            frame.pixels@),
            Err(e) => e is ImageError,
        }),
        format is Jpeg && frame.pixels@.len() == frame.width * frame.height * 4 ==> (match r {
            Ok(bytes) => bytes@ == jpeg_encoding(
                frame.width as int,
                frame.height as int,
                quality as int,
                spec_rgb_of(frame.pixels@),
            ),
            Err(e) => e is ImageError,
        }),
        format is Png && frame.width > 0 && frame.height > 0 && frame.pixels@.len() == frame.width
            * frame.height * 4 ==> r is Ok,
        format is Jpeg && 0 < frame.width <= 65535 && 0 < frame.height <= 65535
            && frame.pixels@.len() == frame.width * frame.height * 4 ==> r is Ok,
{
    match format {
        OutputFormat::WebP => Err(
            ScreenshotError::PlatformNotSupported("WebP format not yet supported".to_owned()),
        ),
        OutputFormat::Png => {
            if !frame_len_matches(frame) {
                return Err(
                    ScreenshotError::ImageError(
                        "pixel buffer length does not match the image dimensions".to_owned(),
                    ),
                );
            }
            match png_encode(frame.width, frame.height, &frame.pixels) {
                Ok(bytes) => Ok(bytes),
                Err(m) => Err(ScreenshotError::ImageError(m)),
            }
        },
        OutputFormat::Jpeg => {
            if !frame_len_matches(frame) {
                return Err(
                    ScreenshotError::ImageError(
                        "pixel buffer length does not match the image dimensions".to_owned(),
                    ),
                );
            }
            let rgb = rgba_to_rgb(&frame.pixels);
            proof {
                let w = frame.width as int;
                let h = frame.height as int;
                assert(w * h * 4 / 4 == w * h && w * h * 4 % 4 == 0 && w * h * 3 == (w * h) * 3)
                    by (nonlinear_arith)
                    requires w >= 0 && h >= 0;
            }
            match jpeg_encode(frame.width, frame.height, quality, &rgb) {
                Ok(bytes) => Ok(bytes),
                Err(m) => Err(ScreenshotError::ImageError(m)),
            }
        },
    }
}

/// The filename stage cannot fail: a custom name is set (those never
/// fail), or the formatter accepts the template.
pub open spec fn spec_names_ok(config: &Config) -> bool {
    config.custom_filename is Some || template_ok(config.filename_template@)
}

/// The artifact's destination is the output directory extended by the
/// filename the configuration asks for: exactly the sanitized custom name
/// plus the extension when one is set, and otherwise the given prefix,
/// some rendered body, and the extension.
pub open spec fn spec_named_artifact(p: PreparedImage, config: &Config, prefix: Seq<char>) -> bool {
    exists|name: Seq<char>|
        {
            &&& p.path@ == #[trigger] spec_join(config.output_directory@, name)
            &&& (config.custom_filename matches Some(c) ==> name == spec_sanitize(c@) + "."@
                + config.default_format@)
            &&& (config.custom_filename is None ==> (exists|body: Seq<char>|
                name == spec_composed(prefix, body, config.default_format@)))
        }
}

/// Everything preparation decides once a frame is in hand. Each failure is
/// pinned to its cause: a rejected template is a configuration error
/// carrying it, an unrecognized format string is an invalid format, WebP
/// is refused as unsupported, a buffer/dimension mismatch is an
/// encoding-parameter error. On success the destination carries the asked
/// for name, the bytes are the named encoding of the frame, and success is
/// owed on a well-formed frame whose dimensions the format can hold.
pub open spec fn spec_prepared_outcome(
    r: Result<PreparedImage, ScreenshotError>,
    frame: RawFrame,
    config: &Config,
    prefix: Seq<char>,
) -> bool {
    &&& (r matches Err(e) ==> (e is InvalidFormat || e is ConfigError || e is PlatformNotSupported
        || e is ImageError))
    &&& (r matches Ok(p) ==> spec_under_dir(p.path@, config.output_directory@))
    &&& (r matches Ok(p) ==> {
        &&& spec_parse_format(config.default_format@) matches Some(f) && !(f is WebP)
        &&& frame.pixels@.len() == frame.width * frame.height * 4
        &&& spec_named_artifact(p, config, prefix)
        &&& (spec_parse_format(config.default_format@) == Some(OutputFormat::Png) ==> p.bytes@
            == png_encoding(frame.width as int, frame.height as int, frame.pixels@))
        &&& (spec_parse_format(config.default_format@) == Some(OutputFormat::Jpeg) ==> p.bytes@
            == jpeg_encoding(
            frame.width as int,
            frame.height as int,
            config.default_quality as int,
            spec_rgb_of(frame.pixels@),
        ))
    })
    &&& (config.custom_filename is None && !template_ok(config.filename_template@) ==> (r matches
    Err(e) && e matches ScreenshotError::ConfigError(m) && m@ == config.filename_template@))
    &&& (spec_names_ok(config) && spec_parse_format(config.default_format@) is None ==> (r matches
    Err(e) && e matches ScreenshotError::InvalidFormat(f) && f@ == config.default_format@))
    &&& (spec_names_ok(config) && spec_parse_format(config.default_format@) == Some(
        OutputFormat::WebP,
    ) ==> (r matches Err(e) && e matches ScreenshotError::PlatformNotSupported(m) && m@
        == "WebP format not yet supported"@))
    &&& (spec_names_ok(config) && (spec_parse_format(config.default_format@) == Some(
        OutputFormat::Png,
    ) || spec_parse_format(config.default_format@) == Some(OutputFormat::Jpeg))
        && frame.pixels@.len() != frame.width * frame.height * 4 ==> (r matches Err(e)
        && e is ImageError))
    &&& (spec_names_ok(config) && spec_parse_format(config.default_format@) == Some(
        OutputFormat::Png,
    ) && frame.width > 0 && frame.height > 0 && frame.pixels@.len() == frame.width * frame.height
        * 4 ==> r is Ok)
    &&& (spec_names_ok(config) && spec_parse_format(config.default_format@) == Some(
        OutputFormat::Jpeg,
    ) && 0 < frame.width <= 65535 && 0 < frame.height <= 65535 && frame.pixels@.len()
        == frame.width * frame.height * 4 ==> r is Ok)
}

/// Prepares one capture for persistence: builds the filename from the
/// configuration and prefix, joins it onto the output directory, and
/// encodes the frame in the configured format. Nothing is written here and
/// nothing is produced on failure; what is produced or refused, and why,
/// is `spec_prepared_outcome` in full.
pub fn prepare_image_file(frame: &RawFrame, config: &Config, prefix: &str) -> (r: Result<
    PreparedImage,
    ScreenshotError,
>)
    requires
        1 <= config.default_quality <= 100,
    ensures
        spec_prepared_outcome(r, *frame, config, prefix@),
{
    let filename = match generate_filename(config, prefix) {
        Ok(f) => f,
        Err(e) => { return Err(e) },
    };
    let path = join_path(config.output_directory.as_str(), filename.as_str());
    let format = match parse_format(config.default_format.as_str()) {
        Some(f) => f,
        None => { return Err(ScreenshotError::InvalidFormat(config.default_format.clone())) },
    };
    let bytes = match encode_frame(frame, format, config.default_quality) {
        Ok(b) => b,
        Err(e) => { return Err(e) },
    };
    Ok(PreparedImage { path, bytes })
}

} // verus!
