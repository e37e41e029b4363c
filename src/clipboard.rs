use vstd::prelude::*;
use vstd::string::*;
use base64::Engine;
use image::ImageEncoder;
use crate::error::{join_message, AppError};
use crate::text::{is_blank, trim};

verus! {

/// An RGBA image buffer of the `image` crate, kept opaque.
#[verifier::external_body]
pub struct RgbaBuffer {
    inner: image::RgbaImage,
}

/// The raw samples that an RGBA image buffer holds, four bytes per pixel.
pub uninterp spec fn rgba_samples(img: RgbaBuffer) -> Seq<u8>;

/// The PNG file that encoding `samples` as an 8-bit RGBA image of the given
/// dimensions produces.
pub uninterp spec fn png_of(width: u32, height: u32, samples: Seq<u8>) -> Seq<u8>;

/// The 64 digits of standard base64, in order of value.
pub const BASE64_DIGITS: &'static str =
    "ABCDEFGHIJKLMNOPQRSTUVWXYZabcdefghijklmnopqrstuvwxyz0123456789+/";

/// The digit of a six-bit value.
pub open spec fn digit(v: int) -> char {
    BASE64_DIGITS@[v]
}

/// The standard, padded base64 text of `bytes`: each group of three bytes
/// gives four digits of six bits each; a last group of one or two bytes is
/// filled with zero bits and `=`.
pub open spec fn base64_of(bytes: Seq<u8>) -> Seq<char>
    decreases bytes.len(),
{
    if bytes.len() == 0 {
        Seq::empty()
    } else {
        let b0 = bytes[0] as int;
        let b1 = if bytes.len() > 1 { bytes[1] as int } else { 0 };
        let b2 = if bytes.len() > 2 { bytes[2] as int } else { 0 };
        let c0 = digit(b0 / 4);
        let c1 = digit(b0 % 4 * 16 + b1 / 16);
        let c2 = digit(b1 % 16 * 4 + b2 / 64);
        let c3 = digit(b2 % 64);
        if bytes.len() == 1 {
            seq![c0, c1, '=', '=']
        } else if bytes.len() == 2 {
            seq![c0, c1, c2, '=']
        } else {
            seq![c0, c1, c2, c3] + base64_of(bytes.subrange(3, bytes.len() as int))
        }
    }
}

/// A character that base64 text may hold: a digit or the padding `=`.
pub open spec fn is_base64_char(c: char) -> bool {
    c == '=' || exists|v: int| 0 <= v < 64 && #[trigger] digit(v) == c
}

/// Base64 text has four characters for each started group of three bytes,
/// and holds digits and padding only.
pub proof fn base64_is_well_formed(bytes: Seq<u8>)
    ensures
        base64_of(bytes).len() == 4 * ((bytes.len() + 2) / 3),
        forall|i: int| 0 <= i < base64_of(bytes).len() ==> is_base64_char(#[trigger] base64_of(bytes)[i]),
    decreases bytes.len(),
{
    if bytes.len() > 0 {
        let b0 = bytes[0] as int;
        let b1 = if bytes.len() > 1 { bytes[1] as int } else { 0 };
        let b2 = if bytes.len() > 2 { bytes[2] as int } else { 0 };
        let vs = seq![b0 / 4, b0 % 4 * 16 + b1 / 16, b1 % 16 * 4 + b2 / 64, b2 % 64];
        assert(forall|k: int| 0 <= k < 4 ==> 0 <= #[trigger] vs[k] < 64);
        assert(forall|k: int| 0 <= k < 4 ==> is_base64_char(#[trigger] digit(vs[k])));
        if bytes.len() > 2 {
            let rest = bytes.subrange(3, bytes.len() as int);
            base64_is_well_formed(rest);
            let e = base64_of(bytes);
            assert forall|i: int| 0 <= i < e.len() implies is_base64_char(#[trigger] e[i]) by {
                if i >= 4 {
                    assert(e[i] == base64_of(rest)[i - 4]);
                } else {
                    assert(e[i] == digit(vs[i]));
                }
            }
        } else {
            let e = base64_of(bytes);
            assert forall|i: int| 0 <= i < e.len() implies is_base64_char(#[trigger] e[i]) by {
                if i < 4 && e[i] != '=' {
                    assert(e[i] == digit(vs[i]));
                }
            }
        }
    }
}

/// Relies on `image::ImageBuffer::from_raw`: it accepts the bytes exactly when
/// they hold at least four per pixel, and keeps them all as the buffer.
#[verifier::external_body]
fn rgba_from_raw(width: u32, height: u32, bytes: Vec<u8>) -> (r: Option<RgbaBuffer>)
    ensures
        r is Some <==> 4 * width * height <= bytes@.len(),
        r is Some ==> rgba_samples(r->Some_0) == bytes@,
{
    image::RgbaImage::from_raw(width, height, bytes).map(|inner| RgbaBuffer { inner })
}

/// The four big-endian bytes of `v`.
pub open spec fn be_bytes(v: u32) -> Seq<u8> {
    seq![
        (v / 0x100_0000) as u8,
        (v / 0x1_0000 % 0x100) as u8,
        (v / 0x100 % 0x100) as u8,
        (v % 0x100) as u8,
    ]
}

/// The first bytes of a PNG file of the given dimensions: the signature, then
/// the length and type of the header chunk, then width and height.
pub open spec fn png_head(width: u32, height: u32) -> Seq<u8> {
    seq![137u8, 80, 78, 71, 13, 10, 26, 10, 0, 0, 0, 13, 73, 72, 68, 82] + be_bytes(width)
        + be_bytes(height)
}

/// `bytes` opens with `head`.
pub open spec fn starts_with_bytes(bytes: Seq<u8>, head: Seq<u8>) -> bool {
    head.len() <= bytes.len() && bytes.subrange(0, head.len() as int) == head
}

/// Relies on `image::codecs::png::PngEncoder::write_image` with 8-bit RGBA
/// samples, which panics unless there are exactly four bytes per pixel. Into
/// a `Vec` it fails only on a zero width or height (png's `Writer::init`), and
/// it writes the signature and the header chunk first (`encode_header`).
#[verifier::external_body]
fn encode_png(img: &RgbaBuffer, width: u32, height: u32) -> (r: Result<Vec<u8>, String>)
    requires
        rgba_samples(*img).len() == 4 * width * height,
    ensures
        r is Ok == (width > 0 && height > 0),
        r is Ok ==> r->Ok_0@ == png_of(width, height, rgba_samples(*img)),
        r is Ok ==> starts_with_bytes(r->Ok_0@, png_head(width, height)),
{
    let mut out: Vec<u8> = Vec::new();
    let encoder = image::codecs::png::PngEncoder::new(&mut out);
    encoder.write_image(&img.inner, width, height, image::ExtendedColorType::Rgba8).map_err(
        |e| e.to_string(),
    )?;
    Ok(out)
}

/// Relies on `base64::engine::general_purpose::STANDARD.encode`, which panics
/// only where the encoded length overflows `usize`.
#[verifier::external_body]
fn base64_encode(bytes: &[u8]) -> (r: String)
    requires
        bytes@.len() <= usize::MAX / 2,
    ensures
        r@ == base64_of(bytes@),
{
    base64::engine::general_purpose::STANDARD.encode(bytes)
}

/// What the clipboard held, ready to be sent.
#[derive(Debug)]
pub enum ClipboardContent {
    /// Text, exactly as found.
    Text(String),
    /// An image, as the base64 text of a PNG file.
    Image { base64_png: String },
}

/// Raw clipboard image data: rows top to bottom, four bytes per pixel.
pub struct RawImage {
    pub width: usize,
    pub height: usize,
    pub bytes: Vec<u8>,
}

/// The outcome of one clipboard lookup, keeping "no such content" apart from
/// other failures.
pub enum ClipboardRead<T> {
    Data(T),
    NotAvailable,
    Failed(String),
}

/// What to do after the image lookup: stop with an outcome, or look for text.
pub enum ClipboardStep {
    Done(Result<ClipboardContent, AppError>),
    ReadText,
}

/// The dimensions fit the encoder and the bytes hold exactly four per pixel.
pub open spec fn image_fits(width: usize, height: usize, len: nat) -> bool {
    width <= u32::MAX && height <= u32::MAX && 4 * width * height == len
}

/// What holds of the outcome of encoding a clipboard image, whatever the PNG
/// encoder decides.
pub open spec fn image_outcome(
    width: usize,
    height: usize,
    bytes: Seq<u8>,
    r: Result<ClipboardContent, AppError>,
) -> bool {
    &&& !image_fits(width, height, bytes.len()) ==> r is Err
    &&& r is Err ==> r->Err_0 is Image
    &&& r is Ok ==> r->Ok_0 is Image && r->Ok_0->base64_png@ == base64_of(
        png_of(width as u32, height as u32, bytes),
    ) && starts_with_bytes(
        png_of(width as u32, height as u32, bytes),
        png_head(width as u32, height as u32),
    )
    &&& image_fits(width, height, bytes.len()) && width > 0 && height > 0 && png_of(
        width as u32,
        height as u32,
        bytes,
    ).len() <= usize::MAX / 2 ==> r is Ok
}

proof fn digits_distinct()
    ensures
        forall|v: int, w: int|
            0 <= v < 64 && 0 <= w < 64 && #[trigger] digit(v) == #[trigger] digit(w) ==> v == w,
        forall|v: int| 0 <= v < 64 ==> #[trigger] digit(v) != '=',
{
    reveal_strlit("ABCDEFGHIJKLMNOPQRSTUVWXYZabcdefghijklmnopqrstuvwxyz0123456789+/");
}

/// The six-bit value of a base64 digit.
pub open spec fn digit_value(c: char) -> int {
    choose|v: int| 0 <= v < 64 && digit(v) == c
}

/// The bytes that standard, padded base64 text stands for.
pub open spec fn base64_decode(text: Seq<char>) -> Seq<u8>
    decreases text.len(),
{
    if text.len() < 4 {
        Seq::empty()
    } else {
        let v0 = digit_value(text[0]);
        let v1 = digit_value(text[1]);
        let v2 = digit_value(text[2]);
        let v3 = digit_value(text[3]);
        let x0 = (v0 * 4 + v1 / 16) as u8;
        let x1 = (v1 % 16 * 16 + v2 / 4) as u8;
        let x2 = (v2 % 4 * 64 + v3) as u8;
        if text[2] == '=' {
            seq![x0]
        } else if text[3] == '=' {
            seq![x0, x1]
        } else {
            seq![x0, x1, x2] + base64_decode(text.subrange(4, text.len() as int))
        }
    }
}

/// Decoding base64 text gives back the bytes that were encoded.
pub proof fn base64_round_trip(bytes: Seq<u8>)
    ensures
        base64_decode(base64_of(bytes)) == bytes,
    decreases bytes.len(),
{
    digits_distinct();
    if bytes.len() > 0 {
        let b0 = bytes[0] as int;
        let b1 = if bytes.len() > 1 { bytes[1] as int } else { 0 };
        let b2 = if bytes.len() > 2 { bytes[2] as int } else { 0 };
        let v0 = b0 / 4;
        let v1 = b0 % 4 * 16 + b1 / 16;
        let v2 = b1 % 16 * 4 + b2 / 64;
        let v3 = b2 % 64;
        assert(0 <= v0 < 64 && 0 <= v1 < 64 && 0 <= v2 < 64 && 0 <= v3 < 64);
        assert(digit_value(digit(v0)) == v0);
        assert(digit_value(digit(v1)) == v1);
        assert(digit_value(digit(v2)) == v2);
        assert(digit_value(digit(v3)) == v3);
        assert(v0 * 4 + v1 / 16 == b0);
        assert(v1 % 16 * 16 + v2 / 4 == b1);
        assert(v2 % 4 * 64 + v3 == b2);
        let e = base64_of(bytes);
        if bytes.len() > 2 {
            let rest = bytes.subrange(3, bytes.len() as int);
            base64_round_trip(rest);
            assert(e.subrange(4, e.len() as int) =~= base64_of(rest));
            assert(bytes =~= seq![bytes[0], bytes[1], bytes[2]] + rest);
        } else if bytes.len() == 2 {
            assert(bytes =~= seq![bytes[0], bytes[1]]);
        } else {
            assert(bytes =~= seq![bytes[0]]);
        }
    }
}

/// The number that four big-endian bytes stand for.
pub open spec fn be_value(b: Seq<u8>) -> int {
    b[0] as int * 0x100_0000 + b[1] as int * 0x1_0000 + b[2] as int * 0x100 + b[3] as int
}

/// Reading back the header of a PNG file gives the dimensions it was made with.
pub proof fn png_head_gives_dimensions(width: u32, height: u32)
    ensures
        png_head(width, height).len() == 24,
        be_value(png_head(width, height).subrange(16, 20)) == width,
        be_value(png_head(width, height).subrange(20, 24)) == height,
{
    be_bytes_round_trip(width);
    be_bytes_round_trip(height);
    assert(png_head(width, height).subrange(16, 20) =~= be_bytes(width));
    assert(png_head(width, height).subrange(20, 24) =~= be_bytes(height));
}

proof fn be_bytes_round_trip(v: u32)
    ensures
        be_value(be_bytes(v)) == v,
{
    let x = v as int;
    assert(x / 0x100_0000 < 0x100) by (nonlinear_arith)
        requires
            0 <= x <= 0xFFFF_FFFF,
    ;
    assert(x == x / 0x100_0000 * 0x100_0000 + x / 0x1_0000 % 0x100 * 0x1_0000 + x / 0x100 % 0x100
        * 0x100 + x % 0x100) by (nonlinear_arith)
        requires
            0 <= x,
    ;
}

/// A clipboard image whose dimensions fit, that is not empty, and whose PNG
/// file is not absurdly large, is encoded: the result is well-formed base64
/// text that decodes to a PNG file whose header carries the image's width and
/// height.
pub proof fn fitting_image_is_base64_png(
    width: usize,
    height: usize,
    bytes: Seq<u8>,
    r: Result<ClipboardContent, AppError>,
)
    requires
        image_outcome(width, height, bytes, r),
        image_fits(width, height, bytes.len()),
        width > 0,
        height > 0,
        png_of(width as u32, height as u32, bytes).len() <= usize::MAX / 2,
    ensures
        r is Ok,
        r->Ok_0 is Image,
        r->Ok_0->base64_png@.len() % 4 == 0,
        forall|i: int|
            0 <= i < r->Ok_0->base64_png@.len() ==> is_base64_char(
                #[trigger] r->Ok_0->base64_png@[i],
            ),
        base64_decode(r->Ok_0->base64_png@) == png_of(width as u32, height as u32, bytes),
        starts_with_bytes(
            base64_decode(r->Ok_0->base64_png@),
            png_head(width as u32, height as u32),
        ),
        be_value(base64_decode(r->Ok_0->base64_png@).subrange(16, 20)) == width,
        be_value(base64_decode(r->Ok_0->base64_png@).subrange(20, 24)) == height,
{
    let png = png_of(width as u32, height as u32, bytes);
    base64_is_well_formed(png);
    base64_round_trip(png);
    png_head_gives_dimensions(width as u32, height as u32);
    let head = png_head(width as u32, height as u32);
    assert(png.subrange(16, 20) =~= head.subrange(16, 20));
    assert(png.subrange(20, 24) =~= head.subrange(20, 24));
    assert(be_value(png.subrange(16, 20)) == width);
}

/// Turns the result of PNG encoding into clipboard content.
pub fn content_from_png(png: Result<Vec<u8>, String>) -> (r: Result<ClipboardContent, AppError>)
    ensures
        match png {
            Ok(p) => if p@.len() <= usize::MAX / 2 {
                r matches Ok(ClipboardContent::Image { base64_png }) && base64_png@ == base64_of(
                    p@,
                )
            } else {
                r matches Err(AppError::Image(_))
            },
            Err(d) => r matches Err(AppError::Image(m)) && m@ == "Failed to encode image to PNG: "@
                + d@,
        },
{
    match png {
        Ok(p) => {
            if p.len() > usize::MAX / 2 {
                return Err(AppError::Image(String::from_str("Encoded PNG data is too large.")));
            }
            Ok(ClipboardContent::Image { base64_png: base64_encode(p.as_slice()) })
        },
        Err(d) => Err(
            AppError::Image(join_message("Failed to encode image to PNG: ", d.as_str())),
        ),
    }
}

/// Re-encodes raw RGBA clipboard data as a base64 PNG.
pub fn encode_image(image: RawImage) -> (r: Result<ClipboardContent, AppError>)
    ensures
        image_outcome(image.width, image.height, image.bytes@, r),
{
    let RawImage { width, height, bytes } = image;
    let ghost raw = bytes@;
    if width > u32::MAX as usize || height > u32::MAX as usize {
        return Err(
            AppError::Image(
                String::from_str("Clipboard image dimensions exceed the supported range."),
            ),
        );
    }
    let w = width as u32;
    let h = height as u32;
    let len = bytes.len();
    let buffer = match rgba_from_raw(w, h, bytes) {
        Some(b) => b,
        None => {
            return Err(
                AppError::Image(
                    String::from_str(
                        "Failed to create image buffer from clipboard data (check format/dimensions)",
                    ),
                ),
            );
        },
    };
    proof {
        assert((w as u128) * (h as u128) <= (u32::MAX as u128) * (u32::MAX as u128))
            by (nonlinear_arith)
            requires
                w <= u32::MAX,
                h <= u32::MAX,
        ;
    }
    let pixels: u128 = (w as u128) * (h as u128);
    proof {
        assert(4 * (w as int) * (h as int) == 4 * ((w as int) * (h as int))) by (nonlinear_arith);
        assert(4 * width * height == 4 * pixels);
    }
    if 4 * pixels != len as u128 {
        return Err(
            AppError::Image(
                String::from_str("Clipboard image data is larger than its dimensions."),
            ),
        );
    }
    content_from_png(encode_png(&buffer, w, h))
}

/// Accepts clipboard text unless it is blank; the text is kept untrimmed.
pub fn content_from_text(text: String) -> (r: Result<ClipboardContent, AppError>)
    ensures
        is_blank(text@) ==> r is Err && r->Err_0 is Clipboard,
        !is_blank(text@) ==> r is Ok && r->Ok_0 is Text && r->Ok_0->Text_0@ == text@,
{
    let t = trim(text.as_str());
    if t.as_str().unicode_len() == 0 {
        Err(AppError::Clipboard(String::from_str("Clipboard text is empty.")))
    } else {
        Ok(ClipboardContent::Text(text))
    }
}

/// Decides the content from the outcome of the text lookup, the last one.
pub fn content_from_text_read(read: ClipboardRead<String>) -> (r: Result<
    ClipboardContent,
    AppError,
>)
    ensures
        match read {
            ClipboardRead::Data(t) => (is_blank(t@) ==> r is Err && r->Err_0 is Clipboard) && (
            !is_blank(t@) ==> r is Ok && r->Ok_0 is Text && r->Ok_0->Text_0@ == t@),
            ClipboardRead::NotAvailable => r is Err && r->Err_0 is Clipboard,
            ClipboardRead::Failed(d) => r is Err && r->Err_0 is Clipboard
                && r->Err_0->Clipboard_0@ == "Failed to get text from clipboard: "@ + d@,
        },
{
    match read {
        ClipboardRead::Data(t) => content_from_text(t),
        ClipboardRead::NotAvailable => Err(
            AppError::Clipboard(
                String::from_str("Clipboard is empty or contains unsupported data."),
            ),
        ),
        ClipboardRead::Failed(d) => Err(
            AppError::Clipboard(join_message("Failed to get text from clipboard: ", d.as_str())),
        ),
    }
}

/// Decides from the outcome of the image lookup, made first: an image is
/// encoded, a missing image sends the search on to text, any other failure
/// ends it.
pub fn step_after_image_read(read: ClipboardRead<RawImage>) -> (r: ClipboardStep)
    ensures
        match read {
            ClipboardRead::Data(img) => r is Done && image_outcome(
                img.width,
                img.height,
                img.bytes@,
                r->Done_0,
            ),
            ClipboardRead::NotAvailable => r is ReadText,
            ClipboardRead::Failed(d) => r is Done && r->Done_0 is Err && r->Done_0->Err_0 is Clipboard
                && r->Done_0->Err_0->Clipboard_0@ == "Failed to get image from clipboard: "@ + d@,
        },
{
    match read {
        ClipboardRead::Data(img) => ClipboardStep::Done(encode_image(img)),
        ClipboardRead::NotAvailable => ClipboardStep::ReadText,
        ClipboardRead::Failed(d) => ClipboardStep::Done(
            Err(
                AppError::Clipboard(
                    join_message("Failed to get image from clipboard: ", d.as_str()),
                ),
            ),
        ),
    }
}

} // verus!
