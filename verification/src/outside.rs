//! The calls this library makes into the `regex` and `image` crates and into
//! the parts of std that have no specification here. Each is trusted: its
//! contract is what the outside documentation and source show, and nothing
//! here proves it.
use vstd::prelude::*;
use image::ImageEncoder;

verus! {

/// `regex::Error`, the error of compiling a pattern.
#[verifier::external_type_specification]
#[verifier::external_body]
pub struct ExRegexError(regex::Error);

/// `image::ImageError`, the error of decoding or encoding an image.
#[verifier::external_type_specification]
#[verifier::external_body]
pub struct ExImageError(image::ImageError);

/// Whether `regex::Regex::new` compiles the pattern.
pub uninterp spec fn regex_compiles(pattern: Seq<char>) -> bool;

/// What `regex::Regex::captures` followed by `Captures::get(group)` gives on
/// `text`: `None` when the pattern does not match; `Some(None)` when it matches
/// but the group takes no part; `Some(Some(t))` when the group matched `t`.
pub uninterp spec fn regex_group(pattern: Seq<char>, text: Seq<char>, group: usize) -> Option<Option<Seq<char>>>;

/// The texts of the successive non-overlapping matches that
/// `regex::Regex::find_iter` yields on `text`.
pub uninterp spec fn regex_matches(pattern: Seq<char>, text: Seq<char>) -> Seq<Seq<char>>;

/// The text of each search result.
pub open spec fn found_view(found: Seq<Option<Option<String>>>) -> Seq<Option<Option<Seq<char>>>> {
    found.map_values(
        |f: Option<Option<String>>|
            match f {
                Some(Some(t)) => Some(Some(t@)),
                Some(None) => Some(None::<Seq<char>>),
                None => None::<Option<Seq<char>>>,
            },
    )
}

/// Compiles `pattern` with `regex::Regex::new` and, when that succeeds, runs
/// `Regex::captures` on each text and takes group `group` of each with
/// `Captures::get`. The contract claims only that the error comes exactly
/// when the pattern does not compile and that each result is the named
/// outcome of the search on its text.
#[verifier::external_body]
pub(crate) fn regex_captures_each(pattern: &str, texts: &Vec<String>, group: usize) -> (r: Result<Vec<Option<Option<String>>>, regex::Error>)
    ensures
        r is Ok <==> regex_compiles(pattern@),
        r matches Ok(found) ==> found_view(found@) == texts@.map_values(|t: String| regex_group(pattern@, t@, group)),
{
    let re = regex::Regex::new(pattern)?;
    Ok(texts.iter().map(|t| re.captures(t).map(|c| c.get(group).map(|m| m.as_str().to_string()))).collect())
}

/// Compiles `pattern` with `regex::Regex::new` and, when that succeeds,
/// collects the texts of the matches that `Regex::find_iter` yields on `text`.
/// The contract claims only that the error comes exactly when the pattern
/// does not compile and that the texts are the named outcome of the search.
#[verifier::external_body]
pub(crate) fn regex_find_all(pattern: &str, text: &str) -> (r: Result<Vec<String>, regex::Error>)
    ensures
        r is Ok <==> regex_compiles(pattern@),
        r matches Ok(v) ==> v@.map_values(|s: String| s@) == regex_matches(pattern@, text@),
{
    let re = regex::Regex::new(pattern)?;
    Ok(re.find_iter(text).map(|m| m.as_str().to_string()).collect())
}

/// What `str::to_lowercase` gives: the Unicode lower case of the text.
pub uninterp spec fn lowercase(s: Seq<char>) -> Seq<char>;

/// `str::to_lowercase`. The contract claims only that the result is the
/// named lower case of the argument.
#[verifier::external_body]
pub(crate) fn to_lowercase(s: &str) -> (r: String)
    ensures
        r@ == lowercase(s@),
{
    s.to_lowercase()
}

/// What `char::to_uppercase` yields for a character: its Unicode upper-case
/// mapping, one or more characters.
pub uninterp spec fn char_upper(c: char) -> Seq<char>;

/// `char::to_uppercase`, its characters collected into a string. The contract
/// claims only that the result is the named upper-case mapping of the
/// character.
#[verifier::external_body]
pub(crate) fn char_to_uppercase(c: char) -> (r: String)
    ensures
        r@ == char_upper(c),
{
    c.to_uppercase().collect()
}

/// The image that `image::load_from_memory_with_format` decodes from the bytes
/// read as PNG, as width, height and RGBA8 pixels (`DynamicImage::to_rgba8`);
/// none when decoding fails.
pub uninterp spec fn decoded_png(bytes: Seq<u8>) -> Option<(u32, u32, Seq<u8>)>;

/// Decodes a PNG image with `image::load_from_memory_with_format` and
/// `ImageFormat::Png`, and converts it with `DynamicImage::to_rgba8`. The
/// contract claims that the result is the named decoding of the bytes and that
/// the pixels are four bytes for each of the width times height pixels, as an
/// RGBA8 image buffer holds them.
#[verifier::external_body]
pub(crate) fn decode_png(bytes: &[u8]) -> (r: Result<(u32, u32, Vec<u8>), image::ImageError>)
    ensures
        r is Ok <==> decoded_png(bytes@) is Some,
        r matches Ok((w, h, p)) ==> decoded_png(bytes@) == Some((w, h, p@)) && p.len() == w * h * 4,
{
    let img = image::load_from_memory_with_format(bytes, image::ImageFormat::Png)?.to_rgba8();
    let (w, h) = img.dimensions();
    Ok((w, h, img.into_raw()))
}

/// Resizes RGBA8 pixels with `image::imageops::resize` and the Lanczos3
/// filter. The contract claims only that the result holds four bytes for each
/// of the `nw` by `nh` pixels: the filter computes with `f32::sin`, whose
/// precision the standard library leaves open, so which bytes come out is not
/// stated.
#[verifier::external_body]
pub(crate) fn resize_rgba(pixels: &Vec<u8>, w: u32, h: u32, nw: u32, nh: u32) -> (r: Vec<u8>)
    requires
        pixels.len() == w * h * 4,
        nw * nh * 4 <= usize::MAX,
    ensures
        r.len() == nw * nh * 4,
{
    let img = image::RgbaImage::from_raw(w, h, pixels.clone()).unwrap();
    image::imageops::resize(&img, nw, nh, image::imageops::FilterType::Lanczos3).into_raw()
}

/// The PNG file that `image::codecs::png::PngEncoder` writes for RGBA8 pixels
/// of `w` by `h`; none when encoding fails.
pub uninterp spec fn png_encoded(pixels: Seq<u8>, w: u32, h: u32) -> Option<Seq<u8>>;

/// Encodes RGBA8 pixels as PNG with `PngEncoder::write_image` into memory. The
/// contract claims only that the result is the named encoding.
#[verifier::external_body]
pub(crate) fn encode_png(pixels: &Vec<u8>, w: u32, h: u32) -> (r: Result<Vec<u8>, image::ImageError>)
    requires
        pixels.len() == w * h * 4,
    ensures
        r is Ok <==> png_encoded(pixels@, w, h) is Some,
        r matches Ok(b) ==> png_encoded(pixels@, w, h) == Some(b@),
{
    let mut out: Vec<u8> = Vec::new();
    image::codecs::png::PngEncoder::new(&mut out).write_image(pixels, w, h, image::ExtendedColorType::Rgba8)?;
    Ok(out)
}

/// The ICO file that `image::codecs::ico::IcoEncoder` writes for RGBA8 pixels
/// of `w` by `h`; none when encoding fails.
pub uninterp spec fn ico_encoded(pixels: Seq<u8>, w: u32, h: u32) -> Option<Seq<u8>>;

/// Encodes RGBA8 pixels as ICO with `IcoEncoder::write_image` into memory. The
/// contract claims only that the result is the named encoding.
#[verifier::external_body]
pub(crate) fn encode_ico(pixels: &Vec<u8>, w: u32, h: u32) -> (r: Result<Vec<u8>, image::ImageError>)
    requires
        pixels.len() == w * h * 4,
    ensures
        r is Ok <==> ico_encoded(pixels@, w, h) is Some,
        r matches Ok(b) ==> ico_encoded(pixels@, w, h) == Some(b@),
{
    let mut out: Vec<u8> = Vec::new();
    image::codecs::ico::IcoEncoder::new(&mut out).write_image(pixels, w, h, image::ExtendedColorType::Rgba8)?;
    Ok(out)
}

} // verus!
