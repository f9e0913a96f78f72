//! Decoding a downloaded image into raw pixels.

use vstd::prelude::*;
use vstd::string::*;

verus! {

/// The words that stand before the text of a decoder's error.
pub open spec fn spec_decode_label() -> Seq<char> {
    "decode error: "@
}

/// Decodes an image, whatever its format, into RGBA pixels.
///
/// Calls `image::load_from_memory`, then `to_rgba8`, `dimensions` and
/// `into_vec` on the image, or turns the decoder's error into text.
///
/// The decoder consults the formats and decoders that were registered with
/// it in this process, so the same bytes need not give the same outcome
/// twice, and nothing is claimed of which outcome comes. Trusted is only what
/// holds of every image the crate hands out: its buffer has room for four
/// bytes for each of its `width * height` pixels. The decoder gives up, and
/// does not return, if its registry was poisoned by a panic elsewhere.
#[verifier::external_body]
fn decode_rgba(data: &[u8]) -> (decoded: Result<(u32, u32, Vec<u8>), String>)
    ensures
        decoded matches Ok((width, height, rgba)) ==> 4 * width * height <= rgba@.len(),
{
    match image::load_from_memory(data) {
        Ok(picture) => {
            let rgba = picture.to_rgba8();
            let (width, height) = rgba.dimensions();
            Ok((width, height, rgba.into_vec()))
        },
        Err(e) => Err(e.to_string()),
    }
}

/// Labels the outcome of the decoder: pixels pass as they are, the text of
/// an error is put behind the words `decode error: `.
pub fn label_decoded(decoded: Result<(u32, u32, Vec<u8>), String>) -> (labelled: Result<
    (u32, u32, Vec<u8>),
    String,
>)
    ensures
        match (decoded, labelled) {
            (Ok(before), Ok(after)) => after == before,
            (Err(before), Err(after)) => after@ == spec_decode_label() + before@,
            _ => false,
        },
        labelled matches Err(after) ==> spec_decode_label().is_prefix_of(after@),
{
    match decoded {
        Ok(picture) => Ok(picture),
        Err(e) => {
            let mut text = String::from_str("decode error: ");
            text.append(e.as_str());
            assert(text@.subrange(0, spec_decode_label().len() as int) =~= spec_decode_label());
            Err(text)
        },
    }
}

/// Turns the bytes of an image file into its width, its height and its
/// pixels, four bytes (red, green, blue, alpha) for each.
///
/// Which bytes are an image is for the decoder to say. Whatever it says,
/// pixels come with room for every pixel of the stated size, and an error
/// comes as the decoder's text behind the words `decode error: `.
pub fn rgba_from_bytes(data: &[u8]) -> (pixels: Result<(u32, u32, Vec<u8>), String>)
    ensures
        pixels matches Ok((width, height, rgba)) ==> 4 * width * height <= rgba@.len(),
        pixels matches Err(e) ==> spec_decode_label().is_prefix_of(e@),
{
    label_decoded(decode_rgba(data))
}

} // verus!
