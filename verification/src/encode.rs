//! Captured images as text: base64 without padding.

use base64::engine::general_purpose::STANDARD_NO_PAD;
use base64::Engine;
use crate::capture::spec_captured;
use vstd::prelude::*;

verus! {

/// The base64 text of `data` in the standard alphabet, without padding.
pub uninterp spec fn spec_base64_no_pad(data: Seq<u8>) -> Seq<char>;

/// The length of the base64 text of `n` bytes without padding: four
/// characters for every three bytes, and two or three for what is left.
pub open spec fn spec_base64_len(n: nat) -> nat {
    4 * (n / 3) + if n % 3 == 0 {
        0nat
    } else if n % 3 == 1 {
        2nat
    } else {
        3nat
    }
}

/// Whether `c` belongs to the standard base64 alphabet.
pub open spec fn spec_is_base64_char(c: char) -> bool {
    ||| 'A' <= c && c <= 'Z'
    ||| 'a' <= c && c <= 'z'
    ||| '0' <= c && c <= '9'
    ||| c == '+'
    ||| c == '/'
}

/// Whether `text` is made of characters of the standard base64 alphabet alone.
pub open spec fn spec_is_base64_text(text: Seq<char>) -> bool {
    forall|i: int| 0 <= i < text.len() ==> spec_is_base64_char(#[trigger] text[i])
}

/// Encodes `data` as base64.
///
/// Calls `base64::Engine::encode` on `general_purpose::STANDARD_NO_PAD`.
/// Trusted: the text is a function of the bytes alone; it has the length
/// that the crate computes for unpadded output, and every character of it
/// comes from the standard alphabet. The encoder gives up only where four
/// thirds of the input's length overflow `usize`, which no slice in memory
/// reaches.
#[verifier::external_body]
fn base64_no_pad(data: &[u8]) -> (text: String)
    ensures
        text@ == spec_base64_no_pad(data@),
        text@.len() == spec_base64_len(data@.len()),
        spec_is_base64_text(text@),
{
    STANDARD_NO_PAD.encode(data)
}

/// Encodes one captured image as base64 text, in the standard alphabet and
/// without padding.
pub fn encode_image(data: &[u8]) -> (text: String)
    ensures
        text@ == spec_base64_no_pad(data@),
        text@.len() == spec_base64_len(data@.len()),
        spec_is_base64_text(text@),
{
    base64_no_pad(data)
}

/// The texts of the captures that succeeded, in the order of their screens.
pub open spec fn spec_encode_captured(shots: Seq<Option<Vec<u8>>>) -> Seq<Seq<char>>
    decreases shots.len(),
{
    if shots.len() == 0 {
        Seq::empty()
    } else {
        match shots.last() {
            Some(image) => spec_encode_captured(shots.drop_last()).push(
                spec_base64_no_pad(image@),
            ),
            None => spec_encode_captured(shots.drop_last()),
        }
    }
}

/// Encodes every capture that succeeded.
///
/// `shots` holds, for each screen in order, its image or `None` where the
/// capture failed. The result holds the base64 text of each image, in the
/// same order; failed captures are passed over. There are as many texts as
/// captures that succeeded, and each text has the length that base64 without
/// padding gives to its image.
pub fn encode_captured(shots: &Vec<Option<Vec<u8>>>) -> (texts: Vec<String>)
    ensures
        texts.deep_view() == spec_encode_captured(shots@),
        texts@.len() == spec_captured(shots@).len(),
        forall|k: int|
            0 <= k < texts@.len() ==> {
                &&& (#[trigger] texts@[k])@ == spec_base64_no_pad(spec_captured(shots@)[k]@)
                &&& texts@[k]@.len() == spec_base64_len(spec_captured(shots@)[k]@.len())
                &&& spec_is_base64_text(texts@[k]@)
            },
{
    let mut texts: Vec<String> = Vec::new();
    let mut i: usize = 0;
    assert(texts.deep_view() =~= Seq::<Seq<char>>::empty());
    while i < shots.len()
        invariant
            i <= shots.len(),
            texts.deep_view() == spec_encode_captured(shots@.take(i as int)),
            texts@.len() == spec_captured(shots@.take(i as int)).len(),
            forall|k: int|
                0 <= k < texts@.len() ==> {
                    &&& (#[trigger] texts@[k])@ == spec_base64_no_pad(
                        spec_captured(shots@.take(i as int))[k]@,
                    )
                    &&& texts@[k]@.len() == spec_base64_len(
                        spec_captured(shots@.take(i as int))[k]@.len(),
                    )
                    &&& spec_is_base64_text(texts@[k]@)
                },
        decreases shots.len() - i,
    {
        proof {
            let upto = shots@.take(i + 1);
            assert(upto.drop_last() == shots@.take(i as int));
            assert(upto.last() == shots@[i as int]);
        }
        match &shots[i] {
            Some(image) => {
                let ghost before = texts.deep_view();
                let text = base64_no_pad(image.as_slice());
                texts.push(text);
                assert(texts.deep_view() =~= before.push(text@));
            },
            None => {},
        }
        i += 1;
    }
    proof {
        assert(shots@.take(shots@.len() as int) == shots@);
    }
    texts
}

} // verus!
