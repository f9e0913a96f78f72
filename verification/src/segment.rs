//! Word segmentation of text with a jieba dictionary.

use jieba_rs::Jieba;
use vstd::prelude::*;

verus! {

/// A jieba segmenter with its dictionary. Opaque: it is only handed on.
#[verifier::external_type_specification]
#[verifier::external_body]
pub struct ExJieba(Jieba);

/// The words into which `jieba` cuts `sentence`, with or without its hidden
/// Markov model for words that the dictionary lacks.
pub uninterp spec fn spec_cut(jieba: &Jieba, sentence: Seq<char>, hmm: bool) -> Seq<Seq<char>>;

/// Cuts `sentence` into words.
///
/// Calls `jieba_rs::Jieba::cut` and copies each word into a `String`.
/// Trusted: the words are a function of the segmenter, the sentence and the
/// flag alone.
#[verifier::external_body]
fn cut_words(jieba: &Jieba, sentence: &str, hmm: bool) -> (words: Vec<String>)
    ensures
        words.deep_view() == spec_cut(jieba, sentence@, hmm),
{
    jieba.cut(sentence, hmm).into_iter().map(|word| word.to_string()).collect()
}

/// Cuts `text` into words. `exact` switches on the hidden Markov model for
/// words that the dictionary lacks.
pub fn segment_text(jieba: &Jieba, text: String, exact: bool) -> (words: Vec<String>)
    ensures
        words.deep_view() == spec_cut(jieba, text@, exact),
{
    cut_words(jieba, text.as_str(), exact)
}

/// Cuts each of several texts into words.
///
/// `inputs` holds pairs of an identifier and a text. The result holds, for
/// each pair in order, the identifier and the words of the text.
pub fn batch_segment_text(jieba: &Jieba, inputs: Vec<(String, String)>, exact: bool) -> (outputs:
    Vec<(String, Vec<String>)>)
    ensures
        outputs@.len() == inputs@.len(),
        forall|i: int|
            0 <= i < inputs@.len() ==> (#[trigger] outputs@[i]).0@ == inputs@[i].0@
                && outputs@[i].1.deep_view() == spec_cut(jieba, inputs@[i].1@, exact),
{
    let mut outputs: Vec<(String, Vec<String>)> = Vec::new();
    let mut i: usize = 0;
    while i < inputs.len()
        invariant
            i <= inputs.len(),
            outputs@.len() == i,
            forall|k: int|
                0 <= k < i ==> (#[trigger] outputs@[k]).0@ == inputs@[k].0@
                    && outputs@[k].1.deep_view() == spec_cut(jieba, inputs@[k].1@, exact),
        decreases inputs.len() - i,
    {
        let id = inputs[i].0.clone();
        let words = cut_words(jieba, inputs[i].1.as_str(), exact);
        outputs.push((id, words));
        i += 1;
    }
    outputs
}

} // verus!
