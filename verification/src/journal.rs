//! The result extractor: decodes the journal that the guest committed into
//! the predicted values.

use vstd::prelude::*;
use crate::error::PipelineError;
use crate::registry::OutputKind;
use crate::words::{bytes_of_words, lemma_words_round_trip, words_from_bytes, words_of_bytes};

verus! {

/// What a proving run returns: the journal, which holds the bytes that the
/// guest committed, and the proof, which is only passed on and never read
/// here.
#[derive(Debug)]
pub struct Receipt {
    pub journal: Vec<u8>,
    pub proof: Vec<u8>,
}

/// The predicted values, in the order in which the guest committed them.
#[derive(Debug)]
pub enum PredictionOutput {
    /// Unsigned class indices, or the unsigned output of a regression.
    ClassIndices(Vec<u32>),
    /// Signed classification labels.
    Labels(Vec<i32>),
}

/// The mathematical value of a [`PredictionOutput`].
pub enum PredictionView {
    ClassIndices(Seq<u32>),
    Labels(Seq<i32>),
}

impl View for PredictionOutput {
    type V = PredictionView;

    open spec fn view(&self) -> PredictionView {
        match self {
            PredictionOutput::ClassIndices(v) => PredictionView::ClassIndices(v@),
            PredictionOutput::Labels(v) => PredictionView::Labels(v@),
        }
    }
}

/// The sequence that a word stream encodes: the first word is the number of
/// elements, the elements follow, one word each. Words after the last
/// element are not read. A stream that is empty or shorter than its first
/// word announces encodes nothing.
pub open spec fn decoded_sequence(words: Seq<u32>) -> Option<Seq<u32>> {
    if words.len() > 0 && (words[0] as int) < words.len() {
        Some(words.subrange(1, 1 + words[0] as int))
    } else {
        None
    }
}

/// The signed label that a word stands for, in two's complement.
pub open spec fn signed_label(word: u32) -> i32 {
    if word < 0x8000_0000 {
        word as i32
    } else {
        (word as int - 0x1_0000_0000) as i32
    }
}

/// The prediction that a journal holds, read as values of the given kind.
pub open spec fn spec_extract(journal: Seq<u8>, kind: OutputKind) -> Result<
    PredictionView,
    PipelineError,
> {
    if journal.len() % 4 != 0 {
        Err(PipelineError::JournalDecodeFailure)
    } else {
        match decoded_sequence(words_of_bytes(journal)) {
            None => Err(PipelineError::JournalDecodeFailure),
            Some(values) => match kind {
                OutputKind::ClassIndex => Ok(PredictionView::ClassIndices(values)),
                OutputKind::SignedLabel => Ok(
                    PredictionView::Labels(values.map_values(|w: u32| signed_label(w))),
                ),
            },
        }
    }
}

/// Calls `risc0_zkvm::serde::from_slice` to read a word stream as a vector
/// of 32-bit values. The deserializer takes the first word as the number of
/// elements and then one word per element; it fails when the stream ends
/// before that and does not look at what follows the last element.
#[verifier::external_body]
fn decode_word_sequence(words: &[u32]) -> (r: Result<Vec<u32>, risc0_zkvm::serde::Error>)
    ensures
        r is Ok <==> decoded_sequence(words@) is Some,
        r is Ok ==> r->Ok_0@ == decoded_sequence(words@)->Some_0,
{
    risc0_zkvm::serde::from_slice::<Vec<u32>, u32>(words)
}

/// Reads one word as a signed label.
pub fn label_of_word(word: u32) -> (r: i32)
    ensures
        r == signed_label(word),
{
    if word < 0x8000_0000 {
        word as i32
    } else {
        let rest: u32 = word - 0x8000_0000;
        (rest as i32) + i32::MIN
    }
}

/// Reads each word as a signed label.
pub fn labels_of_words(words: &Vec<u32>) -> (r: Vec<i32>)
    ensures
        r@ == words@.map_values(|w: u32| signed_label(w)),
{
    let mut labels: Vec<i32> = Vec::new();
    let mut i: usize = 0;
    while i < words.len()
        invariant
            i <= words@.len(),
            labels@.len() == i,
            forall|k: int| 0 <= k < i ==> #[trigger] labels@[k] == signed_label(words@[k]),
        decreases words@.len() - i,
    {
        labels.push(label_of_word(words[i]));
        i = i + 1;
    }
    assert(labels@ =~= words@.map_values(|w: u32| signed_label(w)));
    labels
}

/// Decodes the journal of a receipt into the predicted values.
///
/// The journal must hold whole words that encode one sequence; its elements
/// are returned as class indices or as signed labels, as `kind` says. Any
/// other journal fails with `JournalDecodeFailure`.
pub fn extract(receipt: &Receipt, kind: OutputKind) -> (r: Result<PredictionOutput, PipelineError>)
    ensures
        match spec_extract(receipt.journal@, kind) {
            Ok(v) => r is Ok && r->Ok_0@ == v,
            Err(e) => r is Err && r->Err_0 == e,
        },
{
    let words = match words_from_bytes(receipt.journal.as_slice()) {
        Some(words) => words,
        None => {
            return Err(PipelineError::JournalDecodeFailure);
        },
    };
    match decode_word_sequence(words.as_slice()) {
        Err(_) => Err(PipelineError::JournalDecodeFailure),
        Ok(values) => match kind {
            OutputKind::ClassIndex => Ok(PredictionOutput::ClassIndices(values)),
            OutputKind::SignedLabel => Ok(PredictionOutput::Labels(labels_of_words(&values))),
        },
    }
}

/// The word stream of a sequence: its length, then its elements.
pub open spec fn encoded_sequence(values: Seq<u32>) -> Seq<u32> {
    seq![values.len() as u32] + values
}

/// The journal of a guest that commits one sequence of words.
pub open spec fn committed_journal(values: Seq<u32>) -> Seq<u8> {
    bytes_of_words(encoded_sequence(values))
}

/// The word that stands for a signed label, in two's complement.
pub open spec fn word_of_label(label: i32) -> u32 {
    if label >= 0 {
        label as u32
    } else {
        (label as int + 0x1_0000_0000) as u32
    }
}

/// A word and the label it stands for determine each other.
pub proof fn lemma_label_round_trip(word: u32, label: i32)
    ensures
        word_of_label(signed_label(word)) == word,
        signed_label(word_of_label(label)) == label,
{
}

/// A sequence that is written as a word stream is read back as it was.
pub proof fn lemma_sequence_round_trip(values: Seq<u32>)
    requires
        values.len() <= u32::MAX,
    ensures
        decoded_sequence(encoded_sequence(values)) == Some(values),
{
    assert(encoded_sequence(values).subrange(1, 1 + values.len() as int) =~= values);
}

/// The journal of a guest that commits a sequence of class indices is
/// decoded into exactly that sequence.
pub proof fn lemma_extract_committed_indices(values: Seq<u32>)
    requires
        values.len() <= u32::MAX,
    ensures
        spec_extract(committed_journal(values), OutputKind::ClassIndex) == Ok::<
            PredictionView,
            PipelineError,
        >(PredictionView::ClassIndices(values)),
{
    lemma_words_round_trip(encoded_sequence(values));
    lemma_sequence_round_trip(values);
}

/// The journal of a guest that commits a sequence of signed labels, each as
/// its word, is decoded into exactly that sequence.
pub proof fn lemma_extract_committed_labels(labels: Seq<i32>)
    requires
        labels.len() <= u32::MAX,
    ensures
        spec_extract(
            committed_journal(labels.map_values(|l: i32| word_of_label(l))),
            OutputKind::SignedLabel,
        ) == Ok::<PredictionView, PipelineError>(PredictionView::Labels(labels)),
{
    let values = labels.map_values(|l: i32| word_of_label(l));
    lemma_words_round_trip(encoded_sequence(values));
    lemma_sequence_round_trip(values);
    assert forall|i: int| 0 <= i < labels.len() implies signed_label(values[i]) == labels[i] by {
        lemma_label_round_trip(0, labels[i]);
    }
    assert(values.map_values(|w: u32| signed_label(w)) =~= labels);
}

/// A journal that is cut short is never decoded: where a journal holds a
/// prediction of `n` values, no prefix of it with fewer than `n + 1` whole
/// words holds one.
pub proof fn lemma_truncated_journal_fails(journal: Seq<u8>, kind: OutputKind, cut: int)
    requires
        spec_extract(journal, kind) is Ok,
        0 <= cut < 4 * (1 + words_of_bytes(journal)[0] as int),
    ensures
        cut < journal.len(),
        spec_extract(journal.subrange(0, cut), kind) == Err::<PredictionView, PipelineError>(
            PipelineError::JournalDecodeFailure,
        ),
{
    let words = words_of_bytes(journal);
    let prefix = journal.subrange(0, cut);
    let short = words_of_bytes(prefix);
    if cut % 4 == 0 && cut > 0 {
        assert(short[0] == words[0]);
    }
}

} // verus!
