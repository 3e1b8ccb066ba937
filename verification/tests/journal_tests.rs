use model_prover::error::PipelineError;
use model_prover::journal::{extract, label_of_word, labels_of_words, PredictionOutput, Receipt};
use model_prover::registry::OutputKind;
use model_prover::words::words_from_bytes;

fn journal_of_words(words: &[u32]) -> Vec<u8> {
    let mut bytes: Vec<u8> = Vec::new();
    for w in words {
        bytes.extend_from_slice(&w.to_le_bytes());
    }
    bytes
}

fn receipt_of(journal: Vec<u8>) -> Receipt {
    Receipt { journal, proof: vec![0xAB, 0xCD] }
}

fn indices(r: Result<PredictionOutput, PipelineError>) -> Vec<u32> {
    match r {
        Ok(PredictionOutput::ClassIndices(v)) => v,
        other => panic!("expected class indices, got {:?}", other),
    }
}

fn labels(r: Result<PredictionOutput, PipelineError>) -> Vec<i32> {
    match r {
        Ok(PredictionOutput::Labels(v)) => v,
        other => panic!("expected labels, got {:?}", other),
    }
}

fn failure(r: Result<PredictionOutput, PipelineError>) -> PipelineError {
    match r {
        Err(e) => e,
        Ok(v) => panic!("expected a failure, got {:?}", v),
    }
}

fn three_blocks() -> Vec<u32> {
    let mut expected: Vec<u32> = Vec::new();
    expected.extend(std::iter::repeat(0u32).take(51));
    expected.extend(std::iter::repeat(1u32).take(49));
    expected.extend(std::iter::repeat(2u32).take(50));
    expected
}

#[test]
fn words_from_bytes_reads_least_significant_byte_first() {
    assert_eq!(
        words_from_bytes(&[0x78, 0x56, 0x34, 0x12, 0xFF, 0xFF, 0xFF, 0xFF, 1, 0, 0, 0]),
        Some(vec![0x1234_5678u32, 0xFFFF_FFFF, 1])
    );
    assert_eq!(words_from_bytes(&[]), Some(vec![]));
}

#[test]
fn words_from_bytes_rejects_partial_words() {
    assert_eq!(words_from_bytes(&[1]), None);
    assert_eq!(words_from_bytes(&[1, 2, 3]), None);
    assert_eq!(words_from_bytes(&[1, 2, 3, 4, 5]), None);
}

#[test]
fn extract_single_value() {
    let journal = journal_of_words(&[1, 3]);
    assert_eq!(indices(extract(&receipt_of(journal), OutputKind::ClassIndex)), vec![3u32]);
}

#[test]
fn main_linear_regression() {
    const EXPECTED: &[u32] = &[3];
    let committed = risc0_zkvm::serde::to_vec(&EXPECTED.to_vec()).unwrap();
    let receipt = receipt_of(journal_of_words(&committed));
    let result = indices(extract(&receipt, OutputKind::ClassIndex));
    assert_eq!(EXPECTED, result);
}

#[test]
fn decision_tree() {
    let expected = three_blocks();
    assert_eq!(expected.len(), 150);
    let committed = risc0_zkvm::serde::to_vec(&expected).unwrap();
    let receipt = receipt_of(journal_of_words(&committed));
    let result = indices(extract(&receipt, OutputKind::ClassIndex));
    assert_eq!(expected, result);
}

#[test]
fn random_forest() {
    let expected: Vec<u8> = three_blocks().iter().map(|x| *x as u8).collect();
    let committed = risc0_zkvm::serde::to_vec(&expected).unwrap();
    let receipt = receipt_of(journal_of_words(&committed));
    let result = indices(extract(&receipt, OutputKind::ClassIndex));
    let result: Vec<u8> = result.iter().map(|x| *x as u8).collect();
    assert_eq!(expected, result);
}

#[test]
fn main_svm_classification() {
    const EXPECTED: &[i32] = &[
        -1, -1, -1, -1, -1, -1, -1, -1, -1, -1, 1, 1, 1, 1, 1, 1, 1, 1, 1, 1,
    ];
    let committed = risc0_zkvm::serde::to_vec(&EXPECTED.to_vec()).unwrap();
    let receipt = receipt_of(journal_of_words(&committed));
    let result = labels(extract(&receipt, OutputKind::SignedLabel));
    assert_eq!(EXPECTED, result);
    let unsigned = indices(extract(&receipt, OutputKind::ClassIndex));
    let cast: Vec<i32> = unsigned.iter().map(|x| *x as i32).collect();
    assert_eq!(EXPECTED, cast);
}

#[test]
fn extract_agrees_with_the_journal_decoder() {
    for words in [
        vec![0u32],
        vec![1, 3],
        vec![3, 10, 20, 30],
        vec![2, 0xFFFF_FFFF, 0x8000_0000],
        vec![2, 1, 2, 3, 4],
        vec![1],
        vec![5, 1, 2],
        vec![],
    ] {
        let bytes = journal_of_words(&words);
        let theirs: Result<Vec<u32>, _> = risc0_zkvm::serde::from_slice(&words);
        let ours = extract(&receipt_of(bytes), OutputKind::ClassIndex);
        match theirs {
            Ok(v) => assert_eq!(indices(ours), v),
            Err(_) => assert_eq!(failure(ours), PipelineError::JournalDecodeFailure),
        }
    }
}

#[test]
fn extract_ignores_what_follows_the_sequence() {
    let journal = journal_of_words(&[2, 7, 8, 9, 10]);
    assert_eq!(indices(extract(&receipt_of(journal), OutputKind::ClassIndex)), vec![7u32, 8]);
}

#[test]
fn extract_empty_sequence() {
    let journal = journal_of_words(&[0]);
    assert_eq!(
        indices(extract(&receipt_of(journal), OutputKind::ClassIndex)),
        Vec::<u32>::new()
    );
}

#[test]
fn extract_rejects_an_empty_journal() {
    assert_eq!(
        failure(extract(&receipt_of(vec![]), OutputKind::ClassIndex)),
        PipelineError::JournalDecodeFailure
    );
}

#[test]
fn extract_rejects_partial_words() {
    let mut journal = journal_of_words(&[1, 3]);
    journal.push(0);
    assert_eq!(
        failure(extract(&receipt_of(journal), OutputKind::ClassIndex)),
        PipelineError::JournalDecodeFailure
    );
}

#[test]
fn extract_rejects_every_truncation() {
    let journal = journal_of_words(&[3, 10, 20, 30]);
    for cut in 0..journal.len() {
        let r = extract(&receipt_of(journal[..cut].to_vec()), OutputKind::ClassIndex);
        assert_eq!(failure(r), PipelineError::JournalDecodeFailure, "cut at {}", cut);
    }
}

#[test]
fn extract_rejects_a_count_beyond_the_journal() {
    let journal = journal_of_words(&[0xFFFF_FFFF, 1, 2]);
    assert_eq!(
        failure(extract(&receipt_of(journal), OutputKind::SignedLabel)),
        PipelineError::JournalDecodeFailure
    );
}

#[test]
fn signed_labels_in_twos_complement() {
    assert_eq!(label_of_word(0), 0);
    assert_eq!(label_of_word(1), 1);
    assert_eq!(label_of_word(0x7FFF_FFFF), i32::MAX);
    assert_eq!(label_of_word(0x8000_0000), i32::MIN);
    assert_eq!(label_of_word(0xFFFF_FFFF), -1);
    assert_eq!(label_of_word(0xFFFF_FFFE), -2);
    assert_eq!(
        labels_of_words(&vec![0xFFFF_FFFF, 1, 0x8000_0001]),
        vec![-1, 1, i32::MIN + 1]
    );
}
