//! The stages of a proving run and the errors that end one.

use vstd::prelude::*;

verus! {

/// One of the five stages of a proving run, in the order in which they run.
#[derive(Clone, Copy, Debug, PartialEq, Eq, Structural)]
pub enum Stage {
    Resolve,
    Decode,
    Build,
    Prove,
    Extract,
}

/// Why a proving run ended without a prediction. Every error is final: the
/// run is not retried and yields no partial result.
#[derive(Clone, Copy, Debug, PartialEq, Eq, Structural)]
pub enum PipelineError {
    /// The model type identifier names no registered model type.
    UnknownModelType,
    /// The model payload is not a well-formed model.
    ModelDecodeFailure,
    /// The data payload is not a well-formed dense matrix.
    DataDecodeFailure,
    /// The model or the data set cannot be written in the guest's schema.
    SerializationFailure,
    /// The proving engine returned no receipt.
    ProverFailure,
    /// The journal does not hold a well-formed prediction.
    JournalDecodeFailure,
}

impl PipelineError {
    /// The stage at which this error arises.
    pub open spec fn spec_stage(self) -> Stage {
        match self {
            PipelineError::UnknownModelType => Stage::Resolve,
            PipelineError::ModelDecodeFailure => Stage::Decode,
            PipelineError::DataDecodeFailure => Stage::Decode,
            PipelineError::SerializationFailure => Stage::Build,
            PipelineError::ProverFailure => Stage::Prove,
            PipelineError::JournalDecodeFailure => Stage::Extract,
        }
    }

    /// The text shown to the user for this error.
    pub open spec fn spec_message(self) -> Seq<char> {
        match self {
            PipelineError::UnknownModelType => "Model type not recognized"@,
            PipelineError::ModelDecodeFailure => "model failed to deserialize byte array"@,
            PipelineError::DataDecodeFailure => "data failed to deserialize byte array"@,
            PipelineError::SerializationFailure => "input failed to serialize"@,
            PipelineError::ProverFailure => "prover returned no receipt"@,
            PipelineError::JournalDecodeFailure => "journal failed to decode"@,
        }
    }

    /// The stage at which this error arises.
    pub fn stage(self) -> (r: Stage)
        ensures
            r == self.spec_stage(),
    {
        match self {
            PipelineError::UnknownModelType => Stage::Resolve,
            PipelineError::ModelDecodeFailure => Stage::Decode,
            PipelineError::DataDecodeFailure => Stage::Decode,
            PipelineError::SerializationFailure => Stage::Build,
            PipelineError::ProverFailure => Stage::Prove,
            PipelineError::JournalDecodeFailure => Stage::Extract,
        }
    }

    /// The text shown to the user for this error.
    pub fn message(self) -> (r: String)
        ensures
            r@ == self.spec_message(),
    {
        let text = match self {
            PipelineError::UnknownModelType => "Model type not recognized",
            PipelineError::ModelDecodeFailure => "model failed to deserialize byte array",
            PipelineError::DataDecodeFailure => "data failed to deserialize byte array",
            PipelineError::SerializationFailure => "input failed to serialize",
            PipelineError::ProverFailure => "prover returned no receipt",
            PipelineError::JournalDecodeFailure => "journal failed to decode",
        };
        text.to_owned()
    }
}

} // verus!
