//! The execution environment builder: assembles the input that the guest
//! reads, the model segment first and the data segment second.

use vstd::prelude::*;
use crate::dataset::TypedDataset;
use crate::error::PipelineError;

verus! {

/// The input of one proving run: two segments of words, in the order in
/// which the guest reads them. The order is part of the guest's contract.
/// An environment is made by [`build`] and never changed afterwards.
#[derive(Debug)]
pub struct ExecutorEnvironment {
    model: Vec<u32>,
    data: Vec<u32>,
}

impl View for ExecutorEnvironment {
    type V = Seq<Seq<u32>>;

    /// The segments, in the order in which they were written.
    closed spec fn view(&self) -> Seq<Seq<u32>> {
        seq![self.model@, self.data@]
    }
}

impl ExecutorEnvironment {
    /// The first segment: the model in the guest's schema.
    pub fn model_segment(&self) -> (r: &Vec<u32>)
        ensures
            self@.len() == 2,
            r@ == self@[0],
    {
        &self.model
    }

    /// The second segment: the data set in the guest's schema.
    pub fn data_segment(&self) -> (r: &Vec<u32>)
        ensures
            self@.len() == 2,
            r@ == self@[1],
    {
        &self.data
    }

    /// The whole input stream: the model segment, then the data segment,
    /// and nothing else.
    pub fn input(&self) -> (r: Vec<u32>)
        ensures
            self@.len() == 2,
            r@ == self@[0] + self@[1],
    {
        let mut stream: Vec<u32> = Vec::new();
        stream.extend_from_slice(self.model.as_slice());
        stream.extend_from_slice(self.data.as_slice());
        assert(stream@ =~= self.model@ + self.data@);
        stream
    }
}

/// Builds the environment of a run from the model in the guest's schema and
/// the data set.
///
/// `model` is what serializing the typed model gave, or `None` where it
/// could not be serialized. The build succeeds when there is a serialized
/// model and the data set can be written in the guest's schema; the
/// environment then holds the model's words and the data set's words, in
/// this order. Otherwise it fails with `SerializationFailure` and gives no
/// environment. The data set that it is given is rectangular, as every data
/// set is.
pub fn build(model: Option<Vec<u32>>, data: &TypedDataset) -> (r: Result<
    ExecutorEnvironment,
    PipelineError,
>)
    ensures
        data@.rectangular(),
        model is Some && data@.values.len() <= u32::MAX ==> r is Ok && r->Ok_0@
            == seq![model->Some_0@, data@.words()],
        model is None || data@.values.len() > u32::MAX ==> r is Err && r->Err_0
            == PipelineError::SerializationFailure,
{
    let shape = data.shape();
    let model_words = match model {
        Some(words) => words,
        None => {
            return Err(PipelineError::SerializationFailure);
        },
    };
    match data.encode() {
        Ok(data_words) => Ok(ExecutorEnvironment { model: model_words, data: data_words }),
        Err(_) => Err(PipelineError::SerializationFailure),
    }
}

} // verus!
