//! The model registry: one entry per supported model type, fixed at build
//! time, that names the guest program and the decoding schema of the type.

use vstd::prelude::*;
use crate::error::PipelineError;

verus! {

/// The supported model types.
#[derive(Clone, Copy, Debug, PartialEq, Eq, Structural)]
pub enum ModelTypeId {
    LinearRegression,
    DecisionTree,
    RandomForest,
    SvmClassifier,
}

/// The guest programs, one per model type. The binary itself is an artifact
/// that the caller holds; the registry only says which one a run needs.
#[derive(Clone, Copy, Debug, PartialEq, Eq, Structural)]
pub enum GuestBinary {
    LinearRegression,
    DecisionTree,
    RandomForest,
    SvmClassification,
}

/// The binary schemas in which a model payload is decoded, one per model
/// type.
#[derive(Clone, Copy, Debug, PartialEq, Eq, Structural)]
pub enum Schema {
    LinearRegression,
    DecisionTreeClassifier,
    RandomForestClassifier,
    SupportVectorClassifier,
}

/// How the values in a journal are read: as unsigned class indices or as
/// signed classification labels.
#[derive(Clone, Copy, Debug, PartialEq, Eq, Structural)]
pub enum OutputKind {
    ClassIndex,
    SignedLabel,
}

/// What the registry holds for one model type.
#[derive(Clone, Copy, Debug, PartialEq, Eq, Structural)]
pub struct RegistryEntry {
    pub model_type: ModelTypeId,
    pub guest_binary: GuestBinary,
    pub schema: Schema,
}

impl ModelTypeId {
    /// The identifier by which a model type is selected.
    pub open spec fn spec_name(self) -> Seq<char> {
        match self {
            ModelTypeId::LinearRegression => "linear_regressions"@,
            ModelTypeId::DecisionTree => "decision_trees"@,
            ModelTypeId::RandomForest => "random_forests"@,
            ModelTypeId::SvmClassifier => "svm_classifications"@,
        }
    }

    /// The model type that an identifier selects, if any.
    pub open spec fn spec_from_name(name: Seq<char>) -> Option<ModelTypeId> {
        if name == ModelTypeId::LinearRegression.spec_name() {
            Some(ModelTypeId::LinearRegression)
        } else if name == ModelTypeId::DecisionTree.spec_name() {
            Some(ModelTypeId::DecisionTree)
        } else if name == ModelTypeId::RandomForest.spec_name() {
            Some(ModelTypeId::RandomForest)
        } else if name == ModelTypeId::SvmClassifier.spec_name() {
            Some(ModelTypeId::SvmClassifier)
        } else {
            None
        }
    }

    /// The registry entry of a model type.
    pub open spec fn spec_entry(self) -> RegistryEntry {
        match self {
            ModelTypeId::LinearRegression => RegistryEntry {
                model_type: self,
                guest_binary: GuestBinary::LinearRegression,
                schema: Schema::LinearRegression,
            },
            ModelTypeId::DecisionTree => RegistryEntry {
                model_type: self,
                guest_binary: GuestBinary::DecisionTree,
                schema: Schema::DecisionTreeClassifier,
            },
            ModelTypeId::RandomForest => RegistryEntry {
                model_type: self,
                guest_binary: GuestBinary::RandomForest,
                schema: Schema::RandomForestClassifier,
            },
            ModelTypeId::SvmClassifier => RegistryEntry {
                model_type: self,
                guest_binary: GuestBinary::SvmClassification,
                schema: Schema::SupportVectorClassifier,
            },
        }
    }

    /// The identifier by which this model type is selected.
    pub fn name(self) -> (r: &'static str)
        ensures
            r@ == self.spec_name(),
    {
        match self {
            ModelTypeId::LinearRegression => "linear_regressions",
            ModelTypeId::DecisionTree => "decision_trees",
            ModelTypeId::RandomForest => "random_forests",
            ModelTypeId::SvmClassifier => "svm_classifications",
        }
    }

    /// Reads a model type identifier. An identifier that names no model type
    /// gives `None`: nothing is defaulted.
    pub fn from_name(name: &str) -> (r: Option<ModelTypeId>)
        ensures
            r == Self::spec_from_name(name@),
    {
        let given = name.to_owned();
        if given == ModelTypeId::LinearRegression.name().to_owned() {
            Some(ModelTypeId::LinearRegression)
        } else if given == ModelTypeId::DecisionTree.name().to_owned() {
            Some(ModelTypeId::DecisionTree)
        } else if given == ModelTypeId::RandomForest.name().to_owned() {
            Some(ModelTypeId::RandomForest)
        } else if given == ModelTypeId::SvmClassifier.name().to_owned() {
            Some(ModelTypeId::SvmClassifier)
        } else {
            None
        }
    }

    /// The registry entry of this model type.
    pub fn entry(self) -> (r: RegistryEntry)
        ensures
            r == self.spec_entry(),
    {
        match self {
            ModelTypeId::LinearRegression => RegistryEntry {
                model_type: self,
                guest_binary: GuestBinary::LinearRegression,
                schema: Schema::LinearRegression,
            },
            ModelTypeId::DecisionTree => RegistryEntry {
                model_type: self,
                guest_binary: GuestBinary::DecisionTree,
                schema: Schema::DecisionTreeClassifier,
            },
            ModelTypeId::RandomForest => RegistryEntry {
                model_type: self,
                guest_binary: GuestBinary::RandomForest,
                schema: Schema::RandomForestClassifier,
            },
            ModelTypeId::SvmClassifier => RegistryEntry {
                model_type: self,
                guest_binary: GuestBinary::SvmClassification,
                schema: Schema::SupportVectorClassifier,
            },
        }
    }
}

impl Schema {
    /// How a journal is read for a model of this schema: the support vector
    /// classifier commits signed labels, the other models unsigned indices.
    pub open spec fn spec_output_kind(self) -> OutputKind {
        match self {
            Schema::SupportVectorClassifier => OutputKind::SignedLabel,
            _ => OutputKind::ClassIndex,
        }
    }

    /// How a journal is read for a model of this schema.
    pub fn output_kind(self) -> (r: OutputKind)
        ensures
            r == self.spec_output_kind(),
    {
        match self {
            Schema::SupportVectorClassifier => OutputKind::SignedLabel,
            _ => OutputKind::ClassIndex,
        }
    }
}

/// What `resolve` returns for an identifier.
pub open spec fn spec_resolve(name: Seq<char>) -> Result<RegistryEntry, PipelineError> {
    match ModelTypeId::spec_from_name(name) {
        Some(id) => Ok(id.spec_entry()),
        None => Err(PipelineError::UnknownModelType),
    }
}

/// Looks a model type identifier up in the registry. A pure lookup: the
/// entry of the model type that the identifier selects, or
/// `UnknownModelType` for every other identifier.
pub fn resolve(model_type_id: &str) -> (r: Result<RegistryEntry, PipelineError>)
    ensures
        r == spec_resolve(model_type_id@),
{
    match ModelTypeId::from_name(model_type_id) {
        Some(id) => Ok(id.entry()),
        None => Err(PipelineError::UnknownModelType),
    }
}

/// The identifiers of two different model types differ.
pub proof fn lemma_names_distinct(a: ModelTypeId, b: ModelTypeId)
    requires
        a != b,
    ensures
        a.spec_name() != b.spec_name(),
{
    reveal_strlit("linear_regressions");
    reveal_strlit("decision_trees");
    reveal_strlit("random_forests");
    reveal_strlit("svm_classifications");
    assert("linear_regressions"@.len() == 18);
    assert("decision_trees"@.len() == 14);
    assert("random_forests"@.len() == 14);
    assert("svm_classifications"@.len() == 19);
    assert("decision_trees"@[0] == 'd');
    assert("random_forests"@[0] == 'r');
}

/// Every supported model type is resolved, by its identifier, to its own
/// entry.
pub proof fn lemma_resolve_supported(id: ModelTypeId)
    ensures
        ModelTypeId::spec_from_name(id.spec_name()) == Some(id),
        spec_resolve(id.spec_name()) == Ok::<RegistryEntry, PipelineError>(id.spec_entry()),
        id.spec_entry().model_type == id,
{
    if id != ModelTypeId::LinearRegression {
        lemma_names_distinct(id, ModelTypeId::LinearRegression);
    }
    if id != ModelTypeId::DecisionTree {
        lemma_names_distinct(id, ModelTypeId::DecisionTree);
    }
    if id != ModelTypeId::RandomForest {
        lemma_names_distinct(id, ModelTypeId::RandomForest);
    }
}

/// The entries of two different model types share neither the guest binary
/// nor the schema.
pub proof fn lemma_entries_distinct(a: ModelTypeId, b: ModelTypeId)
    requires
        a != b,
    ensures
        a.spec_entry().guest_binary != b.spec_entry().guest_binary,
        a.spec_entry().schema != b.spec_entry().schema,
{
}

/// An identifier is resolved exactly when it is the identifier of a model
/// type, and then to that type's entry; every other identifier fails with
/// `UnknownModelType`.
pub proof fn lemma_resolve_unknown(name: Seq<char>)
    ensures
        (exists|id: ModelTypeId| name == id.spec_name()) <==> spec_resolve(name) is Ok,
        !(exists|id: ModelTypeId| name == id.spec_name()) <==> spec_resolve(name) == Err::<
            RegistryEntry,
            PipelineError,
        >(PipelineError::UnknownModelType),
{
    if spec_resolve(name) is Ok {
        let id = ModelTypeId::spec_from_name(name)->Some_0;
        assert(name == id.spec_name());
    }
}

} // verus!
