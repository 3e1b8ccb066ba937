use model_prover::error::{PipelineError, Stage};
use model_prover::registry::{resolve, GuestBinary, ModelTypeId, OutputKind, RegistryEntry, Schema};

fn all_model_types() -> Vec<ModelTypeId> {
    vec![
        ModelTypeId::LinearRegression,
        ModelTypeId::DecisionTree,
        ModelTypeId::RandomForest,
        ModelTypeId::SvmClassifier,
    ]
}

#[test]
fn resolve_linear_regression() {
    assert_eq!(
        resolve("linear_regressions"),
        Ok(RegistryEntry {
            model_type: ModelTypeId::LinearRegression,
            guest_binary: GuestBinary::LinearRegression,
            schema: Schema::LinearRegression,
        })
    );
}

#[test]
fn resolve_decision_tree() {
    assert_eq!(
        resolve("decision_trees"),
        Ok(RegistryEntry {
            model_type: ModelTypeId::DecisionTree,
            guest_binary: GuestBinary::DecisionTree,
            schema: Schema::DecisionTreeClassifier,
        })
    );
}

#[test]
fn resolve_random_forest() {
    assert_eq!(
        resolve("random_forests"),
        Ok(RegistryEntry {
            model_type: ModelTypeId::RandomForest,
            guest_binary: GuestBinary::RandomForest,
            schema: Schema::RandomForestClassifier,
        })
    );
}

#[test]
fn resolve_svm_classification() {
    assert_eq!(
        resolve("svm_classifications"),
        Ok(RegistryEntry {
            model_type: ModelTypeId::SvmClassifier,
            guest_binary: GuestBinary::SvmClassification,
            schema: Schema::SupportVectorClassifier,
        })
    );
}

#[test]
fn resolve_rejects_unknown_identifiers() {
    for name in [
        "",
        "default_model",
        "linear_regression",
        "random_forest",
        "Linear_Regressions",
        "linear_regressions ",
        " decision_trees",
        "svm_classification",
        "linear-regression",
    ] {
        assert_eq!(resolve(name), Err(PipelineError::UnknownModelType), "{:?}", name);
    }
}

#[test]
fn resolve_is_deterministic() {
    for id in all_model_types() {
        assert_eq!(resolve(id.name()), resolve(id.name()));
        assert_eq!(resolve(id.name()), Ok(id.entry()));
    }
}

#[test]
fn entries_are_pairwise_distinct() {
    let ids = all_model_types();
    for a in ids.iter() {
        for b in ids.iter() {
            if a != b {
                assert_ne!(a.name(), b.name());
                assert_ne!(a.entry().guest_binary, b.entry().guest_binary);
                assert_ne!(a.entry().schema, b.entry().schema);
            }
        }
    }
}

#[test]
fn names_read_back() {
    for id in all_model_types() {
        assert_eq!(ModelTypeId::from_name(id.name()), Some(id));
        assert_eq!(id.entry().model_type, id);
    }
    assert_eq!(ModelTypeId::from_name("perceptron"), None);
}

#[test]
fn output_kind_by_schema() {
    assert_eq!(Schema::LinearRegression.output_kind(), OutputKind::ClassIndex);
    assert_eq!(Schema::DecisionTreeClassifier.output_kind(), OutputKind::ClassIndex);
    assert_eq!(Schema::RandomForestClassifier.output_kind(), OutputKind::ClassIndex);
    assert_eq!(Schema::SupportVectorClassifier.output_kind(), OutputKind::SignedLabel);
}

#[test]
fn error_stages_and_messages() {
    assert_eq!(PipelineError::UnknownModelType.stage(), Stage::Resolve);
    assert_eq!(PipelineError::ModelDecodeFailure.stage(), Stage::Decode);
    assert_eq!(PipelineError::DataDecodeFailure.stage(), Stage::Decode);
    assert_eq!(PipelineError::SerializationFailure.stage(), Stage::Build);
    assert_eq!(PipelineError::ProverFailure.stage(), Stage::Prove);
    assert_eq!(PipelineError::JournalDecodeFailure.stage(), Stage::Extract);
    assert_eq!(PipelineError::UnknownModelType.message(), "Model type not recognized");
    assert_eq!(
        PipelineError::ModelDecodeFailure.message(),
        "model failed to deserialize byte array"
    );
    assert_eq!(
        PipelineError::DataDecodeFailure.message(),
        "data failed to deserialize byte array"
    );
    assert_eq!(PipelineError::SerializationFailure.message(), "input failed to serialize");
    assert_eq!(PipelineError::ProverFailure.message(), "prover returned no receipt");
    assert_eq!(PipelineError::JournalDecodeFailure.message(), "journal failed to decode");
}
