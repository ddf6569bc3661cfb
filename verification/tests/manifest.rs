use senrigan_types::{
    ContractError, ModelManifest, ModelReleaseClass, ProviderPrecision, SchemaVersion, Validate,
};

fn manifest() -> ModelManifest {
    ModelManifest {
        schema_version: SchemaVersion::current(),
        model_id: "fixture-body".into(),
        version: "1.0.0".into(),
        file_hashes: vec![("model.onnx".into(), "sha256:0123".into())],
        source_and_license_reference: "NOTICE.txt".into(),
        preprocessing_and_tensor_schema: "adapter.md".into(),
        canonical_adapter_version: "fixture-v1".into(),
        supported_providers_and_precision: vec![ProviderPrecision {
            provider: "CUDA".into(),
            precision: "fp16".into(),
        }],
        minimum_memory_observed_bytes: None,
        release_class: ModelReleaseClass::Unreviewed,
    }
}

#[test]
fn manifest_rejects_an_incomplete_package() {
    let mut value = manifest();
    value.file_hashes.clear();
    assert_eq!(
        value.validate(),
        Err(ContractError::EmptyField {
            field: "file_hashes",
        })
    );
}

#[test]
fn manifest_fixture_validates() {
    assert!(manifest().validate().is_ok());
}

#[test]
fn manifest_reports_identity_fields_in_order() {
    let mut value = manifest();
    value.version = "  ".into();
    value.canonical_adapter_version = "".into();
    assert_eq!(
        value.validate(),
        Err(ContractError::EmptyField { field: "version" })
    );
    let mut value = manifest();
    value.canonical_adapter_version = "\t".into();
    assert_eq!(
        value.validate(),
        Err(ContractError::EmptyField {
            field: "canonical_adapter_version",
        })
    );
}

#[test]
fn manifest_rejects_blank_inventory_and_placements() {
    let mut value = manifest();
    value.file_hashes.push(("extra.bin".into(), " ".into()));
    assert_eq!(
        value.validate(),
        Err(ContractError::EmptyField {
            field: "file_hashes entry",
        })
    );
    let mut value = manifest();
    value.supported_providers_and_precision.clear();
    assert_eq!(
        value.validate(),
        Err(ContractError::EmptyField {
            field: "supported_providers_and_precision",
        })
    );
    let mut value = manifest();
    value.supported_providers_and_precision[0].precision = "".into();
    assert_eq!(
        value.validate(),
        Err(ContractError::EmptyField {
            field: "provider or precision",
        })
    );
}
