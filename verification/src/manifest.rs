//! Model-package identity, compatibility, and release labels.

use vstd::prelude::*;

use crate::error::{ContractError, Validate};
use crate::schema::SchemaVersion;
use crate::text::{blank, holds_non_whitespace, is_blank, is_whitespace};

verus! {

/// Records the reviewed distribution status of a model package.
#[derive(Debug, Clone, Copy, PartialEq, Eq, Structural)]
pub enum ModelReleaseClass {
    /// The package may enter a public bundle.
    BundleApproved,
    /// The package is limited to permitted local research.
    LocalResearchOnly,
    /// The package terms have not been reviewed.
    Unreviewed,
}

/// Names one validated execution-provider and numeric-precision pair.
#[derive(Debug, Clone, PartialEq, Eq)]
pub struct ProviderPrecision {
    pub provider: String,
    pub precision: String,
}

/// Describes one model package that the loader checks before use, as the
/// contract checks see it. The numerical tolerances of a package map names
/// to floating-point values and are carried by the application beside this
/// record.
#[derive(Debug, Clone)]
pub struct ModelManifest {
    pub schema_version: SchemaVersion,
    pub model_id: String,
    pub version: String,
    /// Package-relative file names and their recorded digest strings, in the
    /// order that the caller lists them. The check reads every entry; it does
    /// not require names to be distinct.
    pub file_hashes: Vec<(String, String)>,
    /// Identifies the package notice or another source and license reference.
    pub source_and_license_reference: String,
    /// Identifies the preprocessing rules and named tensor contract.
    pub preprocessing_and_tensor_schema: String,
    pub canonical_adapter_version: String,
    pub supported_providers_and_precision: Vec<ProviderPrecision>,
    /// Stores the observed minimum device memory in bytes, if measured.
    pub minimum_memory_observed_bytes: Option<u64>,
    pub release_class: ModelReleaseClass,
}

/// Identifies the selected model package, provider, device, and precision.
#[derive(Debug, Clone, PartialEq, Eq)]
pub struct InferencePlacement {
    pub provider: String,
    pub device_id: String,
    pub precision_mode: String,
    pub model_package_id: String,
}

/// Whether a file inventory entry has a blank name or a blank digest.
pub open spec fn blank_file_entry(entry: (String, String)) -> bool {
    is_blank(entry.0@) || is_blank(entry.1@)
}

/// Whether a supported placement has a blank provider or precision.
pub open spec fn blank_placement(placement: ProviderPrecision) -> bool {
    is_blank(placement.provider@) || is_blank(placement.precision@)
}

/// Whether some file inventory entry has a blank name or a blank digest.
pub open spec fn has_blank_file_entry(entries: Seq<(String, String)>) -> bool {
    exists|i: int| 0 <= i < entries.len() && blank_file_entry(#[trigger] entries[i])
}

/// Whether some supported placement has a blank provider or precision.
pub open spec fn has_blank_placement(placements: Seq<ProviderPrecision>) -> bool {
    exists|i: int| 0 <= i < placements.len() && blank_placement(#[trigger] placements[i])
}

/// What validating a model manifest gives. Checks run in this order and the
/// first failure is reported: the identity and provenance fields are not
/// blank, in field order; the file inventory is not empty and holds no blank
/// name or digest; the supported placements are not empty and hold no blank
/// provider or precision.
pub open spec fn manifest_result(manifest: ModelManifest) -> Result<(), ContractError> {
    if is_blank(manifest.model_id@) {
        Err(ContractError::EmptyField { field: "model_id" })
    } else if is_blank(manifest.version@) {
        Err(ContractError::EmptyField { field: "version" })
    } else if is_blank(manifest.source_and_license_reference@) {
        Err(ContractError::EmptyField { field: "source_and_license_reference" })
    } else if is_blank(manifest.preprocessing_and_tensor_schema@) {
        Err(ContractError::EmptyField { field: "preprocessing_and_tensor_schema" })
    } else if is_blank(manifest.canonical_adapter_version@) {
        Err(ContractError::EmptyField { field: "canonical_adapter_version" })
    } else if manifest.file_hashes@.len() == 0 {
        Err(ContractError::EmptyField { field: "file_hashes" })
    } else if has_blank_file_entry(manifest.file_hashes@) {
        Err(ContractError::EmptyField { field: "file_hashes entry" })
    } else if manifest.supported_providers_and_precision@.len() == 0 {
        Err(ContractError::EmptyField { field: "supported_providers_and_precision" })
    } else if has_blank_placement(manifest.supported_providers_and_precision@) {
        Err(ContractError::EmptyField { field: "provider or precision" })
    } else {
        Ok(())
    }
}

impl Validate for ModelManifest {
    #[verifier::loop_isolation(false)]
    fn validate(&self) -> (r: Result<(), ContractError>)
        ensures
            r == manifest_result(*self),
    {
        // 1. Check package identity and provenance.
        if blank(self.model_id.as_str()) {
            return Err(ContractError::EmptyField { field: "model_id" });
        }
        if blank(self.version.as_str()) {
            return Err(ContractError::EmptyField { field: "version" });
        }
        if blank(self.source_and_license_reference.as_str()) {
            return Err(ContractError::EmptyField { field: "source_and_license_reference" });
        }
        if blank(self.preprocessing_and_tensor_schema.as_str()) {
            return Err(ContractError::EmptyField { field: "preprocessing_and_tensor_schema" });
        }
        if blank(self.canonical_adapter_version.as_str()) {
            return Err(ContractError::EmptyField { field: "canonical_adapter_version" });
        }
        // 2. Check the package file inventory.
        if self.file_hashes.len() == 0 {
            return Err(ContractError::EmptyField { field: "file_hashes" });
        }
        let mut i: usize = 0;
        while i < self.file_hashes.len()
            invariant
                i <= self.file_hashes@.len(),
                forall|k: int| 0 <= k < i ==> !blank_file_entry(#[trigger] self.file_hashes@[k]),
            decreases self.file_hashes.len() - i,
        {
            let entry = &self.file_hashes[i];
            if blank(entry.0.as_str()) || blank(entry.1.as_str()) {
                assert(blank_file_entry(self.file_hashes@[i as int]));
                return Err(ContractError::EmptyField { field: "file_hashes entry" });
            }
            assert(!blank_file_entry(self.file_hashes@[i as int]));
            i = i + 1;
        }
        assert(!has_blank_file_entry(self.file_hashes@));
        // 3. Check runtime compatibility.
        if self.supported_providers_and_precision.len() == 0 {
            return Err(ContractError::EmptyField { field: "supported_providers_and_precision" });
        }
        let mut j: usize = 0;
        while j < self.supported_providers_and_precision.len()
            invariant
                j <= self.supported_providers_and_precision@.len(),
                !has_blank_file_entry(self.file_hashes@),
                forall|k: int|
                    0 <= k < j ==> !blank_placement(
                        #[trigger] self.supported_providers_and_precision@[k],
                    ),
            decreases self.supported_providers_and_precision.len() - j,
        {
            let placement = &self.supported_providers_and_precision[j];
            if blank(placement.provider.as_str()) || blank(placement.precision.as_str()) {
                assert(blank_placement(self.supported_providers_and_precision@[j as int]));
                return Err(ContractError::EmptyField { field: "provider or precision" });
            }
            assert(!blank_placement(self.supported_providers_and_precision@[j as int]));
            j = j + 1;
        }
        Ok(())
    }
}

/// Manifest validation accepts exactly the manifests whose model id,
/// version, source and license reference, preprocessing and tensor schema,
/// and canonical adapter version each hold a non-whitespace character, whose
/// file inventory is not empty and gives every entry a name and a digest
/// that hold one, and whose supported placements are not empty and give
/// every entry a provider and a precision that hold one.
pub proof fn manifest_accepts_exactly_complete_packages(manifest: ModelManifest)
    ensures
        (manifest_result(manifest) is Ok) == {
            &&& holds_non_whitespace(manifest.model_id@)
            &&& holds_non_whitespace(manifest.version@)
            &&& holds_non_whitespace(manifest.source_and_license_reference@)
            &&& holds_non_whitespace(manifest.preprocessing_and_tensor_schema@)
            &&& holds_non_whitespace(manifest.canonical_adapter_version@)
            &&& manifest.file_hashes@.len() > 0
            &&& forall|i: int|
                0 <= i < manifest.file_hashes@.len() ==> holds_non_whitespace(
                    #[trigger] manifest.file_hashes@[i].0@,
                ) && holds_non_whitespace(manifest.file_hashes@[i].1@)
            &&& manifest.supported_providers_and_precision@.len() > 0
            &&& forall|i: int|
                0 <= i < manifest.supported_providers_and_precision@.len()
                    ==> holds_non_whitespace(
                    #[trigger] manifest.supported_providers_and_precision@[i].provider@,
                ) && holds_non_whitespace(
                    manifest.supported_providers_and_precision@[i].precision@,
                )
        },
{
    if has_blank_file_entry(manifest.file_hashes@) {
        let i = choose|i: int|
            0 <= i < manifest.file_hashes@.len() && blank_file_entry(
                #[trigger] manifest.file_hashes@[i],
            );
        assert(!(holds_non_whitespace(manifest.file_hashes@[i].0@) && holds_non_whitespace(
            manifest.file_hashes@[i].1@,
        )));
    }
    if has_blank_placement(manifest.supported_providers_and_precision@) {
        let i = choose|i: int|
            0 <= i < manifest.supported_providers_and_precision@.len() && blank_placement(
                #[trigger] manifest.supported_providers_and_precision@[i],
            );
        assert(!(holds_non_whitespace(manifest.supported_providers_and_precision@[i].provider@)
            && holds_non_whitespace(manifest.supported_providers_and_precision@[i].precision@)));
    }
    if !has_blank_file_entry(manifest.file_hashes@) {
        assert forall|i: int| 0 <= i < manifest.file_hashes@.len() implies holds_non_whitespace(
            #[trigger] manifest.file_hashes@[i].0@,
        ) && holds_non_whitespace(manifest.file_hashes@[i].1@) by {
            assert(!blank_file_entry(manifest.file_hashes@[i]));
        }
    }
    if !has_blank_placement(manifest.supported_providers_and_precision@) {
        assert forall|i: int|
            0 <= i < manifest.supported_providers_and_precision@.len() implies holds_non_whitespace(
            #[trigger] manifest.supported_providers_and_precision@[i].provider@,
        ) && holds_non_whitespace(manifest.supported_providers_and_precision@[i].precision@) by {
            assert(!blank_placement(manifest.supported_providers_and_precision@[i]));
        }
    }
}

/// Which error a rejected manifest reports: the first blank identity or
/// provenance field in field order, then an empty file inventory, a file
/// entry with a blank name or digest, an empty placement list, and a
/// placement with a blank provider or precision.
pub proof fn manifest_reports_the_first_failing_check(manifest: ModelManifest)
    ensures
        !holds_non_whitespace(manifest.model_id@) ==> manifest_result(manifest) == Err::<
            (),
            ContractError,
        >(ContractError::EmptyField { field: "model_id" }),
        holds_non_whitespace(manifest.model_id@) && !holds_non_whitespace(manifest.version@)
            ==> manifest_result(manifest) == Err::<(), ContractError>(
            ContractError::EmptyField { field: "version" },
        ),
        holds_non_whitespace(manifest.model_id@) && holds_non_whitespace(manifest.version@)
            && !holds_non_whitespace(manifest.source_and_license_reference@) ==> manifest_result(
            manifest,
        ) == Err::<(), ContractError>(
            ContractError::EmptyField { field: "source_and_license_reference" },
        ),
        holds_non_whitespace(manifest.model_id@) && holds_non_whitespace(manifest.version@)
            && holds_non_whitespace(manifest.source_and_license_reference@)
            && !holds_non_whitespace(manifest.preprocessing_and_tensor_schema@)
            ==> manifest_result(manifest) == Err::<(), ContractError>(
            ContractError::EmptyField { field: "preprocessing_and_tensor_schema" },
        ),
        holds_non_whitespace(manifest.model_id@) && holds_non_whitespace(manifest.version@)
            && holds_non_whitespace(manifest.source_and_license_reference@)
            && holds_non_whitespace(manifest.preprocessing_and_tensor_schema@)
            && !holds_non_whitespace(manifest.canonical_adapter_version@) ==> manifest_result(
            manifest,
        ) == Err::<(), ContractError>(
            ContractError::EmptyField { field: "canonical_adapter_version" },
        ),
        holds_non_whitespace(manifest.model_id@) && holds_non_whitespace(manifest.version@)
            && holds_non_whitespace(manifest.source_and_license_reference@)
            && holds_non_whitespace(manifest.preprocessing_and_tensor_schema@)
            && holds_non_whitespace(manifest.canonical_adapter_version@) ==> ({
            let files = manifest.file_hashes@;
            let placements = manifest.supported_providers_and_precision@;
            &&& files.len() == 0 ==> manifest_result(manifest) == Err::<(), ContractError>(
                ContractError::EmptyField { field: "file_hashes" },
            )
            &&& files.len() > 0 && (exists|i: int|
                0 <= i < files.len() && !(holds_non_whitespace(#[trigger] files[i].0@)
                    && holds_non_whitespace(files[i].1@))) ==> manifest_result(manifest)
                == Err::<(), ContractError>(
                ContractError::EmptyField { field: "file_hashes entry" },
            )
            &&& files.len() > 0 && (forall|i: int|
                0 <= i < files.len() ==> holds_non_whitespace(#[trigger] files[i].0@)
                    && holds_non_whitespace(files[i].1@)) && placements.len() == 0
                ==> manifest_result(manifest) == Err::<(), ContractError>(
                ContractError::EmptyField { field: "supported_providers_and_precision" },
            )
            &&& files.len() > 0 && (forall|i: int|
                0 <= i < files.len() ==> holds_non_whitespace(#[trigger] files[i].0@)
                    && holds_non_whitespace(files[i].1@)) && placements.len() > 0 && (exists|
                i: int,
            |
                0 <= i < placements.len() && !(holds_non_whitespace(
                    #[trigger] placements[i].provider@,
                ) && holds_non_whitespace(placements[i].precision@))) ==> manifest_result(
                manifest,
            ) == Err::<(), ContractError>(
                ContractError::EmptyField { field: "provider or precision" },
            )
        }),
{
    manifest_accepts_exactly_complete_packages(manifest);
    let files = manifest.file_hashes@;
    let placements = manifest.supported_providers_and_precision@;
    assert forall|i: int| 0 <= i < files.len() implies blank_file_entry(#[trigger] files[i])
        == !(holds_non_whitespace(files[i].0@) && holds_non_whitespace(files[i].1@)) by {
        lemma_blank_is_no_visible_char(files[i].0@);
        lemma_blank_is_no_visible_char(files[i].1@);
    }
    assert forall|i: int| 0 <= i < placements.len() implies blank_placement(
        #[trigger] placements[i],
    ) == !(holds_non_whitespace(placements[i].provider@) && holds_non_whitespace(
        placements[i].precision@,
    )) by {
        lemma_blank_is_no_visible_char(placements[i].provider@);
        lemma_blank_is_no_visible_char(placements[i].precision@);
    }
}

proof fn lemma_blank_is_no_visible_char(text: Seq<char>)
    ensures
        is_blank(text) == !holds_non_whitespace(text),
{
    if !holds_non_whitespace(text) {
        assert forall|j: int| 0 <= j < text.len() implies is_whitespace(#[trigger] text[j]) by {
            if !is_whitespace(text[j]) {
                assert(holds_non_whitespace(text));
            }
        }
    }
}

} // verus!
