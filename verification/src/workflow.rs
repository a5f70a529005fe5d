//! The two runs, batch and single: their stages, what is checked before any
//! upload, and the generation passes of a batch run.

use vstd::prelude::*;
use crate::config::uses_suffix;
use crate::metadata::{content_uri, is_token_record, token_record, AssetFile, NftMetadata};
use crate::text::{file_stem, stem_of};

verus! {

/// The kind of run.
#[derive(PartialEq, Eq, Structural, Debug, Clone, Copy)]
pub enum RunMode {
    Batch,
    Single,
}

/// A stage of a run. Each stage depends on the one before it.
#[derive(PartialEq, Eq, Structural, Debug, Clone, Copy)]
pub enum Stage {
    ValidateInput,
    UploadImages,
    EnumerateImages,
    GenerateMetadata,
    UploadMetadata,
    PersistRecord,
    Completed,
    Aborted,
}

/// Why a run stops before any upload.
#[derive(PartialEq, Eq, Structural, Debug, Clone, Copy)]
pub enum ValidationError {
    /// The image directory does not exist.
    MissingDirectory,
    /// The image directory holds no file.
    NoImages,
}

/// One generation pass of a batch run.
#[derive(Debug)]
pub struct GenerationPass {
    /// The name of the directory that the pass fills.
    pub directory: String,
    pub with_suffix: bool,
    pub is_dual_version: bool,
    /// Whether the directory is kept after its upload.
    pub retained: bool,
}

/// The stage that follows `stage` in a run of kind `mode`, given whether
/// `stage` succeeded and how many generation passes are still to be made
/// after the current one. A batch run uploads the image folder and then
/// lists it; a single run lists the folder and then uploads the one image.
pub open spec fn stage_after(mode: RunMode, stage: Stage, succeeded: bool, passes_left: nat) -> Stage {
    if !succeeded {
        Stage::Aborted
    } else {
        match stage {
            Stage::ValidateInput => match mode {
                RunMode::Batch => Stage::UploadImages,
                RunMode::Single => Stage::EnumerateImages,
            },
            Stage::UploadImages => match mode {
                RunMode::Batch => Stage::EnumerateImages,
                RunMode::Single => Stage::GenerateMetadata,
            },
            Stage::EnumerateImages => match mode {
                RunMode::Batch => Stage::GenerateMetadata,
                RunMode::Single => Stage::UploadImages,
            },
            Stage::GenerateMetadata => Stage::UploadMetadata,
            Stage::UploadMetadata => if passes_left > 0 {
                Stage::GenerateMetadata
            } else {
                Stage::PersistRecord
            },
            Stage::PersistRecord => Stage::Completed,
            Stage::Completed => Stage::Completed,
            Stage::Aborted => Stage::Aborted,
        }
    }
}

/// `p` is the pass that fills `directory` under the given convention.
pub open spec fn is_pass(
    p: GenerationPass,
    directory: Seq<char>,
    with_suffix: bool,
    is_dual_version: bool,
    retained: bool,
) -> bool {
    &&& p.directory@ == directory
    &&& p.with_suffix == with_suffix
    &&& p.is_dual_version == is_dual_version
    &&& p.retained == retained
}

/// The name of the directory that holds what a run leaves behind.
pub open spec fn output_directory(mode: RunMode, timestamp: Seq<char>) -> Seq<char> {
    match mode {
        RunMode::Batch => "batch-upload-"@ + timestamp,
        RunMode::Single => "single-upload-"@ + timestamp,
    }
}

/// The stage that follows `stage`; see `stage_after`.
pub fn next_stage(mode: RunMode, stage: Stage, succeeded: bool, passes_left: usize) -> (r: Stage)
    ensures
        r == stage_after(mode, stage, succeeded, passes_left as nat),
{
    if !succeeded {
        return Stage::Aborted;
    }
    match stage {
        Stage::ValidateInput => match mode {
            RunMode::Batch => Stage::UploadImages,
            RunMode::Single => Stage::EnumerateImages,
        },
        Stage::UploadImages => match mode {
            RunMode::Batch => Stage::EnumerateImages,
            RunMode::Single => Stage::GenerateMetadata,
        },
        Stage::EnumerateImages => match mode {
            RunMode::Batch => Stage::GenerateMetadata,
            RunMode::Single => Stage::UploadImages,
        },
        Stage::GenerateMetadata => Stage::UploadMetadata,
        Stage::UploadMetadata => if passes_left > 0 {
            Stage::GenerateMetadata
        } else {
            Stage::PersistRecord
        },
        Stage::PersistRecord => Stage::Completed,
        Stage::Completed => Stage::Completed,
        Stage::Aborted => Stage::Aborted,
    }
}

/// A failed stage aborts the run, an aborted run stays aborted, and a run is
/// completed only by persisting its record or by having been complete.
pub proof fn lemma_failure_aborts(mode: RunMode, stage: Stage, succeeded: bool, passes_left: nat)
    ensures
        !succeeded ==> stage_after(mode, stage, succeeded, passes_left) == Stage::Aborted,
        stage == Stage::Aborted ==> stage_after(mode, stage, succeeded, passes_left)
            == Stage::Aborted,
        stage_after(mode, stage, succeeded, passes_left) == Stage::Completed ==> succeeded && (stage
            == Stage::PersistRecord || stage == Stage::Completed),
{
}

/// No stage that uploads follows the validation of the input unless the
/// validation succeeded.
pub proof fn lemma_no_upload_after_failed_validation(mode: RunMode, passes_left: nat)
    ensures
        stage_after(mode, Stage::ValidateInput, false, passes_left) == Stage::Aborted,
        stage_after(RunMode::Single, Stage::EnumerateImages, false, passes_left) == Stage::Aborted,
{
}

/// Checks the image directory of a batch run.
pub fn check_input_directory(present: bool) -> (r: Result<(), ValidationError>)
    ensures
        r == if present {
            Ok::<(), ValidationError>(())
        } else {
            Err::<(), ValidationError>(ValidationError::MissingDirectory)
        },
{
    if present {
        Ok(())
    } else {
        Err(ValidationError::MissingDirectory)
    }
}

/// Picks the image of a single run: the first file of the listing. A missing
/// directory and an empty one are refused.
pub fn select_single_image(present: bool, image_files: &Vec<AssetFile>) -> (r: Result<
    &AssetFile,
    ValidationError,
>)
    ensures
        match r {
            Ok(image) => present && image_files@.len() > 0 && *image == image_files@[0],
            Err(ValidationError::MissingDirectory) => !present,
            Err(ValidationError::NoImages) => present && image_files@.len() == 0,
        },
{
    if !present {
        Err(ValidationError::MissingDirectory)
    } else if image_files.len() == 0 {
        Err(ValidationError::NoImages)
    } else {
        Ok(&image_files[0])
    }
}

impl ValidationError {
    /// The error in words, for the directory `directory`.
    pub fn message(&self, directory: &str) -> (r: String)
        ensures
            r@ == match *self {
                ValidationError::MissingDirectory => "Input directory does not exist: "@
                    + directory@,
                ValidationError::NoImages => "No image files found in "@ + directory@,
            },
    {
        match self {
            ValidationError::MissingDirectory => {
                let mut r: String = String::from_str("Input directory does not exist: ");
                r.append(directory);
                r
            },
            ValidationError::NoImages => {
                let mut r: String = String::from_str("No image files found in ");
                r.append(directory);
                r
            },
        }
    }
}

/// The generation passes of a batch run, in order. A dual-version run makes
/// two: one with suffix, dropped after its upload, and one without, which is
/// kept. Any other run makes one pass, with a suffix where the configured
/// suffix is not empty, and keeps it.
pub fn plan_passes(generate_both_versions: bool, suffix: &str, timestamp: &str) -> (r: Vec<
    GenerationPass,
>)
    ensures
        generate_both_versions ==> r@.len() == 2 && is_pass(
            r@[0],
            "batch_images-metadata-with-suffix-"@ + timestamp@,
            true,
            true,
            false,
        ) && is_pass(
            r@[1],
            "batch_images-metadata-without-suffix-"@ + timestamp@,
            false,
            true,
            true,
        ),
        !generate_both_versions ==> r@.len() == 1 && is_pass(
            r@[0],
            "batch_images-metadata-"@ + timestamp@,
            suffix@.len() > 0,
            false,
            true,
        ),
{
    let mut passes: Vec<GenerationPass> = Vec::new();
    if generate_both_versions {
        let mut with: String = String::from_str("batch_images-metadata-with-suffix-");
        with.append(timestamp);
        let mut without: String = String::from_str("batch_images-metadata-without-suffix-");
        without.append(timestamp);
        passes.push(
            GenerationPass {
                directory: with,
                with_suffix: true,
                is_dual_version: true,
                retained: false,
            },
        );
        passes.push(
            GenerationPass {
                directory: without,
                with_suffix: false,
                is_dual_version: true,
                retained: true,
            },
        );
    } else {
        let mut directory: String = String::from_str("batch_images-metadata-");
        directory.append(timestamp);
        passes.push(
            GenerationPass {
                directory,
                with_suffix: uses_suffix(suffix),
                is_dual_version: false,
                retained: true,
            },
        );
    }
    passes
}

/// The name of the directory that holds what a run leaves behind.
pub fn output_directory_name(mode: RunMode, timestamp: &str) -> (r: String)
    ensures
        r@ == output_directory(mode, timestamp@),
{
    let mut r: String = match mode {
        RunMode::Batch => String::from_str("batch-upload-"),
        RunMode::Single => String::from_str("single-upload-"),
    };
    r.append(timestamp);
    r
}

/// The metadata of a single run: the record of the given token, or of token
/// 1 where none is given, whose image is the uploaded image itself.
pub fn single_metadata(token_id: Option<u64>, image_cid: &str) -> (m: NftMetadata)
    ensures
        is_token_record(
            m,
            match token_id {
                Some(t) => t,
                None => 1,
            },
            content_uri(image_cid@),
        ),
{
    let id: u64 = match token_id {
        Some(t) => t,
        None => 1,
    };
    let mut image: String = String::from_str("ipfs://");
    image.append(image_cid);
    token_record(id, image)
}

/// The name of the local metadata file of a single run: the image's stem
/// with `.json`.
pub fn single_metadata_file_name(image_name: &str) -> (r: String)
    ensures
        r@ == stem_of(image_name@) + ".json"@,
{
    let mut r: String = file_stem(image_name);
    r.append(".json");
    r
}

} // verus!
