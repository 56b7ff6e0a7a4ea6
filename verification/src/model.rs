//! Model management decisions: where the speech model lives by default,
//! what a present model directory must contain, how the ensure sequence
//! (verify, download, verify again) proceeds, and the progress arithmetic
//! of the download.
//!
//! The filesystem and network work — reading the cache directory, listing a
//! directory, downloading and unpacking the archive — is done by the
//! surrounding application, which hands these functions the plain values it
//! observed.

use vstd::prelude::*;

use crate::text::str_eq;

verus! {

/// The name of the model directory inside the cache directory.
pub open spec fn model_dir_suffix() -> Seq<char> {
    "/parakeet-writer/parakeet-tdt-0.6b-v3-int8"@
}

/// Where the model lives by default: the model directory inside the user's
/// cache directory, or inside the working directory when no cache directory
/// is known.
pub fn default_model_path(cache_dir: Option<String>) -> (r: String)
    ensures
        cache_dir is Some ==> r@ == cache_dir->0@ + model_dir_suffix(),
        cache_dir is None ==> r@ == "."@ + model_dir_suffix(),
{
    let mut base = match cache_dir {
        Some(c) => c,
        None => ".".to_owned(),
    };
    base.append("/parakeet-writer/parakeet-tdt-0.6b-v3-int8");
    base
}

/// Whether one of the listed names is `pat`.
fn contains_name(names: &Vec<String>, pat: &str) -> (r: bool)
    ensures
        r == names.deep_view().contains(pat@),
{
    let mut i: usize = 0;
    while i < names.len()
        invariant
            i <= names@.len(),
            forall|k: int| 0 <= k < i ==> names.deep_view()[k] != pat@,
        decreases names@.len() - i,
    {
        if str_eq(names[i].as_str(), pat) {
            proof {
                assert(names.deep_view()[i as int] == pat@);
            }
            return true;
        }
        i = i + 1;
    }
    proof {
        assert(!names.deep_view().contains(pat@));
    }
    false
}

/// Whether a directory listing holds every file the model needs: the
/// encoder, the decoder, and the vocabulary.
pub open spec fn model_files_present(names: Seq<Seq<char>>) -> bool {
    names.contains("encoder-model.int8.onnx"@) && names.contains("decoder_joint-model.int8.onnx"@)
        && names.contains("vocab.txt"@)
}

/// Whether the model is present and complete at a path. `listing` holds the
/// names in the model directory, or nothing when the path does not exist or
/// is not a directory.
pub fn verify_model(listing: &Option<Vec<String>>) -> (r: bool)
    ensures
        r == (listing is Some && model_files_present(listing->0.deep_view())),
{
    match listing {
        None => false,
        Some(names) => contains_name(names, "encoder-model.int8.onnx") && contains_name(
            names,
            "decoder_joint-model.int8.onnx",
        ) && contains_name(names, "vocab.txt"),
    }
}

/// Why the model could not be made ready.
pub enum ModelError {
    /// A user-provided path failed verification; nothing is downloaded over
    /// a path the user chose.
    NotFound(String),
    /// The download failed, with the reported cause.
    DownloadFailed(String),
    /// The downloaded tree still fails verification.
    VerificationFailed,
}

/// The plan for making the model ready: the path to verify, and whether the
/// user chose it.
pub struct EnsurePlan {
    /// The model directory to verify.
    pub path: String,
    /// Whether the path was configured rather than defaulted.
    pub user_provided: bool,
}

/// What follows the first verification of the planned path.
pub enum EnsureStep {
    /// The model is ready at this path.
    Ready(String),
    /// The model cannot be made ready.
    Failed(ModelError),
    /// Download the model into this path, then verify again.
    Download(String),
}

/// Begin making the model ready: a configured path is used as given, and
/// otherwise the default path is planned.
pub fn ensure_model(model_path: Option<String>, default_path: String) -> (r: EnsurePlan)
    ensures
        model_path is Some ==> r.path == model_path->0 && r.user_provided,
        model_path is None ==> r.path == default_path && !r.user_provided,
{
    match model_path {
        Some(p) => EnsurePlan { path: p, user_provided: true },
        None => EnsurePlan { path: default_path, user_provided: false },
    }
}

/// Continue after the planned path was verified: a complete model is ready;
/// an incomplete one fails outright when the user chose the path, and is
/// downloaded otherwise.
pub fn ensure_model_after_verify(plan: EnsurePlan, verified: bool) -> (r: EnsureStep)
    ensures
        verified ==> r == EnsureStep::Ready(plan.path),
        !verified && plan.user_provided ==> r == EnsureStep::Failed(
            ModelError::NotFound(plan.path),
        ),
        !verified && !plan.user_provided ==> r == EnsureStep::Download(plan.path),
{
    if verified {
        EnsureStep::Ready(plan.path)
    } else if plan.user_provided {
        EnsureStep::Failed(ModelError::NotFound(plan.path))
    } else {
        EnsureStep::Download(plan.path)
    }
}

/// Conclude after a download: a failed download surfaces its cause, a
/// downloaded tree that verifies is ready, and one that still does not is
/// its own, distinct failure.
pub fn ensure_model_after_download(
    path: String,
    download: Result<(), String>,
    reverified: bool,
) -> (r: Result<String, ModelError>)
    ensures
        download matches Err(m) ==> r == Result::<String, ModelError>::Err(
            ModelError::DownloadFailed(m),
        ),
        download is Ok && reverified ==> r == Result::<String, ModelError>::Ok(path),
        download is Ok && !reverified ==> r == Result::<String, ModelError>::Err(
            ModelError::VerificationFailed,
        ),
{
    match download {
        Err(m) => Err(ModelError::DownloadFailed(m)),
        Ok(()) => if reverified {
            Ok(path)
        } else {
            Err(ModelError::VerificationFailed)
        },
    }
}

/// Download progress in whole percent, rounded down.
pub fn progress_percent(downloaded: u64, total: u64) -> (r: u64)
    requires
        1 <= total,
        downloaded * 100 <= u64::MAX,
    ensures
        r == downloaded * 100 / (total as int),
{
    downloaded * 100 / total
}

/// How many of the progress bar's 20 cells are filled at a given percent:
/// one cell per five percent, all of them from one hundred percent on.
pub fn progress_bar_filled(percent: u64) -> (r: u64)
    ensures
        r == if percent / 5 < 20 {
            percent / 5
        } else {
            20u64
        },
{
    let cells = percent / 5;
    if cells < 20 {
        cells
    } else {
        20
    }
}

} // verus!
