//! The orchestrator's one decision: given the resolved release metadata and
//! the running build's version, either stand pat, or name the URL to
//! download, or fail because the newer release offers no usable asset.

use vstd::prelude::*;

use crate::errors::UpdateError;
use crate::release::ReleaseMetadata;
use crate::release::spec_first_asset_url;
use crate::release::spec_tag_or_empty;
use crate::version::spec_version_is_newer;
use crate::version::version_is_newer;

verus! {

/// What the pipeline should do next after resolving the latest release.
#[derive(Clone, Debug)]
pub enum UpdateAction {
    /// The published release is not newer than the running build; stop.
    UpToDate,
    /// Download the archive at this URL and install its binary.
    Download(String),
}

/// Terminal result of one whole update run, as reported to the embedding
/// application: it relaunches on `Updated`, and keeps running the existing
/// binary on `UpToDate` or any failure.
#[derive(Clone, Copy, Debug, PartialEq, Eq, Structural)]
pub enum UpdateOutcome {
    UpToDate,
    Updated,
    Failed(UpdateError),
}

/// Decides the pipeline's next step from the resolved release metadata and
/// the running build's version string. The release's tag (minus one leading
/// `v`; the empty tag if it had none) is compared lexicographically against
/// `current`: not newer is `UpToDate` and nothing is downloaded; newer with
/// a first-asset URL is a download of exactly that URL; newer without one
/// fails as `InvalidBinary` before any download.
pub fn plan_update(meta: &ReleaseMetadata, current: &str) -> (r: Result<
    UpdateAction,
    UpdateError,
>)
    ensures
        match r {
            Ok(UpdateAction::UpToDate) => !spec_version_is_newer(
                spec_tag_or_empty(*meta),
                current@,
            ),
            Ok(UpdateAction::Download(url)) => spec_version_is_newer(
                spec_tag_or_empty(*meta),
                current@,
            ) && spec_first_asset_url(*meta) == Some(url),
            Err(e) => e == UpdateError::InvalidBinary && spec_version_is_newer(
                spec_tag_or_empty(*meta),
                current@,
            ) && spec_first_asset_url(*meta) is None,
        },
{
    let tag = meta.tag_or_empty();
    if !version_is_newer(tag, current) {
        return Ok(UpdateAction::UpToDate);
    }
    match meta.first_asset_url() {
        Ok(url) => Ok(UpdateAction::Download(url)),
        Err(e) => Err(e),
    }
}

} // verus!
