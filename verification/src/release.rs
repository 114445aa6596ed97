//! The release metadata the registry publishes, reduced to the two things
//! the pipeline consumes: the version tag and the assets' download URLs.

use vstd::prelude::*;

use crate::errors::UpdateError;

verus! {

/// What the pipeline reads out of one release document: the `tag_name`
/// field, if present as a string, and for each element of the `assets`
/// array its `browser_download_url` field, if present as a string.
#[derive(Clone, Debug)]
pub struct ReleaseMetadata {
    pub tag_name: Option<String>,
    pub asset_urls: Vec<Option<String>>,
}

/// The release document that the body text denotes, if it parses as one.
pub uninterp spec fn spec_parse_release(body: Seq<char>) -> Option<ReleaseMetadata>;

/// Relies on `serde_json::from_str` and the `Value` accessors `get`,
/// `as_str` and `as_array`: whether the body parses, and what its fields
/// hold, depends on the body text alone.
#[verifier::external_body]
fn parse_release_json(body: &str) -> (r: Option<ReleaseMetadata>)
    ensures
        r == spec_parse_release(body@),
{
    let v: serde_json::Value = match serde_json::from_str(body) {
        Ok(v) => v,
        Err(_) => return None,
    };
    let tag_name = v.get("tag_name").and_then(|t| t.as_str()).map(|s| s.to_string());
    let asset_urls = match v.get("assets").and_then(|a| a.as_array()) {
        Some(arr) => arr
            .iter()
            .map(|a| a.get("browser_download_url").and_then(|u| u.as_str()).map(|s| s.to_string()))
            .collect(),
        None => Vec::new(),
    };
    Some(ReleaseMetadata { tag_name, asset_urls })
}

/// Parses the registry's response body into release metadata. A body that
/// is not a well-formed document is a transport-level fault, `Download`;
/// missing or mistyped fields are not an error here (they surface when the
/// metadata is consumed).
pub fn parse_release(body: &str) -> (r: Result<ReleaseMetadata, UpdateError>)
    ensures
        match r {
            Ok(m) => spec_parse_release(body@) == Some(m),
            Err(e) => e == UpdateError::Download && spec_parse_release(body@) is None,
        },
{
    match parse_release_json(body) {
        Some(m) => Ok(m),
        None => Err(UpdateError::Download),
    }
}

/// The first asset's download URL, if the release lists an asset and that
/// asset carries a URL.
pub open spec fn spec_first_asset_url(m: ReleaseMetadata) -> Option<String> {
    if m.asset_urls@.len() > 0 {
        m.asset_urls@[0]
    } else {
        None
    }
}

/// The version tag the release carries, or the empty sequence if the
/// document had none: a missing tag compares as the least possible tag, so
/// such a release never counts as newer.
pub open spec fn spec_tag_or_empty(m: ReleaseMetadata) -> Seq<char> {
    match m.tag_name {
        Some(t) => t@,
        None => Seq::<char>::empty(),
    }
}

impl ReleaseMetadata {
    /// The release's version tag, or `""` if the document had none.
    pub fn tag_or_empty(&self) -> (r: &str)
        ensures
            r@ == spec_tag_or_empty(*self),
    {
        match &self.tag_name {
            Some(t) => t.as_str(),
            None => {
                let empty = "";
                proof {
                    reveal_strlit("");
                    assert(empty@ =~= Seq::<char>::empty());
                }
                empty
            },
        }
    }

    /// The URL the release's first asset is downloaded from. A release with
    /// no assets, or whose first asset carries no URL, has no binary to
    /// offer: `InvalidBinary`.
    pub fn first_asset_url(&self) -> (r: Result<String, UpdateError>)
        ensures
            match r {
                Ok(url) => spec_first_asset_url(*self) == Some(url),
                Err(e) => e == UpdateError::InvalidBinary && spec_first_asset_url(*self) is None,
            },
    {
        if self.asset_urls.len() == 0 {
            return Err(UpdateError::InvalidBinary);
        }
        match &self.asset_urls[0] {
            Some(url) => Ok(url.clone()),
            None => Err(UpdateError::InvalidBinary),
        }
    }
}

} // verus!
