//! The failure taxonomy of the update pipeline.

use vstd::prelude::*;

verus! {

/// Terminal failure of an update attempt.
///
/// - `Timeout(n)`: the retry budget was exhausted on transport-level errors,
///   after `n` attempts.
/// - `RateLimited`: the retry budget was exhausted while the server kept
///   answering with a rate-limit status, or the server answered with some
///   other non-success status.
/// - `Download`: a transport-level fault not otherwise classified (for
///   example, the response body could not be read or parsed).
/// - `Extraction`: the downloaded archive could not be opened, decompressed,
///   or unpacked.
/// - `InvalidBinary`: the release metadata carries no usable asset URL, or no
///   entry of the archive matches the binary naming convention.
#[derive(Clone, Copy, Debug, PartialEq, Eq, Structural)]
pub enum UpdateError {
    Timeout(u32),
    RateLimited,
    Download,
    Extraction,
    InvalidBinary,
}

} // verus!
