//! The policy that chooses between embedded artwork and an external image.
//!
//! Reading the tag and searching the disk are left to the caller: it asks
//! `next_cover_step` what to do, performs the lookup it names, reports the
//! result, and asks again until the cover is resolved.
use vstd::prelude::*;
use crate::search::{parent_dir, parent_of, regex_valid, NamePattern};

verus! {

#[verifier::external_type_specification]
#[verifier::external_body]
pub struct ExTempFile(temp_file::TempFile);

/// The cover of a track.
pub enum TrackCover {
    /// Artwork embedded in the track, copied into a temporary file.
    Embedded(temp_file::TempFile),
    /// The path of an image file found on disk.
    External(String),
    /// The track has no cover.
    NoCover,
}

/// The state of one lookup: not attempted yet, attempted without result,
/// or attempted with a result.
pub enum Lookup<T> {
    NotTried,
    Absent,
    Present(T),
}

/// What the caller does next to resolve a cover.
pub enum CoverStep {
    /// Read the artwork embedded in the track.
    ReadEmbedded,
    /// Search the disk for an external image.
    SearchExternal,
    /// The cover is decided.
    Resolved(TrackCover),
}

/// The decision table of the cover policy. Embedded artwork is tried first
/// unless `force_external`; the external search only when the embedded
/// artwork was skipped or absent, and never when `suppress_external`.
pub open spec fn cover_step(
    force_external: bool,
    suppress_external: bool,
    embedded: Lookup<temp_file::TempFile>,
    external: Lookup<String>,
) -> CoverStep {
    if !force_external && embedded is NotTried {
        CoverStep::ReadEmbedded
    } else if !force_external && embedded is Present {
        CoverStep::Resolved(TrackCover::Embedded(embedded->Present_0))
    } else if suppress_external {
        CoverStep::Resolved(TrackCover::NoCover)
    } else {
        match external {
            Lookup::NotTried => CoverStep::SearchExternal,
            Lookup::Present(p) => CoverStep::Resolved(TrackCover::External(p)),
            Lookup::Absent => CoverStep::Resolved(TrackCover::NoCover),
        }
    }
}

/// The next step of resolving a cover, given what the lookups so far gave.
/// A lookup that failed with an error counts as `Absent`.
pub fn next_cover_step(
    force_external: bool,
    suppress_external: bool,
    embedded: Lookup<temp_file::TempFile>,
    external: Lookup<String>,
) -> (r: CoverStep)
    ensures
        r == cover_step(force_external, suppress_external, embedded, external),
{
    if !force_external {
        match embedded {
            Lookup::NotTried => {
                return CoverStep::ReadEmbedded;
            },
            Lookup::Present(f) => {
                return CoverStep::Resolved(TrackCover::Embedded(f));
            },
            Lookup::Absent => {},
        }
    }
    if suppress_external {
        return CoverStep::Resolved(TrackCover::NoCover);
    }
    match external {
        Lookup::NotTried => CoverStep::SearchExternal,
        Lookup::Present(p) => CoverStep::Resolved(TrackCover::External(p)),
        Lookup::Absent => CoverStep::Resolved(TrackCover::NoCover),
    }
}

/// The pattern of external cover file names: ending in `.jpg`, `.jpeg`,
/// `.png` or `.gif`.
pub fn cover_pattern() -> (r: Option<NamePattern>)
    ensures
        r is Some <==> regex_valid(".*\\.(jpg|jpeg|png|gif)$"@),
        r matches Some(p) ==> p@ == ".*\\.(jpg|jpeg|png|gif)$"@,
{
    NamePattern::new(".*\\.(jpg|jpeg|png|gif)$")
}

/// Where the search for an external cover starts: the directory that holds
/// the track, or the track's own path when it has no parent.
pub fn search_start(track_path: &str) -> (r: String)
    ensures
        match parent_of(track_path@) {
            Some(p) => r@ == p,
            None => r@ == track_path@,
        },
{
    match parent_dir(track_path) {
        Some(p) => p,
        None => track_path.to_string(),
    }
}

/// Once every lookup that the policy asks for has been made, the cover is
/// resolved: always one of the three shapes, never an error.
pub proof fn lemma_cover_always_resolves(
    force_external: bool,
    suppress_external: bool,
    embedded: Lookup<temp_file::TempFile>,
    external: Lookup<String>,
)
    requires
        !(embedded is NotTried),
        !(external is NotTried),
    ensures
        cover_step(force_external, suppress_external, embedded, external) is Resolved,
{
}

/// Without `force_external`, embedded artwork wins whatever the other inputs.
pub proof fn lemma_embedded_wins(
    suppress_external: bool,
    art: temp_file::TempFile,
    external: Lookup<String>,
)
    ensures
        cover_step(false, suppress_external, Lookup::Present(art), external) == CoverStep::Resolved(
            TrackCover::Embedded(art),
        ),
{
}

/// With `force_external`, the embedded artwork is neither read nor used.
pub proof fn lemma_forced_never_embedded(
    suppress_external: bool,
    embedded: Lookup<temp_file::TempFile>,
    external: Lookup<String>,
)
    ensures
        !(cover_step(true, suppress_external, embedded, external) is ReadEmbedded),
        !(cover_step(true, suppress_external, embedded, external) matches CoverStep::Resolved(
            TrackCover::Embedded(_),
        )),
{
}

} // verus!
