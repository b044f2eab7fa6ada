//! Turning a station address into a playback plan.
//!
//! The resolver fetches nothing. It says which resource it needs next, and
//! is handed what was fetched: a playlist address takes one such exchange
//! for each playlist on the way to the audio, a direct address none.

use crate::address::{parse_station, resolved_reference};
use crate::manifest::{hls_manifest, millis_of, parse_manifest, Manifest, ManifestModel};
use crate::plan::{PlanModel, PlaybackPlan, PlaylistError};
use crate::station::{AddressKind, StationTarget, TargetModel};
use crate::text::{first_nonblank, first_nonblank_line};
use vstd::prelude::*;

verus! {

/// The number of playlists that one resolution reads at most, the first
/// included: a chain of master playlists that is longer names nothing.
pub const MAX_DEPTH: u32 = 8;

/// Where a resolution stands.
#[derive(Debug, PartialEq, Eq)]
pub enum Resolution {
    /// The playlist at `url` is needed; `depth` playlists were read before
    /// it. Its body goes to `resolve_manifest`, with both.
    NeedManifest { url: String, depth: u32 },
    /// The redirect list at `url` is needed. Its text goes to
    /// `resolve_redirect`.
    NeedRedirect { url: String },
    /// The plan is made.
    Resolved(PlaybackPlan),
    /// No plan can be made.
    Failed(PlaylistError),
}

/// A resolution as a mathematical value.
pub enum ResolutionModel {
    NeedManifest { url: Seq<char>, depth: nat },
    NeedRedirect { url: Seq<char> },
    Resolved(PlanModel),
    Failed(PlaylistError),
}

impl View for Resolution {
    type V = ResolutionModel;

    open spec fn view(&self) -> ResolutionModel {
        match self {
            Resolution::NeedManifest { url, depth } => ResolutionModel::NeedManifest {
                url: url@,
                depth: *depth as nat,
            },
            Resolution::NeedRedirect { url } => ResolutionModel::NeedRedirect { url: url@ },
            Resolution::Resolved(plan) => ResolutionModel::Resolved(plan@),
            Resolution::Failed(error) => ResolutionModel::Failed(*error),
        }
    }
}

/// How the resolution of `target` begins: a playlist address asks for its
/// resource, any other address is the stream itself, at the configured
/// interval.
pub open spec fn begun(target: TargetModel) -> ResolutionModel {
    match target.kind() {
        AddressKind::Manifest => ResolutionModel::NeedManifest { url: target.address, depth: 0 },
        AddressKind::RedirectList => ResolutionModel::NeedRedirect { url: target.address },
        AddressKind::Direct => ResolutionModel::Resolved(
            PlanModel::Continuous { stream: target.address, interval: target.interval_millis() },
        ),
    }
}

/// What follows from `manifest`, the playlist that was fetched from `url`
/// after `depth` others.
///
/// A media playlist resolves to its first segment, joined to `url`, with
/// that segment's duration; a first segment whose duration is no span of
/// time, or rounds to no millisecond at all, makes the playlist malformed.
/// A master playlist asks for its first variant, joined to `url`, unless
/// the chain has reached `MAX_DEPTH`. A playlist without entries, and a
/// chain that long, name nothing to play.
pub open spec fn manifest_outcome(manifest: ManifestModel, url: Seq<char>, depth: nat)
    -> ResolutionModel {
    match manifest {
        ManifestModel::Media { segments } => if segments.len() == 0 {
            ResolutionModel::Failed(PlaylistError::Empty)
        } else {
            match (segments[0].millis(), resolved_reference(segments[0].uri, url)) {
                (Some(duration), Some(leaf)) if duration > 0 => ResolutionModel::Resolved(
                    PlanModel::Segmented { leaf, duration },
                ),
                _ => ResolutionModel::Failed(PlaylistError::ParseError),
            }
        },
        ManifestModel::Master { variants } => if variants.len() == 0 || depth + 1 >= MAX_DEPTH {
            ResolutionModel::Failed(PlaylistError::Empty)
        } else {
            match resolved_reference(variants[0], url) {
                Some(next) => ResolutionModel::NeedManifest { url: next, depth: depth + 1 },
                None => ResolutionModel::Failed(PlaylistError::ParseError),
            }
        },
    }
}

/// What follows from `body`, the bytes that were fetched from `url` after
/// `depth` playlists, in the resolution of `target`: a target whose address
/// names no manifest has none to read, bytes that the parser rejects are
/// malformed, and a playlist has the outcome that `manifest_outcome` gives.
pub open spec fn body_outcome(target: TargetModel, url: Seq<char>, depth: nat, body: Seq<u8>)
    -> ResolutionModel {
    if target.kind() != AddressKind::Manifest {
        ResolutionModel::Failed(PlaylistError::NotAPlaylist)
    } else {
        match hls_manifest(body) {
            Some(manifest) => manifest_outcome(manifest, url, depth),
            None => ResolutionModel::Failed(PlaylistError::ParseError),
        }
    }
}

/// What follows from `text`, the redirect list of `target`: a target whose
/// address names no redirect list has none to read; the first line that is
/// not blank is the stream, at the configured interval; and a list without
/// such a line names nothing to play.
pub open spec fn redirect_outcome(target: TargetModel, text: Seq<char>) -> ResolutionModel {
    if target.kind() != AddressKind::RedirectList {
        ResolutionModel::Failed(PlaylistError::NotAPlaylist)
    } else {
        match first_nonblank_line(text) {
            Some(line) => ResolutionModel::Resolved(
                PlanModel::Continuous { stream: line, interval: target.interval_millis() },
            ),
            None => ResolutionModel::Failed(PlaylistError::Empty),
        }
    }
}

/// Begins the resolution of `target`. Nothing is kept from an earlier
/// resolution: a playlist address is read anew each time.
pub fn resolve(target: &StationTarget) -> (resolution: Resolution)
    ensures
        resolution@ == begun(target@),
        resolution@ matches ResolutionModel::Resolved(plan) ==> plan.cadence() > 0,
{
    match target.kind() {
        AddressKind::Manifest => Resolution::NeedManifest {
            url: target.address().to_owned(),
            depth: 0,
        },
        AddressKind::RedirectList => Resolution::NeedRedirect { url: target.address().to_owned() },
        AddressKind::Direct => stream_plan(target.address().to_owned(), target),
    }
}

/// The plan to read `stream` at the interval of `target`.
fn stream_plan(stream: String, target: &StationTarget) -> (resolution: Resolution)
    ensures
        resolution@ == ResolutionModel::Resolved(
            PlanModel::Continuous { stream: stream@, interval: target@.interval_millis() },
        ),
        target@.interval_millis() > 0,
{
    match PlaybackPlan::continuous(stream, target.interval_millis()) {
        Some(plan) => Resolution::Resolved(plan),
        None => Resolution::Failed(PlaylistError::ParseError),
    }
}

/// Continues a resolution with `manifest`, the playlist that was fetched
/// from `url` after `depth` others.
pub fn follow_manifest(manifest: &Manifest, url: &str, depth: u32) -> (resolution: Resolution)
    ensures
        resolution@ == manifest_outcome(manifest@, url@, depth as nat),
        resolution@ matches ResolutionModel::Resolved(plan) ==> plan.cadence() > 0,
{
    match manifest {
        Manifest::Media { segments } => {
            if segments.len() == 0 {
                return Resolution::Failed(PlaylistError::Empty);
            }
            let first = &segments[0];
            proof {
                assert(segments.deep_view()[0] == first@);
            }
            let duration = match millis_of(first.duration_bits) {
                Some(millis) => millis,
                None => {
                    return Resolution::Failed(PlaylistError::ParseError);
                },
            };
            match parse_station(first.uri.as_str(), url) {
                Ok(leaf) => match PlaybackPlan::segmented(leaf, duration) {
                    Some(plan) => Resolution::Resolved(plan),
                    None => Resolution::Failed(PlaylistError::ParseError),
                },
                Err(_) => Resolution::Failed(PlaylistError::ParseError),
            }
        },
        Manifest::Master { variants } => {
            if variants.len() == 0 || depth >= MAX_DEPTH - 1 {
                return Resolution::Failed(PlaylistError::Empty);
            }
            proof {
                assert(variants.deep_view()[0] == variants@[0]@);
            }
            match parse_station(variants[0].as_str(), url) {
                Ok(next) => Resolution::NeedManifest { url: next, depth: depth + 1 },
                Err(_) => Resolution::Failed(PlaylistError::ParseError),
            }
        },
    }
}

/// Continues the resolution of `target` with `body`, the bytes that were
/// fetched from `url` after `depth` playlists.
pub fn resolve_manifest(target: &StationTarget, url: &str, depth: u32, body: &[u8]) -> (resolution:
    Resolution)
    ensures
        resolution@ == body_outcome(target@, url@, depth as nat, body@),
        resolution@ matches ResolutionModel::Resolved(plan) ==> plan.cadence() > 0,
{
    match target.kind() {
        AddressKind::Manifest => match parse_manifest(body) {
            Some(manifest) => follow_manifest(&manifest, url, depth),
            None => Resolution::Failed(PlaylistError::ParseError),
        },
        _ => Resolution::Failed(PlaylistError::NotAPlaylist),
    }
}

/// Ends the resolution of `target` with `text`, its redirect list.
pub fn resolve_redirect(target: &StationTarget, text: &str) -> (resolution: Resolution)
    ensures
        resolution@ == redirect_outcome(target@, text@),
        resolution@ matches ResolutionModel::Resolved(plan) ==> plan.cadence() > 0,
{
    match target.kind() {
        AddressKind::RedirectList => match first_nonblank(text) {
            Some(line) => stream_plan(line, target),
            None => Resolution::Failed(PlaylistError::Empty),
        },
        _ => Resolution::Failed(PlaylistError::NotAPlaylist),
    }
}

/// Every plan has a cadence above zero: a stream is read at the target's
/// interval, which is above zero, and a segment keeps the duration that
/// its playlist gives it, which makes no plan unless it is above zero.
pub proof fn lemma_cadence_is_positive(
    target: TargetModel,
    text: Seq<char>,
    url: Seq<char>,
    depth: nat,
    manifest: ManifestModel,
    body: Seq<u8>,
)
    requires
        target.valid(),
    ensures
        begun(target) matches ResolutionModel::Resolved(plan) ==> plan.cadence() > 0,
        redirect_outcome(target, text) matches ResolutionModel::Resolved(plan) ==> plan.cadence()
            > 0,
        body_outcome(target, url, depth, body) matches ResolutionModel::Resolved(plan)
            ==> plan.cadence() > 0,
        manifest_outcome(manifest, url, depth) matches ResolutionModel::Resolved(plan) ==> (
        manifest matches ManifestModel::Media { segments } && Some(plan.cadence())
            == segments[0].millis() && plan.cadence() > 0),
{
}

/// A chain of playlists ends: each playlist that is asked for lies one
/// deeper than the one that named it, and none lies at `MAX_DEPTH`.
pub proof fn lemma_chain_is_bounded(manifest: ManifestModel, url: Seq<char>, depth: nat)
    ensures
        manifest_outcome(manifest, url, depth) matches ResolutionModel::NeedManifest {
            depth: next,
            ..
        } ==> next == depth + 1 && next < MAX_DEPTH,
        !(manifest_outcome(manifest, url, depth) is NeedRedirect),
{
}

} // verus!
