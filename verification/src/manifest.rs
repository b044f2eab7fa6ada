//! What the resolver reads of an HLS playlist: the entries, in order, each
//! with its reference and, for a segment, its duration.
//!
//! The playlist grammar is the `m3u8-rs` crate's. What its parser returns
//! is a function of the body handed to it, so that result has a name here.
//! The parser reads a duration into a single-precision number. That number
//! is carried as its bits, and counted out in milliseconds here.

use vstd::arithmetic::div_mod::lemma_basic_div;
use vstd::prelude::*;

verus! {

/// One segment of a media playlist.
#[derive(Debug, Clone, PartialEq, Eq)]
pub struct Segment {
    /// The reference to the segment's audio.
    pub uri: String,
    /// The seconds that the segment plays for: the bits of the
    /// single-precision number that stands for them.
    pub duration_bits: u32,
}

/// A parsed playlist.
#[derive(Debug, Clone, PartialEq, Eq)]
pub enum Manifest {
    /// A media playlist: the segments to play, in order.
    Media { segments: Vec<Segment> },
    /// A master playlist: a reference to each variant, in order.
    Master { variants: Vec<String> },
}

/// A segment as a mathematical value.
pub struct SegmentModel {
    pub uri: Seq<char>,
    pub duration_bits: u32,
}

impl SegmentModel {
    /// The milliseconds that the segment plays for, if its duration is a
    /// span of time.
    pub open spec fn millis(self) -> Option<nat> {
        span_millis(self.duration_bits)
    }
}

/// A playlist as a mathematical value.
pub enum ManifestModel {
    Media { segments: Seq<SegmentModel> },
    Master { variants: Seq<Seq<char>> },
}

impl View for Segment {
    type V = SegmentModel;

    open spec fn view(&self) -> SegmentModel {
        SegmentModel { uri: self.uri@, duration_bits: self.duration_bits }
    }
}

impl DeepView for Segment {
    type V = SegmentModel;

    open spec fn deep_view(&self) -> SegmentModel {
        self@
    }
}

impl View for Manifest {
    type V = ManifestModel;

    open spec fn view(&self) -> ManifestModel {
        match self {
            Manifest::Media { segments } => ManifestModel::Media { segments: segments.deep_view() },
            Manifest::Master { variants } => ManifestModel::Master {
                variants: variants.deep_view(),
            },
        }
    }
}

impl DeepView for Manifest {
    type V = ManifestModel;

    open spec fn deep_view(&self) -> ManifestModel {
        self@
    }
}

/// The playlist that the bytes `body` parse to, if they parse: each entry
/// with its reference, and each segment with the bits of the
/// single-precision number that its duration was read into.
pub uninterp spec fn hls_manifest(body: Seq<u8>) -> Option<ManifestModel>;

/// `m3u8_rs::parse_playlist_res`, with the playlist handed back as the
/// references of its entries and the bits of its segments' durations.
/// Claims that the outcome is `hls_manifest` of the body.
#[verifier::external_body]
pub(crate) fn parse_manifest(body: &[u8]) -> (manifest: Option<Manifest>)
    ensures
        manifest.deep_view() == hls_manifest(body@),
{
    match m3u8_rs::parse_playlist_res(body) {
        Ok(m3u8_rs::Playlist::MediaPlaylist(list)) => Some(Manifest::Media {
            segments: list.segments.into_iter().map(|s| Segment {
                uri: s.uri,
                duration_bits: s.duration.to_bits(),
            }).collect(),
        }),
        Ok(m3u8_rs::Playlist::MasterPlaylist(list)) => Some(Manifest::Master {
            variants: list.variants.into_iter().map(|v| v.uri).collect(),
        }),
        Err(_) => None,
    }
}

/// Two to the power of `k`.
pub open spec fn two_to(k: nat) -> nat
    decreases k,
{
    if k == 0 {
        1
    } else {
        2 * two_to((k - 1) as nat)
    }
}

/// The milliseconds in the seconds that the single-precision number with
/// the bits `bits` stands for, rounded to the nearest, a half upwards.
///
/// The number is its significand times a power of two: the low 23 bits,
/// with a leading one unless the 8 bits above them are all zero, times two
/// to the power of those 8 bits less 150. A number below zero, an infinite
/// one, one that is no number, and one of two to the power of 53 or more
/// stand for no span of time.
pub open spec fn span_millis(bits: u32) -> Option<nat> {
    let exponent = (bits / 0x80_0000) % 0x100;
    let fraction = bits % 0x80_0000;
    if bits >= 0x8000_0000 || exponent > 179 {
        None
    } else {
        let significand = if exponent == 0 {
            fraction as nat
        } else {
            (fraction + 0x80_0000) as nat
        };
        let thousandths = significand * 1000;
        if exponent >= 150 {
            Some(thousandths * two_to((exponent - 150) as nat))
        } else {
            let down = if exponent == 0 {
                149nat
            } else {
                (150 - exponent) as nat
            };
            Some((thousandths + two_to((down - 1) as nat)) / two_to(down))
        }
    }
}

/// Powers of two grow with their exponent.
proof fn lemma_two_to_grows(low: nat, high: nat)
    requires
        low <= high,
    ensures
        two_to(low) <= two_to(high),
        two_to(low) > 0,
    decreases high,
{
    if low < high {
        lemma_two_to_grows(low, (high - 1) as nat);
    } else if low > 0 {
        lemma_two_to_grows((low - 1) as nat, (low - 1) as nat);
    }
}

/// Two to the power of 36.
proof fn lemma_two_to_36()
    ensures
        two_to(36) == 0x10_0000_0000,
{
    reveal_with_fuel(two_to, 37);
}

/// Computes two to the power of `k`.
fn power_of_two(k: u32) -> (power: u64)
    requires
        k <= 36,
    ensures
        power == two_to(k as nat),
        0 < power <= 0x10_0000_0000,
{
    let mut power: u64 = 1;
    let mut i: u32 = 0;
    while i < k
        invariant
            i <= k <= 36,
            power == two_to(i as nat),
            0 < power <= 0x10_0000_0000,
        decreases k - i,
    {
        proof {
            lemma_two_to_grows((i + 1) as nat, 36);
            lemma_two_to_36();
        }
        power = power * 2;
        i = i + 1;
    }
    power
}

/// Counts out, in milliseconds, the seconds that the single-precision
/// number with the bits `bits` stands for.
pub fn millis_of(bits: u32) -> (millis: Option<u64>)
    ensures
        match span_millis(bits) {
            Some(span) => millis == Some(span as u64) && span <= u64::MAX,
            None => millis is None,
        },
{
    let exponent: u32 = (bits / 0x80_0000) % 0x100;
    let fraction: u32 = bits % 0x80_0000;
    if bits >= 0x8000_0000 || exponent > 179 {
        return None;
    }
    let significand: u64 = if exponent == 0 {
        fraction as u64
    } else {
        fraction as u64 + 0x80_0000
    };
    let thousandths: u64 = significand * 1000;
    if exponent >= 150 {
        let power = power_of_two(exponent - 150);
        proof {
            lemma_two_to_grows((exponent - 150) as nat, 29);
            assert(two_to(29) == 0x2000_0000) by {
                reveal_with_fuel(two_to, 30);
            }
            assert(thousandths * power <= 0x3_E800_0000 * 0x2000_0000) by (nonlinear_arith)
                requires
                    thousandths <= 0x3_E800_0000,
                    power <= 0x2000_0000,
            ;
        }
        Some(thousandths * power)
    } else {
        let down: u32 = if exponent == 0 {
            149
        } else {
            150 - exponent
        };
        if down > 36 {
            proof {
                lemma_two_to_36();
                lemma_two_to_grows(36, (down - 1) as nat);
                let half = two_to((down - 1) as nat);
                assert(two_to(down as nat) == 2 * half);
                lemma_basic_div((thousandths + half) as int, (2 * half) as int);
            }
            Some(0)
        } else {
            let half = power_of_two(down - 1);
            proof {
                assert(two_to(down as nat) == 2 * half);
            }
            Some((thousandths + half) / (half * 2))
        }
    }
}

} // verus!
