//! Stream format negotiation.
//!
//! Given what the device reports about its input capabilities, decide whether
//! the fixed target format (mono, 16 kHz, 16-bit integer samples) can be
//! opened directly, or whether the device's own default configuration must be
//! used and every buffer converted on the fly.  The device query itself is
//! left to the unverified shell, which hands its outcome over as plain
//! values.

use vstd::prelude::*;

use crate::capture::{CHANNELS, SAMPLE_RATE};

verus! {

/// The sample encoding of one supported configuration range, as far as the
/// negotiator cares: signed 16-bit integers match the target, anything else
/// forces conversion.
#[derive(Debug, Clone, Copy, PartialEq, Eq, Structural)]
pub enum SampleEncoding {
    /// Signed 16-bit integer samples.
    Int16,
    /// Any other encoding (other integer widths, floating point, ...).
    Other,
}

/// One supported input configuration range reported by a device: a channel
/// count, a closed range of sample rates, and a sample encoding.
#[derive(Debug, Clone, Copy, PartialEq, Eq, Structural)]
pub struct ConfigRange {
    pub channels: u16,
    pub min_sample_rate: u32,
    pub max_sample_rate: u32,
    pub encoding: SampleEncoding,
}

/// A concrete stream configuration: a channel count and one sample rate.
#[derive(Debug, Clone, Copy, PartialEq, Eq, Structural)]
pub struct StreamSettings {
    pub channels: u16,
    pub sample_rate: u32,
}

/// The outcome of negotiation: the configuration to open the stream with,
/// and whether each buffer must be mixed down and resampled before writing.
#[derive(Debug, Clone, Copy, PartialEq, Eq, Structural)]
pub struct NegotiatedFormat {
    pub settings: StreamSettings,
    pub needs_conversion: bool,
}

/// The fixed target configuration: mono at 16 kHz.
pub open spec fn target_settings() -> StreamSettings {
    StreamSettings { channels: CHANNELS, sample_rate: SAMPLE_RATE }
}

/// Whether one reported range can carry the target format directly: the
/// target channel count, the target rate inside the range, and 16-bit
/// integer samples.
pub open spec fn supports_target(c: ConfigRange) -> bool {
    &&& c.channels == CHANNELS
    &&& c.min_sample_rate <= SAMPLE_RATE
    &&& c.max_sample_rate >= SAMPLE_RATE
    &&& c.encoding == SampleEncoding::Int16
}

/// Whether some reported range can carry the target format directly.
pub open spec fn some_range_supports_target(rs: Seq<ConfigRange>) -> bool {
    exists|i: int| 0 <= i < rs.len() && supports_target(rs[i])
}

/// What negotiation decides, as a function of what the device answered.
///
/// The target format is used directly, with no conversion, when some range
/// supports it — and also when the enumeration failed (`ranges` is `None`),
/// as a best-effort attempt that lets stream construction fail loudly
/// instead of silently giving up.  Otherwise the device's default
/// configuration is used with conversion turned on; only a device that
/// neither supports the target nor reports a default yields `None`.
pub open spec fn negotiate_spec(
    ranges: Option<Seq<ConfigRange>>,
    default: Option<StreamSettings>,
) -> Option<NegotiatedFormat> {
    match ranges {
        None => Some(NegotiatedFormat { settings: target_settings(), needs_conversion: false }),
        Some(rs) => if some_range_supports_target(rs) {
            Some(NegotiatedFormat { settings: target_settings(), needs_conversion: false })
        } else {
            match default {
                Some(d) => Some(NegotiatedFormat { settings: d, needs_conversion: true }),
                None => None,
            }
        },
    }
}

/// Decide the session's stream format.
///
/// `ranges` is the device's enumerated input configuration ranges, `None` if
/// the enumeration itself failed; `default` is the device's default input
/// configuration, `None` if that query failed.  The decision is exactly
/// [`negotiate_spec`] on the same answers.
pub fn negotiate(ranges: Option<&Vec<ConfigRange>>, default: Option<StreamSettings>) -> (r:
    Option<NegotiatedFormat>)
    ensures
        r == negotiate_spec(
            match ranges {
                Some(rs) => Some(rs@),
                None => None::<Seq<ConfigRange>>,
            },
            default,
        ),
{
    match ranges {
        None => Some(
            NegotiatedFormat {
                settings: StreamSettings { channels: CHANNELS, sample_rate: SAMPLE_RATE },
                needs_conversion: false,
            },
        ),
        Some(rs) => {
            let mut i: usize = 0;
            let mut found = false;
            while i < rs.len()
                invariant
                    0 <= i <= rs@.len(),
                    found <==> exists|j: int| 0 <= j < i && supports_target(rs@[j]),
                decreases rs@.len() - i,
            {
                let c = rs[i];
                if c.channels == CHANNELS && c.min_sample_rate <= SAMPLE_RATE
                    && c.max_sample_rate >= SAMPLE_RATE && matches!(
                    c.encoding,
                    SampleEncoding::Int16
                ) {
                    found = true;
                }
                i = i + 1;
            }
            proof {
                if found {
                    let j = choose|j: int| 0 <= j < i && supports_target(rs@[j]);
                    assert(0 <= j < rs@.len() && supports_target(rs@[j]));
                    assert(some_range_supports_target(rs@));
                } else if some_range_supports_target(rs@) {
                    let j = choose|j: int| 0 <= j < rs@.len() && supports_target(rs@[j]);
                    assert(0 <= j < i && supports_target(rs@[j]));
                }
            }
            if found {
                Some(
                    NegotiatedFormat {
                        settings: StreamSettings { channels: CHANNELS, sample_rate: SAMPLE_RATE },
                        needs_conversion: false,
                    },
                )
            } else {
                match default {
                    Some(d) => Some(NegotiatedFormat { settings: d, needs_conversion: true }),
                    None => None,
                }
            }
        },
    }
}

} // verus!
