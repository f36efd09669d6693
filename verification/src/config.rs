//! The configuration selector. Voice capture prefers a small fixed sample
//! rate, so selection runs in three stages: a mono configuration whose rate
//! range contains the voice rate, then any configuration whose range
//! contains it (both pinned to the voice rate), and finally the device's
//! reported default configuration, unmodified.

use crate::host::{CaptureConfig, ConfigRange, DeviceSnapshot};
use crate::VOICE_SAMPLE_RATE;
use vstd::prelude::*;
use vstd::string::StringExecFns;

verus! {

/// Whether a supported range can serve voice capture: its rate range
/// contains the voice rate, and, when `mono_only`, it offers one channel.
pub open spec fn voice_match(c: ConfigRange, mono_only: bool) -> bool {
    &&& mono_only ==> c.channels == 1
    &&& c.min_sample_rate <= VOICE_SAMPLE_RATE
    &&& c.max_sample_rate >= VOICE_SAMPLE_RATE
}

/// The range pinned to the voice rate, keeping its channels and format.
pub open spec fn spec_pin_voice(c: ConfigRange) -> CaptureConfig {
    CaptureConfig {
        sample_rate: VOICE_SAMPLE_RATE,
        channels: c.channels,
        sample_format: c.sample_format,
    }
}

/// The first supported range that can serve voice capture, if any.
pub open spec fn spec_first_voice(ranges: Seq<ConfigRange>, mono_only: bool) -> Option<ConfigRange>
    decreases ranges.len(),
{
    if ranges.len() == 0 {
        None
    } else if voice_match(ranges[0], mono_only) {
        Some(ranges[0])
    } else {
        spec_first_voice(ranges.drop_first(), mono_only)
    }
}

/// The configuration chosen for a device, or the exact error text:
/// mono at the voice rate, else any channel count at the voice rate,
/// else the device's default configuration.
pub open spec fn spec_optimal_config(dev: DeviceSnapshot) -> Result<CaptureConfig, Seq<char>> {
    match dev.supported {
        Err(e) => Err(e@),
        Ok(ranges) => if ranges@.len() == 0 {
            Err("No supported input configurations found"@)
        } else {
            match spec_first_voice(ranges@, true) {
                Some(c) => Ok(spec_pin_voice(c)),
                None => match spec_first_voice(ranges@, false) {
                    Some(c) => Ok(spec_pin_voice(c)),
                    None => match dev.default_config {
                        Ok(c) => Ok(c),
                        Err(e) => Err(e@),
                    },
                },
            }
        },
    }
}

/// Scans the supported ranges for the first voice-friendly one, pinned to
/// the voice rate.
pub fn find_voice_friendly_config(ranges: &Vec<ConfigRange>, mono_only: bool) -> (r: Option<
    CaptureConfig,
>)
    ensures
        match r {
            Some(c) => spec_first_voice(ranges@, mono_only) matches Some(rg) && c == spec_pin_voice(
                rg,
            ),
            None => spec_first_voice(ranges@, mono_only) is None,
        },
{
    let mut i: usize = 0;
    proof {
        assert(ranges@.skip(0) =~= ranges@);
    }
    while i < ranges.len()
        invariant
            i <= ranges.len(),
            spec_first_voice(ranges@.skip(i as int), mono_only) == spec_first_voice(
                ranges@,
                mono_only,
            ),
        decreases ranges.len() - i,
    {
        let c = ranges[i];
        proof {
            assert(ranges@.skip(i as int)[0] == ranges@[i as int]);
        }
        let rate_ok = c.min_sample_rate <= VOICE_SAMPLE_RATE && c.max_sample_rate
            >= VOICE_SAMPLE_RATE;
        let chan_ok = !mono_only || c.channels == 1;
        if rate_ok && chan_ok {
            return Some(
                CaptureConfig {
                    sample_rate: VOICE_SAMPLE_RATE,
                    channels: c.channels,
                    sample_format: c.sample_format,
                },
            );
        }
        proof {
            assert(ranges@.skip(i as int).drop_first() =~= ranges@.skip(i + 1));
        }
        i += 1;
    }
    proof {
        assert(ranges@.skip(ranges@.len() as int) =~= Seq::<ConfigRange>::empty());
    }
    None
}

/// Chooses the capture configuration for a device by the three-stage
/// precedence, or reports why none could be chosen.
pub fn get_optimal_config(dev: &DeviceSnapshot) -> (r: Result<CaptureConfig, String>)
    ensures
        match r {
            Ok(c) => spec_optimal_config(*dev) == Ok::<CaptureConfig, Seq<char>>(c),
            Err(e) => spec_optimal_config(*dev) matches Err(m) && m == e@,
        },
{
    match &dev.supported {
        Err(e) => Err(e.clone()),
        Ok(ranges) => {
            if ranges.len() == 0 {
                return Err(String::from_str("No supported input configurations found"));
            }
            match find_voice_friendly_config(ranges, true) {
                Some(c) => Ok(c),
                None => match find_voice_friendly_config(ranges, false) {
                    Some(c) => Ok(c),
                    None => match &dev.default_config {
                        Ok(c) => Ok(*c),
                        Err(e) => Err(e.clone()),
                    },
                },
            }
        },
    }
}

} // verus!
