//! The decisions of an audio processor around a native `webrtc::AudioProcessing` instance.
//!
//! The native instance itself lives with the caller, who performs the native calls; a
//! [`Processor`] decides whether a freshly created instance is usable, which configuration the
//! instance gets, which stream delay precedes each capture frame, and whether a frame has the
//! shape the instance expects.
use crate::config::{Config, EchoCanceller};
use crate::convert::native_config;
use crate::error::{error_for_code, Error};
use crate::native;
use vstd::prelude::*;

verus! {

/// The slot value that stands for "no stream delay set". It cannot be represented as an `i32`,
/// unlike every delay that a configuration can carry.
pub const STREAM_DELAY_UNSET: u32 = 0xFFFF_FFFFu32;

/// What the native constructor reported: its status code, and whether it handed back an
/// instance at all.
#[derive(Clone, Copy, Debug, PartialEq, Eq, Structural)]
pub struct NativeCreation {
    /// The status code of the native constructor; 0 reports success.
    pub error_code: i32,
    /// Whether the constructor returned an instance (a non-null pointer).
    pub has_handle: bool,
}

/// The stream delay in ms that a configuration asks for, if any: Mobile always carries one,
/// Full carries one only when the caller set it.
pub open spec fn configured_stream_delay(config: Config) -> Option<u16> {
    match config.echo_canceller {
        Some(EchoCanceller::Full { stream_delay_ms }) => stream_delay_ms,
        Some(EchoCanceller::Mobile { stream_delay_ms }) => Some(stream_delay_ms),
        None => None,
    }
}

/// How a stream delay is kept: its value in ms, or [`STREAM_DELAY_UNSET`].
pub open spec fn delay_slot(delay: Option<u16>) -> u32 {
    match delay {
        Some(d) => d as u32,
        None => STREAM_DELAY_UNSET,
    }
}

/// The delay that a kept slot value stands for: the value itself when it fits an `i32`,
/// otherwise none.
pub open spec fn slot_delay(slot: u32) -> Option<i32> {
    if slot <= i32::MAX {
        Some(slot as i32)
    } else {
        None
    }
}

/// [`Processor`] provides access to WebRTC's audio processing, e.g. echo cancellation, noise
/// removal, automatic gain control and so on. It holds the sample rate the native instance was
/// created for and the stream delay to apply before every capture frame.
#[derive(Debug)]
pub struct Processor {
    sample_rate_hz: u32,
    /// The stream delay taken from the last configuration, in ms, or [`STREAM_DELAY_UNSET`].
    stream_delay_ms: u32,
}

impl Processor {
    /// The kept stream delay is a configured delay (at most `u16::MAX` ms) or
    /// [`STREAM_DELAY_UNSET`].
    #[verifier::type_invariant]
    closed spec fn well_formed(&self) -> bool {
        self.stream_delay_ms == STREAM_DELAY_UNSET || self.stream_delay_ms <= 0xFFFF
    }

    /// The sample rate of the capture and render frames.
    pub closed spec fn sample_rate(&self) -> u32 {
        self.sample_rate_hz
    }

    /// The kept stream delay slot: a delay in ms, or [`STREAM_DELAY_UNSET`].
    pub closed spec fn stream_delay_slot(&self) -> u32 {
        self.stream_delay_ms
    }

    /// Accepts a freshly created native instance for `sample_rate_hz`. The constructor's status
    /// code is checked first; a successful constructor that returned no instance yields
    /// [`Error::NullPointer`]. A new processor has no stream delay set.
    pub fn new(sample_rate_hz: u32, created: NativeCreation) -> (r: Result<Processor, Error>)
        ensures
            created.error_code != 0 ==> r == Err::<Processor, Error>(error_for_code(created.error_code)),
            created.error_code == 0 && !created.has_handle ==> r == Err::<Processor, Error>(Error::NullPointer),
            created.error_code == 0 && created.has_handle ==> {
                &&& r is Ok
                &&& r->Ok_0.sample_rate() == sample_rate_hz
                &&& r->Ok_0.stream_delay_slot() == STREAM_DELAY_UNSET
            },
    {
        if created.error_code != 0 {
            return Err(Error::from(created.error_code));
        }
        if !created.has_handle {
            return Err(Error::NullPointer);
        }
        Ok(Processor { sample_rate_hz, stream_delay_ms: STREAM_DELAY_UNSET })
    }

    /// The sample rate of the capture and render frames, in Hz.
    pub fn sample_rate_hz(&self) -> (r: u32)
        ensures
            r == self.sample_rate(),
    {
        self.sample_rate_hz
    }

    /// The number of (possibly multichannel) samples per frame: frames are 10 ms long.
    pub fn num_samples_per_frame(&self) -> (r: usize)
        ensures
            r == self.sample_rate() / 100,
    {
        (self.sample_rate_hz / 100) as usize
    }

    /// Takes a new configuration: keeps its stream delay for the following capture frames and
    /// returns the native configuration to hand to the instance.
    pub fn set_config(&mut self, config: Config) -> (r: native::Config)
        ensures
            r == native_config(config),
            final(self).sample_rate() == old(self).sample_rate(),
            final(self).stream_delay_slot() == delay_slot(configured_stream_delay(config)),
    {
        let stream_delay_ms_opt = match config.echo_canceller {
            Some(EchoCanceller::Full { stream_delay_ms }) => stream_delay_ms,
            Some(EchoCanceller::Mobile { stream_delay_ms }) => Some(stream_delay_ms),
            None => None,
        };
        self.stream_delay_ms = match stream_delay_ms_opt {
            Some(d) => d as u32,
            None => STREAM_DELAY_UNSET,
        };
        native::Config::from_config(config)
    }

    /// The stream delay to set on the native instance before the next capture frame, if any.
    pub fn capture_stream_delay(&self) -> (r: Option<i32>)
        ensures
            r == slot_delay(self.stream_delay_slot()),
            r is None <==> self.stream_delay_slot() == STREAM_DELAY_UNSET,
    {
        proof {
            use_type_invariant(self);
        }
        if self.stream_delay_ms <= 0x7FFF_FFFFu32 {
            Some(self.stream_delay_ms as i32)
        } else {
            None
        }
    }

    /// Whether a non-interleaved frame with channels of the given lengths has exactly
    /// [`Self::num_samples_per_frame`] samples in every channel.
    pub fn frame_fits(&self, channel_lengths: &[usize]) -> (r: bool)
        ensures
            r == (forall|i: int|
                0 <= i < channel_lengths@.len() ==> #[trigger] channel_lengths@[i] == self.sample_rate() / 100),
    {
        let expected = self.num_samples_per_frame();
        let mut i: usize = 0;
        while i < channel_lengths.len()
            invariant
                expected == self.sample_rate() / 100,
                i <= channel_lengths@.len(),
                forall|j: int| 0 <= j < i ==> #[trigger] channel_lengths@[j] == expected,
            decreases channel_lengths@.len() - i,
        {
            if channel_lengths[i] != expected {
                return false;
            }
            i = i + 1;
        }
        true
    }
}

/// A processor applies, before each capture frame, exactly the stream delay of the last
/// configuration it took, and none when that configuration set none: keeping "unset" as a slot
/// value never collides with a configured delay.
pub proof fn lemma_configured_stream_delay_is_applied(config: Config)
    ensures
        slot_delay(delay_slot(configured_stream_delay(config))) == match configured_stream_delay(config) {
            Some(d) => Some(d as i32),
            None => None::<i32>,
        },
{
}

/// A new processor applies no stream delay before a configuration sets one.
pub proof fn lemma_fresh_processor_applies_no_delay()
    ensures
        slot_delay(STREAM_DELAY_UNSET) is None,
{
}

/// The stream delay applied before capture frames after taking a configuration: the Full
/// echo canceller's delay when it sets one, the Mobile echo canceller's delay always, and none
/// when the Full echo canceller estimates the delay itself or echo cancellation is off.
pub proof fn lemma_stream_delay_by_echo_canceller(config: Config)
    ensures
        config.echo_canceller matches Some(EchoCanceller::Full { stream_delay_ms: Some(d) })
            ==> slot_delay(delay_slot(configured_stream_delay(config))) == Some(d as i32),
        config.echo_canceller matches Some(EchoCanceller::Mobile { stream_delay_ms: d })
            ==> slot_delay(delay_slot(configured_stream_delay(config))) == Some(d as i32),
        config.echo_canceller matches Some(EchoCanceller::Full { stream_delay_ms: None })
            ==> slot_delay(delay_slot(configured_stream_delay(config))) is None,
        config.echo_canceller is None ==> slot_delay(delay_slot(configured_stream_delay(config))) is None,
{
}

} // verus!
