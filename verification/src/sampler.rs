//! The sampler: a free-running analog-to-digital converter.  Once
//! configured for continuous conversion with its transfer-request line
//! armed, it restarts a conversion after every completion with no software
//! trigger, and it latches a sticky overrun flag when a result is produced
//! before the previous one was consumed by the transfer engine.

use vstd::prelude::*;

verus! {

/// Why `start` was refused.
#[derive(Clone, Copy, PartialEq, Eq, Structural, Debug)]
pub enum SamplerError {
    /// The sampler is missing a channel selection, continuous mode, or an
    /// armed transfer-request line.
    NotReady,
}

/// The software-visible state of the conversion hardware.
pub struct Sampler {
    /// The selected input channel, once `configure` has run.
    pub channel: Option<u8>,
    /// Length of the conversion sequence; this design always uses a
    /// one-element sequence.
    pub sequence_len: u8,
    /// Whether the hardware restarts a conversion immediately after each
    /// completion.
    pub continuous: bool,
    /// Whether each completed conversion raises one transfer-engine data
    /// request.
    pub dma_request: bool,
    /// Whether the initial software trigger has been issued and conversion
    /// is running.
    pub running: bool,
    /// The sticky overrun flag: a conversion completed before the transfer
    /// engine consumed the previous result.
    pub overrun: bool,
}

/// The sampler after `configure(channel)`: one channel selected, a
/// one-element conversion sequence.
pub open spec fn spec_configure(s: Sampler, channel: u8) -> Sampler {
    Sampler { channel: Some(channel), sequence_len: 1, ..s }
}

/// The sampler after the hardware latches an overrun: only the sticky
/// flag changes, conversion itself keeps running.
pub open spec fn spec_note_overrun(s: Sampler) -> Sampler {
    Sampler { overrun: true, ..s }
}

/// The result and the sampler after `poll_overrun`: the sticky flag comes
/// out and is cleared; nothing else changes.
pub open spec fn spec_poll_overrun(s: Sampler) -> (bool, Sampler) {
    (s.overrun, Sampler { overrun: false, ..s })
}

impl Sampler {
    /// All prerequisites of the initial trigger: a channel is selected,
    /// continuous mode is on, and the transfer-request line is armed.
    pub open spec fn ready_to_start(self) -> bool {
        &&& self.channel is Some
        &&& self.continuous
        &&& self.dma_request
    }

    /// A powered-up sampler: nothing selected, nothing running.
    pub fn new() -> (s: Sampler)
        ensures
            s == (Sampler {
                channel: None,
                sequence_len: 0,
                continuous: false,
                dma_request: false,
                running: false,
                overrun: false,
            }),
    {
        Sampler {
            channel: None,
            sequence_len: 0,
            continuous: false,
            dma_request: false,
            running: false,
            overrun: false,
        }
    }

    /// Select one input channel and a one-element conversion sequence.
    pub fn configure(&mut self, channel: u8)
        ensures
            *final(self) == spec_configure(*old(self), channel),
    {
        self.channel = Some(channel);
        self.sequence_len = 1;
    }

    /// Let the hardware restart a conversion immediately after each
    /// completion, with no software trigger in between.
    pub fn enable_continuous_mode(&mut self)
        ensures
            *final(self) == (Sampler { continuous: true, ..*old(self) }),
    {
        self.continuous = true;
    }

    /// Arm the transfer-request line, so each completed conversion
    /// triggers exactly one transfer-engine data move.
    pub fn enable_dma_request(&mut self)
        ensures
            *final(self) == (Sampler { dma_request: true, ..*old(self) }),
    {
        self.dma_request = true;
    }

    /// Issue the initial software trigger.  Succeeds exactly when the
    /// sampler is ready to start; from then on conversion runs
    /// indefinitely.
    pub fn start(&mut self) -> (r: Result<(), SamplerError>)
        ensures
            old(self).ready_to_start() ==> r == Ok::<(), SamplerError>(())
                && *final(self) == (Sampler { running: true, ..*old(self) }),
            !old(self).ready_to_start() ==> r == Err::<(), SamplerError>(SamplerError::NotReady)
                && *final(self) == *old(self),
    {
        if self.channel.is_some() && self.continuous && self.dma_request {
            self.running = true;
            Ok(())
        } else {
            Err(SamplerError::NotReady)
        }
    }

    /// Stop conversion (the second step of stopping acquisition, after the
    /// transfer engine has confirmed idle).
    pub fn stop(&mut self)
        ensures
            *final(self) == (Sampler { running: false, ..*old(self) }),
    {
        self.running = false;
    }

    /// Record the hardware condition "a conversion completed before the
    /// previous result was consumed": latch the sticky overrun flag.
    /// Continuous mode self-recovers, so conversion keeps running.
    pub fn note_overrun(&mut self)
        ensures
            *final(self) == spec_note_overrun(*old(self)),
    {
        self.overrun = true;
    }

    /// Report and clear the sticky overrun flag.  Returns whether an
    /// overrun occurred since the last poll; polling never disturbs the
    /// rest of the sampler state.
    pub fn poll_overrun(&mut self) -> (r: bool)
        ensures
            r == spec_poll_overrun(*old(self)).0,
            *final(self) == spec_poll_overrun(*old(self)).1,
    {
        let r = self.overrun;
        self.overrun = false;
        r
    }
}

/// One overrun occurrence is reported exactly once: the first poll after
/// the hardware latches the flag reports it, the next poll reports
/// nothing, and neither poll stops the running conversion.
pub proof fn lemma_overrun_reported_exactly_once(s: Sampler)
    ensures
        ({
            let s1 = spec_note_overrun(s);
            let (r1, s2) = spec_poll_overrun(s1);
            let (r2, s3) = spec_poll_overrun(s2);
            r1 == true && r2 == false && s2.running == s.running && s3.running == s.running
        }),
{
}

} // verus!
