//! The acquisition pipeline: the sampler, the transfer engine and the
//! hand-off channel wired together, with the decisions that the two
//! interrupt handlers and the main loop make.
//!
//! The pipeline's invariant ties the parts to each other: a pending
//! buffer-ready event always names an existing half that the engine is
//! not writing, and the consumer never takes more events than
//! half-boundary crossings have occurred.

use vstd::prelude::*;

use crate::engine::{
    lemma_run_characterised, spec_alternating_from, spec_configure, spec_disable, spec_fault,
    spec_run, spec_transfer, EngineError, EngineModel, EngineState, FaultKind, TransferDescriptor,
    TransferEngine,
};
use crate::handoff::{spec_publish, spec_take, HandoffChannel};
use crate::sampler::{spec_poll_overrun, Sampler};

verus! {

/// A status line for the external diagnostic sink.  Delivery is
/// best-effort and outside this crate; the pipeline only decides when a
/// line is owed and what it says.
#[derive(Clone, Copy, PartialEq, Eq, Structural, Debug)]
pub enum Diagnostic {
    /// Acquisition was configured, armed and started.
    InitComplete,
    /// The sampler produced a result before the previous one was
    /// consumed by the transfer engine.
    Overrun,
    /// The transfer engine reported a fault; its data is suspect until
    /// it is disabled and re-armed.
    TransferFault(FaultKind),
}

impl Diagnostic {
    /// The status text of this diagnostic.
    pub open spec fn spec_text(self) -> Seq<char> {
        match self {
            Diagnostic::InitComplete => "init done"@,
            Diagnostic::Overrun => "sampler overrun"@,
            Diagnostic::TransferFault(FaultKind::Transfer) => "transfer engine error"@,
            Diagnostic::TransferFault(FaultKind::DirectMode) => "transfer engine direct mode error"@,
        }
    }

    /// The human-readable status line handed to the diagnostic sink.
    pub fn text(&self) -> (r: &'static str)
        ensures
            r@ == self.spec_text(),
    {
        match self {
            Diagnostic::InitComplete => "init done",
            Diagnostic::Overrun => "sampler overrun",
            Diagnostic::TransferFault(FaultKind::Transfer) => "transfer engine error",
            Diagnostic::TransferFault(FaultKind::DirectMode) => "transfer engine direct mode error",
        }
    }
}

/// The whole acquisition pipeline.
pub struct Pipeline {
    /// The free-running conversion hardware.
    pub sampler: Sampler,
    /// The circular block mover.
    pub engine: TransferEngine,
    /// The single-slot channel from notification context to the main
    /// loop.
    pub channel: HandoffChannel,
    /// How many buffer-ready events the consumer has taken.
    pub taken: u64,
}

impl Pipeline {
    /// The pipeline invariant: the engine is well-formed; a pending
    /// event names one of the two halves and — while the engine is
    /// armed — not the one under write; and the events taken so far,
    /// plus the pending one, never outnumber the completed
    /// half-boundary crossings.
    pub open spec fn wf(self) -> bool {
        &&& self.engine@.wf()
        &&& match self.channel.slot {
            Some(h) => {
                &&& h < 2
                &&& (self.engine@.state == EngineState::Armed ==> h != self.engine@.active_half)
                &&& self.taken as int + 1 <= self.engine@.crossings
            },
            None => self.taken as int <= self.engine@.crossings,
        }
    }

    /// A powered-up pipeline: nothing configured, nothing pending,
    /// nothing taken.
    pub fn new() -> (p: Pipeline)
        ensures
            p.wf(),
            p.engine@.state == EngineState::Unconfigured,
            p.engine@.crossings == 0,
            p.channel.slot == Option::<u8>::None,
            p.taken == 0,
            !p.sampler.running,
    {
        Pipeline {
            sampler: Sampler::new(),
            engine: TransferEngine::new(),
            channel: HandoffChannel::new(),
            taken: 0,
        }
    }

    /// Bring acquisition up: select the input channel, put the sampler
    /// in continuous mode with its transfer-request line armed, stop the
    /// engine and wait for confirmed idle, bind the descriptor, re-arm,
    /// discard any stale event of an earlier run, and issue the initial
    /// trigger.  For a valid descriptor this always succeeds and leaves
    /// the engine circulating from half 0.
    pub fn start_acquisition(&mut self, channel: u8, d: TransferDescriptor) -> (r: Result<
        (),
        EngineError,
    >)
        requires
            old(self).wf(),
        ensures
            final(self).wf(),
            final(self).engine@.crossings == old(self).engine@.crossings,
            final(self).taken == old(self).taken,
            d.wf() ==> {
                &&& r == Ok::<(), EngineError>(())
                &&& final(self).engine@.state == EngineState::Armed
                &&& final(self).engine@.descriptor == Some(d)
                &&& final(self).engine@.active_half == 0
                &&& final(self).engine@.remaining == d.len as int
                &&& final(self).sampler.running
                &&& final(self).sampler.ready_to_start()
                &&& final(self).channel.slot is None
            },
            !d.wf() ==> {
                &&& r == Err::<(), EngineError>(EngineError::InvalidDescriptor)
                &&& final(self).engine@ == spec_configure(spec_disable(old(self).engine@), d).1
                &&& !final(self).engine@.enabled()
                &&& final(self).sampler.running == old(self).sampler.running
            },
    {
        self.sampler.configure(channel);
        self.sampler.enable_continuous_mode();
        self.sampler.enable_dma_request();
        self.engine.disable();
        match self.engine.configure(d) {
            Err(e) => {
                return Err(e);
            },
            Ok(_) => {},
        }
        match self.engine.arm() {
            Err(e) => {
                return Err(e);
            },
            Ok(_) => {},
        }
        let _stale = self.channel.take();
        let _ = self.sampler.start();
        Ok(())
    }

    /// Move one completed conversion through the engine.  If the move
    /// crossed a half boundary, the half that just became stable is
    /// published to the hand-off channel (overwriting an undrained
    /// event) and also returned.
    pub fn transfer_sample(&mut self, sample: u16) -> (r: Option<u8>)
        requires
            old(self).wf(),
            old(self).engine@.crossings < u64::MAX,
        ensures
            final(self).wf(),
            r == spec_transfer(old(self).engine@, sample).0,
            final(self).engine@ == spec_transfer(old(self).engine@, sample).1,
            final(self).sampler == old(self).sampler,
            final(self).taken == old(self).taken,
            match r {
                Some(h) => final(self).channel == spec_publish(old(self).channel, h),
                None => final(self).channel == old(self).channel,
            },
    {
        let crossed = self.engine.transfer_one_sample(sample);
        match crossed {
            Some(h) => {
                self.channel.publish(h);
                Some(h)
            },
            None => None,
        }
    }

    /// Drain the hand-off channel: the consumer's poll.  Returns the
    /// pending buffer-ready event at most once; the returned half is
    /// never the one the engine is writing.
    pub fn drain(&mut self) -> (r: Option<u8>)
        requires
            old(self).wf(),
        ensures
            final(self).wf(),
            r == spec_take(old(self).channel).0,
            final(self).channel == spec_take(old(self).channel).1,
            final(self).engine == old(self).engine,
            final(self).sampler == old(self).sampler,
            match r {
                Some(h) => {
                    &&& final(self).taken == old(self).taken + 1
                    &&& h < 2
                    &&& old(self).engine@.state == EngineState::Armed
                        ==> old(self).engine@.half_readable(h)
                },
                None => final(self).taken == old(self).taken,
            },
    {
        let r = self.channel.take();
        match r {
            Some(h) => {
                self.taken = self.taken + 1;
                Some(h)
            },
            None => None,
        }
    }

    /// The sampler-event handler's decision: report and clear the sticky
    /// overrun flag, emitting exactly one diagnostic per occurrence.
    /// Conversion keeps running either way.
    pub fn handle_sampler_event(&mut self) -> (r: Option<Diagnostic>)
        requires
            old(self).wf(),
        ensures
            final(self).wf(),
            r == (if old(self).sampler.overrun {
                Some(Diagnostic::Overrun)
            } else {
                Option::<Diagnostic>::None
            }),
            final(self).sampler == spec_poll_overrun(old(self).sampler).1,
            final(self).engine == old(self).engine,
            final(self).channel == old(self).channel,
            final(self).taken == old(self).taken,
    {
        if self.sampler.poll_overrun() {
            Some(Diagnostic::Overrun)
        } else {
            None
        }
    }

    /// The transfer-event handler's decision on an error notification:
    /// mark the engine faulted (hardware leaves it enabled) and emit one
    /// diagnostic.  A fault notification against a stopped engine is
    /// spurious and emits nothing.
    pub fn handle_engine_fault(&mut self, kind: FaultKind) -> (r: Option<Diagnostic>)
        requires
            old(self).wf(),
        ensures
            final(self).wf(),
            final(self).engine@ == spec_fault(old(self).engine@),
            r == (if old(self).engine@.enabled() {
                Some(Diagnostic::TransferFault(kind))
            } else {
                Option::<Diagnostic>::None
            }),
            final(self).sampler == old(self).sampler,
            final(self).channel == old(self).channel,
            final(self).taken == old(self).taken,
    {
        if self.engine.is_enabled() {
            self.engine.note_fault();
            Some(Diagnostic::TransferFault(kind))
        } else {
            None
        }
    }

    /// Stop acquisition: disable the transfer engine (bounded wait for
    /// confirmed idle on hardware), then stop the sampler.
    pub fn stop(&mut self)
        requires
            old(self).wf(),
        ensures
            final(self).wf(),
            final(self).engine@ == spec_disable(old(self).engine@),
            !final(self).engine@.enabled(),
            !final(self).sampler.running,
            final(self).channel == old(self).channel,
            final(self).taken == old(self).taken,
    {
        self.engine.disable();
        self.sampler.stop();
    }
}

/// One hardware data move followed at once by a consumer poll: the
/// sample moves through the engine, a boundary crossing publishes the
/// stable half to the channel, and the consumer drains immediately.
pub open spec fn spec_step_and_drain(m: EngineModel, c: HandoffChannel, sample: u16) -> (
    Option<u8>,
    EngineModel,
    HandoffChannel,
) {
    let step = spec_transfer(m, sample);
    let c1 = match step.0 {
        Some(h) => spec_publish(c, h),
        None => c,
    };
    let taken = spec_take(c1);
    (taken.0, step.1, taken.1)
}

/// The halves a consumer observes when it drains the channel after
/// every single data move.
pub open spec fn spec_observed(m: EngineModel, c: HandoffChannel, samples: Seq<u16>) -> Seq<u8>
    decreases samples.len(),
{
    if samples.len() == 0 {
        Seq::<u8>::empty()
    } else {
        let step = spec_step_and_drain(m, c, samples[0]);
        let rest = spec_observed(step.1, step.2, samples.drop_first());
        match step.0 {
            Some(h) => seq![h] + rest,
            None => rest,
        }
    }
}

/// A consumer that drains strictly faster than the hardware cycle —
/// here, after every single data move — observes exactly the halves the
/// engine published, nothing lost and nothing duplicated.
pub proof fn lemma_prompt_consumer_observes_published(
    m: EngineModel,
    c: HandoffChannel,
    samples: Seq<u16>,
)
    requires
        m.wf(),
        m.state == EngineState::Armed,
        c.slot is None,
    ensures
        spec_observed(m, c, samples) == spec_run(m, samples).0,
    decreases samples.len(),
{
    if samples.len() != 0 {
        let step = spec_transfer(m, samples[0]);
        lemma_prompt_consumer_observes_published(
            step.1,
            HandoffChannel { slot: None },
            samples.drop_first(),
        );
        assert(spec_observed(m, c, samples) =~= spec_run(m, samples).0);
    } else {
        assert(spec_observed(m, c, samples) =~= spec_run(m, samples).0);
    }
}

/// The alternation guarantee as the consumer sees it: draining after
/// every data move, it never observes the same half identifier twice in
/// a row.
pub proof fn lemma_prompt_consumer_sees_alternation(
    m: EngineModel,
    c: HandoffChannel,
    samples: Seq<u16>,
    i: int,
)
    requires
        m.wf(),
        m.state == EngineState::Armed,
        c.slot is None,
        0 <= i,
        i + 1 < spec_observed(m, c, samples).len(),
    ensures
        spec_observed(m, c, samples)[i] != spec_observed(m, c, samples)[i + 1],
        spec_observed(m, c, samples)[i] == spec_alternating_from(m.active_half, i),
{
    lemma_prompt_consumer_observes_published(m, c, samples);
    lemma_run_characterised(m, samples);
    assert(m.active_half == 0 || m.active_half == 1);
    assert((i + 1) % 2 == if i % 2 == 0 {
        1int
    } else {
        0int
    });
}

/// However slowly the consumer drains, it never takes more events than
/// half-boundary crossings have occurred.
pub proof fn lemma_consumer_never_ahead(p: Pipeline)
    requires
        p.wf(),
    ensures
        p.taken as int <= p.engine@.crossings,
{
}

/// A pending buffer-ready event always names a half the consumer may
/// read: never the half the armed engine is concurrently writing.
pub proof fn lemma_pending_event_is_stable(p: Pipeline, h: u8)
    requires
        p.wf(),
        p.engine@.state == EngineState::Armed,
        p.channel.slot == Some(h),
    ensures
        h != p.engine@.active_half,
        p.engine@.half_readable(h),
{
}

} // verus!
