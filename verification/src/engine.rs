//! The transfer engine: a circular peripheral-to-memory block mover.  Once
//! armed it moves each completed conversion into the next slot of a fixed
//! ring buffer split into two equal halves, wraps automatically at the end
//! of the buffer, and raises one notification per half-boundary crossing.
//!
//! The engine is modelled by [`EngineModel`]: its state-machine state, the
//! bound descriptor, the buffer contents, the count-down of elements left
//! before the next wrap (the hardware's remaining-transfers register), the
//! half currently being written, and the total number of completed
//! half-boundary crossings.  Every operation is specified as a function on
//! this model.

use vstd::prelude::*;

verus! {

/// Stream priority of a transfer run, as programmed into the engine.
#[derive(Clone, Copy, PartialEq, Eq, Structural, Debug)]
pub enum Priority {
    Low,
    Medium,
    High,
    VeryHigh,
}

/// The configuration bound to one engine run.
///
/// The source is a fixed peripheral data register, the destination an
/// auto-incrementing memory buffer of `len` 16-bit elements; the engine
/// rearms itself at the end of the buffer when `circular` is set, which
/// this design requires.
#[derive(Clone, Copy, PartialEq, Eq, Structural, Debug)]
pub struct TransferDescriptor {
    /// Address of the peripheral data register the engine reads from.
    pub peripheral_addr: u32,
    /// Base address of the destination buffer the engine writes to.
    pub memory_addr: u32,
    /// Number of 16-bit elements in the destination buffer.
    pub len: usize,
    /// Whether the engine wraps to the start of the buffer instead of
    /// stopping when the buffer is full.
    pub circular: bool,
    /// Stream priority.
    pub priority: Priority,
}

impl TransferDescriptor {
    /// A descriptor this design accepts: a buffer of at least two
    /// elements that splits into two equal halves, moved circularly.
    pub open spec fn wf(self) -> bool {
        &&& self.len >= 2
        &&& self.len % 2 == 0
        &&& self.circular
    }
}

/// The engine's state machine.  Half-to-half transitions while `Armed`
/// happen purely in hardware; software observes them through
/// notifications.
#[derive(Clone, Copy, PartialEq, Eq, Structural, Debug)]
pub enum EngineState {
    /// No descriptor has ever been bound.
    Unconfigured,
    /// A descriptor is bound; the engine is not moving data.
    Configured,
    /// The engine is circulating: it owns exactly one buffer half at a
    /// time and writes into it.
    Armed,
    /// A transfer or direct-mode error was observed.  Hardware leaves the
    /// engine enabled, but its data is suspect until it is disabled and
    /// re-armed.
    Faulted,
    /// The engine was stopped and has confirmed idle.
    Disabled,
}

/// The kind of engine fault surfaced by a notification.
#[derive(Clone, Copy, PartialEq, Eq, Structural, Debug)]
pub enum FaultKind {
    /// The engine could not complete a memory access.
    Transfer,
    /// The engine's direct (FIFO-less) mode failed.
    DirectMode,
}

/// Why `configure` or `arm` was refused.
#[derive(Clone, Copy, PartialEq, Eq, Structural, Debug)]
pub enum EngineError {
    /// The engine still reports itself enabled; it must confirm idle
    /// before it can be reconfigured or re-armed.
    StillEnabled,
    /// The descriptor does not describe a circular, two-half buffer.
    InvalidDescriptor,
    /// No descriptor has ever been bound, so there is nothing to arm.
    NotConfigured,
}

/// The mathematical model of the engine.
pub ghost struct EngineModel {
    /// State-machine state.
    pub state: EngineState,
    /// The bound descriptor, if one was ever bound.
    pub descriptor: Option<TransferDescriptor>,
    /// Contents of the destination ring buffer.
    pub data: Seq<u16>,
    /// Elements left to move before the engine wraps: the hardware's
    /// remaining-transfers count-down register.
    pub remaining: int,
    /// The half currently owned and written by the engine.
    pub active_half: u8,
    /// Total completed half-boundary crossings since construction.
    pub crossings: int,
}

impl EngineModel {
    /// Element count of the bound buffer (zero before any binding).
    pub open spec fn full_len(self) -> int {
        match self.descriptor {
            Some(d) => d.len as int,
            None => 0,
        }
    }

    /// Element count of one buffer half.
    pub open spec fn half_len(self) -> int {
        self.full_len() / 2
    }

    /// Whether the engine reports itself enabled.  A faulted engine is
    /// still enabled: hardware does not stop it on error.
    pub open spec fn enabled(self) -> bool {
        self.state == EngineState::Armed || self.state == EngineState::Faulted
    }

    /// Well-formedness: the bound descriptor is valid and sized like the
    /// buffer; while the engine is enabled, the remaining count is inside
    /// the buffer and determines which half is being written (the upper
    /// count-down range writes half 0, the lower range writes half 1).
    pub open spec fn wf(self) -> bool {
        &&& match self.descriptor {
            Some(d) => d.wf() && self.data.len() == d.len,
            None => !self.enabled(),
        }
        &&& self.crossings >= 0
        &&& self.enabled() ==> 1 <= self.remaining <= self.full_len()
        &&& self.enabled() ==> self.active_half == (if self.remaining > self.half_len() {
            0u8
        } else {
            1u8
        })
    }

    /// The contents of one buffer half.
    pub open spec fn half_data(self, half: u8) -> Seq<u16> {
        self.data.subrange(half as int * self.half_len(), (half as int + 1) * self.half_len())
    }

    /// Whether `half` may be handed to the consumer: it exists, the
    /// engine's data is not suspect after a fault, and the engine is not
    /// currently writing that half.
    pub open spec fn half_readable(self, half: u8) -> bool {
        &&& half < 2
        &&& self.descriptor is Some
        &&& self.state != EngineState::Faulted
        &&& !(self.state == EngineState::Armed && half == self.active_half)
    }
}

/// The result and the model after `configure(d)`: refused while the
/// engine is enabled and for an invalid descriptor; otherwise the
/// descriptor is bound and the destination buffer is zeroed.
pub open spec fn spec_configure(m: EngineModel, d: TransferDescriptor) -> (Result<
    (),
    EngineError,
>, EngineModel) {
    if m.enabled() {
        (Err(EngineError::StillEnabled), m)
    } else if !d.wf() {
        (Err(EngineError::InvalidDescriptor), m)
    } else {
        (
            Ok(()),
            EngineModel {
                state: EngineState::Configured,
                descriptor: Some(d),
                data: Seq::new(d.len as nat, |i: int| 0u16),
                remaining: d.len as int,
                active_half: 0,
                ..m
            },
        )
    }
}

/// The result and the model after `arm`: refused while enabled and when
/// nothing was ever configured; otherwise circular operation resumes at
/// half 0 with a full remaining count.
pub open spec fn spec_arm(m: EngineModel) -> (Result<(), EngineError>, EngineModel) {
    if m.enabled() {
        (Err(EngineError::StillEnabled), m)
    } else if m.descriptor is None {
        (Err(EngineError::NotConfigured), m)
    } else {
        (
            Ok(()),
            EngineModel {
                state: EngineState::Armed,
                remaining: m.full_len(),
                active_half: 0,
                ..m
            },
        )
    }
}

/// The model after `disable`: the engine is stopped and idle; the bound
/// descriptor and the buffer contents are kept.
pub open spec fn spec_disable(m: EngineModel) -> EngineModel {
    if m.descriptor is None {
        m
    } else {
        EngineModel { state: EngineState::Disabled, ..m }
    }
}

/// The published half and the model after one data move.  A move request
/// against an engine that is not armed is not serviced.  An armed engine
/// writes `sample` into the next destination slot and counts the
/// remaining register down; reaching the half boundary publishes half 0,
/// and reaching the end of the buffer reloads the count and publishes
/// half 1.
pub open spec fn spec_transfer(m: EngineModel, sample: u16) -> (Option<u8>, EngineModel) {
    if m.state != EngineState::Armed {
        (None, m)
    } else {
        let idx = m.full_len() - m.remaining;
        let data = m.data.update(idx, sample);
        let rem = m.remaining - 1;
        if rem == m.half_len() {
            (
                Some(0u8),
                EngineModel {
                    data,
                    remaining: rem,
                    active_half: 1,
                    crossings: m.crossings + 1,
                    ..m
                },
            )
        } else if rem == 0 {
            (
                Some(1u8),
                EngineModel {
                    data,
                    remaining: m.full_len(),
                    active_half: 0,
                    crossings: m.crossings + 1,
                    ..m
                },
            )
        } else {
            (None, EngineModel { data, remaining: rem, ..m })
        }
    }
}

/// The model after a transfer-error or direct-mode-error notification:
/// an enabled engine is marked faulted (hardware leaves it enabled); a
/// notification against a stopped engine changes nothing.
pub open spec fn spec_fault(m: EngineModel) -> EngineModel {
    if m.enabled() {
        EngineModel { state: EngineState::Faulted, ..m }
    } else {
        m
    }
}

/// The half that a remaining-count register reading proves stable, as the
/// notification handler computes it: the count sitting exactly at the
/// half boundary means half 0 just finished; a freshly reloaded full
/// count means the engine wrapped and half 1 just finished.  Any other
/// reading proves no boundary crossing.
pub open spec fn spec_stable_half_from_remaining(remaining: int, len: int) -> Option<u8> {
    if remaining == len / 2 {
        Some(0u8)
    } else if remaining == len {
        Some(1u8)
    } else {
        None
    }
}

/// The halves published during a run of consecutive data moves, and the
/// model the run ends in.
pub open spec fn spec_run(m: EngineModel, samples: Seq<u16>) -> (Seq<u8>, EngineModel)
    decreases samples.len(),
{
    if samples.len() == 0 {
        (Seq::<u8>::empty(), m)
    } else {
        let step = spec_transfer(m, samples[0]);
        let rest = spec_run(step.1, samples.drop_first());
        (
            match step.0 {
                Some(h) => seq![h] + rest.0,
                None => rest.0,
            },
            rest.1,
        )
    }
}

/// The strictly alternating sequence of half identifiers that starts at
/// `h0`.
pub open spec fn spec_alternating_from(h0: u8, i: int) -> u8 {
    if i % 2 == 0 {
        h0
    } else {
        (1 - h0) as u8
    }
}

/// What an armed engine does over any run of data moves: it stays armed
/// and well-formed, each half-boundary crossing publishes exactly one
/// half, no more crossings happen than samples were moved, and the
/// published halves alternate strictly, starting with the half that was
/// active when the run began.
pub proof fn lemma_run_characterised(m: EngineModel, samples: Seq<u16>)
    requires
        m.wf(),
        m.state == EngineState::Armed,
    ensures
        ({
            let (out, mf) = spec_run(m, samples);
            &&& mf.wf()
            &&& mf.state == EngineState::Armed
            &&& mf.crossings == m.crossings + out.len()
            &&& out.len() <= samples.len()
            &&& forall|i: int|
                0 <= i < out.len() ==> out[i] == spec_alternating_from(m.active_half, i)
        }),
    decreases samples.len(),
{
    if samples.len() != 0 {
        let step = spec_transfer(m, samples[0]);
        let m1 = step.1;
        lemma_run_characterised(m1, samples.drop_first());
        let rest = spec_run(m1, samples.drop_first());
        let out = spec_run(m, samples).0;
        match step.0 {
            Some(h) => {
                assert(h == m.active_half);
                assert(m1.active_half == 1 - h);
                assert forall|i: int|
                    0 <= i < out.len() implies out[i] == spec_alternating_from(
                    m.active_half,
                    i,
                ) by {
                    if i > 0 {
                        assert(out[i] == rest.0[i - 1]);
                        assert(rest.0[i - 1] == spec_alternating_from(m1.active_half, i - 1));
                        assert((i - 1) % 2 == if i % 2 == 0 {
                            1int
                        } else {
                            0int
                        });
                    }
                }
            },
            None => {
                assert(m1.active_half == m.active_half);
            },
        }
    }
}

/// No two consecutive published halves are ever equal: the consumer of an
/// armed engine observes a strictly alternating sequence of stable-half
/// identifiers, however long the run.
pub proof fn lemma_published_halves_alternate(m: EngineModel, samples: Seq<u16>, i: int)
    requires
        m.wf(),
        m.state == EngineState::Armed,
        0 <= i,
        i + 1 < spec_run(m, samples).0.len(),
    ensures
        spec_run(m, samples).0[i] != spec_run(m, samples).0[i + 1],
{
    lemma_run_characterised(m, samples);
    assert(m.active_half == 0 || m.active_half == 1);
    assert((i + 1) % 2 == if i % 2 == 0 {
        1int
    } else {
        0int
    });
}

/// The notification handler's reading of the remaining-count register
/// agrees with the model: right after any data move, the half computed
/// from the raw register value is exactly the half the move published.
pub proof fn lemma_handler_reading_matches_model(m: EngineModel, sample: u16)
    requires
        m.wf(),
        m.state == EngineState::Armed,
    ensures
        ({
            let (p, m1) = spec_transfer(m, sample);
            spec_stable_half_from_remaining(m1.remaining, m1.full_len()) == p
        }),
{
}

/// Reconfiguration is refused while the engine reports itself enabled,
/// and the refusal changes nothing.
pub proof fn lemma_configure_refused_while_enabled(m: EngineModel, d: TransferDescriptor)
    requires
        m.enabled(),
    ensures
        spec_configure(m, d).0 == Err::<(), EngineError>(EngineError::StillEnabled),
        spec_configure(m, d).1 == m,
{
}

/// Disabling, reconfiguring and re-arming always succeeds for a valid
/// descriptor, whatever state the engine was in, and resumes circular
/// operation at half 0 with a full remaining count.
pub proof fn lemma_disable_configure_arm_succeeds(m: EngineModel, d: TransferDescriptor)
    requires
        m.wf(),
        d.wf(),
    ensures
        ({
            let m1 = spec_disable(m);
            let step2 = spec_configure(m1, d);
            let step3 = spec_arm(step2.1);
            &&& step2.0 == Ok::<(), EngineError>(())
            &&& step3.0 == Ok::<(), EngineError>(())
            &&& step3.1.wf()
            &&& step3.1.state == EngineState::Armed
            &&& step3.1.active_half == 0
            &&& step3.1.remaining == d.len as int
        }),
{
}

/// The executable state of the engine; its mathematical view is
/// [`EngineModel`].
pub struct TransferEngine {
    /// State-machine state.
    pub state: EngineState,
    /// The bound descriptor, if one was ever bound.
    pub descriptor: Option<TransferDescriptor>,
    /// The destination ring buffer.
    pub buffer: Vec<u16>,
    /// Elements left to move before the engine wraps.
    pub remaining: usize,
    /// The half currently being written.
    pub active_half: u8,
    /// Total completed half-boundary crossings since construction.
    pub crossings: u64,
}

impl View for TransferEngine {
    type V = EngineModel;

    open spec fn view(&self) -> EngineModel {
        EngineModel {
            state: self.state,
            descriptor: self.descriptor,
            data: self.buffer@,
            remaining: self.remaining as int,
            active_half: self.active_half,
            crossings: self.crossings as int,
        }
    }
}

impl TransferEngine {
    /// A powered-up engine: never configured, not moving data.
    pub fn new() -> (e: TransferEngine)
        ensures
            e@.state == EngineState::Unconfigured,
            e@.descriptor == Option::<TransferDescriptor>::None,
            e@.crossings == 0,
            e@.wf(),
    {
        TransferEngine {
            state: EngineState::Unconfigured,
            descriptor: None,
            buffer: Vec::new(),
            remaining: 0,
            active_half: 0,
            crossings: 0,
        }
    }

    /// Whether the engine reports itself enabled (armed or faulted).
    pub fn is_enabled(&self) -> (r: bool)
        ensures
            r == self@.enabled(),
    {
        self.state == EngineState::Armed || self.state == EngineState::Faulted
    }

    /// Bind a descriptor.  Refused while the engine reports itself
    /// enabled — a prior run must have been stopped and confirmed idle —
    /// and refused for a descriptor this design cannot run; otherwise the
    /// destination buffer is allocated zeroed and the engine is ready to
    /// arm.
    pub fn configure(&mut self, d: TransferDescriptor) -> (r: Result<(), EngineError>)
        requires
            old(self)@.wf(),
        ensures
            final(self)@.wf(),
            r == spec_configure(old(self)@, d).0,
            final(self)@ == spec_configure(old(self)@, d).1,
    {
        if self.state == EngineState::Armed || self.state == EngineState::Faulted {
            return Err(EngineError::StillEnabled);
        }
        if !(d.len >= 2 && d.len % 2 == 0 && d.circular) {
            return Err(EngineError::InvalidDescriptor);
        }
        let mut buffer: Vec<u16> = Vec::new();
        let mut i: usize = 0;
        while i < d.len
            invariant
                i <= d.len,
                buffer@ == Seq::new(i as nat, |j: int| 0u16),
            decreases d.len - i,
        {
            buffer.push(0u16);
            proof {
                assert(buffer@ =~= Seq::new((i + 1) as nat, |j: int| 0u16));
            }
            i = i + 1;
        }
        self.state = EngineState::Configured;
        self.descriptor = Some(d);
        self.buffer = buffer;
        self.remaining = d.len;
        self.active_half = 0;
        Ok(())
    }

    /// Enable circular operation and its notifications.  Refused while
    /// the engine is still enabled and when nothing was ever configured;
    /// otherwise the engine resumes writing at half 0.
    pub fn arm(&mut self) -> (r: Result<(), EngineError>)
        requires
            old(self)@.wf(),
        ensures
            final(self)@.wf(),
            r == spec_arm(old(self)@).0,
            final(self)@ == spec_arm(old(self)@).1,
    {
        if self.state == EngineState::Armed || self.state == EngineState::Faulted {
            return Err(EngineError::StillEnabled);
        }
        match self.descriptor {
            None => Err(EngineError::NotConfigured),
            Some(d) => {
                self.state = EngineState::Armed;
                self.remaining = d.len;
                self.active_half = 0;
                Ok(())
            },
        }
    }

    /// Stop the engine.  On hardware this spins for the bounded few
    /// microseconds until the enable bit reads back deasserted; the model
    /// is already idle when the call returns.
    pub fn disable(&mut self)
        requires
            old(self)@.wf(),
        ensures
            final(self)@.wf(),
            final(self)@ == spec_disable(old(self)@),
            !final(self)@.enabled(),
    {
        match self.descriptor {
            None => (),
            Some(_) => {
                self.state = EngineState::Disabled;
            },
        }
    }

    /// Move one completed conversion into the buffer.  Returns the half
    /// that this move made stable, if the move crossed a half boundary.
    pub fn transfer_one_sample(&mut self, sample: u16) -> (r: Option<u8>)
        requires
            old(self)@.wf(),
            old(self)@.crossings < u64::MAX,
        ensures
            final(self)@.wf(),
            r == spec_transfer(old(self)@, sample).0,
            final(self)@ == spec_transfer(old(self)@, sample).1,
    {
        if !(self.state == EngineState::Armed) {
            return None;
        }
        let len = self.buffer.len();
        let idx = len - self.remaining;
        self.buffer[idx] = sample;
        self.remaining = self.remaining - 1;
        if self.remaining == len / 2 {
            self.crossings = self.crossings + 1;
            self.active_half = 1;
            Some(0)
        } else if self.remaining == 0 {
            self.crossings = self.crossings + 1;
            self.active_half = 0;
            self.remaining = len;
            Some(1)
        } else {
            None
        }
    }

    /// Mark the engine faulted after a transfer-error or
    /// direct-mode-error notification.  Hardware leaves a faulted engine
    /// enabled; its data is suspect until it is disabled and re-armed.
    pub fn note_fault(&mut self)
        requires
            old(self)@.wf(),
        ensures
            final(self)@.wf(),
            final(self)@ == spec_fault(old(self)@),
    {
        if self.state == EngineState::Armed || self.state == EngineState::Faulted {
            self.state = EngineState::Faulted;
        }
    }

    /// Copy one stable half out for the consumer.  Returns nothing when
    /// the half does not exist, when the engine's data is suspect after a
    /// fault, or when the engine is currently writing that half — a half
    /// under write is never handed out.
    pub fn read_half(&self, half: u8) -> (r: Option<Vec<u16>>)
        requires
            self@.wf(),
        ensures
            (r is Some) == self@.half_readable(half),
            r is Some ==> r->Some_0@ == self@.half_data(half),
    {
        if half >= 2 {
            return None;
        }
        if self.state == EngineState::Faulted {
            return None;
        }
        match self.descriptor {
            None => None,
            Some(_) => {
                if self.state == EngineState::Armed && half == self.active_half {
                    return None;
                }
                let half_len = self.buffer.len() / 2;
                let start = if half == 0 { 0 } else { half_len };
                let mut out: Vec<u16> = Vec::new();
                let mut i: usize = 0;
                while i < half_len
                    invariant
                        i <= half_len,
                        half_len == self@.half_len(),
                        start == half as int * self@.half_len(),
                        start + half_len <= self.buffer.len(),
                        out@ == self.buffer@.subrange(start as int, start + i),
                    decreases half_len - i,
                {
                    out.push(self.buffer[start + i]);
                    proof {
                        assert(out@ =~= self.buffer@.subrange(start as int, start + i + 1));
                    }
                    i = i + 1;
                }
                proof {
                    if half == 0 {
                        assert(half as int * self@.half_len() == 0);
                        assert((half as int + 1) * self@.half_len() == self@.half_len());
                    } else {
                        assert(half as int * self@.half_len() == self@.half_len());
                        assert((half as int + 1) * self@.half_len() == 2 * self@.half_len());
                    }
                    assert(out@ =~= self@.half_data(half));
                }
                Some(out)
            },
        }
    }

    /// The half that the notification handler derives from a raw
    /// remaining-count register reading, given the configured buffer
    /// length.
    pub fn stable_half_from_remaining(remaining: usize, len: usize) -> (r: Option<u8>)
        requires
            len >= 2,
            len % 2 == 0,
        ensures
            r == spec_stable_half_from_remaining(remaining as int, len as int),
    {
        if remaining == len / 2 {
            Some(0)
        } else if remaining == len {
            Some(1)
        } else {
            None
        }
    }
}

} // verus!
