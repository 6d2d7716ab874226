//! A verified model of a continuous analog-acquisition pipeline.
//!
//! The pipeline has three parts, wired in a fixed direction:
//!
//! * a [`sampler::Sampler`], a free-running analog-to-digital converter that
//!   produces one sample after another without software intervention;
//! * a [`engine::TransferEngine`], a circular peripheral-to-memory block
//!   mover that writes each sample into a fixed ring buffer split into two
//!   equal halves, and raises a notification at every half-boundary
//!   crossing;
//! * a [`handoff::HandoffChannel`], a single-producer single-consumer slot
//!   through which interrupt context publishes the identifier of the half
//!   that just became stable, and which the main loop drains.
//!
//! [`pipeline::Pipeline`] owns the three parts and carries the decisions
//! that the interrupt handlers and the main loop make: which half a
//! transfer notification stabilises, when an overrun is reported, and how
//! acquisition is started and stopped.  Everything that touches hardware
//! registers, interrupt masking or a diagnostic transport lives outside
//! this crate; the crate receives plain values (a sample, a remaining-count
//! register reading, a fault kind) and hands back plain decisions.

pub mod engine;
pub mod handoff;
pub mod pipeline;
pub mod sampler;
