//! The capability interfaces the adapter consumes: a byte transport, a
//! mode-switching control channel, and a delay source.
//!
//! The capabilities are implemented outside this crate (an SPI device, a
//! GPIO toggler, a sleeping clock). Their contracts here state what the
//! adapter assumes of any conforming implementation, over ghost logs of the
//! observable events: which link modes were entered, and which byte
//! transfers the transport accepted.

use vstd::prelude::*;

verus! {

/// Mode of the primary communication channel.
#[derive(Copy, Clone, Debug, Eq, PartialEq, Structural)]
pub enum DisplayMode {
    /// Interface idle. Never requested directly, but the resting state after
    /// a successful operation.
    Idle,
    /// Display reset mode.
    Reset,
    /// Display data transport mode.
    Data,
    /// Display command transport mode.
    Command,
}

/// One observable event on the byte transport.
pub enum WireEvent {
    /// The transport accepted `accepted` of the `requested` bytes.
    Write { requested: Seq<u8>, accepted: nat },
    /// The transport itself failed; how much of `requested` was sent is
    /// unknown.
    Fault { requested: Seq<u8> },
}

/// The event of a transfer that completed in full.
pub open spec fn sent(requested: Seq<u8>) -> WireEvent {
    WireEvent::Write { requested, accepted: requested.len() }
}

/// The ghost history of a transport: its attempted transfers, oldest first.
pub type WireLog = Seq<WireEvent>;

/// The ghost history of a control channel: the modes entered, oldest first.
pub type ModeLog = Seq<DisplayMode>;

/// A byte sink towards the display, typically a serial or SPI device.
///
/// Conforming implementations never claim to have accepted more bytes than
/// were requested, and record every attempted transfer exactly once.
pub trait Transport: Sized {
    /// The transport's own, opaque error type.
    type Error;

    /// The transfers attempted so far, oldest first.
    spec fn wire_log(&self) -> WireLog;

    /// Attempt to send `bytes`, returning how many were accepted.
    fn write(&mut self, bytes: &[u8]) -> (r: Result<usize, Self::Error>)
        ensures
            match r {
                Ok(n) => n <= bytes@.len() && final(self).wire_log() == old(self).wire_log().push(
                    WireEvent::Write { requested: bytes@, accepted: n as nat },
                ),
                Err(_) => final(self).wire_log() == old(self).wire_log().push(
                    WireEvent::Fault { requested: bytes@ },
                ),
            },
    ;

    /// Completion signal; safe to be a no-op. Transfers nothing.
    fn flush(&mut self) -> (r: Result<(), Self::Error>)
        ensures
            final(self).wire_log() == old(self).wire_log(),
    ;
}

/// A source of fixed, blocking delays.
///
/// Nothing is assumed of an implementation beyond termination; it exists so
/// the adapter can sustain a reset assertion and wait out the restart.
pub trait Delay: Sized {
    /// Block for at least `ms` milliseconds.
    fn delay_ms(&mut self, ms: u32);
}

/// One caller-supplied operation to be run while the link is in a requested
/// mode, together with its effect on the context it runs against.
pub trait ModeOperation<Ctx>: Sized {
    /// The operation's own failure type.
    type Failure;

    /// When the operation may be invoked.
    spec fn enabled(&self, ctx: &Ctx) -> bool;

    /// The relation one invocation establishes between the states before and
    /// after, and its outcome.
    spec fn step(
        pre_op: &Self,
        pre_ctx: &Ctx,
        op: &Self,
        ctx: &Ctx,
        r: Result<(), Self::Failure>,
    ) -> bool;

    /// Run the operation once against `ctx`.
    fn run(&mut self, ctx: &mut Ctx) -> (r: Result<(), Self::Failure>)
        requires
            old(self).enabled(&*old(ctx)),
        ensures
            Self::step(old(self), old(ctx), final(self), final(ctx), r),
    ;
}

/// Why a scoped mode run failed.
#[derive(Debug)]
pub enum ModeRunError<CE, OE> {
    /// The link could not be placed into the requested mode; the operation
    /// was never invoked.
    Entry(CE),
    /// The operation itself failed; its error is handed back unchanged.
    Operation(OE),
}

/// The side-band capability that places the physical link into a mode before
/// a transfer.
///
/// Conforming implementations enter the requested mode, invoke the supplied
/// operation exactly once, and, when the operation succeeds, return the link
/// to `Idle` before returning control. After a failure the end mode is
/// implementation-defined — callers must not assume `Idle` — but the link is
/// never left in `Reset` as a terminal state.
pub trait ControlChannel: Sized {
    /// The channel's own, opaque error type.
    type Error;

    /// The modes the link has entered so far, oldest first.
    spec fn mode_log(&self) -> ModeLog;

    /// Enter `mode`, run `op` against `ctx` exactly once, and on success
    /// return the link to `Idle`.
    fn run_in_mode<Ctx, Op: ModeOperation<Ctx>>(
        &mut self,
        mode: DisplayMode,
        op: &mut Op,
        ctx: &mut Ctx,
    ) -> (r: Result<(), ModeRunError<Self::Error, Op::Failure>>)
        requires
            mode != DisplayMode::Idle,
            old(op).enabled(&*old(ctx)),
        ensures
            match r {
                Ok(()) => final(self).mode_log() == old(self).mode_log() + seq![
                    mode,
                    DisplayMode::Idle,
                ] && Op::step(old(op), old(ctx), final(op), final(ctx), Ok(())),
                Err(ModeRunError::Entry(_)) => *final(op) == *old(op) && *final(ctx) == *old(
                    ctx,
                ),
                Err(ModeRunError::Operation(f)) => Op::step(
                    old(op),
                    old(ctx),
                    final(op),
                    final(ctx),
                    Err(f),
                ),
            },
    ;
}

} // verus!
