//! The SSD1325 display interface command adapter.
//!
//! Every operation follows the same shape: select a mode and a byte buffer,
//! ask the control channel to enter that mode, write the buffer through the
//! transport inside that scope, and let the channel restore `Idle` on
//! success. The first error from any step aborts the remaining steps and is
//! returned to the caller.

use vstd::prelude::*;

use crate::channel::ControlChannel;
use crate::channel::Delay;
use crate::channel::DisplayMode;
use crate::channel::ModeOperation;
use crate::channel::ModeRunError;
use crate::channel::Transport;
use crate::channel::WireEvent;
use crate::channel::sent;
use crate::commands::DISPLAYOFF;
use crate::commands::DISPLAYON;
use crate::commands::INVERTDISPLAY;
use crate::commands::NORMALDISPLAY;
use crate::commands::blit_preamble_sequence;
use crate::commands::clear_sequence;
use crate::commands::init_sequence;
use crate::commands::spec_blit_preamble;
use crate::commands::spec_clear_sequence;
use crate::commands::spec_init_sequence;
use crate::commands::spec_invert_command;
use crate::commands::spec_power_command;
use crate::errors::AdapterError;
use crate::errors::DisplayError;
use crate::errors::TransferFailure;
use crate::pixels::spec_unpack_line;
use crate::pixels::unpack_line_for_display;

verus! {

/// How long the reset assertion is sustained, in milliseconds.
pub const RESET_HOLD_MS: u32 = 10;

/// How long the display is allowed to restart after a reset, in
/// milliseconds. The documented round total of a reset is larger than the
/// sum of the two delays; the two literal values are what is sustained here.
pub const RESET_SETTLE_MS: u32 = 500;

/// The scoped transfer the adapter runs inside a mode: exactly one transport
/// write of one buffer, with a short write reported as the domain error.
struct WriteOp {
    bytes: Vec<u8>,
}

impl<T: Transport> ModeOperation<T> for WriteOp {
    type Failure = TransferFailure<T::Error>;

    closed spec fn enabled(&self, ctx: &T) -> bool {
        true
    }

    closed spec fn step(
        pre_op: &Self,
        pre_ctx: &T,
        op: &Self,
        ctx: &T,
        r: Result<(), Self::Failure>,
    ) -> bool {
        op.bytes == pre_op.bytes && match r {
            Ok(()) => ctx.wire_log() == pre_ctx.wire_log().push(sent(pre_op.bytes@)),
            Err(TransferFailure::Display(DisplayError::WriteFailed)) => exists|n: nat|
                n < pre_op.bytes@.len() && ctx.wire_log() == pre_ctx.wire_log().push(
                    WireEvent::Write { requested: pre_op.bytes@, accepted: n },
                ),
            Err(TransferFailure::Transport(_)) => ctx.wire_log() == pre_ctx.wire_log().push(
                WireEvent::Fault { requested: pre_op.bytes@ },
            ),
        }
    }

    fn run(&mut self, ctx: &mut T) -> (r: Result<(), Self::Failure>) {
        match ctx.write(self.bytes.as_slice()) {
            Ok(n) => {
                if n < self.bytes.len() {
                    Err(TransferFailure::Display(DisplayError::WriteFailed))
                } else {
                    Ok(())
                }
            },
            Err(e) => Err(TransferFailure::Transport(e)),
        }
    }
}

/// The operation run while the link is held in `Reset`: block for a fixed
/// time and succeed. It never fails and transfers nothing.
struct HoldOp {
    ms: u32,
}

impl<D: Delay> ModeOperation<D> for HoldOp {
    type Failure = DisplayError;

    closed spec fn enabled(&self, ctx: &D) -> bool {
        true
    }

    closed spec fn step(
        pre_op: &Self,
        pre_ctx: &D,
        op: &Self,
        ctx: &D,
        r: Result<(), Self::Failure>,
    ) -> bool {
        op.ms == pre_op.ms && r == Ok::<(), Self::Failure>(())
    }

    fn run(&mut self, ctx: &mut D) -> (r: Result<(), Self::Failure>) {
        ctx.delay_ms(self.ms);
        Ok(())
    }
}

/// The completed-transfer events for a sequence of buffers, in order.
pub open spec fn sent_all(bufs: Seq<Seq<u8>>) -> Seq<WireEvent> {
    bufs.map_values(|b: Seq<u8>| sent(b))
}

/// The buffers a blit writes, in order: the addressing preamble, then the
/// grayscale payload of each frame row.
pub open spec fn spec_blit_buffers(rows: Seq<[u8; 16]>) -> Seq<Seq<u8>> {
    seq![crate::commands::spec_blit_preamble()] + Seq::new(
        rows.len(),
        |i: int| crate::pixels::spec_unpack_line(rows[i]@),
    )
}

/// The modes entered by the first `k` completed write steps of a blit: the
/// preamble in `Command` mode, every row in `Data` mode, each step returning
/// to `Idle`.
pub open spec fn spec_blit_modes(k: int) -> Seq<DisplayMode> {
    Seq::new(
        (2 * k) as nat,
        |i: int|
            if i % 2 == 1 {
                DisplayMode::Idle
            } else if i == 0 {
                DisplayMode::Command
            } else {
                DisplayMode::Data
            },
    )
}

/// How a run of buffered writes ended early: the first `k` buffers
/// completed in full, and step `k` then failed in the way `e` says — never
/// entered (`Channel`), cut short (`Display`), or failed by the transport
/// (`Transport`).
pub open spec fn interrupted_at<CE, TE>(
    pre: Seq<WireEvent>,
    post: Seq<WireEvent>,
    bufs: Seq<Seq<u8>>,
    k: int,
    e: AdapterError<CE, TE>,
) -> bool {
    let done = pre + sent_all(bufs.take(k));
    match e {
        AdapterError::Display(DisplayError::WriteFailed) => exists|n: nat|
            n < bufs[k].len() && post == done.push(
                WireEvent::Write { requested: bufs[k], accepted: n },
            ),
        AdapterError::Channel(_) => post == done,
        AdapterError::Transport(_) => post == done.push(WireEvent::Fault { requested: bufs[k] }),
    }
}

/// The transcript of a completed blit, spelled out: one 6-byte preamble
/// written in `Command` mode, then one 64-byte grayscale payload per frame
/// row written in `Data` mode, each of the 65 steps returning the link to
/// `Idle`.
pub proof fn lemma_blit_transcript(rows: Seq<[u8; 16]>)
    requires
        rows.len() == 64,
    ensures
        spec_blit_buffers(rows).len() == 65,
        spec_blit_buffers(rows)[0] == spec_blit_preamble(),
        spec_blit_preamble().len() == 6,
        forall|i: int|
            1 <= i < 65 ==> spec_blit_buffers(rows)[i] == spec_unpack_line(rows[i - 1]@)
                && spec_blit_buffers(rows)[i].len() == 64,
        spec_blit_modes(65).len() == 130,
        forall|j: int| 0 <= j < 65 ==> #[trigger] spec_blit_modes(65)[2 * j + 1] == DisplayMode::Idle,
        spec_blit_modes(65)[0] == DisplayMode::Command,
        forall|j: int| 1 <= j < 65 ==> #[trigger] spec_blit_modes(65)[2 * j] == DisplayMode::Data,
{
    assert forall|i: int|
        1 <= i < 65 implies spec_blit_buffers(rows)[i] == spec_unpack_line(rows[i - 1]@)
        && spec_blit_buffers(rows)[i].len() == 64 by {
        crate::pixels::lemma_unpack_line_len(rows[i - 1]@);
    }
    assert forall|j: int| 0 <= j < 65 implies #[trigger] spec_blit_modes(65)[2 * j + 1]
        == DisplayMode::Idle by {
        assert((2 * j + 1) % 2 == 1);
    }
    assert forall|j: int| 1 <= j < 65 implies #[trigger] spec_blit_modes(65)[2 * j]
        == DisplayMode::Data by {
        assert((2 * j) % 2 == 0);
    }
}

/// What one scoped write of `bytes` does to the wire log, for each outcome:
/// a completed transfer on success; a single short transfer on the domain
/// error; a single faulted transfer when the transport failed; nothing at
/// all when the mode was never entered.
pub open spec fn write_outcome<CE, TE>(
    pre: Seq<WireEvent>,
    post: Seq<WireEvent>,
    bytes: Seq<u8>,
    r: Result<(), AdapterError<CE, TE>>,
) -> bool {
    match r {
        Ok(()) => post == pre.push(sent(bytes)),
        Err(AdapterError::Display(DisplayError::WriteFailed)) => exists|n: nat|
            n < bytes.len() && post == pre.push(
                WireEvent::Write { requested: bytes, accepted: n },
            ),
        Err(AdapterError::Channel(_)) => post == pre,
        Err(AdapterError::Transport(_)) => post == pre.push(WireEvent::Fault { requested: bytes }),
    }
}

/// A run of buffered writes that never started transfers nothing new.
proof fn lemma_no_steps(pre: Seq<WireEvent>, bufs: Seq<Seq<u8>>)
    ensures
        pre + sent_all(bufs.take(0)) == pre,
{
    assert(bufs.take(0) =~= Seq::<Seq<u8>>::empty());
    assert(sent_all(bufs.take(0)) =~= Seq::<WireEvent>::empty());
    assert(pre + sent_all(bufs.take(0)) =~= pre);
}

/// A failed write of buffer `k` of a run, issued after the first `k`
/// buffers completed, leaves the whole run interrupted at step `k`.
proof fn lemma_interrupted_step<CE, TE>(
    pre_run: Seq<WireEvent>,
    pre: Seq<WireEvent>,
    post: Seq<WireEvent>,
    bufs: Seq<Seq<u8>>,
    k: int,
    e: AdapterError<CE, TE>,
)
    requires
        0 <= k < bufs.len(),
        pre == pre_run + sent_all(bufs.take(k)),
        write_outcome(pre, post, bufs[k], Err(e)),
    ensures
        interrupted_at(pre_run, post, bufs, k, e),
{
    match e {
        AdapterError::Display(DisplayError::WriteFailed) => {
            let n = choose|n: nat|
                n < bufs[k].len() && post == pre.push(
                    WireEvent::Write { requested: bufs[k], accepted: n },
                );
            assert(n < bufs[k].len() && post == (pre_run + sent_all(bufs.take(k))).push(
                WireEvent::Write { requested: bufs[k], accepted: n },
            ));
        },
        _ => {},
    }
}

/// An SSD1325 display interface command adapter.
///
/// It exclusively owns, for its whole lifetime, the transport that carries
/// bytes to the display, the control channel that switches the link's mode,
/// and the delay source that paces a reset. The adapter keeps no other state
/// between calls: each operation is self-contained.
pub struct Ssd1325<T, C, D> {
    /// Transport for sending data to the display.
    transport: T,
    /// Capability for side-band mode control.
    control_channel: C,
    /// Source of the fixed delays inside a reset.
    delay: D,
}

impl<T: Transport, C: ControlChannel, D: Delay> Ssd1325<T, C, D> {
    /// The transfers the transport has attempted so far.
    pub closed spec fn wire_log(&self) -> Seq<WireEvent> {
        self.transport.wire_log()
    }

    /// The modes the link has entered so far.
    pub closed spec fn mode_log(&self) -> Seq<DisplayMode> {
        self.control_channel.mode_log()
    }

    /// Returns a new instance of the receiver. The `transport` is used to
    /// send data to the display, typically over SPI. The `control_channel`
    /// puts the display into a given mode before each transfer, typically
    /// through GPIO. The `delay` paces the reset inside `init`. The display
    /// must be initialized prior to use, and is left off.
    pub fn new(transport: T, control_channel: C, delay: D) -> (r: Self)
        ensures
            r.wire_log() == transport.wire_log(),
            r.mode_log() == control_channel.mode_log(),
    {
        Ssd1325 { transport, control_channel, delay }
    }

    /// Send a sequence of `bytes` to the display in `mode`: enter the mode,
    /// perform exactly one transport write inside that scope, and return to
    /// `Idle` on success. A transfer of fewer bytes than requested fails
    /// with [`DisplayError::WriteFailed`] even if the transport reported no
    /// error; nothing is retried or resumed.
    pub fn write_sequence(&mut self, mode: DisplayMode, bytes: Vec<u8>) -> (r: Result<
        (),
        AdapterError<C::Error, T::Error>,
    >)
        requires
            mode != DisplayMode::Idle,
        ensures
            write_outcome(old(self).wire_log(), final(self).wire_log(), bytes@, r),
            r matches Ok(()) ==> final(self).mode_log() == old(self).mode_log() + seq![
                mode,
                DisplayMode::Idle,
            ],
    {
        let mut op = WriteOp { bytes };
        let outcome = self.control_channel.run_in_mode(mode, &mut op, &mut self.transport);
        match outcome {
            Ok(()) => Ok(()),
            Err(ModeRunError::Entry(e)) => Err(AdapterError::Channel(e)),
            Err(ModeRunError::Operation(TransferFailure::Display(d))) => Err(
                AdapterError::Display(d),
            ),
            Err(ModeRunError::Operation(TransferFailure::Transport(e))) => Err(
                AdapterError::Transport(e),
            ),
        }
    }

    /// Resets the display and waits for it to restart: request `Reset`,
    /// sustain it for [`RESET_HOLD_MS`], then wait [`RESET_SETTLE_MS`] for
    /// the display to come back. Fails only when the link could not enter
    /// `Reset`; nothing is transferred either way.
    fn reset(&mut self) -> (r: Result<(), AdapterError<C::Error, T::Error>>)
        ensures
            final(self).wire_log() == old(self).wire_log(),
            match r {
                Ok(()) => final(self).mode_log() == old(self).mode_log() + seq![
                    DisplayMode::Reset,
                    DisplayMode::Idle,
                ],
                Err(e) => e matches AdapterError::Channel(_),
            },
    {
        let mut op = HoldOp { ms: RESET_HOLD_MS };
        let outcome = self.control_channel.run_in_mode(
            DisplayMode::Reset,
            &mut op,
            &mut self.delay,
        );
        match outcome {
            Ok(()) => {
                // Allow the display to restart while the interface rests
                // implicitly idle.
                self.delay.delay_ms(RESET_SETTLE_MS);
                Ok(())
            },
            Err(ModeRunError::Entry(e)) => Err(AdapterError::Channel(e)),
            Err(ModeRunError::Operation(d)) => {
                // Unreachable: a hold operation's step relation admits no
                // failure, so a conforming channel cannot report one.
                proof {
                    assert(false);
                }
                Err(AdapterError::Display(d))
            },
        }
    }

    /// Resets and initializes the display: a hardware reset, then the full
    /// 40-byte command table in `Command` mode as a single write. Blocks for
    /// at least the two fixed reset delays. Returns the first error
    /// encountered — reset failure or write failure — and does not retry.
    /// The display is left powered off; callers must explicitly power on.
    pub fn init(&mut self) -> (r: Result<(), AdapterError<C::Error, T::Error>>)
        ensures
            match r {
                Ok(()) => final(self).mode_log() == old(self).mode_log() + seq![
                    DisplayMode::Reset,
                    DisplayMode::Idle,
                    DisplayMode::Command,
                    DisplayMode::Idle,
                ] && final(self).wire_log() == old(self).wire_log().push(
                    sent(spec_init_sequence()),
                ),
                Err(e) => interrupted_at(
                    old(self).wire_log(),
                    final(self).wire_log(),
                    seq![spec_init_sequence()],
                    0,
                    e,
                ),
            },
    {
        match self.reset() {
            Ok(()) => {},
            Err(e) => {
                proof {
                    lemma_no_steps(old(self).wire_log(), seq![spec_init_sequence()]);
                    lemma_interrupted_step(
                        old(self).wire_log(),
                        old(self).wire_log(),
                        self.wire_log(),
                        seq![spec_init_sequence()],
                        0,
                        e,
                    );
                }
                return Err(e);
            },
        }
        let ghost mid = *self;
        match self.write_sequence(DisplayMode::Command, init_sequence()) {
            Ok(()) => {
                proof {
                    assert(self.mode_log() =~= old(self).mode_log() + seq![
                        DisplayMode::Reset,
                        DisplayMode::Idle,
                        DisplayMode::Command,
                        DisplayMode::Idle,
                    ]);
                }
                Ok(())
            },
            Err(e) => {
                proof {
                    lemma_no_steps(old(self).wire_log(), seq![spec_init_sequence()]);
                    assert(seq![spec_init_sequence()][0] == spec_init_sequence());
                    lemma_interrupted_step(
                        old(self).wire_log(),
                        mid.wire_log(),
                        self.wire_log(),
                        seq![spec_init_sequence()],
                        0,
                        e,
                    );
                }
                Err(e)
            },
        }
    }

    /// Clears the display: a 6-byte accelerated rectangle fill of the whole
    /// addressable area, issued in `Command` mode as a single write.
    pub fn clear(&mut self) -> (r: Result<(), AdapterError<C::Error, T::Error>>)
        ensures
            match r {
                Ok(()) => final(self).mode_log() == old(self).mode_log() + seq![
                    DisplayMode::Command,
                    DisplayMode::Idle,
                ] && final(self).wire_log() == old(self).wire_log().push(
                    sent(spec_clear_sequence()),
                ),
                Err(e) => interrupted_at(
                    old(self).wire_log(),
                    final(self).wire_log(),
                    seq![spec_clear_sequence()],
                    0,
                    e,
                ),
            },
    {
        match self.write_sequence(DisplayMode::Command, clear_sequence()) {
            Ok(()) => Ok(()),
            Err(e) => {
                proof {
                    lemma_no_steps(old(self).wire_log(), seq![spec_clear_sequence()]);
                    lemma_interrupted_step(
                        old(self).wire_log(),
                        old(self).wire_log(),
                        self.wire_log(),
                        seq![spec_clear_sequence()],
                        0,
                        e,
                    );
                }
                Err(e)
            },
        }
    }

    /// Turn the display on or off: the single-byte power command in
    /// `Command` mode. The display is configured off after initialization.
    pub fn set_on(&mut self, on: bool) -> (r: Result<(), AdapterError<C::Error, T::Error>>)
        ensures
            match r {
                Ok(()) => final(self).mode_log() == old(self).mode_log() + seq![
                    DisplayMode::Command,
                    DisplayMode::Idle,
                ] && final(self).wire_log() == old(self).wire_log().push(
                    sent(spec_power_command(on)),
                ),
                Err(e) => interrupted_at(
                    old(self).wire_log(),
                    final(self).wire_log(),
                    seq![spec_power_command(on)],
                    0,
                    e,
                ),
            },
    {
        let buffer: Vec<u8> = match on {
            true => vec![DISPLAYON],
            false => vec![DISPLAYOFF],
        };
        proof {
            assert(buffer@ =~= spec_power_command(on));
        }
        match self.write_sequence(DisplayMode::Command, buffer) {
            Ok(()) => Ok(()),
            Err(e) => {
                proof {
                    lemma_no_steps(old(self).wire_log(), seq![spec_power_command(on)]);
                    lemma_interrupted_step(
                        old(self).wire_log(),
                        old(self).wire_log(),
                        self.wire_log(),
                        seq![spec_power_command(on)],
                        0,
                        e,
                    );
                }
                Err(e)
            },
        }
    }

    /// Make the display inverted or normal: the single-byte inversion
    /// command in `Command` mode. The display is configured normal after
    /// initialization.
    pub fn set_inverted(&mut self, inverted: bool) -> (r: Result<
        (),
        AdapterError<C::Error, T::Error>,
    >)
        ensures
            match r {
                Ok(()) => final(self).mode_log() == old(self).mode_log() + seq![
                    DisplayMode::Command,
                    DisplayMode::Idle,
                ] && final(self).wire_log() == old(self).wire_log().push(
                    sent(spec_invert_command(inverted)),
                ),
                Err(e) => interrupted_at(
                    old(self).wire_log(),
                    final(self).wire_log(),
                    seq![spec_invert_command(inverted)],
                    0,
                    e,
                ),
            },
    {
        let buffer: Vec<u8> = match inverted {
            true => vec![INVERTDISPLAY],
            false => vec![NORMALDISPLAY],
        };
        proof {
            assert(buffer@ =~= spec_invert_command(inverted));
        }
        match self.write_sequence(DisplayMode::Command, buffer) {
            Ok(()) => Ok(()),
            Err(e) => {
                proof {
                    lemma_no_steps(old(self).wire_log(), seq![spec_invert_command(inverted)]);
                    lemma_interrupted_step(
                        old(self).wire_log(),
                        old(self).wire_log(),
                        self.wire_log(),
                        seq![spec_invert_command(inverted)],
                        0,
                        e,
                    );
                }
                Err(e)
            },
        }
    }

    /// Send an entire bitmap frame to the display. The input must be a
    /// 1-bit bitmap arranged as 64 rows of 128 pixels, packed 8 per byte
    /// with the most significant bit the first pixel of the group.
    ///
    /// The 6-byte addressing preamble goes out in `Command` mode as one
    /// write; then each of the 64 rows is packed into its 64-byte grayscale
    /// payload and written in `Data` mode as its own transaction — one mode
    /// entry and one write per row, never one bulk transfer.
    pub fn blit_l1(&mut self, frame: &[[u8; 16]; 64]) -> (r: Result<
        (),
        AdapterError<C::Error, T::Error>,
    >)
        ensures
            match r {
                Ok(()) => final(self).mode_log() == old(self).mode_log() + spec_blit_modes(65)
                    && final(self).wire_log() == old(self).wire_log() + sent_all(
                    spec_blit_buffers(frame@),
                ),
                Err(e) => exists|k: int|
                    0 <= k < 65 && interrupted_at(
                        old(self).wire_log(),
                        final(self).wire_log(),
                        spec_blit_buffers(frame@),
                        k,
                        e,
                    ),
            },
    {
        let ghost bufs = spec_blit_buffers(frame@);
        let preamble = blit_preamble_sequence();
        match self.write_sequence(DisplayMode::Command, preamble) {
            Ok(()) => {},
            Err(e) => {
                proof {
                    lemma_no_steps(old(self).wire_log(), bufs);
                    assert(bufs[0] == spec_blit_preamble());
                    lemma_interrupted_step(
                        old(self).wire_log(),
                        old(self).wire_log(),
                        self.wire_log(),
                        bufs,
                        0,
                        e,
                    );
                }
                return Err(e);
            },
        }
        proof {
            assert(bufs.take(1) =~= seq![spec_blit_preamble()]);
            assert(sent_all(bufs.take(1)) =~= seq![sent(spec_blit_preamble())]);
            assert(self.wire_log() =~= old(self).wire_log() + sent_all(bufs.take(1)));
            assert(spec_blit_modes(1) =~= seq![DisplayMode::Command, DisplayMode::Idle]);
            assert(self.mode_log() =~= old(self).mode_log() + spec_blit_modes(1));
        }
        for i in 0..64
            invariant
                bufs == spec_blit_buffers(frame@),
                self.wire_log() == old(self).wire_log() + sent_all(bufs.take(i + 1)),
                self.mode_log() == old(self).mode_log() + spec_blit_modes(i + 1),
        {
            let row = unpack_line_for_display(&frame[i]);
            proof {
                assert(bufs[i + 1] == spec_unpack_line(frame@[i as int]@));
            }
            let ghost mid = *self;
            match self.write_sequence(DisplayMode::Data, row) {
                Ok(()) => {
                    proof {
                        assert(bufs.take(i + 2) =~= bufs.take(i + 1).push(bufs[i + 1]));
                        assert(sent_all(bufs.take(i + 2)) =~= sent_all(bufs.take(i + 1)).push(
                            sent(bufs[i + 1]),
                        ));
                        assert(self.wire_log() =~= old(self).wire_log() + sent_all(
                            bufs.take(i + 2),
                        ));
                        assert(spec_blit_modes(i + 2) =~= spec_blit_modes(i + 1) + seq![
                            DisplayMode::Data,
                            DisplayMode::Idle,
                        ]);
                        assert(self.mode_log() =~= old(self).mode_log() + spec_blit_modes(i + 2));
                    }
                },
                Err(e) => {
                    proof {
                        lemma_interrupted_step(
                            old(self).wire_log(),
                            mid.wire_log(),
                            self.wire_log(),
                            bufs,
                            i + 1,
                            e,
                        );
                    }
                    return Err(e);
                },
            }
        }
        proof {
            assert(bufs.take(65) =~= bufs);
        }
        Ok(())
    }
}

} // verus!
