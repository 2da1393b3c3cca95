//! The decisions of audio playback: how a batch is written to the PCM
//! device (which errors mean retry, recover or give up, and when a stalled
//! write gives up), and how the playback thread reacts to failed writes
//! (reopen the device after repeated failures, go silent when that fails,
//! while always draining the ring buffer). The device calls are made by
//! the program; these functions decide what comes next.
use vstd::prelude::*;

verus! {

/// Polls for space a write may wait through before it gives up.
pub const MAX_STALL_POLLS: u32 = 50;

/// Consecutive failed writes after which the device is reopened.
pub const REOPEN_AFTER_FAILURES: u32 = 5;

/// `EIO`: an input/output error of the device.
pub const ERRNO_EIO: i32 = 5;

/// `EAGAIN`: the device buffer is full (non-blocking mode).
pub const ERRNO_EAGAIN: i32 = 11;

/// `EPIPE`: an underrun (xrun); also what a stalled write reports.
pub const ERRNO_EPIPE: i32 = 32;

/// What one write call on the device gave.
#[derive(Clone, Copy, PartialEq, Eq, Structural, Debug)]
pub enum PcmWriteEvent {
    /// That many frames were taken (possibly none).
    Wrote(usize),
    /// The call failed with this errno.
    Failed(i32),
}

/// What the writer does next.
#[derive(Clone, Copy, PartialEq, Eq, Structural, Debug)]
pub enum PcmWriteAction {
    /// Write the rest of the batch.
    Continue,
    /// Wait for space in the device buffer, then write the rest.
    Wait,
    /// Wait for space, then give up on the batch with this errno.
    WaitThenFail(i32),
    /// Drain, recover and restart the device, then write the rest (giving up
    /// with the recovery's errno if it fails).
    Recover,
    /// Give up on the batch with this errno.
    Fail(i32),
}

/// The writer's position, stall count and next action after a write call:
/// frames taken advance the position and reset the stall count; nothing
/// taken, a full buffer or an underrun wait for space, giving up with
/// `EPIPE` after `MAX_STALL_POLLS` waits in a row; an I/O error recovers the
/// device; any other error gives up.
pub open spec fn spec_pcm_write_step(offset: usize, stalled: u32, ev: PcmWriteEvent) -> (usize, u32, PcmWriteAction) {
    match ev {
        PcmWriteEvent::Wrote(n) => if n > 0 {
            ((offset + n) as usize, 0, PcmWriteAction::Continue)
        } else {
            stall(offset, stalled)
        },
        PcmWriteEvent::Failed(err) => if err == ERRNO_EPIPE || err == ERRNO_EAGAIN {
            stall(offset, stalled)
        } else if err == ERRNO_EIO {
            (offset, 0, PcmWriteAction::Recover)
        } else {
            (offset, stalled, PcmWriteAction::Fail(err))
        },
    }
}

/// One more wait for space; the write gives up when the waits reach the
/// limit.
pub open spec fn stall(offset: usize, stalled: u32) -> (usize, u32, PcmWriteAction) {
    let s = (stalled + 1) as u32;
    if s >= MAX_STALL_POLLS {
        (offset, s, PcmWriteAction::WaitThenFail(ERRNO_EPIPE))
    } else {
        (offset, s, PcmWriteAction::Wait)
    }
}

/// Decide the writer's next step after a write call (`stalled` is below the
/// limit while the write goes on).
pub fn pcm_write_step(offset: usize, stalled: u32, ev: PcmWriteEvent) -> (r: (usize, u32, PcmWriteAction))
    requires
        stalled < MAX_STALL_POLLS,
        ev matches PcmWriteEvent::Wrote(n) ==> offset + n <= usize::MAX,
    ensures
        r == spec_pcm_write_step(offset, stalled, ev),
{
    match ev {
        PcmWriteEvent::Wrote(n) => {
            if n > 0 {
                (offset + n, 0, PcmWriteAction::Continue)
            } else {
                stall_step(offset, stalled)
            }
        },
        PcmWriteEvent::Failed(err) => {
            if err == ERRNO_EPIPE || err == ERRNO_EAGAIN {
                stall_step(offset, stalled)
            } else if err == ERRNO_EIO {
                (offset, 0, PcmWriteAction::Recover)
            } else {
                (offset, stalled, PcmWriteAction::Fail(err))
            }
        },
    }
}

fn stall_step(offset: usize, stalled: u32) -> (r: (usize, u32, PcmWriteAction))
    requires
        stalled < MAX_STALL_POLLS,
    ensures
        r == stall(offset, stalled),
{
    let s = stalled + 1;
    if s >= MAX_STALL_POLLS {
        (offset, s, PcmWriteAction::WaitThenFail(ERRNO_EPIPE))
    } else {
        (offset, s, PcmWriteAction::Wait)
    }
}

/// The stall count stays below the limit while the write goes on: every
/// step that continues (writes on, waits, recovers) leaves it below
/// `MAX_STALL_POLLS`, so a write never waits forever.
pub proof fn write_stalls_bounded(offset: usize, stalled: u32, ev: PcmWriteEvent)
    requires
        stalled < MAX_STALL_POLLS,
    ensures
        ({
            let (_, s, a) = spec_pcm_write_step(offset, stalled, ev);
            (a == PcmWriteAction::Continue || a == PcmWriteAction::Wait || a == PcmWriteAction::Recover) ==> s
                < MAX_STALL_POLLS
        }),
{
}

/// The playback thread's state: consecutive failed writes, and whether
/// audio went silent (the device could not be reopened).
#[derive(Clone, Copy, PartialEq, Eq, Structural, Debug)]
pub struct PlaybackState {
    pub failures: u32,
    pub silent: bool,
}

/// What happened in the playback thread.
#[derive(Clone, Copy, PartialEq, Eq, Structural, Debug)]
pub enum PlaybackEvent {
    /// The stop flag was found set.
    Stopped,
    /// This many samples were taken from the ring buffer (0: it was empty).
    Drained(usize),
    /// The batch was written to the device.
    Written,
    /// Writing the batch failed.
    WriteFailed,
    /// The device was reopened.
    Reopened,
    /// Reopening the device failed.
    ReopenFailed,
}

/// What the playback thread does next.
#[derive(Clone, Copy, PartialEq, Eq, Structural, Debug)]
pub enum PlaybackAction {
    /// Leave the thread.
    Exit,
    /// Nothing queued: sleep a millisecond, then drain again.
    Idle,
    /// Silent: drop the drained samples, sleep 10 ms, drain again.
    Discard,
    /// Write the drained samples to the device.
    Write,
    /// Drain again.
    Continue,
    /// After a failed write: sleep 10 ms, then drain again.
    Backoff,
    /// Close and reopen the device.
    Reopen,
    /// Close the device and play nothing from now on.
    GoSilent,
}

/// The playback thread's next state and action: a successful write or
/// reopen clears the failure count; a failed write counts, and the
/// `REOPEN_AFTER_FAILURES`-th in a row reopens the device; a failed reopen
/// makes playback silent. Drained samples are written, unless playback is
/// silent, where they are dropped.
pub open spec fn spec_playback_step(s: PlaybackState, e: PlaybackEvent) -> (PlaybackState, PlaybackAction) {
    match e {
        PlaybackEvent::Stopped => (s, PlaybackAction::Exit),
        PlaybackEvent::Drained(n) => if n == 0 {
            (s, PlaybackAction::Idle)
        } else if s.silent {
            (s, PlaybackAction::Discard)
        } else {
            (s, PlaybackAction::Write)
        },
        PlaybackEvent::Written => (PlaybackState { failures: 0, ..s }, PlaybackAction::Continue),
        PlaybackEvent::WriteFailed => {
            let f = if s.failures < u32::MAX { (s.failures + 1) as u32 } else { s.failures };
            if f >= REOPEN_AFTER_FAILURES && !s.silent {
                (PlaybackState { failures: f, ..s }, PlaybackAction::Reopen)
            } else {
                (PlaybackState { failures: f, ..s }, PlaybackAction::Backoff)
            }
        },
        PlaybackEvent::Reopened => (PlaybackState { failures: 0, ..s }, PlaybackAction::Continue),
        PlaybackEvent::ReopenFailed => (PlaybackState { silent: true, ..s }, PlaybackAction::GoSilent),
    }
}

/// Playback starts with no failure and sound on.
pub fn playback_start() -> (s: PlaybackState)
    ensures
        s == (PlaybackState { failures: 0, silent: false }),
{
    PlaybackState { failures: 0, silent: false }
}

/// Decide the playback thread's next state and action.
pub fn playback_step(s: PlaybackState, e: PlaybackEvent) -> (r: (PlaybackState, PlaybackAction))
    ensures
        r == spec_playback_step(s, e),
{
    match e {
        PlaybackEvent::Stopped => (s, PlaybackAction::Exit),
        PlaybackEvent::Drained(n) => {
            if n == 0 {
                (s, PlaybackAction::Idle)
            } else if s.silent {
                (s, PlaybackAction::Discard)
            } else {
                (s, PlaybackAction::Write)
            }
        },
        PlaybackEvent::Written => (PlaybackState { failures: 0, ..s }, PlaybackAction::Continue),
        PlaybackEvent::WriteFailed => {
            let f: u32 = if s.failures < u32::MAX { s.failures + 1 } else { s.failures };
            if f >= REOPEN_AFTER_FAILURES && !s.silent {
                (PlaybackState { failures: f, ..s }, PlaybackAction::Reopen)
            } else {
                (PlaybackState { failures: f, ..s }, PlaybackAction::Backoff)
            }
        },
        PlaybackEvent::Reopened => (PlaybackState { failures: 0, ..s }, PlaybackAction::Continue),
        PlaybackEvent::ReopenFailed => (PlaybackState { silent: true, ..s }, PlaybackAction::GoSilent),
    }
}

/// Silent playback never writes to or reopens the device again, stays
/// silent whatever happens, and keeps draining the ring buffer: drained
/// samples are dropped and the thread drains again.
pub proof fn silent_never_writes(s: PlaybackState, e: PlaybackEvent)
    requires
        s.silent,
    ensures
        ({
            let (s2, a) = spec_playback_step(s, e);
            &&& s2.silent
            &&& a != PlaybackAction::Write
            &&& a != PlaybackAction::Reopen
            &&& (e matches PlaybackEvent::Drained(n) && n > 0 ==> a == PlaybackAction::Discard)
        }),
{
}

/// The device is reopened exactly on the `REOPEN_AFTER_FAILURES`-th failed
/// write in a row (counting from a clean state), and a successful write
/// clears the count.
pub proof fn reopen_after_repeated_failures(s: PlaybackState)
    requires
        !s.silent,
        s.failures < REOPEN_AFTER_FAILURES,
    ensures
        spec_playback_step(s, PlaybackEvent::WriteFailed).1 == (if s.failures + 1 == REOPEN_AFTER_FAILURES {
            PlaybackAction::Reopen
        } else {
            PlaybackAction::Backoff
        }),
        spec_playback_step(s, PlaybackEvent::Written).0.failures == 0,
{
}

} // verus!
