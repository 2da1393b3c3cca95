//! Verified core of a small libretro frontend: the audio ring buffer, the
//! option menu and overlay GUI state, input mapping, pixel conversion and
//! overlay drawing, frame throttling, save-file paths and ZIP ROM selection.
use vstd::prelude::*;
use crate::text::{chars_of, string_from_chars};

pub mod audio;
pub mod audio_null;
pub mod playback;
pub mod text;
pub mod core_options;
pub mod gui;
pub mod input;
pub mod overlay;
pub mod font;
pub mod video;
pub mod fbdev;
pub mod api;
pub mod sram;
pub mod config;
pub mod zip_rom;

verus! {

/// An error reported by the core loader or a core call.
#[derive(Debug)]
pub struct CoreError {
    pub message: String,
}

impl CoreError {
    /// An error with the given message.
    pub fn new(message: String) -> (e: Self)
        ensures
            e.message@ == message@,
    {
        CoreError { message }
    }

    /// The text shown for the error: `CoreError: ` followed by the message.
    pub fn to_display_string(&self) -> (s: String)
        ensures
            s@ == "CoreError: "@ + self.message@,
    {
        let mut cs = chars_of("CoreError: ");
        let mut ms = chars_of(self.message.as_str());
        cs.append(&mut ms);
        string_from_chars(cs)
    }
}

/// Frame pacing: the next frame is due at `next_frame` (microseconds of a
/// monotonic clock), frames are `frame_time` apart.
pub struct Throttle {
    frame_time: u64,
    next_frame: u64,
}

/// The pacing state as values: the frame period and the due time of the
/// next frame.
pub struct ThrottleView {
    pub frame_time: nat,
    pub next_frame: nat,
}

impl View for Throttle {
    type V = ThrottleView;

    closed spec fn view(&self) -> ThrottleView {
        ThrottleView { frame_time: self.frame_time as nat, next_frame: self.next_frame as nat }
    }
}

/// What `check_wait` returns at time `now`: the microseconds left until the
/// next frame is due (positive while it is early, zero or negative once it
/// is due).
pub open spec fn wait_time(t: ThrottleView, now: nat) -> int {
    t.next_frame - now
}

/// The pacing state after `check_wait` at time `now`: once the frame is
/// due, the due time moves on by one period; before that nothing changes.
pub open spec fn throttle_after_check(t: ThrottleView, now: nat) -> ThrottleView {
    if wait_time(t, now) > 0 {
        t
    } else {
        ThrottleView { next_frame: t.next_frame + t.frame_time, ..t }
    }
}

impl Throttle {
    /// Pacing with period `frame_time` (microseconds), started at `now`: the
    /// first frame is due one period later.
    pub fn new(frame_time: u64, now: u64) -> (t: Self)
        requires
            now + frame_time <= u64::MAX,
        ensures
            t@ == (ThrottleView { frame_time: frame_time as nat, next_frame: (now + frame_time) as nat }),
    {
        Throttle { frame_time, next_frame: now + frame_time }
    }

    /// The frame period in microseconds.
    pub fn frame_time(&self) -> (f: u64)
        ensures
            f == self@.frame_time,
    {
        self.frame_time
    }

    /// The due time of the next frame.
    pub fn next_frame(&self) -> (n: u64)
        ensures
            n == self@.next_frame,
    {
        self.next_frame
    }

    /// Microseconds to wait before the next frame, at time `now`. A value of
    /// zero or less means the frame is due; the due time then moves on by
    /// one period.
    pub fn check_wait(&mut self, now: u64) -> (w: i64)
        requires
            old(self)@.next_frame <= i64::MAX,
            now <= i64::MAX,
            wait_time(old(self)@, now as nat) <= 0 ==> old(self)@.next_frame + old(self)@.frame_time
                <= u64::MAX,
        ensures
            w == wait_time(old(self)@, now as nat),
            final(self)@ == throttle_after_check(old(self)@, now as nat),
    {
        let result: i64 = self.next_frame as i64 - now as i64;
        if result > 0 {
            result
        } else {
            self.next_frame = self.next_frame + self.frame_time;
            result
        }
    }

    /// Skip a frame's wait: the due time moves on by one period.
    pub fn skip_check(&mut self)
        requires
            old(self)@.next_frame + old(self)@.frame_time <= u64::MAX,
        ensures
            final(self)@ == (ThrottleView {
                next_frame: old(self)@.next_frame + old(self)@.frame_time,
                ..old(self)@
            }),
    {
        self.next_frame = self.next_frame + self.frame_time;
    }
}

/// The libretro environment requests the frontend answers, by command
/// number (`RETRO_ENVIRONMENT_*`).
#[derive(Clone, Copy, PartialEq, Eq, Structural, Debug)]
pub enum EnvRequest {
    /// 27: hand the core the log callback.
    GetLogInterface,
    /// 9: hand the core the system directory.
    GetSystemDirectory,
    /// 10: the core's pixel format.
    SetPixelFormat,
    /// 52: the core options API version the frontend speaks.
    GetCoreOptionsVersion,
    /// 53: version 1 option definitions.
    SetCoreOptions,
    /// 67: version 2 option definitions.
    SetCoreOptionsV2,
    /// 68: version 2 option definitions, localized.
    SetCoreOptionsV2Intl,
    /// 55: whether an option is shown.
    SetCoreOptionsDisplay,
    /// 32: new audio and video timing and geometry.
    SetSystemAvInfo,
    /// 37: new geometry.
    SetGeometry,
    /// 16: old-style option declarations.
    SetVariables,
    /// 15: the current value of an option.
    GetVariable,
    /// 17: whether an option changed since the last ask.
    GetVariableUpdate,
    /// Any other command: refused.
    Unsupported,
}

/// The request a command number stands for.
pub open spec fn env_request_of(cmd: u32) -> EnvRequest {
    if cmd == 27 {
        EnvRequest::GetLogInterface
    } else if cmd == 9 {
        EnvRequest::GetSystemDirectory
    } else if cmd == 10 {
        EnvRequest::SetPixelFormat
    } else if cmd == 52 {
        EnvRequest::GetCoreOptionsVersion
    } else if cmd == 53 {
        EnvRequest::SetCoreOptions
    } else if cmd == 67 {
        EnvRequest::SetCoreOptionsV2
    } else if cmd == 68 {
        EnvRequest::SetCoreOptionsV2Intl
    } else if cmd == 55 {
        EnvRequest::SetCoreOptionsDisplay
    } else if cmd == 32 {
        EnvRequest::SetSystemAvInfo
    } else if cmd == 37 {
        EnvRequest::SetGeometry
    } else if cmd == 16 {
        EnvRequest::SetVariables
    } else if cmd == 15 {
        EnvRequest::GetVariable
    } else if cmd == 17 {
        EnvRequest::GetVariableUpdate
    } else {
        EnvRequest::Unsupported
    }
}

/// Classify an environment command.
pub fn env_request(cmd: u32) -> (r: EnvRequest)
    ensures
        r == env_request_of(cmd),
{
    match cmd {
        27 => EnvRequest::GetLogInterface,
        9 => EnvRequest::GetSystemDirectory,
        10 => EnvRequest::SetPixelFormat,
        52 => EnvRequest::GetCoreOptionsVersion,
        53 => EnvRequest::SetCoreOptions,
        67 => EnvRequest::SetCoreOptionsV2,
        68 => EnvRequest::SetCoreOptionsV2Intl,
        55 => EnvRequest::SetCoreOptionsDisplay,
        32 => EnvRequest::SetSystemAvInfo,
        37 => EnvRequest::SetGeometry,
        16 => EnvRequest::SetVariables,
        15 => EnvRequest::GetVariable,
        17 => EnvRequest::GetVariableUpdate,
        _ => EnvRequest::Unsupported,
    }
}

/// What the environment callback answers the core: true for every command
/// it knows, false for the rest.
pub fn env_request_handled(r: EnvRequest) -> (b: bool)
    ensures
        b == (r != EnvRequest::Unsupported),
{
    match r {
        EnvRequest::Unsupported => false,
        _ => true,
    }
}

/// Answer GET_VARIABLE_UPDATE: whether an option changed since the core
/// last asked; the flag is cleared.
pub fn take_variable_update(pending: &mut bool) -> (changed: bool)
    ensures
        changed == *old(pending),
        *final(pending) == false,
{
    let changed = *pending;
    *pending = false;
    changed
}

/// Frames are paced one period apart: while the next frame is not due the
/// state stays, and each check at or after the due time moves the due time
/// on by exactly one period (the wait grows by that period).
pub proof fn throttle_paces_by_period(t: ThrottleView, now: nat)
    ensures
        wait_time(t, now) > 0 ==> throttle_after_check(t, now) == t,
        wait_time(t, now) <= 0 ==> throttle_after_check(t, now).next_frame == t.next_frame + t.frame_time,
        throttle_after_check(t, now).frame_time == t.frame_time,
        wait_time(t, now) <= 0 ==> wait_time(throttle_after_check(t, now), now) == wait_time(t, now)
            + t.frame_time,
{
}

/// The commands the environment callback knows, by their libretro numbers:
/// each known request comes from exactly one command number (15 is
/// GET_VARIABLE, 16 SET_VARIABLES, 17 GET_VARIABLE_UPDATE, and so on), and
/// a command is answered `true` exactly when it is one of these thirteen.
pub proof fn env_commands_by_number(cmd: u32)
    ensures
        env_request_of(cmd) == EnvRequest::GetLogInterface <==> cmd == 27,
        env_request_of(cmd) == EnvRequest::GetSystemDirectory <==> cmd == 9,
        env_request_of(cmd) == EnvRequest::SetPixelFormat <==> cmd == 10,
        env_request_of(cmd) == EnvRequest::GetCoreOptionsVersion <==> cmd == 52,
        env_request_of(cmd) == EnvRequest::SetCoreOptions <==> cmd == 53,
        env_request_of(cmd) == EnvRequest::SetCoreOptionsV2 <==> cmd == 67,
        env_request_of(cmd) == EnvRequest::SetCoreOptionsV2Intl <==> cmd == 68,
        env_request_of(cmd) == EnvRequest::SetCoreOptionsDisplay <==> cmd == 55,
        env_request_of(cmd) == EnvRequest::SetSystemAvInfo <==> cmd == 32,
        env_request_of(cmd) == EnvRequest::SetGeometry <==> cmd == 37,
        env_request_of(cmd) == EnvRequest::SetVariables <==> cmd == 16,
        env_request_of(cmd) == EnvRequest::GetVariable <==> cmd == 15,
        env_request_of(cmd) == EnvRequest::GetVariableUpdate <==> cmd == 17,
        (env_request_of(cmd) != EnvRequest::Unsupported) <==> (cmd == 27 || cmd == 9 || cmd == 10 || cmd == 52
            || cmd == 53 || cmd == 67 || cmd == 68 || cmd == 55 || cmd == 32 || cmd == 37 || cmd == 16 || cmd == 15
            || cmd == 17),
{
}

} // verus!
