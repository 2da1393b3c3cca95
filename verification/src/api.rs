//! State shared between the remote-control WebSocket server and the
//! emulation loop: web joypad input, frame stepping, save/load requests,
//! playback control and queued core option changes, and the frames streamed
//! to clients.
use vstd::prelude::*;
use crate::text::str_eq;
use crate::core_options::keys_distinct;
use crate::video::{frame_xrgb, frame_readable, rgba_byte, read_frame_u32, read_frame_u16, rgb565_to_xrgb8888};

verus! {

/// Button names accepted from the WebSocket protocol; they map directly to
/// libretro `RETRO_DEVICE_ID_JOYPAD` values.
#[derive(Clone, Copy, PartialEq, Eq, Structural, Debug)]
pub enum Button {
    B,
    A,
    Y,
    X,
    L,
    R,
    Start,
    Select,
    Up,
    Down,
    Left,
    Right,
}

/// Joypad state snapshot for a single port from the web client.
#[derive(Clone, Copy, PartialEq, Eq, Structural, Default, Debug)]
pub struct InputSnapshot {
    pub up: bool,
    pub down: bool,
    pub left: bool,
    pub right: bool,
    pub b: bool,
    pub a: bool,
    pub y: bool,
    pub x: bool,
    pub l: bool,
    pub r: bool,
    pub start: bool,
    pub select: bool,
}

/// The state libretro reads for button `id`: 1 pressed, 0 released; an id
/// that is not a joypad button reads as not pressed (0).
pub open spec fn button_state(s: InputSnapshot, id: u32) -> i16 {
    let pressed = if id == 0 {
        s.b
    } else if id == 1 {
        s.y
    } else if id == 2 {
        s.select
    } else if id == 3 {
        s.start
    } else if id == 4 {
        s.up
    } else if id == 5 {
        s.down
    } else if id == 6 {
        s.left
    } else if id == 7 {
        s.right
    } else if id == 8 {
        s.a
    } else if id == 9 {
        s.x
    } else if id == 10 {
        s.l
    } else {
        s.r
    };
    if id > 11 {
        0i16
    } else if pressed {
        1
    } else {
        0
    }
}

/// The snapshot with no button pressed.
pub open spec fn no_buttons() -> InputSnapshot {
    InputSnapshot {
        up: false,
        down: false,
        left: false,
        right: false,
        b: false,
        a: false,
        y: false,
        x: false,
        l: false,
        r: false,
        start: false,
        select: false,
    }
}

impl InputSnapshot {
    /// No button pressed.
    pub fn released() -> (s: Self)
        ensures
            s == no_buttons(),
    {
        InputSnapshot {
            up: false,
            down: false,
            left: false,
            right: false,
            b: false,
            a: false,
            y: false,
            x: false,
            l: false,
            r: false,
            start: false,
            select: false,
        }
    }

    /// The state of libretro joypad button `id` (`retro_input_state_t`).
    pub fn get_button(&self, id: u32) -> (v: i16)
        ensures
            v == button_state(*self, id),
    {
        match id {
            0 => self.b as i16,  // RETRO_DEVICE_ID_JOYPAD_B
            1 => self.y as i16,  // RETRO_DEVICE_ID_JOYPAD_Y
            2 => self.select as i16,  // RETRO_DEVICE_ID_JOYPAD_SELECT
            3 => self.start as i16,  // RETRO_DEVICE_ID_JOYPAD_START
            4 => self.up as i16,  // RETRO_DEVICE_ID_JOYPAD_UP
            5 => self.down as i16,  // RETRO_DEVICE_ID_JOYPAD_DOWN
            6 => self.left as i16,  // RETRO_DEVICE_ID_JOYPAD_LEFT
            7 => self.right as i16,  // RETRO_DEVICE_ID_JOYPAD_RIGHT
            8 => self.a as i16,  // RETRO_DEVICE_ID_JOYPAD_A
            9 => self.x as i16,  // RETRO_DEVICE_ID_JOYPAD_X
            10 => self.l as i16,  // RETRO_DEVICE_ID_JOYPAD_L
            11 => self.r as i16,  // RETRO_DEVICE_ID_JOYPAD_R
            _ => 0,  // unknown button: not pressed
        }
    }
}

/// Combined input state for all player ports.
#[derive(Clone, Copy, PartialEq, Eq, Structural, Default, Debug)]
pub struct AllInputs {
    pub port0: InputSnapshot,
    pub port1: InputSnapshot,
    pub port2: InputSnapshot,
    pub port3: InputSnapshot,
}

/// The snapshot of a port; ports beyond 3 read port 0.
pub open spec fn port_snapshot(inputs: AllInputs, port: u32) -> InputSnapshot {
    if port == 1 {
        inputs.port1
    } else if port == 2 {
        inputs.port2
    } else if port == 3 {
        inputs.port3
    } else {
        inputs.port0
    }
}

/// `inputs` with the snapshot of `port` replaced (ports beyond 3 write port 0).
pub open spec fn with_port(inputs: AllInputs, port: u32, s: InputSnapshot) -> AllInputs {
    if port == 1 {
        AllInputs { port1: s, ..inputs }
    } else if port == 2 {
        AllInputs { port2: s, ..inputs }
    } else if port == 3 {
        AllInputs { port3: s, ..inputs }
    } else {
        AllInputs { port0: s, ..inputs }
    }
}

impl AllInputs {
    /// No button pressed on any port.
    pub fn released() -> (a: Self)
        ensures
            a.port0 == no_buttons() && a.port1 == no_buttons(),
            a.port2 == no_buttons() && a.port3 == no_buttons(),
    {
        AllInputs {
            port0: InputSnapshot::released(),
            port1: InputSnapshot::released(),
            port2: InputSnapshot::released(),
            port3: InputSnapshot::released(),
        }
    }

    /// The snapshot of a port (ports beyond 3 read port 0).
    pub fn get(&self, port: u32) -> (s: &InputSnapshot)
        ensures
            *s == port_snapshot(*self, port),
    {
        match port {
            0 => &self.port0,
            1 => &self.port1,
            2 => &self.port2,
            3 => &self.port3,
            _ => &self.port0,
        }
    }

    /// The snapshot of a port, to change (ports beyond 3 give port 0).
    pub fn get_mut(&mut self, port: u32) -> (s: &mut InputSnapshot)
        ensures
            *s == port_snapshot(*old(self), port),
            *final(self) == with_port(*old(self), port, *final(s)),
    {
        match port {
            0 => &mut self.port0,
            1 => &mut self.port1,
            2 => &mut self.port2,
            3 => &mut self.port3,
            _ => &mut self.port0,
        }
    }

    /// The state of button `id` on `port`.
    pub fn get_state(&self, port: u32, id: u32) -> (v: i16)
        ensures
            v == button_state(port_snapshot(*self, port), id),
    {
        let snapshots = match port {
            0 => &self.port0,
            1 => &self.port1,
            2 => &self.port2,
            3 => &self.port3,
            _ => &self.port0,
        };
        snapshots.get_button(id)
    }
}

/// WebSocket protocol messages from client to server.
pub enum ClientMessage {
    /// Joypad state snapshot (sent continuously or on change)
    Input { port: u32, buttons: InputSnapshot },
    /// Run exactly one frame (pauses after)
    Step,
    /// Resume continuous playback
    Play,
    /// Pause emulation
    Pause,
    /// Trigger save state (same as F2)
    SaveState,
    /// Trigger load state (same as F4)
    LoadState,
    /// Set core option dynamically
    SetOption { key: String, value: String },
}

/// What the server answers a client message with.
pub enum ApiReply {
    /// No answer.
    Nothing,
    /// The requested frame step was scheduled; the client's next frame is
    /// captured.
    FrameDone,
    /// The playback status (running flag, frame rate and resolution).
    Status,
    /// A flash message for the client to show for `duration_ms`.
    Flash { message: String, duration_ms: u64 },
}

/// A captured frame ready for encoding (RGBA pixels).
pub struct CapturedFrame {
    /// Width in pixels
    pub width: u32,
    /// Height in pixels
    pub height: u32,
    /// RGBA pixel data (4 bytes per pixel)
    pub pixels: Vec<u8>,
}

impl CapturedFrame {
    /// A black frame of the given size.
    pub fn new(width: u32, height: u32) -> (f: Self)
        requires
            width * height * 4 <= u32::MAX,
        ensures
            f.width == width,
            f.height == height,
            f.pixels@.len() == width * height * 4,
            forall|i: int| 0 <= i < f.pixels@.len() ==> f.pixels@[i] == 0,
    {
        let size = (width * height * 4) as usize;
        let mut pixels: Vec<u8> = Vec::new();
        let mut i: usize = 0;
        while i < size
            invariant
                0 <= i <= size,
                pixels@.len() == i,
                forall|k: int| 0 <= k < i ==> pixels@[k] == 0,
            decreases size - i,
        {
            pixels.push(0);
            i = i + 1;
        }
        CapturedFrame { width, height, pixels }
    }
}

/// The depth a captured frame is read at: XRGB8888 for 32 bits per pixel,
/// RGB565 otherwise.
pub open spec fn capture_depth(core_bpp: u32) -> u32 {
    if core_bpp == 32 {
        32
    } else {
        16
    }
}

/// Capture a core frame as RGBA (opaque), row by row.
pub fn capture_frame(frame: &[u8], frame_w: u32, frame_h: u32, pitch: usize, core_bpp: u32) -> (c: CapturedFrame)
    requires
        frame_w * frame_h * 4 <= u32::MAX,
        frame_readable(frame@, frame_w as int, frame_h as int, pitch as int, capture_depth(core_bpp)),
    ensures
        c.width == frame_w,
        c.height == frame_h,
        c.pixels@.len() == frame_w * frame_h * 4,
        forall|i: int| 0 <= i < c.pixels@.len() ==> c.pixels@[i] == rgba_byte(
            frame_xrgb(frame@, pitch as int, capture_depth(core_bpp), (i / 4) % (frame_w as int), (i / 4) / (frame_w as int)),
            i % 4,
        ),
{
    let mut snapshot = CapturedFrame::new(frame_w, frame_h);
    let fw = frame_w as usize;
    let fh = frame_h as usize;
    let total: usize = fw * fh;
    let ghost depth = capture_depth(core_bpp);
    let mut k: usize = 0;
    let mut x: usize = 0;
    let mut y: usize = 0;
    proof {
        if total > 0 {
            assert(fw > 0) by (nonlinear_arith)
                requires
                    total == fw * fh,
                    total > 0,
            ;
        }
    }
    while k < total
        invariant
            total == fw * fh,
            fw == frame_w,
            fh == frame_h,
            frame_w * frame_h * 4 <= u32::MAX,
            frame_readable(frame@, fw as int, fh as int, pitch as int, depth),
            depth == capture_depth(core_bpp),
            0 <= k <= total,
            k < total ==> x < fw,
            x <= fw,
            k == y * fw + x,
            snapshot.width == frame_w,
            snapshot.height == frame_h,
            snapshot.pixels@.len() == total * 4,
            forall|b: int| 0 <= b < 4 * k ==> snapshot.pixels@[b] == rgba_byte(
                frame_xrgb(frame@, pitch as int, depth, (b / 4) % (fw as int), (b / 4) / (fw as int)),
                b % 4,
            ),
        decreases total - k,
    {
        proof {
            assert(y < fh) by (nonlinear_arith)
                requires
                    k == y * fw + x,
                    k < total,
                    total == fw * fh,
                    x >= 0,
            ;
            assert(4 * k + 4 <= total * 4);
        }
        let p: u32 = if core_bpp == 32 {
            read_frame_u32(frame, pitch, fw, fh, x, y)
        } else {
            rgb565_to_xrgb8888(read_frame_u16(frame, pitch, fw, fh, x, y))
        };
        let base = 4 * k;
        snapshot.pixels.set(base, (p >> 16) as u8);
        snapshot.pixels.set(base + 1, (p >> 8) as u8);
        snapshot.pixels.set(base + 2, p as u8);
        snapshot.pixels.set(base + 3, 0xFF);
        proof {
            assert forall|b: int| 0 <= b < 4 * (k + 1) implies snapshot.pixels@[b] == rgba_byte(
                frame_xrgb(frame@, pitch as int, depth, (b / 4) % (fw as int), (b / 4) / (fw as int)),
                b % 4,
            ) by {
                if b >= 4 * k {
                    vstd::arithmetic::div_mod::lemma_fundamental_div_mod_converse(b, 4, k as int, b - 4 * k);
                    vstd::arithmetic::div_mod::lemma_fundamental_div_mod_converse(k as int, fw as int, y as int, x as int);
                }
            }
        }
        let ghost k0 = k;
        let ghost x0 = x;
        let ghost y0 = y;
        k = k + 1;
        x = x + 1;
        if x == fw {
            x = 0;
            y = y + 1;
            proof {
                assert(k0 + 1 == (y0 + 1) * fw) by (nonlinear_arith)
                    requires
                        k0 == y0 * fw + x0,
                        x0 + 1 == fw,
                ;
            }
        }
    }
    snapshot
}

/// The four-byte header of a streamed frame: width then height, each a
/// big-endian `u16` (the low 16 bits).
pub open spec fn frame_header(width: u32, height: u32) -> Seq<u8> {
    seq![(width >> 8u32) as u8, (width & 0xFFu32) as u8, (height >> 8u32) as u8, (height & 0xFFu32) as u8]
}

/// The PNG file the `png` crate writes for an 8-bit RGBA image of the
/// given size (none when its encoder refuses the image).
pub uninterp spec fn png_rgba_encoding(width: u32, height: u32, pixels: Seq<u8>) -> Option<Seq<u8>>;

/// Encodes RGBA pixels as a PNG file with the `png` crate (`Encoder::new`,
/// color type RGBA, depth 8, `write_header`, `write_image_data`, `finish`,
/// into a `Vec`). Claimed: the outcome is `png_rgba_encoding` of the
/// arguments; when the encoder refuses an image is not stated.
/// The pixel buffer must hold exactly `width * height` RGBA pixels: then the
/// row length (`width * 4`) and the image size the encoder computes in
/// `usize` are at most the buffer's length, and a zero width or height is
/// refused by `write_header` before any row is cut, so the encoder does not
/// panic.
#[verifier::external_body]
fn encode_png_rgba(width: u32, height: u32, pixels: &[u8]) -> (r: Option<Vec<u8>>)
    requires
        pixels@.len() == width * height * 4,
    ensures
        match r {
            Some(b) => png_rgba_encoding(width, height, pixels@) == Some(b@),
            None => png_rgba_encoding(width, height, pixels@) is None,
        },
{
    let mut buf: Vec<u8> = Vec::new();
    let mut encoder = png::Encoder::new(&mut buf, width, height);
    encoder.set_color(png::ColorType::Rgba);
    encoder.set_depth(png::BitDepth::Eight);
    let mut writer = encoder.write_header().ok()?;
    writer.write_image_data(pixels).ok()?;
    writer.finish().ok()?;
    Some(buf)
}

/// Whether a frame's pixel buffer holds exactly `width * height` RGBA pixels.
pub open spec fn frame_size_matches(frame: &CapturedFrame) -> bool {
    frame.pixels@.len() == frame.width * frame.height * 4
}

/// The binary WebSocket message streaming a captured frame:
/// `[width u16 BE][height u16 BE][PNG bytes]` (none when the pixel buffer
/// does not hold `width * height` RGBA pixels, or when the encoder refuses
/// the frame).
pub fn png_frame_message(frame: &CapturedFrame) -> (m: Option<Vec<u8>>)
    ensures
        match m {
            Some(b) => frame_size_matches(frame) && (png_rgba_encoding(frame.width, frame.height, frame.pixels@)
                matches Some(p) && b@ == frame_header(frame.width, frame.height) + p),
            None => !frame_size_matches(frame) || png_rgba_encoding(frame.width, frame.height, frame.pixels@) is None,
        },
{
    let expected: Option<u64> = match (frame.width as u64).checked_mul(frame.height as u64) {
        Some(n) => n.checked_mul(4),
        None => None,
    };
    let len: usize = frame.pixels.len();
    let size_ok = match expected {
        Some(n) => len as u64 == n,
        None => false,
    };
    if !size_ok {
        proof {
            assert(len as u64 == len);
            assert((frame.width as u64) * (frame.height as u64) <= u64::MAX) by (nonlinear_arith)
                requires
                    frame.width <= u32::MAX,
                    frame.height <= u32::MAX,
            ;
        }
        return None;
    }
    let mut png_bytes = match encode_png_rgba(frame.width, frame.height, frame.pixels.as_slice()) {
        Some(b) => b,
        None => return None,
    };
    let mut binary: Vec<u8> = Vec::new();
    binary.push((frame.width >> 8) as u8);
    binary.push((frame.width & 0xFF) as u8);
    binary.push((frame.height >> 8) as u8);
    binary.push((frame.height & 0xFF) as u8);
    let ghost header = binary@;
    binary.append(&mut png_bytes);
    assert(header =~= frame_header(frame.width, frame.height));
    Some(binary)
}

/// Per-client frame capture mode of the streaming server.
#[derive(Clone, Copy, PartialEq, Eq, Structural, Debug)]
pub enum CaptureMode {
    /// Not capturing.
    Idle,
    /// Every frame is sent.
    Continuous,
    /// The next frame is sent, then capturing stops.
    SingleStep,
}

/// A client's capture mode after a Step command: an idle client captures
/// the stepped frame; one already capturing keeps its mode.
pub fn step_capture_mode(mode: CaptureMode) -> (m: CaptureMode)
    ensures
        m == (if mode == CaptureMode::Idle { CaptureMode::SingleStep } else { mode }),
{
    match mode {
        CaptureMode::Idle => CaptureMode::SingleStep,
        _ => mode,
    }
}

/// Whether a client in this mode is sent the frames that arrive.
pub fn capture_wanted(mode: CaptureMode) -> (b: bool)
    ensures
        b == (mode != CaptureMode::Idle),
{
    match mode {
        CaptureMode::Idle => false,
        _ => true,
    }
}

/// The API state as values.
pub struct ApiView {
    pub running: bool,
    pub paused: bool,
    pub step_frame: bool,
    pub save_requested: bool,
    pub load_requested: bool,
    pub inputs: AllInputs,
    pub options_pending: Seq<(Seq<char>, Seq<char>)>,
}

/// State shared between the WebSocket server and the emulation loop.
pub struct ApiState {
    /// Whether to run continuous playback (false = paused/idle).
    pub running: bool,
    /// Requested state: pause emulation.
    pub paused: bool,
    /// Trigger exactly one frame of execution, then return to idle.
    step_frame: bool,
    /// One-shot request to save a state snapshot.
    save_requested: bool,
    /// One-shot request to load a state snapshot.
    load_requested: bool,
    /// Current input states from the web client (4 ports).
    inputs: AllInputs,
    /// Core option changes pending application.
    options_pending: Vec<(String, String)>,
}

/// Pending option changes as pairs of character sequences.
pub open spec fn pairs_view(v: Seq<(String, String)>) -> Seq<(Seq<char>, Seq<char>)> {
    v.map_values(|e: (String, String)| (e.0@, e.1@))
}

impl View for ApiState {
    type V = ApiView;

    closed spec fn view(&self) -> ApiView {
        ApiView {
            running: self.running,
            paused: self.paused,
            step_frame: self.step_frame,
            save_requested: self.save_requested,
            load_requested: self.load_requested,
            inputs: self.inputs,
            options_pending: pairs_view(self.options_pending@),
        }
    }
}

/// The pending changes after queueing `value` for `key`: an earlier change
/// of the same key is dropped, the new one goes last.
pub open spec fn pending_after_queue(
    pending: Seq<(Seq<char>, Seq<char>)>,
    key: Seq<char>,
    value: Seq<char>,
) -> Seq<(Seq<char>, Seq<char>)> {
    without_key(pending, key).push((key, value))
}

/// The pending changes of other keys than `key`, in order.
pub open spec fn without_key(pending: Seq<(Seq<char>, Seq<char>)>, key: Seq<char>) -> Seq<(Seq<char>, Seq<char>)> {
    pending.filter(|e: (Seq<char>, Seq<char>)| e.0 != key)
}

/// The state after a client message.
pub open spec fn api_after_message(s: ApiView, msg: ClientMessage) -> ApiView {
    match msg {
        ClientMessage::Input { port, buttons } => ApiView { inputs: with_port(s.inputs, port, buttons), ..s },
        ClientMessage::Step => ApiView { step_frame: true, paused: true, ..s },
        ClientMessage::Play => ApiView { running: true, paused: false, ..s },
        ClientMessage::Pause => ApiView { running: false, paused: true, ..s },
        ClientMessage::SaveState => ApiView { save_requested: true, ..s },
        ClientMessage::LoadState => ApiView { load_requested: true, ..s },
        ClientMessage::SetOption { key, value } => ApiView {
            options_pending: pending_after_queue(s.options_pending, key@, value@),
            ..s
        },
    }
}

/// The answer to a client message: input gets none, a step is acknowledged
/// (and its frame captured), play and pause report the status, save, load
/// and option changes get a flash message.
pub open spec fn reply_matches(msg: ClientMessage, r: ApiReply) -> bool {
    match msg {
        ClientMessage::Input { .. } => r is Nothing,
        ClientMessage::Step => r is FrameDone,
        ClientMessage::Play => r is Status,
        ClientMessage::Pause => r is Status,
        ClientMessage::SaveState => r matches ApiReply::Flash { message, duration_ms } && message@ == "Save Requested"@
            && duration_ms == 2000,
        ClientMessage::LoadState => r matches ApiReply::Flash { message, duration_ms } && message@ == "Load Requested"@
            && duration_ms == 2000,
        ClientMessage::SetOption { .. } => r matches ApiReply::Flash { message, duration_ms } && message@
            == "Option Updated"@ && duration_ms == 1500,
    }
}

impl ApiState {
    /// Playing, nothing requested, no button pressed, no option queued.
    pub fn new() -> (s: Self)
        ensures
            s@ == (ApiView {
                running: true,
                paused: false,
                step_frame: false,
                save_requested: false,
                load_requested: false,
                inputs: AllInputs { port0: no_buttons(), port1: no_buttons(), port2: no_buttons(), port3: no_buttons() },
                options_pending: Seq::empty(),
            }),
    {
        let s = ApiState {
            running: true,
            paused: false,
            step_frame: false,
            save_requested: false,
            load_requested: false,
            inputs: AllInputs::released(),
            options_pending: Vec::new(),
        };
        assert(pairs_view(s.options_pending@) =~= Seq::<(Seq<char>, Seq<char>)>::empty());
        s
    }

    /// Check and consume the frame-step flag (true if a step was requested).
    pub fn consume_frame_step(&mut self) -> (b: bool)
        ensures
            b == old(self)@.step_frame,
            final(self)@ == (ApiView { step_frame: false, ..old(self)@ }),
    {
        let b = self.step_frame;
        self.step_frame = false;
        b
    }

    /// Request a single frame: the frame runs once, then emulation stays
    /// paused.
    pub fn request_frame_step(&mut self)
        ensures
            final(self)@ == (ApiView { step_frame: true, paused: true, ..old(self)@ }),
    {
        self.step_frame = true;
        self.paused = true;
    }

    /// Check and consume the save-state flag (true if a save was requested).
    pub fn take_save_request(&mut self) -> (b: bool)
        ensures
            b == old(self)@.save_requested,
            final(self)@ == (ApiView { save_requested: false, ..old(self)@ }),
    {
        let b = self.save_requested;
        self.save_requested = false;
        b
    }

    /// Request a save state.
    pub fn request_save_state(&mut self)
        ensures
            final(self)@ == (ApiView { save_requested: true, ..old(self)@ }),
    {
        self.save_requested = true;
    }

    /// Check and consume the load-state flag (true if a load was requested).
    pub fn take_load_request(&mut self) -> (b: bool)
        ensures
            b == old(self)@.load_requested,
            final(self)@ == (ApiView { load_requested: false, ..old(self)@ }),
    {
        let b = self.load_requested;
        self.load_requested = false;
        b
    }

    /// Request a state load.
    pub fn request_load_state(&mut self)
        ensures
            final(self)@ == (ApiView { load_requested: true, ..old(self)@ }),
    {
        self.load_requested = true;
    }

    /// Start continuous playback.
    pub fn start_playback(&mut self)
        ensures
            final(self)@ == (ApiView { running: true, paused: false, ..old(self)@ }),
    {
        self.running = true;
        self.paused = false;
    }

    /// Pause emulation.
    pub fn pause_emulation(&mut self)
        ensures
            final(self)@ == (ApiView { running: false, paused: true, ..old(self)@ }),
    {
        self.running = false;
        self.paused = true;
    }

    /// The web client's state of button `id` on `port`.
    pub fn get_input_state(&mut self, port: u32, id: u32) -> (v: i16)
        ensures
            v == button_state(port_snapshot(old(self)@.inputs, port), id),
            final(self)@ == old(self)@,
    {
        self.inputs.get_state(port, id)
    }

    /// The web client's snapshot of a port.
    pub fn get_input_snapshot(&self, port: u32) -> (s: &InputSnapshot)
        ensures
            *s == port_snapshot(self@.inputs, port),
    {
        self.inputs.get(port)
    }

    /// Set the web client's snapshot of a port.
    pub fn set_input(&mut self, port: u32, buttons: InputSnapshot)
        ensures
            final(self)@ == (ApiView { inputs: with_port(old(self)@.inputs, port, buttons), ..old(self)@ }),
    {
        *self.inputs.get_mut(port) = buttons;
    }

    /// All pending option changes, in order; the queue is emptied.
    pub fn take_pending_options(&mut self) -> (v: Vec<(String, String)>)
        ensures
            pairs_view(v@) == old(self)@.options_pending,
            final(self)@ == (ApiView { options_pending: Seq::empty(), ..old(self)@ }),
    {
        let mut v: Vec<(String, String)> = Vec::new();
        std::mem::swap(&mut v, &mut self.options_pending);
        assert(pairs_view(self.options_pending@) =~= Seq::<(Seq<char>, Seq<char>)>::empty());
        v
    }

    /// Queue a core option change: an earlier change of the same key is
    /// dropped, the new one goes last.
    pub fn queue_option_change(&mut self, key: String, value: String)
        ensures
            final(self)@ == (ApiView {
                options_pending: pending_after_queue(old(self)@.options_pending, key@, value@),
                ..old(self)@
            }),
    {
        let ghost pend = pairs_view(self.options_pending@);
        let ghost pred = |e: (Seq<char>, Seq<char>)| e.0 != key@;
        let mut kept: Vec<(String, String)> = Vec::new();
        let mut i: usize = 0;
        assert(pend.take(0) =~= Seq::<(Seq<char>, Seq<char>)>::empty());
        assert(pairs_view(kept@) =~= Seq::<(Seq<char>, Seq<char>)>::empty());
        while i < self.options_pending.len()
            invariant
                0 <= i <= self.options_pending@.len(),
                pend == pairs_view(self.options_pending@),
                pred == (|e: (Seq<char>, Seq<char>)| e.0 != key@),
                pairs_view(kept@) == pend.take(i as int).filter(pred),
                self@ == old(self)@,
            decreases self.options_pending@.len() - i,
        {
            let ghost before = pairs_view(kept@);
            proof {
                reveal(Seq::filter);
                assert(pend.take(i + 1).drop_last() =~= pend.take(i as int));
                assert(pend.take(i + 1).last() == pend[i as int]);
                assert(pend[i as int] == (self.options_pending@[i as int].0@, self.options_pending@[i as int].1@));
            }
            if !str_eq(self.options_pending[i].0.as_str(), key.as_str()) {
                let e = (self.options_pending[i].0.clone(), self.options_pending[i].1.clone());
                kept.push(e);
                proof {
                    assert(pairs_view(kept@) =~= before.push(pend[i as int]));
                }
            }
            i = i + 1;
        }
        proof {
            assert(pend.take(i as int) =~= pend);
        }
        let ghost filtered = pairs_view(kept@);
        kept.push((key, value));
        assert(pairs_view(kept@) =~= filtered.push((key@, value@)));
        self.options_pending = kept;
    }

    /// Whether emulation should run this frame: playing and not paused.
    pub fn is_running(&self) -> (b: bool)
        ensures
            b == (self@.running && !self@.paused),
    {
        self.running && !self.paused
    }

    /// Apply a client message and say how to answer it.
    pub fn handle_message(&mut self, msg: ClientMessage) -> (r: ApiReply)
        ensures
            final(self)@ == api_after_message(old(self)@, msg),
            reply_matches(msg, r),
    {
        match msg {
            ClientMessage::Input { port, buttons } => {
                self.set_input(port, buttons);
                ApiReply::Nothing
            },
            ClientMessage::Step => {
                self.request_frame_step();
                ApiReply::FrameDone
            },
            ClientMessage::Play => {
                self.start_playback();
                ApiReply::Status
            },
            ClientMessage::Pause => {
                self.pause_emulation();
                ApiReply::Status
            },
            ClientMessage::SaveState => {
                self.request_save_state();
                ApiReply::Flash { message: String::from_str("Save Requested"), duration_ms: 2000 }
            },
            ClientMessage::LoadState => {
                self.request_load_state();
                ApiReply::Flash { message: String::from_str("Load Requested"), duration_ms: 2000 }
            },
            ClientMessage::SetOption { key, value } => {
                let ghost k = key@;
                let ghost v = value@;
                self.queue_option_change(key, value);
                ApiReply::Flash { message: String::from_str("Option Updated"), duration_ms: 1500 }
            },
        }
    }
}

/// Whether some entry has key `k`.
pub open spec fn has_key(s: Seq<(Seq<char>, Seq<char>)>, k: Seq<char>) -> bool {
    exists|j: int| 0 <= j < s.len() && (#[trigger] s[j]).0 == k
}

/// Dropping the entries of one key keeps the keys distinct, and every key
/// left is one of the given entries' keys.
proof fn lemma_drop_key_distinct(pending: Seq<(Seq<char>, Seq<char>)>, key: Seq<char>)
    requires
        keys_distinct(pending),
    ensures
        keys_distinct(without_key(pending, key)),
        forall|i: int|
            0 <= i < without_key(pending, key).len() ==> (#[trigger] without_key(pending, key)[i]).0 != key
                && has_key(pending, without_key(pending, key)[i].0),
    decreases pending.len(),
{
    let pred = |e: (Seq<char>, Seq<char>)| e.0 != key;
    reveal(Seq::filter);
    if pending.len() > 0 {
        let init = pending.drop_last();
        let last = pending.last();
        assert(keys_distinct(init)) by {
            assert forall|i: int, j: int| 0 <= i < j < init.len() implies (#[trigger] init[i]).0 != (
            #[trigger] init[j]).0 by {
                assert(init[i] == pending[i] && init[j] == pending[j]);
            }
        }
        lemma_drop_key_distinct(init, key);
        let f0 = without_key(init, key);
        assert forall|i: int| 0 <= i < f0.len() implies has_key(pending, (#[trigger] f0[i]).0) by {
            assert(has_key(init, f0[i].0));
            let j = choose|j: int| 0 <= j < init.len() && (#[trigger] init[j]).0 == f0[i].0;
            assert(pending[j] == init[j]);
        }
        if pred(last) {
            let f = f0.push(last);
            assert(without_key(pending, key) == f);
            assert forall|i: int| 0 <= i < f0.len() implies (#[trigger] f0[i]).0 != last.0 by {
                assert(has_key(init, f0[i].0));
                let j = choose|j: int| 0 <= j < init.len() && (#[trigger] init[j]).0 == f0[i].0;
                assert(pending[j] == init[j]);
                assert(pending[pending.len() - 1] == last);
            }
            assert forall|i: int, j: int| 0 <= i < j < f.len() implies (#[trigger] f[i]).0 != (
            #[trigger] f[j]).0 by {
                if j == f.len() - 1 {
                    assert(f[i] == f0[i]);
                } else {
                    assert(f[i] == f0[i] && f[j] == f0[j]);
                }
            }
            assert forall|i: int| 0 <= i < f.len() implies (#[trigger] f[i]).0 != key && has_key(pending, f[i].0) by {
                if i == f.len() - 1 {
                    assert(pending[pending.len() - 1] == last);
                } else {
                    assert(f[i] == f0[i]);
                }
            }
        } else {
            assert(without_key(pending, key) == f0);
        }
    }
}

/// Queued option changes hold each key once: queueing a change of a key
/// drops the earlier change of that key and puts the new one last, so the
/// latest value of a key is the one applied.
pub proof fn queued_option_latest_once(
    pending: Seq<(Seq<char>, Seq<char>)>,
    key: Seq<char>,
    value: Seq<char>,
)
    requires
        keys_distinct(pending),
    ensures
        ({
            let q = pending_after_queue(pending, key, value);
            &&& keys_distinct(q)
            &&& q.last() == (key, value)
            &&& forall|i: int| 0 <= i < q.len() - 1 ==> (#[trigger] q[i]).0 != key
        }),
{
    lemma_drop_key_distinct(pending, key);
    let f = without_key(pending, key);
    let q = pending_after_queue(pending, key, value);
    assert(q == f.push((key, value)));
    assert forall|i: int, j: int| 0 <= i < j < q.len() implies (#[trigger] q[i]).0 != (#[trigger] q[j]).0 by {
        assert(q[i] == f[i]);
        if j < q.len() - 1 {
            assert(q[j] == f[j]);
        }
    }
    assert forall|i: int| 0 <= i < q.len() - 1 implies (#[trigger] q[i]).0 != key by {
        assert(q[i] == f[i]);
    }
}

/// What the web client last sent for a port is what the core reads: after
/// an input message, every button of that port reads as the message set it.
pub proof fn web_input_read_back(s: ApiView, port: u32, buttons: InputSnapshot, id: u32)
    ensures
        button_state(
            port_snapshot(api_after_message(s, ClientMessage::Input { port, buttons }).inputs, port),
            id,
        ) == button_state(buttons, id),
{
}

/// A step request runs one frame and pauses: after a Step message the step
/// flag is set (consuming it clears it) and emulation is paused, so it is
/// not running.
pub proof fn step_runs_one_frame(s: ApiView)
    ensures
        api_after_message(s, ClientMessage::Step).step_frame,
        api_after_message(s, ClientMessage::Step).paused,
{
}

} // verus!
