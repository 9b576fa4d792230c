use vstd::prelude::*;
use vstd::arithmetic::div_mod::lemma_fundamental_div_mod_converse;
use crate::clocks::Clock;
use crate::display::{Colour, Colours, BYTES_PER_PIXEL};
use crate::objects::{
    collide, BallState, CollisionState, MissileState, PlayerState, PlayfieldState,
};
use crate::tiasound::{AudioChannel, TiaSound};

verus! {

/// Switches for the objects drawn (they also gate collisions).
pub struct DebugControl {}

impl DebugControl {
    pub const SHOW_BACKGROUND: bool = true;
    pub const SHOW_PF: bool = true;
    pub const SHOW_BL: bool = true;
    pub const SHOW_P0: bool = true;
    pub const SHOW_P1: bool = true;
    pub const SHOW_M0: bool = true;
    pub const SHOW_M1: bool = true;
}

pub struct Constants {}

impl Constants {
    pub const ATARI2600_WIDTH: u16 = 160;
    pub const ATARI2600_HEIGHT: u16 = 220;
    pub const PIXEL_WIDTH_STRETCH: u8 = 2;
    pub const VSYNC_MASK: u8 = 0x2;
    pub const VSYNC_ON: u8 = 0x2;
    pub const VSYNC_OFF: u8 = 0x0;
    /// Palette index of the colour registers at power on.
    pub const DEFAULT_COLOUR: u8 = 0;
}

/// Host inputs: paddles (0..3) and the two joystick buttons (4, 5).
#[derive(Clone, Copy)]
pub struct Input {
    pub input0: u8,
    pub input1: u8,
    pub input2: u8,
    pub input3: u8,
    pub input4: u8,
    pub input5: u8,
}

impl Input {
    pub fn new() -> (r: Self)
        ensures
            r.input0 == 0 && r.input1 == 0 && r.input2 == 0 && r.input3 == 0,
            r.input4 == 0x80 && r.input5 == 0x80,
    {
        Input { input0: 0, input1: 0, input2: 0, input3: 0, input4: 0x80, input5: 0x80 }
    }
}

/// Registers that take effect per pixel: colours (as palette indices),
/// CTRLPF and the horizontal motion values.
#[derive(Clone, Copy)]
pub struct LineState {
    pub p_colour0: u8,
    pub p_colour1: u8,
    pub background_colour: u8,
    pub playfield_colour: u8,
    pub ctrlpf: u8,
    pub hmp0: u8,
    pub hmp1: u8,
    pub hmm0: u8,
    pub hmm1: u8,
    pub hmbl: u8,
}

impl LineState {
    pub fn new() -> (r: Self)
        ensures
            r.p_colour0 == 0 && r.p_colour1 == 0 && r.background_colour == 0 && r.playfield_colour == 0,
            r.ctrlpf == 0 && r.hmp0 == 0 && r.hmp1 == 0 && r.hmm0 == 0 && r.hmm1 == 0 && r.hmbl == 0,
    {
        LineState {
            p_colour0: Constants::DEFAULT_COLOUR,
            p_colour1: Constants::DEFAULT_COLOUR,
            background_colour: Constants::DEFAULT_COLOUR,
            playfield_colour: Constants::DEFAULT_COLOUR,
            ctrlpf: 0,
            hmp0: 0,
            hmp1: 0,
            hmm0: 0,
            hmm1: 0,
            hmbl: 0,
        }
    }
}

/// Colour clocks per scanline.
pub const HORIZONTAL_TICKS: u64 = 228;
/// Number of display rows kept (lines `START_DRAW_Y .. END_DRAW_Y`).
pub const DISPLAY_ROWS: u64 = 267;
/// Length of the display buffer: one palette index per pixel.
pub const DISPLAY_LEN: u64 = 42720;
/// First and one-past-last colour clock (from the start of the frame) drawn.
pub const START_POS: u64 = 4560;
pub const END_POS: u64 = 65436;

/// Colour clock of the frame at which display entry `i` is drawn.
pub open spec fn pos_of_index(i: int) -> int {
    (i / 160 + 20) * 228 + 68 + i % 160
}

/// Display entry of the visible colour clock `p`.
pub open spec fn index_of_pos(p: int) -> int {
    (p / 228 - 20) * 160 + p % 228 - 68
}

pub open spec fn visible_pos(p: int) -> bool {
    START_POS <= p < END_POS && p % 228 >= 68
}

proof fn lemma_pos_of_index(i: int)
    requires
        0 <= i < DISPLAY_LEN,
    ensures
        pos_of_index(i) / 228 == i / 160 + 20,
        pos_of_index(i) % 228 == 68 + i % 160,
        visible_pos(pos_of_index(i)),
        index_of_pos(pos_of_index(i)) == i,
{
    lemma_fundamental_div_mod_converse(pos_of_index(i), 228, i / 160 + 20, 68 + i % 160);
}

proof fn lemma_index_of_pos(p: int)
    requires
        visible_pos(p),
    ensures
        0 <= index_of_pos(p) < DISPLAY_LEN,
        pos_of_index(index_of_pos(p)) == p,
        index_of_pos(p) % 160 == p % 228 - 68,
{
    let i = index_of_pos(p);
    lemma_fundamental_div_mod_converse(i, 160, p / 228 - 20, p % 228 - 68);
}

/// The TIA: graphics objects, collision latches, the raster that catches up
/// with the CPU clock, and the audio generator.
pub struct Stella {
    pub tiasound: TiaSound,
    pub input: Input,
    pub vsync_debug_output_clock: u64,
    pub screen_start_clock: u64,
    pub paddle_start_clock: u64,
    pub last_screen_update_clock: u64,
    pub next_line: LineState,
    pub is_vsync: bool,
    pub is_blank: bool,
    pub is_input_latched: bool,
    pub is_update_time: bool,
    pub is_hmove_scan: bool,
    /// Line (from the start of the frame) whose first 8 pixels HMOVE blanks.
    pub hmove_line: u64,
    pub colours: Colours,
    /// Palette index of each pixel, row by row.
    pub display_lines: Vec<u8>,
    pub collision_state: CollisionState,
    pub playfield_state: PlayfieldState,
    pub p0_state: PlayerState,
    pub p1_state: PlayerState,
    pub missile0: MissileState,
    pub missile1: MissileState,
    pub ball: BallState,
    pub scanline_debug: bool,
}

/// Colour (palette index) of pixel `x` of a line: by default P0/M0 over
/// P1/M1 over PF/BL over background; with CTRLPF bit 2 set PF/BL come first.
pub open spec fn pixel_colour(s: Stella, x: int) -> u8 {
    let p0 = s.p0_state.scan_line@[x];
    let p1 = s.p1_state.scan_line@[x];
    let m0 = s.missile0.scan_line@[x];
    let m1 = s.missile1.scan_line@[x];
    let bl = s.ball.scan_line@[x];
    let pf = s.playfield_state.pf_lookup@[x];
    let nl = s.next_line;
    let c = if nl.ctrlpf & 4 == 0 {
        if p0 || m0 {
            nl.p_colour0
        } else if p1 || m1 {
            nl.p_colour1
        } else if pf || bl {
            nl.playfield_colour
        } else {
            nl.background_colour
        }
    } else {
        if pf || bl {
            nl.playfield_colour
        } else if p0 || m0 {
            nl.p_colour0
        } else if p1 || m1 {
            nl.p_colour1
        } else {
            nl.background_colour
        }
    };
    if s.scanline_debug && x == s.p1_state.pos_start {
        0x3C
    } else if s.scanline_debug && x == s.p0_state.pos_start {
        0x07
    } else {
        c
    }
}

/// Whether the visible colour clock `p` falls in the late blank after HMOVE.
pub open spec fn blanked(s: Stella, p: int) -> bool {
    s.is_hmove_scan && p / 228 == s.hmove_line && p % 228 < 76
}

/// What is drawn at the visible colour clock `p`.
pub open spec fn drawn_colour(s: Stella, p: int) -> u8 {
    if blanked(s, p) {
        0
    } else {
        pixel_colour(s, p % 228 - 68)
    }
}

/// Latches after the objects at pixel `x` have been seen.
pub open spec fn collide_at(s: Stella, c: CollisionState, x: int) -> CollisionState {
    collide(
        c,
        s.p0_state.scan_line@[x],
        s.p1_state.scan_line@[x],
        s.missile0.scan_line@[x],
        s.missile1.scan_line@[x],
        s.ball.scan_line@[x],
        s.playfield_state.pf_lookup@[x],
    )
}

/// Latches after the colour clocks `lo .. hi` of the frame have been drawn.
pub open spec fn collisions_between(s: Stella, c: CollisionState, lo: int, hi: int) -> CollisionState
    decreases hi - lo,
{
    if hi <= lo {
        c
    } else {
        let prev = collisions_between(s, c, lo, hi - 1);
        if visible_pos(hi - 1) && !blanked(s, hi - 1) {
            collide_at(s, prev, (hi - 1) % 228 - 68)
        } else {
            prev
        }
    }
}

/// First colour clock of the frame that a scan draws.
pub open spec fn scan_lo(s: Stella) -> int {
    let lo = if s.last_screen_update_clock < s.screen_start_clock {
        0
    } else {
        s.last_screen_update_clock - s.screen_start_clock
    };
    if lo < START_POS {
        START_POS as int
    } else if lo > END_POS {
        END_POS as int
    } else {
        lo
    }
}

/// One past the last colour clock of the frame that a scan to `ticks +
/// future` draws.
pub open spec fn scan_hi(s: Stella, ticks: u64, future: u8) -> int {
    let hi = if ticks < s.screen_start_clock {
        0
    } else {
        ticks - s.screen_start_clock + future
    };
    if hi > END_POS {
        END_POS as int
    } else {
        hi
    }
}

/// The display after a scan of `s` up to `ticks + future`.
pub open spec fn scanned_display(s: Stella, ticks: u64, future: u8) -> Seq<u8> {
    Seq::new(
        s.display_lines@.len(),
        |i: int|
            if scan_lo(s) <= pos_of_index(i) < scan_hi(s, ticks, future) {
                drawn_colour(s, pos_of_index(i))
            } else {
                s.display_lines@[i]
            },
    )
}

pub open spec fn sat_add(a: u64, b: int) -> u64 {
    if a + b > u64::MAX {
        u64::MAX
    } else {
        (a + b) as u64
    }
}

/// Colour clocks after a register write at which the change shows: 5 for
/// PF0..PF2 and RESP0/1, 4 for RESM0/1 and RESBL, 6 for HMOVE, else 1.
pub open spec fn write_delay(address: u16) -> u8 {
    let r = address % 64;
    if 0x0D <= r <= 0x11 {
        5
    } else if 0x12 <= r <= 0x14 {
        4
    } else if r == 0x2A {
        6
    } else {
        1
    }
}

/// Colour clock within the line, from the start of the frame, at which an
/// object reset written at `t` takes effect.
pub open spec fn reset_position(t: u64, start: u64, future: u8) -> u8 {
    if t >= start {
        (((t - start) % 228 + future) % 228) as u8
    } else {
        (future % 228) as u8
    }
}

/// Colour clocks into the current line.
pub open spec fn line_ticks(t: u64, start: u64) -> u8 {
    if t >= start {
        ((t - start) % 228) as u8
    } else {
        0
    }
}

/// Signed motion of an HMxx value: its top nibble, sign-extended.
pub open spec fn hmove_clocks_spec(hm: u8, ticks: u8) -> int {
    let hi = (hm / 16) as int;
    if hi >= 8 {
        hi - 16
    } else {
        hi
    }
}

/// Reset position after a move by `shift` (to the left when positive).
pub open spec fn moved(res: u8, shift: int) -> u8 {
    (((res - shift + 256) % 256) % 228) as u8
}

/// Line whose first 8 visible pixels an HMOVE at `t` blanks.
pub open spec fn hmove_line_of(t: u64, start: u64) -> u64 {
    let q = if t >= start {
        t - start
    } else {
        0
    };
    if q % 228 < 76 {
        (q / 228) as u64
    } else {
        (q / 228 + 1) as u64
    }
}

/// The clock after a write to `address` at `t`: WSYNC runs on to the start
/// of the next line, RSYNC to a line boundary.
pub open spec fn ticks_after(o: Stella, t: u64, address: u16) -> u64 {
    let r = address % 64;
    let start = o.screen_start_clock;
    if t < start {
        t
    } else if r == 0x02 {
        let e = (t - start) % 228;
        if e > 0 {
            sat_add(t, 228 - e)
        } else {
            t
        }
    } else if r == 0x03 {
        if t - start > 3 {
            sat_add(t, 228 - ((t - start) % 228 + 3) % 228)
        } else {
            t
        }
    } else {
        t
    }
}

/// `o` with the raster state (display, latches, last update) of `n`.
pub open spec fn with_raster_of(o: Stella, n: Stella) -> Stella {
    Stella {
        display_lines: n.display_lines,
        collision_state: n.collision_state,
        last_screen_update_clock: n.last_screen_update_clock,
        ..o
    }
}

/// `n` is `o` after `data` was written to the register at `address` at
/// clock `t` (the raster state aside).
pub open spec fn register_written(o: Stella, n: Stella, t: u64, address: u16, data: u8) -> bool {
    let r = address % 64;
    let b = with_raster_of(o, n);
    let nl = o.next_line;
    let future = write_delay(address);
    let c = line_ticks(t, o.screen_start_clock);
    if r == 0x00 {
        if !o.is_vsync && data & 2 == 2 {
            n == Stella { is_update_time: true, is_vsync: true, ..b }
        } else if o.is_vsync && data & 2 == 0 {
            n == Stella { is_vsync: false, vsync_debug_output_clock: t, screen_start_clock: t, ..b }
        } else {
            n == b
        }
    } else if r == 0x01 {
        n == Stella {
            is_input_latched: data & 0x40 != 0,
            paddle_start_clock: if data & 0x80 == 0x80 { t } else { o.paddle_start_clock },
            input: if data & 0x80 == 0x80 { Input { input0: 0, ..o.input } } else { o.input },
            is_blank: data & 2 == 2,
            ..b
        }
    } else if r == 0x04 {
        &&& n == Stella { p0_state: n.p0_state, missile0: n.missile0, ..b }
        &&& n.p0_state.settled_from(PlayerState { nusiz: data, ..o.p0_state })
        &&& n.missile0.settled(data, o.missile0.enam, o.missile0.resm)
    } else if r == 0x05 {
        &&& n == Stella { p1_state: n.p1_state, missile1: n.missile1, ..b }
        &&& n.p1_state.settled_from(PlayerState { nusiz: data, ..o.p1_state })
        &&& n.missile1.settled(data, o.missile1.enam, o.missile1.resm)
    } else if r == 0x06 {
        n == Stella { next_line: LineState { p_colour0: data / 2, ..nl }, ..b }
    } else if r == 0x07 {
        n == Stella { next_line: LineState { p_colour1: data / 2, ..nl }, ..b }
    } else if r == 0x08 {
        n == Stella { next_line: LineState { playfield_colour: data / 2, ..nl }, ..b }
    } else if r == 0x09 {
        n == Stella { next_line: LineState { background_colour: data / 2, ..nl }, ..b }
    } else if r == 0x0A {
        &&& n == Stella {
            next_line: LineState { ctrlpf: data, ..nl },
            playfield_state: n.playfield_state,
            ball: n.ball,
            ..b
        }
        &&& n.playfield_state.wf() && n.playfield_state.ctrlpf == data
        &&& n.playfield_state.pf0 == o.playfield_state.pf0 && n.playfield_state.pf1 == o.playfield_state.pf1
        &&& n.playfield_state.pf2 == o.playfield_state.pf2
        &&& n.ball.same_regs(BallState { ctrlpf: data, ..o.ball })
    } else if r == 0x0B {
        n == Stella { p0_state: n.p0_state, ..b } && n.p0_state.settled_from(PlayerState { refp: data, ..o.p0_state })
    } else if r == 0x0C {
        n == Stella { p1_state: n.p1_state, ..b } && n.p1_state.settled_from(PlayerState { refp: data, ..o.p1_state })
    } else if 0x0D <= r <= 0x0F {
        &&& n == Stella { playfield_state: n.playfield_state, ..b }
        &&& n.playfield_state.wf() && n.playfield_state.ctrlpf == o.playfield_state.ctrlpf
        &&& n.playfield_state.pf0 == if r == 0x0D { data } else { o.playfield_state.pf0 }
        &&& n.playfield_state.pf1 == if r == 0x0E { data } else { o.playfield_state.pf1 }
        &&& n.playfield_state.pf2 == if r == 0x0F { data } else { o.playfield_state.pf2 }
    } else if r == 0x10 {
        &&& n == Stella { p0_state: n.p0_state, ..b }
        &&& n.p0_state.settled_from(PlayerState { resp: reset_position(t, o.screen_start_clock, future), ..o.p0_state })
    } else if r == 0x11 {
        &&& n == Stella { p1_state: n.p1_state, ..b }
        &&& n.p1_state.settled_from(PlayerState { resp: reset_position(t, o.screen_start_clock, future), ..o.p1_state })
    } else if r == 0x12 {
        &&& n == Stella { missile0: n.missile0, ..b }
        &&& n.missile0.settled(o.missile0.nusiz, o.missile0.enam, reset_position(t, o.screen_start_clock, future))
    } else if r == 0x13 {
        &&& n == Stella { missile1: n.missile1, ..b }
        &&& n.missile1.settled(o.missile1.nusiz, o.missile1.enam, reset_position(t, o.screen_start_clock, future))
    } else if r == 0x14 {
        &&& n == Stella { ball: n.ball, ..b }
        &&& n.ball.same_regs(BallState { resbl: reset_position(t, o.screen_start_clock, future), ..o.ball })
    } else if 0x15 <= r <= 0x1A {
        let g = o.tiasound.generated(t);
        &&& n == Stella { tiasound: n.tiasound, ..b }
        &&& n.tiasound.generated_from(o.tiasound, t)
        &&& n.tiasound.ch0 == if r == 0x15 {
            AudioChannel { wave_form: data, ..g.ch0 }
        } else if r == 0x17 {
            AudioChannel { freq: data & 0x1F, ..g.ch0 }
        } else if r == 0x19 {
            AudioChannel { volume: data, ..g.ch0 }
        } else {
            g.ch0
        }
        &&& n.tiasound.ch1 == if r == 0x16 {
            AudioChannel { wave_form: data, ..g.ch1 }
        } else if r == 0x18 {
            AudioChannel { freq: data & 0x1F, ..g.ch1 }
        } else if r == 0x1A {
            AudioChannel { volume: data, ..g.ch1 }
        } else {
            g.ch1
        }
    } else if r == 0x1B {
        &&& n == Stella { p0_state: n.p0_state, p1_state: n.p1_state, ..b }
        &&& n.p0_state.settled_from(PlayerState { p: data, ..o.p0_state })
        &&& n.p1_state.settled_from(PlayerState { p_old: o.p1_state.p, ..o.p1_state })
    } else if r == 0x1C {
        &&& n == Stella { p0_state: n.p0_state, p1_state: n.p1_state, ball: n.ball, ..b }
        &&& n.p1_state.settled_from(PlayerState { p: data, ..o.p1_state })
        &&& n.p0_state.settled_from(PlayerState { p_old: o.p0_state.p, ..o.p0_state })
        &&& n.ball.same_regs(BallState { enabl_old: o.ball.enabl, ..o.ball })
    } else if r == 0x1D {
        n == Stella { missile0: n.missile0, ..b } && n.missile0.settled(o.missile0.nusiz, data, o.missile0.resm)
    } else if r == 0x1E {
        n == Stella { missile1: n.missile1, ..b } && n.missile1.settled(o.missile1.nusiz, data, o.missile1.resm)
    } else if r == 0x1F {
        n == Stella { ball: n.ball, ..b } && n.ball.same_regs(BallState { enabl: data, ..o.ball })
    } else if r == 0x20 {
        n == Stella { next_line: LineState { hmp0: data, ..nl }, ..b }
    } else if r == 0x21 {
        n == Stella { next_line: LineState { hmp1: data, ..nl }, ..b }
    } else if r == 0x22 {
        n == Stella { next_line: LineState { hmm0: data, ..nl }, ..b }
    } else if r == 0x23 {
        n == Stella { next_line: LineState { hmm1: data, ..nl }, ..b }
    } else if r == 0x24 {
        n == Stella { next_line: LineState { hmbl: data, ..nl }, ..b }
    } else if r == 0x25 {
        n == Stella { p0_state: n.p0_state, ..b } && n.p0_state.settled_from(PlayerState { vdelp: data, ..o.p0_state })
    } else if r == 0x26 {
        n == Stella { p1_state: n.p1_state, ..b } && n.p1_state.settled_from(PlayerState { vdelp: data, ..o.p1_state })
    } else if r == 0x27 {
        n == Stella { ball: n.ball, ..b } && n.ball.same_regs(BallState { vdelbl: data, ..o.ball })
    } else if r == 0x2A {
        hmoved(o, n, t)
    } else if r == 0x2B {
        n == Stella { next_line: LineState { hmp0: 0, hmp1: 0, hmm0: 0, hmm1: 0, hmbl: 0, ..nl }, ..b }
    } else {
        n == b
    }
}

/// `n` is `o` after HMOVE at clock `t`: each object moved by its motion
/// register, and the late blank scheduled.
pub open spec fn hmoved(o: Stella, n: Stella, t: u64) -> bool {
    let c = line_ticks(t, o.screen_start_clock);
    let nl = o.next_line;
    &&& n == Stella {
        p0_state: n.p0_state,
        p1_state: n.p1_state,
        missile0: n.missile0,
        missile1: n.missile1,
        ball: n.ball,
        is_hmove_scan: true,
        hmove_line: hmove_line_of(t, o.screen_start_clock),
        ..with_raster_of(o, n)
    }
    &&& n.p0_state.settled_from(PlayerState { resp: moved(o.p0_state.resp, hmove_clocks_spec(nl.hmp0, c)), ..o.p0_state })
    &&& n.p1_state.settled_from(PlayerState { resp: moved(o.p1_state.resp, hmove_clocks_spec(nl.hmp1, c)), ..o.p1_state })
    &&& n.missile0.settled(o.missile0.nusiz, o.missile0.enam, moved(o.missile0.resm, hmove_clocks_spec(nl.hmm0, c)))
    &&& n.missile1.settled(o.missile1.nusiz, o.missile1.enam, moved(o.missile1.resm, hmove_clocks_spec(nl.hmm1, c)))
    &&& n.ball.same_regs(BallState { resbl: moved(o.ball.resbl, hmove_clocks_spec(nl.hmbl, c)), ..o.ball })
}

/// Value of a paddle input: once it reads 0 after a recharge, bit 7 rises
/// `20000 + charge` colour clocks after the recharge.
pub open spec fn paddle_value(current: u8, reset: u64, ticks: u64, charge: int) -> u8 {
    if current != 0 {
        current
    } else if ticks > reset + 20000 + charge {
        0x80
    } else {
        0
    }
}

/// Charge time of a paddle in its centre position.
pub const PADDLE_CENTRE_CHARGE: u64 = 16000;

/// What a read of the TIA register at `address` returns.
pub open spec fn read_value(s: Stella, ticks: u64, address: u16) -> u8 {
    let r = address % 16;
    let c = s.collision_state;
    let i = s.input;
    let reset = s.paddle_start_clock;
    if r == 0 {
        c.cxmp0
    } else if r == 1 {
        c.cxmp1
    } else if r == 2 {
        c.cxpfb0
    } else if r == 3 {
        c.cxpfb1
    } else if r == 4 {
        c.cxmfb0
    } else if r == 5 {
        c.cxmfb1
    } else if r == 6 {
        c.cxblpf
    } else if r == 7 {
        c.cxppmm
    } else if r == 8 {
        paddle_value(i.input0, reset, ticks, PADDLE_CENTRE_CHARGE as int)
    } else if r == 9 {
        paddle_value(i.input1, reset, ticks, PADDLE_CENTRE_CHARGE as int)
    } else if r == 10 {
        paddle_value(i.input2, reset, ticks, PADDLE_CENTRE_CHARGE as int)
    } else if r == 11 {
        paddle_value(i.input3, reset, ticks, PADDLE_CENTRE_CHARGE as int)
    } else if r == 12 {
        i.input4
    } else if r == 13 {
        i.input5
    } else {
        0
    }
}

/// The raster state after a register write: untouched, but for CXCLR
/// clearing the latches and the end of VSYNC restarting the frame.
pub open spec fn raster_kept(o: Stella, n: Stella, t: u64, address: u16, data: u8) -> bool {
    let r = address % 64;
    &&& n.display_lines == o.display_lines
    &&& n.collision_state == if r == 0x2C {
        crate::objects::cleared()
    } else {
        o.collision_state
    }
    &&& n.last_screen_update_clock == if r == 0 && o.is_vsync && data & 2 == 0 {
        t
    } else {
        o.last_screen_update_clock
    }
}

/// `n` is `o` after the write, the raster state included, and well formed.
pub open spec fn written(o: Stella, n: Stella, t: u64, address: u16, data: u8) -> bool {
    register_written(o, n, t, address, data) && raster_kept(o, n, t, address, data) && n.wf()
}

/// `n` and the clock value `nt` are what a write of `data` to the TIA
/// register at `address`, at clock `t`, leaves of `o`: the pixels owed up to
/// the register's write delay drawn with the old registers (unless vertical
/// blank is on), then the register changed.
pub open spec fn tia_write(o: Stella, n: Stella, t: u64, nt: u64, address: u16, data: u8) -> bool {
    let future = write_delay(address);
    &&& n.wf()
    &&& register_written(o, n, t, address, data)
    &&& nt == ticks_after(o, t, address)
    &&& nt >= t
    &&& n.display_lines@ == if o.is_blank {
        o.display_lines@
    } else {
        scanned_display(o, t, future)
    }
    &&& n.collision_state == if address % 64 == 0x2C {
        crate::objects::cleared()
    } else if o.is_blank {
        o.collision_state
    } else {
        collisions_between(o, o.collision_state, scan_lo(o), scan_hi(o, t, future))
    }
    &&& n.last_screen_update_clock == if address % 64 == 0 && o.is_vsync && data & 2 == 0 {
        t
    } else if o.is_blank {
        o.last_screen_update_clock
    } else {
        sat_add(t, future as int)
    }
    &&& (o.last_screen_update_clock <= t + 6 ==> n.last_screen_update_clock <= nt + 6)
}

/// Byte `i` of the host frame: the palette colour of display row `20 + i /
/// 640`, four bytes per pixel.
pub open spec fn frame_byte(s: Stella, i: int) -> u8 {
    s.colours.colours@[s.display_lines@[i / 4 + 3200] as int].rgb888()[i % 4]
}

/// Bytes in a host frame.
pub const FRAME_BYTES: usize = 140800;

impl Stella {
    pub const FRAME_WIDTH: u16 = 160;
    pub const FRAME_HEIGHT: u16 = 220;
    pub const HORIZONTAL_BLANK: u16 = 68;
    pub const LATE_HORIZONTAL_BLANK: u16 = 76;
    pub const HORIZONTAL_TICKS: u64 = 228;
    pub const INPUT_45_LATCH_MASK: u8 = 0x40;
    pub const BLANK_PADDLE_RECHARGE: u8 = 0x80;
    pub const BLANK_MASK: u8 = 0x2;
    pub const BLANK_ON: u8 = 0x2;
    pub const BLANK_OFF: u8 = 0x0;
    pub const PF_PRIORITY: u8 = 0x4;
    pub const VBLANK_LINES: u16 = 37;
    pub const OVERSCAN_LINES: u16 = 30;
    pub const START_DRAW_Y: u16 = 20;
    pub const END_DRAW_Y: u16 = 287;

    /// Well-formedness: every object's scan matches its registers, the
    /// colour registers and every pixel of the display are palette indices,
    /// and reset positions lie within a line.
    pub open spec fn wf(&self) -> bool {
        &&& self.display_lines@.len() == DISPLAY_LEN
        &&& forall|i: int| 0 <= i < DISPLAY_LEN ==> #[trigger] self.display_lines@[i] < 128
        &&& self.next_line.p_colour0 < 128 && self.next_line.p_colour1 < 128
        &&& self.next_line.background_colour < 128 && self.next_line.playfield_colour < 128
        &&& self.colours.wf()
        &&& self.playfield_state.wf()
        &&& self.ball.wf() && self.ball.resbl < 228
        &&& self.missile0.wf() && self.missile0.resm < 228
        &&& self.missile1.wf() && self.missile1.resm < 228
        &&& self.p0_state.wf() && self.p0_state.resp < 228
        &&& self.p1_state.wf() && self.p1_state.resp < 228
    }

    pub fn new(scanline_debug: bool, realtime: bool, colours: Colours) -> (r: Self)
        requires
            colours.wf(),
        ensures
            r.wf(),
            r.is_blank && !r.is_vsync && !r.is_update_time && !r.is_hmove_scan,
            r.screen_start_clock == 0 && r.last_screen_update_clock == 0,
            r.collision_state == crate::objects::cleared(),
            r.colours == colours,
            r.scanline_debug == scanline_debug,
            r.tiasound.realtime == realtime,
            r.tiasound.ch0 == r.tiasound.ch1,
            r.tiasound.ch0 == (AudioChannel { volume: 0, freq: 0, poly4: 0, poly5: 0, wave_form: 0, freq_pos: 0 }),
            r.tiasound.last_update_time == 0,
            r.tiasound.working_stream@.len() == 0,
            r.p0_state.settled(0, 0, 0, 0, 0, 0),
            r.p1_state.settled(0, 0, 0, 0, 0, 0),
            r.missile0.settled(0, 0, 0),
            r.missile1.settled(0, 0, 0),
            r.ball.enabl == 0 && r.ball.enabl_old == 0 && r.ball.vdelbl == 0 && r.ball.resbl == 0 && r.ball.ctrlpf == 0,
            r.playfield_state.pf0 == 0 && r.playfield_state.pf1 == 0 && r.playfield_state.pf2 == 0,
            r.playfield_state.ctrlpf == 0,
            r.next_line == (LineState {
                p_colour0: 0,
                p_colour1: 0,
                background_colour: 0,
                playfield_colour: 0,
                ctrlpf: 0,
                hmp0: 0,
                hmp1: 0,
                hmm0: 0,
                hmm1: 0,
                hmbl: 0,
            }),
            r.input == (Input { input0: 0, input1: 0, input2: 0, input3: 0, input4: 0x80, input5: 0x80 }),
            r.paddle_start_clock == 0 && r.vsync_debug_output_clock == 0 && r.hmove_line == 0,
            !r.is_input_latched,
            forall|x: int| 0 <= x < 160 ==> !r.p0_state.scan_line@[x] && !r.p1_state.scan_line@[x],
            forall|x: int| 0 <= x < 160 ==> !r.missile0.scan_line@[x] && !r.missile1.scan_line@[x],
            forall|x: int| 0 <= x < 160 ==> !r.ball.scan_line@[x] && !r.playfield_state.pf_lookup@[x],
            forall|i: int| 0 <= i < DISPLAY_LEN ==> r.display_lines@[i] == 0,
    {
        let mut display_lines: Vec<u8> = Vec::new();
        let mut i: u64 = 0;
        while i < DISPLAY_LEN
            invariant
                i <= DISPLAY_LEN,
                display_lines@.len() == i,
                forall|j: int| 0 <= j < i ==> display_lines@[j] == 0,
            decreases DISPLAY_LEN - i,
        {
            display_lines.push(0);
            i += 1;
        }
        let p0_state = PlayerState::new();
        let p1_state = PlayerState::new();
        let missile0 = MissileState::new();
        let missile1 = MissileState::new();
        proof {
            assert((0u8 & 2u8) == 0u8) by (bit_vector);
            assert(forall|k: u8| (0u8 >> k) & 1u8 == 0u8) by (bit_vector);
            assert forall|x: int| 0 <= x < 160 implies !p0_state.scan_line@[x] && !p1_state.scan_line@[x] by {
            }
            assert forall|x: int| 0 <= x < 160 implies !missile0.scan_line@[x] && !missile1.scan_line@[x] by {}
        }
        Stella {
            tiasound: TiaSound::new(realtime),
            input: Input::new(),
            vsync_debug_output_clock: 0,
            screen_start_clock: 0,
            paddle_start_clock: 0,
            last_screen_update_clock: 0,
            next_line: LineState::new(),
            is_vsync: false,
            is_blank: true,
            is_input_latched: false,
            is_update_time: false,
            is_hmove_scan: false,
            hmove_line: 0,
            colours,
            display_lines,
            collision_state: CollisionState::new(),
            playfield_state: PlayfieldState::new(),
            p0_state,
            p1_state,
            missile0,
            missile1,
            ball: BallState::new(),
            scanline_debug,
        }
    }

    fn colour_at(&self, x: usize) -> (r: u8)
        requires
            self.wf(),
            x < 160,
        ensures
            r == pixel_colour(*self, x as int),
            r < 128,
    {
        let p0 = self.p0_state.scan_line[x] && DebugControl::SHOW_P0;
        let p1 = self.p1_state.scan_line[x] && DebugControl::SHOW_P1;
        let m0 = self.missile0.scan_line[x] && DebugControl::SHOW_M0;
        let m1 = self.missile1.scan_line[x] && DebugControl::SHOW_M1;
        let bl = self.ball.scan_line[x] && DebugControl::SHOW_BL;
        let pf = self.playfield_state.pf_lookup[x] && DebugControl::SHOW_PF;
        let nl = &self.next_line;
        let c = if nl.ctrlpf & Stella::PF_PRIORITY == 0 {
            if p0 || m0 {
                nl.p_colour0
            } else if p1 || m1 {
                nl.p_colour1
            } else if pf || bl {
                nl.playfield_colour
            } else {
                nl.background_colour
            }
        } else {
            if pf || bl {
                nl.playfield_colour
            } else if p0 || m0 {
                nl.p_colour0
            } else if p1 || m1 {
                nl.p_colour1
            } else {
                nl.background_colour
            }
        };
        if self.scanline_debug && x as u16 == self.p1_state.pos_start {
            0x3C
        } else if self.scanline_debug && x as u16 == self.p0_state.pos_start {
            0x07
        } else {
            c
        }
    }

    /// Draws the colour clock `p` of the frame, when it is visible.
    fn draw_at(&mut self, p: u64)
        requires
            old(self).wf(),
            START_POS <= p < END_POS,
        ensures
            final(self).wf(),
            final(self).display_lines@ == if visible_pos(p as int) {
                old(self).display_lines@.update(index_of_pos(p as int), drawn_colour(*old(self), p as int))
            } else {
                old(self).display_lines@
            },
            final(self).collision_state == if visible_pos(p as int) && !blanked(*old(self), p as int) {
                collide_at(*old(self), old(self).collision_state, p % 228 - 68)
            } else {
                old(self).collision_state
            },
            *final(self) == (Stella {
                display_lines: final(self).display_lines,
                collision_state: final(self).collision_state,
                ..*old(self)
            }),
    {
        let col = p % HORIZONTAL_TICKS;
        if col >= 68 {
            let x = (col - 68) as usize;
            let line = p / HORIZONTAL_TICKS;
            let idx = ((line - 20) * 160 + (col - 68)) as usize;
            proof {
                lemma_index_of_pos(p as int);
            }
            let blank = self.is_hmove_scan && line == self.hmove_line && col < 76;
            let colour = if blank { 0 } else { self.colour_at(x) };
            self.display_lines.set(idx, colour);
            if !blank {
                let p0 = self.p0_state.scan_line[x] && DebugControl::SHOW_P0;
                let p1 = self.p1_state.scan_line[x] && DebugControl::SHOW_P1;
                let m0 = self.missile0.scan_line[x] && DebugControl::SHOW_M0;
                let m1 = self.missile1.scan_line[x] && DebugControl::SHOW_M1;
                let bl = self.ball.scan_line[x] && DebugControl::SHOW_BL;
                let pf = self.playfield_state.pf_lookup[x] && DebugControl::SHOW_PF;
                self.collision_state.update_collisions(p0, p1, m0, m1, bl, pf);
            }
            proof {
                assert forall|i: int| 0 <= i < DISPLAY_LEN implies #[trigger] self.display_lines@[i] < 128 by {
                    if i != idx {
                        assert(self.display_lines@[i] == old(self).display_lines@[i]);
                    }
                }
            }
        }
    }

    /// Draws every pixel owed from the last update up to `clock + future_pixels`
    /// (the register's write delay), latching collisions on the way.
    pub fn screen_scan(&mut self, clock: &Clock, future_pixels: u8)
        requires
            old(self).wf(),
        ensures
            final(self).wf(),
            final(self).display_lines@ == scanned_display(*old(self), clock.ticks, future_pixels),
            final(self).collision_state == collisions_between(
                *old(self),
                old(self).collision_state,
                scan_lo(*old(self)),
                scan_hi(*old(self), clock.ticks, future_pixels),
            ),
            final(self).last_screen_update_clock == sat_add(clock.ticks, future_pixels as int),
            *final(self) == (Stella {
                display_lines: final(self).display_lines,
                collision_state: final(self).collision_state,
                last_screen_update_clock: final(self).last_screen_update_clock,
                ..*old(self)
            }),
    {
        let start = self.screen_start_clock;
        let lo0: u64 = if self.last_screen_update_clock < start {
            0
        } else {
            self.last_screen_update_clock - start
        };
        let lo: u64 = if lo0 < START_POS {
            START_POS
        } else if lo0 > END_POS {
            END_POS
        } else {
            lo0
        };
        let hi0: u64 = if clock.ticks < start {
            0
        } else if clock.ticks - start >= END_POS {
            END_POS
        } else {
            clock.ticks - start + future_pixels as u64
        };
        let hi: u64 = if hi0 > END_POS { END_POS } else { hi0 };
        let ghost pre = *self;
        assert(lo == scan_lo(pre) && hi == scan_hi(pre, clock.ticks, future_pixels));
        let p_end: u64 = if hi < lo { lo } else { hi };
        let mut p: u64 = lo;
        while p < p_end
            invariant
                lo <= p <= p_end <= END_POS,
                START_POS <= lo,
                p_end == if hi < lo { lo as int } else { hi as int },
                lo == scan_lo(pre),
                hi == scan_hi(pre, clock.ticks, future_pixels),
                pre.wf(),
                self.wf(),
                *self == (Stella {
                    display_lines: self.display_lines,
                    collision_state: self.collision_state,
                    ..pre
                }),
                forall|i: int|
                    0 <= i < DISPLAY_LEN ==> #[trigger] self.display_lines@[i] == if lo <= pos_of_index(i) < p {
                        drawn_colour(pre, pos_of_index(i))
                    } else {
                        pre.display_lines@[i]
                    },
                self.collision_state == collisions_between(pre, pre.collision_state, lo as int, p as int),
            decreases p_end - p,
        {
            let ghost before = self.display_lines@;
            self.draw_at(p);
            proof {
                assert forall|i: int| 0 <= i < DISPLAY_LEN implies #[trigger] self.display_lines@[i] == if lo <= pos_of_index(i) < p + 1 {
                    drawn_colour(pre, pos_of_index(i))
                } else {
                    pre.display_lines@[i]
                } by {
                    lemma_pos_of_index(i);
                    if visible_pos(p as int) {
                        lemma_index_of_pos(p as int);
                    }
                }
            }
            p += 1;
        }
        self.last_screen_update_clock = clock.ticks.saturating_add(future_pixels as u64);
        proof {
            assert(self.display_lines@ =~= scanned_display(pre, clock.ticks, future_pixels));
        }
    }
}

impl Stella {
    /// Colour clocks after the write at which a write to `address` shows.
    pub fn get_write_delay(&self, address: u16) -> (r: u8)
        ensures
            r == write_delay(address),
            1 <= r <= 6,
    {
        let default_future: u8 = 1;
        match address % 64 {
            0x00 => default_future, // VSYNC
            0x01 => default_future, // VBLANK
            0x02 => default_future, // WSYNC
            0x03 => default_future, // RSYNC
            0x04 => default_future, // NUSIZ0
            0x05 => default_future, // NUSIZ1
            0x06 => default_future, // COLUP0
            0x07 => default_future, // COLUP1
            0x08 => default_future, // COLUPF
            0x09 => default_future, // COLUBK
            0x0A => default_future, // CTRLPF
            0x0B => default_future, // REFP0
            0x0C => default_future, // REFP1
            0x0D => 5, // PF0
            0x0E => 5, // PF1
            0x0F => 5, // PF2
            0x10 => 5, // RESP0
            0x11 => 5, // RESP1
            0x12 => 4, // RESM0
            0x13 => 4, // RESM1
            0x14 => 4, // RESBL
            0x15 => default_future, // AUDC0
            0x16 => default_future, // AUDC1
            0x17 => default_future, // AUDF0
            0x18 => default_future, // AUDF1
            0x19 => default_future, // AUDV0
            0x1A => default_future, // AUDV1
            0x1B => default_future, // GRP0
            0x1C => default_future, // GRP1
            0x1D => default_future, // ENAM0
            0x1E => default_future, // ENAM1
            0x1F => default_future, // ENABL
            0x20 => default_future, // HMP0
            0x21 => default_future, // HMP1
            0x22 => default_future, // HMM0
            0x23 => default_future, // HMM1
            0x24 => default_future, // HMBL
            0x2A => 6, // HMOVE
            0x2B => default_future, // HCLR
            0x25 => default_future, // VDELP0
            0x26 => default_future, // VDELP1
            0x27 => default_future, // VDELBL
            0x2C => default_future, // CXCLR
            _ => default_future,
        }
    }

    fn reset_pos(&self, clock: &Clock, future: u8) -> (r: u8)
        ensures
            r == reset_position(clock.ticks, self.screen_start_clock, future),
            r < 228,
    {
        let t = clock.ticks;
        let start = self.screen_start_clock;
        if t >= start {
            (((t - start) % 228 + future as u64) % 228) as u8
        } else {
            (future as u64 % 228) as u8
        }
    }

    fn write_vsync(&mut self, clock: &Clock, address: u16, data: u8)
        requires
            old(self).wf(),
            address % 64 == 0x00,
        ensures
            written(*old(self), *final(self), clock.ticks, address, data),
    {
        if !self.is_vsync {
            if Constants::VSYNC_ON == (data & Constants::VSYNC_MASK) {
                self.is_update_time = true;
                self.is_vsync = true;
            }
        } else if Constants::VSYNC_OFF == (data & Constants::VSYNC_MASK) {
            self.is_vsync = false;
            self.vsync_debug_output_clock = clock.ticks;
            self.screen_start_clock = clock.ticks;
            self.last_screen_update_clock = self.screen_start_clock;
        }
    }

    fn write_vblank(&mut self, clock: &Clock, address: u16, data: u8)
        requires
            old(self).wf(),
            address % 64 == 0x01,
        ensures
            written(*old(self), *final(self), clock.ticks, address, data),
    {
        self.is_input_latched = 0 != data & Stella::INPUT_45_LATCH_MASK;
        if (data & Stella::BLANK_PADDLE_RECHARGE) == Stella::BLANK_PADDLE_RECHARGE {
            self.paddle_start_clock = clock.ticks;
            self.input.input0 = 0x00;
        }
        self.is_blank = (data & Stella::BLANK_MASK) == Stella::BLANK_ON;
    }

    /// Holds the CPU to the start of the next line.
    fn write_wsync(&mut self, clock: &mut Clock, address: u16, data: u8)
        requires
            old(self).wf(),
            address % 64 == 0x02,
        ensures
            written(*old(self), *final(self), old(clock).ticks, address, data),
            final(clock).ticks == ticks_after(*old(self), old(clock).ticks, address),
    {
        let t = clock.ticks;
        if t >= self.screen_start_clock {
            let e = (t - self.screen_start_clock) % HORIZONTAL_TICKS;
            if e > 0 {
                clock.ticks = t.saturating_add(HORIZONTAL_TICKS - e);
            }
        }
    }

    fn write_rsync(&mut self, clock: &mut Clock, address: u16, data: u8)
        requires
            old(self).wf(),
            address % 64 == 0x03,
        ensures
            written(*old(self), *final(self), old(clock).ticks, address, data),
            final(clock).ticks == ticks_after(*old(self), old(clock).ticks, address),
    {
        let fudge: u64 = 3;
        let t = clock.ticks;
        if t >= self.screen_start_clock && t - self.screen_start_clock > 3 {
            clock.ticks = t.saturating_add(HORIZONTAL_TICKS - ((t - self.screen_start_clock) % HORIZONTAL_TICKS + fudge) % HORIZONTAL_TICKS);
        }
    }

    fn write_nusiz0(&mut self, clock: &Clock, address: u16, data: u8)
        requires
            old(self).wf(),
            address % 64 == 0x04,
        ensures
            written(*old(self), *final(self), clock.ticks, address, data),
    {
        self.p0_state.update_nusiz(data);
        self.missile0.update_nusiz(data);
    }

    fn write_nusiz1(&mut self, clock: &Clock, address: u16, data: u8)
        requires
            old(self).wf(),
            address % 64 == 0x05,
        ensures
            written(*old(self), *final(self), clock.ticks, address, data),
    {
        self.p1_state.update_nusiz(data);
        self.missile1.update_nusiz(data);
    }

    fn write_colump0(&mut self, clock: &Clock, address: u16, data: u8)
        requires
            old(self).wf(),
            address % 64 == 0x06,
        ensures
            written(*old(self), *final(self), clock.ticks, address, data),
    {
        self.next_line.p_colour0 = data / 2;
    }

    fn write_colump1(&mut self, clock: &Clock, address: u16, data: u8)
        requires
            old(self).wf(),
            address % 64 == 0x07,
        ensures
            written(*old(self), *final(self), clock.ticks, address, data),
    {
        self.next_line.p_colour1 = data / 2;
    }

    fn write_colupf(&mut self, clock: &Clock, address: u16, data: u8)
        requires
            old(self).wf(),
            address % 64 == 0x08,
        ensures
            written(*old(self), *final(self), clock.ticks, address, data),
    {
        self.next_line.playfield_colour = data / 2;
    }

    fn write_colubk(&mut self, clock: &Clock, address: u16, data: u8)
        requires
            old(self).wf(),
            address % 64 == 0x09,
        ensures
            written(*old(self), *final(self), clock.ticks, address, data),
    {
        self.next_line.background_colour = data / 2;
    }

    fn write_ctrlpf(&mut self, clock: &Clock, address: u16, data: u8)
        requires
            old(self).wf(),
            address % 64 == 0x0A,
        ensures
            written(*old(self), *final(self), clock.ticks, address, data),
    {
        self.next_line.ctrlpf = data;
        self.playfield_state.update_ctrlpf(data);
        self.ball.update_ctrlpf(data);
    }

    fn write_refp0(&mut self, clock: &Clock, address: u16, data: u8)
        requires
            old(self).wf(),
            address % 64 == 0x0B,
        ensures
            written(*old(self), *final(self), clock.ticks, address, data),
    {
        self.p0_state.update_refp(data);
    }

    fn write_refp1(&mut self, clock: &Clock, address: u16, data: u8)
        requires
            old(self).wf(),
            address % 64 == 0x0C,
        ensures
            written(*old(self), *final(self), clock.ticks, address, data),
    {
        self.p1_state.update_refp(data);
    }

    fn write_pf0(&mut self, clock: &Clock, address: u16, data: u8)
        requires
            old(self).wf(),
            address % 64 == 0x0D,
        ensures
            written(*old(self), *final(self), clock.ticks, address, data),
    {
        self.playfield_state.update_pf0(data);
    }

    fn write_pf1(&mut self, clock: &Clock, address: u16, data: u8)
        requires
            old(self).wf(),
            address % 64 == 0x0E,
        ensures
            written(*old(self), *final(self), clock.ticks, address, data),
    {
        self.playfield_state.update_pf1(data);
    }

    fn write_pf2(&mut self, clock: &Clock, address: u16, data: u8)
        requires
            old(self).wf(),
            address % 64 == 0x0F,
        ensures
            written(*old(self), *final(self), clock.ticks, address, data),
    {
        self.playfield_state.update_pf2(data);
    }

    fn write_resp0(&mut self, clock: &Clock, address: u16, data: u8, future_pixels: u8)
        requires
            old(self).wf(),
            address % 64 == 0x10,
            future_pixels == write_delay(address),
        ensures
            written(*old(self), *final(self), clock.ticks, address, data),
    {
        let resp_value = self.reset_pos(clock, future_pixels);
        self.p0_state.update_resp(resp_value);
    }

    fn write_resp1(&mut self, clock: &Clock, address: u16, data: u8, future_pixels: u8)
        requires
            old(self).wf(),
            address % 64 == 0x11,
            future_pixels == write_delay(address),
        ensures
            written(*old(self), *final(self), clock.ticks, address, data),
    {
        let v = self.reset_pos(clock, future_pixels);
        self.p1_state.update_resp(v);
    }

    fn write_resm0(&mut self, clock: &Clock, address: u16, data: u8, future_pixels: u8)
        requires
            old(self).wf(),
            address % 64 == 0x12,
            future_pixels == write_delay(address),
        ensures
            written(*old(self), *final(self), clock.ticks, address, data),
    {
        let v = self.reset_pos(clock, future_pixels);
        self.missile0.update_resm(v);
    }

    fn write_resm1(&mut self, clock: &Clock, address: u16, data: u8, future_pixels: u8)
        requires
            old(self).wf(),
            address % 64 == 0x13,
            future_pixels == write_delay(address),
        ensures
            written(*old(self), *final(self), clock.ticks, address, data),
    {
        let v = self.reset_pos(clock, future_pixels);
        self.missile1.update_resm(v);
    }

    fn write_resbl(&mut self, clock: &Clock, address: u16, data: u8, future_pixels: u8)
        requires
            old(self).wf(),
            address % 64 == 0x14,
            future_pixels == write_delay(address),
        ensures
            written(*old(self), *final(self), clock.ticks, address, data),
    {
        let v = self.reset_pos(clock, future_pixels);
        self.ball.update_resbl(v);
    }

    fn write_grp0(&mut self, clock: &Clock, address: u16, data: u8)
        requires
            old(self).wf(),
            address % 64 == 0x1B,
        ensures
            written(*old(self), *final(self), clock.ticks, address, data),
    {
        self.p0_state.update_p(data);
        let p = self.p1_state.p;
        self.p1_state.update_p_old(p);
    }

    fn write_grp1(&mut self, clock: &Clock, address: u16, data: u8)
        requires
            old(self).wf(),
            address % 64 == 0x1C,
        ensures
            written(*old(self), *final(self), clock.ticks, address, data),
    {
        self.p1_state.update_p(data);
        let p = self.p0_state.p;
        self.p0_state.update_p_old(p);
        let e = self.ball.enabl;
        self.ball.update_enabl_old(e);
    }

    fn write_enam0(&mut self, clock: &Clock, address: u16, data: u8)
        requires
            old(self).wf(),
            address % 64 == 0x1D,
        ensures
            written(*old(self), *final(self), clock.ticks, address, data),
    {
        self.missile0.update_enam(data);
    }

    fn write_enam1(&mut self, clock: &Clock, address: u16, data: u8)
        requires
            old(self).wf(),
            address % 64 == 0x1E,
        ensures
            written(*old(self), *final(self), clock.ticks, address, data),
    {
        self.missile1.update_enam(data);
    }

    fn write_enabl(&mut self, clock: &Clock, address: u16, data: u8)
        requires
            old(self).wf(),
            address % 64 == 0x1F,
        ensures
            written(*old(self), *final(self), clock.ticks, address, data),
    {
        self.ball.update_enabl(data);
    }

    fn write_hmp0(&mut self, clock: &Clock, address: u16, data: u8)
        requires
            old(self).wf(),
            address % 64 == 0x20,
        ensures
            written(*old(self), *final(self), clock.ticks, address, data),
    {
        self.next_line.hmp0 = data;
    }

    fn write_hmp1(&mut self, clock: &Clock, address: u16, data: u8)
        requires
            old(self).wf(),
            address % 64 == 0x21,
        ensures
            written(*old(self), *final(self), clock.ticks, address, data),
    {
        self.next_line.hmp1 = data;
    }

    fn write_hmm0(&mut self, clock: &Clock, address: u16, data: u8)
        requires
            old(self).wf(),
            address % 64 == 0x22,
        ensures
            written(*old(self), *final(self), clock.ticks, address, data),
    {
        self.next_line.hmm0 = data;
    }

    fn write_hmm1(&mut self, clock: &Clock, address: u16, data: u8)
        requires
            old(self).wf(),
            address % 64 == 0x23,
        ensures
            written(*old(self), *final(self), clock.ticks, address, data),
    {
        self.next_line.hmm1 = data;
    }

    fn write_hmbl(&mut self, clock: &Clock, address: u16, data: u8)
        requires
            old(self).wf(),
            address % 64 == 0x24,
        ensures
            written(*old(self), *final(self), clock.ticks, address, data),
    {
        self.next_line.hmbl = data;
    }

    fn write_hmove(&mut self, clock: &Clock, address: u16, data: u8)
        requires
            old(self).wf(),
            address % 64 == 0x2A,
        ensures
            written(*old(self), *final(self), clock.ticks, address, data),
    {
        self.hmove(clock);
    }

    fn write_hclr(&mut self, clock: &Clock, address: u16, data: u8)
        requires
            old(self).wf(),
            address % 64 == 0x2B,
        ensures
            written(*old(self), *final(self), clock.ticks, address, data),
    {
        self.next_line.hmp0 = 0;
        self.next_line.hmp1 = 0;
        self.next_line.hmm0 = 0;
        self.next_line.hmm1 = 0;
        self.next_line.hmbl = 0;
    }

    fn write_vdelp0(&mut self, clock: &Clock, address: u16, data: u8)
        requires
            old(self).wf(),
            address % 64 == 0x25,
        ensures
            written(*old(self), *final(self), clock.ticks, address, data),
    {
        self.p0_state.update_vdelp(data);
    }

    fn write_vdelp1(&mut self, clock: &Clock, address: u16, data: u8)
        requires
            old(self).wf(),
            address % 64 == 0x26,
        ensures
            written(*old(self), *final(self), clock.ticks, address, data),
    {
        self.p1_state.update_vdelp(data);
    }

    fn write_vdelbl(&mut self, clock: &Clock, address: u16, data: u8)
        requires
            old(self).wf(),
            address % 64 == 0x27,
        ensures
            written(*old(self), *final(self), clock.ticks, address, data),
    {
        self.ball.update_vdelbl(data);
    }

    fn write_cxclr(&mut self, clock: &Clock, address: u16, data: u8)
        requires
            old(self).wf(),
            address % 64 == 0x2C,
        ensures
            written(*old(self), *final(self), clock.ticks, address, data),
    {
        self.collision_state.clear();
    }

    /// Signed motion that HMOVE applies for the motion register `hm`.
    pub fn hmove_clocks(hm: u8, ticks_since_scan_start: u8) -> (r: i8)
        ensures
            r as int == hmove_clocks_spec(hm, ticks_since_scan_start),
    {
        let hi = (hm / 16) as i8;
        if hi >= 8 { hi - 16 } else { hi }
    }

    fn move_by(res: u8, shift: i8) -> (r: u8)
        ensures
            r == moved(res, shift as int),
            r < 228,
    {
        ((res as i16 - shift as i16 + 256) % 256 % 228) as u8
    }

    /// Applies the motion registers to every object and schedules the late
    /// blank of the next 8 visible pixels.
    fn hmove(&mut self, clock: &Clock)
        requires
            old(self).wf(),
        ensures
            hmoved(*old(self), *final(self), clock.ticks),
            final(self).wf(),
            final(self).display_lines == old(self).display_lines,
            final(self).collision_state == old(self).collision_state,
            final(self).last_screen_update_clock == old(self).last_screen_update_clock,
    {
        let t = clock.ticks;
        let start = self.screen_start_clock;
        let q: u64 = if t >= start { t - start } else { 0 };
        let c = (q % HORIZONTAL_TICKS) as u8;
        self.is_hmove_scan = true;
        self.hmove_line = if q % HORIZONTAL_TICKS < 76 { q / HORIZONTAL_TICKS } else { q / HORIZONTAL_TICKS + 1 };
        self.p0_state.resp = Stella::move_by(self.p0_state.resp, Stella::hmove_clocks(self.next_line.hmp0, c));
        self.p1_state.resp = Stella::move_by(self.p1_state.resp, Stella::hmove_clocks(self.next_line.hmp1, c));
        self.missile0.resm = Stella::move_by(self.missile0.resm, Stella::hmove_clocks(self.next_line.hmm0, c));
        self.missile1.resm = Stella::move_by(self.missile1.resm, Stella::hmove_clocks(self.next_line.hmm1, c));
        self.ball.resbl = Stella::move_by(self.ball.resbl, Stella::hmove_clocks(self.next_line.hmbl, c));
        self.p0_state.update();
        self.p1_state.update();
        self.missile0.update();
        self.missile1.update();
        self.ball.update();
    }
}

impl Stella {
    fn write_sync_and_objects(&mut self, clock: &mut Clock, address: u16, data: u8, future_pixels: u8)
        requires
            old(self).wf(),
            future_pixels == write_delay(address),
            0x00 <= address % 64 <= 0x14,
        ensures
            written(*old(self), *final(self), old(clock).ticks, address, data),
            final(clock).ticks == ticks_after(*old(self), old(clock).ticks, address),
    {
        match address % 64 {
                0x00 => { self.write_vsync(clock, address, data); }
                0x01 => { self.write_vblank(clock, address, data); }
                0x02 => { self.write_wsync(clock, address, data); }
                0x03 => { self.write_rsync(clock, address, data); }
                0x04 => { self.write_nusiz0(clock, address, data); }
                0x05 => { self.write_nusiz1(clock, address, data); }
                0x06 => { self.write_colump0(clock, address, data); }
                0x07 => { self.write_colump1(clock, address, data); }
                0x08 => { self.write_colupf(clock, address, data); }
                0x09 => { self.write_colubk(clock, address, data); }
                0x0A => { self.write_ctrlpf(clock, address, data); }
                0x0B => { self.write_refp0(clock, address, data); }
                0x0C => { self.write_refp1(clock, address, data); }
                0x0D => { self.write_pf0(clock, address, data); }
                0x0E => { self.write_pf1(clock, address, data); }
                0x0F => { self.write_pf2(clock, address, data); }
                0x10 => { self.write_resp0(clock, address, data, future_pixels); }
                0x11 => { self.write_resp1(clock, address, data, future_pixels); }
                0x12 => { self.write_resm0(clock, address, data, future_pixels); }
                0x13 => { self.write_resm1(clock, address, data, future_pixels); }
                0x14 => { self.write_resbl(clock, address, data, future_pixels); }
            _ => {}
        }
    }

    fn write_audc0(&mut self, clock: &Clock, address: u16, data: u8)
        requires
            old(self).wf(),
            address % 64 == 0x15,
        ensures
            written(*old(self), *final(self), clock.ticks, address, data),
    {
        self.tiasound.write_audio_ctrl_0(clock, address, data);
    }

    fn write_audc1(&mut self, clock: &Clock, address: u16, data: u8)
        requires
            old(self).wf(),
            address % 64 == 0x16,
        ensures
            written(*old(self), *final(self), clock.ticks, address, data),
    {
        self.tiasound.write_audio_ctrl_1(clock, address, data);
    }

    fn write_audf0(&mut self, clock: &Clock, address: u16, data: u8)
        requires
            old(self).wf(),
            address % 64 == 0x17,
        ensures
            written(*old(self), *final(self), clock.ticks, address, data),
    {
        self.tiasound.write_audio_freq_0(clock, address, data);
    }

    fn write_audf1(&mut self, clock: &Clock, address: u16, data: u8)
        requires
            old(self).wf(),
            address % 64 == 0x18,
        ensures
            written(*old(self), *final(self), clock.ticks, address, data),
    {
        self.tiasound.write_audio_freq_1(clock, address, data);
    }

    fn write_audv0(&mut self, clock: &Clock, address: u16, data: u8)
        requires
            old(self).wf(),
            address % 64 == 0x19,
        ensures
            written(*old(self), *final(self), clock.ticks, address, data),
    {
        self.tiasound.write_audio_vol_0(clock, address, data);
    }

    fn write_audv1(&mut self, clock: &Clock, address: u16, data: u8)
        requires
            old(self).wf(),
            address % 64 == 0x1A,
        ensures
            written(*old(self), *final(self), clock.ticks, address, data),
    {
        self.tiasound.write_audio_vol_1(clock, address, data);
    }

    fn write_audio(&mut self, clock: &mut Clock, address: u16, data: u8, future_pixels: u8)
        requires
            old(self).wf(),
            future_pixels == write_delay(address),
            0x15 <= address % 64 <= 0x1A,
        ensures
            written(*old(self), *final(self), old(clock).ticks, address, data),
            final(clock).ticks == ticks_after(*old(self), old(clock).ticks, address),
    {
        match address % 64 {
                0x15 => { self.write_audc0(clock, address, data); }
                0x16 => { self.write_audc1(clock, address, data); }
                0x17 => { self.write_audf0(clock, address, data); }
                0x18 => { self.write_audf1(clock, address, data); }
                0x19 => { self.write_audv0(clock, address, data); }
                0x1A => { self.write_audv1(clock, address, data); }
            _ => {}
        }
    }

    fn write_motion_and_delays(&mut self, clock: &mut Clock, address: u16, data: u8, future_pixels: u8)
        requires
            old(self).wf(),
            future_pixels == write_delay(address),
            0x1B <= address % 64 <= 0x3F,
        ensures
            written(*old(self), *final(self), old(clock).ticks, address, data),
            final(clock).ticks == ticks_after(*old(self), old(clock).ticks, address),
    {
        match address % 64 {
                0x1B => { self.write_grp0(clock, address, data); }
                0x1C => { self.write_grp1(clock, address, data); }
                0x1D => { self.write_enam0(clock, address, data); }
                0x1E => { self.write_enam1(clock, address, data); }
                0x1F => { self.write_enabl(clock, address, data); }
                0x20 => { self.write_hmp0(clock, address, data); }
                0x21 => { self.write_hmp1(clock, address, data); }
                0x22 => { self.write_hmm0(clock, address, data); }
                0x23 => { self.write_hmm1(clock, address, data); }
                0x24 => { self.write_hmbl(clock, address, data); }
                0x2A => { self.write_hmove(clock, address, data); }
                0x2B => { self.write_hclr(clock, address, data); }
                0x25 => { self.write_vdelp0(clock, address, data); }
                0x26 => { self.write_vdelp1(clock, address, data); }
                0x27 => { self.write_vdelbl(clock, address, data); }
                0x2C => { self.write_cxclr(clock, address, data); }
            _ => {}
        }
    }

    fn write_functions(&mut self, clock: &mut Clock, address: u16, data: u8, future_pixels: u8)
        requires
            old(self).wf(),
            future_pixels == write_delay(address),
        ensures
            written(*old(self), *final(self), old(clock).ticks, address, data),
            final(clock).ticks == ticks_after(*old(self), old(clock).ticks, address),
    {
        let r = address % 64;
        if r <= 0x14 {
            self.write_sync_and_objects(clock, address, data, future_pixels);
        } else if r <= 0x1A {
            self.write_audio(clock, address, data, future_pixels);
        } else {
            self.write_motion_and_delays(clock, address, data, future_pixels);
        }
    }

    /// A CPU write to the TIA register at `address`: the pixels owed up to
    /// the register's write delay are drawn with the old value first (unless
    /// vertical blank is on), then the register changes.
    #[verifier::rlimit(50)]
    pub fn write(&mut self, clock: &mut Clock, address: u16, data: u8)
        requires
            old(self).wf(),
        ensures
            tia_write(*old(self), *final(self), old(clock).ticks, final(clock).ticks, address, data),
    {
        let future_pixels = self.get_write_delay(address);
        if !self.is_blank {
            self.screen_scan(clock, future_pixels);
        }
        let ghost mid = *self;
        self.write_functions(clock, address, data, future_pixels);
        proof {
            assert(with_raster_of(mid, *self) == with_raster_of(*old(self), *self));
        }
    }

    /// Value of a paddle input: once it reads 0 after a recharge, bit 7 rises
    /// `20000 + charge_ticks` colour clocks after the recharge.
    pub fn get_paddle_inp_value(paddle_reset_ticks: u64, clock: &Clock, charge_ticks: u64, current_inp: u8) -> (r: u8)
        requires
            charge_ticks <= 32000,
        ensures
            r == paddle_value(current_inp, paddle_reset_ticks, clock.ticks, charge_ticks as int),
    {
        if 0 == current_inp {
            if clock.ticks > paddle_reset_ticks && clock.ticks - paddle_reset_ticks > 20000 + charge_ticks {
                0x80
            } else {
                0x00
            }
        } else {
            current_inp
        }
    }

    /// A CPU read of the TIA: collision latches, paddles and buttons.
    pub fn read(&self, clock: &Clock, address: u16) -> (r: u8)
        ensures
            r == read_value(*self, clock.ticks, address),
    {
        let reset = self.paddle_start_clock;
        match address % 16 {
            0x0 => self.collision_state.get_cxmp_0(),
            0x1 => self.collision_state.get_cxmp_1(),
            0x2 => self.collision_state.get_cxpfb_0(),
            0x3 => self.collision_state.get_cxpfb_1(),
            0x4 => self.collision_state.get_cxmfb_0(),
            0x5 => self.collision_state.get_cxmfb_1(),
            0x6 => self.collision_state.get_cxblpf(),
            0x7 => self.collision_state.get_cxppmm(),
            0x8 => Stella::get_paddle_inp_value(reset, clock, PADDLE_CENTRE_CHARGE, self.input.input0),
            0x9 => Stella::get_paddle_inp_value(reset, clock, PADDLE_CENTRE_CHARGE, self.input.input1),
            0xA => Stella::get_paddle_inp_value(reset, clock, PADDLE_CENTRE_CHARGE, self.input.input2),
            0xB => Stella::get_paddle_inp_value(reset, clock, PADDLE_CENTRE_CHARGE, self.input.input3),
            0xC => self.input.input4,
            0xD => self.input.input5,
            _ => 0,
        }
    }

    /// Takes new host inputs; the paddle inputs keep their charge state.
    pub fn set_inputs(&mut self, inputs: Input)
        ensures
            *final(self) == (Stella {
                input: Input {
                    input0: old(self).input.input0,
                    input1: old(self).input.input1,
                    input2: old(self).input.input2,
                    input3: old(self).input.input3,
                    ..inputs
                },
                ..*old(self)
            }),
    {
        let input0 = self.input.input0;
        let input1 = self.input.input1;
        let input2 = self.input.input2;
        let input3 = self.input.input3;
        self.input = inputs;
        self.input.input0 = input0;
        self.input.input1 = input1;
        self.input.input2 = input2;
        self.input.input3 = input3;
    }

    /// Whether a frame has started since the last call (VSYNC rose); clears
    /// the flag.
    pub fn export(&mut self) -> (r: bool)
        ensures
            r == old(self).is_update_time,
            *final(self) == (Stella { is_update_time: false, ..*old(self) }),
    {
        let result = self.is_update_time;
        self.is_update_time = false;
        result
    }

    pub fn debug_clock(&self) -> (r: u64)
        ensures
            r == self.vsync_debug_output_clock,
    {
        self.vsync_debug_output_clock
    }

    pub fn step_tia_sound(&mut self, clock: &Clock)
        ensures
            final(self).tiasound.generated_from(old(self).tiasound, clock.ticks),
            final(self).tiasound.ch0 == old(self).tiasound.generated(clock.ticks).ch0,
            final(self).tiasound.ch1 == old(self).tiasound.generated(clock.ticks).ch1,
            *final(self) == (Stella { tiasound: final(self).tiasound, ..*old(self) }),
    {
        self.tiasound.step(clock);
    }

    pub fn get_next_audio_chunk(&mut self, length: u32) -> (r: Vec<u8>)
        ensures
            ({
                let w = old(self).tiasound.working_stream@;
                let n = if w.len() < 2 * length { w.len() as int } else { 2 * length };
                r@ == w.subrange(0, n)
            }),
            *final(self) == (Stella { tiasound: final(self).tiasound, ..*old(self) }),
    {
        self.tiasound.get_next_audio_chunk(length)
    }

    /// Renders the visible 220 rows into a host frame, four bytes per pixel.
    pub fn generate_display(&self, buffer: &mut Vec<u8>)
        requires
            self.wf(),
            old(buffer)@.len() == FRAME_BYTES,
        ensures
            final(buffer)@.len() == FRAME_BYTES,
            forall|i: int| 0 <= i < FRAME_BYTES ==> final(buffer)@[i] == frame_byte(*self, i),
    {
        let mut k: usize = 0;
        while k < 35200
            invariant
                self.wf(),
                k <= 35200,
                buffer@.len() == FRAME_BYTES,
                forall|i: int| 0 <= i < 4 * k ==> buffer@[i] == frame_byte(*self, i),
            decreases 35200 - k,
        {
            let index = self.display_lines[k + 3200];
            let colour = self.colours.get_entry(index);
            let ghost before = buffer@;
            colour.convert_rgb888(buffer, k * BYTES_PER_PIXEL);
            proof {
                assert forall|i: int| 0 <= i < 4 * (k + 1) implies buffer@[i] == frame_byte(*self, i) by {
                    if i >= 4 * k {
                        assert(i / 4 == k);
                    }
                }
            }
            k += 1;
        }
    }
}

/// After a write to CXCLR, every collision register reads 0 (until the
/// next scan latches a collision).
pub proof fn law_cxclr_then_read(o: Stella, n: Stella, t: u64, nt: u64, address: u16, data: u8, ticks: u64, read_address: u16)
    requires
        tia_write(o, n, t, nt, address, data),
        address % 64 == 0x2C,
        read_address % 16 < 8,
    ensures
        read_value(n, ticks, read_address) == 0,
{
}

proof fn lemma_hclr(s0: Stella, s1: Stella, t0: u64, nt0: u64, a0: u16, d0: u8)
    requires
        tia_write(s0, s1, t0, nt0, a0, d0),
        a0 % 64 == 0x2B,
    ensures
        s1.p0_state == s0.p0_state && s1.p1_state == s0.p1_state,
        s1.missile0 == s0.missile0 && s1.missile1 == s0.missile1,
        s1.ball == s0.ball,
        s1.next_line.hmp0 == 0 && s1.next_line.hmp1 == 0 && s1.next_line.hmm0 == 0,
        s1.next_line.hmm1 == 0 && s1.next_line.hmbl == 0,
{
}

proof fn lemma_hmove_written(s1: Stella, s2: Stella, t1: u64, nt1: u64, a1: u16, d1: u8)
    requires
        tia_write(s1, s2, t1, nt1, a1, d1),
        a1 % 64 == 0x2A,
    ensures
        hmoved(s1, s2, t1),
{
}

proof fn lemma_no_motion(res: u8, c: u8)
    requires
        res < 228,
    ensures
        moved(res, hmove_clocks_spec(0, c)) == res,
{
}

proof fn lemma_player_at_rest(o: PlayerState, n: PlayerState, c: u8)
    requires
        o.wf(),
        o.resp < 228,
        n.settled_from(PlayerState { resp: moved(o.resp, hmove_clocks_spec(0, c)), ..o }),
    ensures
        n.resp == o.resp,
        n.scan_line@ == o.scan_line@,
{
    lemma_no_motion(o.resp, c);
    assert(n.scan_line@ =~= o.scan_line@);
}

proof fn lemma_missile_at_rest(o: MissileState, n: MissileState, c: u8)
    requires
        o.wf(),
        o.resm < 228,
        n.settled(o.nusiz, o.enam, moved(o.resm, hmove_clocks_spec(0, c))),
    ensures
        n.resm == o.resm,
        n.scan_line@ == o.scan_line@,
{
    lemma_no_motion(o.resm, c);
    assert(n.scan_line@ =~= o.scan_line@);
}

proof fn lemma_ball_at_rest(o: BallState, n: BallState, c: u8)
    requires
        o.wf(),
        o.resbl < 228,
        n.same_regs(BallState { resbl: moved(o.resbl, hmove_clocks_spec(0, c)), ..o }),
    ensures
        n.resbl == o.resbl,
        n.scan_line@ == o.scan_line@,
{
    lemma_no_motion(o.resbl, c);
    assert(n.scan_line@ =~= o.scan_line@);
}

proof fn lemma_hmove_at_rest(s1: Stella, s2: Stella, t1: u64)
    requires
        s1.wf(),
        s1.next_line.hmp0 == 0 && s1.next_line.hmp1 == 0 && s1.next_line.hmm0 == 0,
        s1.next_line.hmm1 == 0 && s1.next_line.hmbl == 0,
        hmoved(s1, s2, t1),
    ensures
        s2.p0_state.resp == s1.p0_state.resp && s2.p1_state.resp == s1.p1_state.resp,
        s2.missile0.resm == s1.missile0.resm && s2.missile1.resm == s1.missile1.resm,
        s2.ball.resbl == s1.ball.resbl,
        s2.p0_state.scan_line@ == s1.p0_state.scan_line@,
        s2.p1_state.scan_line@ == s1.p1_state.scan_line@,
        s2.missile0.scan_line@ == s1.missile0.scan_line@,
        s2.missile1.scan_line@ == s1.missile1.scan_line@,
        s2.ball.scan_line@ == s1.ball.scan_line@,
{
    let c = line_ticks(t1, s1.screen_start_clock);
    lemma_player_at_rest(s1.p0_state, s2.p0_state, c);
    lemma_player_at_rest(s1.p1_state, s2.p1_state, c);
    lemma_missile_at_rest(s1.missile0, s2.missile0, c);
    lemma_missile_at_rest(s1.missile1, s2.missile1, c);
    lemma_ball_at_rest(s1.ball, s2.ball, c);
}

/// HCLR followed by HMOVE leaves every object where it was.
pub proof fn law_hclr_then_hmove(
    s0: Stella,
    s1: Stella,
    t0: u64,
    nt0: u64,
    a0: u16,
    d0: u8,
    s2: Stella,
    t1: u64,
    nt1: u64,
    a1: u16,
    d1: u8,
)
    requires
        s0.wf(),
        tia_write(s0, s1, t0, nt0, a0, d0),
        a0 % 64 == 0x2B,
        tia_write(s1, s2, t1, nt1, a1, d1),
        a1 % 64 == 0x2A,
    ensures
        s2.p0_state.resp == s0.p0_state.resp && s2.p1_state.resp == s0.p1_state.resp,
        s2.missile0.resm == s0.missile0.resm && s2.missile1.resm == s0.missile1.resm,
        s2.ball.resbl == s0.ball.resbl,
        s2.p0_state.scan_line@ == s0.p0_state.scan_line@,
        s2.p1_state.scan_line@ == s0.p1_state.scan_line@,
        s2.missile0.scan_line@ == s0.missile0.scan_line@,
        s2.missile1.scan_line@ == s0.missile1.scan_line@,
        s2.ball.scan_line@ == s0.ball.scan_line@,
{
    lemma_hclr(s0, s1, t0, nt0, a0, d0);
    lemma_hmove_written(s1, s2, t1, nt1, a1, d1);
    lemma_hmove_at_rest(s1, s2, t1);
}

/// Number of objects covering pixel `x` of a line.
pub open spec fn objects_at(s: Stella, x: int) -> int {
    (if s.p0_state.scan_line@[x] { 1int } else { 0 }) + (if s.p1_state.scan_line@[x] { 1int } else { 0 })
        + (if s.missile0.scan_line@[x] { 1int } else { 0 }) + (if s.missile1.scan_line@[x] { 1int } else { 0 })
        + (if s.ball.scan_line@[x] { 1int } else { 0 }) + (if s.playfield_state.pf_lookup@[x] { 1int } else { 0 })
}

/// Cleared latches stay cleared over a stretch of the frame in which no
/// drawn pixel is covered by two or more objects.
pub proof fn law_latches_stay_clear(s: Stella, lo: int, hi: int)
    requires
        forall|p: int| lo <= p < hi && visible_pos(p) && !blanked(s, p) ==> objects_at(s, #[trigger] (p % 228) - 68) <= 1,
    ensures
        collisions_between(s, crate::objects::cleared(), lo, hi) == crate::objects::cleared(),
    decreases hi - lo,
{
    if hi > lo {
        law_latches_stay_clear(s, lo, hi - 1);
        let p = hi - 1;
        if visible_pos(p) && !blanked(s, p) {
            assert(objects_at(s, (p % 228) - 68) <= 1);
            let c = crate::objects::cleared();
            assert((0u8 | 0x80u8) != 0u8 && (0u8 | 0x40u8) != 0u8) by (bit_vector);
            assert(collide_at(s, c, (p % 228) - 68) == c);
        }
    }
}

} // verus!
