use atari2600::clocks::Clock;
use atari2600::display::{Colour, Colours};
use atari2600::objects::{nusize, CollisionState, PlayfieldState};
use atari2600::stella::{Stella, FRAME_BYTES};

const VSYNC: u16 = 0x00;
const VBLANK: u16 = 0x01;
const WSYNC: u16 = 0x02;
const NUSIZ0: u16 = 0x04;
const COLUP0: u16 = 0x06;
const COLUPF: u16 = 0x08;
const COLUBK: u16 = 0x09;
const CTRLPF: u16 = 0x0A;
const PF0: u16 = 0x0D;
const RESP0: u16 = 0x10;
const RESBL: u16 = 0x14;
const GRP0: u16 = 0x1B;
const ENABL: u16 = 0x1F;
const HMP0: u16 = 0x20;
const HMOVE: u16 = 0x2A;
const HCLR: u16 = 0x2B;
const CXCLR: u16 = 0x2C;

/// A TIA whose frame starts at clock 0, with vertical blank off.
fn running_tia(clock: &mut Clock) -> Stella {
    let mut tia = Stella::new(false, true, Colours::new());
    tia.write(clock, VSYNC, 0x02);
    tia.write(clock, VSYNC, 0x00);
    tia.write(clock, VBLANK, 0x02);
    tia.write(clock, VBLANK, 0x00);
    tia
}

fn row(tia: &Stella, y: usize) -> Vec<u8> {
    tia.display_lines[y * 160..(y + 1) * 160].to_vec()
}

#[test]
fn nusiz_5_is_one_double_width_player() {
    assert_eq!(nusize(5), (1, 2, 0));
    let mut clock = Clock::new();
    let mut tia = running_tia(&mut clock);
    tia.write(&mut clock, NUSIZ0, 5);
    tia.write(&mut clock, GRP0, 0xFF);
    let count = tia.p0_state.scan_line.iter().filter(|b| **b).count();
    assert_eq!(count, 16);
    let first = tia.p0_state.scan_line.iter().position(|b| *b).unwrap();
    assert!(tia.p0_state.scan_line[first..first + 16].iter().all(|b| *b));
}

#[test]
fn nusize_table() {
    let expected = [(1, 1, 0), (2, 1, 2), (2, 1, 4), (3, 1, 2), (2, 1, 8), (1, 2, 0), (3, 1, 4), (1, 4, 0)];
    for (v, e) in expected.iter().enumerate() {
        assert_eq!(nusize(v as u8 + 8), *e);
    }
}

#[test]
fn minimal_raster_fills_background() {
    let mut clock = Clock::new();
    let mut tia = running_tia(&mut clock);
    tia.write(&mut clock, COLUBK, 0x1C);
    for _ in 0..262 {
        clock.increment(9);
        tia.write(&mut clock, WSYNC, 0);
    }
    for y in 20..240 {
        assert!(row(&tia, y).iter().all(|c| *c == 0x0E), "row {}", y);
    }
}

#[test]
fn playfield_mirrored_and_repeated() {
    let mut pf = PlayfieldState::new();
    pf.update_ctrlpf(0x01);
    pf.update_pf0(0xF0);
    let scan = pf.pf_lookup.clone();
    assert!(scan[..16].iter().all(|b| *b));
    assert!(scan[16..144].iter().all(|b| !*b));
    assert!(scan[144..].iter().all(|b| *b));
    pf.update_ctrlpf(0x00);
    let scan = pf.pf_lookup.clone();
    assert!(scan[..16].iter().all(|b| *b));
    assert!(scan[16..80].iter().all(|b| !*b));
    assert!(scan[80..96].iter().all(|b| *b));
    assert!(scan[96..].iter().all(|b| !*b));
}

#[test]
fn playfield_bit_order() {
    let mut pf = PlayfieldState::new();
    pf.update_pf1(0x80);
    assert!(pf.pf_lookup[16..20].iter().all(|b| *b));
    assert!(!pf.pf_lookup[20]);
    pf.update_pf1(0);
    pf.update_pf2(0x01);
    assert!(pf.pf_lookup[48..52].iter().all(|b| *b));
    assert!(!pf.pf_lookup[47]);
}

#[test]
fn playfield_drawn_on_screen() {
    let mut clock = Clock::new();
    let mut tia = running_tia(&mut clock);
    tia.write(&mut clock, COLUBK, 0x02);
    tia.write(&mut clock, COLUPF, 0x44);
    tia.write(&mut clock, CTRLPF, 0x01);
    tia.write(&mut clock, PF0, 0xF0);
    for _ in 0..40 {
        clock.increment(9);
        tia.write(&mut clock, WSYNC, 0);
    }
    let line = row(&tia, 10);
    assert!(line[..16].iter().all(|c| *c == 0x22));
    assert!(line[16..144].iter().all(|c| *c == 0x01));
    assert!(line[144..].iter().all(|c| *c == 0x22));
}

/// Player 0 and the ball both placed at pixel 40 of line 30.
fn player_and_ball_at_40(clock: &mut Clock) -> Stella {
    let mut tia = running_tia(clock);
    tia.write(clock, GRP0, 0xFF);
    tia.write(clock, ENABL, 0x02);
    // RESP0 takes effect 5 colour clocks later, RESBL 4: both at clock 108.
    clock.ticks = 30 * 228 + 103;
    tia.write(clock, RESP0, 0);
    clock.ticks = 30 * 228 + 104;
    tia.write(clock, RESBL, 0);
    tia
}

#[test]
fn player_and_ball_collide() {
    let mut clock = Clock::new();
    let mut tia = player_and_ball_at_40(&mut clock);
    assert_eq!(tia.p0_state.pos_start, 40);
    assert_eq!(tia.ball.x_min, 40);
    clock.ticks = 32 * 228;
    tia.write(&mut clock, COLUBK, 0);
    assert_eq!(tia.read(&clock, 0x02), 0x40);
    assert_eq!(tia.read(&clock, 0x07), 0x00);
}

#[test]
fn cxclr_clears_latches() {
    let mut clock = Clock::new();
    let mut tia = player_and_ball_at_40(&mut clock);
    clock.ticks = 32 * 228;
    tia.write(&mut clock, COLUBK, 0);
    assert_ne!(tia.read(&clock, 0x02), 0);
    tia.write(&mut clock, CXCLR, 0);
    for a in 0..8u16 {
        assert_eq!(tia.read(&clock, a), 0);
    }
    // The next scanline latches the collision again.
    clock.ticks = 34 * 228;
    tia.write(&mut clock, COLUBK, 0);
    assert_eq!(tia.read(&clock, 0x02), 0x40);
}

#[test]
fn collision_latch_bits() {
    let mut c = CollisionState::new();
    c.update_collisions(true, true, true, true, true, true);
    assert_eq!(
        (c.get_cxmp_0(), c.get_cxmp_1(), c.get_cxpfb_0(), c.get_cxpfb_1(), c.get_cxmfb_0(), c.get_cxmfb_1(), c.get_cxblpf(), c.get_cxppmm()),
        (0xC0, 0xC0, 0xC0, 0xC0, 0xC0, 0xC0, 0x80, 0xC0)
    );
    c.clear();
    c.update_collisions(false, true, true, false, false, false);
    assert_eq!(c.get_cxmp_0(), 0x80);
    assert_eq!(c.get_cxppmm(), 0);
}

#[test]
fn hclr_then_hmove_keeps_positions() {
    let mut clock = Clock::new();
    let mut tia = player_and_ball_at_40(&mut clock);
    let before = (tia.p0_state.resp, tia.ball.resbl, tia.missile0.resm);
    tia.write(&mut clock, HMP0, 0x70);
    tia.write(&mut clock, HCLR, 0);
    clock.ticks = 40 * 228 + 3;
    tia.write(&mut clock, HMOVE, 0);
    assert_eq!((tia.p0_state.resp, tia.ball.resbl, tia.missile0.resm), before);
}

#[test]
fn hmove_moves_left_by_motion_value() {
    let mut clock = Clock::new();
    let mut tia = player_and_ball_at_40(&mut clock);
    tia.write(&mut clock, HMP0, 0x30);
    clock.ticks = 40 * 228 + 3;
    tia.write(&mut clock, HMOVE, 0);
    assert_eq!(tia.p0_state.resp, 105);
    assert_eq!(tia.p0_state.pos_start, 37);
    assert_eq!(Stella::hmove_clocks(0xF0, 0), -1);
    assert_eq!(Stella::hmove_clocks(0x10, 219), 1);
    assert_eq!(Stella::hmove_clocks(0x80, 30), -8);
}

#[test]
fn write_delay_table() {
    let tia = Stella::new(false, true, Colours::new());
    assert_eq!(tia.get_write_delay(PF0), 5);
    assert_eq!(tia.get_write_delay(RESP0), 5);
    assert_eq!(tia.get_write_delay(RESBL), 4);
    assert_eq!(tia.get_write_delay(HMOVE), 6);
    assert_eq!(tia.get_write_delay(COLUP0), 1);
    assert_eq!(tia.get_write_delay(0x40 + PF0), 5);
}

#[test]
fn last_update_stays_within_write_delay() {
    let mut clock = Clock::new();
    let mut tia = running_tia(&mut clock);
    for i in 0..300u16 {
        clock.increment(7);
        tia.write(&mut clock, i % 0x2D, (i * 7) as u8);
        assert!(tia.last_screen_update_clock <= clock.ticks + 6);
    }
}

#[test]
fn display_holds_palette_indices() {
    let mut clock = Clock::new();
    let mut tia = running_tia(&mut clock);
    tia.write(&mut clock, COLUBK, 0xFE);
    tia.write(&mut clock, COLUP0, 0xFF);
    tia.write(&mut clock, GRP0, 0xAA);
    for _ in 0..100 {
        clock.increment(9);
        tia.write(&mut clock, WSYNC, 0);
    }
    assert!(tia.display_lines.iter().all(|c| *c < 128));
}

#[test]
fn wsync_runs_to_next_line() {
    let mut clock = Clock::new();
    let mut tia = running_tia(&mut clock);
    clock.ticks = 228 * 5 + 17;
    tia.write(&mut clock, WSYNC, 0);
    assert_eq!(clock.ticks, 228 * 6);
}

#[test]
fn vsync_marks_frame() {
    let mut clock = Clock::new();
    let mut tia = Stella::new(false, true, Colours::new());
    tia.write(&mut clock, VSYNC, 0x02);
    assert!(tia.export());
    assert!(!tia.export());
    clock.ticks = 1000;
    tia.write(&mut clock, VSYNC, 0x00);
    assert_eq!(tia.screen_start_clock, 1000);
    assert_eq!(tia.debug_clock(), 1000);
}

#[test]
fn paddle_charges_after_recharge() {
    let mut clock = Clock::new();
    let mut tia = Stella::new(false, true, Colours::new());
    clock.ticks = 100;
    tia.write(&mut clock, VBLANK, 0x80);
    assert_eq!(tia.read(&clock, 0x08), 0x00);
    clock.ticks = 100 + 36001;
    assert_eq!(tia.read(&clock, 0x08), 0x80);
    assert_eq!(tia.read(&clock, 0x0C), 0x80);
}

#[test]
fn frame_output_uses_palette() {
    let mut colours = Colours::new();
    colours.colours[0x0E] = Colour::new(1, 2, 3);
    let mut clock = Clock::new();
    let mut tia = Stella::new(false, true, colours);
    tia.write(&mut clock, VSYNC, 0x02);
    tia.write(&mut clock, VSYNC, 0x00);
    tia.write(&mut clock, VBLANK, 0x00);
    tia.write(&mut clock, COLUBK, 0x1C);
    for _ in 0..262 {
        clock.increment(9);
        tia.write(&mut clock, WSYNC, 0);
    }
    let mut buffer = vec![0u8; FRAME_BYTES];
    tia.generate_display(&mut buffer);
    assert_eq!(&buffer[0..4], &[3, 2, 1, 0]);
    assert_eq!(&buffer[FRAME_BYTES - 4..], &[3, 2, 1, 0]);
}

#[test]
fn hclr_then_hmove_late_in_line_keeps_positions() {
    let mut clock = Clock::new();
    let mut tia = player_and_ball_at_40(&mut clock);
    let before = (tia.p0_state.resp, tia.ball.resbl, tia.missile0.resm, tia.missile1.resm, tia.p1_state.resp);
    tia.write(&mut clock, HCLR, 0);
    clock.ticks = 40 * 228 + 219;
    tia.write(&mut clock, HMOVE, 0);
    assert_eq!((tia.p0_state.resp, tia.ball.resbl, tia.missile0.resm, tia.missile1.resm, tia.p1_state.resp), before);
}

#[test]
fn wsync_early_in_line_still_waits() {
    let mut clock = Clock::new();
    let mut tia = running_tia(&mut clock);
    clock.ticks = 228 * 5 + 2;
    tia.write(&mut clock, WSYNC, 0);
    assert_eq!(clock.ticks, 228 * 6);
    tia.write(&mut clock, WSYNC, 0);
    assert_eq!(clock.ticks, 228 * 6);
}

#[test]
fn new_tia_is_blank() {
    let tia = Stella::new(false, true, Colours::new());
    assert!(tia.p0_state.scan_line.iter().all(|b| !*b));
    assert!(tia.missile1.scan_line.iter().all(|b| !*b));
    assert!(tia.ball.scan_line.iter().all(|b| !*b));
    assert!(tia.playfield_state.pf_lookup.iter().all(|b| !*b));
    assert!(tia.tiasound.working_stream.is_empty());
    for a in 0..8u16 {
        assert_eq!(tia.read(&Clock::new(), a), 0);
    }
}
