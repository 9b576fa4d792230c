use atari2600::clocks::Clock;
use atari2600::tiasound::TiaSound;

#[test]
fn silence_when_volume_zero() {
    let mut sound = TiaSound::new(true);
    let clock = Clock { ticks: 200_000 };
    sound.write_audio_vol_0(&Clock::new(), 0x19, 0);
    sound.write_audio_vol_1(&Clock::new(), 0x1A, 0);
    sound.step(&clock);
    let chunk = sound.get_next_audio_chunk(1024);
    assert_eq!(chunk.len(), 2048);
    assert!(chunk.iter().all(|s| *s == 0));
}

#[test]
fn divide_by_two_square_wave() {
    let mut sound = TiaSound::new(true);
    let clock = Clock::new();
    sound.write_audio_ctrl_0(&clock, 0x15, 4);
    sound.write_audio_freq_0(&clock, 0x17, 0);
    sound.write_audio_vol_0(&clock, 0x19, 15);
    let data = sound.get_channel_data(0, 8);
    assert_eq!(data, vec![105, 0, 105, 0, 105, 0, 105, 0]);
}

#[test]
fn frequency_divider_holds_samples() {
    let mut sound = TiaSound::new(true);
    let clock = Clock::new();
    sound.write_audio_ctrl_1(&clock, 0x16, 4);
    sound.write_audio_freq_1(&clock, 0x18, 0xE1);
    sound.write_audio_vol_1(&clock, 0x1A, 1);
    assert_eq!(sound.ch1.freq, 1);
    let data = sound.get_channel_data(1, 8);
    assert_eq!(data, vec![7, 7, 0, 0, 7, 7, 0, 0]);
}

#[test]
fn samples_follow_the_clock() {
    let mut sound = TiaSound::new(true);
    sound.step(&Clock { ticks: 3 * 1_193_182 });
    assert_eq!(sound.working_stream.len(), 2 * 32050);
    assert_eq!(sound.last_update_time, 3 * 1_193_182);
    // A second step at the same time adds nothing.
    sound.step(&Clock { ticks: 3 * 1_193_182 });
    assert_eq!(sound.working_stream.len(), 2 * 32050);
}

#[test]
fn chunk_shorter_than_asked() {
    let mut sound = TiaSound::new(true);
    sound.step(&Clock { ticks: 1117 });
    assert_eq!(sound.working_stream.len(), 20);
    let chunk = sound.get_next_audio_chunk(1024);
    assert_eq!(chunk.len(), 20);
    assert!(sound.working_stream.is_empty());
    assert!(sound.get_next_audio_chunk(0).is_empty());
}

#[test]
fn backlog_dropped_when_not_real_time() {
    let mut sound = TiaSound::new(false);
    sound.step(&Clock { ticks: 200_000 });
    assert!(sound.is_backlogged());
    let chunk = sound.get_next_audio_chunk(10);
    assert_eq!(chunk.len(), 20);
    assert!(sound.working_stream.is_empty());
    let mut realtime = TiaSound::new(true);
    realtime.step(&Clock { ticks: 200_000 });
    let before = realtime.working_stream.len();
    realtime.get_next_audio_chunk(10);
    assert_eq!(realtime.working_stream.len(), before - 20);
}

#[test]
fn poly_counters() {
    assert_eq!(TiaSound::poly4(4, 0, 0), 15);
    assert_eq!(TiaSound::poly4(4, 0, 15), 0);
    assert_eq!(TiaSound::poly5(0, 0, 0), 16);
    assert!(TiaSound::poly5clk(0, 0));
    assert!(!TiaSound::poly5clk(2, 0));
}

#[test]
fn long_gap_is_caught_up_over_steps() {
    let mut sound = TiaSound::new(true);
    let clock = Clock { ticks: 2 * 3 * 1_193_182 };
    sound.step(&clock);
    assert_eq!(sound.working_stream.len(), 2 * 32050);
    sound.step(&clock);
    assert_eq!(sound.working_stream.len(), 4 * 32050);
    assert_eq!(sound.last_update_time, clock.ticks);
}
