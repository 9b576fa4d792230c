use vstd::prelude::*;
use crate::clocks::Clock;

verus! {

/// State of one of the two TIA audio channels.
#[derive(Clone, Copy)]
pub struct AudioChannel {
    pub volume: u8,
    pub freq: u8,
    pub poly4: u8,
    pub poly5: u8,
    pub wave_form: u8,
    pub freq_pos: u32,
}

/// The TIA's audio generator: two polynomial-counter channels, resampled to
/// the host rate and queued as interleaved stereo samples.
pub struct TiaSound {
    pub realtime: bool,
    pub ch0: AudioChannel,
    pub ch1: AudioChannel,
    pub last_update_time: u64,
    pub working_stream: Vec<u8>,
}

/// Next Poly-4 state (the TIA's fixed circuit).
pub open spec fn poly4_spec(audio_ctrl: u8, poly5_state: u8, poly4_state: u8) -> u8 {
    let i = (0 == audio_ctrl & 0xF) || ((0 == audio_ctrl & 0xC) && (((poly4_state & 0x3) != 0x3)
        && (0 != poly4_state & 0x3) && ((poly4_state & 0xF) != 0xA))) || (((audio_ctrl & 0xC)
        == 0xC) && (0 != poly4_state & 0xC) && (0 == poly4_state & 0x2)) || (((audio_ctrl & 0xC)
        == 0x4) && (0 == poly4_state & 0x8)) || (((audio_ctrl & 0xC) == 0x8) && (0 == poly5_state
        & 0x1));
    (0x7 ^ (poly4_state >> 1)) | (if i { 8u8 } else { 0u8 })
}

/// Next Poly-5 state (the TIA's fixed circuit).
pub open spec fn poly5_spec(audio_ctrl: u8, poly5_state: u8, poly4_state: u8) -> u8 {
    let in_5 = (0 == audio_ctrl & 0xF) || (((0 != audio_ctrl & 0x3) || ((poly4_state & 0xF)
        == 0xA)) && (0 == poly5_state & 0x1F)) || !((((0 != audio_ctrl & 0x3) || (0 == poly4_state
        & 0x1)) && ((0 == poly5_state & 0x8) || (0 == audio_ctrl & 0x3))) ^ (0 != poly5_state
        & 0x1));
    (poly5_state >> 1) | (if in_5 { 16u8 } else { 0u8 })
}

/// Whether the Poly-5 output clocks the Poly-4 counter.
pub open spec fn poly5clk_spec(audio_ctrl: u8, poly5_state: u8) -> bool {
    (((audio_ctrl & 0x3) != 0x2) || (0x2 == (poly5_state & 0x1E))) && (((audio_ctrl & 0x3) != 0x3)
        || (0 != poly5_state & 0x1))
}

/// One output sample of a channel: the counters advance once every
/// `freq + 1` samples, and the sample is Poly-4's low bit times volume times 7.
pub open spec fn channel_step(c: AudioChannel) -> (AudioChannel, u8) {
    let c1 = if c.freq_pos % (c.freq + 1) as u32 == 0 {
        AudioChannel {
            poly4: if poly5clk_spec(c.wave_form, c.poly5) {
                poly4_spec(c.wave_form, c.poly5, c.poly4)
            } else {
                c.poly4
            },
            poly5: poly5_spec(c.wave_form, c.poly5, c.poly4),
            ..c
        }
    } else {
        c
    };
    let sample: u8 = if c1.poly4 & 1 != 0 {
        ((c1.volume % 16) * 7) as u8
    } else {
        0
    };
    (AudioChannel { freq_pos: ((c1.freq_pos + 1) % 0x1_0000_0000) as u32, ..c1 }, sample)
}

/// `n` samples of a channel, and its state after them.
pub open spec fn channel_run(c: AudioChannel, n: nat) -> (AudioChannel, Seq<u8>)
    decreases n,
{
    if n == 0 {
        (c, Seq::empty())
    } else {
        let (c1, s) = channel_run(c, (n - 1) as nat);
        let (c2, x) = channel_step(c1);
        (c2, s.push(x))
    }
}

proof fn lemma_channel_run_len(c: AudioChannel, n: nat)
    ensures
        channel_run(c, n).1.len() == n,
    decreases n,
{
    if n > 0 {
        lemma_channel_run_len(c, (n - 1) as nat);
    }
}

/// Left and right samples taken in turn.
pub open spec fn interleave(l: Seq<u8>, r: Seq<u8>) -> Seq<u8> {
    Seq::new(2 * l.len(), |i: int| if i % 2 == 0 { l[i / 2] } else { r[i / 2] })
}

pub open spec fn colour_clock_rate() -> int {
    3 * TiaSound::CPU_CLOCK_RATE
}

/// Colour clocks that one call accounts for at most (one second).
pub open spec fn capped_delta(last: u64, now: u64) -> int {
    if now <= last {
        0
    } else if now - last > colour_clock_rate() {
        colour_clock_rate()
    } else {
        now - last
    }
}

/// Samples per channel owed for the colour clocks since `last`.
pub open spec fn samples_owed(last: u64, now: u64) -> nat {
    (TiaSound::SAMPLERATE * capped_delta(last, now) / colour_clock_rate()) as nat
}

/// Colour clocks that `n` samples stand for.
pub open spec fn samples_time(n: nat) -> int {
    n * colour_clock_rate() / TiaSound::SAMPLERATE as int
}

pub open spec fn backlog_limit() -> int {
    TiaSound::SAMPLERATE as int * 10 / 1000
}

proof fn lemma_samples_time(n: int, d: int)
    requires
        0 <= d <= colour_clock_rate(),
        n == TiaSound::SAMPLERATE * d / colour_clock_rate(),
    ensures
        0 <= n <= TiaSound::SAMPLERATE,
        0 <= n * colour_clock_rate() / TiaSound::SAMPLERATE as int <= d,
{
    let s = TiaSound::SAMPLERATE as int;
    let c = colour_clock_rate();
    assert(0 <= s * d <= s * c) by (nonlinear_arith)
        requires 0 <= d <= c, s > 0;
    assert(n * c <= s * d) by (nonlinear_arith)
        requires n == s * d / c, c > 0, s * d >= 0;
    assert(0 <= n <= s) by (nonlinear_arith)
        requires n == s * d / c, c > 0, 0 <= s * d <= s * c;
    assert(0 <= n * c / s <= d) by (nonlinear_arith)
        requires n * c <= s * d, s > 0, n >= 0, c > 0;
}

impl TiaSound {
    /// Rate of the CPU clock in Hz (NTSC).
    pub const CPU_CLOCK_RATE: u32 = 1_193_182;
    pub const SAMPLERATE: u16 = 32050;
    pub const CHANNELS: u8 = 2;
    pub const FREQ_DATA_MASK: u8 = 0x1F;
    pub const BITS: u8 = 8;

    pub open spec fn channel_spec(&self, channel: u8) -> AudioChannel {
        if channel == 0 {
            self.ch0
        } else {
            self.ch1
        }
    }

    pub fn new(realtime: bool) -> (r: Self)
        ensures
            r.realtime == realtime,
            r.ch0 == r.ch1,
            r.ch0 == (AudioChannel { volume: 0, freq: 0, poly4: 0, poly5: 0, wave_form: 0, freq_pos: 0 }),
            r.last_update_time == 0,
            r.working_stream@.len() == 0,
    {
        let ch = AudioChannel { volume: 0, freq: 0, poly4: 0, poly5: 0, wave_form: 0, freq_pos: 0 };
        TiaSound { realtime, ch0: ch, ch1: ch, last_update_time: 0, working_stream: Vec::new() }
    }

    /// Whether the queue holds more than 10 ms of samples, so that a host
    /// running in real time should let the audio device catch up.
    pub fn is_backlogged(&self) -> (r: bool)
        ensures
            r == (self.working_stream@.len() > backlog_limit()),
    {
        self.working_stream.len() > 320
    }

    /// Hands out the next `length` samples per channel (fewer when fewer are
    /// queued). When not running in real time, a backlog above 10 ms left
    /// after that is dropped so the queue cannot grow without bound.
    pub fn get_next_audio_chunk(&mut self, length: u32) -> (r: Vec<u8>)
        ensures
            ({
                let n = if old(self).working_stream@.len() < 2 * length {
                    old(self).working_stream@.len() as int
                } else {
                    2 * length
                };
                let rest = old(self).working_stream@.subrange(n, old(self).working_stream@.len() as int);
                &&& r@ == old(self).working_stream@.subrange(0, n)
                &&& final(self).working_stream@ == if !old(self).realtime && rest.len() > backlog_limit() {
                    Seq::<u8>::empty()
                } else {
                    rest
                }
            }),
            final(self).realtime == old(self).realtime,
            final(self).ch0 == old(self).ch0,
            final(self).ch1 == old(self).ch1,
            final(self).last_update_time == old(self).last_update_time,
    {
        let len = self.working_stream.len();
        let want: u64 = 2 * length as u64;
        let n: usize = if (len as u64) < want { len } else { want as usize };
        let mut stream: Vec<u8> = Vec::new();
        let mut i: usize = 0;
        while i < n
            invariant
                n <= len == self.working_stream@.len(),
                i <= n,
                stream@ == self.working_stream@.subrange(0, i as int),
            decreases n - i,
        {
            stream.push(self.working_stream[i]);
            i += 1;
        }
        let mut rest: Vec<u8> = Vec::new();
        if self.realtime || len - n <= 320 {
            let mut j: usize = n;
            while j < len
                invariant
                    n <= j <= len == self.working_stream@.len(),
                    rest@ == self.working_stream@.subrange(n as int, j as int),
                decreases len - j,
            {
                rest.push(self.working_stream[j]);
                j += 1;
            }
        }
        self.working_stream = rest;
        stream
    }

    pub fn poly4(audio_ctrl: u8, poly5_state: u8, poly4_state: u8) -> (r: u8)
        ensures
            r == poly4_spec(audio_ctrl, poly5_state, poly4_state),
    {
        let i = (0 == audio_ctrl & 0xF) || ((0 == audio_ctrl & 0xC) && (((poly4_state & 0x3)
            != 0x3) && (0 != poly4_state & 0x3) && ((poly4_state & 0xF) != 0xA))) || (((audio_ctrl
            & 0xC) == 0xC) && (0 != poly4_state & 0xC) && (0 == poly4_state & 0x2)) || (((audio_ctrl
            & 0xC) == 0x4) && (0 == poly4_state & 0x8)) || (((audio_ctrl & 0xC) == 0x8) && (0
            == poly5_state & 0x1));
        (0x7 ^ (poly4_state >> 1)) | (if i { 8u8 } else { 0u8 })
    }

    pub fn poly5(audio_ctrl: u8, poly5_state: u8, poly4_state: u8) -> (r: u8)
        ensures
            r == poly5_spec(audio_ctrl, poly5_state, poly4_state),
    {
        let in_5 = (0 == audio_ctrl & 0xF) || (((0 != audio_ctrl & 0x3) || ((poly4_state & 0xF)
            == 0xA)) && (0 == poly5_state & 0x1F)) || !((((0 != audio_ctrl & 0x3) || (0
            == poly4_state & 0x1)) && ((0 == poly5_state & 0x8) || (0 == audio_ctrl & 0x3))) ^ (0
            != poly5_state & 0x1));
        (poly5_state >> 1) | (if in_5 { 16u8 } else { 0u8 })
    }

    pub fn poly5clk(audio_ctrl: u8, poly5_state: u8) -> (r: bool)
        ensures
            r == poly5clk_spec(audio_ctrl, poly5_state),
    {
        (((audio_ctrl & 0x3) != 0x2) || (0x2 == (poly5_state & 0x1E))) && (((audio_ctrl & 0x3)
            != 0x3) || (0 != poly5_state & 0x1))
    }

    fn next_sample(c: AudioChannel) -> (r: (AudioChannel, u8))
        ensures
            r == channel_step(c),
    {
        let mut c1 = c;
        if c.freq_pos % (c.freq as u32 + 1) == 0 {
            let next_poly5 = TiaSound::poly5(c.wave_form, c.poly5, c.poly4);
            if TiaSound::poly5clk(c.wave_form, c.poly5) {
                c1.poly4 = TiaSound::poly4(c.wave_form, c.poly5, c.poly4);
            }
            c1.poly5 = next_poly5;
        }
        let sample: u8 = if c1.poly4 & 1 != 0 {
            (c1.volume % 16) * 7
        } else {
            0
        };
        c1.freq_pos = c1.freq_pos.wrapping_add(1);
        (c1, sample)
    }

    /// Renders `length` samples of one channel, advancing its counters.
    pub fn get_channel_data(&mut self, channel: u8, length: u16) -> (r: Vec<u8>)
        requires
            channel < 2,
        ensures
            r@ == channel_run(old(self).channel_spec(channel), length as nat).1,
            final(self).channel_spec(channel) == channel_run(old(self).channel_spec(channel), length as nat).0,
            final(self).channel_spec((1 - channel) as u8) == old(self).channel_spec((1 - channel) as u8),
            final(self).working_stream == old(self).working_stream,
            final(self).last_update_time == old(self).last_update_time,
            final(self).realtime == old(self).realtime,
    {
        let mut ch = if channel == 0 { self.ch0 } else { self.ch1 };
        let mut stream: Vec<u8> = Vec::new();
        let mut i: u16 = 0;
        while i < length
            invariant
                i <= length,
                (ch, stream@) == channel_run(old(self).channel_spec(channel), i as nat),
            decreases length - i,
        {
            let (c2, s) = TiaSound::next_sample(ch);
            ch = c2;
            stream.push(s);
            i += 1;
        }
        if channel == 0 {
            self.ch0 = ch;
        } else {
            self.ch1 = ch;
        }
        stream
    }

    pub fn write_audio_ctrl_0(&mut self, clock: &Clock, address: u16, data: u8)
        ensures
            final(self).generated_from(*old(self), clock.ticks),
            final(self).ch0.wave_form == data,
            final(self).ch1 == old(self).generated(clock.ticks).ch1,
            final(self).ch0 == (AudioChannel { wave_form: data, ..old(self).generated(clock.ticks).ch0 }),
    {
        self.pre_write_generate_sound(clock);
        self.ch0.wave_form = data;
    }

    pub fn write_audio_ctrl_1(&mut self, clock: &Clock, address: u16, data: u8)
        ensures
            final(self).generated_from(*old(self), clock.ticks),
            final(self).ch0 == old(self).generated(clock.ticks).ch0,
            final(self).ch1 == (AudioChannel { wave_form: data, ..old(self).generated(clock.ticks).ch1 }),
    {
        self.pre_write_generate_sound(clock);
        self.ch1.wave_form = data;
    }

    pub fn write_audio_freq_0(&mut self, clock: &Clock, address: u16, data: u8)
        ensures
            final(self).generated_from(*old(self), clock.ticks),
            final(self).ch0 == (AudioChannel { freq: data & 0x1F, ..old(self).generated(clock.ticks).ch0 }),
            final(self).ch1 == old(self).generated(clock.ticks).ch1,
    {
        self.pre_write_generate_sound(clock);
        self.ch0.freq = data & TiaSound::FREQ_DATA_MASK;
    }

    pub fn write_audio_freq_1(&mut self, clock: &Clock, address: u16, data: u8)
        ensures
            final(self).generated_from(*old(self), clock.ticks),
            final(self).ch0 == old(self).generated(clock.ticks).ch0,
            final(self).ch1 == (AudioChannel { freq: data & 0x1F, ..old(self).generated(clock.ticks).ch1 }),
    {
        self.pre_write_generate_sound(clock);
        self.ch1.freq = data & TiaSound::FREQ_DATA_MASK;
    }

    pub fn write_audio_vol_0(&mut self, clock: &Clock, address: u16, data: u8)
        ensures
            final(self).generated_from(*old(self), clock.ticks),
            final(self).ch0 == (AudioChannel { volume: data, ..old(self).generated(clock.ticks).ch0 }),
            final(self).ch1 == old(self).generated(clock.ticks).ch1,
    {
        self.pre_write_generate_sound(clock);
        self.ch0.volume = data;
    }

    pub fn write_audio_vol_1(&mut self, clock: &Clock, address: u16, data: u8)
        ensures
            final(self).generated_from(*old(self), clock.ticks),
            final(self).ch0 == old(self).generated(clock.ticks).ch0,
            final(self).ch1 == (AudioChannel { volume: data, ..old(self).generated(clock.ticks).ch1 }),
    {
        self.pre_write_generate_sound(clock);
        self.ch1.volume = data;
    }

    /// Brings the sample queue up to the clock.
    pub fn step(&mut self, clock: &Clock)
        ensures
            final(self).generated_from(*old(self), clock.ticks),
            final(self).ch0 == old(self).generated(clock.ticks).ch0,
            final(self).ch1 == old(self).generated(clock.ticks).ch1,
    {
        self.pre_write_generate_sound(clock);
    }

    /// The state after the samples owed up to `now` have been queued.
    pub open spec fn generated(self, now: u64) -> TiaSound {
        let n = samples_owed(self.last_update_time, now);
        let (c0, s0) = channel_run(self.ch0, n);
        let (c1, s1) = channel_run(self.ch1, n);
        TiaSound {
            ch0: c0,
            ch1: c1,
            last_update_time: (self.last_update_time + samples_time(n)) as u64,
            working_stream: self.working_stream,
            ..self
        }
    }

    /// `self` has the queue, time and mode of `old` brought up to `now`.
    pub open spec fn generated_from(self, old: TiaSound, now: u64) -> bool {
        let n = samples_owed(old.last_update_time, now);
        &&& self.working_stream@ == old.working_stream@ + interleave(
            channel_run(old.ch0, n).1,
            channel_run(old.ch1, n).1,
        )
        &&& self.last_update_time == old.generated(now).last_update_time
        &&& self.realtime == old.realtime
    }

    fn pre_write_generate_sound(&mut self, clock: &Clock)
        ensures
            final(self).generated_from(*old(self), clock.ticks),
            final(self).ch0 == old(self).generated(clock.ticks).ch0,
            final(self).ch1 == old(self).generated(clock.ticks).ch1,
            final(self).working_stream@ == old(self).working_stream@ + interleave(
                channel_run(old(self).ch0, samples_owed(old(self).last_update_time, clock.ticks)).1,
                channel_run(old(self).ch1, samples_owed(old(self).last_update_time, clock.ticks)).1,
            ),
            *final(self) == (TiaSound { working_stream: final(self).working_stream, ..old(self).generated(clock.ticks) }),
    {
        let rate: u64 = 3 * TiaSound::CPU_CLOCK_RATE as u64;
        let delta: u64 = if clock.ticks <= self.last_update_time {
            0
        } else if clock.ticks - self.last_update_time > rate {
            rate
        } else {
            clock.ticks - self.last_update_time
        };
        assert(32050 * delta <= 32050 * 3579546) by (nonlinear_arith)
            requires delta <= 3579546;
        let num_samples: u64 = (TiaSound::SAMPLERATE as u64 * delta) / rate;
        proof {
            assert(rate == colour_clock_rate());
            assert(delta == capped_delta(self.last_update_time, clock.ticks));
            assert(num_samples == samples_owed(self.last_update_time, clock.ticks));
            lemma_samples_time(num_samples as int, delta as int);
        }
        let advance: u64 = num_samples * rate / TiaSound::SAMPLERATE as u64;
        proof {
            lemma_channel_run_len(self.ch0, num_samples as nat);
            lemma_channel_run_len(self.ch1, num_samples as nat);
        }
        let left = self.get_channel_data(0, num_samples as u16);
        let right = self.get_channel_data(1, num_samples as u16);
        self.last_update_time = self.last_update_time + advance;
        let ghost start = self.working_stream@;
        let ghost before = *self;
        let mut i: usize = 0;
        while i < left.len()
            invariant
                left@.len() == right@.len() == num_samples,
                i <= left@.len(),
                self.ch0 == before.ch0 && self.ch1 == before.ch1,
                self.last_update_time == before.last_update_time,
                self.realtime == before.realtime,
                self.working_stream@ == start + interleave(left@.subrange(0, i as int), right@.subrange(0, i as int)),
            decreases left.len() - i,
        {
            self.working_stream.push(left[i]);
            self.working_stream.push(right[i]);
            proof {
                assert(interleave(left@.subrange(0, i + 1), right@.subrange(0, i + 1)) =~=
                    interleave(left@.subrange(0, i as int), right@.subrange(0, i as int)).push(left@[i as int]).push(right@[i as int]));
            }
            i += 1;
        }
        proof {
            assert(left@.subrange(0, i as int) =~= left@);
            assert(right@.subrange(0, i as int) =~= right@);
        }
    }
}

} // verus!
