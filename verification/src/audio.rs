//! Audio sample handling: packing 8-bit PCM samples into the PWM words the
//! sound hardware consumes, and the double-buffer exchange between a running
//! application and the audio output.

use vstd::prelude::*;

verus! {

/// Default output sample rate.
pub const SAMPLE_RATE_HZ: u32 = 22050;

/// Samples per exchanged audio buffer.
pub const AUDIO_BUFFER_SAMPLES: usize = 1024;

/// Bytes per exchanged audio buffer: stereo-interleaved 8-bit PCM.
pub const AUDIO_BUFFER_LEN: usize = 2048;

/// The PCM value of silence.
pub const SILENCE: u8 = 127;

/// The PWM word one 8-bit PCM sample turns into: the sample as the high
/// time in the top byte and its complement as the low time in the bottom
/// byte, so every word spans the same period.
pub open spec fn spec_pwm_word(sample: u8) -> int {
    0x100 * sample + (255 - sample)
}

/// Turn one 8-bit PCM sample into its 16-bit PWM high/low word.
pub fn u8_pcm_to_pwm(sample: u8) -> (r: u16)
    ensures
        r == spec_pwm_word(sample),
{
    let r = ((sample as u16) << 8) | ((u8::MAX - sample) as u16);
    proof {
        assert((((sample as u16) << 8) | ((255 - sample) as u16)) == (0x100 * sample + (255
            - sample)) as u16) by (bit_vector);
    }
    r
}

/// The 32-bit word two PWM samples share: the first in the top half, the
/// second in the bottom half.
pub open spec fn spec_packed_samples(s1: u8, s2: u8) -> int {
    0x1_0000 * spec_pwm_word(s1) + spec_pwm_word(s2)
}

/// Pack two 8-bit PCM samples into one 32-bit word of PWM times.
pub fn pack_u8_samples(sample1: u8, sample2: u8) -> (r: u32)
    ensures
        r == spec_packed_samples(sample1, sample2),
{
    let w1 = u8_pcm_to_pwm(sample1);
    let w2 = u8_pcm_to_pwm(sample2);
    let r = ((w1 as u32) << 16) | (w2 as u32);
    proof {
        assert((((w1 as u32) << 16) | (w2 as u32)) == (0x1_0000 * w1 + w2) as u32)
            by (bit_vector);
    }
    r
}

/// Split a stereo-interleaved 8-bit PCM buffer into the per-channel PWM
/// words the two sound state machines consume: word `i` of each channel
/// packs that channel's samples from frames `2 * i` and `2 * i + 1`.
pub fn pack_stereo(buf: &[u8]) -> (r: (Vec<u32>, Vec<u32>))
    requires
        buf.len() % 4 == 0,
    ensures
        r.0.len() == buf.len() / 4,
        r.1.len() == buf.len() / 4,
        forall|i: int|
            0 <= i < buf.len() / 4 ==> r.0@[i] == spec_packed_samples(
                buf@[4 * i],
                buf@[4 * i + 2],
            ),
        forall|i: int|
            0 <= i < buf.len() / 4 ==> r.1@[i] == spec_packed_samples(
                buf@[4 * i + 1],
                buf@[4 * i + 3],
            ),
{
    let n = buf.len() / 4;
    let mut left: Vec<u32> = Vec::new();
    let mut right: Vec<u32> = Vec::new();
    let mut i: usize = 0;
    while i < n
        invariant
            i <= n,
            n == buf.len() / 4,
            buf.len() % 4 == 0,
            left.len() == i,
            right.len() == i,
            forall|k: int|
                0 <= k < i ==> left@[k] == spec_packed_samples(buf@[4 * k], buf@[4 * k + 2]),
            forall|k: int|
                0 <= k < i ==> right@[k] == spec_packed_samples(buf@[4 * k + 1], buf@[4 * k + 3]),
        decreases n - i,
    {
        left.push(pack_u8_samples(buf[4 * i], buf[4 * i + 2]));
        right.push(pack_u8_samples(buf[4 * i + 1], buf[4 * i + 3]));
        i += 1;
    }
    (left, right)
}

/// The clock divider that makes the PWM state machine consume 256 cycles
/// per sample at the requested rate.
pub fn pwm_divider(clk_freq: u32, sample_rate: u32) -> (r: u32)
    requires
        0 < sample_rate <= 0xffffff,
    ensures
        r == clk_freq as int / (256 * sample_rate),
{
    let target_clock: u32 = 256 * sample_rate;
    clk_freq / target_clock
}

/// The silence-filled buffer.
pub open spec fn spec_silence() -> Seq<u8> {
    Seq::new(AUDIO_BUFFER_LEN as nat, |i: int| SILENCE)
}

/// The audio double buffer shared between a running application and the
/// audio output.
///
/// The application sends full buffers; the output swaps each sent buffer in
/// when it starts playing it and then reports itself ready for the next.
pub struct AudioExchange {
    /// The buffer most recently sent and not yet playing.
    pub pending: Vec<u8>,
    /// The buffer the output is playing.
    pub playing: Vec<u8>,
    /// Whether the exchange can accept another buffer.
    pub ready: bool,
}

impl AudioExchange {
    /// Both buffers hold exactly one frame of samples.
    pub open spec fn wf(self) -> bool {
        self.pending.len() == AUDIO_BUFFER_LEN && self.playing.len() == AUDIO_BUFFER_LEN
    }

    /// A fresh exchange: silence everywhere, ready for a first buffer.
    pub fn new() -> (r: AudioExchange)
        ensures
            r.wf(),
            r.ready,
            r.pending@ == spec_silence(),
            r.playing@ == spec_silence(),
    {
        let pending = vec![SILENCE; AUDIO_BUFFER_LEN];
        let playing = vec![SILENCE; AUDIO_BUFFER_LEN];
        proof {
            assert(pending@ =~= spec_silence());
            assert(playing@ =~= spec_silence());
        }
        AudioExchange { pending, playing, ready: true }
    }

    /// Whether the exchange can accept another buffer from the
    /// application.
    pub fn audio_buffer_ready(&self) -> (r: bool)
        ensures
            r == self.ready,
    {
        self.ready
    }

    /// Accept one buffer from the application.
    ///
    /// Accepted — and then no longer ready — exactly when the exchange is
    /// ready and the buffer is one full frame; any other buffer leaves the
    /// exchange unchanged, as does a send while the previous frame has not
    /// been picked up.
    pub fn send_audio_buffer(&mut self, buf: &[u8]) -> (r: bool)
        requires
            old(self).wf(),
        ensures
            final(self).wf(),
            final(self).playing@ == old(self).playing@,
            r == (old(self).ready && buf.len() == AUDIO_BUFFER_LEN),
            r ==> final(self).pending@ == buf@ && !final(self).ready,
            !r ==> *final(self) == *old(self),
    {
        if !self.ready || buf.len() != AUDIO_BUFFER_LEN {
            return false;
        }
        let mut fresh: Vec<u8> = Vec::new();
        let mut i: usize = 0;
        while i < buf.len()
            invariant
                i <= buf.len(),
                fresh.len() == i,
                forall|k: int| 0 <= k < i ==> fresh@[k] == buf@[k],
            decreases buf.len() - i,
        {
            fresh.push(buf[i]);
            i += 1;
        }
        proof {
            assert(fresh@ =~= buf@);
        }
        self.pending = fresh;
        self.ready = false;
        true
    }

    /// Start playing the pending buffer: it becomes the playing one, the
    /// pending slot is silenced, and the exchange is ready again.
    pub fn swap_buffers(&mut self)
        requires
            old(self).wf(),
        ensures
            final(self).wf(),
            final(self).playing@ == old(self).pending@,
            final(self).pending@ == spec_silence(),
            final(self).ready,
    {
        let mut fresh = vec![SILENCE; AUDIO_BUFFER_LEN];
        proof {
            assert(fresh@ =~= spec_silence());
        }
        core::mem::swap(&mut self.pending, &mut fresh);
        self.playing = fresh;
        self.pending = vec![SILENCE; AUDIO_BUFFER_LEN];
        proof {
            assert(self.pending@ =~= spec_silence());
        }
        self.ready = true;
    }

    /// Reset both buffers to silence after an application is unloaded.
    pub fn clear(&mut self)
        ensures
            final(self).wf(),
            final(self).pending@ == spec_silence(),
            final(self).playing@ == spec_silence(),
            final(self).ready == old(self).ready,
    {
        self.pending = vec![SILENCE; AUDIO_BUFFER_LEN];
        self.playing = vec![SILENCE; AUDIO_BUFFER_LEN];
        proof {
            assert(self.pending@ =~= spec_silence());
            assert(self.playing@ =~= spec_silence());
        }
    }
}

} // verus!
