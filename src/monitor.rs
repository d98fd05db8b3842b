use vstd::prelude::*;
use crate::aggregator::elapsed;

verus! {

/// A sample louder than this (in absolute value) counts as sound.
pub const SOUND_THRESHOLD: i16 = 500;

/// Silence is reported when more than this many buffers in a row hold no sound.
pub const SILENCE_LIMIT: u64 = 30;

/// The absolute value of a sample.
pub open spec fn magnitude(x: i16) -> int {
    if x < 0 {
        -(x as int)
    } else {
        x as int
    }
}

/// Whether some sample of the buffer is louder than the threshold.
pub open spec fn has_sound(s: Seq<i16>) -> bool {
    exists|i: int| 0 <= i < s.len() && magnitude(s[i]) > SOUND_THRESHOLD
}

/// What one audio buffer means for the session.
#[derive(Clone, Copy, Debug, PartialEq, Eq, Structural)]
pub struct AudioStep {
    /// The maximum duration has elapsed; the buffer is not recognised.
    pub timed_out: bool,
    /// This buffer made the run of silent buffers cross the limit.
    pub silence_detected: bool,
}

/// Watches the audio of a listening session for silence and for the end of
/// its time limit.
pub struct ListenMonitor {
    start_ms: u64,
    max_duration_ms: Option<u64>,
    silent_buffers: u64,
}

impl ListenMonitor {
    pub closed spec fn start_spec(&self) -> u64 {
        self.start_ms
    }

    pub closed spec fn limit_spec(&self) -> Option<u64> {
        self.max_duration_ms
    }

    /// How many buffers in a row held no sound.
    pub closed spec fn silent_run(&self) -> u64 {
        self.silent_buffers
    }

    /// Starts watching at `start_ms`, with an optional time limit.
    pub fn new(start_ms: u64, max_duration_ms: Option<u64>) -> (r: Self)
        ensures
            r.start_spec() == start_ms,
            r.limit_spec() == max_duration_ms,
            r.silent_run() == 0,
    {
        ListenMonitor { start_ms, max_duration_ms, silent_buffers: 0 }
    }

    /// Whether the buffer holds a sample louder than the threshold.
    pub fn buffer_has_sound(samples: &Vec<i16>) -> (r: bool)
        ensures
            r == has_sound(samples@),
    {
        let mut i: usize = 0;
        while i < samples.len()
            invariant
                i <= samples@.len(),
                forall|k: int| 0 <= k < i ==> magnitude(samples@[k]) <= SOUND_THRESHOLD,
            decreases samples@.len() - i,
        {
            let s = samples[i];
            if s > SOUND_THRESHOLD || s < -SOUND_THRESHOLD {
                return true;
            }
            i += 1;
        }
        false
    }

    /// The buffer that arrived at `now_ms`. Once the time limit has elapsed
    /// it reports a timeout and counts nothing. Otherwise a buffer with sound
    /// resets the run of silent buffers and a silent one extends it; silence
    /// is reported when the run first exceeds the limit, and listening goes on.
    pub fn on_audio(&mut self, samples: &Vec<i16>, now_ms: u64) -> (r: AudioStep)
        ensures
            final(self).start_spec() == old(self).start_spec(),
            final(self).limit_spec() == old(self).limit_spec(),
            r.timed_out == (old(self).limit_spec() matches Some(m) && elapsed(old(self).start_spec(), now_ms) >= m),
            r.timed_out ==> final(self).silent_run() == old(self).silent_run() && !r.silence_detected,
            !r.timed_out ==> {
                &&& final(self).silent_run() == if has_sound(samples@) {
                    0
                } else if old(self).silent_run() == u64::MAX {
                    u64::MAX
                } else {
                    (old(self).silent_run() + 1) as u64
                }
                &&& r.silence_detected == (final(self).silent_run() == SILENCE_LIMIT + 1)
            },
    {
        if let Some(m) = self.max_duration_ms {
            let waited: u64 = if now_ms >= self.start_ms {
                now_ms - self.start_ms
            } else {
                0
            };
            if waited >= m {
                return AudioStep { timed_out: true, silence_detected: false };
            }
        }
        if Self::buffer_has_sound(samples) {
            self.silent_buffers = 0;
        } else if self.silent_buffers < u64::MAX {
            self.silent_buffers = self.silent_buffers + 1;
        }
        AudioStep { timed_out: false, silence_detected: self.silent_buffers == SILENCE_LIMIT + 1 }
    }
}

} // verus!
