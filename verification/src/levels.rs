//! How loud the music was a moment ago.
//!
//! The last samples and the last peaks are kept in rings: what is new takes the place of what is
//! oldest. Samples are kept by their bits, peaks in thousandths.
use vstd::prelude::*;

verus! {

/// How many samples are kept.
pub const WINDOW_SIZE: usize = 2048;

/// How many peaks are kept.
pub const LEVEL_BUCKETS: usize = 28;

/// Of how many samples a peak is taken.
pub const SAMPLES_PER_BUCKET: usize = 1300;

/// The values of a ring from the oldest to the newest: those from the cursor on, then those in front
/// of it.
pub open spec fn in_order(values: Seq<u32>, cursor: int) -> Seq<u32> {
    values.skip(cursor) + values.take(cursor)
}

/// A ring of values.
#[derive(Debug)]
struct Ring {
    values: Vec<u32>,
    /// The place of the oldest value.
    cursor: usize,
}

impl View for Ring {
    type V = Seq<u32>;

    closed spec fn view(&self) -> Seq<u32> {
        in_order(self.values@, self.cursor as int)
    }
}

impl Ring {
    /// The cursor stands in the ring.
    closed spec fn wf(&self) -> bool {
        self.cursor < self.values@.len()
    }

    /// A ring of `size` zeros.
    fn new(size: usize) -> (r: Ring)
        requires
            size > 0,
        ensures
            r.wf(),
            r@ == Seq::new(size as nat, |i: int| 0u32),
    {
        let mut values: Vec<u32> = Vec::new();
        while values.len() < size
            invariant
                values@.len() <= size,
                forall|i: int| 0 <= i < values@.len() ==> values@[i] == 0,
            decreases size - values@.len(),
        {
            values.push(0);
        }
        let r = Ring { values, cursor: 0 };
        proof {
            assert(r@ =~= Seq::new(size as nat, |i: int| 0u32));
        }
        r
    }

    /// Lets a value take the place of the oldest.
    fn push(&mut self, value: u32)
        requires
            old(self).wf(),
        ensures
            final(self).wf(),
            final(self)@ == old(self)@.drop_first().push(value),
    {
        let ghost before = self@;
        let at: usize = self.cursor;
        let len: usize = self.values.len();
        self.values[at] = value;
        self.cursor = if at + 1 == len {
            0
        } else {
            at + 1
        };
        proof {
            assert(self@ =~= before.drop_first().push(value));
        }
    }

    /// The values from the oldest to the newest.
    fn snapshot(&self) -> (r: Vec<u32>)
        requires
            self.wf(),
        ensures
            r@ == self@,
    {
        let mut out: Vec<u32> = Vec::new();
        let len: usize = self.values.len();
        let mut i: usize = 0;
        while i < len
            invariant
                self.wf(),
                len == self.values@.len(),
                i <= len,
                out@ == self@.take(i as int),
            decreases len - i,
        {
            let at: usize = if i < len - self.cursor {
                self.cursor + i
            } else {
                i - (len - self.cursor)
            };
            out.push(self.values[at]);
            proof {
                assert(self@[i as int] == self.values@[at as int]);
                assert(out@ =~= self@.take(i + 1));
            }
            i += 1;
        }
        proof {
            assert(self@.take(len as int) =~= self@);
        }
        out
    }

    /// Lets every value be zero.
    fn clear(&mut self)
        requires
            old(self).wf(),
        ensures
            final(self).wf(),
            final(self)@ == Seq::new(old(self)@.len(), |i: int| 0u32),
    {
        let len: usize = self.values.len();
        let mut i: usize = 0;
        while i < len
            invariant
                self.wf(),
                len == self.values@.len(),
                i <= len,
                self.values@.len() == old(self).values@.len(),
                self.cursor == old(self).cursor,
                forall|k: int| 0 <= k < i ==> self.values@[k] == 0,
            decreases len - i,
        {
            self.values[i] = 0;
            i += 1;
        }
        proof {
            assert(self@ =~= Seq::new(old(self)@.len(), |i: int| 0u32));
        }
    }
}

/// The last samples of one channel.
#[derive(Debug)]
pub struct SampleWindow {
    ring: Ring,
}

impl View for SampleWindow {
    type V = Seq<u32>;

    closed spec fn view(&self) -> Seq<u32> {
        self.ring@
    }
}

/// A window of silence.
pub open spec fn silence(size: nat) -> Seq<u32> {
    Seq::new(size, |i: int| 0u32)
}

impl SampleWindow {
    /// The window is sound.
    pub closed spec fn wf(&self) -> bool {
        self.ring.wf()
    }

    /// A window of silence.
    pub fn new() -> (r: SampleWindow)
        ensures
            r.wf(),
            r@ == silence(WINDOW_SIZE as nat),
    {
        SampleWindow { ring: Ring::new(WINDOW_SIZE) }
    }

    /// Takes in a sample.
    pub fn push(&mut self, sample: u32)
        requires
            old(self).wf(),
        ensures
            final(self).wf(),
            final(self)@ == old(self)@.drop_first().push(sample),
    {
        self.ring.push(sample);
    }

    /// The samples from the oldest to the newest.
    pub fn snapshot(&self) -> (r: Vec<u32>)
        requires
            self.wf(),
        ensures
            r@ == self@,
    {
        self.ring.snapshot()
    }

    /// Forgets the samples.
    pub fn clear(&mut self)
        requires
            old(self).wf(),
        ensures
            final(self).wf(),
            final(self)@ == silence(old(self)@.len()),
    {
        self.ring.clear();
    }
}

impl Default for SampleWindow {
    fn default() -> (r: Self)
        ensures
            r.wf(),
            r@ == silence(WINDOW_SIZE as nat),
    {
        SampleWindow::new()
    }
}

/// The last peaks, the last samples, and how many samples make a second.
#[derive(Debug)]
pub struct AudioLevels {
    buckets: Ring,
    window: SampleWindow,
    sample_rate: u32,
}

pub struct LevelsModel {
    pub peaks: Seq<u32>,
    pub samples: Seq<u32>,
    pub sample_rate: u32,
}

impl View for AudioLevels {
    type V = LevelsModel;

    closed spec fn view(&self) -> LevelsModel {
        LevelsModel {
            peaks: self.buckets@,
            samples: self.window@,
            sample_rate: self.sample_rate,
        }
    }
}

/// The highest peak.
pub const FULL_LEVEL: u32 = 1000;

impl AudioLevels {
    /// The levels are sound.
    pub closed spec fn wf(&self) -> bool {
        self.buckets.wf() && self.window.wf()
    }

    /// Levels of silence.
    pub fn new() -> (r: AudioLevels)
        ensures
            r.wf(),
            r@ == (LevelsModel {
                peaks: silence(LEVEL_BUCKETS as nat),
                samples: silence(WINDOW_SIZE as nat),
                sample_rate: 0,
            }),
    {
        AudioLevels {
            buckets: Ring::new(LEVEL_BUCKETS),
            window: SampleWindow::new(),
            sample_rate: 0,
        }
    }

    /// Takes in a peak, in thousandths.
    pub fn push(&mut self, level: u32)
        requires
            old(self).wf(),
        ensures
            final(self).wf(),
            final(self)@ == (LevelsModel {
                peaks: old(self)@.peaks.drop_first().push(
                    if level < FULL_LEVEL {
                        level
                    } else {
                        FULL_LEVEL
                    },
                ),
                ..old(self)@
            }),
    {
        self.buckets.push(
            if level < FULL_LEVEL {
                level
            } else {
                FULL_LEVEL
            },
        );
    }

    /// Takes in a sample.
    pub fn push_sample(&mut self, sample: u32)
        requires
            old(self).wf(),
        ensures
            final(self).wf(),
            final(self)@ == (LevelsModel {
                samples: old(self)@.samples.drop_first().push(sample),
                ..old(self)@
            }),
    {
        self.window.push(sample);
    }

    /// Takes in how many samples make a second.
    pub fn set_sample_rate(&mut self, sample_rate: u32)
        requires
            old(self).wf(),
        ensures
            final(self).wf(),
            final(self)@ == (LevelsModel { sample_rate, ..old(self)@ }),
    {
        self.sample_rate = sample_rate;
    }

    /// How many samples make a second.
    pub fn sample_rate(&self) -> (r: u32)
        ensures
            r == self@.sample_rate,
    {
        self.sample_rate
    }

    /// The samples from the oldest to the newest.
    pub fn samples(&self) -> (r: Vec<u32>)
        requires
            self.wf(),
        ensures
            r@ == self@.samples,
    {
        self.window.snapshot()
    }

    /// The peaks from the oldest to the newest.
    pub fn snapshot(&self) -> (r: Vec<u32>)
        requires
            self.wf(),
        ensures
            r@ == self@.peaks,
    {
        self.buckets.snapshot()
    }

    /// Forgets peaks and samples.
    pub fn clear(&mut self)
        requires
            old(self).wf(),
        ensures
            final(self).wf(),
            final(self)@ == (LevelsModel {
                peaks: silence(old(self)@.peaks.len()),
                samples: silence(old(self)@.samples.len()),
                ..old(self)@
            }),
    {
        self.buckets.clear();
        self.window.clear();
    }
}

impl Default for AudioLevels {
    fn default() -> (r: Self)
        ensures
            r.wf(),
            r@ == (LevelsModel {
                peaks: silence(LEVEL_BUCKETS as nat),
                samples: silence(WINDOW_SIZE as nat),
                sample_rate: 0,
            }),
    {
        AudioLevels::new()
    }
}

/// Which samples are looked at. The channels of a song come in turn, and only the first is kept, so
/// that the window holds one unbroken wave.
#[derive(Debug, Clone, Copy, PartialEq, Eq, Structural)]
pub struct LevelMeter {
    pub channels: u16,
    /// The channel that comes next.
    pub channel: u16,
    /// How many samples of the peak have come.
    pub counted: usize,
}

impl LevelMeter {
    /// A meter for so many channels.
    pub fn new(channels: u16) -> (r: LevelMeter)
        requires
            channels > 0,
        ensures
            r == (LevelMeter { channels, channel: 0, counted: 0 }),
    {
        LevelMeter { channels, channel: 0, counted: 0 }
    }

    /// A sample has come. Returns whether it is kept, and whether the peak is complete with it.
    pub fn step(&mut self) -> (r: (bool, bool))
        requires
            old(self).channel < old(self).channels,
            old(self).counted < SAMPLES_PER_BUCKET,
        ensures
            r.0 == (old(self).channel == 0),
            r.1 == (old(self).counted + 1 == SAMPLES_PER_BUCKET),
            final(self).channels == old(self).channels,
            final(self).channel == if old(self).channel + 1 == old(self).channels {
                0
            } else {
                old(self).channel + 1
            },
            final(self).counted == if r.1 {
                0
            } else {
                old(self).counted + 1
            },
            final(self).channel < final(self).channels,
            final(self).counted < SAMPLES_PER_BUCKET,
    {
        let kept = self.channel == 0;
        self.channel = if self.channel == self.channels - 1 {
            0
        } else {
            self.channel + 1
        };
        self.counted = self.counted + 1;
        let complete = self.counted >= SAMPLES_PER_BUCKET;
        if complete {
            self.counted = 0;
        }
        (kept, complete)
    }
}

/// A ring after values have come one after the other.
pub open spec fn after_all(ring: Seq<u32>, values: Seq<u32>) -> Seq<u32>
    decreases values.len(),
{
    if values.len() == 0 {
        ring
    } else {
        after_all(ring, values.drop_last()).drop_first().push(values.last())
    }
}

/// A ring holds what came last, in the order in which it came: when as many values have come as it
/// holds, nothing else is in it.
pub proof fn rings_hold_what_came_last(ring: Seq<u32>, values: Seq<u32>)
    requires
        values.len() <= ring.len(),
    ensures
        after_all(ring, values) == ring.skip(values.len() as int) + values,
    decreases values.len(),
{
    if values.len() == 0 {
        assert(ring.skip(0) + values =~= ring);
    } else {
        rings_hold_what_came_last(ring, values.drop_last());
        let before = ring.skip(values.len() - 1) + values.drop_last();
        assert(before.drop_first().push(values.last()) =~= ring.skip(values.len() as int) + values);
    }
}

} // verus!
