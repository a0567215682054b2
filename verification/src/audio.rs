//! The audio recorder's logic: its states and their errors, how captured
//! samples are moved between buffers, the noise gate's frame decisions,
//! silence trimming and the level meter's hold counter.
//!
//! The samples themselves are floating point and stay with the caller;
//! the functions here are generic over the sample type, and the loudness
//! tests (floating-point comparisons) are handed in as booleans.

use vstd::prelude::*;
use crate::text::str_equal;

verus! {

/// Whether an input stream is open and whether capture is paused.
pub struct RecorderState {
    stream_active: bool,
    paused: bool,
}

/// The error of an operation that needs an open stream.
pub open spec fn not_recording_error() -> Seq<char> {
    "Not recording"@
}

impl RecorderState {
    /// An input stream is open.
    pub closed spec fn active(self) -> bool {
        self.stream_active
    }

    /// Capture is paused.
    pub closed spec fn is_paused_spec(self) -> bool {
        self.paused
    }

    /// A recorder with no stream, not paused.
    pub fn new() -> (s: RecorderState)
        ensures
            !s.active(),
            !s.is_paused_spec(),
    {
        RecorderState { stream_active: false, paused: false }
    }

    /// Whether capture is paused.
    pub fn is_paused(&self) -> (b: bool)
        ensures
            b == self.is_paused_spec(),
    {
        self.paused
    }

    /// Whether a stream (a recording or a microphone test) is open.
    pub fn is_active(&self) -> (b: bool)
        ensures
            b == self.active(),
    {
        self.stream_active
    }

    /// A new stream may only be opened while none is.
    pub fn check_idle(&self) -> (r: Result<(), String>)
        ensures
            r is Ok <==> !self.active(),
            r matches Err(e) ==> e@ == "An audio stream is already active"@,
    {
        if self.stream_active {
            Err(String::from_str("An audio stream is already active"))
        } else {
            Ok(())
        }
    }

    /// A recording is about to start: capture is no longer paused.
    pub fn prepare_recording(&mut self)
        ensures
            final(self).active() == old(self).active(),
            !final(self).is_paused_spec(),
    {
        self.paused = false;
    }

    /// The input stream is open and playing.
    pub fn stream_started(&mut self)
        ensures
            final(self).active(),
            final(self).is_paused_spec() == old(self).is_paused_spec(),
    {
        self.stream_active = true;
    }

    /// Stopping a recording closes the stream; it fails when there is none.
    pub fn stop(&mut self) -> (r: Result<(), String>)
        ensures
            r is Ok <==> old(self).active(),
            r matches Err(e) ==> e@ == not_recording_error(),
            !final(self).active(),
            final(self).is_paused_spec() == old(self).is_paused_spec(),
    {
        if self.stream_active {
            self.stream_active = false;
            Ok(())
        } else {
            Err(String::from_str("Not recording"))
        }
    }

    /// Cancelling a recording closes the stream and ends any pause; it fails
    /// (and changes nothing) when there is no stream.
    pub fn cancel(&mut self) -> (r: Result<(), String>)
        ensures
            r is Ok <==> old(self).active(),
            r matches Err(e) ==> e@ == not_recording_error(),
            !final(self).active(),
            r is Ok ==> !final(self).is_paused_spec(),
            r is Err ==> final(self).is_paused_spec() == old(self).is_paused_spec(),
    {
        if self.stream_active {
            self.stream_active = false;
            self.paused = false;
            Ok(())
        } else {
            Err(String::from_str("Not recording"))
        }
    }

    /// Pausing keeps the stream open but diverts captured samples; it fails
    /// (and changes nothing) when there is no stream.
    pub fn pause(&mut self) -> (r: Result<(), String>)
        ensures
            r is Ok <==> old(self).active(),
            r matches Err(e) ==> e@ == not_recording_error(),
            final(self).active() == old(self).active(),
            r is Ok ==> final(self).is_paused_spec(),
            r is Err ==> final(self).is_paused_spec() == old(self).is_paused_spec(),
    {
        if self.stream_active {
            self.paused = true;
            Ok(())
        } else {
            Err(String::from_str("Not recording"))
        }
    }

    /// Resuming ends the pause; it fails (and changes nothing) when there is
    /// no stream.
    pub fn resume(&mut self) -> (r: Result<(), String>)
        ensures
            r is Ok <==> old(self).active(),
            r matches Err(e) ==> e@ == not_recording_error(),
            final(self).active() == old(self).active(),
            r is Ok ==> !final(self).is_paused_spec(),
            r is Err ==> final(self).is_paused_spec() == old(self).is_paused_spec(),
    {
        if self.stream_active {
            self.paused = false;
            Ok(())
        } else {
            Err(String::from_str("Not recording"))
        }
    }

    /// Stopping a microphone test closes the stream; it fails when there is
    /// none.
    pub fn stop_mic_test(&mut self) -> (r: Result<(), String>)
        ensures
            r is Ok <==> old(self).active(),
            r matches Err(e) ==> e@ == "Mic test is not active"@,
            !final(self).active(),
            final(self).is_paused_spec() == old(self).is_paused_spec(),
    {
        if self.stream_active {
            self.stream_active = false;
            Ok(())
        } else {
            Err(String::from_str("Mic test is not active"))
        }
    }
}

/// Moves the samples captured during a pause to the end of the recording,
/// in order; the pause buffer is left empty.
pub fn resume_buffers<T>(samples: &mut Vec<T>, paused: &mut Vec<T>)
    ensures
        final(samples)@ == old(samples)@ + old(paused)@,
        final(paused)@.len() == 0,
{
    samples.append(paused);
}

/// Takes the recorded samples out of the buffer (leaving it empty); a
/// recording without samples is an error.
pub fn take_recorded<T>(samples: &mut Vec<T>) -> (r: Result<Vec<T>, String>)
    ensures
        final(samples)@.len() == 0,
        old(samples)@.len() > 0 ==> (r matches Ok(v) && v@ == old(samples)@),
        old(samples)@.len() == 0 ==> (r matches Err(e) && e@ == "No audio captured"@),
{
    let mut taken: Vec<T> = Vec::new();
    std::mem::swap(samples, &mut taken);
    if taken.len() == 0 {
        Err(String::from_str("No audio captured"))
    } else {
        Ok(taken)
    }
}

/// Which buffer the audio callback appends to.
#[derive(Debug, Clone, Copy, PartialEq, Eq, Structural)]
pub enum CaptureBuffer {
    Recording,
    Paused,
}

/// While paused, captured samples go to the pause buffer.
pub fn capture_buffer(paused: bool) -> (b: CaptureBuffer)
    ensures
        b == (if paused { CaptureBuffer::Paused } else { CaptureBuffer::Recording }),
{
    if paused {
        CaptureBuffer::Paused
    } else {
        CaptureBuffer::Recording
    }
}

/// Whether a configured device name means the system's default input.
pub fn uses_default_device(name: &str) -> (r: bool)
    ensures
        r == (name@ == "Default"@ || name@.len() == 0),
{
    str_equal(name, "Default") || name.unicode_len() == 0
}

/// The input device to open: `None` for the system default (no name, the
/// name `"Default"` or an empty name), otherwise the named device.
pub fn input_device_choice(name: Option<&str>) -> (r: Option<String>)
    ensures
        r matches Some(n) ==> (name matches Some(m) && n@ == m@ && !(m@ == "Default"@ || m@.len()
            == 0)),
        r is None ==> (name is None || (name matches Some(m) && (m@ == "Default"@ || m@.len()
            == 0))),
{
    match name {
        Some(n) => if uses_default_device(n) {
            None
        } else {
            Some(String::from_str(n))
        },
        None => None,
    }
}

/// The noise gate over a run of frames: a loud frame keeps sound for
/// `hold` further quiet frames; a quiet frame after that is silenced.
/// Returns which frames are silenced and the hold counter at the end.
pub open spec fn gate_spec(loud: Seq<bool>, hold: nat) -> (Seq<bool>, nat)
    decreases loud.len(),
{
    if loud.len() == 0 {
        (Seq::empty(), 0)
    } else {
        let (silenced, counter) = gate_spec(loud.drop_last(), hold);
        if loud.last() {
            (silenced.push(false), hold)
        } else if counter > 0 {
            (silenced.push(false), (counter - 1) as nat)
        } else {
            (silenced.push(true), 0)
        }
    }
}

/// Some frame among the `hold` frames before frame `i` is loud.
pub open spec fn loud_within(loud: Seq<bool>, i: int, hold: nat) -> bool {
    exists|j: int| 0 <= j < loud.len() && i - hold <= j < i && #[trigger] loud[j]
}

proof fn lemma_gate_step(loud: Seq<bool>, hold: nat)
    ensures
        gate_spec(loud, hold).0.len() == loud.len(),
        forall|i: int|
            0 <= i < loud.len() ==> #[trigger] gate_spec(loud, hold).0[i] == (!loud[i]
                && !loud_within(loud, i, hold)),
        forall|i: int|
            i >= loud.len() ==> (gate_spec(loud, hold).1 > i - loud.len() <==> #[trigger] loud_within(
                loud,
                i,
                hold,
            )),
        gate_spec(loud, hold).1 <= hold,
    decreases loud.len(),
{
    if loud.len() > 0 {
        let pre = loud.drop_last();
        let n = pre.len() as int;
        lemma_gate_step(pre, hold);
        let (sp, c) = gate_spec(pre, hold);
        assert forall|i: int| 0 <= i <= n implies #[trigger] loud_within(loud, i, hold)
            == loud_within(pre, i, hold) by {
            if loud_within(loud, i, hold) {
                let j = choose|j: int| 0 <= j < loud.len() && i - hold <= j < i && #[trigger] loud[j];
                assert(pre[j] == loud[j]);
            }
            if loud_within(pre, i, hold) {
                let j = choose|j: int| 0 <= j < pre.len() && i - hold <= j < i && #[trigger] pre[j];
                assert(pre[j] == loud[j]);
            }
        }
        assert forall|i: int| i >= loud.len() implies (gate_spec(loud, hold).1 > i - loud.len() <==> #[trigger] loud_within(
            loud,
            i,
            hold,
        )) by {
            let d = i - loud.len();
            if loud[n] {
                if d < hold {
                    assert(loud[n]);
                    assert(loud_within(loud, i, hold));
                } else {
                    if loud_within(loud, i, hold) {
                        let j = choose|j: int| 0 <= j < loud.len() && i - hold <= j < i && #[trigger] loud[j];
                        assert(j <= n);
                    }
                }
            } else {
                assert(loud_within(pre, i, hold) == (c > i - n));
                if loud_within(loud, i, hold) {
                    let j = choose|j: int| 0 <= j < loud.len() && i - hold <= j < i && #[trigger] loud[j];
                    assert(j < n);
                    assert(pre[j] == loud[j]);
                    assert(loud_within(pre, i, hold));
                }
                if loud_within(pre, i, hold) {
                    let j = choose|j: int| 0 <= j < pre.len() && i - hold <= j < i && #[trigger] pre[j];
                    assert(pre[j] == loud[j]);
                    assert(loud_within(loud, i, hold));
                }
            }
        }
        assert(loud_within(pre, n, hold) == (c > 0));
        assert forall|i: int| 0 <= i < loud.len() implies #[trigger] gate_spec(loud, hold).0[i] == (!loud[i]
            && !loud_within(loud, i, hold)) by {
            if i < n {
                assert(gate_spec(loud, hold).0[i] == sp[i]);
                assert(pre[i] == loud[i]);
            }
        }
    }
}

/// The noise gate, frame by frame: a loud frame is never silenced, and a
/// quiet frame is silenced exactly when none of the `hold` frames before it
/// is loud (each loud frame keeps the sound on for `hold` more frames).
pub proof fn lemma_noise_gate_holds(loud: Seq<bool>, hold: nat)
    ensures
        gate_spec(loud, hold).0.len() == loud.len(),
        forall|i: int|
            0 <= i < loud.len() ==> (#[trigger] gate_spec(loud, hold).0[i] <==> (!loud[i] && !exists|
                j: int,
            | 0 <= j && i - hold <= j < i && #[trigger] loud[j])),
{
    lemma_gate_step(loud, hold);
    assert forall|i: int| 0 <= i < loud.len() implies (#[trigger] gate_spec(loud, hold).0[i] <==> (
    !loud[i] && !exists|j: int| 0 <= j && i - hold <= j < i && #[trigger] loud[j])) by {
        assert(gate_spec(loud, hold).0[i] == (!loud[i] && !loud_within(loud, i, hold)));
    }
}

/// For each frame (loud or quiet, as `loud` says), whether the noise gate
/// silences it; a loud frame keeps sound for `hold_frames` more
/// frames.
pub fn noise_gate_frames(loud: &Vec<bool>, hold_frames: u32) -> (silenced: Vec<bool>)
    ensures
        silenced@ == gate_spec(loud@, hold_frames as nat).0,
{
    let mut silenced: Vec<bool> = Vec::new();
    let mut counter: u32 = 0;
    let mut i: usize = 0;
    while i < loud.len()
        invariant
            i <= loud@.len(),
            (silenced@, counter as nat) == gate_spec(loud@.subrange(0, i as int), hold_frames as nat),
            counter <= hold_frames,
        decreases loud@.len() - i,
    {
        proof {
            assert(loud@.subrange(0, i + 1).drop_last() =~= loud@.subrange(0, i as int));
        }
        if loud[i] {
            counter = hold_frames;
            silenced.push(false);
        } else if counter > 0 {
            counter = counter - 1;
            silenced.push(false);
        } else {
            silenced.push(true);
        }
        i = i + 1;
    }
    assert(loud@.subrange(0, loud@.len() as int) =~= loud@);
    silenced
}

/// The first index whose flag is set, if any.
#[verifier::opaque]
pub open spec fn first_set(flags: Seq<bool>) -> Option<int> {
    if exists|i: int| 0 <= i < flags.len() && flags[i] {
        Some(choose|i: int| 0 <= i < flags.len() && flags[i] && forall|j: int| 0 <= j < i ==> !flags[j])
    } else {
        None
    }
}

/// The last index whose flag is set, if any.
#[verifier::opaque]
pub open spec fn last_set(flags: Seq<bool>) -> Option<int> {
    if exists|i: int| 0 <= i < flags.len() && flags[i] {
        Some(
            choose|i: int|
                0 <= i < flags.len() && flags[i] && forall|j: int| i < j < flags.len() ==> !flags[j],
        )
    } else {
        None
    }
}

/// The part of a recording kept after trimming silence: from `margin`
/// samples before the first audible sample to `margin` samples after the
/// last one (within the recording). Without audible samples the range
/// covers the whole recording.
pub open spec fn trim_range_spec(audible: Seq<bool>, margin: int) -> (int, int) {
    let n = audible.len() as int;
    let first = match first_set(audible) {
        Some(i) => i,
        None => 0,
    };
    let last = match last_set(audible) {
        Some(i) => i,
        None => if n > 0 { n - 1 } else { 0 },
    };
    let start = if first > margin { first - margin } else { 0 };
    let end = if last + margin + 1 < n { last + margin + 1 } else { n };
    (start, end)
}

/// The first audible index, if any.
pub fn first_audible(audible: &Vec<bool>) -> (r: Option<usize>)
    ensures
        r matches Some(i) ==> first_set(audible@) == Some(i as int),
        r is None ==> first_set(audible@) is None,
        r matches Some(i) ==> i < audible@.len(),
{
    reveal(first_set);
    let mut i: usize = 0;
    while i < audible.len()
        invariant
            i <= audible@.len(),
            forall|j: int| 0 <= j < i ==> !audible@[j],
        decreases audible@.len() - i,
    {
        if audible[i] {
            proof {
                reveal(first_set);
                assert(0 <= i < audible@.len() && audible@[i as int]);
                let c = choose|c: int|
                    0 <= c < audible@.len() && audible@[c] && forall|j: int| 0 <= j < c ==> !audible@[j];
                assert(0 <= c < audible@.len() && audible@[c] && forall|j: int| 0 <= j < c ==> !audible@[j]);
                if c < i {
                    assert(!audible@[c]);
                } else if c > i {
                    assert(!audible@[i as int]);
                }
            }
            return Some(i);
        }
        i = i + 1;
    }
    None
}

/// The last audible index, if any.
pub fn last_audible(audible: &Vec<bool>) -> (r: Option<usize>)
    ensures
        r matches Some(i) ==> last_set(audible@) == Some(i as int),
        r is None ==> last_set(audible@) is None,
        r matches Some(i) ==> i < audible@.len(),
{
    reveal(last_set);
    let n = audible.len();
    let mut i: usize = n;
    while i > 0
        invariant
            n == audible@.len(),
            i <= n,
            forall|j: int| i <= j < n ==> !audible@[j],
        decreases i,
    {
        if audible[i - 1] {
            let k = i - 1;
            proof {
                reveal(last_set);
                assert(0 <= k < audible@.len() && audible@[k as int]);
                let c = choose|c: int|
                    0 <= c < audible@.len() && audible@[c] && forall|j: int|
                        c < j < audible@.len() ==> !audible@[j];
                assert(0 <= c < audible@.len() && audible@[c] && forall|j: int|
                        c < j < audible@.len() ==> !audible@[j]);
                if c < k {
                    assert(!audible@[k as int]);
                } else if c > k {
                    assert(!audible@[c]);
                }
            }
            return Some(k);
        }
        i = i - 1;
    }
    None
}

/// The range of a recording kept after trimming silence, given which
/// samples are audible.
pub fn trim_range(audible: &Vec<bool>, margin: usize) -> (r: (usize, usize))
    requires
        audible@.len() + margin + 1 <= usize::MAX,
    ensures
        (r.0 as int, r.1 as int) == trim_range_spec(audible@, margin as int),
{
    let n = audible.len();
    let first = match first_audible(audible) {
        Some(i) => i,
        None => 0,
    };
    let last = match last_audible(audible) {
        Some(i) => i,
        None => if n > 0 {
            n - 1
        } else {
            0
        },
    };
    let start = if first > margin {
        first - margin
    } else {
        0
    };
    let end = if last + margin + 1 < n {
        last + margin + 1
    } else {
        n
    };
    (start, end)
}

/// Trims leading and trailing silence from a recording: the samples in the
/// trim range when it is not empty, otherwise the recording unchanged.
pub fn trim_silence<T: Copy>(samples: &Vec<T>, audible: &Vec<bool>, margin: usize) -> (r: Vec<T>)
    requires
        audible@.len() == samples@.len(),
        samples@.len() + margin + 1 <= usize::MAX,
    ensures
        ({
            let (start, end) = trim_range_spec(audible@, margin as int);
            r@ == if start < end {
                samples@.subrange(start, end)
            } else {
                samples@
            }
        }),
{
    let (start, end) = trim_range(audible, margin);
    let mut r: Vec<T> = Vec::new();
    if start < end {
        let mut i: usize = start;
        while i < end
            invariant
                start <= i <= end <= samples@.len(),
                r@ == samples@.subrange(start as int, i as int),
            decreases end - i,
        {
            r.push(samples[i]);
            i = i + 1;
        }
    } else {
        let mut i: usize = 0;
        while i < samples.len()
            invariant
                i <= samples@.len(),
                r@ == samples@.subrange(0, i as int),
            decreases samples@.len() - i,
        {
            r.push(samples[i]);
            i = i + 1;
        }
        assert(samples@.subrange(0, samples@.len() as int) =~= samples@);
    }
    r
}

/// What the level meter received in one tick.
#[derive(Debug, Clone, Copy, PartialEq, Eq, Structural)]
pub enum MeterReading {
    /// A peak arrived; `loud` says whether it reaches the noise threshold.
    Peak { loud: bool },
    /// No peak arrived within the tick.
    Timeout,
}

/// One tick of the level meter: the new hold counter and whether the level
/// shown is forced to zero. With the noise gate on, a loud peak holds the
/// meter open for two more ticks and a quiet peak after that shows zero;
/// a tick without a peak always shows zero.
pub open spec fn meter_tick_spec(hold: u32, reading: MeterReading, gate: bool) -> (u32, bool) {
    match reading {
        MeterReading::Peak { loud } => if !gate {
            (hold, false)
        } else if loud {
            (2, false)
        } else if hold > 0 {
            ((hold - 1) as u32, false)
        } else {
            (hold, true)
        },
        MeterReading::Timeout => if gate && hold > 0 {
            ((hold - 1) as u32, true)
        } else {
            (hold, true)
        },
    }
}

/// One tick of the level meter.
pub fn meter_tick(hold: u32, reading: MeterReading, gate: bool) -> (r: (u32, bool))
    ensures
        r == meter_tick_spec(hold, reading, gate),
{
    match reading {
        MeterReading::Peak { loud } => {
            if !gate {
                (hold, false)
            } else if loud {
                (2, false)
            } else if hold > 0 {
                (hold - 1, false)
            } else {
                (hold, true)
            }
        },
        MeterReading::Timeout => {
            if gate && hold > 0 {
                (hold - 1, true)
            } else {
                (hold, true)
            }
        },
    }
}

/// Pausing and resuming loses nothing: a recorder that was recording and
/// is paused, then resumed, is back in the state it started in, and the
/// samples captured before the pause come first, followed by those
/// captured during it.
///
/// `paused` and `resumed` are the states a successful `pause` and `resume`
/// leave; `merged` is the recording `resume_buffers` leaves.
pub proof fn lemma_pause_resume_keeps_samples<T>(
    recording: RecorderState,
    paused: RecorderState,
    resumed: RecorderState,
    before: Seq<T>,
    during: Seq<T>,
    merged: Seq<T>,
)
    requires
        recording.active(),
        !recording.is_paused_spec(),
        paused.active() == recording.active(),
        paused.is_paused_spec(),
        resumed.active() == paused.active(),
        !resumed.is_paused_spec(),
        merged == before + during,
    ensures
        resumed == recording,
        merged.len() == before.len() + during.len(),
        merged.subrange(0, before.len() as int) == before,
        merged.subrange(before.len() as int, merged.len() as int) == during,
{
    assert(merged.subrange(0, before.len() as int) =~= before);
    assert(merged.subrange(before.len() as int, merged.len() as int) =~= during);
}

} // verus!
