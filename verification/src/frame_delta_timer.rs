//! Frame times: the time of each of the last frames, and the frame rate that
//! they average to.

use vstd::prelude::*;

verus! {

/// Number of frame times that are remembered.
pub const FRAME_WINDOW: usize = 600;

/// Nanoseconds in a second: the span that the average is taken over.
pub const NANOS_PER_SECOND: u64 = 1_000_000_000;

/// The sum of the first `k` items of `times`.
pub open spec fn prefix_sum(times: Seq<u64>, k: int) -> int
    decreases k,
{
    if k <= 0 {
        0
    } else {
        prefix_sum(times, k - 1) + times[k - 1]
    }
}

/// Number of frames that the average is taken over, when at least `k` are
/// taken: the frames are counted, newest first, until they fill a second or
/// there are no more.
pub open spec fn window_from(times: Seq<u64>, k: int) -> int
    decreases times.len() - k,
{
    if k >= times.len() {
        times.len() as int
    } else if prefix_sum(times, k + 1) >= NANOS_PER_SECOND {
        k + 1
    } else {
        window_from(times, k + 1)
    }
}

/// The average number of frames per second over the newest of the frame
/// times `times`, which are in nanoseconds, newest first: the frames that
/// fill the last second, divided by the time they took, rounded down. There
/// is no average where they took no time at all.
pub open spec fn average_fps(times: Seq<u64>) -> Option<int> {
    let frames = window_from(times, 0);
    let nanos = prefix_sum(times, frames);
    if nanos == 0 {
        None
    } else {
        Some(frames * NANOS_PER_SECOND / nanos)
    }
}

/// Remembers the times of the last frames, in nanoseconds.
pub struct FrameDeltaTimer {
    circular_queue_deltas: Vec<u64>,
    circular_queue_cursor: usize,
}

impl FrameDeltaTimer {
    /// The queue has its full length and the cursor points into it.
    pub closed spec fn wf(&self) -> bool {
        self.circular_queue_deltas@.len() == FRAME_WINDOW && self.circular_queue_cursor
            < FRAME_WINDOW
    }

    /// The remembered frame times, newest first. A frame that has not
    /// happened yet counts with no time.
    pub closed spec fn recent(&self) -> Seq<u64> {
        Seq::new(
            FRAME_WINDOW as nat,
            |k: int|
                self.circular_queue_deltas@[(self.circular_queue_cursor + FRAME_WINDOW - 1 - k)
                    % (FRAME_WINDOW as int)],
        )
    }

    /// A timer that has seen no frame.
    pub fn new() -> (timer: FrameDeltaTimer)
        ensures
            timer.wf(),
            timer.recent() == Seq::new(FRAME_WINDOW as nat, |k: int| 0u64),
    {
        let mut deltas: Vec<u64> = Vec::new();
        let mut i: usize = 0;
        while i < FRAME_WINDOW
            invariant
                i <= FRAME_WINDOW,
                deltas@.len() == i,
                forall|j: int| 0 <= j < i ==> deltas@[j] == 0,
            decreases FRAME_WINDOW - i,
        {
            deltas.push(0);
            i = i + 1;
        }
        let timer = FrameDeltaTimer { circular_queue_deltas: deltas, circular_queue_cursor: 0 };
        timer
    }

    /// Remembers that the frame which just ended took `delta_nanos`, and
    /// forgets the oldest frame. Returns `delta_nanos`.
    pub fn get_delta_and_reset(&mut self, delta_nanos: u64) -> (delta: u64)
        requires
            old(self).wf(),
        ensures
            final(self).wf(),
            final(self).recent() == seq![delta_nanos] + old(self).recent().take(
                FRAME_WINDOW - 1,
            ),
            delta == delta_nanos,
    {
        let cursor = self.circular_queue_cursor;
        self.circular_queue_deltas[cursor] = delta_nanos;
        self.circular_queue_cursor = (cursor + 1) % FRAME_WINDOW;
        delta_nanos
    }

    /// The average number of frames per second over the last second.
    pub fn get_average_fps(&self) -> (fps: Option<u64>)
        requires
            self.wf(),
        ensures
            fps matches Some(value) ==> average_fps(self.recent()) == Some(value as int),
            fps is None ==> average_fps(self.recent()) is None,
    {
        let ghost times = self.recent();
        let mut sum: u128 = 0;
        let mut frames: usize = 0;
        while frames < FRAME_WINDOW
            invariant_except_break
                frames > 0 ==> sum < NANOS_PER_SECOND,
                window_from(times, frames as int) == window_from(times, 0),
            invariant
                self.wf(),
                times == self.recent(),
                frames <= FRAME_WINDOW,
                sum == prefix_sum(times, frames as int),
            ensures
                0 < frames <= FRAME_WINDOW,
                sum == prefix_sum(times, frames as int),
                frames == window_from(times, 0),
            decreases FRAME_WINDOW - frames,
        {
            let index = (self.circular_queue_cursor + FRAME_WINDOW - 1 - frames) % FRAME_WINDOW;
            sum = sum + self.circular_queue_deltas[index] as u128;
            frames = frames + 1;
            if sum >= NANOS_PER_SECOND as u128 {
                break ;
            }
        }
        if sum == 0 {
            None
        } else {
            let total: u128 = (frames as u128) * (NANOS_PER_SECOND as u128);
            let fps: u128 = total / sum;
            Some(fps as u64)
        }
    }
}

} // verus!
