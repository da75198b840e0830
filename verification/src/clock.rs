//! The count of ticks and the rule that ends a run.
//!
//! A tick is counted before the world steps. The tick whose number first exceeds the limit
//! is still carried out in full, with its step and its frame, and is the last one: a run
//! with a limit of `n` frames has at most `n + 1` ticks.

use vstd::prelude::*;

verus! {

/// Where a run stands: how many ticks have begun, and whether the last of them ended it.
#[derive(Clone, Copy, Debug, PartialEq, Eq, Structural)]
pub struct Clock {
    /// The limit on the number of frames.
    pub max_frames: u32,
    /// Ticks begun so far.
    pub count: u64,
    /// No further tick follows.
    pub quit: bool,
}

/// What one tick did to the clock.
#[derive(Clone, Copy, Debug, PartialEq, Eq, Structural)]
pub struct Beat {
    /// The tick took place: the clock had not quit before.
    pub ran: bool,
    /// The number of the tick exceeds the limit.
    pub over_limit: bool,
}

/// The clock before the first tick.
pub open spec fn clock_start(max_frames: u32) -> Clock {
    Clock { max_frames, count: 0, quit: false }
}

/// The clock after one more tick in which `all_stopped` tells whether every ball was done.
/// A clock that has quit stays as it is.
pub open spec fn clock_step(clock: Clock, all_stopped: bool) -> Clock {
    if clock.quit {
        clock
    } else {
        Clock {
            max_frames: clock.max_frames,
            count: (clock.count + 1) as u64,
            quit: clock.count + 1 > clock.max_frames || all_stopped,
        }
    }
}

/// The clock after the ticks of a whole run, where `stops[k]` tells whether every ball was
/// done in the tick that follows `k` earlier ones.
pub open spec fn clock_run(clock: Clock, stops: Seq<bool>) -> Clock
    decreases stops.len(),
{
    if stops.len() == 0 {
        clock
    } else {
        clock_run(clock_step(clock, stops[0]), stops.drop_first())
    }
}

impl Clock {
    /// No clock counts further than one tick beyond its limit, and one that goes on has not
    /// reached the limit's end.
    pub open spec fn wf(&self) -> bool {
        &&& self.count <= self.max_frames + 1
        &&& !self.quit ==> self.count <= self.max_frames
    }

    /// The clock before the first tick.
    pub fn new(max_frames: u32) -> (clock: Clock)
        ensures
            clock == clock_start(max_frames),
            clock.wf(),
    {
        Clock { max_frames, count: 0, quit: false }
    }

    /// Counts one tick and decides whether it is the last.
    pub fn tick(&mut self, all_stopped: bool) -> (beat: Beat)
        requires
            old(self).wf(),
        ensures
            *final(self) == clock_step(*old(self), all_stopped),
            final(self).wf(),
            beat.ran == !old(self).quit,
            beat.over_limit == (beat.ran && final(self).count > old(self).max_frames),
    {
        if self.quit {
            return Beat { ran: false, over_limit: false };
        }
        self.count = self.count + 1;
        let over_limit: bool = self.count > self.max_frames as u64;
        self.quit = over_limit || all_stopped;
        Beat { ran: true, over_limit }
    }
}

/// A step keeps a clock well formed and never lowers its count.
pub proof fn lemma_step_keeps_wf(clock: Clock, all_stopped: bool)
    requires
        clock.wf(),
    ensures
        clock_step(clock, all_stopped).wf(),
        clock_step(clock, all_stopped).max_frames == clock.max_frames,
        clock.count <= clock_step(clock, all_stopped).count <= clock.count + 1,
        clock.quit ==> clock_step(clock, all_stopped) == clock,
{
}

/// A run keeps a clock well formed, never lowers its count and adds at most one per tick.
pub proof fn lemma_run_keeps_wf(clock: Clock, stops: Seq<bool>)
    requires
        clock.wf(),
    ensures
        clock_run(clock, stops).wf(),
        clock_run(clock, stops).max_frames == clock.max_frames,
        clock.count <= clock_run(clock, stops).count <= clock.count + stops.len(),
        clock.quit ==> clock_run(clock, stops) == clock,
        !clock_run(clock, stops).quit ==> clock_run(clock, stops).count == clock.count
            + stops.len(),
    decreases stops.len(),
{
    if stops.len() > 0 {
        lemma_step_keeps_wf(clock, stops[0]);
        lemma_run_keeps_wf(clock_step(clock, stops[0]), stops.drop_first());
    }
}

/// Every run ends: whatever the balls do, a run from the start has quit once one tick more
/// than the limit has been asked for, and it never counts more ticks than that.
pub proof fn lemma_run_ends(max_frames: u32, stops: Seq<bool>)
    requires
        stops.len() > max_frames,
    ensures
        clock_run(clock_start(max_frames), stops).quit,
        clock_run(clock_start(max_frames), stops).count <= max_frames + 1,
{
    lemma_run_keeps_wf(clock_start(max_frames), stops);
}

/// A run in which every ball is done in some tick ends with that tick at the latest, and
/// so within the limit if that tick is.
pub proof fn lemma_run_ends_when_all_stop(max_frames: u32, stops: Seq<bool>, k: int)
    requires
        0 <= k < stops.len(),
        stops[k],
    ensures
        clock_run(clock_start(max_frames), stops).quit,
        clock_run(clock_start(max_frames), stops).count <= k + 1,
        k < max_frames ==> clock_run(clock_start(max_frames), stops).count <= max_frames,
{
    lemma_run_stops_at(clock_start(max_frames), stops, k);
}

/// From any well-formed clock, a tick in which every ball is done ends the run.
pub proof fn lemma_run_stops_at(clock: Clock, stops: Seq<bool>, k: int)
    requires
        clock.wf(),
        0 <= k < stops.len(),
        stops[k],
    ensures
        clock_run(clock, stops).quit,
        clock_run(clock, stops).count <= clock.count + k + 1,
    decreases stops.len(),
{
    let next = clock_step(clock, stops[0]);
    lemma_step_keeps_wf(clock, stops[0]);
    if k == 0 {
        lemma_run_keeps_wf(next, stops.drop_first());
    } else {
        assert(stops.drop_first()[k - 1] == stops[k]);
        lemma_run_stops_at(next, stops.drop_first(), k - 1);
    }
}

/// A run in which no tick finds every ball done goes on for as long as the limit allows:
/// it has exactly `min(stops.len(), max_frames + 1)` ticks.
pub proof fn lemma_run_without_stop(max_frames: u32, stops: Seq<bool>)
    requires
        forall|k: int| 0 <= k < stops.len() ==> !stops[k],
    ensures
        clock_run(clock_start(max_frames), stops).count == if stops.len() <= max_frames {
            stops.len() as int
        } else {
            max_frames + 1
        },
        clock_run(clock_start(max_frames), stops).quit <==> stops.len() > max_frames,
{
    lemma_run_counts(clock_start(max_frames), stops);
}

/// The count of a run in which no tick finds every ball done, from any clock that goes on.
pub proof fn lemma_run_counts(clock: Clock, stops: Seq<bool>)
    requires
        clock.wf(),
        !clock.quit,
        forall|k: int| 0 <= k < stops.len() ==> !stops[k],
    ensures
        clock_run(clock, stops).count == if clock.count + stops.len() <= clock.max_frames {
            clock.count + stops.len()
        } else {
            clock.max_frames + 1
        },
        clock_run(clock, stops).quit <==> clock.count + stops.len() > clock.max_frames,
    decreases stops.len(),
{
    if stops.len() > 0 {
        let next = clock_step(clock, stops[0]);
        lemma_step_keeps_wf(clock, stops[0]);
        assert forall|k: int| 0 <= k < stops.drop_first().len() implies !stops.drop_first()[k] by {
            assert(stops.drop_first()[k] == stops[k + 1]);
        }
        if next.quit {
            lemma_run_keeps_wf(next, stops.drop_first());
        } else {
            lemma_run_counts(next, stops.drop_first());
        }
    }
}

} // verus!
