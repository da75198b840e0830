//! When a ball is done, and when a whole scene is.
//!
//! Each tick every ball is judged afresh from what the world reports of it in that tick;
//! nothing is remembered from the tick before. Lengths and speeds are whole numbers of
//! thousandths of a world unit, and so are the shares and rates among the constants.

use vstd::prelude::*;

verus! {

/// A ball further than this from the origin along either axis has left the world.
pub const MAX_BOUNDS: i32 = 200_000;

/// A ball slower than this is brought to rest.
pub const SLOWEST_SPEED: i64 = 100;

/// Radius of a ball.
pub const BALL_RADIUS: i32 = 500;

/// How much of its speed a ball keeps in a collision. Of two that collide the greater
/// share counts.
pub const RESTITUTION: i32 = 700;

/// How fast a ball loses linear speed to friction. It loses no angular speed.
pub const FRICTION: i32 = 600;

/// The speed of a launched ball for each unit of its launch power.
pub const LAUNCH_SPEED: i32 = 40_000;

/// What the world reports of one ball after a step.
#[derive(Clone, Copy, Debug, PartialEq, Eq, Structural)]
pub struct Body {
    /// Position.
    pub x: i32,
    pub y: i32,
    /// Linear velocity.
    pub vx: i32,
    pub vy: i32,
    /// Whether the world counts the ball as moving; a sleeping ball does not move.
    pub moving: bool,
}

/// How a ball fares in one tick.
#[derive(Clone, Copy, Debug, PartialEq, Eq, Structural)]
pub enum MotionState {
    /// Still under way.
    Moving,
    /// At rest, or slow enough to be brought to rest.
    Settled,
    /// Beyond the bounds of the world.
    OutOfBounds,
}

/// The judgement on one ball in one tick.
#[derive(Clone, Copy, Debug, PartialEq, Eq, Structural)]
pub struct Verdict {
    pub state: MotionState,
    /// The world must set the ball's linear and angular velocity to zero before it steps again.
    pub halt: bool,
}

/// Absolute value.
pub open spec fn magnitude(v: int) -> int {
    if v < 0 {
        -v
    } else {
        v
    }
}

/// The speed of a ball: the sum of the magnitudes of its velocity along the two axes.
pub open spec fn speed(body: Body) -> int {
    magnitude(body.vx as int) + magnitude(body.vy as int)
}

/// The ball is slower than the slowest speed that counts as motion.
pub open spec fn is_slow(body: Body) -> bool {
    speed(body) < SLOWEST_SPEED
}

/// The ball lies beyond the bounds along at least one axis.
pub open spec fn out_of_bounds(body: Body) -> bool {
    ||| body.x > MAX_BOUNDS
    ||| body.x < -MAX_BOUNDS
    ||| body.y > MAX_BOUNDS
    ||| body.y < -MAX_BOUNDS
}

/// The state of a ball. Leaving the world counts before coming to rest.
pub open spec fn motion_state(body: Body) -> MotionState {
    if out_of_bounds(body) {
        MotionState::OutOfBounds
    } else if is_slow(body) || !body.moving {
        MotionState::Settled
    } else {
        MotionState::Moving
    }
}

/// The judgement on a ball: its state, and a halt exactly for a slow ball, in or out of bounds.
pub open spec fn verdict_of(body: Body) -> Verdict {
    Verdict { state: motion_state(body), halt: is_slow(body) }
}

/// A state that ends a ball's part in the run.
pub open spec fn is_terminal(state: MotionState) -> bool {
    state != MotionState::Moving
}

/// The judgements on a sequence of balls, one by one.
pub open spec fn verdicts_of(bodies: Seq<Body>) -> Seq<Verdict> {
    Seq::new(bodies.len(), |i: int| verdict_of(bodies[i]))
}

/// No ball of the sequence is still under way. True of no balls at all.
pub open spec fn all_done(verdicts: Seq<Verdict>) -> bool {
    forall|i: int| 0 <= i < verdicts.len() ==> is_terminal(#[trigger] verdicts[i].state)
}

impl MotionState {
    /// Whether this state ends the ball's part in the run.
    pub fn is_finished(&self) -> (finished: bool)
        ensures
            finished == is_terminal(*self),
    {
        match self {
            MotionState::Moving => false,
            MotionState::Settled => true,
            MotionState::OutOfBounds => true,
        }
    }
}

/// Judges one ball.
pub fn classify(body: &Body) -> (verdict: Verdict)
    ensures
        verdict == verdict_of(*body),
{
    let ax: i64 = if body.vx < 0 {
        -(body.vx as i64)
    } else {
        body.vx as i64
    };
    let ay: i64 = if body.vy < 0 {
        -(body.vy as i64)
    } else {
        body.vy as i64
    };
    let slow: bool = ax + ay < SLOWEST_SPEED;
    let out: bool = body.x > MAX_BOUNDS || body.x < -MAX_BOUNDS || body.y > MAX_BOUNDS || body.y
        < -MAX_BOUNDS;
    let state = if out {
        MotionState::OutOfBounds
    } else if slow || !body.moving {
        MotionState::Settled
    } else {
        MotionState::Moving
    };
    Verdict { state, halt: slow }
}

/// Judges every ball of a tick, in order.
pub fn assess(bodies: &Vec<Body>) -> (verdicts: Vec<Verdict>)
    ensures
        verdicts@ == verdicts_of(bodies@),
{
    let mut verdicts: Vec<Verdict> = Vec::with_capacity(bodies.len());
    let mut i: usize = 0;
    while i < bodies.len()
        invariant
            i <= bodies@.len(),
            verdicts@.len() == i,
            forall|j: int| 0 <= j < i ==> #[trigger] verdicts@[j] == verdict_of(bodies@[j]),
        decreases bodies@.len() - i,
    {
        verdicts.push(classify(&bodies[i]));
        i = i + 1;
    }
    assert(verdicts@ =~= verdicts_of(bodies@));
    verdicts
}

/// Whether every ball of a tick is done.
pub fn all_finished(verdicts: &Vec<Verdict>) -> (done: bool)
    ensures
        done == all_done(verdicts@),
{
    let mut i: usize = 0;
    while i < verdicts.len()
        invariant
            i <= verdicts@.len(),
            forall|j: int| 0 <= j < i ==> is_terminal(#[trigger] verdicts@[j].state),
        decreases verdicts@.len() - i,
    {
        if !verdicts[i].state.is_finished() {
            return false;
        }
        i = i + 1;
    }
    true
}

/// A ball beyond the bounds is done in the very tick that finds it there, whatever its speed.
pub proof fn lemma_out_of_bounds_is_done(body: Body)
    requires
        out_of_bounds(body),
    ensures
        motion_state(body) == MotionState::OutOfBounds,
        is_terminal(verdict_of(body).state),
{
}

/// In a tick, every ball that lies beyond the bounds is judged done, whatever the others do.
pub proof fn lemma_out_of_bounds_done_in_tick(bodies: Seq<Body>, i: int)
    requires
        0 <= i < bodies.len(),
        out_of_bounds(bodies[i]),
    ensures
        verdicts_of(bodies)[i].state == MotionState::OutOfBounds,
        is_terminal(verdicts_of(bodies)[i].state),
{
}

/// A ball is done exactly when it is out of bounds, slow, or reported at rest.
pub proof fn lemma_done_iff(body: Body)
    ensures
        is_terminal(motion_state(body)) <==> out_of_bounds(body) || is_slow(body)
            || !body.moving,
{
}

/// A ball is halted exactly when it is slow; a ball in bounds that is halted is settled.
pub proof fn lemma_halt_settles(body: Body)
    ensures
        verdict_of(body).halt <==> is_slow(body),
        verdict_of(body).halt && !out_of_bounds(body) ==> motion_state(body)
            == MotionState::Settled,
{
}

/// The judgement on a ball looks at that ball alone: judging a tick ball by ball and judging
/// it whole agree, and a tick without balls is done.
pub proof fn lemma_all_done_pointwise(bodies: Seq<Body>)
    ensures
        all_done(verdicts_of(bodies)) <==> forall|i: int|
            0 <= i < bodies.len() ==> is_terminal(motion_state(#[trigger] bodies[i])),
        bodies.len() == 0 ==> all_done(verdicts_of(bodies)),
{
    let verdicts = verdicts_of(bodies);
    if all_done(verdicts) {
        assert forall|i: int| 0 <= i < bodies.len() implies is_terminal(
            motion_state(#[trigger] bodies[i]),
        ) by {
            assert(is_terminal(verdicts[i].state));
        }
    }
}

} // verus!
