use vstd::prelude::*;

verus! {

/// Simulation steps per second.
pub const FRAMES_PER_SECOND: u64 = 60;

/// Time units per second: one unit is 1/60000 s.
pub const TIME_UNITS_PER_SECOND: u64 = 60_000;

/// The fixed simulation step, 1/60 s, in time units.
pub const FRAME_RATE: u64 = 1_000;

/// Subpixels per pixel: one subpixel is 1/600 px.
pub const SUBPIXELS_PER_PIXEL: i64 = 600;

/// Canvas width in pixels.
pub const CANVAS_WIDTH: i64 = 800;

/// Canvas height in pixels.
pub const CANVAS_HEIGHT: i64 = 480;

/// How fast the scenery scrolls at scroll speed 1, in pixels per second.
pub const BASE_SCROLL_PIXELS_PER_SECOND: i64 = 100;

/// Subpixels covered by the scenery in `delta` time units at `scroll_speed`.
pub open spec fn scroll_distance(delta: int, scroll_speed: int) -> int {
    delta * scroll_speed * BASE_SCROLL_PIXELS_PER_SECOND * SUBPIXELS_PER_PIXEL
        / (TIME_UNITS_PER_SECOND as int)
}

/// The scroll distance in subpixels: the units are chosen so that it is
/// exactly `delta * scroll_speed`.
pub fn scroll_amount(delta: u64, scroll_speed: u64) -> (r: u64)
    requires
        delta * scroll_speed <= u64::MAX,
    ensures
        r == scroll_distance(delta as int, scroll_speed as int),
{
    proof {
        let x = delta * scroll_speed;
        assert(x * BASE_SCROLL_PIXELS_PER_SECOND * SUBPIXELS_PER_PIXEL == x * 60000) by (nonlinear_arith);
        assert(delta * scroll_speed * BASE_SCROLL_PIXELS_PER_SECOND * SUBPIXELS_PER_PIXEL == x * 60000) by (nonlinear_arith)
            requires x == delta * scroll_speed;
        vstd::arithmetic::div_mod::lemma_div_by_multiple(x as int, 60000);
    }
    delta * scroll_speed
}

/// An axis-aligned region in pixels: collider placement and sprite regions.
#[derive(Clone, Copy, Debug, PartialEq, Eq)]
pub struct Rect {
    pub x: i32,
    pub y: i32,
    pub width: i32,
    pub height: i32,
}

/// A world-space point in subpixels.
#[derive(Clone, Copy, Debug, PartialEq, Eq)]
pub struct Position {
    pub x: i64,
    pub y: i64,
}

/// The frame scheduler: turns host callback timestamps into a number of
/// fixed-size simulation steps, carrying the remainder to the next frame.
pub struct GameLoop {
    last_frame: u64,
    accumulated_delta: u64,
}

impl GameLoop {
    /// The time already accumulated never reaches a whole step.
    pub open spec fn wf(&self) -> bool {
        self.accumulated_spec() < FRAME_RATE
    }

    pub closed spec fn last_frame_spec(&self) -> u64 {
        self.last_frame
    }

    pub closed spec fn accumulated_spec(&self) -> u64 {
        self.accumulated_delta
    }

    /// A scheduler whose first frame is measured from `now` (in time units).
    pub fn new(now: u64) -> (r: GameLoop)
        ensures
            r.wf(),
            r.last_frame_spec() == now,
            r.accumulated_spec() == 0,
    {
        GameLoop { last_frame: now, accumulated_delta: 0 }
    }

    /// Timestamp (time units) of the last frame seen.
    pub fn last_frame(&self) -> (r: u64)
        ensures
            r == self.last_frame_spec(),
    {
        self.last_frame
    }

    /// Time (time units) accumulated and not yet spent on a step.
    pub fn accumulated_delta(&self) -> (r: u64)
        ensures
            r == self.accumulated_spec(),
    {
        self.accumulated_delta
    }

    /// Records a frame at `timestamp` and returns how many fixed steps to run
    /// before drawing: the whole steps in the accumulated time, whose
    /// remainder is kept.
    pub fn frame(&mut self, timestamp: u64) -> (steps: u64)
        requires
            old(self).wf(),
            old(self).last_frame_spec() <= timestamp,
        ensures
            final(self).wf(),
            final(self).last_frame_spec() == timestamp,
            steps == (old(self).accumulated_spec() + (timestamp - old(self).last_frame_spec()))
                / (FRAME_RATE as int),
            final(self).accumulated_spec() == (old(self).accumulated_spec() + (timestamp
                - old(self).last_frame_spec())) % (FRAME_RATE as int),
    {
        let elapsed = timestamp - self.last_frame;
        let acc = self.accumulated_delta;
        let whole = elapsed / FRAME_RATE;
        let rest = acc + elapsed % FRAME_RATE;
        let (steps, left) = if rest >= FRAME_RATE {
            (whole + 1, rest - FRAME_RATE)
        } else {
            (whole, rest)
        };
        proof {
            let e = elapsed as int;
            let a = acc as int;
            let s = FRAME_RATE as int;
            assert(e == s * (e / s) + e % s) by (nonlinear_arith)
                requires s > 0;
            assert(a + e == s * steps + left);
            assert(0 <= left < s);
            vstd::arithmetic::div_mod::lemma_fundamental_div_mod_converse(
                a + e,
                s,
                steps as int,
                left as int,
            );
        }
        self.last_frame = timestamp;
        self.accumulated_delta = left;
        steps
    }
}

} // verus!
