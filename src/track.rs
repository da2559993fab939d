use vstd::prelude::*;

use crate::engine::{scroll_amount, scroll_distance, Position, CANVAS_HEIGHT, SUBPIXELS_PER_PIXEL};

verus! {

/// Vertical coordinate (subpixels) of an obstacle hanging from the top or
/// standing on the bottom of the canvas.
pub open spec fn side_y(from_top: bool) -> i64 {
    if from_top {
        0
    } else {
        (CANVAS_HEIGHT * SUBPIXELS_PER_PIXEL) as i64
    }
}

/// Every obstacle moved left by `d` subpixels.
pub open spec fn shifted(s: Seq<Position>, d: int) -> Seq<Position> {
    Seq::new(s.len(), |i: int| Position { x: (s[i].x - d) as i64, y: s[i].y })
}

/// The obstacles that have not scrolled past `threshold`, in order.
pub open spec fn retired(s: Seq<Position>, threshold: i64) -> Seq<Position> {
    s.filter(|p: Position| p.x >= threshold)
}

/// The track after a spawn check: one obstacle at the right edge when the
/// track is empty, one `spacing` behind the last once that has scrolled to
/// `canvas_width - spacing` or further, else no change.
pub open spec fn spawned(s: Seq<Position>, canvas_width: i64, spacing: i64, from_top: bool) -> Seq<
    Position,
> {
    if s.len() == 0 {
        s.push(Position { x: canvas_width, y: side_y(from_top) })
    } else if s.last().x + spacing <= canvas_width {
        s.push(Position { x: (s.last().x + spacing) as i64, y: side_y(from_top) })
    } else {
        s
    }
}

/// No two obstacles are closer than `spacing`, and they stand left to right.
pub open spec fn spaced(s: Seq<Position>, spacing: int) -> bool {
    forall|i: int, j: int| 0 <= i < j < s.len() ==> #[trigger] s[i].x + spacing <= #[trigger] s[j].x
}

/// The scrolling sequence of obstacles, in spawn order, which is also their
/// order on screen.
pub struct ObstacleTrack {
    obstacles: Vec<Position>,
}

impl View for ObstacleTrack {
    type V = Seq<Position>;

    closed spec fn view(&self) -> Seq<Position> {
        self.obstacles@
    }
}

impl ObstacleTrack {
    /// An empty track.
    pub fn new() -> (r: ObstacleTrack)
        ensures
            r@ == Seq::<Position>::empty(),
    {
        ObstacleTrack { obstacles: Vec::new() }
    }

    /// The obstacles, left to right.
    pub fn obstacles(&self) -> (r: &Vec<Position>)
        ensures
            r@ == self@,
    {
        &self.obstacles
    }

    /// Number of obstacles.
    pub fn len(&self) -> (r: usize)
        ensures
            r == self@.len(),
    {
        self.obstacles.len()
    }

    /// Removes every obstacle whose x is below `threshold_x`, keeping the
    /// order of the others.
    pub fn retire_offscreen(&mut self, threshold_x: i64)
        ensures
            final(self)@ == retired(old(self)@, threshold_x),
    {
        let ghost s = self@;
        let mut kept: Vec<Position> = Vec::new();
        let mut i: usize = 0;
        while i < self.obstacles.len()
            invariant
                self@ == s,
                i <= s.len(),
                kept@ == retired(s.subrange(0, i as int), threshold_x),
            decreases s.len() - i,
        {
            let p = self.obstacles[i];
            proof {
                reveal(Seq::filter);
                assert(s.subrange(0, i + 1).drop_last() =~= s.subrange(0, i as int));
            }
            if p.x >= threshold_x {
                kept.push(p);
            }
            i = i + 1;
        }
        proof {
            assert(s.subrange(0, s.len() as int) =~= s);
        }
        self.obstacles = kept;
    }

    /// Moves every obstacle left by the distance the scenery scrolls in
    /// `delta` time units at `scroll_speed`.
    pub fn advance(&mut self, delta: u64, scroll_speed: u64)
        requires
            delta * scroll_speed <= i64::MAX,
            forall|i: int|
                0 <= i < old(self)@.len() ==> #[trigger] old(self)@[i].x - delta * scroll_speed >= i64::MIN,
        ensures
            final(self)@ == shifted(old(self)@, scroll_distance(delta as int, scroll_speed as int)),
    {
        let ghost s = self@;
        let d = scroll_amount(delta, scroll_speed) as i64;
        let mut i: usize = 0;
        while i < self.obstacles.len()
            invariant
                d == scroll_distance(delta as int, scroll_speed as int),
                d == delta * scroll_speed,
                self@.len() == s.len(),
                i <= s.len(),
                forall|k: int| 0 <= k < s.len() ==> #[trigger] s[k].x - d >= i64::MIN,
                forall|k: int| 0 <= k < i ==> self@[k] == shifted(s, d as int)[k],
                forall|k: int| i <= k < s.len() ==> self@[k] == s[k],
            decreases s.len() - i,
        {
            let p = self.obstacles[i];
            assert(s[i as int].x - d >= i64::MIN);
            self.obstacles.set(i, Position { x: p.x - d, y: p.y });
            i = i + 1;
        }
        proof {
            assert(self@ =~= shifted(s, d as int));
        }
    }

    /// Spawns an obstacle when the track asks for one (see `spawned`);
    /// `from_top` is the random draw that picks its side.
    pub fn spawn_if_needed(&mut self, canvas_width: i64, spacing: i64, from_top: bool)
        requires
            spacing >= 0,
        ensures
            final(self)@ == spawned(old(self)@, canvas_width, spacing, from_top),
    {
        let y: i64 = if from_top {
            0
        } else {
            CANVAS_HEIGHT * SUBPIXELS_PER_PIXEL
        };
        let n = self.obstacles.len();
        if n == 0 {
            self.obstacles.push(Position { x: canvas_width, y });
        } else {
            let last_x = self.obstacles[n - 1].x;
            if (last_x as i128) + (spacing as i128) <= canvas_width as i128 {
                self.obstacles.push(Position { x: last_x + spacing, y });
            }
        }
    }
}

/// A spawn check keeps the track's spacing: the new obstacle stands exactly
/// `spacing` behind the last one, or alone.
pub proof fn lemma_spawn_keeps_spacing(
    s: Seq<Position>,
    canvas_width: i64,
    spacing: i64,
    from_top: bool,
)
    requires
        spacing >= 0,
        spaced(s, spacing as int),
    ensures
        spaced(spawned(s, canvas_width, spacing, from_top), spacing as int),
        s.len() > 0 && spawned(s, canvas_width, spacing, from_top).len() > s.len() ==> spawned(
            s,
            canvas_width,
            spacing,
            from_top,
        ).last().x == s.last().x + spacing,
{
    let t = spawned(s, canvas_width, spacing, from_top);
    assert forall|i: int, j: int| 0 <= i < j < t.len() implies #[trigger] t[i].x + spacing <= #[trigger] t[j].x by {
        if j == s.len() && s.len() > 0 {
            if i < s.len() - 1 {
                assert(s[i].x + spacing <= s[s.len() - 1].x);
            }
        }
    }
}

/// Retiring removes an obstacle exactly when its x is below the threshold.
pub proof fn lemma_retire_exact(s: Seq<Position>, threshold_x: i64)
    ensures
        forall|i: int|
            0 <= i < retired(s, threshold_x).len() ==> retired(s, threshold_x)[i].x >= threshold_x,
        forall|i: int|
            0 <= i < s.len() ==> (retired(s, threshold_x).contains(s[i]) <==> s[i].x >= threshold_x),
        retired(s, threshold_x).len() <= s.len(),
{
    let f = |p: Position| p.x >= threshold_x;
    broadcast use vstd::seq_lib::group_filter_ensures;
    assert forall|i: int| 0 <= i < s.len() implies (retired(s, threshold_x).contains(s[i])
        <==> s[i].x >= threshold_x) by {
        if retired(s, threshold_x).contains(s[i]) {
            let k = choose|k: int| 0 <= k < retired(s, threshold_x).len() && retired(s, threshold_x)[k] == s[i];
            assert(f(retired(s, threshold_x)[k]));
        }
    }
}

/// Filtering keeps the spacing of a track.
pub proof fn lemma_retire_keeps_spacing(s: Seq<Position>, threshold_x: i64, spacing: int)
    requires
        spaced(s, spacing),
    ensures
        spaced(retired(s, threshold_x), spacing),
    decreases s.len(),
{
    let f = |p: Position| p.x >= threshold_x;
    reveal_with_fuel(Seq::filter, 1);
    if s.len() > 0 {
        let sub = s.drop_last();
        assert(spaced(sub, spacing));
        lemma_retire_keeps_spacing(sub, threshold_x, spacing);
        if f(s.last()) {
            let r = retired(sub, threshold_x);
            broadcast use vstd::seq_lib::group_filter_ensures;
            assert forall|i: int, j: int| 0 <= i < j < r.len() + 1 implies #[trigger] r.push(s.last())[i].x + spacing <= #[trigger] r.push(s.last())[j].x by {
                if j == r.len() {
                    assert(r.contains(r[i]));
                    sub.lemma_filter_contains_rev(f, r[i]);
                    let k = choose|k: int| 0 <= k < sub.len() && sub[k] == r[i];
                    assert(s[k] == sub[k]);
                    assert(s[k].x + spacing <= s[s.len() - 1].x);
                }
            }
        }
    }
}

/// Moving every obstacle by the same distance keeps the spacing.
pub proof fn lemma_shift_keeps_spacing(s: Seq<Position>, d: int, spacing: int)
    requires
        spaced(s, spacing),
        forall|i: int| 0 <= i < s.len() ==> i64::MIN <= #[trigger] s[i].x - d <= i64::MAX,
    ensures
        spaced(shifted(s, d), spacing),
{
    let t = shifted(s, d);
    assert forall|i: int, j: int| 0 <= i < j < t.len() implies #[trigger] t[i].x + spacing <= #[trigger] t[j].x by {
        assert(s[i].x + spacing <= s[j].x);
    }
}

} // verus!
