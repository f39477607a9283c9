//! Geometry of the status display: the busy spinner and the six input
//! indicators.

use vstd::prelude::*;

verus! {

/// Spokes of the spinner.
pub const SPINNER_SPOKES: usize = 12;

/// Outer end of spoke `i` (roughly sin/cos at radius 16), relative to the center.
pub open spec fn spinner_outer(i: int) -> (int, int) {
    (
        seq![0int, 8, 14, 16, 14, 8, 0, -8, -14, -16, -14, -8][i],
        seq![-16int, -14, -8, 0, 8, 14, 16, 14, 8, 0, -8, -14][i],
    )
}

/// Inner end of spoke `i` (radius 8), relative to the center.
pub open spec fn spinner_inner(i: int) -> (int, int) {
    (
        seq![0int, 4, 7, 8, 7, 4, 0, -4, -7, -8, -7, -4][i],
        seq![-8int, -7, -4, 0, 4, 7, 8, 7, 4, 0, -4, -7][i],
    )
}

/// Remainder of `d` by 12 as Rust's `%` gives it: it takes the sign of `d`.
pub open spec fn rem12(d: int) -> int {
    if d >= 0 {
        d % 12
    } else {
        -((-d) % 12)
    }
}

/// How many ticks ago spoke `i` was the head of the spinner at frame `f`
/// (the frame counter taken as an `i32`): `(12 + f - i) % 12`. For frames
/// below 12 this is the distance back to the head, between 0 and 11.
pub open spec fn spoke_age(f: int, i: int) -> int {
    rem12(12 + f - i)
}

/// One line of the spinner, from the inner to the outer end of a spoke.
#[derive(Clone, Copy, PartialEq, Eq, Debug)]
pub struct SpinnerLine {
    pub x0: i32,
    pub y0: i32,
    pub x1: i32,
    pub y1: i32,
    /// Stroke width: 3 for the head, 2 for the next two spokes, 1 for the rest.
    pub stroke: u32,
}

/// Spoke `i` of the spinner at frame `f` around `(cx, cy)`: only the 8 most
/// recent spokes are drawn, which gives the fading tail.
pub open spec fn spinner_spoke(cx: i32, cy: i32, f: int, i: int) -> Option<SpinnerLine> {
    let age = spoke_age(f, i);
    if age >= 8 {
        None
    } else {
        Some(
            SpinnerLine {
                x0: (cx + spinner_inner(i).0) as i32,
                y0: (cy + spinner_inner(i).1) as i32,
                x1: (cx + spinner_outer(i).0) as i32,
                y1: (cy + spinner_outer(i).1) as i32,
                stroke: if age == 0 {
                    3
                } else if age <= 2 {
                    2
                } else {
                    1
                },
            },
        )
    }
}

/// The lines of the spinner at `frame` (one slot per spoke, `None` where
/// nothing is drawn). The frame counter is taken as an `i32`; the center
/// must leave room for the spokes' 16-pixel reach within `i32`.
pub fn spinner_lines(cx: i32, cy: i32, frame: usize) -> (lines: [Option<SpinnerLine>; SPINNER_SPOKES])
    requires
        i32::MIN + 16 <= cx <= i32::MAX - 16,
        i32::MIN + 16 <= cy <= i32::MAX - 16,
        frame as i32 <= i32::MAX - 12,
    ensures
        forall|i: int|
            0 <= i < SPINNER_SPOKES ==> lines[i] == spinner_spoke(cx, cy, (frame as i32) as int, i),
{
    let points: [(i32, i32); 12] = [
        (0, -16),
        (8, -14),
        (14, -8),
        (16, 0),
        (14, 8),
        (8, 14),
        (0, 16),
        (-8, 14),
        (-14, 8),
        (-16, 0),
        (-14, -8),
        (-8, -14),
    ];
    let inner_points: [(i32, i32); 12] = [
        (0, -8),
        (4, -7),
        (7, -4),
        (8, 0),
        (7, 4),
        (4, 7),
        (0, 8),
        (-4, 7),
        (-7, 4),
        (-8, 0),
        (-7, -4),
        (-4, -7),
    ];
    assert forall|j: int| 0 <= j < 12 implies points[j].0 == spinner_outer(j).0 && points[j].1
        == spinner_outer(j).1 && inner_points[j].0 == spinner_inner(j).0 && inner_points[j].1
        == spinner_inner(j).1 && -16 <= points[j].0 <= 16 && -16 <= points[j].1 <= 16 && -16
        <= inner_points[j].0 <= 16 && -16 <= inner_points[j].1 <= 16 by {
        assert(0 <= j < 12);
    }
    let f: i32 = frame as i32;
    let mut lines: [Option<SpinnerLine>; SPINNER_SPOKES] = [None; SPINNER_SPOKES];
    let mut i: usize = 0;
    while i < SPINNER_SPOKES
        invariant
            i <= SPINNER_SPOKES,
            i32::MIN + 16 <= cx <= i32::MAX - 16,
            i32::MIN + 16 <= cy <= i32::MAX - 16,
            f == frame as i32,
            f <= i32::MAX - 12,
            forall|j: int|
                0 <= j < 12 ==> points[j].0 == spinner_outer(j).0 && points[j].1 == spinner_outer(
                    j,
                ).1 && inner_points[j].0 == spinner_inner(j).0 && inner_points[j].1
                    == spinner_inner(j).1,
            forall|j: int|
                #![trigger points[j], inner_points[j]]
                0 <= j < 12 ==> -16 <= points[j].0 <= 16 && -16 <= points[j].1 <= 16 && -16
                    <= inner_points[j].0 <= 16 && -16 <= inner_points[j].1 <= 16,
            forall|j: int| 0 <= j < i ==> lines[j] == spinner_spoke(cx, cy, f as int, j),
            forall|j: int| i <= j < SPINNER_SPOKES ==> lines[j] is None,
        decreases SPINNER_SPOKES - i,
    {
        let d: i32 = 12 + f - i as i32;
        let age: i32 = if d >= 0 {
            d % 12
        } else {
            -((-d) % 12)
        };
        assert(age == spoke_age(f as int, i as int));
        if age < 8 {
            let outer = points[i];
            let inner = inner_points[i];
            assert(outer.0 == spinner_outer(i as int).0 && outer.1 == spinner_outer(i as int).1);
            assert(inner.0 == spinner_inner(i as int).0 && inner.1 == spinner_inner(i as int).1);
            let stroke: u32 = if age == 0 {
                3
            } else if age <= 2 {
                2
            } else {
                1
            };
            lines[i] = Some(
                SpinnerLine {
                    x0: cx + inner.0,
                    y0: cy + inner.1,
                    x1: cx + outer.0,
                    y1: cy + outer.1,
                    stroke,
                },
            );
        }
        assert(lines[i as int] == spinner_spoke(cx, cy, f as int, i as int));
        i = i + 1;
    }
    lines
}

/// The spoke `k` ticks back from the head at frame `frame`.
pub open spec fn spoke_back(frame: int, k: int) -> int {
    (frame + 12 - k) % 12
}

/// For a frame below 12 the spinner draws exactly 8 spokes: the `k`-th
/// spoke back from the head, spoke `(frame - k) mod 12`, is drawn for `k`
/// below 8 (stroke 3 for the head, 2 for the next two, 1 for the rest) and
/// left out for `k` from 8 to 11; as `k` runs over 0..12 these are the 12
/// distinct spokes.
pub proof fn lemma_spinner_tail(cx: i32, cy: i32, frame: int)
    requires
        0 <= frame < 12,
    ensures
        forall|k: int|
            0 <= k < 8 ==> ((#[trigger] spinner_spoke(cx, cy, frame, spoke_back(frame, k))) matches Some(l)
                && l.stroke == (if k == 0 {
                3u32
            } else if k <= 2 {
                2u32
            } else {
                1u32
            })),
        forall|k: int|
            8 <= k < 12 ==> #[trigger] spinner_spoke(cx, cy, frame, spoke_back(frame, k)) is None,
        forall|k1: int, k2: int|
            0 <= k1 < 12 && 0 <= k2 < 12 && k1 != k2 ==> #[trigger] spoke_back(frame, k1) != #[trigger] spoke_back(frame, k2),
{
    assert forall|k: int| 0 <= k < 12 implies spoke_age(frame, spoke_back(frame, k)) == k by {
        let i = spoke_back(frame, k);
        assert(i == (frame + 12 - k) % 12);
        if k <= frame {
            assert(i == frame - k);
        } else {
            assert(i == frame + 12 - k);
        }
    }
}

/// One of the circles that show the six inputs.
#[derive(Clone, Copy, PartialEq, Eq, Debug)]
pub struct Indicator {
    /// Top-left corner of the circle's bounding box.
    pub x: i32,
    pub y: i32,
    pub diameter: u32,
    /// Pressed inputs are drawn filled, released ones as an outline.
    pub filled: bool,
}

/// Circle for input `no` (1-based): 10 pixels wide, spaced 12 pixels apart
/// along the top edge.
pub fn input_indicator(no: i32, pressed: bool) -> (c: Indicator)
    requires
        i32::MIN <= 12 * (no - 1) <= i32::MAX,
    ensures
        c == (Indicator { x: (12 * (no - 1)) as i32, y: 0, diameter: 10, filled: pressed }),
{
    Indicator { x: (128 / 10) * (no - 1), y: 0, diameter: 10, filled: pressed }
}

} // verus!
