//! Extracting the vehicle and target markers from camera frames.
//!
//! A frame arrives as the list of LED detections the vision stage found in
//! it. One inference step scans that list for the first detection in the
//! vehicle's color and the first in the target's color; if either is
//! missing the frame is discarded and the next one is tried. Camera or
//! detector failures are not handled here: the caller stops on them, only
//! the benign "marker not in this frame" case is retried.

use vstd::prelude::*;

use crate::geometry::Position;

verus! {

/// The color classes the LED detector reports.
#[derive(Clone, Copy, Debug, PartialEq, Eq, Structural)]
pub enum Color {
    Red,
    Blue,
    Green,
    White,
    Unknown,
}

/// The image-space extent of one detected marker.
#[derive(Clone, Copy, Debug, PartialEq, Eq, Structural)]
pub struct BoundingBox {
    pub x_min: u32,
    pub y_min: u32,
    pub x_max: u32,
    pub y_max: u32,
}

impl BoundingBox {
    /// The position a detection stands for: the box's minimum corner.
    pub fn position(&self) -> (p: Position)
        ensures
            p == box_position(*self),
    {
        Position { x: self.x_min, y: self.y_min }
    }
}

/// The position a detection stands for: the box's minimum corner.
pub open spec fn box_position(b: BoundingBox) -> Position {
    Position { x: b.x_min, y: b.y_min }
}

/// One detected marker: its color class and its bounding box.
#[derive(Clone, Copy, Debug, PartialEq, Eq, Structural)]
pub struct Led {
    pub color: Color,
    pub bbox: BoundingBox,
}

/// Which detected color is the controlled vehicle and which the goal.
#[derive(Clone, Copy, Debug, PartialEq, Eq, Structural)]
pub struct TeamColors {
    pub car: Color,
    pub target: Color,
}

/// The world model at one instant: where the vehicle and the target are.
/// Both fields always come from the same frame; a frame that shows only
/// one of the two markers never yields a `MapState`.
#[derive(Clone, Copy, Debug, PartialEq, Eq, Structural)]
pub struct MapState {
    pub car: Position,
    pub target: Position,
}

/// The first detection of color `c` in the frame, if any.
pub open spec fn first_with_color(leds: Seq<Led>, c: Color) -> Option<Led>
    decreases leds.len(),
{
    if leds.len() == 0 {
        None
    } else if leds[0].color == c {
        Some(leds[0])
    } else {
        first_with_color(leds.skip(1), c)
    }
}

/// What one frame yields: the two marker positions if both colors were
/// detected, nothing otherwise.
pub open spec fn infer_spec(colors: TeamColors, leds: Seq<Led>) -> Option<MapState> {
    match (first_with_color(leds, colors.car), first_with_color(leds, colors.target)) {
        (Some(car), Some(target)) => Some(
            MapState { car: box_position(car.bbox), target: box_position(target.bbox) },
        ),
        _ => None,
    }
}

/// What a run of frames yields under the retry policy: the number of
/// frames consumed and the state read from the last of them, taken from
/// the first frame that shows both markers; nothing if no frame does.
pub open spec fn retry_spec(colors: TeamColors, frames: Seq<Seq<Led>>) -> Option<(int, MapState)>
    decreases frames.len(),
{
    if frames.len() == 0 {
        None
    } else if infer_spec(colors, frames[0]) is Some {
        Some((1int, infer_spec(colors, frames[0])->Some_0))
    } else {
        match retry_spec(colors, frames.skip(1)) {
            Some((n, m)) => Some((n + 1, m)),
            None => None,
        }
    }
}

/// The retry policy consumes every incomplete frame and stops on the
/// first complete one: if the markers are absent somewhere in the first
/// `n` frames and frame `n` shows both, exactly `n + 1` frames are
/// consumed and the result is the whole state read from frame `n` —
/// never a partial one from the earlier frames.
pub proof fn lemma_retry_consumes_exactly(colors: TeamColors, frames: Seq<Seq<Led>>, n: int)
    requires
        0 <= n < frames.len(),
        forall|i: int| 0 <= i < n ==> infer_spec(colors, #[trigger] frames[i]) is None,
        infer_spec(colors, frames[n]) is Some,
    ensures
        retry_spec(colors, frames) == Some((n + 1, infer_spec(colors, frames[n])->Some_0)),
    decreases n,
{
    if n == 0 {
    } else {
        assert(infer_spec(colors, frames[0]) is None);
        let rest = frames.skip(1);
        assert(forall|i: int| 0 <= i < n - 1 ==> #[trigger] rest[i] == frames[i + 1]);
        assert(rest[n - 1] == frames[n]);
        lemma_retry_consumes_exactly(colors, rest, n - 1);
    }
}

/// The index of the first detection of color `c`, scanning forward.
fn find_first(leds: &Vec<Led>, c: Color) -> (r: Option<usize>)
    ensures
        match r {
            Some(i) => {
                &&& i < leds@.len()
                &&& leds@[i as int].color == c
                &&& forall|j: int| 0 <= j < i ==> leds@[j].color != c
                &&& first_with_color(leds@, c) == Some(leds@[i as int])
            },
            None => first_with_color(leds@, c) is None,
        },
{
    let n = leds.len();
    let mut i: usize = 0;
    while i < n
        invariant
            i <= n,
            n == leds@.len(),
            forall|j: int| 0 <= j < i ==> leds@[j].color != c,
        decreases n - i,
    {
        if leds[i].color == c {
            proof {
                lemma_first_with_color_at(leds@, c, i as int);
            }
            return Some(i);
        }
        i = i + 1;
    }
    proof {
        lemma_first_with_color_missing(leds@, c);
    }
    None
}

/// If index `i` holds the first occurrence of `c`, the scan finds it.
proof fn lemma_first_with_color_at(leds: Seq<Led>, c: Color, i: int)
    requires
        0 <= i < leds.len(),
        leds[i].color == c,
        forall|j: int| 0 <= j < i ==> leds[j].color != c,
    ensures
        first_with_color(leds, c) == Some(leds[i]),
    decreases i,
{
    if i > 0 {
        let rest = leds.skip(1);
        assert(forall|j: int| 0 <= j < i - 1 ==> #[trigger] rest[j] == leds[j + 1]);
        assert(rest[i - 1] == leds[i]);
        lemma_first_with_color_at(rest, c, i - 1);
    }
}

/// If no index holds `c`, the scan finds nothing.
proof fn lemma_first_with_color_missing(leds: Seq<Led>, c: Color)
    requires
        forall|j: int| 0 <= j < leds.len() ==> leds[j].color != c,
    ensures
        first_with_color(leds, c) is None,
    decreases leds.len(),
{
    if leds.len() > 0 {
        let rest = leds.skip(1);
        assert(forall|j: int| 0 <= j < rest.len() ==> #[trigger] rest[j] == leds[j + 1]);
        lemma_first_with_color_missing(rest, c);
    }
}

impl MapState {
    /// One inference step over one frame's detections: the positions of
    /// the first vehicle-colored and first target-colored markers, or
    /// nothing when either is absent and the frame must be retried.
    pub fn infer(colors: &TeamColors, leds: &Vec<Led>) -> (r: Option<MapState>)
        ensures
            r == infer_spec(*colors, leds@),
    {
        let car = find_first(leds, colors.car);
        let target = find_first(leds, colors.target);
        match (car, target) {
            (Some(ci), Some(ti)) => Some(
                MapState {
                    car: leds[ci].bbox.position(),
                    target: leds[ti].bbox.position(),
                },
            ),
            _ => None,
        }
    }

    /// The retry loop over a recorded run of frames: feed frames to the
    /// inference step until one yields a state; report how many frames
    /// were consumed together with that state.
    pub fn infer_from_frames(colors: &TeamColors, frames: &Vec<Vec<Led>>) -> (r: Option<
        (usize, MapState),
    >)
        ensures
            match r {
                Some((n, m)) => retry_spec(*colors, frames@.map_values(|f: Vec<Led>| f@))
                    == Some((n as int, m)),
                None => retry_spec(*colors, frames@.map_values(|f: Vec<Led>| f@)) is None,
            },
    {
        let ghost views = frames@.map_values(|f: Vec<Led>| f@);
        let n = frames.len();
        let mut i: usize = 0;
        while i < n
            invariant
                i <= n,
                n == frames@.len(),
                views == frames@.map_values(|f: Vec<Led>| f@),
                forall|j: int| 0 <= j < i ==> infer_spec(*colors, #[trigger] views[j]) is None,
            decreases n - i,
        {
            let step = MapState::infer(colors, &frames[i]);
            proof {
                assert(views[i as int] == frames@[i as int]@);
            }
            if let Some(m) = step {
                proof {
                    lemma_retry_consumes_exactly(*colors, views, i as int);
                }
                return Some((i + 1, m));
            }
            i = i + 1;
        }
        proof {
            lemma_retry_exhausts(*colors, views);
        }
        None
    }
}

/// A run in which no frame shows both markers yields nothing.
proof fn lemma_retry_exhausts(colors: TeamColors, frames: Seq<Seq<Led>>)
    requires
        forall|i: int| 0 <= i < frames.len() ==> infer_spec(colors, #[trigger] frames[i]) is None,
    ensures
        retry_spec(colors, frames) is None,
    decreases frames.len(),
{
    if frames.len() > 0 {
        let rest = frames.skip(1);
        assert(forall|i: int| 0 <= i < rest.len() ==> #[trigger] rest[i] == frames[i + 1]);
        lemma_retry_exhausts(colors, rest);
    }
}

} // verus!
