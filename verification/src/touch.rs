//! Touch contacts and the summary of one touch frame.
use vstd::prelude::*;

use crate::input::TouchDeviceKind;
use vstd::arithmetic::div_mod::{
    lemma_div_is_ordered, lemma_div_multiples_vanish, lemma_fundamental_div_mod,
    lemma_fundamental_div_mod_converse_div,
};

verus! {

/// One contact of a touch frame. The position is fixed-point: see
/// `POSITION_SCALE`.
#[derive(Clone, Copy, Debug, PartialEq, Eq, Structural)]
pub struct TouchContact {
    pub x: i32,
    pub y: i32,
    /// `false` for a finger hovering in range without touching.
    pub touching: bool,
}

impl Default for TouchContact {
    fn default() -> (r: Self)
        ensures
            r == (TouchContact { x: 0, y: 0, touching: false }),
    {
        TouchContact { x: 0, y: 0, touching: false }
    }
}

impl TouchContact {
    /// Whether the contact touches the surface.
    pub fn is_touching(&self) -> (r: bool)
        ensures
            r == self.touching,
    {
        self.touching
    }

    /// The contact's position.
    pub fn normalized_position(&self) -> (r: (i32, i32))
        ensures
            r == (self.x, self.y),
    {
        (self.x, self.y)
    }
}

/// A position on the surface, in the same fixed-point units as contacts.
#[derive(Clone, Copy, Debug, PartialEq, Eq, Structural)]
pub struct Point {
    pub x: i32,
    pub y: i32,
}

/// Absolute value of an integer.
pub open spec fn abs(v: int) -> int {
    if v < 0 { -v } else { v }
}

impl Point {
    /// Manhattan distance between two points.
    pub open spec fn distance(self, other: Point) -> int {
        abs(self.x - other.x) + abs(self.y - other.y)
    }

    /// Manhattan distance between two points.
    pub fn delta_to(self, other: Point) -> (r: i64)
        ensures
            r == self.distance(other),
    {
        let dx: i64 = self.x as i64 - other.x as i64;
        let dy: i64 = self.y as i64 - other.y as i64;
        let ax: i64 = if dx < 0 { -dx } else { dx };
        let ay: i64 = if dy < 0 { -dy } else { dy };
        ax + ay
    }
}

/// Number of contacts that touch the surface.
pub open spec fn active_count(touches: Seq<TouchContact>) -> nat
    decreases touches.len(),
{
    if touches.len() == 0 {
        0
    } else {
        (if touches[0].touching { 1nat } else { 0nat }) + active_count(touches.drop_first())
    }
}

/// The first `limit` touching contacts, in frame order.
pub open spec fn sampled(touches: Seq<TouchContact>, limit: nat) -> Seq<TouchContact>
    decreases touches.len(),
{
    if touches.len() == 0 || limit == 0 {
        Seq::empty()
    } else if touches[0].touching {
        seq![touches[0]] + sampled(touches.drop_first(), (limit - 1) as nat)
    } else {
        sampled(touches.drop_first(), limit)
    }
}

/// Sum of the x coordinates.
pub open spec fn sum_x(points: Seq<TouchContact>) -> int
    decreases points.len(),
{
    if points.len() == 0 { 0 } else { points[0].x + sum_x(points.drop_first()) }
}

/// Sum of the y coordinates.
pub open spec fn sum_y(points: Seq<TouchContact>) -> int
    decreases points.len(),
{
    if points.len() == 0 { 0 } else { points[0].y + sum_y(points.drop_first()) }
}

/// The first touching contact of the frame, if any.
pub open spec fn first_touching(touches: Seq<TouchContact>) -> Option<TouchContact>
    decreases touches.len(),
{
    if touches.len() == 0 {
        None
    } else if touches[0].touching {
        Some(touches[0])
    } else {
        first_touching(touches.drop_first())
    }
}

/// The centroid of the first `limit` touching contacts, each coordinate
/// rounded down; `None` when there are none.
pub open spec fn centroid(touches: Seq<TouchContact>, limit: nat) -> Option<Point> {
    let samples = sampled(touches, limit);
    if samples.len() == 0 {
        None
    } else {
        Some(
            Point {
                x: (sum_x(samples) / (samples.len() as int)) as i32,
                y: (sum_y(samples) / (samples.len() as int)) as i32,
            },
        )
    }
}

/// What the gesture logic reads of a touch frame.
#[derive(Clone, Copy, Debug, PartialEq, Eq, Structural)]
pub struct TouchAnalysis {
    /// Number of touching contacts.
    pub active_count: usize,
    /// Centroid of the first `fingers` touching contacts.
    pub centroid: Option<Point>,
    /// Position of the touching contact when there is exactly one.
    pub single_active_position: Option<Point>,
}

/// The analysis of a frame when the centroid uses at most `limit` contacts.
pub open spec fn analysis(touches: Seq<TouchContact>, limit: nat) -> TouchAnalysis {
    TouchAnalysis {
        active_count: active_count(touches) as usize,
        centroid: centroid(touches, limit),
        single_active_position: if active_count(touches) == 1 {
            let t = first_touching(touches).unwrap();
            Some(Point { x: t.x, y: t.y })
        } else {
            None
        },
    }
}


/// The number of touching contacts is at most the number of contacts.
proof fn lemma_active_count_bound(touches: Seq<TouchContact>)
    ensures
        active_count(touches) <= touches.len(),
    decreases touches.len(),
{
    if touches.len() > 0 {
        lemma_active_count_bound(touches.drop_first());
    }
}

/// A sample holds at most `limit` contacts, each with 32-bit coordinates,
/// so its coordinate sums are bounded by its length.
proof fn lemma_sampled_bounds(touches: Seq<TouchContact>, limit: nat)
    ensures
        sampled(touches, limit).len() <= limit,
        sampled(touches, limit).len() <= touches.len(),
        -2147483648 * sampled(touches, limit).len() <= sum_x(sampled(touches, limit))
            <= 2147483647 * sampled(touches, limit).len(),
        -2147483648 * sampled(touches, limit).len() <= sum_y(sampled(touches, limit))
            <= 2147483647 * sampled(touches, limit).len(),
    decreases touches.len(),
{
    if touches.len() > 0 && limit > 0 {
        let rest = touches.drop_first();
        if touches[0].touching {
            lemma_sampled_bounds(rest, (limit - 1) as nat);
            lemma_sum_of_cons(touches[0], sampled(rest, (limit - 1) as nat));
        } else {
            lemma_sampled_bounds(rest, limit);
        }
    }
}

/// Prepending a contact adds its coordinates to the sums.
proof fn lemma_sum_of_cons(t: TouchContact, rest: Seq<TouchContact>)
    ensures
        (seq![t] + rest).len() == rest.len() + 1,
        sum_x(seq![t] + rest) == t.x + sum_x(rest),
        sum_y(seq![t] + rest) == t.y + sum_y(rest),
{
    assert((seq![t] + rest).drop_first() =~= rest);
}

/// Floor of `sum / n` for a sum of `n` 32-bit values, which is itself a
/// 32-bit value.
fn floor_average(sum: i128, n: usize) -> (r: i32)
    requires
        n > 0,
        -2147483648 * n <= sum <= 2147483647 * n,
    ensures
        r == (sum as int) / (n as int),
{
    proof {
        lemma_div_is_ordered(-2147483648 * n, sum as int, n as int);
        lemma_div_is_ordered(sum as int, 2147483647 * n, n as int);
        lemma_div_multiples_vanish(-2147483648, n as int);
        lemma_div_multiples_vanish(2147483647, n as int);
        assert((n as int) * -2147483648 == -2147483648 * (n as int)) by (nonlinear_arith);
        assert((n as int) * 2147483647 == 2147483647 * (n as int)) by (nonlinear_arith);
    }
    if sum >= 0 {
        let q: u128 = (sum as u128) / (n as u128);
        q as i32
    } else {
        let a: u128 = (-sum) as u128;
        let q: u128 = (a + (n as u128) - 1) / (n as u128);
        proof {
            let ai = a as int;
            let ni = n as int;
            let qi = (ai + ni - 1) / ni;
            let ri = (ai + ni - 1) % ni;
            lemma_fundamental_div_mod(ai + ni - 1, ni);
            assert(0 <= ri < ni);
            assert(sum as int == (-qi) * ni + (ni - 1 - ri)) by (nonlinear_arith)
                requires
                    ai + ni - 1 == ni * qi + ri,
                    sum as int == -ai,
            ;
            lemma_fundamental_div_mod_converse_div(sum as int, ni, -qi, ni - 1 - ri);
        }
        (-(q as i64)) as i32
    }
}

/// Summarises a frame: counts the touching contacts, averages the first
/// `fingers` of them, and records the position of a lone touching contact.
pub fn analyze_touches(touches: &[TouchContact], fingers: usize) -> (r: TouchAnalysis)
    ensures
        r == analysis(touches@, fingers as nat),
        r.active_count == active_count(touches@),
{
    let ghost s = touches@;
    let n = touches.len();
    let mut active: usize = 0;
    let mut taken: usize = 0;
    let mut sum_xs: i128 = 0;
    let mut sum_ys: i128 = 0;
    let mut single: Option<Point> = None;
    let ghost mut first: TouchContact = TouchContact { x: 0, y: 0, touching: false };
    let mut i: usize = 0;
    proof {
        assert(s.skip(0) =~= s);
        lemma_active_count_bound(s);
    }
    while i < n
        invariant
            n == s.len(),
            s == touches@,
            0 <= i <= n,
            active <= i,
            taken <= fingers,
            taken <= i,
            active + active_count(s.skip(i as int)) == active_count(s),
            taken + sampled(s.skip(i as int), (fingers - taken) as nat).len()
                == sampled(s, fingers as nat).len(),
            sum_xs + sum_x(sampled(s.skip(i as int), (fingers - taken) as nat))
                == sum_x(sampled(s, fingers as nat)),
            sum_ys + sum_y(sampled(s.skip(i as int), (fingers - taken) as nat))
                == sum_y(sampled(s, fingers as nat)),
            -2147483648 * taken <= sum_xs <= 2147483647 * taken,
            -2147483648 * taken <= sum_ys <= 2147483647 * taken,
            active == 0 ==> first_touching(s) == first_touching(s.skip(i as int)),
            active >= 1 ==> first_touching(s) == Some(first),
            single == (if active == 1 { Some(Point { x: first.x, y: first.y }) } else { None::<Point> }),
        decreases n - i,
    {
        let t = touches[i];
        let ghost rest = s.skip(i as int);
        proof {
            assert(rest[0] == t);
            assert(rest.drop_first() =~= s.skip(i + 1));
        }
        if t.touching {
            active = active + 1;
            if active == 1 {
                proof {
                    first = t;
                }
                single = Some(Point { x: t.x, y: t.y });
            } else {
                single = None;
            }
            if taken < fingers {
                proof {
                    lemma_sum_of_cons(t, sampled(s.skip(i + 1), (fingers - taken - 1) as nat));
                }
                sum_xs = sum_xs + t.x as i128;
                sum_ys = sum_ys + t.y as i128;
                taken = taken + 1;
            }
        }
        i = i + 1;
    }
    proof {
        assert(s.skip(n as int) =~= Seq::<TouchContact>::empty());
        lemma_sampled_bounds(s, fingers as nat);
    }
    let centroid = if taken == 0 {
        None
    } else {
        Some(Point { x: floor_average(sum_xs, taken), y: floor_average(sum_ys, taken) })
    };
    TouchAnalysis { active_count: active, centroid, single_active_position: single }
}


/// Whether a multitouch path stage is one where the finger touches the
/// surface (make-touch, touching, break-touch); the earlier stages are a
/// finger hovering in range, the later ones a finger lifting off.
pub fn is_touch_contact_stage(stage: i32) -> (r: bool)
    ensures
        r == (3 <= stage <= 5),
{
    3 <= stage && stage <= 5
}

/// One contact as the platform reports it: its path stage and its position
/// in the fixed-point units of `POSITION_SCALE`.
#[derive(Clone, Copy, Debug, PartialEq, Eq, Structural)]
pub struct Touch {
    pub stage: i32,
    pub x: i32,
    pub y: i32,
}

/// The contacts the gesture logic sees for a sequence of platform contacts.
pub open spec fn contacts_of(touches: Seq<Touch>) -> Seq<TouchContact> {
    touches.map_values(|t: Touch| t.contact())
}

impl Touch {
    /// The contact the gesture logic sees for this platform contact.
    pub open spec fn contact(self) -> TouchContact {
        TouchContact { x: self.x, y: self.y, touching: 3 <= self.stage <= 5 }
    }

    /// Whether the contact touches the surface.
    pub fn is_touching(&self) -> (r: bool)
        ensures
            r == self.contact().touching,
    {
        is_touch_contact_stage(self.stage)
    }

    /// The contact's position.
    pub fn normalized_position(&self) -> (r: (i32, i32))
        ensures
            r == (self.x, self.y),
    {
        (self.x, self.y)
    }
}

/// The contacts of one frame from one device.
pub struct TouchFrame {
    touches: Vec<Touch>,
    source_kind: TouchDeviceKind,
}

impl TouchFrame {
    /// The frame's platform contacts.
    pub closed spec fn touches(&self) -> Seq<Touch> {
        self.touches@
    }

    /// The kind of device that reported the frame.
    pub closed spec fn spec_source_kind(&self) -> TouchDeviceKind {
        self.source_kind
    }

    /// A frame of `touches` reported by a device of kind `source_kind`.
    pub fn new(touches: Vec<Touch>, source_kind: TouchDeviceKind) -> (r: Self)
        ensures
            r.touches() == touches@,
            r.spec_source_kind() == source_kind,
    {
        TouchFrame { touches, source_kind }
    }

    /// The frame's contacts as the gesture logic sees them, in frame order.
    pub fn iter(&self) -> (r: Vec<TouchContact>)
        ensures
            r@ == contacts_of(self.touches()),
    {
        let mut contacts: Vec<TouchContact> = Vec::new();
        let n = self.touches.len();
        let mut i: usize = 0;
        while i < n
            invariant
                n == self.touches@.len(),
                0 <= i <= n,
                contacts@ == self.touches@.take(i as int).map_values(|t: Touch| t.contact()),
            decreases n - i,
        {
            let t = self.touches[i];
            contacts.push(TouchContact { x: t.x, y: t.y, touching: t.is_touching() });
            assert(self.touches@.take(i + 1) =~= self.touches@.take(i as int).push(t));
            i = i + 1;
        }
        assert(self.touches@.take(n as int) =~= self.touches@);
        contacts
    }

    /// The kind of device that reported the frame.
    pub fn source_kind(&self) -> (r: TouchDeviceKind)
        ensures
            r == self.spec_source_kind(),
    {
        self.source_kind
    }
}

} // verus!
