//! Airports and their placement on the plane.
//!
//! Random layouts are found by rejection sampling: a candidate is drawn from
//! the sampled region and kept only if it lies more than the minimum
//! separation from every airport placed before it. Each airport gets a
//! limited number of candidates; when they run out the placement fails.

use crate::error::SimError;
use crate::plane::{apart, distance_squared, lemma_distance_symmetric, Plane, Point};
use crate::random::{Generator, Stream};
use vstd::prelude::*;

verus! {

/// The least distance between two airports of a random layout: 200 distance
/// units.
pub const MIN_SEPARATION: u64 = 200_000;

/// How many times a rejected candidate is redrawn before a random layout
/// gives up on an airport.
pub const PLACEMENT_RETRIES: u32 = 1_000;

/// The square of a distance as it is stored: exact up to the largest `u128`,
/// which stands for everything beyond.
pub open spec fn stored_square(a: Point, b: Point) -> int {
    if distance_squared(a, b) > u128::MAX {
        u128::MAX as int
    } else {
        distance_squared(a, b)
    }
}

/// Whether `candidate` lies within `thresh` of one of the `accepted` points.
pub open spec fn crowded(accepted: Seq<Point>, candidate: Point, thresh: u64) -> bool {
    exists|i: int| 0 <= i < accepted.len() && !apart(#[trigger] accepted[i], candidate, thresh)
}

/// Whether any two of `points` lie more than `thresh` apart.
pub open spec fn separated(points: Seq<Point>, thresh: u64) -> bool {
    forall|i: int, j: int|
        0 <= i < points.len() && 0 <= j < points.len() && i != j ==> apart(
            #[trigger] points[i],
            #[trigger] points[j],
            thresh,
        )
}

/// The distance between two coordinates.
fn gap(a: i64, b: i64) -> (d: u64)
    ensures
        d == if a >= b { a - b } else { b - a },
{
    if a >= b {
        (a as i128 - b as i128) as u64
    } else {
        (b as i128 - a as i128) as u64
    }
}

/// The stored square of the distance between two points.
pub fn squared_distance(a: Point, b: Point) -> (square: u128)
    ensures
        square == stored_square(a, b),
{
    let dx = gap(a.x, b.x) as u128;
    let dy = gap(a.y, b.y) as u128;
    assert(dx * dx == (a.x - b.x) * (a.x - b.x) && dx * dx <= u64::MAX * u64::MAX)
        by (nonlinear_arith)
        requires
            dx == a.x - b.x || dx == b.x - a.x,
            0 <= dx <= u64::MAX,
    ;
    assert(dy * dy == (a.y - b.y) * (a.y - b.y) && dy * dy <= u64::MAX * u64::MAX)
        by (nonlinear_arith)
        requires
            dy == a.y - b.y || dy == b.y - a.y,
            0 <= dy <= u64::MAX,
    ;
    let sx: u128 = dx * dx;
    let sy: u128 = dy * dy;
    if sx > u128::MAX - sy {
        u128::MAX
    } else {
        sx + sy
    }
}

/// What a search for one more point ends with: the generator's state, and
/// the point unless every candidate was rejected.
pub struct Search {
    pub stream: Stream,
    pub found: Option<Point>,
}

/// Searches for a point that is not crowded by `accepted`, drawing at most
/// `candidates` candidates: the first one that is clear is taken.
pub open spec fn search(
    stream: Stream,
    accepted: Seq<Point>,
    plane: Plane,
    thresh: u64,
    candidates: nat,
) -> Search
    decreases candidates,
{
    if candidates == 0 {
        Search { stream, found: None }
    } else {
        let candidate = plane.sampled(stream);
        let next = plane.after_sample(stream);
        if crowded(accepted, candidate, thresh) {
            search(next, accepted, plane, thresh, (candidates - 1) as nat)
        } else {
            Search { stream: next, found: Some(candidate) }
        }
    }
}

/// What a placement ends with: the generator's state, and the points in the
/// order they were accepted unless a search failed.
pub struct Placement {
    pub stream: Stream,
    pub points: Option<Seq<Point>>,
}

/// Extends `accepted` by `remaining` points, one search after the other, and
/// stops at the first search that fails.
pub open spec fn placement(
    stream: Stream,
    accepted: Seq<Point>,
    remaining: nat,
    plane: Plane,
    thresh: u64,
    candidates: nat,
) -> Placement
    decreases remaining,
{
    if remaining == 0 {
        Placement { stream, points: Some(accepted) }
    } else {
        let one = search(stream, accepted, plane, thresh, candidates);
        match one.found {
            None => Placement { stream: one.stream, points: None },
            Some(point) => placement(
                one.stream,
                accepted.push(point),
                (remaining - 1) as nat,
                plane,
                thresh,
                candidates,
            ),
        }
    }
}

/// The candidates that one point may use up: the first draw and the redraws.
pub open spec fn candidates_per_point(max_retries: u32) -> nat {
    (max_retries + 1) as nat
}

/// Places `count` points from scratch, each with `max_retries` redraws.
pub open spec fn placing(
    stream: Stream,
    count: nat,
    plane: Plane,
    thresh: u64,
    max_retries: u32,
) -> Placement {
    placement(stream, Seq::empty(), count, plane, thresh, candidates_per_point(max_retries))
}

/// A search that succeeds finds a point of the sampled region that is not
/// crowded by the accepted points.
pub proof fn lemma_search_finds_clear(
    stream: Stream,
    accepted: Seq<Point>,
    plane: Plane,
    thresh: u64,
    candidates: nat,
)
    ensures
        search(stream, accepted, plane, thresh, candidates).found matches Some(point) ==> !crowded(
            accepted,
            point,
            thresh,
        ),
        accepted.len() == 0 && candidates > 0 ==> search(
            stream,
            accepted,
            plane,
            thresh,
            candidates,
        ).found.is_some(),
    decreases candidates,
{
    if candidates > 0 {
        lemma_search_finds_clear(
            plane.after_sample(stream),
            accepted,
            plane,
            thresh,
            (candidates - 1) as nat,
        );
    }
}

/// Accepting a point that is not crowded keeps the points separated.
pub proof fn lemma_clear_point_keeps_separation(accepted: Seq<Point>, point: Point, thresh: u64)
    requires
        separated(accepted, thresh),
        !crowded(accepted, point, thresh),
    ensures
        separated(accepted.push(point), thresh),
{
    let longer = accepted.push(point);
    assert forall|a: int, b: int|
        0 <= a < longer.len() && 0 <= b < longer.len() && a != b implies apart(
        #[trigger] longer[a],
        #[trigger] longer[b],
        thresh,
    ) by {
        lemma_distance_symmetric(longer[a], longer[b]);
    }
}

/// Separation: in every placement that succeeds, any two points lie more
/// than the threshold apart, provided the points it started from did. It
/// returns as many new points as were asked for, after those it started from.
pub proof fn lemma_placement_separated(
    stream: Stream,
    accepted: Seq<Point>,
    remaining: nat,
    plane: Plane,
    thresh: u64,
    candidates: nat,
)
    requires
        separated(accepted, thresh),
    ensures
        placement(stream, accepted, remaining, plane, thresh, candidates).points matches Some(
            points,
        ) ==> {
            &&& separated(points, thresh)
            &&& points.len() == accepted.len() + remaining
            &&& points.subrange(0, accepted.len() as int) == accepted
        },
    decreases remaining,
{
    if remaining > 0 {
        let one = search(stream, accepted, plane, thresh, candidates);
        lemma_search_finds_clear(stream, accepted, plane, thresh, candidates);
        if let Some(point) = one.found {
            lemma_clear_point_keeps_separation(accepted, point, thresh);
            lemma_placement_separated(
                one.stream,
                accepted.push(point),
                (remaining - 1) as nat,
                plane,
                thresh,
                candidates,
            );
        }
    }
}

/// An airport: a named, fixed point on the plane.
#[derive(Debug, PartialEq, Eq)]
pub struct Airport {
    pub name: String,
    pub position: Point,
}

/// The mathematical value of an [`Airport`].
pub struct AirportView {
    pub name: Seq<char>,
    pub position: Point,
}

impl View for Airport {
    type V = AirportView;

    open spec fn view(&self) -> AirportView {
        AirportView { name: self.name@, position: self.position }
    }
}

impl DeepView for Airport {
    type V = AirportView;

    open spec fn deep_view(&self) -> AirportView {
        self@
    }
}

impl Clone for Airport {
    fn clone(&self) -> (copy: Self)
        ensures
            copy@ == self@,
    {
        Airport { name: self.name.clone(), position: self.position }
    }
}

/// The positions of `airports`, in their order.
pub open spec fn positions(airports: Seq<AirportView>) -> Seq<Point> {
    Seq::new(airports.len(), |i: int| airports[i].position)
}

/// The three airports of the random layout, at the `points` found for them.
pub open spec fn three_named(points: Seq<Point>) -> Seq<AirportView>
    recommends
        points.len() == 3,
{
    seq![
        AirportView { name: "YYZ"@, position: points[0] },
        AirportView { name: "LAX"@, position: points[1] },
        AirportView { name: "DXB"@, position: points[2] },
    ]
}

/// The one airport of the fixed layout, at the origin.
pub open spec fn single_fixed() -> Seq<AirportView> {
    seq![AirportView { name: "DXB"@, position: Point { x: 0, y: 0 } }]
}

/// What setting up a layout ends with: the generator's state, and the
/// airports unless the placement was infeasible.
pub struct Layout {
    pub stream: Stream,
    pub airports: Option<Seq<AirportView>>,
}

/// The airports that `layout` gives on `plane` with a generator in state
/// `stream`.
pub open spec fn laid_out(layout: AirportLayouts, stream: Stream, plane: Plane) -> Layout {
    match layout {
        AirportLayouts::ThreeRandom => {
            let placed = placing(stream, 3, plane, MIN_SEPARATION, PLACEMENT_RETRIES);
            Layout {
                stream: placed.stream,
                airports: match placed.points {
                    Some(points) => Some(three_named(points)),
                    None => None,
                },
            }
        },
        AirportLayouts::SingleFixed => Layout { stream, airports: Some(single_fixed()) },
    }
}

/// How the airports of a run are laid out.
#[derive(Clone, Copy, Debug, PartialEq, Eq, Structural)]
pub enum AirportLayouts {
    /// Three airports at random points that keep the minimum separation.
    ThreeRandom,
    /// One airport at the origin, placed without sampling.
    SingleFixed,
}

impl AirportLayouts {
    /// The layout that `name` selects, if any.
    pub open spec fn named(name: Seq<char>) -> Option<AirportLayouts> {
        if name == "three-random"@ {
            Some(AirportLayouts::ThreeRandom)
        } else if name == "single-fixed"@ {
            Some(AirportLayouts::SingleFixed)
        } else {
            None
        }
    }

    /// Decodes a layout selection: `three-random` or `single-fixed`. Any
    /// other name is refused with [`SimError::InvalidConfiguration`].
    pub fn from_name(name: &str) -> (selected: Result<AirportLayouts, SimError>)
        ensures
            selected == match Self::named(name@) {
                Some(layout) => Ok::<AirportLayouts, SimError>(layout),
                None => Err(SimError::InvalidConfiguration),
            },
    {
        let given = name.to_owned();
        if given == "three-random".to_owned() {
            Ok(AirportLayouts::ThreeRandom)
        } else if given == "single-fixed".to_owned() {
            Ok(AirportLayouts::SingleFixed)
        } else {
            Err(SimError::InvalidConfiguration)
        }
    }
}

/// Whether `placed` is the outcome of placing `count` points with a
/// generator in state `stream`: the points that were found, or the failure
/// when a search ran out of candidates.
pub open spec fn is_placement(
    placed: Result<Vec<Point>, SimError>,
    stream: Stream,
    count: nat,
    plane: Plane,
    thresh: u64,
    max_retries: u32,
) -> bool {
    match placed {
        Ok(points) => placing(stream, count, plane, thresh, max_retries).points == Some(points@),
        Err(error) => {
            &&& placing(stream, count, plane, thresh, max_retries).points.is_none()
            &&& error == SimError::PlacementInfeasible
        },
    }
}

/// Determinism: two placements with the same parameters by generators made
/// from the same seed end alike. Both succeed with the same points in the
/// same order, or both fail.
pub proof fn lemma_placement_deterministic(
    first_seed: u64,
    second_seed: u64,
    count: nat,
    plane: Plane,
    thresh: u64,
    max_retries: u32,
    first: Result<Vec<Point>, SimError>,
    second: Result<Vec<Point>, SimError>,
)
    requires
        first_seed == second_seed,
        is_placement(first, Stream::start(first_seed), count, plane, thresh, max_retries),
        is_placement(second, Stream::start(second_seed), count, plane, thresh, max_retries),
    ensures
        match (first, second) {
            (Ok(a), Ok(b)) => a@ == b@,
            (Err(a), Err(b)) => a == b,
            _ => false,
        },
        placing(Stream::start(first_seed), count, plane, thresh, max_retries).stream == placing(
            Stream::start(second_seed),
            count,
            plane,
            thresh,
            max_retries,
        ).stream,
{
}

/// The placement component, configured with a layout.
#[derive(Clone, Copy, Debug)]
pub struct AirportPlugin {
    layout: AirportLayouts,
}

impl AirportPlugin {
    /// The component for `layout`.
    pub fn from_layout(layout: AirportLayouts) -> (plugin: Self)
        ensures
            plugin.layout() == layout,
    {
        Self { layout }
    }

    /// The layout this component places.
    #[verifier::when_used_as_spec(spec_layout)]
    pub fn layout(&self) -> (layout: AirportLayouts)
        ensures
            layout == self.spec_layout(),
    {
        self.layout
    }

    /// The layout this component places.
    pub closed spec fn spec_layout(&self) -> AirportLayouts {
        self.layout
    }

    /// The stored squares of the distances from `new` to each of `locs`, in
    /// the order of `locs`.
    pub fn get_relative_distances(locs: &Vec<Point>, new: Point) -> (distances: Vec<u128>)
        ensures
            distances@.len() == locs@.len(),
            forall|i: int|
                0 <= i < locs@.len() ==> #[trigger] distances@[i] == stored_square(locs@[i], new),
    {
        let mut distances: Vec<u128> = Vec::new();
        let mut i: usize = 0;
        while i < locs.len()
            invariant
                i <= locs@.len(),
                distances@.len() == i,
                forall|k: int|
                    0 <= k < i ==> #[trigger] distances@[k] == stored_square(locs@[k], new),
            decreases locs@.len() - i,
        {
            distances.push(squared_distance(locs[i], new));
            i += 1;
        }
        distances
    }

    /// Whether any of the stored squares is that of a distance within
    /// `thresh`.
    pub fn check_distance_thresh(distances: &Vec<u128>, thresh: u64) -> (within: bool)
        ensures
            within == exists|i: int|
                0 <= i < distances@.len() && #[trigger] distances@[i] <= thresh * thresh,
    {
        assert(thresh * thresh <= u64::MAX * u64::MAX) by (nonlinear_arith)
            requires
                0 <= thresh <= u64::MAX,
        ;
        let limit: u128 = thresh as u128 * thresh as u128;
        let mut i: usize = 0;
        while i < distances.len()
            invariant
                i <= distances@.len(),
                limit == thresh * thresh,
                forall|k: int| 0 <= k < i ==> #[trigger] distances@[k] > limit,
            decreases distances@.len() - i,
        {
            if distances[i] <= limit {
                return true;
            }
            i += 1;
        }
        false
    }

    /// Whether `candidate` lies within `thresh` of one of `locs`.
    pub fn is_crowded(locs: &Vec<Point>, candidate: Point, thresh: u64) -> (within: bool)
        ensures
            within == crowded(locs@, candidate, thresh),
    {
        let distances = Self::get_relative_distances(locs, candidate);
        let within = Self::check_distance_thresh(&distances, thresh);
        proof {
            assert(thresh * thresh <= u64::MAX * u64::MAX) by (nonlinear_arith)
                requires
                    0 <= thresh <= u64::MAX,
            ;
            if crowded(locs@, candidate, thresh) {
                let i = choose|i: int|
                    0 <= i < locs@.len() && !apart(#[trigger] locs@[i], candidate, thresh);
                assert(distances@[i] <= thresh * thresh);
            }
        }
        within
    }

    /// Searches for one more point that keeps `thresh` from all of `locs`,
    /// redrawing a rejected candidate at most `max_retries` times.
    pub fn find_clear_point(
        rng: &mut Generator,
        locs: &Vec<Point>,
        plane: &Plane,
        thresh: u64,
        max_retries: u32,
    ) -> (found: Option<Point>)
        ensures
            (Search { stream: final(rng)@, found }) == search(
                old(rng)@,
                locs@,
                *plane,
                thresh,
                candidates_per_point(max_retries),
            ),
            found matches Some(point) ==> plane.covers(point) && !crowded(locs@, point, thresh),
            locs@.len() == 0 ==> found.is_some(),
    {
        let ghost start = rng@;
        let ghost budget = candidates_per_point(max_retries);
        let mut left: u64 = max_retries as u64 + 1;
        let mut found: Option<Point> = None;
        while left > 0 && found.is_none()
            invariant
                left <= max_retries + 1,
                budget == candidates_per_point(max_retries),
                found.is_none() ==> search(start, locs@, *plane, thresh, budget) == search(
                    rng@,
                    locs@,
                    *plane,
                    thresh,
                    left as nat,
                ),
                found.is_some() ==> search(start, locs@, *plane, thresh, budget) == (Search {
                    stream: rng@,
                    found,
                }),
                found matches Some(point) ==> plane.covers(point) && !crowded(
                    locs@,
                    point,
                    thresh,
                ),
                locs@.len() == 0 && found.is_none() ==> left == max_retries + 1,
            decreases left, found.is_none() as int,
        {
            let candidate = plane.sample_point(rng);
            if !Self::is_crowded(locs, candidate, thresh) {
                found = Some(candidate);
            }
            left -= 1;
        }
        found
    }

    /// Places `count` points in the sampled region of `plane`, any two of
    /// them more than `thresh` apart, by rejection sampling.
    ///
    /// Each point may use up `max_retries` redraws. The placement fails with
    /// [`SimError::PlacementInfeasible`] as soon as a point has used them up
    /// without being accepted. Asking for no point draws nothing.
    pub fn place_points(
        rng: &mut Generator,
        count: usize,
        plane: &Plane,
        thresh: u64,
        max_retries: u32,
    ) -> (placed: Result<Vec<Point>, SimError>)
        ensures
            final(rng)@ == placing(old(rng)@, count as nat, *plane, thresh, max_retries).stream,
            is_placement(placed, old(rng)@, count as nat, *plane, thresh, max_retries),
            placed matches Ok(points) ==> {
                &&& points@.len() == count
                &&& separated(points@, thresh)
                &&& forall|i: int| 0 <= i < points@.len() ==> plane.covers(#[trigger] points@[i])
            },
            count == 0 ==> placed.is_ok() && final(rng)@ == old(rng)@,
            count == 1 ==> placed.is_ok(),
    {
        let ghost start = rng@;
        let ghost budget = candidates_per_point(max_retries);
        let mut locs: Vec<Point> = Vec::new();
        let mut i: usize = 0;
        while i < count
            invariant
                i <= count,
                locs@.len() == i,
                budget == candidates_per_point(max_retries),
                placement(start, Seq::empty(), count as nat, *plane, thresh, budget) == placement(
                    rng@,
                    locs@,
                    (count - i) as nat,
                    *plane,
                    thresh,
                    budget,
                ),
                separated(locs@, thresh),
                forall|k: int| 0 <= k < locs@.len() ==> plane.covers(#[trigger] locs@[k]),
                start == old(rng)@,
            decreases count - i,
        {
            let ghost before = locs@;
            match Self::find_clear_point(rng, &locs, plane, thresh, max_retries) {
                None => {
                    return Err(SimError::PlacementInfeasible);
                },
                Some(point) => {
                    locs.push(point);
                    proof {
                        lemma_clear_point_keeps_separation(before, point, thresh);
                    }
                },
            }
            i += 1;
        }
        Ok(locs)
    }

    /// The airport called `name` at the point (`x`, `y`).
    pub fn spawn_airport(x: i64, y: i64, name: &str) -> (airport: Airport)
        ensures
            airport@ == (AirportView { name: name@, position: Point { x, y } }),
    {
        Airport { name: name.to_owned(), position: Point { x, y } }
    }

    /// Three airports, YYZ, LAX and DXB, at random points of the sampled
    /// region that keep the minimum separation.
    pub fn create_three_random(rng: &mut Generator, plane: &Plane) -> (created: Result<
        Vec<Airport>,
        SimError,
    >)
        ensures
            final(rng)@ == laid_out(AirportLayouts::ThreeRandom, old(rng)@, *plane).stream,
            match created {
                Ok(airports) => {
                    &&& laid_out(AirportLayouts::ThreeRandom, old(rng)@, *plane).airports == Some(
                        airports.deep_view(),
                    )
                    &&& airports@.len() == 3
                    &&& separated(positions(airports.deep_view()), MIN_SEPARATION)
                    &&& forall|i: int|
                        0 <= i < 3 ==> plane.covers(#[trigger] airports.deep_view()[i].position)
                },
                Err(error) => {
                    &&& laid_out(AirportLayouts::ThreeRandom, old(rng)@, *plane).airports.is_none()
                    &&& error == SimError::PlacementInfeasible
                },
            },
    {
        match Self::place_points(rng, 3, plane, MIN_SEPARATION, PLACEMENT_RETRIES) {
            Err(error) => Err(error),
            Ok(locs) => {
                let mut airports: Vec<Airport> = Vec::new();
                airports.push(Self::spawn_airport(locs[0].x, locs[0].y, "YYZ"));
                airports.push(Self::spawn_airport(locs[1].x, locs[1].y, "LAX"));
                airports.push(Self::spawn_airport(locs[2].x, locs[2].y, "DXB"));
                Ok(airports)
            },
        }
    }

    /// The single airport DXB at the origin.
    pub fn create_single_fixed() -> (airports: Vec<Airport>)
        ensures
            airports.deep_view() == single_fixed(),
    {
        let mut airports: Vec<Airport> = Vec::new();
        airports.push(Self::spawn_airport(0, 0, "DXB"));
        airports
    }

    /// Creates the airports of this component's layout.
    ///
    /// Fails with [`SimError::PlacementInfeasible`] exactly when the layout is
    /// random and its placement used up the retries of one airport. The fixed
    /// layout draws nothing.
    pub fn setup_layout(&self, rng: &mut Generator, plane: &Plane) -> (created: Result<
        Vec<Airport>,
        SimError,
    >)
        ensures
            final(rng)@ == laid_out(self.layout(), old(rng)@, *plane).stream,
            match created {
                Ok(airports) => laid_out(self.layout(), old(rng)@, *plane).airports == Some(
                    airports.deep_view(),
                ),
                Err(error) => {
                    &&& laid_out(self.layout(), old(rng)@, *plane).airports.is_none()
                    &&& error == SimError::PlacementInfeasible
                },
            },
            self.layout() == AirportLayouts::ThreeRandom ==> (created matches Ok(airports)
                ==> separated(positions(airports.deep_view()), MIN_SEPARATION)),
    {
        match self.layout {
            AirportLayouts::ThreeRandom => Self::create_three_random(rng, plane),
            AirportLayouts::SingleFixed => Ok(Self::create_single_fixed()),
        }
    }
}

} // verus!
