//! The simulation step: one store of airports and vehicles, driven frame by
//! frame.

use crate::airport::{
    candidates_per_point, laid_out, lemma_placement_separated, positions, separated, Airport,
    AirportLayouts, AirportPlugin, AirportView, MIN_SEPARATION, PLACEMENT_RETRIES,
};
use crate::error::SimError;
use crate::plane::Plane;
use crate::random::{Generator, Stream};
use crate::traffic::{
    draws, vehicle_of, TrafficConfig, TrafficConfigView, TrafficDensity, TrafficPlugin,
};
use crate::vehicle::{AerialVehicle, VehicleView};
use vstd::prelude::*;

verus! {

/// The start-up selections of a run.
#[derive(Clone, Copy, Debug, PartialEq, Eq, Structural)]
pub struct SimulationConfig {
    pub density: TrafficDensity,
    pub layout: AirportLayouts,
}

impl SimulationConfig {
    /// Decodes the two selections. An unknown name of either is refused with
    /// [`SimError::InvalidConfiguration`]; nothing is substituted for it.
    pub fn from_names(density: &str, layout: &str) -> (decoded: Result<SimulationConfig, SimError>)
        ensures
            decoded == match (TrafficDensity::named(density@), AirportLayouts::named(layout@)) {
                (Some(density), Some(layout)) => Ok::<SimulationConfig, SimError>(
                    SimulationConfig { density, layout },
                ),
                _ => Err(SimError::InvalidConfiguration),
            },
    {
        match TrafficDensity::from_name(density) {
            Err(error) => Err(error),
            Ok(density) => match AirportLayouts::from_name(layout) {
                Err(error) => Err(error),
                Ok(layout) => Ok(SimulationConfig { density, layout }),
            },
        }
    }
}

/// The mathematical state of a [`Simulation`].
pub struct SimulationView {
    pub selections: SimulationConfig,
    pub plane: Plane,
    pub airports: Seq<AirportView>,
    pub vehicles: Seq<VehicleView>,
    pub traffic: TrafficConfigView,
    pub stream: Stream,
}

impl SimulationView {
    /// The timers are those of the selected density and are running, and
    /// any two airports keep the minimum separation.
    pub open spec fn wf(self) -> bool {
        &&& self.traffic.wf()
        &&& self.traffic.density == self.selections.density
        &&& separated(positions(self.airports), MIN_SEPARATION)
    }

    /// The state a run starts in, unless its layout cannot be placed: the
    /// airports laid out by a generator fresh from `seed`, no vehicle, and
    /// fresh timers for the selected density.
    pub open spec fn started(
        selections: SimulationConfig,
        plane: Plane,
        seed: u64,
    ) -> Option<SimulationView> {
        let layout = laid_out(selections.layout, Stream::start(seed), plane);
        match layout.airports {
            Some(airports) => Some(
                SimulationView {
                    selections,
                    plane,
                    airports,
                    vehicles: Seq::empty(),
                    traffic: TrafficConfigView::initial(selections.density),
                    stream: layout.stream,
                },
            ),
            None => None,
        }
    }

    /// The vehicles once the spawner has seen a frame of `delta`
    /// nanoseconds: one more, at the end, when the spawn timer expires.
    pub open spec fn after_spawner(self, delta: nat) -> Seq<VehicleView> {
        if self.traffic.spawn_due(delta) {
            self.vehicles.push(
                vehicle_of(draws(self.stream, self.airports.len(), self.plane), self.airports),
            )
        } else {
            self.vehicles
        }
    }

    /// The state after a frame of `delta` nanoseconds: the spawner runs
    /// first, the updater second, on the vehicles the spawner left.
    pub open spec fn step(self, delta: nat) -> SimulationView {
        let traffic = self.traffic.after_spawner(delta);
        SimulationView {
            vehicles: traffic.updated(delta, self.after_spawner(delta)),
            traffic: traffic.after_updater(delta),
            stream: if self.traffic.spawn_due(delta) {
                draws(self.stream, self.airports.len(), self.plane).stream
            } else {
                self.stream
            },
            ..self
        }
    }
}

/// Every run starts well formed: whatever the seed, the airports of a
/// layout that could be placed keep the minimum separation.
pub proof fn lemma_start_is_well_formed(selections: SimulationConfig, plane: Plane, seed: u64)
    ensures
        SimulationView::started(selections, plane, seed) matches Some(state) ==> state.wf(),
{
    if let Some(state) = SimulationView::started(selections, plane, seed) {
        match selections.layout {
            AirportLayouts::ThreeRandom => {
                lemma_placement_separated(
                    Stream::start(seed),
                    Seq::empty(),
                    3,
                    plane,
                    MIN_SEPARATION,
                    candidates_per_point(PLACEMENT_RETRIES),
                );
            },
            AirportLayouts::SingleFixed => {},
        }
    }
}

/// A frame adds one vehicle when the spawner fires and none otherwise,
/// however long the frame is.
pub proof fn lemma_step_spawns_at_most_once(state: SimulationView, delta: nat)
    requires
        state.wf(),
    ensures
        state.step(delta).vehicles.len() == state.vehicles.len() + (if state.traffic.spawn_due(
            delta,
        ) {
            1nat
        } else {
            0nat
        }),
{
}

/// A frame never touches the airports, so they keep their separation, and
/// it leaves both timers running.
pub proof fn lemma_step_keeps_airports(state: SimulationView, delta: nat)
    requires
        state.wf(),
    ensures
        state.step(delta).airports == state.airports,
        state.step(delta).wf(),
{
}

/// A frame of no time changes nothing at all.
pub proof fn lemma_empty_frame(state: SimulationView)
    requires
        state.wf(),
    ensures
        state.step(0) == state,
{
}

/// A running simulation: the airports, the vehicles, the timers and the
/// generator, all owned by the step.
pub struct Simulation {
    selections: SimulationConfig,
    plane: Plane,
    airports: Vec<Airport>,
    vehicles: Vec<AerialVehicle>,
    traffic: TrafficConfig,
    rng: Generator,
}

impl View for Simulation {
    type V = SimulationView;

    closed spec fn view(&self) -> SimulationView {
        SimulationView {
            selections: self.selections,
            plane: self.plane,
            airports: self.airports.deep_view(),
            vehicles: self.vehicles.deep_view(),
            traffic: self.traffic@,
            stream: self.rng@,
        }
    }
}

impl Simulation {
    /// Starts a run on `plane`: lays out the airports with a generator
    /// seeded with `seed`, and sets up the timers for the selected density.
    ///
    /// Fails with [`SimError::PlacementInfeasible`] exactly when the layout
    /// could not be placed.
    pub fn new(selections: SimulationConfig, plane: Plane, seed: u64) -> (started: Result<
        Simulation,
        SimError,
    >)
        ensures
            match started {
                Ok(simulation) => {
                    &&& SimulationView::started(selections, plane, seed) == Some(simulation@)
                    &&& simulation@.wf()
                },
                Err(error) => {
                    &&& SimulationView::started(selections, plane, seed).is_none()
                    &&& error == SimError::PlacementInfeasible
                },
            },
    {
        let mut rng = Generator::from_seed(seed);
        match AirportPlugin::from_layout(selections.layout).setup_layout(&mut rng, &plane) {
            Err(error) => Err(error),
            Ok(airports) => {
                let vehicles: Vec<AerialVehicle> = Vec::new();
                let traffic = TrafficPlugin::from_density(selections.density).build();
                assert(vehicles.deep_view() =~= Seq::empty());
                Ok(Simulation { selections, plane, airports, vehicles, traffic, rng })
            },
        }
    }

    /// Advances the run by a frame of `delta` nanoseconds.
    pub fn step(&mut self, delta: u64)
        ensures
            final(self)@ == old(self)@.step(delta as nat),
            old(self)@.wf() ==> final(self)@.wf(),
            final(self)@.airports == old(self)@.airports,
            delta == 0 ==> final(self)@ == old(self)@,
    {
        proof {
            use_type_invariant(&self.traffic);
        }
        let spawned = TrafficPlugin::traffic_spawner(
            &mut self.traffic,
            delta,
            &mut self.rng,
            &self.airports,
            &self.plane,
        );
        let ghost before = self.vehicles.deep_view();
        match spawned {
            Some(vehicle) => {
                self.vehicles.push(vehicle);
                assert(self.vehicles.deep_view() =~= before.push(vehicle@));
            },
            None => {},
        }
        AerialVehicle::update_position(&mut self.vehicles, delta, &mut self.traffic);
    }

    /// The start-up selections of the run.
    pub fn selections(&self) -> (selections: SimulationConfig)
        ensures
            selections == self@.selections,
    {
        self.selections
    }

    /// The plane of the run.
    pub fn plane(&self) -> (plane: Plane)
        ensures
            plane == self@.plane,
    {
        self.plane
    }

    /// The airports, in the order they were placed.
    pub fn airports(&self) -> (airports: &Vec<Airport>)
        ensures
            airports.deep_view() == self@.airports,
    {
        &self.airports
    }

    /// The vehicles, oldest first.
    pub fn vehicles(&self) -> (vehicles: &Vec<AerialVehicle>)
        ensures
            vehicles.deep_view() == self@.vehicles,
    {
        &self.vehicles
    }

    /// The traffic settings and timers.
    pub fn traffic(&self) -> (traffic: TrafficConfig)
        ensures
            traffic@ == self@.traffic,
    {
        self.traffic
    }
}

} // verus!
