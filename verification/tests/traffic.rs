use mayday::airport::{Airport, AirportPlugin};
use mayday::error::SimError;
use mayday::plane::{Plane, Point};
use mayday::random::Generator;
use mayday::timer::{TimerMode, NANOS_PER_SECOND};
use mayday::traffic::{TrafficConfig, TrafficDensity, TrafficPlugin};
use mayday::vehicle::AerialVehicle;

fn reference_plane() -> Plane {
    Plane::new(1500, 900).unwrap()
}

fn vehicle(speed: u32, heading: u16, x: i64, y: i64) -> AerialVehicle {
    TrafficPlugin::spawn_av(
        AerialVehicle::callsign('Q', 'F', 32),
        41_000,
        speed,
        heading,
        "LAX".to_string(),
        x,
        y,
    )
}

fn high_density() -> TrafficConfig {
    TrafficPlugin::from_density(TrafficDensity::High).build()
}

#[test]
fn density_sets_the_spawn_interval() {
    assert_eq!(TrafficDensity::Low.spawn_interval(), 15_000_000_000);
    assert_eq!(TrafficDensity::Medium.spawn_interval(), 10_000_000_000);
    assert_eq!(TrafficDensity::High.spawn_interval(), 5_000_000_000);
}

#[test]
fn density_names_are_decoded() {
    assert_eq!(TrafficDensity::from_name("low"), Ok(TrafficDensity::Low));
    assert_eq!(TrafficDensity::from_name("medium"), Ok(TrafficDensity::Medium));
    assert_eq!(TrafficDensity::from_name("high"), Ok(TrafficDensity::High));
}

#[test]
fn unknown_density_is_refused() {
    for name in ["", "High", "hi", "highest", " low", "0", "none"] {
        assert_eq!(TrafficDensity::from_name(name), Err(SimError::InvalidConfiguration));
    }
}

#[test]
fn spawn_timer_follows_the_density() {
    for (density, seconds) in
        [(TrafficDensity::Low, 15), (TrafficDensity::Medium, 10), (TrafficDensity::High, 5)]
    {
        let plugin = TrafficPlugin::from_density(density);
        assert_eq!(plugin.density(), density);
        let timer = plugin.create_spawn_timer();
        assert_eq!(timer.duration(), seconds * NANOS_PER_SECOND);
        assert_eq!(timer.elapsed(), 0);
        assert_eq!(timer.mode(), TimerMode::Once);
        assert!(!timer.finished());
    }
}

#[test]
fn fresh_config_has_two_running_one_shot_timers() {
    let config = TrafficPlugin::from_density(TrafficDensity::Medium).build();
    assert_eq!(config.density(), TrafficDensity::Medium);
    assert_eq!(config.spawn_timer().duration(), 10_000_000_000);
    assert_eq!(config.update_timer().duration(), 1_000_000_000);
    for timer in [config.spawn_timer(), config.update_timer()] {
        assert_eq!(timer.mode(), TimerMode::Once);
        assert_eq!(timer.elapsed(), 0);
        assert!(!timer.finished());
    }
}

#[test]
fn spawn_av_keeps_every_attribute() {
    let av = TrafficPlugin::spawn_av(
        "AB12".to_string(),
        99_000,
        450,
        271,
        "YYZ".to_string(),
        -5,
        6,
    );
    assert_eq!(
        av,
        AerialVehicle {
            name: "AB12".to_string(),
            altitude: 99_000,
            speed: 450,
            heading: 271,
            target: "YYZ".to_string(),
            position: Point { x: -5, y: 6 },
        }
    );
}

#[test]
fn target_is_the_picked_airport() {
    let airports = vec![
        AirportPlugin::spawn_airport(0, 0, "YYZ"),
        AirportPlugin::spawn_airport(1, 1, "LAX"),
    ];
    assert_eq!(TrafficPlugin::choose_target(&airports, 0), "YYZ");
    assert_eq!(TrafficPlugin::choose_target(&airports, 1), "LAX");
    assert_eq!(TrafficPlugin::choose_target(&airports, 2), "DXB");
    assert_eq!(TrafficPlugin::choose_target(&Vec::new(), 0), "DXB");
}

#[test]
fn update_waits_for_the_update_timer() {
    let mut config = high_density();
    let mut vehicles = vec![vehicle(300, 0, 0, 0), vehicle(300, 90, 0, 0)];
    AerialVehicle::update_position(&mut vehicles, 500_000_000, &mut config);
    assert_eq!(vehicles[0].position, Point { x: 0, y: 0 });
    assert_eq!(vehicles[1].position, Point { x: 0, y: 0 });
    assert_eq!(config.update_timer().elapsed(), 500_000_000);
    AerialVehicle::update_position(&mut vehicles, 499_999_999, &mut config);
    assert_eq!(vehicles[0].position, Point { x: 0, y: 0 });
    AerialVehicle::update_position(&mut vehicles, 1, &mut config);
    assert_eq!(vehicles[0].position, Point { x: 10_000, y: 0 });
    assert_eq!(vehicles[1].position, Point { x: 0, y: 10_000 });
    assert_eq!(config.update_timer().elapsed(), 0);
    assert!(!config.update_timer().finished());
}

#[test]
fn update_accounts_for_all_the_time_since_the_last() {
    let mut config = high_density();
    let mut vehicles = vec![vehicle(300, 0, 0, 0)];
    AerialVehicle::update_position(&mut vehicles, 2_500_000_000, &mut config);
    assert_eq!(vehicles[0].position, Point { x: 25_000, y: 0 });
    assert_eq!(config.update_timer().elapsed(), 0);
    AerialVehicle::update_position(&mut vehicles, 400_000_000, &mut config);
    assert_eq!(vehicles[0].position, Point { x: 25_000, y: 0 });
    AerialVehicle::update_position(&mut vehicles, 2_600_000_000, &mut config);
    assert_eq!(vehicles[0].position, Point { x: 55_000, y: 0 });
}

#[test]
fn update_moves_each_vehicle_by_its_own_speed_and_heading() {
    let mut config = high_density();
    let mut vehicles =
        vec![vehicle(300, 0, 0, 0), vehicle(200, 90, 1, 1), vehicle(500, 210, 0, 0)];
    AerialVehicle::update_position(&mut vehicles, 3 * NANOS_PER_SECOND, &mut config);
    assert_eq!(vehicles[0].position, Point { x: 30_000, y: 0 });
    assert_eq!(vehicles[1].position, Point { x: 1, y: 20_001 });
    assert_eq!(vehicles[2].position, Point { x: -43_301, y: -25_000 });
}

#[test]
fn update_holds_the_longest_frame() {
    let mut config = high_density();
    let mut vehicles = vec![vehicle(300, 0, 0, 0)];
    AerialVehicle::update_position(&mut vehicles, 999_999_999, &mut config);
    AerialVehicle::update_position(&mut vehicles, u64::MAX, &mut config);
    assert_eq!(vehicles[0].position, Point { x: 184_467_440_737_095, y: 0 });
    assert_eq!(config.update_timer().elapsed(), 0);
}

#[test]
fn update_with_no_time_moves_nothing() {
    let mut config = high_density();
    let mut vehicles = vec![vehicle(300, 0, 5, 5), vehicle(500, 123, -5, -5)];
    let before = vehicles.clone();
    AerialVehicle::update_position(&mut vehicles, 0, &mut config);
    assert_eq!(vehicles, before);
    AerialVehicle::update_position(&mut vehicles, 999_999_999, &mut config);
    AerialVehicle::update_position(&mut vehicles, 0, &mut config);
    AerialVehicle::update_position(&mut vehicles, 0, &mut config);
    assert_eq!(vehicles, before);
    assert_eq!(config.update_timer().elapsed(), 999_999_999);
}

#[test]
fn update_leaves_the_spawn_timer_alone() {
    let mut config = high_density();
    let mut vehicles: Vec<AerialVehicle> = Vec::new();
    AerialVehicle::update_position(&mut vehicles, 7 * NANOS_PER_SECOND, &mut config);
    assert!(vehicles.is_empty());
    assert_eq!(config.spawn_timer().elapsed(), 0);
    assert_eq!(config.density(), TrafficDensity::High);
}

#[test]
fn spawner_fires_once_when_five_seconds_have_passed() {
    let plane = reference_plane();
    let airports = AirportPlugin::create_single_fixed();
    let mut config = high_density();
    let mut rng = Generator::from_seed(1);
    let mut spawned = 0;
    for frame in 0..5 {
        let made = TrafficPlugin::traffic_spawner(
            &mut config,
            NANOS_PER_SECOND,
            &mut rng,
            &airports,
            &plane,
        );
        assert_eq!(made.is_some(), frame == 4);
        spawned += made.is_some() as u32;
    }
    assert_eq!(spawned, 1);
    assert_eq!(config.spawn_timer().elapsed(), 0);
    assert!(!config.spawn_timer().finished());
}

#[test]
fn spawner_fires_once_on_uneven_frames() {
    let plane = reference_plane();
    let airports = AirportPlugin::create_single_fixed();
    let mut config = high_density();
    let mut rng = Generator::from_seed(1);
    let frames = [16_666_667u64, 2_000_000_000, 983_333_333, 1_999_999_999, 1];
    assert_eq!(frames.iter().sum::<u64>(), 5_000_000_000);
    let mut spawned = 0;
    for delta in frames {
        let made = TrafficPlugin::traffic_spawner(&mut config, delta, &mut rng, &airports, &plane);
        spawned += made.is_some() as u32;
    }
    assert_eq!(spawned, 1);
}

#[test]
fn spawner_fires_once_for_a_long_frame() {
    let plane = reference_plane();
    let airports = AirportPlugin::create_single_fixed();
    let mut config = high_density();
    let mut rng = Generator::from_seed(1);
    let made = TrafficPlugin::traffic_spawner(
        &mut config,
        12 * NANOS_PER_SECOND,
        &mut rng,
        &airports,
        &plane,
    );
    assert!(made.is_some());
    assert_eq!(config.spawn_timer().elapsed(), 0);
    let next = TrafficPlugin::traffic_spawner(
        &mut config,
        4_999_999_999,
        &mut rng,
        &airports,
        &plane,
    );
    assert!(next.is_none());
    assert_eq!(config.spawn_timer().elapsed(), 4_999_999_999);
    let next = TrafficPlugin::traffic_spawner(&mut config, 1, &mut rng, &airports, &plane);
    assert!(next.is_some());
}

#[test]
fn spawner_follows_the_density() {
    let plane = reference_plane();
    let airports = AirportPlugin::create_single_fixed();
    for (density, seconds) in
        [(TrafficDensity::Low, 15u64), (TrafficDensity::Medium, 10), (TrafficDensity::High, 5)]
    {
        let mut config = TrafficPlugin::from_density(density).build();
        let mut rng = Generator::from_seed(1);
        let early = TrafficPlugin::traffic_spawner(
            &mut config,
            seconds * NANOS_PER_SECOND - 1,
            &mut rng,
            &airports,
            &plane,
        );
        assert!(early.is_none());
        let due = TrafficPlugin::traffic_spawner(&mut config, 1, &mut rng, &airports, &plane);
        assert!(due.is_some());
    }
}

#[test]
fn idle_spawner_draws_nothing() {
    let plane = reference_plane();
    let airports = AirportPlugin::create_single_fixed();
    let mut config = high_density();
    let mut rng = Generator::from_seed(3);
    let mut untouched = Generator::from_seed(3);
    for _ in 0..4 {
        let made = TrafficPlugin::traffic_spawner(
            &mut config,
            NANOS_PER_SECOND,
            &mut rng,
            &airports,
            &plane,
        );
        assert_eq!(made, None);
    }
    assert_eq!(rng.sample(0, 1 << 40), untouched.sample(0, 1 << 40));
}

#[test]
fn spawned_vehicles_have_attributes_in_range() {
    let plane = reference_plane();
    let mut rng = Generator::from_seed(5);
    let airports = AirportPlugin::create_three_random(&mut rng, &plane).unwrap();
    let names: Vec<&String> = airports.iter().map(|a| &a.name).collect();
    let mut config = high_density();
    let mut targets = std::collections::BTreeSet::new();
    for _ in 0..300 {
        let av = TrafficPlugin::traffic_spawner(
            &mut config,
            5 * NANOS_PER_SECOND,
            &mut rng,
            &airports,
            &plane,
        )
        .unwrap();
        let letters: Vec<char> = av.name.chars().take(2).collect();
        assert!(letters.len() == 2 && letters.iter().all(|c| c.is_ascii_uppercase()));
        let number: u32 = av.name[2..].parse().unwrap();
        assert!((1..=999).contains(&number));
        assert_eq!(av.name, format!("{}{}{}", letters[0], letters[1], number));
        assert!((40_000..=100_000).contains(&av.altitude));
        assert!((200..=500).contains(&av.speed));
        assert!(av.heading <= 360);
        assert!(names.contains(&&av.target));
        assert!(-600_000 <= av.position.x && av.position.x < 600_000);
        assert!(-360_000 <= av.position.y && av.position.y < 360_000);
        targets.insert(av.target.clone());
    }
    assert_eq!(targets.len(), 3);
}

#[test]
fn spawner_draws_in_a_fixed_order() {
    let plane = reference_plane();
    let airports: Vec<Airport> = vec![
        AirportPlugin::spawn_airport(0, 0, "YYZ"),
        AirportPlugin::spawn_airport(0, 0, "LAX"),
    ];
    let mut config = high_density();
    let mut rng = Generator::from_seed(99);
    let mut same = Generator::from_seed(99);
    let av = TrafficPlugin::traffic_spawner(
        &mut config,
        5 * NANOS_PER_SECOND,
        &mut rng,
        &airports,
        &plane,
    )
    .unwrap();
    let first = same.sample(65, 90).unwrap() as u8 as char;
    let second = same.sample(65, 90).unwrap() as u8 as char;
    let number = same.sample(1, 999).unwrap() as u16;
    let altitude = same.sample(40_000, 100_000).unwrap() as u32;
    let speed = same.sample(200, 500).unwrap() as u32;
    let heading = same.sample(0, 360).unwrap() as u16;
    let pick = same.sample(0, 1).unwrap() as usize;
    let position = plane.sample_point(&mut same);
    assert_eq!(
        av,
        AerialVehicle {
            name: AerialVehicle::callsign(first, second, number),
            altitude,
            speed,
            heading,
            target: airports[pick].name.clone(),
            position,
        }
    );
    assert_eq!(rng.sample(0, 1 << 40), same.sample(0, 1 << 40));
}

#[test]
fn without_airports_the_target_is_dxb() {
    let plane = reference_plane();
    let mut config = high_density();
    let mut rng = Generator::from_seed(99);
    let mut same = Generator::from_seed(99);
    let av = TrafficPlugin::traffic_spawner(
        &mut config,
        5 * NANOS_PER_SECOND,
        &mut rng,
        &Vec::new(),
        &plane,
    )
    .unwrap();
    assert_eq!(av.target, "DXB");
    for (low, high) in [(65, 90), (65, 90), (1, 999), (40_000, 100_000), (200, 500), (0, 360)] {
        same.sample(low, high);
    }
    assert_eq!(av.position, plane.sample_point(&mut same));
}
