use climate_engine::anomaly::{anomaly_count, anomaly_draws, detect_anomalies, AnomalyKind};
use climate_engine::forecast::{
    classify_conditions, forecast_draws, forecast_hours, plan_forecast, Conditions,
};
use climate_engine::hash::{simple_hash_f64_bits, simple_hash_str};
use climate_engine::regions::regions;
use climate_engine::rng::{lcg_step, noise_bits, LCG_INCREMENT};
use climate_engine::simulation::{
    grid_point_count, layer_noise_bits, layer_sample_count, run_simulation, simulation_layers,
    LayerKind, Resolution,
};
use climate_engine::stats::Stats;

#[test]
fn fnv1a_known_vectors() {
    assert_eq!(simple_hash_str(""), 0xcbf2_9ce4_8422_2325);
    assert_eq!(simple_hash_str("a"), 0xaf63_dc4c_8601_ec8c);
    assert_eq!(simple_hash_str("foobar"), 0x8594_4171_f739_67e8);
    assert_eq!(simple_hash_str("temperature"), 0x5565_75c1_ce10_7955);
}

#[test]
fn float_bits_hash_values() {
    assert_eq!(simple_hash_f64_bits(0), 0x0832_8807_b4eb_6fed);
    assert_eq!(simple_hash_f64_bits(1.0f64.to_bits()), 0x92c2_885f_f5bb_6fed);
}

#[test]
fn generator_step_and_noise() {
    assert_eq!(lcg_step(0, LCG_INCREMENT), LCG_INCREMENT);
    assert_eq!(lcg_step(1, 1), 6364136223846793006);
    assert_eq!(lcg_step(u64::MAX, 0), 0u64.wrapping_sub(6364136223846793005));
    assert_eq!(noise_bits(0x1234_5678_9abc_def0), 0xdef0);
}

#[test]
fn resolution_names() {
    assert_eq!(Resolution::from_request(Some("low")), Resolution::Low);
    assert_eq!(Resolution::from_request(Some("medium")), Resolution::Medium);
    assert_eq!(Resolution::from_request(Some("high")), Resolution::High);
    assert_eq!(Resolution::from_request(Some("ultra")), Resolution::Ultra);
    assert_eq!(Resolution::from_request(Some("ULTRA")), Resolution::Medium);
    assert_eq!(Resolution::from_request(Some("")), Resolution::Medium);
    assert_eq!(Resolution::from_request(None), Resolution::Medium);
}

#[test]
fn resolution_steps_match_documented_degrees() {
    assert_eq!(Resolution::Low.grid_step_hundredths(), 50);
    assert_eq!(Resolution::Medium.grid_step_hundredths(), 10);
    assert_eq!(Resolution::High.grid_step_hundredths(), 5);
    assert_eq!(Resolution::Ultra.grid_step_hundredths(), 1);
    assert_eq!(Resolution::High.grid_step_hundredths() as f64 / 100.0, 0.05);
}

#[test]
fn layers_in_reporting_order() {
    let names: Vec<&str> = simulation_layers().iter().map(|k| k.name()).collect();
    assert_eq!(names, vec!["temperature", "pressure", "humidity", "wind_speed", "cloud_cover"]);
    assert_eq!(LayerKind::WindSpeed.range_tenths(), 30);
    assert_eq!(LayerKind::WindSpeed.sigma_tenths(), 15);
    assert_eq!(LayerKind::Pressure.default_base_hundredths(), 101325);
}

#[test]
fn sample_counts_are_capped() {
    assert_eq!(grid_point_count(3, 4), 12);
    assert_eq!(layer_sample_count(3, 4), 12);
    assert_eq!(layer_sample_count(0, 50), 0);
    assert_eq!(layer_sample_count(40, 25), 1000);
    assert_eq!(layer_sample_count(400, 400), 1000);
}

#[test]
fn layer_noise_values() {
    assert_eq!(layer_noise_bits("temperature", 1, 3), vec![64, 19599, 59250]);
    assert!(layer_noise_bits("temperature", 0, 7).is_empty());
    let big = layer_noise_bits("temperature", 100, 100);
    assert_eq!(big.len(), 1000);
    assert_eq!(&big[..3], &[64, 19599, 59250]);
    assert_eq!(big, layer_noise_bits("temperature", 2000, 1));
}

#[test]
fn simulation_run_shape() {
    let run = run_simulation(3, 4);
    assert_eq!(run.grid_points, 12);
    assert_eq!(run.layers.len(), 5);
    assert_eq!(run.layers[0].kind, LayerKind::Temperature);
    assert_eq!(run.layers[0].noise, layer_noise_bits("temperature", 3, 4));
    assert_eq!(run.layers[4].noise, layer_noise_bits("cloud_cover", 3, 4));
    let id: Vec<char> = run.simulation_id.chars().collect();
    assert_eq!(id.len(), 36);
    for (i, c) in id.iter().enumerate() {
        if i == 8 || i == 13 || i == 18 || i == 23 {
            assert_eq!(*c, '-');
        } else {
            assert!(c.is_ascii_hexdigit() && !c.is_ascii_uppercase());
        }
    }
    assert_eq!(id[14], '4');
    assert!(matches!(id[19], '8' | '9' | 'a' | 'b'));
    assert_ne!(run.simulation_id, run_simulation(3, 4).simulation_id);
}

#[test]
fn anomaly_counts_are_clamped() {
    assert_eq!(anomaly_count(0), 3);
    assert_eq!(anomaly_count(3), 3);
    assert_eq!(anomaly_count(8), 8);
    assert_eq!(anomaly_count(20), 20);
    assert_eq!(anomaly_count(21), 20);
    assert_eq!(anomaly_count(usize::MAX), 20);
}

#[test]
fn anomaly_kind_names_and_labels() {
    assert_eq!(AnomalyKind::from_index(0).name(), "heat_wave");
    assert_eq!(AnomalyKind::from_index(4).name(), "wind_shear");
    assert_eq!(AnomalyKind::HeatWave.label(), "heat wave");
    assert_eq!(AnomalyKind::PressureAnomaly.label(), "pressure anomaly");
    assert_eq!(AnomalyKind::HumiditySpike.name(), "humidity_spike");
    assert_eq!(AnomalyKind::ColdSnap.label(), "cold snap");
}

#[test]
fn anomaly_draw_values() {
    let origin = (-90.0f64 + -180.0f64).to_bits();
    let draws = detect_anomalies(origin, 8);
    assert_eq!(draws.len(), 8);
    assert_eq!(draws[0].kind, AnomalyKind::HeatWave);
    assert_eq!((draws[0].lat_bits, draws[0].lon_bits), (8440, 54169));
    assert_eq!(draws[1].kind, AnomalyKind::WindShear);
    assert_eq!((draws[1].lat_bits, draws[1].lon_bits), (39476, 59173));
    assert_eq!(draws[2].kind, AnomalyKind::ColdSnap);
    assert_eq!((draws[2].lat_bits, draws[2].lon_bits), (32208, 19857));
    assert_eq!(detect_anomalies(origin, 0).len(), 3);
    let seed = simple_hash_f64_bits(origin);
    assert_eq!(&anomaly_draws(seed, 20)[..8], &draws[..]);
}

#[test]
fn forecast_horizon_and_draws() {
    assert_eq!(forecast_hours(None), 24);
    assert_eq!(forecast_hours(Some(6)), 6);
    let bits = (35.6762f64 * 1000.0 + 139.6503).to_bits();
    let draws = plan_forecast(bits, Some(3));
    assert_eq!(draws.len(), 3);
    assert_eq!((draws[0].hour, draws[0].hour_of_day, draws[0].noise_bits), (1, 1, 7611));
    assert_eq!((draws[1].hour, draws[1].hour_of_day, draws[1].noise_bits), (2, 2, 65249));
    assert_eq!((draws[2].hour, draws[2].hour_of_day, draws[2].noise_bits), (3, 3, 27792));
    let day = plan_forecast(bits, None);
    assert_eq!(day.len(), 24);
    assert_eq!(&day[..3], &draws[..]);
    assert_eq!(day[23].hour, 24);
    assert_eq!(day[23].hour_of_day, 0);
    assert!(forecast_draws(7, 0).is_empty());
}

#[test]
fn conditions_classification() {
    assert_eq!(classify_conditions(true, true, true, true), Conditions::Snow);
    assert_eq!(classify_conditions(true, true, false, false), Conditions::Rain);
    assert_eq!(classify_conditions(false, true, true, true), Conditions::Cloudy);
    assert_eq!(classify_conditions(false, false, true, true), Conditions::PartlyCloudy);
    assert_eq!(classify_conditions(false, false, false, false), Conditions::Clear);
    assert_eq!(Conditions::PartlyCloudy.name(), "Partly Cloudy");
    assert_eq!(Conditions::Snow.name(), "Snow");
}

#[test]
fn region_catalogue() {
    let list = regions();
    let names: Vec<&str> = list.iter().map(|r| r.name.as_str()).collect();
    assert_eq!(
        names,
        vec![
            "Tokyo Metropolitan",
            "North Atlantic",
            "Sahara",
            "Amazon Basin",
            "Arctic Circle",
            "Southeast Asia"
        ]
    );
    assert_eq!(list[0].description, "Greater Tokyo Area, Japan");
    assert_eq!(
        (list[0].lat_min_tenths, list[0].lat_max_tenths, list[0].lon_min_tenths, list[0].lon_max_tenths),
        (355, 359, 1394, 1400)
    );
    assert_eq!((list[4].lon_min_tenths, list[4].lon_max_tenths), (-1800, 1800));
    for r in &list {
        assert!(r.lat_min_tenths < r.lat_max_tenths && r.lon_min_tenths < r.lon_max_tenths);
    }
}

#[test]
fn stats_counters() {
    let mut s = Stats::new();
    assert_eq!(s, Stats { total_queries: 0, total_simulations: 0, total_anomalies_detected: 0, total_forecasts: 0 });
    s.record_query();
    s.record_query();
    s.record_simulation();
    s.record_anomalies(8);
    s.record_anomalies(3);
    s.record_forecast();
    assert_eq!(s.total_queries, 2);
    assert_eq!(s.total_simulations, 1);
    assert_eq!(s.total_anomalies_detected, 11);
    assert_eq!(s.total_forecasts, 1);
}
