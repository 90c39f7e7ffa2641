use tutti_session::attenuation::compute_attenuation;
use tutti_session::components::AttenuationModel;

#[test]
fn inverse_distance_matches_formula() {
    // ref 1.0, distance 10.0, max 100.0: gain = 1/10.
    assert_eq!(
        compute_attenuation(10_000, AttenuationModel::InverseDistance, 1000, 100_000),
        100
    );
    // Inside the reference distance the gain is unity.
    assert_eq!(
        compute_attenuation(500, AttenuationModel::InverseDistance, 1000, 100_000),
        1000
    );
    // ref 2.0, distance 8.0: gain = 2/8 = 0.25.
    assert_eq!(
        compute_attenuation(8000, AttenuationModel::InverseDistance, 2000, 100_000),
        250
    );
}

#[test]
fn linear_matches_formula() {
    // distance 25.0 of max 100.0: gain = 1 - 0.25.
    assert_eq!(compute_attenuation(25_000, AttenuationModel::Linear, 1000, 100_000), 750);
    assert_eq!(compute_attenuation(0, AttenuationModel::Linear, 1000, 100_000), 1000);
}

#[test]
fn exponential_matches_formula() {
    // ref 1.0, distance 2.0: gain = (2)^-2 = 0.25.
    assert_eq!(compute_attenuation(2000, AttenuationModel::Exponential, 1000, 100_000), 250);
    // Inside the reference distance the clamp holds the gain at unity.
    assert_eq!(compute_attenuation(500, AttenuationModel::Exponential, 1000, 100_000), 1000);
    // A zero distance is clamped to unity as well.
    assert_eq!(compute_attenuation(0, AttenuationModel::Exponential, 1000, 100_000), 1000);
}

#[test]
fn gain_is_zero_at_and_beyond_max_distance() {
    for model in [
        AttenuationModel::InverseDistance,
        AttenuationModel::Linear,
        AttenuationModel::Exponential,
    ] {
        assert_eq!(compute_attenuation(100_000, model, 1000, 100_000), 0);
        assert_eq!(compute_attenuation(2_000_000, model, 1000, 100_000), 0);
    }
}

#[test]
fn gain_never_increases_with_distance() {
    for model in [
        AttenuationModel::InverseDistance,
        AttenuationModel::Linear,
        AttenuationModel::Exponential,
    ] {
        let mut previous = 1000u32;
        let mut d = 1000u32;
        while d <= 110_000 {
            let g = compute_attenuation(d, model, 1000, 100_000);
            assert!(g <= previous);
            previous = g;
            d += 1375;
        }
    }
}
