use charge_control::{calc_behaviour, ChargeBehaviour, HIGH_THRESHOLD, LOW_THRESHOLD};

const ALL: [ChargeBehaviour; 3] = [
    ChargeBehaviour::Auto,
    ChargeBehaviour::ForceDischarge,
    ChargeBehaviour::InhibitCharge,
];

#[test]
fn calculate_from_force_discharge_behaviour() {
    assert_eq!(
        ChargeBehaviour::ForceDischarge,
        calc_behaviour(HIGH_THRESHOLD + 1, &ChargeBehaviour::ForceDischarge)
    );
    assert_eq!(
        ChargeBehaviour::InhibitCharge,
        calc_behaviour(HIGH_THRESHOLD, &ChargeBehaviour::ForceDischarge)
    );
    assert_eq!(
        ChargeBehaviour::InhibitCharge,
        calc_behaviour(HIGH_THRESHOLD - 1, &ChargeBehaviour::ForceDischarge)
    );
    assert_eq!(
        ChargeBehaviour::InhibitCharge,
        calc_behaviour(LOW_THRESHOLD + 1, &ChargeBehaviour::ForceDischarge)
    );
    assert_eq!(
        ChargeBehaviour::InhibitCharge,
        calc_behaviour(LOW_THRESHOLD, &ChargeBehaviour::ForceDischarge)
    );
    assert_eq!(
        ChargeBehaviour::Auto,
        calc_behaviour(LOW_THRESHOLD - 1, &ChargeBehaviour::ForceDischarge)
    );
}

#[test]
fn calculate_from_inhibit_behaviour() {
    assert_eq!(
        ChargeBehaviour::ForceDischarge,
        calc_behaviour(HIGH_THRESHOLD + 1, &ChargeBehaviour::InhibitCharge)
    );
    assert_eq!(
        ChargeBehaviour::InhibitCharge,
        calc_behaviour(HIGH_THRESHOLD, &ChargeBehaviour::InhibitCharge)
    );
    assert_eq!(
        ChargeBehaviour::InhibitCharge,
        calc_behaviour(HIGH_THRESHOLD - 1, &ChargeBehaviour::InhibitCharge)
    );
    assert_eq!(
        ChargeBehaviour::InhibitCharge,
        calc_behaviour(LOW_THRESHOLD + 1, &ChargeBehaviour::InhibitCharge)
    );
    assert_eq!(
        ChargeBehaviour::InhibitCharge,
        calc_behaviour(LOW_THRESHOLD, &ChargeBehaviour::InhibitCharge)
    );
    assert_eq!(
        ChargeBehaviour::Auto,
        calc_behaviour(LOW_THRESHOLD - 1, &ChargeBehaviour::InhibitCharge)
    );
}

#[test]
fn calculate_from_auto_behaviour() {
    assert_eq!(
        ChargeBehaviour::ForceDischarge,
        calc_behaviour(HIGH_THRESHOLD + 1, &ChargeBehaviour::Auto)
    );
    assert_eq!(
        ChargeBehaviour::InhibitCharge,
        calc_behaviour(HIGH_THRESHOLD, &ChargeBehaviour::Auto)
    );
    assert_eq!(
        ChargeBehaviour::Auto,
        calc_behaviour(HIGH_THRESHOLD - 1, &ChargeBehaviour::Auto)
    );
    assert_eq!(
        ChargeBehaviour::Auto,
        calc_behaviour(LOW_THRESHOLD + 1, &ChargeBehaviour::Auto)
    );
    assert_eq!(
        ChargeBehaviour::Auto,
        calc_behaviour(LOW_THRESHOLD, &ChargeBehaviour::Auto)
    );
    assert_eq!(
        ChargeBehaviour::Auto,
        calc_behaviour(LOW_THRESHOLD - 1, &ChargeBehaviour::Auto)
    );
}

#[test]
fn thresholds_are_seventy_and_eighty() {
    assert_eq!(70, LOW_THRESHOLD);
    assert_eq!(80, HIGH_THRESHOLD);
}

#[test]
fn above_high_always_discharges() {
    for cap in 81..=i8::MAX {
        for current in ALL {
            assert_eq!(ChargeBehaviour::ForceDischarge, calc_behaviour(cap, &current));
        }
    }
}

#[test]
fn below_low_always_charges() {
    for cap in i8::MIN..70 {
        for current in ALL {
            assert_eq!(ChargeBehaviour::Auto, calc_behaviour(cap, &current));
        }
    }
}

#[test]
fn auto_in_band_stays_auto_until_high() {
    for cap in 70..80 {
        assert_eq!(ChargeBehaviour::Auto, calc_behaviour(cap, &ChargeBehaviour::Auto));
    }
    assert_eq!(
        ChargeBehaviour::InhibitCharge,
        calc_behaviour(80, &ChargeBehaviour::Auto)
    );
}

#[test]
fn discharge_in_band_turns_to_inhibit() {
    for cap in 70..=80 {
        assert_eq!(
            ChargeBehaviour::InhibitCharge,
            calc_behaviour(cap, &ChargeBehaviour::ForceDischarge)
        );
    }
}

#[test]
fn inhibit_in_band_stays_inhibit() {
    for cap in 70..=80 {
        assert_eq!(
            ChargeBehaviour::InhibitCharge,
            calc_behaviour(cap, &ChargeBehaviour::InhibitCharge)
        );
    }
}

#[test]
fn scenarios_from_the_decision_table() {
    let table = [
        (81, ChargeBehaviour::ForceDischarge, ChargeBehaviour::ForceDischarge),
        (80, ChargeBehaviour::ForceDischarge, ChargeBehaviour::InhibitCharge),
        (79, ChargeBehaviour::ForceDischarge, ChargeBehaviour::InhibitCharge),
        (71, ChargeBehaviour::ForceDischarge, ChargeBehaviour::InhibitCharge),
        (70, ChargeBehaviour::ForceDischarge, ChargeBehaviour::InhibitCharge),
        (69, ChargeBehaviour::ForceDischarge, ChargeBehaviour::Auto),
        (79, ChargeBehaviour::Auto, ChargeBehaviour::Auto),
        (80, ChargeBehaviour::Auto, ChargeBehaviour::InhibitCharge),
        (71, ChargeBehaviour::InhibitCharge, ChargeBehaviour::InhibitCharge),
        (69, ChargeBehaviour::InhibitCharge, ChargeBehaviour::Auto),
    ];
    for (cap, current, expected) in table {
        assert_eq!(expected, calc_behaviour(cap, &current), "at {cap} from {current:?}");
    }
}

#[test]
fn readings_that_are_no_percentage_are_decided_too() {
    for current in ALL {
        assert_eq!(ChargeBehaviour::Auto, calc_behaviour(-1, &current));
        assert_eq!(ChargeBehaviour::Auto, calc_behaviour(i8::MIN, &current));
        assert_eq!(ChargeBehaviour::ForceDischarge, calc_behaviour(101, &current));
        assert_eq!(ChargeBehaviour::ForceDischarge, calc_behaviour(i8::MAX, &current));
    }
}

#[test]
fn a_second_decision_on_the_same_reading_changes_nothing() {
    for cap in i8::MIN..=i8::MAX {
        for current in ALL {
            let once = calc_behaviour(cap, &current);
            assert_eq!(once, calc_behaviour(cap, &once));
        }
    }
}
