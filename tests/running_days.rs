use train_status::days::RunningDays;
use train_status::model::{InvalidBitmask, Train};

fn train(bits: u8) -> Train {
    Train {
        train_number: "12301".to_string(),
        train_name: "Rajdhani Express".to_string(),
        type_: "Rajdhani".to_string(),
        zone: "ER".to_string(),
        source_station_code: "HWH".to_string(),
        source_station_name: "Howrah Jn".to_string(),
        destination_station_code: "NDLS".to_string(),
        destination_station_name: "New Delhi".to_string(),
        running_days_bitmap: bits,
        running_days: String::new(),
        return_train_number: "12302".to_string(),
        travel_time_minutes: 1020,
        total_halts: 7,
        distance_km: 1451,
        avg_speed_kmph: 85,
    }
}

fn names(bits: u8) -> String {
    RunningDays::from_bits(bits).unwrap().as_names()
}

#[test]
fn empty_mask_decodes_to_empty_string() {
    assert_eq!(names(0), "");
}

#[test]
fn sunday_and_saturday_decode() {
    assert_eq!(names(0b100_0001), "Su Sa");
}

#[test]
fn monday_and_saturday_decode() {
    assert_eq!(names(0b100_0010), "Mo Sa");
}

#[test]
fn every_day_decodes_in_order() {
    assert_eq!(names(0b111_1111), "Su Mo Tu We Th Fr Sa");
}

#[test]
fn single_days_decode() {
    let labels = ["Su", "Mo", "Tu", "We", "Th", "Fr", "Sa"];
    for (day, label) in labels.iter().enumerate() {
        assert_eq!(names(1u8 << day), *label);
    }
}

#[test]
fn decoding_every_mask_is_deterministic() {
    for bits in 0u8..128 {
        let first = names(bits);
        let second = names(bits);
        assert_eq!(first, second);
        assert!(!first.ends_with(' '));
        assert!(!first.starts_with(' '));
        assert_eq!(first.is_empty(), bits == 0);
        assert_eq!(first.split(' ').filter(|s| !s.is_empty()).count(), bits.count_ones() as usize);
    }
}

#[test]
fn masks_above_saturday_are_rejected() {
    for bits in 128u8..=255 {
        assert!(RunningDays::from_bits(bits).is_none());
    }
    assert!(RunningDays::from_bits(127).is_some());
}

#[test]
fn contains_and_bits() {
    let d = RunningDays::from_bits(0b100_0010).unwrap();
    assert_eq!(d.bits(), 0b100_0010);
    assert!(d.contains(RunningDays::day(1)));
    assert!(d.contains(RunningDays::day(6)));
    assert!(!d.contains(RunningDays::day(0)));
}

#[test]
fn with_running_days_sets_display_string() {
    let t = train(0b100_0010).with_running_days().unwrap();
    assert_eq!(t.running_days, "Mo Sa");
    assert_eq!(t.running_days_bitmap, 0b100_0010);
    assert_eq!(t.train_number, "12301");
    assert_eq!(t.distance_km, 1451);
}

#[test]
fn with_running_days_rejects_high_bit() {
    let e = train(0b1000_0001).with_running_days().unwrap_err();
    assert_eq!(e, InvalidBitmask { bits: 0b1000_0001 });
}
