use flake::Flake;

const MAX_TIMESTAMP: u64 = (1 << 42) - 1;

fn unpacked(flake: &Flake) -> (u64, u64, u64, u64) {
    (
        flake.timestamp(),
        flake.datacenter_id(),
        flake.machine_id(),
        flake.sequence(),
    )
}

#[test]
fn concrete_example() {
    let flake = Flake::new(1, 1, 1, 0);
    assert_eq!(flake.0, (1 << 22) | (1 << 17) | (1 << 12) | 0);
    assert_eq!(flake.0, 4194304 + 131072 + 4096);
    assert_eq!(flake.0, 4329472);
    assert_eq!(unpacked(&flake), (1, 1, 1, 0));
}

#[test]
fn round_trip_of_the_smallest_and_largest_values() {
    assert_eq!(unpacked(&Flake::new(0, 0, 0, 0)), (0, 0, 0, 0));
    assert_eq!(Flake::new(0, 0, 0, 0).0, 0);
    assert_eq!(
        unpacked(&Flake::new(MAX_TIMESTAMP, 31, 31, 4095)),
        (MAX_TIMESTAMP, 31, 31, 4095)
    );
    assert_eq!(Flake::new(MAX_TIMESTAMP, 31, 31, 4095).0, u64::MAX);
}

#[test]
fn round_trip_over_a_grid_of_values() {
    let timestamps = [0, 1, 2, 4095, 4096, 1_700_000_000_000, MAX_TIMESTAMP - 1, MAX_TIMESTAMP];
    let ids = [0, 1, 15, 16, 30, 31];
    let sequences = [0, 1, 31, 32, 2047, 2048, 4094, 4095];
    for &timestamp in timestamps.iter() {
        for &datacenter_id in ids.iter() {
            for &machine_id in ids.iter() {
                for &sequence in sequences.iter() {
                    let flake = Flake::new(timestamp, datacenter_id, machine_id, sequence);
                    assert_eq!(
                        unpacked(&flake),
                        (timestamp, datacenter_id as u64, machine_id as u64, sequence as u64)
                    );
                    assert_eq!(
                        flake.0,
                        timestamp * 4194304
                            + datacenter_id as u64 * 131072
                            + machine_id as u64 * 4096
                            + sequence as u64
                    );
                }
            }
        }
    }
}

#[test]
fn each_field_has_its_own_bits() {
    assert_eq!(Flake::new(1, 0, 0, 0).0, 1 << 22);
    assert_eq!(Flake::new(0, 1, 0, 0).0, 1 << 17);
    assert_eq!(Flake::new(0, 0, 1, 0).0, 1 << 12);
    assert_eq!(Flake::new(0, 0, 0, 1).0, 1);
    assert_eq!(Flake::new(MAX_TIMESTAMP, 0, 0, 0).0, 0xFFFF_FFFF_FFC0_0000);
    assert_eq!(Flake::new(0, 31, 0, 0).0, 0x3E_0000);
    assert_eq!(Flake::new(0, 0, 31, 0).0, 0x1_F000);
    assert_eq!(Flake::new(0, 0, 0, 4095).0, 0xFFF);
}

#[test]
fn changing_the_timestamp_changes_no_other_field() {
    for &(datacenter_id, machine_id, sequence) in [(0, 0, 0), (31, 31, 4095), (5, 9, 77)].iter() {
        let low = Flake::new(0, datacenter_id, machine_id, sequence);
        let high = Flake::new(MAX_TIMESTAMP, datacenter_id, machine_id, sequence);
        assert_eq!(low.timestamp(), 0);
        assert_eq!(high.timestamp(), MAX_TIMESTAMP);
        assert_eq!(low.datacenter_id(), high.datacenter_id());
        assert_eq!(low.machine_id(), high.machine_id());
        assert_eq!(low.sequence(), high.sequence());
    }
}

#[test]
fn changing_the_datacenter_id_changes_no_other_field() {
    for &(timestamp, machine_id, sequence) in [(0, 0, 0), (MAX_TIMESTAMP, 31, 4095), (123456, 9, 77)].iter() {
        let low = Flake::new(timestamp, 0, machine_id, sequence);
        let high = Flake::new(timestamp, 31, machine_id, sequence);
        assert_eq!(low.datacenter_id(), 0);
        assert_eq!(high.datacenter_id(), 31);
        assert_eq!(low.timestamp(), high.timestamp());
        assert_eq!(low.machine_id(), high.machine_id());
        assert_eq!(low.sequence(), high.sequence());
    }
}

#[test]
fn changing_the_machine_id_changes_no_other_field() {
    for &(timestamp, datacenter_id, sequence) in [(0, 0, 0), (MAX_TIMESTAMP, 31, 4095), (123456, 9, 77)].iter() {
        let low = Flake::new(timestamp, datacenter_id, 0, sequence);
        let high = Flake::new(timestamp, datacenter_id, 31, sequence);
        assert_eq!(low.machine_id(), 0);
        assert_eq!(high.machine_id(), 31);
        assert_eq!(low.timestamp(), high.timestamp());
        assert_eq!(low.datacenter_id(), high.datacenter_id());
        assert_eq!(low.sequence(), high.sequence());
    }
}

#[test]
fn changing_the_sequence_changes_no_other_field() {
    for &(timestamp, datacenter_id, machine_id) in [(0, 0, 0), (MAX_TIMESTAMP, 31, 31), (123456, 9, 77 % 32)].iter() {
        let low = Flake::new(timestamp, datacenter_id, machine_id, 0);
        let high = Flake::new(timestamp, datacenter_id, machine_id, 4095);
        assert_eq!(low.sequence(), 0);
        assert_eq!(high.sequence(), 4095);
        assert_eq!(low.timestamp(), high.timestamp());
        assert_eq!(low.datacenter_id(), high.datacenter_id());
        assert_eq!(low.machine_id(), high.machine_id());
    }
}

#[test]
fn any_64_bits_decode() {
    let all = Flake(u64::MAX);
    assert_eq!(unpacked(&all), (MAX_TIMESTAMP, 31, 31, 4095));
    let none = Flake(0);
    assert_eq!(unpacked(&none), (0, 0, 0, 0));
    let some = Flake(0x0123_4567_89AB_CDEF);
    assert_eq!(some.timestamp(), 0x0123_4567_89AB_CDEF >> 22);
    assert_eq!(some.datacenter_id(), (0x0123_4567_89AB_CDEF >> 17) % 32);
    assert_eq!(some.machine_id(), (0x0123_4567_89AB_CDEF >> 12) % 32);
    assert_eq!(some.sequence(), 0xDEF);
    let again = Flake::new(
        some.timestamp(),
        some.datacenter_id() as i32,
        some.machine_id() as i32,
        some.sequence() as i32,
    );
    assert_eq!(again.0, some.0);
}

#[test]
fn flakes_order_by_timestamp_first() {
    let early = Flake::new(10, 31, 31, 4095);
    let late = Flake::new(11, 0, 0, 0);
    assert!(early.0 < late.0);
    let first = Flake::new(10, 3, 4, 7);
    let second = Flake::new(10, 3, 4, 8);
    assert!(first.0 < second.0);
}

#[test]
fn a_value_too_wide_spills_into_the_fields_above() {
    let sequence = Flake::new(0, 0, 0, 4096);
    assert_eq!(unpacked(&sequence), (0, 0, 1, 0));
    let machine = Flake::new(0, 0, 32, 0);
    assert_eq!(unpacked(&machine), (0, 1, 0, 0));
    let datacenter = Flake::new(0, 32, 0, 0);
    assert_eq!(unpacked(&datacenter), (1, 0, 0, 0));
    let negative = Flake::new(0, 0, 0, -1);
    assert_eq!(negative.0, u64::MAX);
    let negative_id = Flake::new(5, -1, 0, 3);
    assert_eq!(negative_id.0, 0xFFFF_FFFF_FFFE_0003);
}

#[test]
fn a_timestamp_too_wide_loses_its_top_bits() {
    let flake = Flake::new(1 << 42, 1, 2, 3);
    assert_eq!(unpacked(&flake), (0, 1, 2, 3));
    let flake = Flake::new(u64::MAX, 1, 2, 3);
    assert_eq!(unpacked(&flake), (MAX_TIMESTAMP, 1, 2, 3));
}

#[test]
fn flake_copies_and_prints() {
    let flake = Flake(255);
    let copy = flake;
    let clone = flake.clone();
    assert_eq!(copy.0, 255);
    assert_eq!(clone.0, 255);
    assert_eq!(format!("{:x?}", flake), "Flake(ff)");
    assert_eq!(format!("{:?}", flake), "Flake(255)");
}
