use flake::{IdError, IdGenerator};
use std::time::UNIX_EPOCH;

#[test]
fn message_names_the_datacenter_id() {
    let error = IdError::InvalidDatacenterId(32);
    assert_eq!(error.message(), "datacenter id must fit within 5 bits, got 32");
}

#[test]
fn message_names_the_machine_id() {
    let error = IdError::InvalidMachineId(32);
    assert_eq!(error.message(), "machine id must fit within 5 bits, got 32");
}

#[test]
fn message_of_a_refused_construction() {
    match IdGenerator::new(UNIX_EPOCH, 1234567, 0) {
        Err(error) => assert_eq!(
            error.message(),
            "datacenter id must fit within 5 bits, got 1234567"
        ),
        Ok(_) => panic!("a datacenter id of 1234567 was accepted"),
    }
    match IdGenerator::new(UNIX_EPOCH, -1, 0) {
        Err(error) => assert_eq!(error.message(), "datacenter id must fit within 5 bits, got -1"),
        Ok(_) => panic!("a datacenter id of -1 was accepted"),
    }
    match IdGenerator::new(UNIX_EPOCH, 0, -7) {
        Err(error) => assert_eq!(error.message(), "machine id must fit within 5 bits, got -7"),
        Ok(_) => panic!("a machine id of -7 was accepted"),
    }
    match IdGenerator::new(UNIX_EPOCH, 0, 100) {
        Err(error) => assert_eq!(error.message(), "machine id must fit within 5 bits, got 100"),
        Ok(_) => panic!("a machine id of 100 was accepted"),
    }
}

#[test]
fn message_writes_any_value_as_std_does() {
    for &value in [0, 1, 9, 10, 11, 99, 100, 101, 4096, 1000000, i32::MAX, -1, -9, -10, -32, i32::MIN + 1, i32::MIN].iter() {
        assert_eq!(
            IdError::InvalidDatacenterId(value).message(),
            format!("datacenter id must fit within 5 bits, got {}", value)
        );
        assert_eq!(
            IdError::InvalidMachineId(value).message(),
            format!("machine id must fit within 5 bits, got {}", value)
        );
    }
    assert_eq!(
        IdError::InvalidMachineId(i32::MAX).message(),
        "machine id must fit within 5 bits, got 2147483647"
    );
    assert_eq!(
        IdError::InvalidMachineId(i32::MIN).message(),
        "machine id must fit within 5 bits, got -2147483648"
    );
    assert_eq!(
        IdError::InvalidDatacenterId(-5).message(),
        "datacenter id must fit within 5 bits, got -5"
    );
}

#[test]
fn error_clones_and_prints() {
    let error = IdError::InvalidDatacenterId(40);
    let copy = error.clone();
    assert!(matches!(copy, IdError::InvalidDatacenterId(40)));
    assert_eq!(copy.message(), error.message());
    assert_eq!(format!("{:?}", error), "InvalidDatacenterId(40)");
    assert_eq!(format!("{:?}", IdError::InvalidMachineId(-3)), "InvalidMachineId(-3)");
}
