use wsprobe::arrival::ArrivalRecord;

#[test]
fn first_delay_is_taken_from_the_start() {
    let mut record = ArrivalRecord::starting_at(1_000);
    assert_eq!(record.last_nanos(), 1_000);
    assert_eq!(record.observe(1_250), 250);
    assert_eq!(record.last_nanos(), 1_250);
}

#[test]
fn every_arrival_moves_the_record() {
    let mut record = ArrivalRecord::starting_at(0);
    assert_eq!(record.observe(200_000_000), 200_000_000);
    assert_eq!(record.observe(500_000_000), 300_000_000);
    assert_eq!(record.observe(500_000_000), 0);
    assert_eq!(record.last_nanos(), 500_000_000);
}

#[test]
fn a_clock_that_steps_back_gives_zero() {
    let mut record = ArrivalRecord::starting_at(900);
    assert_eq!(record.observe(400), 0);
    assert_eq!(record.last_nanos(), 400);
    assert_eq!(record.observe(1_000), 600);
}

#[test]
fn the_whole_range_of_the_clock() {
    let mut record = ArrivalRecord::starting_at(0);
    assert_eq!(record.observe(u64::MAX), u64::MAX);
    assert_eq!(record.observe(0), 0);
}
