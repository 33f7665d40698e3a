use carla_provider::sensor::SensorState;

#[test]
fn sensor_reads_zero_before_any_write() {
    let s = SensorState::new((0.0f64, 0.0f64, 0.0f64));
    assert_eq!(s.read(), (0.0, 0.0, 0.0));
}

#[test]
fn sensor_read_after_write_is_exact() {
    let mut s = SensorState::new((0.0f64, 0.0f64, 0.0f64));
    s.write((1.0, 2.0, 3.0));
    assert_eq!(s.read(), (1.0, 2.0, 3.0));
}

#[test]
fn sensor_last_write_wins() {
    let mut s = SensorState::new((0.0f64, 0.0f64, 0.0f64));
    s.write((1.0, 2.0, 3.0));
    s.write((4.0, 5.0, 6.0));
    assert_eq!(s.read(), (4.0, 5.0, 6.0));
}

#[test]
fn sensor_drops_malformed_reading() {
    let mut s = SensorState::new((0.0f64, 0.0f64, 0.0f64));
    s.on_reading(Some((48.1, 11.5, 520.0)));
    s.on_reading(None);
    assert_eq!(s.read(), (48.1, 11.5, 520.0));
}
