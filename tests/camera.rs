use freecam::camera::{CameraMatrix, CameraPosition, ONE_BITS, SIGN_BIT};

#[test]
fn identity_forward_points_down_negative_z() {
    let m = CameraMatrix::new();
    let f = m.get_forward();
    assert_eq!(f32::from_bits(f.x), 0.0);
    assert_eq!(f32::from_bits(f.y), 0.0);
    assert_eq!(f32::from_bits(f.z), -1.0);
    assert_eq!(f.z, ONE_BITS | SIGN_BIT);
}

#[test]
fn identity_has_unit_diagonal() {
    let m = CameraMatrix::new();
    for i in 0..16 {
        let expected = if i % 5 == 0 { 1.0 } else { 0.0 };
        assert_eq!(f32::from_bits(m.data[i]), expected);
    }
}

#[test]
fn position_round_trips() {
    let mut m = CameraMatrix::new();
    m.data[0] = 0.25f32.to_bits();
    m.data[9] = (-0.5f32).to_bits();
    let rotation = m.data;
    let pos = CameraPosition::new(12.5f32.to_bits(), (-3.0f32).to_bits(), 1e6f32.to_bits());
    m.set_position(&pos);
    assert_eq!(m.get_position(), pos);
    for i in 0..16 {
        if !(12..15).contains(&i) {
            assert_eq!(m.data[i], rotation[i]);
        }
    }
}

#[test]
fn forward_negates_backward_row() {
    let mut m = CameraMatrix::new();
    m.data[8] = 0.6f32.to_bits();
    m.data[9] = (-0.8f32).to_bits();
    m.data[10] = 0.0f32.to_bits();
    let f = m.get_forward();
    assert_eq!(f32::from_bits(f.x), -0.6);
    assert_eq!(f32::from_bits(f.y), 0.8);
    assert_eq!(f.z, (-0.0f32).to_bits());
}
