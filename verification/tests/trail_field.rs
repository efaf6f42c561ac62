use slime_moulds::parameters::ConstructionError;
use slime_moulds::trail_field::{
    FieldAccess, FieldHandle, TrailField, CELL_BYTES, CHANNEL_BITS, FIELD_CHANNELS,
};

#[test]
fn cell_is_four_channels_of_eight_bits() {
    assert_eq!(FIELD_CHANNELS, 4);
    assert_eq!(CHANNEL_BITS, 8);
    assert_eq!(CELL_BYTES, 4);
    assert_eq!((FIELD_CHANNELS * CHANNEL_BITS) as u64, CELL_BYTES * 8);
}

#[test]
fn field_keeps_its_dimensions() {
    let field = TrailField::new(1920, 1080).unwrap();
    assert_eq!(field.extent(), [1920, 1080]);
    assert_eq!(field.cell_count(), 2_073_600);
}

#[test]
fn smallest_field_has_one_cell() {
    let field = TrailField::new(1, 1).unwrap();
    assert_eq!(field.extent(), [1, 1]);
    assert_eq!(field.cell_count(), 1);
}

#[test]
fn largest_field_is_measured_without_overflow() {
    let field = TrailField::new(i32::MAX, i32::MAX).unwrap();
    assert_eq!(field.cell_count(), 4_611_686_014_132_420_609);
}

#[test]
fn field_refuses_a_negative_dimension() {
    assert_eq!(TrailField::new(-1, 10).unwrap_err(), ConstructionError::NegativeDimension);
    assert_eq!(TrailField::new(10, -1).unwrap_err(), ConstructionError::NegativeDimension);
    assert_eq!(TrailField::new(0, -1).unwrap_err(), ConstructionError::NegativeDimension);
    assert_eq!(
        TrailField::new(i32::MIN, i32::MIN).unwrap_err(),
        ConstructionError::NegativeDimension
    );
}

#[test]
fn field_refuses_an_empty_dimension() {
    assert_eq!(TrailField::new(0, 10).unwrap_err(), ConstructionError::EmptyDimension);
    assert_eq!(TrailField::new(10, 0).unwrap_err(), ConstructionError::EmptyDimension);
    assert_eq!(TrailField::new(0, 0).unwrap_err(), ConstructionError::EmptyDimension);
}

#[test]
fn compute_binds_the_field_to_read_and_write() {
    let field = TrailField::new(640, 480).unwrap();
    assert_eq!(
        field.bind_for_compute(),
        FieldHandle { width: 640, height: 480, access: FieldAccess::ReadWrite }
    );
}

#[test]
fn presentation_binds_the_field_read_only() {
    let field = TrailField::new(640, 480).unwrap();
    assert_eq!(
        field.bind_for_sample(),
        FieldHandle { width: 640, height: 480, access: FieldAccess::ReadOnly }
    );
}
