use space_program::hud::{grid_coordinate_text, right_aligned_decimal};

fn text(v: Vec<char>) -> String {
    v.into_iter().collect()
}

#[test]
fn grid_text_is_padded_to_fifteen() {
    assert_eq!(text(grid_coordinate_text(0)), "______________0");
    assert_eq!(text(grid_coordinate_text(42)), "_____________42");
    assert_eq!(text(grid_coordinate_text(-7)), "_____________-7");
    assert_eq!(text(grid_coordinate_text(123456789012345)), "123456789012345");
}

#[test]
fn long_numbers_are_not_cut() {
    assert_eq!(text(grid_coordinate_text(i64::MIN)), "-9223372036854775808");
    assert_eq!(text(grid_coordinate_text(i64::MAX)), "9223372036854775807");
}

#[test]
fn matches_std_formatting() {
    for v in [0i64, 1, -1, 9, 10, -10, 99, 100, 65535, -123456, 1_000_000_007] {
        assert_eq!(text(grid_coordinate_text(v)), format!("{:_>15}", v));
        assert_eq!(text(right_aligned_decimal(v, 0, '_')), format!("{}", v));
        assert_eq!(text(right_aligned_decimal(v, 8, ' ')), format!("{:>8}", v));
    }
}
