use vr_tracking::stereo::{
    array_to_matrix, extend_matrix_array, eye_for_target, stereo_target_info, Eye, TargetInfo,
};

#[test]
fn eye_mapping_left_right_and_invalid() {
    assert_eq!(eye_for_target(0), Some(Eye::Left));
    assert_eq!(eye_for_target(1), Some(Eye::Right));
    assert_eq!(eye_for_target(2), None);
    assert_eq!(eye_for_target(usize::MAX), None);
}

#[test]
fn extend_appends_homogeneous_row() {
    let m = [[1.0f32, 2.0, 3.0, 4.0], [5.0, 6.0, 7.0, 8.0], [9.0, 10.0, 11.0, 12.0]];
    let e = extend_matrix_array(m, 0.0f32, 1.0f32);
    assert_eq!(
        e,
        [
            [1.0, 2.0, 3.0, 4.0],
            [5.0, 6.0, 7.0, 8.0],
            [9.0, 10.0, 11.0, 12.0],
            [0.0, 0.0, 0.0, 1.0],
        ]
    );
}

#[test]
fn array_to_matrix_transposes() {
    let rows = [[0u32, 1, 2, 3], [10, 11, 12, 13], [20, 21, 22, 23], [30, 31, 32, 33]];
    let cols = array_to_matrix(rows);
    assert_eq!(
        cols,
        [[0, 10, 20, 30], [1, 11, 21, 31], [2, 12, 22, 32], [3, 13, 23, 33]]
    );
    assert_eq!(array_to_matrix(cols), rows);
}

#[test]
fn stereo_targets_left_first_with_shared_size() {
    let r = stereo_target_info((1512, 1680), "lv", "lp", "rv", "rp");
    assert_eq!(
        r,
        vec![
            TargetInfo { size: (1512, 1680), view_offset: "lv", projection: "lp" },
            TargetInfo { size: (1512, 1680), view_offset: "rv", projection: "rp" },
        ]
    );
}
