use signal_transforms::plan::DctError;
use signal_transforms::plan::Plan1d;
use signal_transforms::plan::Plan2d;

#[test]
fn plan1d_rejects_zero_size() {
    assert_eq!(Plan1d::new(0).err(), Some(DctError::ZeroSize));
}

#[test]
fn plan2d_rejects_zero_size() {
    assert_eq!(Plan2d::new(0, 4).err(), Some(DctError::ZeroSize));
    assert_eq!(Plan2d::new(4, 0).err(), Some(DctError::ZeroSize));
    assert_eq!(Plan2d::new(0, 0).err(), Some(DctError::ZeroSize));
}

#[test]
fn plan1d_size_four_tables() {
    let p = Plan1d::new(4).unwrap();
    assert_eq!(p.n, 4);
    assert_eq!(
        p.angles,
        vec![
            0, 1, 2, 3, //
            0, 3, 6, 9, //
            0, 5, 10, 15, //
            0, 7, 14, 21,
        ]
    );
    assert_eq!(
        p.angles_t,
        vec![
            0, 0, 0, 0, //
            1, 3, 5, 7, //
            2, 6, 10, 14, //
            3, 9, 15, 21,
        ]
    );
    assert_eq!(p.alpha, vec![1, 2, 2, 2]);
}

#[test]
fn plan1d_vector_check() {
    let p = Plan1d::new(8).unwrap();
    assert_eq!(p.check_vector(8), Ok(()));
    assert_eq!(p.check_vector(7), Err(DctError::DimMismatch));
    assert_eq!(p.check_vector(0), Err(DctError::DimMismatch));
}

#[test]
fn plan2d_non_square_tables() {
    let p = Plan2d::new(2, 3).unwrap();
    assert_eq!(p.rows, 2);
    assert_eq!(p.cols, 3);
    // The row pass transforms rows of length 3.
    assert_eq!(
        p.row_angles,
        vec![
            0, 1, 2, //
            0, 3, 6, //
            0, 5, 10,
        ]
    );
    assert_eq!(p.row_alpha, vec![1, 2, 2]);
    // The column pass transforms columns of length 2.
    assert_eq!(p.col_angles, vec![0, 1, 0, 3]);
    assert_eq!(p.col_angles_t, vec![0, 0, 1, 3]);
    assert_eq!(p.col_alpha, vec![1, 2]);
}

#[test]
fn plan2d_block_check() {
    let p = Plan2d::new(2, 3).unwrap();
    assert_eq!(p.check_block(2, 3), Ok(()));
    assert_eq!(p.check_block(3, 2), Err(DctError::DimMismatch));
    assert_eq!(p.check_block(2, 2), Err(DctError::DimMismatch));
    assert_eq!(p.check_block(0, 0), Err(DctError::DimMismatch));
}

#[test]
fn square_plan_shares_tables() {
    let p = Plan2d::new(4, 4).unwrap();
    assert_eq!(p.row_angles, p.col_angles);
    assert_eq!(p.row_angles_t, p.col_angles_t);
    assert_eq!(p.row_alpha, p.col_alpha);
}

#[test]
fn separable_passes_match_one_dimensional_plans() {
    let p2 = Plan2d::new(3, 5).unwrap();
    let rows = Plan1d::new(5).unwrap();
    let cols = Plan1d::new(3).unwrap();
    assert_eq!(p2.row_angles, rows.angles);
    assert_eq!(p2.row_angles_t, rows.angles_t);
    assert_eq!(p2.row_alpha, rows.alpha);
    assert_eq!(p2.col_angles, cols.angles);
    assert_eq!(p2.col_angles_t, cols.angles_t);
    assert_eq!(p2.col_alpha, cols.alpha);
}

#[test]
fn unit_size_plan_is_scaling() {
    let p = Plan1d::new(1).unwrap();
    assert_eq!(p.angles, vec![0]);
    assert_eq!(p.angles_t, vec![0]);
    assert_eq!(p.alpha, vec![1]);
}
