use schrodinger::{GridError, MatchGrid, Side};

#[test]
fn grid_too_few_steps() {
    assert_eq!(MatchGrid::new(3, 1), Err(GridError::TooFewSteps));
    assert_eq!(MatchGrid::new(0, 0), Err(GridError::TooFewSteps));
}

#[test]
fn grid_match_out_of_range() {
    assert_eq!(MatchGrid::new(10, 1), Err(GridError::MatchOutOfRange));
    assert_eq!(MatchGrid::new(10, 8), Err(GridError::MatchOutOfRange));
    assert_eq!(MatchGrid::new(4, 2), Err(GridError::MatchOutOfRange));
    assert_eq!(MatchGrid::new(10, 100), Err(GridError::MatchOutOfRange));
}

#[test]
fn grid_accepts_interior_match() {
    let g = MatchGrid::new(10, 4).unwrap();
    assert_eq!(g, MatchGrid { steps: 10, match_idx: 4 });
    assert_eq!(g.left_len(), 5);
    assert_eq!(g.right_len(), 6);
    assert_eq!(g.steps_from(Side::Left), 3);
    assert_eq!(g.steps_from(Side::Right), 4);
    assert_eq!(g.grid_index(Side::Left, 3), 3);
    assert_eq!(g.grid_index(Side::Right, 0), 9);
    assert_eq!(g.grid_index(Side::Right, 5), 4);
    assert!(MatchGrid::new(5, 2).is_ok());
    assert!(MatchGrid::new(10, 7).is_ok());
}

#[test]
fn join_keeps_positions() {
    let g = MatchGrid::new(7, 3).unwrap();
    let left = [0, 1, 2, 3];
    // grid indices 6, 5, 4, 3: the last one is the match point
    let right = [60, 50, 40, 33];
    assert_eq!(g.join_segments(&left, &right), vec![0, 1, 2, 3, 40, 50, 60]);
}

#[test]
fn join_at_match_uses_left_sample() {
    let g = MatchGrid::new(5, 2).unwrap();
    let joined = g.join_segments(&[1.0, 2.0, 3.0], &[5.0, 4.0, 3.5]);
    assert_eq!(joined, vec![1.0, 2.0, 3.0, 4.0, 5.0]);
    assert_eq!(joined.len(), 5);
}
