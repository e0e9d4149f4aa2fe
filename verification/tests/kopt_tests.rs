use std::time::Duration;
use std::time::Instant;

use kopt::common::Path;
use kopt::kopt::{
    dispatch_three, dispatch_two, escalation_step, k_opt, rand_index, reversed_copy, three_opt,
    two_opt,
};
use kopt::metrizable::Metrizable;
use kopt::point::Point;

fn square_tour() -> Path<Point> {
    Path {
        path: vec![
            Point::new(0, 0),
            Point::new(1, 1),
            Point::new(1, 0),
            Point::new(0, 1),
        ],
    }
}

fn optimal_square_tour() -> Path<Point> {
    Path {
        path: vec![
            Point::new(0, 0),
            Point::new(1, 0),
            Point::new(1, 1),
            Point::new(0, 1),
        ],
    }
}

fn node_pairs(path: &Path<Point>) -> Vec<(i32, i32)> {
    let mut nodes: Vec<(i32, i32)> = path.path.iter().map(|p| (p.x, p.y)).collect();
    nodes.sort();
    nodes
}

#[test]
fn test_two_opt() {
    let mut path = square_tour();
    let two_opt_path = optimal_square_tour();

    let result = two_opt(1, 3, &mut path);

    assert_ne!(None, result);
    assert_eq!(path, two_opt_path);
}

#[test]
fn manhattan_distance() {
    let p = Point::new(-2, 3);
    let q = Point::new(4, -1);
    assert_eq!(p.distance(&q), 10);
    assert_eq!(q.distance(&p), 10);
    assert_eq!(p.distance(&p), 0);
}

#[test]
fn path_len_cyclic_sum() {
    assert_eq!(square_tour().path_len(), 6);
    assert_eq!(optimal_square_tour().path_len(), 4);
    let empty: Path<Point> = Path { path: vec![] };
    assert_eq!(empty.path_len(), 0);
    let single = Path {
        path: vec![Point::new(3, 4)],
    };
    assert_eq!(single.path_len(), 0);
    let pair = Path {
        path: vec![Point::new(0, 0), Point::new(2, 3)],
    };
    assert_eq!(pair.path_len(), 10);
}

#[test]
fn two_opt_reports_exact_gain() {
    let mut path = square_tour();
    assert_eq!(path.path_len(), 6);
    let result = two_opt(1, 3, &mut path);
    assert_eq!(result, Some(2));
    assert_eq!(path.path_len(), 4);
}

#[test]
fn two_opt_rejects_without_mutation() {
    for i in 0..5 {
        for j in i..5 {
            let mut path = optimal_square_tour();
            let before = path.clone();
            let result = two_opt(i, j, &mut path);
            assert_eq!(result, None);
            assert_eq!(path, before);
        }
    }
}

#[test]
fn reversed_copy_is_self_inverse() {
    let v = vec![
        Point::new(0, 0),
        Point::new(2, 1),
        Point::new(5, 5),
        Point::new(3, 4),
        Point::new(1, 9),
    ];
    let once = reversed_copy(&v, 1, 4);
    assert_ne!(once, v);
    let twice = reversed_copy(&once, 1, 4);
    assert_eq!(twice, v);
}

#[test]
fn three_opt_reports_gain_without_restructuring() {
    let mut path = square_tour();
    let before = path.clone();
    let result = three_opt(0, 1, 2, &mut path);
    assert_eq!(result, Some(2));
    assert_eq!(path, before);
}

#[test]
fn three_opt_wraps_indices_cyclically() {
    let mut path = square_tour();
    let result = three_opt(4, 5, 6, &mut path);
    assert_eq!(result, Some(2));
    assert_eq!(path, square_tour());
}

#[test]
fn three_opt_none_when_no_cheaper_reconnection() {
    let mut path = optimal_square_tour();
    let before = path.clone();
    let result = three_opt(0, 1, 2, &mut path);
    assert_eq!(result, None);
    assert_eq!(path, before);
}

#[test]
fn dispatch_two_equal_indices_no_move() {
    let mut path = square_tour();
    let before = path.clone();
    let result = dispatch_two(2, 2, &mut path);
    assert_eq!(result, None);
    assert_eq!(path, before);
}

#[test]
fn dispatch_two_orders_the_pair() {
    let mut path = square_tour();
    let result = dispatch_two(3, 1, &mut path);
    assert_eq!(result, Some(2));
    assert_eq!(path, optimal_square_tour());
}

#[test]
fn dispatch_three_adjacent_equal_indices_no_move() {
    let mut path = square_tour();
    let before = path.clone();
    assert_eq!(dispatch_three(1, 1, 3, &mut path), None);
    assert_eq!(dispatch_three(0, 2, 2, &mut path), None);
    assert_eq!(path, before);
}

#[test]
fn dispatch_three_never_restructures() {
    let mut path = square_tour();
    let before = path.clone();
    // a first/third coincidence is deliberately not screened out
    let _ = dispatch_three(2, 0, 2, &mut path);
    let _ = dispatch_three(2, 0, 1, &mut path);
    assert_eq!(path, before);
}

#[test]
fn rand_index_in_range() {
    let path = square_tour();
    for _ in 0..200 {
        assert!(rand_index(&path) < 4);
    }
}

#[test]
fn k_opt_keeps_permutation_and_never_lengthens() {
    let mut path = square_tour();
    let mut len = path.path_len();
    for _ in 0..200 {
        let result = k_opt(2, &mut path);
        let new_len = path.path_len();
        if let Some(gain) = result {
            assert!(gain > 0);
            assert_eq!(new_len + gain, len);
        } else {
            assert_eq!(new_len, len);
        }
        len = new_len;
    }
    for _ in 0..200 {
        let before = path.clone();
        let _ = k_opt(3, &mut path);
        assert_eq!(path, before);
    }
    assert_eq!(node_pairs(&path), vec![(0, 0), (0, 1), (1, 0), (1, 1)]);
}

#[test]
fn escalation_and_reset() {
    let max_iter = 4;
    let mut k = 2;
    let mut c = 0;
    let mut attempts = 0;
    while k == 2 {
        let st = escalation_step(k, c, max_iter, false);
        k = st.0;
        c = st.1;
        attempts += 1;
        assert!(attempts <= max_iter + 1);
    }
    // stagnation had to run through the full node count before escalating
    assert_eq!(attempts, max_iter + 1);
    assert_eq!((k, c), (3, 0));
    // stagnating at arity 3 never escalates further
    let st = escalation_step(3, max_iter, max_iter, false);
    assert_eq!(st, (3, 0));
    // any improvement reverts to arity 2 at once
    let st = escalation_step(3, 2, max_iter, true);
    assert_eq!(st, (2, 0));
    let st = escalation_step(2, 3, max_iter, true);
    assert_eq!(st, (2, 0));
}

#[test]
fn solve_kopt_respects_deadline() {
    let mut path = square_tour();
    let before_len = path.path_len();
    let start = Instant::now();
    path.solve_kopt(Duration::from_millis(50));
    assert!(start.elapsed() < Duration::from_secs(10));
    assert!(path.path_len() <= before_len);
    assert_eq!(node_pairs(&path), vec![(0, 0), (0, 1), (1, 0), (1, 1)]);
}

#[test]
fn solve_kopt_improves_a_crossing_tour() {
    let mut path = square_tour();
    path.solve_kopt(Duration::from_millis(100));
    // the 4-point square has a unique optimum length, and 2-opt finds it
    assert_eq!(path.path_len(), 4);
    assert_eq!(node_pairs(&path), vec![(0, 0), (0, 1), (1, 0), (1, 1)]);
}
