use chaos_game::game::{generate_points, ChaosError};
use chaos_game::polygon::get_vertices_vec;
use chaos_game::sampler::{draw_vertex_indices, get_points, replay_draws};

const RADIUS: f64 = 10000.0;
const TOLERANCE: f64 = 1e-9;

fn vertex_on_circle(i: u32, n: u32) -> (f64, f64) {
    let angle = (i as f64) * (2.0 * std::f64::consts::PI / (n as f64));
    (angle.sin() * RADIUS, angle.cos() * RADIUS)
}

fn midpoint(a: (f64, f64), b: (f64, f64)) -> (f64, f64) {
    ((a.0 + b.0) / 2.0, (a.1 + b.1) / 2.0)
}

fn close(a: (f64, f64), b: (f64, f64)) -> bool {
    (a.0 - b.0).abs() < TOLERANCE && (a.1 - b.1).abs() < TOLERANCE
}

fn in_triangle(p: (f64, f64), t: &[(f64, f64)]) -> bool {
    let cross = |a: (f64, f64), b: (f64, f64), c: (f64, f64)| {
        (b.0 - a.0) * (c.1 - a.1) - (b.1 - a.1) * (c.0 - a.0)
    };
    let slack = 1e-6;
    let d0 = cross(t[0], t[1], p);
    let d1 = cross(t[1], t[2], p);
    let d2 = cross(t[2], t[0], p);
    let has_neg = d0 < -slack || d1 < -slack || d2 < -slack;
    let has_pos = d0 > slack || d1 > slack || d2 > slack;
    !(has_neg && has_pos)
}

#[test]
fn polygon_has_one_vertex_per_edge_on_the_circle() {
    for n in [3u32, 4, 5, 8, 100] {
        let verts = get_vertices_vec(n, vertex_on_circle);
        assert_eq!(verts.len(), n as usize);
        for (i, v) in verts.iter().enumerate() {
            let r = (v.0 * v.0 + v.1 * v.1).sqrt();
            assert!((r - RADIUS).abs() < 1e-6);
            let angle = v.0.atan2(v.1);
            let expected = (i as f64) * 2.0 * std::f64::consts::PI / (n as f64);
            let diff = (angle - expected).rem_euclid(2.0 * std::f64::consts::PI);
            assert!(diff < 1e-9 || (2.0 * std::f64::consts::PI - diff) < 1e-9);
        }
    }
}

#[test]
fn first_vertex_is_straight_up() {
    let verts = get_vertices_vec(3, vertex_on_circle);
    assert!(close(verts[0], (0.0, 10000.0)));
}

#[test]
fn polygon_of_no_edges_is_empty() {
    let verts = get_vertices_vec(0, vertex_on_circle);
    assert!(verts.is_empty());
}

#[test]
fn sampler_returns_one_point_per_iteration() {
    let verts = get_vertices_vec(3, vertex_on_circle);
    for k in [0u32, 1, 2, 17, 1000] {
        let points = get_points(verts.clone(), k, midpoint);
        assert_eq!(points.len(), k as usize);
    }
}

#[test]
fn sampler_points_stay_in_the_triangle() {
    let verts = get_vertices_vec(3, vertex_on_circle);
    let points = get_points(verts.clone(), 5000, midpoint);
    for p in points {
        assert!(in_triangle(p, &verts));
    }
}

#[test]
fn sampler_points_follow_a_vertex_each() {
    let verts = get_vertices_vec(4, vertex_on_circle);
    let points = get_points(verts.clone(), 200, midpoint);
    let mut current = verts[0];
    for p in points {
        assert!(verts.iter().any(|v| midpoint(current, *v) == p));
        current = p;
    }
}

#[test]
fn replay_of_fixed_draws_is_reproducible() {
    let verts = get_vertices_vec(5, vertex_on_circle);
    let draws = vec![4usize, 0, 3, 3, 1, 2, 0];
    let first = replay_draws(&verts, &draws, midpoint);
    let second = replay_draws(&verts, &draws, midpoint);
    assert_eq!(first, second);
    let mut current = verts[0];
    for (p, d) in first.iter().zip(draws.iter()) {
        assert_eq!(*p, midpoint(current, verts[*d]));
        current = *p;
    }
}

#[test]
fn triangle_with_draws_one_one_two() {
    let verts = get_vertices_vec(3, vertex_on_circle);
    assert!(close(verts[0], (0.0, 10000.0)));
    let draws = vec![1usize, 1, 2];
    let points = replay_draws(&verts, &draws, midpoint);
    assert_eq!(points.len(), 3);
    let p1 = ((0.0 + verts[1].0) / 2.0, (10000.0 + verts[1].1) / 2.0);
    let p2 = ((p1.0 + verts[1].0) / 2.0, (p1.1 + verts[1].1) / 2.0);
    let p3 = ((p2.0 + verts[2].0) / 2.0, (p2.1 + verts[2].1) / 2.0);
    assert!(close(points[0], p1));
    assert!(close(points[1], p2));
    assert!(close(points[2], p3));
    let s = 10000.0 * 3f64.sqrt() / 2.0;
    assert!(close(points[0], (s / 2.0, 2500.0)));
    assert!(close(points[1], (3.0 * s / 4.0, -1250.0)));
    assert!(close(points[2], (-s / 8.0, -3125.0)));
}

#[test]
fn replay_of_no_draws_is_empty() {
    let verts = get_vertices_vec(3, vertex_on_circle);
    let points = replay_draws(&verts, &Vec::new(), midpoint);
    assert!(points.is_empty());
}

#[test]
fn replay_with_integer_points() {
    let verts = vec![(0i64, 0i64), (8, 0), (0, 8)];
    let half = |a: (i64, i64), b: (i64, i64)| ((a.0 + b.0) / 2, (a.1 + b.1) / 2);
    let points = replay_draws(&verts, &vec![1, 2, 0], half);
    assert_eq!(points, vec![(4, 0), (2, 4), (1, 2)]);
}

#[test]
fn drawn_indices_name_vertices() {
    let draws = draw_vertex_indices(3, 3000);
    assert_eq!(draws.len(), 3000);
    assert!(draws.iter().all(|d| *d < 3));
    for v in 0..3 {
        assert!(draws.contains(&v));
    }
}

#[test]
fn single_vertex_is_always_drawn() {
    let draws = draw_vertex_indices(1, 50);
    assert_eq!(draws, vec![0usize; 50]);
}

#[test]
fn no_draws_for_no_iterations() {
    assert!(draw_vertex_indices(4, 0).is_empty());
}

#[test]
fn game_refuses_a_polygon_without_vertices() {
    let r = generate_points(0, 10, vertex_on_circle, midpoint);
    assert_eq!(r, Err(ChaosError::NoVertices));
}

#[test]
fn game_yields_the_asked_number_of_points() {
    let r = generate_points(3, 1000, vertex_on_circle, midpoint);
    let points = r.unwrap();
    assert_eq!(points.len(), 1000);
    let verts = get_vertices_vec(3, vertex_on_circle);
    for p in points {
        assert!(in_triangle(p, &verts));
        assert!(p.0.abs() <= RADIUS && p.1.abs() <= RADIUS);
    }
}

#[test]
fn game_of_no_iterations_is_empty() {
    let r = generate_points(3, 0, vertex_on_circle, midpoint);
    assert_eq!(r, Ok(Vec::new()));
}
