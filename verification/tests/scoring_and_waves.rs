use asteroidz::game_state::{
    remove_hit, replace_hit, GameState, MAX_SPAWN_AMOUNT, OPENING_ASTEROIDS, POINTS_PER_HIT, SPAWN_EDGES,
};

#[test]
fn new_game_state() {
    let g = GameState::new();
    assert_eq!(g.score, 0);
    assert_eq!(g.asteroid_spawn_amount, 1);
    assert_eq!(OPENING_ASTEROIDS, 3);
}

#[test]
fn hits_score_ten_per_pair() {
    let mut g = GameState::new();
    let hits = vec![
        vec![false, true, false],
        vec![false, false, false],
        vec![true, true, false],
    ];
    let r = g.destroy_asteroids(&hits, 3);
    assert_eq!(POINTS_PER_HIT, 10);
    assert_eq!(g.score, 30);
    assert_eq!(r.pairs, 3);
    assert_eq!(r.projectile_hit, vec![true, false, true]);
    assert_eq!(r.asteroid_hit, vec![true, true, false]);
}

#[test]
fn no_projectiles_no_points() {
    let mut g = GameState { score: 70, asteroid_spawn_amount: 2 };
    let hits: Vec<Vec<bool>> = Vec::new();
    let r = g.destroy_asteroids(&hits, 4);
    assert_eq!(g.score, 70);
    assert_eq!(r.pairs, 0);
    assert!(r.projectile_hit.is_empty());
    assert_eq!(r.asteroid_hit, vec![false; 4]);
    assert_eq!(g.asteroid_spawn_amount, 2);
}

#[test]
fn survivors_keep_order() {
    let items = vec![10, 11, 12, 13, 14];
    let hit = vec![false, true, false, true, false];
    assert_eq!(remove_hit(&items, &hit), vec![10, 12, 14]);
    assert_eq!(remove_hit(&items, &vec![true; 5]), Vec::<i32>::new());
}

#[test]
fn broken_items_replaced_in_place() {
    let items = vec![1, 2, 3];
    let hit = vec![true, false, true];
    let pieces = vec![vec![100, 101], vec![], vec![]];
    assert_eq!(replace_hit(&items, &hit, &pieces), vec![100, 101, 2]);
    let pieces = vec![vec![], vec![7], vec![30, 31]];
    assert_eq!(replace_hit(&items, &hit, &pieces), vec![2, 30, 31]);
}

#[test]
fn waves_grow_to_five() {
    let mut g = GameState::new();
    let mut sizes = Vec::new();
    for _ in 0..6 {
        let edges = g.spawn_new_asteroids();
        sizes.push(edges.len());
        for e in &edges {
            assert!(*e < SPAWN_EDGES);
        }
    }
    assert_eq!(sizes, vec![1, 2, 3, 5, 5, 5]);
    assert_eq!(g.asteroid_spawn_amount, MAX_SPAWN_AMOUNT);
}

#[test]
fn wave_edges_are_in_range_over_many_draws() {
    let mut g = GameState { score: 5, asteroid_spawn_amount: 400 };
    let edges = g.spawn_new_asteroids();
    assert_eq!(edges.len(), 400);
    assert!(edges.iter().all(|e| *e < 4));
    assert!(edges.iter().any(|e| *e != edges[0]));
    assert_eq!(g.asteroid_spawn_amount, 5);
    assert_eq!(g.score, 5);
}

#[test]
fn empty_wave_stays_empty() {
    let mut g = GameState { score: 0, asteroid_spawn_amount: 0 };
    assert!(g.spawn_new_asteroids().is_empty());
    assert_eq!(g.asteroid_spawn_amount, 0);
}
