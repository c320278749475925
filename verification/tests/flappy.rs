use rand::rngs::SmallRng;
use rand::SeedableRng;
use tama_core::scenes::flappy::{
    player_in_bounds, spawn_due, Pipe, PipeQueue, GAP_CENTER_END, GAP_CENTER_MIN, GAP_HEIGHT_END,
    GAP_HEIGHT_MIN, PIPE_CAPACITY, PIPE_WIDTH, PLAYER_RADIUS, PLAYER_X, SCROLL_SPEED, SPACING,
};

#[test]
fn a_new_pipe_stands_at_the_right_edge() {
    assert_eq!(Pipe::new(0, 64), Pipe { x: 240, center_y: 140, gap_height: 64 });
    assert_eq!(
        Pipe::new(GAP_CENTER_MIN, GAP_HEIGHT_MIN),
        Pipe { x: 240, center_y: 76, gap_height: 64 }
    );
    assert_eq!(
        Pipe::new(GAP_CENTER_END - 1, GAP_HEIGHT_END - 1),
        Pipe { x: 240, center_y: 203, gap_height: 127 }
    );
}

#[test]
fn a_pipe_scrolls_one_column_per_tick() {
    let mut pipe = Pipe::new(10, 100);
    pipe.scroll();
    assert_eq!(pipe, Pipe { x: 240 - SCROLL_SPEED, center_y: 150, gap_height: 100 });
    let mut far = Pipe { x: i32::MIN + 1, center_y: 0, gap_height: 0 };
    far.scroll();
    assert_eq!(far.x, i32::MIN);
}

#[test]
fn a_pipe_is_gone_beyond_the_spacing() {
    assert!(!Pipe { x: -SPACING, center_y: 140, gap_height: 64 }.is_gone());
    assert!(Pipe { x: -SPACING - 1, center_y: 140, gap_height: 64 }.is_gone());
    assert!(!Pipe { x: 0, center_y: 140, gap_height: 64 }.is_gone());
}

#[test]
fn a_new_pipe_is_due_when_the_newest_has_moved_in() {
    assert!(spawn_due(None));
    assert!(!spawn_due(Some(240)));
    assert!(!spawn_due(Some(140)));
    assert!(spawn_due(Some(139)));
    assert!(spawn_due(Some(i32::MIN)));
    assert!(!spawn_due(Some(i32::MAX)));
}

#[test]
fn at_most_four_pipes_are_on_their_way() {
    // a pipe lives from column 240 to column -101, and a new one comes every 101 columns
    let mut pipes: Vec<Pipe> = Vec::new();
    let mut most = 0;
    for _ in 0..2000 {
        if spawn_due(pipes.last().map(|p| p.x)) {
            pipes.push(Pipe::new(0, 64));
        }
        for pipe in pipes.iter_mut() {
            pipe.scroll();
        }
        if pipes.first().map(|p| p.is_gone()).unwrap_or(false) {
            pipes.remove(0);
        }
        most = most.max(pipes.len());
    }
    assert_eq!(most, 4);
    assert!(most <= PIPE_CAPACITY);
}

#[test]
fn the_player_has_to_stay_on_the_screen() {
    assert!(player_in_bounds(8));
    assert!(!player_in_bounds(7));
    assert!(player_in_bounds(272));
    assert!(!player_in_bounds(273));
    assert!(player_in_bounds(140));
    assert!(!player_in_bounds(i32::MIN));
    assert!(!player_in_bounds(i32::MAX));
    assert_eq!(PLAYER_RADIUS, 8);
}

#[test]
fn a_pipe_ahead_of_the_player_is_not_looked_at() {
    let pipe = Pipe { x: 41, center_y: 140, gap_height: 64 };
    assert!(pipe.is_ahead_of(PLAYER_X));
    assert!(!pipe.hits(PLAYER_X, 0));
    let pipe = Pipe { x: 40, center_y: 140, gap_height: 64 };
    assert!(!pipe.is_ahead_of(PLAYER_X));
    assert!(!Pipe { x: i32::MIN, center_y: 0, gap_height: 0 }.is_ahead_of(i32::MAX));
    assert!(Pipe { x: i32::MAX, center_y: 0, gap_height: 0 }.is_ahead_of(i32::MIN));
}

#[test]
fn the_player_hits_a_pipe_outside_its_gap() {
    // the gap of this pipe reaches from row 108 to row 172
    let pipe = Pipe { x: 30, center_y: 140, gap_height: 64 };
    assert!(!pipe.hits(PLAYER_X, 140));
    assert!(!pipe.hits(PLAYER_X, 116));
    assert!(pipe.hits(PLAYER_X, 115));
    assert!(!pipe.hits(PLAYER_X, 164));
    assert!(pipe.hits(PLAYER_X, 165));
    assert!(pipe.hits(PLAYER_X, 20));
}

#[test]
fn the_player_hits_a_pipe_only_in_its_columns() {
    let y = 20;
    // the disc reaches from column 24 to column 40
    assert!(!Pipe { x: 40, center_y: 140, gap_height: 64 }.hits(PLAYER_X, y));
    assert!(Pipe { x: 39, center_y: 140, gap_height: 64 }.hits(PLAYER_X, y));
    assert!(Pipe { x: -7, center_y: 140, gap_height: 64 }.hits(PLAYER_X, y));
    assert!(!Pipe { x: -8, center_y: 140, gap_height: 64 }.hits(PLAYER_X, y));
    assert_eq!(PIPE_WIDTH, 32);
}

#[test]
fn a_gap_of_odd_height_is_halved_towards_zero() {
    // half of 65 is 32: the gap reaches from row 108 to row 172
    let pipe = Pipe { x: 30, center_y: 140, gap_height: 65 };
    assert!(!pipe.hits(PLAYER_X, 116));
    assert!(pipe.hits(PLAYER_X, 115));
    // half of -3 is -1: the "gap" is turned inside out and everything hits
    let odd = Pipe { x: 30, center_y: 140, gap_height: -3 };
    assert!(odd.hits(PLAYER_X, 140));
    assert!(odd.hits(PLAYER_X, 131));
    assert!(odd.hits(PLAYER_X, 149));
}

#[test]
fn hits_does_not_overflow_at_the_ends_of_the_number_line() {
    let pipe = Pipe { x: i32::MAX, center_y: i32::MIN, gap_height: i32::MIN };
    assert!(!pipe.hits(i32::MIN, i32::MAX));
    let pipe = Pipe { x: i32::MIN, center_y: i32::MAX, gap_height: i32::MAX };
    assert!(!pipe.hits(i32::MAX, i32::MIN));
    let pipe = Pipe { x: i32::MAX - 4, center_y: 0, gap_height: 10 };
    assert!(pipe.hits(i32::MAX, 100));
}

#[test]
fn the_queue_sends_a_pipe_every_101_ticks() {
    let mut queue = PipeQueue::new();
    assert!(queue.pipes().is_empty());
    queue.tick_with(0, 64);
    assert_eq!(queue.pipes(), vec![Pipe { x: 239, center_y: 140, gap_height: 64 }]);
    for _ in 0..100 {
        queue.tick_with(10, 100);
    }
    assert_eq!(queue.pipes(), vec![Pipe { x: 139, center_y: 140, gap_height: 64 }]);
    queue.tick_with(10, 100);
    assert_eq!(
        queue.pipes(),
        vec![
            Pipe { x: 138, center_y: 140, gap_height: 64 },
            Pipe { x: 239, center_y: 150, gap_height: 100 },
        ]
    );
}

#[test]
fn the_oldest_pipe_leaves_when_it_is_gone() {
    let mut queue = PipeQueue::new();
    queue.tick_with(0, 64);
    // the first pipe is at column 239 - n after n further ticks
    for _ in 0..339 {
        queue.tick_with(0, 64);
    }
    assert_eq!(queue.pipes()[0].x, -SPACING);
    assert_eq!(queue.pipes().len(), 4);
    queue.tick_with(0, 64);
    assert_eq!(queue.pipes().len(), 3);
    assert_eq!(queue.pipes()[0].x, 0);
}

#[test]
fn the_queue_never_holds_more_than_four_pipes() {
    let mut rng = SmallRng::seed_from_u64(2137);
    let mut queue = PipeQueue::new();
    for _ in 0..5000 {
        queue.tick(&mut rng);
        let pipes = queue.pipes();
        assert!(pipes.len() <= 4);
        for pair in pipes.windows(2) {
            assert!(pair[0].x + SPACING < pair[1].x);
        }
    }
}

#[test]
fn random_gaps_stay_in_their_ranges_and_vary() {
    let mut rng = SmallRng::seed_from_u64(1);
    let mut queue = PipeQueue::new();
    let mut centers = std::collections::BTreeSet::new();
    let mut heights = std::collections::BTreeSet::new();
    for _ in 0..20_000 {
        queue.tick(&mut rng);
        let newest = *queue.pipes().last().unwrap();
        assert!((140 + GAP_CENTER_MIN..140 + GAP_CENTER_END).contains(&newest.center_y));
        assert!((GAP_HEIGHT_MIN..GAP_HEIGHT_END).contains(&newest.gap_height));
        centers.insert(newest.center_y);
        heights.insert(newest.gap_height);
    }
    assert!(centers.len() > 20);
    assert!(heights.len() > 20);
}

#[test]
fn the_same_seed_gives_the_same_pipes() {
    let mut first = PipeQueue::new();
    let mut second = PipeQueue::new();
    let mut rng_a = SmallRng::seed_from_u64(7);
    let mut rng_b = SmallRng::seed_from_u64(7);
    for _ in 0..500 {
        first.tick(&mut rng_a);
        second.tick(&mut rng_b);
    }
    assert_eq!(first.pipes(), second.pipes());
}

#[test]
fn the_player_collides_with_the_pipe_that_it_touches() {
    let mut queue = PipeQueue::new();
    assert!(!queue.collides(PLAYER_X, 20));
    queue.tick_with(0, 64);
    // the pipe is at column 239: far ahead of the player
    assert!(!queue.collides(PLAYER_X, 20));
    for _ in 0..199 {
        queue.tick_with(0, 64);
    }
    // at column 40 the pipe is just out of reach, at column 39 it is not
    assert_eq!(queue.pipes()[0].x, 40);
    assert!(!queue.collides(PLAYER_X, 20));
    queue.tick_with(0, 64);
    assert!(queue.collides(PLAYER_X, 20));
    assert!(!queue.collides(PLAYER_X, 140));
    assert!(queue.collides(PLAYER_X, 115));
    assert!(!queue.collides(PLAYER_X, 116));
}
