use snake::{Cell, Direction, Game, Point};

fn pt(x: u16, y: u16) -> Point {
    Point { x, y }
}

fn game(width: u16, height: u16, body: &[(u16, u16)], dir: Direction, food: (u16, u16)) -> Game {
    let body: Vec<Point> = body.iter().map(|&(x, y)| pt(x, y)).collect();
    Game::from_parts(width, height, body, dir, pt(food.0, food.1)).expect("a valid game")
}

fn assert_distinct(body: &[Point]) {
    for i in 0..body.len() {
        for j in (i + 1)..body.len() {
            assert_ne!(body[i], body[j]);
        }
    }
}

#[test]
fn new_game_starts_centred() {
    let g = Game::new(10, 10);
    assert_eq!(g.snake(), vec![pt(5, 5)]);
    assert_eq!(g.dir(), Direction::Right);
    assert_eq!(g.food(), pt(3, 3));
    assert_eq!((g.width(), g.height()), (10, 10));
    assert!(!g.is_terminated());
    assert_eq!(g.score(), 0);

    let g = Game::new(7, 4);
    assert_eq!(g.head(), pt(3, 2));
    assert_eq!(g.food(), pt(2, 1));
}

#[test]
fn five_steps_right_hit_the_wall() {
    let mut g = Game::new(10, 10);
    for expected_x in 6..10u16 {
        g.step();
        assert!(!g.is_terminated());
        assert_eq!(g.snake(), vec![pt(expected_x, 5)]);
    }
    g.step();
    assert!(g.is_terminated());
    assert_eq!(g.snake(), vec![pt(9, 5)]);
    assert_eq!(g.score(), 0);
}

#[test]
fn eating_grows_and_keeps_tail() {
    let mut g = game(10, 10, &[(2, 2), (2, 3)], Direction::Up, (2, 1));
    g.step();
    assert_eq!(g.score(), 1);
    assert_eq!(g.snake(), vec![pt(2, 1), pt(2, 2), pt(2, 3)]);
    assert!(!g.is_terminated());
}

#[test]
fn plain_move_keeps_length() {
    let mut g = game(10, 10, &[(4, 4), (3, 4), (2, 4)], Direction::Right, (0, 0));
    g.step();
    assert_eq!(g.snake(), vec![pt(5, 4), pt(4, 4), pt(3, 4)]);
    assert_eq!(g.score(), 0);
    assert_eq!(g.food(), pt(0, 0));
}

#[test]
fn respawned_food_is_on_board_and_off_body() {
    for _ in 0..50 {
        let mut g = game(4, 3, &[(1, 1), (0, 1), (0, 0)], Direction::Right, (2, 1));
        g.step();
        assert_eq!(g.score(), 1);
        assert!(!g.is_terminated());
        let food = g.food();
        assert!(food.x < 4 && food.y < 3);
        assert!(!g.snake().contains(&food));
        assert_ne!(food, pt(2, 1));
    }
}

#[test]
fn last_free_cell_gets_the_food() {
    for _ in 0..20 {
        let mut g = game(3, 1, &[(0, 0)], Direction::Right, (1, 0));
        g.step();
        assert_eq!(g.food(), pt(2, 0));
        assert!(!g.is_terminated());
    }
}

#[test]
fn full_board_ends_the_game() {
    let mut g = game(2, 1, &[(0, 0)], Direction::Right, (1, 0));
    g.step();
    assert_eq!(g.score(), 1);
    assert_eq!(g.snake(), vec![pt(1, 0), pt(0, 0)]);
    assert!(g.is_terminated());
    assert_eq!(g.food(), pt(1, 0));
}

#[test]
fn reversal_ignored_for_long_snake() {
    let mut g = game(10, 10, &[(5, 5), (4, 5)], Direction::Right, (0, 0));
    g.change_dir(Direction::Left);
    assert_eq!(g.dir(), Direction::Right);
    g.change_dir(Direction::Up);
    assert_eq!(g.dir(), Direction::Up);
    g.change_dir(Direction::Up);
    assert_eq!(g.dir(), Direction::Up);
    g.change_dir(Direction::Down);
    assert_eq!(g.dir(), Direction::Up);
}

#[test]
fn single_segment_turns_anywhere() {
    for d in [Direction::Up, Direction::Down, Direction::Left, Direction::Right] {
        let mut g = Game::new(10, 10);
        g.change_dir(d);
        assert_eq!(g.dir(), d);
    }
    let mut g = Game::new(10, 10);
    g.change_dir(Direction::Left);
    assert_eq!(g.dir(), Direction::Left);
    g.step();
    assert_eq!(g.head(), pt(4, 5));
}

#[test]
fn wall_on_each_side_ends_the_game() {
    let cases = [
        ((9, 4), (8, 4), Direction::Right),
        ((0, 4), (1, 4), Direction::Left),
        ((4, 0), (4, 1), Direction::Up),
        ((4, 9), (4, 8), Direction::Down),
    ];
    for (head, neck, dir) in cases {
        let mut g = game(10, 10, &[head, neck], dir, (5, 5));
        let before = g.snake();
        g.step();
        assert!(g.is_terminated());
        assert_eq!(g.snake(), before);
        assert_eq!(g.score(), 0);
    }
}

#[test]
fn running_into_body_ends_the_game() {
    let mut g = game(10, 10, &[(3, 3), (4, 3), (4, 4), (3, 4), (2, 4)], Direction::Left, (0, 0));
    g.change_dir(Direction::Down);
    g.step();
    assert!(g.is_terminated());
    assert_eq!(g.snake(), vec![pt(3, 3), pt(4, 3), pt(4, 4), pt(3, 4), pt(2, 4)]);
}

#[test]
fn terminated_game_does_not_move() {
    let mut g = Game::new(1, 1);
    g.step();
    assert!(g.is_terminated());
    let body = g.snake();
    g.step();
    assert!(g.is_terminated());
    assert_eq!(g.snake(), body);
}

#[test]
fn score_only_rises_by_one_per_meal() {
    let mut g = game(10, 3, &[(0, 1)], Direction::Right, (1, 1));
    let mut last = g.score();
    let mut length = g.snake().len();
    for _ in 0..12 {
        let food = g.food();
        let was_running = !g.is_terminated();
        g.step();
        let ate = was_running && g.snake()[0] == food && g.snake().len() == length + 1;
        if ate {
            assert_eq!(g.score(), last + 1);
        } else {
            assert_eq!(g.score(), last);
            assert_eq!(g.snake().len(), length);
        }
        if !g.is_terminated() {
            assert_distinct(&g.snake());
        }
        last = g.score();
        length = g.snake().len();
    }
    assert!(g.score() >= 1);
}

#[test]
fn from_parts_rejects_bad_states() {
    let d = Direction::Right;
    assert!(Game::from_parts(5, 5, vec![], d, pt(0, 0)).is_none());
    assert!(Game::from_parts(5, 5, vec![pt(5, 0)], d, pt(0, 0)).is_none());
    assert!(Game::from_parts(5, 5, vec![pt(1, 1), pt(1, 2), pt(1, 1)], d, pt(0, 0)).is_none());
    assert!(Game::from_parts(5, 5, vec![pt(1, 1)], d, pt(0, 5)).is_none());
    let g = Game::from_parts(5, 5, vec![pt(1, 1), pt(1, 2)], d, pt(4, 4)).unwrap();
    assert_eq!(g.snake(), vec![pt(1, 1), pt(1, 2)]);
    assert_eq!(g.score(), 0);
}

#[test]
fn try_place_food_needs_a_free_cell() {
    let mut g = game(5, 5, &[(1, 1), (1, 2)], Direction::Up, (0, 0));
    assert!(!g.try_place_food(pt(1, 2)));
    assert_eq!(g.food(), pt(0, 0));
    assert!(!g.try_place_food(pt(5, 0)));
    assert_eq!(g.food(), pt(0, 0));
    assert!(g.try_place_food(pt(3, 4)));
    assert_eq!(g.food(), pt(3, 4));
}

#[test]
fn resize_keeps_or_ends_the_game() {
    let mut g = game(10, 10, &[(4, 4), (5, 4)], Direction::Left, (2, 2));
    g.resize(6, 5);
    assert_eq!((g.width(), g.height()), (6, 5));
    assert!(!g.is_terminated());
    assert!(g.fits(6, 5));
    assert!(!g.fits(5, 5));
    g.resize(5, 5);
    assert!(g.is_terminated());
    assert_eq!(g.snake(), vec![pt(4, 4), pt(5, 4)]);

    let mut g = game(10, 10, &[(1, 1)], Direction::Left, (8, 8));
    g.resize(5, 5);
    assert!(g.is_terminated());
}

#[test]
fn cells_show_head_body_food() {
    let g = game(5, 5, &[(1, 1), (1, 2)], Direction::Up, (3, 3));
    assert_eq!(g.cell_at(pt(1, 1)), Cell::Head);
    assert_eq!(g.cell_at(pt(1, 2)), Cell::Body);
    assert_eq!(g.cell_at(pt(3, 3)), Cell::Food);
    assert_eq!(g.cell_at(pt(0, 0)), Cell::Empty);
    assert!(g.occupies(pt(1, 2)));
    assert!(!g.occupies(pt(2, 2)));
}

#[test]
fn opposite_directions() {
    assert_eq!(Direction::Up.opposite(), Direction::Down);
    assert_eq!(Direction::Down.opposite(), Direction::Up);
    assert_eq!(Direction::Left.opposite(), Direction::Right);
    assert_eq!(Direction::Right.opposite(), Direction::Left);
}

#[test]
fn respawn_draws_more_than_the_first_free_cell() {
    let mut seen = Vec::new();
    for _ in 0..200 {
        let mut g = game(4, 3, &[(1, 1), (0, 1), (0, 0)], Direction::Right, (2, 1));
        g.step();
        let food = g.food();
        if !seen.contains(&food) {
            seen.push(food);
        }
    }
    assert!(seen.len() > 1);
    assert!(seen.iter().any(|&p| p != pt(1, 0)));
}
