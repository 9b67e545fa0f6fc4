use game_of_life::life::GameOfLife;
use game_of_life::pattern::Pattern;
use game_of_life::seeding::{initial_placements, reseed_placements, Placement};

fn alive_cells(game: &GameOfLife) -> Vec<(usize, usize)> {
    let mut cells = Vec::new();
    for y in 0..game.height() {
        for x in 0..game.width() {
            if game.is_alive(x, y) {
                cells.push((x, y));
            }
        }
    }
    cells
}

fn single() -> Pattern {
    Pattern::from_masks(1, &vec![1])
}

#[test]
fn blank_board_is_dead() {
    let game = GameOfLife::blank(7, 5);
    assert_eq!(game.width(), 7);
    assert_eq!(game.height(), 5);
    assert_eq!(game.generation(), 0);
    assert_eq!(game.live_count(), 0);
    assert!(alive_cells(&game).is_empty());
}

#[test]
fn neighbor_counts_stay_within_zero_and_eight() {
    let mut game = GameOfLife::blank(5, 5);
    for y in 0..5 {
        for x in 0..5 {
            assert_eq!(game.count_neighbors(x, y), 0);
        }
    }
    let full = Pattern::from_masks(5, &vec![0b11111; 5]);
    game.place_pattern(0, 0, &full);
    for y in 0..5 {
        for x in 0..5 {
            assert_eq!(game.count_neighbors(x, y), 8);
        }
    }
}

#[test]
fn corner_neighbors_wrap_around() {
    let mut game = GameOfLife::blank(6, 5);
    game.place_pattern(5, 4, &single());
    game.place_pattern(5, 0, &single());
    game.place_pattern(0, 4, &single());
    assert_eq!(game.count_neighbors(0, 0), 3);
    assert_eq!(game.count_neighbors(5, 4), 2);
    assert_eq!(game.count_neighbors(2, 2), 0);
}

#[test]
fn neighbor_count_of_interior_cell() {
    let mut game = GameOfLife::blank(8, 8);
    game.add_glider(2, 2);
    // glider cells: (3,2), (4,3), (2,4), (3,4), (4,4)
    assert_eq!(game.count_neighbors(3, 3), 5);
    assert_eq!(game.count_neighbors(3, 2), 1);
    assert_eq!(game.count_neighbors(4, 3), 3);
    assert_eq!(game.count_neighbors(0, 0), 0);
}

#[test]
fn blinker_has_period_two() {
    let mut game = GameOfLife::blank(10, 10);
    game.add_blinker(4, 3);
    let vertical = vec![(4, 3), (4, 4), (4, 5)];
    assert_eq!(alive_cells(&game), vertical);
    game.advance();
    assert_eq!(alive_cells(&game), vec![(3, 4), (4, 4), (5, 4)]);
    assert_eq!(game.generation(), 1);
    game.advance();
    assert_eq!(alive_cells(&game), vertical);
    assert_eq!(game.generation(), 2);
}

#[test]
fn lonely_and_crowded_cells_die_and_three_neighbors_give_birth() {
    let mut game = GameOfLife::blank(10, 10);
    // a lone cell dies of underpopulation
    game.place_pattern(1, 1, &single());
    // a plus sign: the centre has four neighbours and dies; the gaps have three and are born
    game.place_pattern(5, 4, &Pattern::from_masks(3, &vec![0b010, 0b111, 0b010]));
    assert!(game.is_alive(6, 5));
    game.advance();
    assert!(!game.is_alive(1, 1));
    assert!(!game.is_alive(6, 5));
    assert!(game.is_alive(5, 4));
    assert!(game.is_alive(7, 6));
    // the arms had three neighbours and survive
    assert!(game.is_alive(6, 4));
    assert!(game.is_alive(5, 5));
}

#[test]
fn block_is_a_still_life() {
    let mut game = GameOfLife::blank(10, 10);
    game.add_block(4, 4);
    let block = alive_cells(&game);
    assert_eq!(block, vec![(4, 4), (5, 4), (4, 5), (5, 5)]);
    for _ in 0..12 {
        game.advance();
        assert_eq!(alive_cells(&game), block);
    }
    assert_eq!(game.generation(), 12);
}

#[test]
fn block_across_the_wrapped_edge_is_a_still_life() {
    let mut game = GameOfLife::blank(6, 6);
    game.add_block(4, 4);
    let block = alive_cells(&game);
    for _ in 0..5 {
        game.advance();
        assert_eq!(alive_cells(&game), block);
    }
}

#[test]
fn beehive_is_a_still_life() {
    let mut game = GameOfLife::blank(12, 12);
    game.add_beehive(3, 3);
    let cells = alive_cells(&game);
    assert_eq!(cells.len(), 6);
    for _ in 0..4 {
        game.advance();
        assert_eq!(alive_cells(&game), cells);
    }
}

#[test]
fn toad_and_beacon_have_period_two() {
    let mut game = GameOfLife::blank(20, 12);
    game.add_toad(3, 4);
    game.add_beacon(12, 3);
    let start = alive_cells(&game);
    game.advance();
    assert_ne!(alive_cells(&game), start);
    game.advance();
    assert_eq!(alive_cells(&game), start);
}

#[test]
fn glider_moves_one_cell_diagonally_every_four_generations() {
    let mut game = GameOfLife::blank(12, 12);
    game.add_glider(2, 2);
    let mut moved = GameOfLife::blank(12, 12);
    moved.add_glider(3, 3);
    for _ in 0..4 {
        game.advance();
    }
    assert_eq!(alive_cells(&game), alive_cells(&moved));
}

#[test]
fn empty_board_is_inactive() {
    let game = GameOfLife::blank(30, 30);
    assert!(!game.is_active());
}

#[test]
fn fifty_nine_cells_are_inactive_and_sixty_active_at_generation_zero() {
    let mut game = GameOfLife::blank(64, 4);
    game.place_pattern(0, 0, &Pattern::from_masks(59, &vec![(1u64 << 59) - 1]));
    assert_eq!(game.live_count(), 59);
    assert!(!game.is_active());
    game.place_pattern(0, 2, &single());
    assert_eq!(game.live_count(), 60);
    assert!(game.is_active());
}

fn blocks(game: &mut GameOfLife, count: usize) {
    for i in 0..count {
        game.add_block(1 + 4 * (i % 6), 1 + 4 * (i / 6));
    }
}

#[test]
fn plateau_rule_after_five_hundred_generations() {
    let mut low = GameOfLife::blank(40, 40);
    blocks(&mut low, 29);
    low.add_blinker(32, 32);
    let mut high = GameOfLife::blank(40, 40);
    blocks(&mut high, 30);
    for _ in 0..501 {
        low.advance();
        high.advance();
    }
    assert_eq!(low.generation(), 501);
    assert_eq!(low.live_count(), 119);
    assert!(!low.is_active());
    assert_eq!(high.generation(), 501);
    assert_eq!(high.live_count(), 120);
    assert!(high.is_active());
}

#[test]
fn plateau_rule_does_not_apply_before_five_hundred_generations() {
    let mut game = GameOfLife::blank(40, 40);
    blocks(&mut game, 29);
    game.add_blinker(32, 32);
    for _ in 0..500 {
        game.advance();
    }
    assert_eq!(game.live_count(), 119);
    assert!(game.is_active());
}

#[test]
fn reset_leaves_an_active_board_alone() {
    let mut game = GameOfLife::blank(40, 40);
    blocks(&mut game, 20);
    game.advance();
    let before = alive_cells(&game);
    game.reset();
    assert_eq!(game.generation(), 1);
    assert_eq!(alive_cells(&game), before);
}

#[test]
fn reset_reseeds_a_quiet_board() {
    let mut game = GameOfLife::blank(150, 150);
    game.add_block(70, 70);
    game.advance();
    game.advance();
    assert_eq!(game.generation(), 2);
    game.reset();
    assert_eq!(game.generation(), 0);
    assert!(game.live_count() > 0);
    assert_eq!(game.width(), 150);
    assert_eq!(game.height(), 150);
}

#[test]
fn update_reseeds_once_the_board_goes_quiet() {
    let mut game = GameOfLife::blank(150, 150);
    game.add_blinker(10, 10);
    game.update();
    assert_eq!(game.generation(), 0);
    assert!(game.live_count() > 0);
}

#[test]
fn update_steps_an_active_board() {
    let mut game = GameOfLife::blank(40, 40);
    blocks(&mut game, 20);
    game.update();
    game.update();
    assert_eq!(game.generation(), 2);
    assert_eq!(game.live_count(), 80);
}

#[test]
fn reseed_with_stamps_each_placement_on_a_cleared_board() {
    let mut game = GameOfLife::blank(20, 20);
    game.add_block(0, 0);
    game.advance();
    let plan = vec![
        Placement { x: 2, y: 2, pattern: Pattern::glider() },
        Placement { x: 10, y: 10, pattern: Pattern::blinker() },
        // drawn over the blinker's top cell
        Placement { x: 10, y: 10, pattern: Pattern::from_masks(1, &vec![0]) },
    ];
    game.reseed_with(&plan);
    assert_eq!(game.generation(), 0);
    assert_eq!(
        alive_cells(&game),
        vec![(3, 2), (4, 3), (2, 4), (3, 4), (4, 4), (10, 11), (10, 12)]
    );
}

#[test]
fn stamping_within_bounds_reproduces_the_pattern() {
    let mut game = GameOfLife::blank(50, 20);
    let gun = Pattern::gosper_glider_gun();
    game.add_gosper_glider_gun(7, 5);
    for row in 0..gun.height() {
        for col in 0..gun.width() {
            assert_eq!(game.is_alive(7 + col, 5 + row), gun.cell(col, row));
        }
    }
    assert_eq!(game.live_count(), 36);
}

#[test]
fn stamping_overwrites_live_cells_with_dead_ones() {
    let mut game = GameOfLife::blank(10, 10);
    game.place_pattern(0, 0, &Pattern::from_masks(3, &vec![0b111; 3]));
    game.add_glider(0, 0);
    assert_eq!(alive_cells(&game), vec![(1, 0), (2, 1), (0, 2), (1, 2), (2, 2)]);
}

#[test]
fn stamping_past_the_edge_clips() {
    let mut game = GameOfLife::blank(10, 10);
    game.add_glider(8, 8);
    // only the top-left 2x2 of the glider lands on the board
    assert_eq!(alive_cells(&game), vec![(9, 8)]);
    let mut far = GameOfLife::blank(10, 10);
    far.add_pulsar(usize::MAX, 3);
    far.add_pulsar(3, usize::MAX - 1);
    far.add_pulsar(10, 0);
    assert_eq!(far.live_count(), 0);
}

#[test]
fn stamping_at_the_edge_keeps_in_bounds_cells() {
    let mut game = GameOfLife::blank(40, 12);
    game.add_gosper_glider_gun(20, 5);
    let gun = Pattern::gosper_glider_gun();
    let mut expected = 0;
    for row in 0..gun.height() {
        for col in 0..gun.width() {
            if 20 + col < 40 && 5 + row < 12 {
                assert_eq!(game.is_alive(20 + col, 5 + row), gun.cell(col, row));
                if gun.cell(col, row) {
                    expected += 1;
                }
            }
        }
    }
    assert_eq!(game.live_count(), expected);
}

#[test]
fn pattern_catalogue_shapes() {
    let shapes = [
        (Pattern::block(), 2, 2, 4),
        (Pattern::beehive(), 4, 3, 6),
        (Pattern::blinker(), 1, 3, 3),
        (Pattern::toad(), 4, 2, 6),
        (Pattern::beacon(), 4, 4, 8),
        (Pattern::pulsar(), 13, 13, 48),
        (Pattern::glider(), 3, 3, 5),
        (Pattern::lightweight_spaceship(), 5, 4, 9),
        (Pattern::middleweight_spaceship(), 6, 5, 11),
        (Pattern::heavyweight_spaceship(), 7, 5, 13),
        (Pattern::pentadecathlon(), 10, 3, 12),
        (Pattern::gosper_glider_gun(), 36, 9, 36),
    ];
    for (pattern, width, height, live) in shapes.iter() {
        assert_eq!(pattern.width(), *width);
        assert_eq!(pattern.height(), *height);
        let mut count = 0;
        for row in 0..pattern.height() {
            for col in 0..pattern.width() {
                if pattern.cell(col, row) {
                    count += 1;
                }
            }
        }
        assert_eq!(count, *live);
    }
}

#[test]
fn masks_read_from_the_highest_bit() {
    let p = Pattern::from_masks(4, &vec![0b1000, 0b0011]);
    assert!(p.cell(0, 0));
    assert!(!p.cell(3, 0));
    assert!(!p.cell(0, 1));
    assert!(p.cell(2, 1));
    assert!(p.cell(3, 1));
}

#[test]
fn random_soup_has_the_requested_shape_and_some_life() {
    let soup = Pattern::random_soup(20, 20);
    assert_eq!(soup.width(), 20);
    assert_eq!(soup.height(), 20);
    let mut live = 0;
    for row in 0..20 {
        for col in 0..20 {
            if soup.cell(col, row) {
                live += 1;
            }
        }
    }
    // 400 draws at 35%: far from both ends
    assert!(live > 40 && live < 360);
}

#[test]
fn new_board_holds_the_starting_layout() {
    let game = GameOfLife::new(150, 150);
    assert_eq!(game.generation(), 0);
    assert_eq!(game.width(), 150);
    assert_eq!(game.height(), 150);
    // the block at (3, 3) and the top cell of the first gun
    assert!(game.is_alive(3, 3) && game.is_alive(4, 4));
    assert!(game.is_alive(39, 15));
    assert!(game.is_active());
    assert_eq!(initial_placements().len(), 26);
}

#[test]
fn reseed_placements_stay_in_their_ranges() {
    let mut glider_xs = Vec::new();
    for _ in 0..20 {
        let plan = reseed_placements();
        assert_eq!(plan.len(), 15);
        assert!((10..35).contains(&plan[0].x) && (10..35).contains(&plan[0].y));
        assert!((100..135).contains(&plan[1].x) && (100..135).contains(&plan[1].y));
        for p in &plan[2..8] {
            assert!((10..140).contains(&p.x) && (10..140).contains(&p.y));
            assert_eq!(p.pattern.width(), 3);
            glider_xs.push(p.x);
        }
        for p in &plan[8..11] {
            assert!((15..120).contains(&p.x) && (15..120).contains(&p.y));
            assert!(p.pattern.width() >= 5);
        }
        for p in &plan[11..15] {
            assert!((15..110).contains(&p.x) && (15..110).contains(&p.y));
            assert_eq!(p.pattern.width(), 20);
            assert_eq!(p.pattern.height(), 20);
        }
    }
    assert!(glider_xs.iter().any(|&x| x != 10));
}
