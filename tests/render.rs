use game_of_life::life::GameOfLife;
use game_of_life::render::{render, Framebuffer, DEAD_COLOR, LIVE_COLOR};

#[test]
fn new_framebuffer_is_background() {
    let fb = Framebuffer::new(4, 3);
    assert_eq!(fb.width(), 4);
    assert_eq!(fb.height(), 3);
    for y in 0..3 {
        for x in 0..4 {
            assert_eq!(fb.pixel(x, y), DEAD_COLOR);
            assert!(!fb.get_color(x, y));
        }
    }
}

#[test]
fn point_paints_one_pixel_and_ignores_points_outside() {
    let mut fb = Framebuffer::new(4, 3);
    fb.set_current_color(0x12345678);
    fb.point(2, 1);
    fb.point(4, 0);
    fb.point(0, 3);
    for y in 0..3 {
        for x in 0..4 {
            let expected = if (x, y) == (2, 1) { 0x12345678 } else { DEAD_COLOR };
            assert_eq!(fb.pixel(x, y), expected);
        }
    }
    assert!(fb.get_color(2, 1));
    assert!(!fb.get_color(1, 2));
    assert!(!fb.get_color(7, 7));
}

#[test]
fn clear_paints_the_background_colour() {
    let mut fb = Framebuffer::new(3, 3);
    fb.point(1, 1);
    fb.set_background_color(7);
    fb.clear();
    for y in 0..3 {
        for x in 0..3 {
            assert_eq!(fb.pixel(x, y), 7);
        }
    }
}

#[test]
fn render_maps_live_and_dead_cells_to_their_colours() {
    let mut game = GameOfLife::blank(6, 5);
    game.add_glider(1, 1);
    let mut fb = Framebuffer::new(6, 5);
    fb.set_background_color(0);
    fb.clear();
    render(&mut fb, &game);
    let mut live = 0;
    for y in 0..5 {
        for x in 0..6 {
            let expected = if game.is_alive(x, y) { LIVE_COLOR } else { DEAD_COLOR };
            assert_eq!(fb.pixel(x, y), expected);
            if fb.pixel(x, y) == LIVE_COLOR {
                live += 1;
            }
        }
    }
    assert_eq!(live, 5);
    assert_eq!(fb.pixel(2, 1), LIVE_COLOR);
}
