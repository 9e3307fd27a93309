use phi::background::Background;
use phi::geometry::{Rectangle, UNIT};
use phi::sprite::{Canvas, DrawCmd, Sprite};
use phi::view::FRONT_VEL;

#[test]
fn background_wraps_within_sprite_width() {
    let mut bg = Background::new(Sprite::new(0, 800, 600), FRONT_VEL);
    let mut expected: i64 = 0;
    for _ in 0..25 {
        bg.advance(1000);
        expected = (expected + 80 * UNIT) % (800 * UNIT);
        assert!(bg.pos() >= 0 && bg.pos() < 800 * UNIT);
        assert_eq!(bg.pos(), expected);
    }
}

#[test]
fn background_reaches_width_and_wraps_to_zero() {
    let mut bg = Background::new(Sprite::new(0, 800, 600), FRONT_VEL);
    for _ in 0..10 {
        bg.advance(1000);
    }
    assert_eq!(bg.pos(), 0);
}

#[test]
fn long_frame_wraps_more_than_once() {
    let mut bg = Background::new(Sprite::new(0, 800, 600), FRONT_VEL);
    bg.advance(21_000);
    assert_eq!(bg.pos(), 80 * UNIT);
}

#[test]
fn tiles_cover_the_target() {
    let mut bg = Background::new(Sprite::new(0, 800, 600), FRONT_VEL);
    let at_zero = bg.tiles(800, 600);
    assert_eq!(at_zero, vec![Rectangle::new(0, 0, 800 * UNIT, 600 * UNIT)]);
    bg.advance(1000);
    let scrolled = bg.tiles(800, 600);
    assert_eq!(
        scrolled,
        vec![
            Rectangle::new(-80 * UNIT, 0, 800 * UNIT, 600 * UNIT),
            Rectangle::new(720 * UNIT, 0, 800 * UNIT, 600 * UNIT),
        ]
    );
}

#[test]
fn tiles_scale_to_target_height() {
    let mut bg = Background::new(Sprite::new(0, 400, 300), FRONT_VEL);
    bg.advance(1000);
    let t = bg.tiles(1000, 600);
    assert_eq!(t.len(), 2);
    assert_eq!(t[0], Rectangle::new(-160 * UNIT, 0, 800 * UNIT, 600 * UNIT));
    assert_eq!(t[1], Rectangle::new(640 * UNIT, 0, 800 * UNIT, 600 * UNIT));
}

#[test]
fn zero_height_target_gets_no_tiles() {
    let bg = Background::new(Sprite::new(0, 800, 600), FRONT_VEL);
    assert!(bg.tiles(800, 0).is_empty());
}

#[test]
fn render_advances_then_draws_tiles() {
    let sprite = Sprite::new(7, 800, 600);
    let mut bg = Background::new(sprite, FRONT_VEL);
    let mut c = Canvas::new(800, 600);
    bg.render(&mut c, 1000);
    assert_eq!(bg.pos(), 80 * UNIT);
    assert_eq!(
        c.cmds,
        vec![
            DrawCmd::Copy { sprite, dest: Rectangle::new(-80 * UNIT, 0, 800 * UNIT, 600 * UNIT) },
            DrawCmd::Copy { sprite, dest: Rectangle::new(720 * UNIT, 0, 800 * UNIT, 600 * UNIT) },
        ]
    );
}

fn assert_covers(t: &[Rectangle], width: i64, height: i64) {
    assert!(!t.is_empty());
    assert!(t[0].x <= 0 && t[0].x + t[0].w > 0);
    let last = t[t.len() - 1];
    assert!(last.x + last.w >= width);
    for i in 0..t.len() {
        assert!(t[i].y == 0 && t[i].h == height && t[i].w > 0);
        if i + 1 < t.len() {
            assert_eq!(t[i + 1].x, t[i].x + t[i].w);
        }
    }
}

#[test]
fn tiles_round_width_up_and_leave_no_gap() {
    let mut bg = Background::new(Sprite::new(0, 3, 7), 2_999_999);
    bg.advance(1);
    assert_eq!(bg.pos(), 2_999_999);
    let t = bg.tiles(10, 5);
    assert_eq!(t[0], Rectangle::new(-2_142_856, 0, 2_142_858, 5 * UNIT));
    assert_eq!(t.len(), 6);
    assert_covers(&t, 10 * UNIT, 5 * UNIT);
}

#[test]
fn thin_tall_sprite_still_tiles() {
    let bg = Background::new(Sprite::new(0, 1, 4_000_000_000), FRONT_VEL);
    let t = bg.tiles(1, 1);
    assert_eq!(t[0].w, 1);
    assert_eq!(t.len(), 1_000_000);
    assert_covers(&t, UNIT, UNIT);
}
