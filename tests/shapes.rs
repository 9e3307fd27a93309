use phi::geometry::{Rectangle, UNIT};
use phi::sprite::{Canvas, DrawCmd, Sprite};

#[test]
fn contains_is_inclusive() {
    let outer = Rectangle::new(0, 0, 10, 10);
    assert!(outer.contains(Rectangle::new(0, 0, 10, 10)));
    assert!(outer.contains(Rectangle::new(2, 3, 4, 5)));
    assert!(!outer.contains(Rectangle::new(8, 0, 3, 1)));
    assert!(!outer.contains(Rectangle::new(-1, 0, 3, 1)));
    assert!(!outer.contains(Rectangle::new(0, 9, 1, 2)));
}

#[test]
fn move_inside_clamps_each_axis() {
    let parent = Rectangle::new(0, 0, 560 * UNIT, 600 * UNIT);
    let r = Rectangle::new(-5 * UNIT, 700 * UNIT, 32 * UNIT, 32 * UNIT);
    let m = r.move_inside(parent).unwrap();
    assert_eq!(m, Rectangle::new(0, 568 * UNIT, 32 * UNIT, 32 * UNIT));
    assert!(parent.contains(m));

    let inside = Rectangle::new(64 * UNIT, 64 * UNIT, 32 * UNIT, 32 * UNIT);
    assert_eq!(inside.move_inside(parent), Some(inside));

    let right = Rectangle::new(550 * UNIT, 10, 32 * UNIT, 32 * UNIT);
    assert_eq!(right.move_inside(parent).unwrap().x, 528 * UNIT);
}

#[test]
fn move_inside_refuses_larger_rectangles() {
    let parent = Rectangle::new(0, 0, 100, 100);
    assert_eq!(Rectangle::new(0, 0, 101, 10).move_inside(parent), None);
    assert_eq!(Rectangle::new(0, 0, 10, 101).move_inside(parent), None);
    let same = Rectangle::new(40, -40, 100, 100).move_inside(parent).unwrap();
    assert_eq!(same, parent);
}

#[test]
fn sprite_covers_its_texture() {
    let s = Sprite::new(3, 129, 117);
    assert_eq!(s.tex, 3);
    assert_eq!(s.size(), (129 * UNIT, 117 * UNIT));
}

#[test]
fn region_is_relative_to_the_parent() {
    let sheet = Sprite::new(0, 129, 117);
    let cell = sheet.region(Rectangle::new(43 * UNIT, 39 * UNIT, 43 * UNIT, 39 * UNIT)).unwrap();
    assert_eq!(cell.src, Rectangle::new(43 * UNIT, 39 * UNIT, 43 * UNIT, 39 * UNIT));
    let inner = cell.region(Rectangle::new(UNIT, 2 * UNIT, 10 * UNIT, 10 * UNIT)).unwrap();
    assert_eq!(inner.src, Rectangle::new(44 * UNIT, 41 * UNIT, 10 * UNIT, 10 * UNIT));
    assert_eq!(inner.tex, 0);
}

#[test]
fn region_outside_the_parent_is_none() {
    let sheet = Sprite::new(0, 129, 117);
    assert!(sheet.region(Rectangle::new(100 * UNIT, 0, 43 * UNIT, 39 * UNIT)).is_none());
    let cell = sheet.region(Rectangle::new(43 * UNIT, 0, 43 * UNIT, 39 * UNIT)).unwrap();
    assert!(cell.region(Rectangle::new(-UNIT, 0, 10 * UNIT, 10 * UNIT)).is_none());
}

#[test]
fn canvas_records_operations_in_order() {
    let mut c = Canvas::new(800, 600);
    let s = Sprite::new(1, 10, 10);
    c.clear();
    c.copy_sprite(&s, Rectangle::new(1, 2, 3, 4));
    assert_eq!(c.cmds, vec![DrawCmd::Clear, DrawCmd::Copy { sprite: s, dest: Rectangle::new(1, 2, 3, 4) }]);
}
