use iced_tutorial::{spawn_circle, ChaosCircle, ParticleField, SpawnDraw, MAX_RADIUS, MAX_SPEED, MIN_RADIUS};

fn in_bounds(c: &ChaosCircle, w: i32, h: i32) -> bool {
    c.radius <= c.x && c.x <= w - c.radius && c.radius <= c.y && c.y <= h - c.radius
}

#[test]
fn reflects_off_the_right_edge() {
    let mut c = ChaosCircle::new(795, 300, 10, 0, 10, 0xff0000);
    c.update(800, 600);
    assert_eq!(c.vx, -10);
    assert_eq!(c.x, 790);
    assert!(c.x <= 800 - c.radius);
    assert_eq!(c.y, 300);
    assert_eq!(c.vy, 0);
}

#[test]
fn reflects_off_the_top_left_corner() {
    let mut c = ChaosCircle::new(12, 8, -5, -7, 10, 1);
    c.update(100, 100);
    assert_eq!((c.x, c.y), (10, 10));
    assert_eq!((c.vx, c.vy), (5, 7));
}

#[test]
fn moves_freely_inside() {
    let mut c = ChaosCircle::new(50, 50, 3, -2, 5, 1);
    c.update(100, 100);
    assert_eq!((c.x, c.y), (53, 48));
    assert_eq!((c.vx, c.vy), (3, -2));
}

#[test]
fn out_of_range_circle_is_clamped_on_next_update() {
    let mut c = ChaosCircle::new(500, 20, 0, 0, 10, 1);
    c.update(200, 100);
    assert_eq!(c.x, 190);
    assert!(in_bounds(&c, 200, 100));
}

#[test]
fn many_updates_stay_in_bounds_and_keep_speed() {
    let mut c = ChaosCircle::new(40, 30, 17, -23, 12, 7);
    for _ in 0..1000 {
        c.update(97, 61);
        assert!(in_bounds(&c, 97, 61));
        assert_eq!(c.vx.abs(), 17);
        assert_eq!(c.vy.abs(), 23);
    }
}

#[test]
fn spawn_adds_one_circle_in_bounds() {
    let mut field = ParticleField::new(800, 600);
    assert_eq!(field.len(), 0);
    let draws = [
        SpawnDraw { x: 0, y: 0, vx: 0, vy: 0, radius: 0, color: 0 },
        SpawnDraw { x: u32::MAX, y: u32::MAX, vx: u32::MAX, vy: u32::MAX, radius: u32::MAX, color: u32::MAX },
        SpawnDraw { x: 12345, y: 999, vx: 3, vy: 8, radius: 14, color: 0x12345678 },
    ];
    for (k, d) in draws.iter().enumerate() {
        field.spawn(*d);
        assert_eq!(field.len(), k + 1);
        let c = field.circles[k];
        assert!(in_bounds(&c, 800, 600));
        assert!(MIN_RADIUS <= c.radius && c.radius <= MAX_RADIUS);
        assert!(c.vx.abs() <= MAX_SPEED && c.vy.abs() <= MAX_SPEED);
        assert!(c.color < 0x100_0000);
    }
}

#[test]
fn spawn_formula_values() {
    let c = spawn_circle(SpawnDraw { x: 12345, y: 999, vx: 3, vy: 8, radius: 14, color: 0x12345678 }, 800, 600);
    // radius 6 + 14 % 15 = 20; x = 20 + 12345 % 761; y = 20 + 999 % 561
    assert_eq!(c.radius, 20);
    assert_eq!(c.x, 20 + 12345 % 761);
    assert_eq!(c.y, 20 + 999 % 561);
    assert_eq!(c.vx, 3 - 4);
    assert_eq!(c.vy, 8 - 4);
    assert_eq!(c.color, 0x345678);
}

#[test]
fn spawn_in_tiny_rectangle_shrinks_radius() {
    let mut field = ParticleField::new(0, 0);
    field.spawn(SpawnDraw { x: 7, y: 9, vx: 1, vy: 2, radius: 3, color: 4 });
    assert_eq!(field.len(), 1);
    let c = field.circles[0];
    assert_eq!((c.x, c.y, c.radius), (0, 0, 0));
    let c2 = spawn_circle(SpawnDraw { x: 7, y: 9, vx: 1, vy: 2, radius: 14, color: 4 }, 30, 100);
    assert_eq!(c2.radius, 15);
    assert_eq!(c2.x, 15);
}

#[test]
fn update_all_keeps_every_circle_in_bounds() {
    let mut field = ParticleField::new(320, 240);
    for k in 0..50u32 {
        field.spawn(SpawnDraw {
            x: k * 7919,
            y: k * 104729,
            vx: k * 31,
            vy: k * 17,
            radius: k,
            color: k * 999,
        });
    }
    for _ in 0..500 {
        field.update_all();
        for c in field.circles.iter() {
            assert!(in_bounds(c, 320, 240));
        }
    }
    assert_eq!(field.len(), 50);
}

#[test]
fn resize_leaves_circles_until_next_update() {
    let mut field = ParticleField::new(800, 600);
    field.spawn(SpawnDraw { x: 700, y: 500, vx: 0, vy: 0, radius: 14, color: 1 });
    let before = field.circles[0];
    field.resize(100, 100);
    assert_eq!(field.circles[0], before);
    assert_eq!((field.width, field.height), (100, 100));
    field.update_all();
    assert!(in_bounds(&field.circles[0], 100, 100));
}
