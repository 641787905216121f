use mqanim::geometry::vec2;
use mqanim::geometry::Vec2;
use mqanim::geometry::WorldPoint;

#[test]
fn map_interpolates_linearly() {
    assert_eq!(mqanim::map(5, 0, 10, 0, 100), 50);
    assert_eq!(mqanim::map(25, 0, 100, -50, 50), -25);
    assert_eq!(mqanim::map(3, 1, 5, -100, 100), 0);
}

#[test]
fn map_sends_the_ends_to_the_ends() {
    assert_eq!(mqanim::map(0, 0, 10, 3, 7), 3);
    assert_eq!(mqanim::map(10, 0, 10, 3, 7), 7);
    assert_eq!(mqanim::map(-4, -4, 9, 100, -100), 100);
    assert_eq!(mqanim::map(9, -4, 9, 100, -100), -100);
    assert_eq!(mqanim::map(9, 9, -4, 1, 2), 1);
    assert_eq!(mqanim::map(-4, 9, -4, 1, 2), 2);
}

#[test]
fn map_onto_a_falling_range() {
    assert_eq!(mqanim::map(2, 0, 10, 100, 0), 80);
    assert_eq!(mqanim::map(10, 0, 10, 100, 0), 0);
}

#[test]
fn map_from_a_falling_range() {
    assert_eq!(mqanim::map(8, 10, 0, 0, 100), 20);
    assert_eq!(mqanim::map(0, 10, 0, 0, 100), 100);
}

#[test]
fn map_rounds_down() {
    assert_eq!(mqanim::map(1, 0, 3, 0, 10), 3);
    assert_eq!(mqanim::map(2, 0, 3, 0, 10), 6);
    assert_eq!(mqanim::map(-1, 0, 3, 0, 10), -4);
    assert_eq!(mqanim::map(-3, 0, 2, 0, 1), -2);
    assert_eq!(mqanim::map(1, 0, 2, 0, -1), -1);
}

#[test]
fn map_does_not_clamp() {
    assert_eq!(mqanim::map(20, 0, 10, 0, 100), 200);
    assert_eq!(mqanim::map(-5, 0, 10, 0, 100), -50);
    assert_eq!(mqanim::map(15, 0, 10, 100, 0), -50);
}

#[test]
fn map_stays_in_the_target_range() {
    let mut v: i32 = -7;
    while v <= 13 {
        let up: i64 = mqanim::map(v, -7, 13, -3, 250);
        assert!(-3 <= up && up <= 250);
        let down: i64 = mqanim::map(v, -7, 13, 250, -3);
        assert!(-3 <= down && down <= 250);
        v += 1;
    }
}

#[test]
fn map_there_and_back_onto_a_longer_range() {
    let mut v: i32 = -20;
    while v <= 40 {
        let there: i64 = mqanim::map(v, 0, 10, 0, 100);
        let back: i64 = mqanim::map(there as i32, 0, 100, 0, 10);
        assert_eq!(back, v as i64);
        v += 1;
    }
}

#[test]
fn map_there_and_back_within_the_rounding() {
    let mut v: i32 = 0;
    while v <= 100 {
        let there: i64 = mqanim::map(v, 0, 100, 0, 7);
        let back: i64 = mqanim::map(there as i32, 0, 7, 0, 100);
        let slack: i64 = (100 + 7 - 1) / 7;
        assert!((v as i64) - slack <= back && back <= (v as i64) + slack);
        v += 1;
    }
}

#[test]
fn map_over_the_whole_32_bit_range() {
    assert_eq!(
        mqanim::map(i32::MAX, i32::MIN, i32::MAX, i32::MIN, i32::MAX),
        i32::MAX as i64
    );
    assert_eq!(mqanim::map(i32::MAX, i32::MIN, i32::MIN + 1, 0, 1), 4_294_967_295);
    assert_eq!(
        mqanim::map(i32::MAX, i32::MIN, i32::MIN + 1, 0, i32::MIN),
        -9_223_372_034_707_292_160
    );
}

#[test]
fn vec2_builds_a_vector() {
    assert_eq!(vec2(3, -4), Vec2 { x: 3, y: -4 });
}

#[test]
fn to_world_widens() {
    assert_eq!(vec2(i32::MIN, i32::MAX).to_world(), WorldPoint { x: -2_147_483_648, y: 2_147_483_647 });
}

#[test]
fn map_wide_holds_any_image() {
    assert_eq!(mqanim::map_wide(5, 0, 10, 0, 100), 50);
    assert_eq!(mqanim::map_wide(-3, 0, 2, 0, 1), -2);
    assert_eq!(
        mqanim::map_wide(i32::MAX, i32::MIN, i32::MIN + 1, i32::MIN, i32::MAX),
        18_446_744_062_972_133_377
    );
    assert_eq!(
        mqanim::map_wide(i32::MAX, i32::MIN, i32::MIN + 1, i32::MAX, i32::MIN),
        -18_446_744_062_972_133_378
    );
}

#[test]
fn map_there_and_back_where_the_image_is_exact() {
    let mut v: i32 = -50;
    while v <= 150 {
        if v % 10 == 0 {
            let there: i64 = mqanim::map(v, 0, 100, 3, 13);
            assert_eq!((there - 3) * 100, (v as i64) * 10);
            assert_eq!(mqanim::map(there as i32, 3, 13, 0, 100), v as i64);
        }
        v += 1;
    }
}
