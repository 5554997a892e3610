use rsnow::flake::{get_snowflake, Color, Rolls, Snowflake};
use rsnow::glyph::{
    pick_shape, SF_CANDIDATES, SNOWFLAKE1, SNOWFLAKE2, SNOWFLAKE3, SNOWFLAKE4, SNOWFLAKE5,
    SNOWFLAKE6,
};

fn rolls(red: u8, green: u8, blue: u8, shape: usize, column: u16) -> Rolls {
    Rolls { red, green, blue, shape, column }
}

#[test]
fn candidates_are_the_six_snowflake_glyphs() {
    assert_eq!(SF_CANDIDATES, ['❄', '❅', '❆', '❉', '❊', '❋']);
    assert_eq!(SF_CANDIDATES[0], SNOWFLAKE1);
    assert_eq!(SF_CANDIDATES[1], SNOWFLAKE2);
    assert_eq!(SF_CANDIDATES[2], SNOWFLAKE3);
    assert_eq!(SF_CANDIDATES[3], SNOWFLAKE4);
    assert_eq!(SF_CANDIDATES[4], SNOWFLAKE5);
    assert_eq!(SF_CANDIDATES[5], SNOWFLAKE6);
}

#[test]
fn pick_shape_deals_rolls_round_the_candidates() {
    assert_eq!(pick_shape(0), '❄');
    assert_eq!(pick_shape(1), '❅');
    assert_eq!(pick_shape(5), '❋');
    assert_eq!(pick_shape(6), '❄');
    assert_eq!(pick_shape(7), '❅');
    assert_eq!(pick_shape(100), '❊');
    assert_eq!(pick_shape(usize::MAX), SF_CANDIDATES[usize::MAX % 6]);
}

#[test]
fn plain_flake_is_white_and_of_the_first_shape() {
    let flake = Snowflake::from_rolls(false, false, 80, rolls(10, 20, 30, 4, 1000));
    assert_eq!(flake, Snowflake { x: 40, y: 0, color: Color::White, shape: '❄' });
}

#[test]
fn rainbow_flake_has_the_rolled_color() {
    let flake = Snowflake::from_rolls(false, true, 80, rolls(10, 20, 30, 4, 79));
    assert_eq!(
        flake,
        Snowflake { x: 79, y: 0, color: Color::Rgb { r: 10, g: 20, b: 30 }, shape: '❄' }
    );
}

#[test]
fn random_flake_has_the_rolled_shape() {
    let flake = Snowflake::from_rolls(true, false, 80, rolls(10, 20, 30, 9, 80));
    assert_eq!(flake, Snowflake { x: 0, y: 0, color: Color::White, shape: '❉' });
}

#[test]
fn rainbow_random_flake_has_both() {
    let flake = Snowflake::from_rolls(true, true, 7, rolls(255, 0, 128, 5, 65535));
    assert_eq!(
        flake,
        Snowflake { x: 65535 % 7, y: 0, color: Color::Rgb { r: 255, g: 0, b: 128 }, shape: '❋' }
    );
}

#[test]
fn two_rainbow_flakes_need_not_match() {
    let a = Snowflake::from_rolls(false, true, 80, rolls(1, 2, 3, 0, 5));
    let b = Snowflake::from_rolls(false, true, 80, rolls(3, 2, 1, 0, 5));
    assert_ne!(a.color, b.color);
    let c = Snowflake::from_rolls(false, true, 80, rolls(1, 2, 3, 4, 60));
    assert_eq!(a.color, c.color);
}

#[test]
fn column_is_on_the_screen_for_every_width() {
    for width in [1u16, 2, 3, 12, 80, 255, 256, 1000, 65535] {
        for column in [0u16, 1, 79, 80, 81, 255, 256, 4000, 65534, 65535] {
            let flake = Snowflake::from_rolls(false, false, width, rolls(0, 0, 0, 0, column));
            assert!(flake.x < width);
            assert_eq!(flake.x, column % width);
            assert_eq!(flake.y, 0);
        }
    }
}

#[test]
fn on_a_screen_one_column_wide_every_flake_is_in_column_zero() {
    for _ in 0..50 {
        assert_eq!(get_snowflake(true, true, 1).x, 0);
    }
}

#[test]
fn get_snowflake_plain_gives_white_first_shape_in_the_top_row() {
    for width in [1u16, 5, 80, 65535] {
        for _ in 0..200 {
            let flake = get_snowflake(false, false, width);
            assert!(flake.x < width);
            assert_eq!(flake.y, 0);
            assert_eq!(flake.color, Color::White);
            assert_eq!(flake.shape, SNOWFLAKE1);
        }
    }
}

#[test]
fn get_snowflake_random_gives_a_candidate_shape() {
    for _ in 0..500 {
        let flake = get_snowflake(true, false, 80);
        assert!(SF_CANDIDATES.contains(&flake.shape));
        assert_eq!(flake.color, Color::White);
        assert!(flake.x < 80);
        assert_eq!(flake.y, 0);
    }
}

#[test]
fn get_snowflake_rainbow_gives_a_color_triple() {
    for _ in 0..500 {
        let flake = get_snowflake(false, true, 80);
        assert!(matches!(flake.color, Color::Rgb { .. }));
        assert_eq!(flake.shape, SNOWFLAKE1);
        assert!(flake.x < 80);
    }
}

#[test]
fn the_dice_do_not_always_fall_alike() {
    let first = get_snowflake(true, true, 60000);
    let mut other_color = false;
    let mut other_shape = false;
    let mut other_column = false;
    for _ in 0..500 {
        let flake = get_snowflake(true, true, 60000);
        other_color = other_color || flake.color != first.color;
        other_shape = other_shape || flake.shape != first.shape;
        other_column = other_column || flake.x != first.x;
    }
    assert!(other_color);
    assert!(other_shape);
    assert!(other_column);
}

#[test]
fn draw_leaves_unused_dice_at_zero() {
    for _ in 0..100 {
        let plain = Rolls::draw(false, false);
        assert_eq!((plain.red, plain.green, plain.blue, plain.shape), (0, 0, 0, 0));
        let rainbow = Rolls::draw(false, true);
        assert_eq!(rainbow.shape, 0);
        let random = Rolls::draw(true, false);
        assert_eq!((random.red, random.green, random.blue), (0, 0, 0));
    }
}

#[test]
fn draw_all_rolls_for_each_flake() {
    assert_eq!(Rolls::draw_all(0, true, true).len(), 0);
    assert_eq!(Rolls::draw_all(1, true, true).len(), 1);
    assert_eq!(Rolls::draw_all(100, false, false).len(), 100);
    let all = Rolls::draw_all(300, true, true);
    assert!(all.iter().any(|r| *r != all[0]));
}
