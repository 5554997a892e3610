use rsnow::args::Args;
use rsnow::driver::{Driver, Phase, Upkeep, TICK_MILLIS};
use rsnow::flake::{Color, Rolls, Snowflake};
use rsnow::glyph::SF_CANDIDATES;
use rsnow::input::{Key, KeyKind, Polled};
use rsnow::paint::{tree_strokes, Stroke, Text};

fn column(column: u16) -> Rolls {
    Rolls { red: 0, green: 0, blue: 0, shape: 0, column }
}

fn white(x: u16, y: u16) -> Snowflake {
    Snowflake { x, y, color: Color::White, shape: '❄' }
}

fn dot(x: u16, y: u16) -> Stroke {
    Stroke { column: x, row: y, color: Color::White, text: Text::Glyph('❄') }
}

fn press(c: char) -> Polled {
    Polled::Key { key: Key::Char(c), kind: KeyKind::Press }
}

#[test]
fn a_tick_lasts_a_tenth_of_a_second() {
    assert_eq!(TICK_MILLIS, 100);
}

#[test]
fn new_driver_runs_with_no_flakes() {
    let driver = Driver::new(Args::default());
    assert_eq!(driver.phase(), Phase::Running);
    assert_eq!(driver.flakes(), &vec![]);
    assert_eq!(driver.args(), Args::default());
}

#[test]
fn first_tick_paints_the_first_flake_and_lets_it_fall() {
    let mut driver = Driver::new(Args::new(2, 3, false, false, true).unwrap());
    let strokes = driver.tick_with(80, 24, &vec![column(5), column(85), column(79)]);
    assert_eq!(strokes, vec![dot(5, 0)]);
    assert_eq!(driver.flakes(), &vec![white(5, 2), white(5, 0), white(79, 0)]);
}

#[test]
fn second_tick_paints_what_the_first_left_behind() {
    let mut driver = Driver::new(Args::new(2, 3, false, false, true).unwrap());
    driver.tick_with(80, 24, &vec![column(5), column(85), column(79)]);
    let strokes = driver.tick_with(80, 24, &vec![column(11), column(12), column(13)]);
    assert_eq!(strokes, vec![dot(5, 2), dot(5, 0), dot(79, 0), dot(11, 0)]);
    assert_eq!(
        driver.flakes(),
        &vec![white(5, 4), white(5, 2), white(79, 2), white(11, 2), white(12, 0), white(13, 0)]
    );
}

#[test]
fn tick_uses_the_modes_of_the_settings() {
    let mut driver = Driver::new(Args::new(1, 2, true, true, true).unwrap());
    let rolls = vec![
        Rolls { red: 1, green: 2, blue: 3, shape: 8, column: 100 },
        Rolls { red: 4, green: 5, blue: 6, shape: 3, column: 7 },
    ];
    let strokes = driver.tick_with(80, 24, &rolls);
    assert_eq!(
        strokes,
        vec![Stroke {
            column: 20,
            row: 0,
            color: Color::Rgb { r: 1, g: 2, b: 3 },
            text: Text::Glyph('❆'),
        }]
    );
    assert_eq!(
        driver.flakes(),
        &vec![
            Snowflake { x: 20, y: 1, color: Color::Rgb { r: 1, g: 2, b: 3 }, shape: '❆' },
            Snowflake { x: 7, y: 0, color: Color::Rgb { r: 4, g: 5, b: 6 }, shape: '❉' },
        ]
    );
}

#[test]
fn tick_with_tree_paints_the_tree_before_the_flakes() {
    let mut driver = Driver::new(Args::new(1, 1, false, false, false).unwrap());
    let strokes = driver.tick_with(80, 24, &vec![column(40)]);
    assert_eq!(strokes.len(), 7);
    assert_eq!(strokes[..6], tree_strokes(80, 24)[..]);
    assert_eq!(strokes[6], dot(40, 0));
}

#[test]
fn tick_without_tree_paints_no_tree() {
    let mut driver = Driver::new(Args::new(1, 1, false, false, true).unwrap());
    for tick in 0..10 {
        let strokes = driver.tick_with(80, 24, &vec![column(tick)]);
        assert_eq!(strokes.len(), tick as usize + 1);
        assert!(strokes.iter().all(|s| s.text == Text::Glyph('❄') && s.color == Color::White));
    }
}

#[test]
fn quantity_zero_still_brings_one_flake_a_tick() {
    let mut driver = Driver::new(Args::new(1, 0, false, false, true).unwrap());
    driver.tick_with(80, 24, &vec![column(1)]);
    driver.tick_with(80, 24, &vec![column(2)]);
    assert_eq!(driver.flakes(), &vec![white(1, 2), white(2, 1)]);
}

#[test]
fn spawn_rate_is_the_quantity_while_nothing_lands() {
    for quantity in [1u8, 2, 7, 20, 100] {
        let args = Args::new(1, quantity, false, false, true).unwrap();
        let mut driver = Driver::new(args);
        for tick in 1usize..=30 {
            let rolls: Vec<Rolls> = (0..quantity).map(|i| column(i as u16)).collect();
            driver.tick_with(200, 1000, &rolls);
            assert_eq!(driver.flakes().len(), quantity as usize * tick);
        }
    }
}

#[test]
fn spawn_rate_with_the_dice() {
    let mut driver = Driver::new(Args::default());
    for tick in 1usize..=10 {
        let strokes = driver.tick(80, 24);
        assert_eq!(strokes.len(), 6 + 20 * (tick - 1) + 1);
        assert_eq!(driver.flakes().len(), 20 * tick);
    }
}

#[test]
fn tick_with_the_dice_keeps_flakes_on_the_screen_and_in_keeping() {
    let mut driver = Driver::new(Args::new(1, 50, false, false, true).unwrap());
    for _ in 0..5 {
        driver.tick(33, 24);
    }
    for flake in driver.flakes() {
        assert!(flake.x < 33);
        assert_eq!(flake.color, Color::White);
        assert_eq!(flake.shape, '❄');
    }
    let mut driver = Driver::new(Args::new(1, 50, true, true, true).unwrap());
    for _ in 0..5 {
        driver.tick(33, 24);
    }
    for flake in driver.flakes() {
        assert!(flake.x < 33);
        assert!(matches!(flake.color, Color::Rgb { .. }));
        assert!(SF_CANDIDATES.contains(&flake.shape));
    }
    assert!(driver.flakes().iter().any(|f| f.color != driver.flakes()[0].color));
}

#[test]
fn flakes_keep_their_column_when_the_screen_shrinks() {
    let mut driver = Driver::new(Args::new(1, 1, false, false, true).unwrap());
    driver.tick_with(80, 24, &vec![column(70)]);
    let strokes = driver.tick_with(10, 24, &vec![column(70)]);
    assert_eq!(strokes, vec![dot(70, 1), dot(0, 0)]);
    assert_eq!(driver.flakes(), &vec![white(70, 2), white(0, 1)]);
}

#[test]
fn flakes_below_a_shrunk_screen_are_removed() {
    let mut driver = Driver::new(Args::new(1, 1, false, false, true).unwrap());
    for _ in 0..10 {
        driver.tick_with(80, 24, &vec![column(1)]);
    }
    assert_eq!(driver.flakes().len(), 10);
    driver.tick_with(80, 5, &vec![column(2)]);
    assert_eq!(driver.flakes(), &vec![white(1, 4), white(1, 3), white(1, 2), white(2, 1)]);
}

#[test]
fn on_a_screen_without_rows_only_the_late_spawns_remain() {
    let mut driver = Driver::new(Args::new(1, 3, false, false, false).unwrap());
    driver.tick_with(80, 24, &vec![column(1), column(2), column(3)]);
    let strokes = driver.tick_with(80, 0, &vec![column(4), column(5), column(6)]);
    assert_eq!(strokes.len(), 6 + 4);
    assert_eq!(driver.flakes(), &vec![white(5, 0), white(6, 0)]);
}

#[test]
fn ready_needs_a_column() {
    let driver = Driver::new(Args::default());
    assert!(!driver.ready(0, 24));
    assert!(!driver.ready(0, 0));
    assert!(driver.ready(1, 0));
    assert!(driver.ready(1, 1));
    assert!(driver.ready(80, 24));
    assert!(driver.ready(65535, 65535));
}

#[test]
fn ready_while_every_flake_has_a_row_to_fall_to() {
    let mut driver = Driver::new(Args::new(5, 1, false, false, true).unwrap());
    for _ in 0..100 {
        assert!(driver.ready(80, 65535));
        assert!(driver.ready(80, 24));
        assert!(driver.ready(80, 0));
        driver.tick_with(80, 65535, &vec![column(0)]);
    }
    assert_eq!(driver.flakes()[0].y, 500);
    assert_eq!(driver.flakes().len(), 100);
}

#[test]
fn not_ready_when_a_flake_would_pass_the_last_row_number() {
    let mut driver = Driver::new(Args::new(4, 1, false, false, true).unwrap());
    for tick in 0..16383 {
        if tick % 4000 == 0 {
            assert!(driver.ready(80, 65535));
        }
        driver.tick_with(80, 65535, &vec![column(0)]);
    }
    assert_eq!(driver.flakes()[0].y, 65532);
    assert!(!driver.ready(80, 65535));
    assert!(!driver.ready(80, 65534));
    assert!(driver.ready(80, 65533));
    assert!(driver.ready(80, 24));
    driver.tick_with(80, 65533, &vec![column(0)]);
    assert_eq!(driver.flakes()[0].y, 65532);
    assert_eq!(driver.flakes()[1].y, 65528);
    assert_eq!(driver.flakes().len(), 16383);
}

#[test]
fn pressed_q_terminates() {
    let mut driver = Driver::new(Args::default());
    assert_eq!(driver.poll(press('q')), Upkeep::RestoreTerminal);
    assert_eq!(driver.phase(), Phase::Terminating);
}

#[test]
fn released_q_does_not_terminate() {
    let mut driver = Driver::new(Args::default());
    let released = Polled::Key { key: Key::Char('q'), kind: KeyKind::Release };
    assert_eq!(driver.poll(released), Upkeep::ClearScreen);
    assert_eq!(driver.phase(), Phase::Running);
}

#[test]
fn repeated_q_does_not_terminate() {
    let mut driver = Driver::new(Args::default());
    let repeated = Polled::Key { key: Key::Char('q'), kind: KeyKind::Repeat };
    assert_eq!(driver.poll(repeated), Upkeep::ClearScreen);
    assert_eq!(driver.phase(), Phase::Running);
}

#[test]
fn nothing_else_terminates() {
    let mut driver = Driver::new(Args::default());
    for polled in [
        Polled::Nothing,
        Polled::Other,
        press('Q'),
        press('x'),
        Polled::Key { key: Key::Other, kind: KeyKind::Press },
    ] {
        assert_eq!(driver.poll(polled), Upkeep::ClearScreen);
        assert_eq!(driver.phase(), Phase::Running);
    }
}

#[test]
fn poll_leaves_the_flakes_alone() {
    let mut driver = Driver::new(Args::new(1, 2, false, false, true).unwrap());
    driver.tick_with(80, 24, &vec![column(1), column(2)]);
    driver.poll(Polled::Nothing);
    assert_eq!(driver.flakes(), &vec![white(1, 1), white(2, 0)]);
    driver.poll(press('q'));
    assert_eq!(driver.flakes(), &vec![white(1, 1), white(2, 0)]);
}

#[test]
fn terminating_is_for_good() {
    let mut driver = Driver::new(Args::new(1, 2, false, false, false).unwrap());
    driver.tick_with(80, 24, &vec![column(1), column(2)]);
    driver.poll(press('q'));
    assert_eq!(driver.poll(Polled::Nothing), Upkeep::RestoreTerminal);
    assert_eq!(driver.poll(press('x')), Upkeep::RestoreTerminal);
    assert_eq!(driver.phase(), Phase::Terminating);
    assert_eq!(driver.tick_with(80, 24, &vec![column(3), column(4)]), vec![]);
    assert_eq!(driver.tick(80, 24), vec![]);
    assert_eq!(driver.flakes(), &vec![white(1, 1), white(2, 0)]);
    assert_eq!(driver.phase(), Phase::Terminating);
}

#[test]
fn the_tick_in_which_q_is_pressed_is_completed() {
    let mut driver = Driver::new(Args::new(1, 1, false, false, true).unwrap());
    let strokes = driver.tick_with(80, 24, &vec![column(9)]);
    assert_eq!(strokes, vec![dot(9, 0)]);
    assert_eq!(driver.poll(press('q')), Upkeep::RestoreTerminal);
    assert_eq!(driver.flakes(), &vec![white(9, 1)]);
}
