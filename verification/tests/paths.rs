use text_deco::length::{
    check_coordinate, check_font_size, check_range, Em, Point, Size, MAX_COORDINATE, MAX_FONT_SIZE,
    MAX_LENGTH,
};
use text_deco::path::{outline_path, BezPathBuilder, OutlineCommand, PathEl};

fn at(x: i64, y: i64) -> Point {
    Point { x, y }
}

#[test]
fn em_fractions_are_rounded_down() {
    assert_eq!(Em { units: 1, per_em: 3 }.at(10), 3);
    assert_eq!(Em { units: -1, per_em: 3 }.at(10), -4);
    assert_eq!(Em { units: 2, per_em: 3 }.at(10), 6);
    assert_eq!(Em { units: -2, per_em: 3 }.at(9), -6);
    assert_eq!(Em { units: 500, per_em: 1000 }.at(12_000), 6000);
    assert_eq!(Em { units: 7, per_em: 1 }.at(0), 0);
    assert_eq!(Em::zero().at(10_000), 0);
    assert_eq!(Em { units: i32::MIN, per_em: 1 }.at(1 << 28), -(1 << 59));
    assert_eq!(Em { units: i32::MAX, per_em: u32::MAX }.at(1 << 28), 134_217_727);
}

#[test]
fn em_fractions_need_a_denominator() {
    assert!(Em::from_units(5, 1000).is_wf());
    assert!(!Em::from_units(5, 0).is_wf());
    assert_eq!(Em::from_units(5, 1000), Em { units: 5, per_em: 1000 });
}

#[test]
fn points_and_sizes_hold_what_they_are_given() {
    assert_eq!(Point::new(3, -4), Point { x: 3, y: -4 });
    assert_eq!(Size::new(30, 40), Size { x: 30, y: 40 });
}

#[test]
fn builder_scales_moves_and_flips() {
    let builder = BezPathBuilder::new(1000, 10_000, 700);
    assert_eq!(builder.s(250), 2500);
    assert_eq!(builder.s(-1), -10);
    assert_eq!(builder.p(250, 100), at(3200, -1000));
    assert_eq!(builder.p(0, -250), at(700, 2500));
    assert_eq!(builder.p(0, 0), at(700, 0));
}

#[test]
fn builder_rounds_down_before_it_flips() {
    let builder = BezPathBuilder::new(1000, 1500, 0);
    assert_eq!(builder.p(1, 1), at(1, -1));
    assert_eq!(builder.p(-1, -1), at(-2, 2));
}

#[test]
fn builder_records_each_operation() {
    let mut builder = BezPathBuilder::new(2048, 2048, -100);
    builder.move_to(0, 0);
    builder.line_to(10, 20);
    builder.quad_to(1, 2, 3, 4);
    builder.curve_to(5, 6, 7, 8, 9, 10);
    builder.close();
    assert_eq!(
        builder.finish(),
        vec![
            PathEl::MoveTo(at(-100, 0)),
            PathEl::LineTo(at(-90, -20)),
            PathEl::QuadTo(at(-99, -2), at(-97, -4)),
            PathEl::CurveTo(at(-95, -6), at(-93, -8), at(-91, -10)),
            PathEl::ClosePath,
        ]
    );
}

#[test]
fn empty_outline_gives_an_empty_path() {
    assert_eq!(outline_path(&vec![], 1000, 10_000, 5000), Vec::<PathEl>::new());
    assert_eq!(BezPathBuilder::new(1000, 10_000, 5000).finish(), Vec::<PathEl>::new());
}

#[test]
fn outline_becomes_a_path_command_by_command() {
    let outline = vec![
        OutlineCommand::MoveTo(50, -250),
        OutlineCommand::LineTo(150, -250),
        OutlineCommand::QuadTo(150, 500, 100, 500),
        OutlineCommand::CurveTo(90, 500, 60, 400, 50, -250),
        OutlineCommand::Close,
    ];
    let mut by_hand = BezPathBuilder::new(1000, 10_000, 5000);
    for command in &outline {
        by_hand.command(*command);
    }
    let path = outline_path(&outline, 1000, 10_000, 5000);
    assert_eq!(path, by_hand.finish());
    assert_eq!(
        path,
        vec![
            PathEl::MoveTo(at(5500, 2500)),
            PathEl::LineTo(at(6500, 2500)),
            PathEl::QuadTo(at(6500, -5000), at(6000, -5000)),
            PathEl::CurveTo(at(5900, -5000), at(5600, -4000), at(5500, 2500)),
            PathEl::ClosePath,
        ]
    );
}

#[test]
fn lengths_have_their_limits() {
    assert!(check_range(0));
    assert!(check_range(MAX_LENGTH));
    assert!(check_range(-MAX_LENGTH));
    assert!(!check_range(MAX_LENGTH + 1));
    assert!(!check_range(-MAX_LENGTH - 1));
    assert!(check_coordinate(4 * MAX_LENGTH));
    assert!(check_coordinate(-MAX_COORDINATE));
    assert!(!check_coordinate(MAX_COORDINATE + 1));
    assert!(!check_coordinate(i64::MIN));
    assert!(check_font_size(0));
    assert!(check_font_size(MAX_FONT_SIZE));
    assert!(!check_font_size(MAX_FONT_SIZE + 1));
    assert!(!check_font_size(-1));
}
