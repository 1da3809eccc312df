use image_cli::ops::{Action, OpError, Rotation};
use image_cli::parser::{CommandLineArgs, CommandOp, Parser};

fn tokens(words: &[&str]) -> Vec<String> {
    words.iter().map(|w| w.to_string()).collect()
}

fn parse(words: &[&str]) -> (CommandOp, CommandLineArgs) {
    let parser = Parser {};
    let mut args = tokens(words);
    match parser.parse(&mut args) {
        Ok(pair) => pair,
        Err(_) => panic!("expected a successful parse"),
    }
}

#[test]
fn blur_plans_with_a_float_value() {
    let (op, cla) = parse(&["blur", "in.png", "out.png", "2.5"]);
    match op.invoke(cla) {
        Ok(Action::Blur { infile, outfile, blur_value }) => {
            assert_eq!(infile.as_str(), "in.png");
            assert_eq!(outfile.as_str(), "out.png");
            assert_eq!(blur_value.as_str(), "2.5");
        },
        _ => panic!("expected a blur action"),
    }
}

#[test]
fn blur_rejects_a_non_number_naming_slot_and_value() {
    let (op, cla) = parse(&["blur", "infile.png", "outfile.png", "notanumber"]);
    match op.invoke(cla) {
        Err(e) => {
            assert!(matches!(
                &e,
                OpError::ParseFailure { slot, value }
                    if slot.as_str() == "blur_value" && value.as_str() == "notanumber"
            ));
            assert_eq!(
                e.message().as_str(),
                "Parsing failed! Cannot read <blur_value>: notanumber"
            );
        },
        Ok(_) => panic!("expected a parse failure"),
    }
}

#[test]
fn brighten_parses_a_negative_amount() {
    let (op, cla) = parse(&["brighten", "in.png", "out.png", "-25"]);
    match op.invoke(cla) {
        Ok(Action::Brighten { amount, .. }) => assert_eq!(amount, -25),
        _ => panic!("expected a brighten action"),
    }
}

#[test]
fn brighten_rejects_a_non_integer() {
    let (op, cla) = parse(&["brighten", "in.png", "out.png", "2.5"]);
    assert!(matches!(
        op.invoke(cla),
        Err(OpError::ParseFailure { slot, .. }) if slot.as_str() == "brighten_value"
    ));
}

#[test]
fn crop_plans_typed_coordinates() {
    let (op, cla) = parse(&["crop", "infile.png", "outfile.png", "0", "0", "100", "100"]);
    match op.invoke(cla) {
        Ok(Action::Crop { infile, outfile, x, y, width, height }) => {
            assert_eq!(infile.as_str(), "infile.png");
            assert_eq!(outfile.as_str(), "outfile.png");
            assert_eq!(x, 0);
            assert_eq!(y, 0);
            assert_eq!(width, 100);
            assert_eq!(height, 100);
        },
        _ => panic!("expected a crop action"),
    }
}

#[test]
fn crop_rejects_the_first_bad_coordinate() {
    let (op, cla) = parse(&["crop", "in.png", "out.png", "0", "zero", "abc", "100"]);
    assert!(matches!(
        op.invoke(cla),
        Err(OpError::ParseFailure { slot, value })
            if slot.as_str() == "y" && value.as_str() == "zero"
    ));
}

#[test]
fn crop_accepts_the_largest_coordinate() {
    let (op, cla) = parse(&["crop", "in.png", "out.png", "4294967295", "0", "1", "1"]);
    assert!(matches!(op.invoke(cla), Ok(Action::Crop { x: 4294967295, .. })));
}

#[test]
fn crop_rejects_an_overflowing_coordinate() {
    let (op, cla) = parse(&["crop", "in.png", "out.png", "4294967296", "0", "1", "1"]);
    assert!(matches!(
        op.invoke(cla),
        Err(OpError::ParseFailure { slot, .. }) if slot.as_str() == "x"
    ));
}

#[test]
fn rotate_accepts_each_quarter_turn() {
    let cases = [
        ("0", Rotation::R0),
        ("90", Rotation::R90),
        ("180", Rotation::R180),
        ("270", Rotation::R270),
    ];
    for (deg, expected) in cases {
        let (op, cla) = parse(&["rotate", "in.png", "out.png", deg]);
        match op.invoke(cla) {
            Ok(Action::Rotate { rotation, .. }) => assert_eq!(rotation, expected),
            _ => panic!("expected a rotate action"),
        }
    }
}

#[test]
fn rotate_rejects_a_diagonal_angle() {
    let (op, cla) = parse(&["rotate", "in.png", "out.png", "45"]);
    match op.invoke(cla) {
        Err(e) => {
            assert!(matches!(e, OpError::BadRotation));
            assert_eq!(
                e.message().as_str(),
                "Parsing failed! Angle degree must be multiples of 90..."
            );
        },
        Ok(_) => panic!("expected a rotation error"),
    }
}

#[test]
fn rotate_reduces_angles_modulo_full_turns() {
    let (op, cla) = parse(&["rotate", "in.png", "out.png", "450"]);
    assert!(matches!(
        op.invoke(cla),
        Ok(Action::Rotate { rotation: Rotation::R90, .. })
    ));
    let (op, cla) = parse(&["rotate", "in.png", "out.png", "720"]);
    assert!(matches!(
        op.invoke(cla),
        Ok(Action::Rotate { rotation: Rotation::R0, .. })
    ));
}

#[test]
fn rotate_rejects_a_non_numeric_angle() {
    let (op, cla) = parse(&["rotate", "in.png", "out.png", "west"]);
    assert!(matches!(
        op.invoke(cla),
        Err(OpError::ParseFailure { slot, value })
            if slot.as_str() == "deg_rotation" && value.as_str() == "west"
    ));
}

#[test]
fn invert_plans_both_files() {
    let (op, cla) = parse(&["invert", "a.png", "b.png"]);
    assert!(matches!(
        op.invoke(cla),
        Ok(Action::Invert { infile, outfile })
            if infile.as_str() == "a.png" && outfile.as_str() == "b.png"
    ));
}

#[test]
fn grayscale_plans_both_files() {
    let (op, cla) = parse(&["grayscale", "a.png", "b.png"]);
    assert!(matches!(
        op.invoke(cla),
        Ok(Action::Grayscale { infile, outfile })
            if infile.as_str() == "a.png" && outfile.as_str() == "b.png"
    ));
}

#[test]
fn generate_plans_only_the_outfile() {
    let (op, cla) = parse(&["generate", "out.png", "255", "0", "0"]);
    assert!(matches!(
        op.invoke(cla),
        Ok(Action::Generate { outfile }) if outfile.as_str() == "out.png"
    ));
}

#[test]
fn generate_does_not_validate_color_slots() {
    let (op, cla) = parse(&["generate", "out.png", "red", "green", "blue"]);
    assert!(matches!(op.invoke(cla), Ok(Action::Generate { .. })));
}

#[test]
fn fractal_plans_only_the_outfile() {
    let (op, cla) = parse(&["fractal", "art.png"]);
    assert!(matches!(
        op.invoke(cla),
        Ok(Action::Fractal { outfile }) if outfile.as_str() == "art.png"
    ));
}

#[test]
fn operations_are_callable_without_the_dispatcher() {
    let (_, cla) = parse(&["grayscale", "a.png", "b.png"]);
    assert!(matches!(
        image_cli::ops::grayscale(cla),
        Ok(Action::Grayscale { .. })
    ));
    let (_, cla) = parse(&["blur", "a.png", "b.png", "3"]);
    assert!(matches!(image_cli::ops::blur(cla), Ok(Action::Blur { .. })));
}
