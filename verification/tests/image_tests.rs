//! Scenarios that run a planned action through the real imaging library,
//! the way the process shell does.

use image::GenericImageView;
use image_cli::ops::Action;
use image_cli::parser::{CommandLineArgs, CommandOp, Parser};

fn parse_ok(words: &[&str]) -> (CommandOp, CommandLineArgs) {
    let parser = Parser {};
    let mut args: Vec<String> = words.iter().map(|w| w.to_string()).collect();
    match parser.parse(&mut args) {
        Ok(pair) => pair,
        Err(_) => panic!("expected a successful parse"),
    }
}

#[test]
fn crop_of_a_square_source_yields_the_planned_size() {
    let (op, cla) = parse_ok(&["crop", "infile.png", "outfile.png", "0", "0", "100", "100"]);
    match op.invoke(cla) {
        Ok(Action::Crop { x, y, width, height, .. }) => {
            let buf = image::ImageBuffer::from_pixel(200, 200, image::Rgb([10u8, 20, 30]));
            let mut img = image::DynamicImage::ImageRgb8(buf);
            let out = img.crop(x, y, width, height);
            assert_eq!(out.width(), 100);
            assert_eq!(out.height(), 100);
        }
        _ => panic!("expected a crop action"),
    }
}

#[test]
fn grayscale_roundtrip_equalizes_channels() {
    let (op, cla) = parse_ok(&[
        "grayscale",
        "unused_source.png",
        "/tmp/image_cli_grayscale_roundtrip.png",
    ]);
    match op.invoke(cla) {
        Ok(Action::Grayscale { outfile, .. }) => {
            let buf = image::ImageBuffer::from_fn(8, 8, |x, y| {
                image::Rgb([(x * 30) as u8, (y * 25) as u8, 200u8])
            });
            let img = image::DynamicImage::ImageRgb8(buf);
            let gray = img.grayscale();
            gray.save(&outfile).expect("saving the grayscale image failed");
            let back = image::open(&outfile).expect("re-reading the output file failed");
            let rgb = back.to_rgb8();
            for p in rgb.pixels() {
                assert_eq!(p[0], p[1]);
                assert_eq!(p[1], p[2]);
            }
        }
        _ => panic!("expected a grayscale action"),
    }
}
