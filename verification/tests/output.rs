use raycast::color::Color;
use raycast::image::Image;
use raycast::ppm::{push_header, push_triplet};
use raycast::preset::{parse, preset, select, Preset};
use raycast::text::{push_signed, push_unsigned};

fn decimal(n: u64) -> String {
    let mut out: Vec<u8> = Vec::new();
    push_unsigned(&mut out, n);
    String::from_utf8(out).unwrap()
}

fn signed_decimal(n: i64) -> String {
    let mut out: Vec<u8> = Vec::new();
    push_signed(&mut out, n);
    String::from_utf8(out).unwrap()
}

#[test]
fn color_new_keeps_its_channels() {
    let c = Color::new(1, 2, 3);
    assert_eq!((c.0, c.1, c.2), (1, 2, 3));
    assert_eq!(c, Color(1, 2, 3));
}

#[test]
fn color_sum_adds_channel_by_channel() {
    assert_eq!(Color::new(10, 20, 30) + Color::new(1, 2, 3), Color(11, 22, 33));
    assert_eq!(Color::new(0, 0, 0) + Color::new(7, 8, 9), Color(7, 8, 9));
}

#[test]
fn color_sum_stops_at_255() {
    assert_eq!(Color::new(200, 255, 1) + Color::new(100, 255, 254), Color(255, 255, 255));
    assert_eq!(Color::new(128, 127, 0) + Color::new(128, 128, 0), Color(255, 255, 0));
}

#[test]
fn color_sum_is_commutative() {
    let samples = [Color(0, 0, 0), Color(255, 255, 255), Color(200, 17, 90), Color(60, 240, 3)];
    for &a in samples.iter() {
        for &b in samples.iter() {
            assert_eq!(a + b, b + a);
        }
    }
}

#[test]
fn unsigned_decimal_text() {
    assert_eq!(decimal(0), "0");
    assert_eq!(decimal(7), "7");
    assert_eq!(decimal(10), "10");
    assert_eq!(decimal(255), "255");
    assert_eq!(decimal(800), "800");
    assert_eq!(decimal(1_000_000), "1000000");
    assert_eq!(decimal(u64::MAX), "18446744073709551615");
}

#[test]
fn unsigned_decimal_text_agrees_with_the_standard_formatter() {
    let mut n: u64 = 0;
    for step in 0..2000u64 {
        assert_eq!(decimal(n), format!("{}", n));
        n = n.wrapping_mul(31).wrapping_add(step * step + 1);
    }
}

#[test]
fn signed_decimal_text() {
    assert_eq!(signed_decimal(0), "0");
    assert_eq!(signed_decimal(-1), "-1");
    assert_eq!(signed_decimal(42), "42");
    assert_eq!(signed_decimal(-2147483648), "-2147483648");
    assert_eq!(signed_decimal(i64::MAX), "9223372036854775807");
    assert_eq!(signed_decimal(i64::MIN), "-9223372036854775808");
}

#[test]
fn push_appends_and_keeps_what_was_there() {
    let mut out: Vec<u8> = vec![b'x', b'='];
    push_unsigned(&mut out, 12);
    push_signed(&mut out, -3);
    assert_eq!(out, b"x=12-3".to_vec());
}

#[test]
fn header_has_three_lines() {
    let mut out: Vec<u8> = Vec::new();
    push_header(&mut out, 800, 600);
    assert_eq!(String::from_utf8(out).unwrap(), "P3\n800 600\n255\n");
}

#[test]
fn header_of_an_empty_image() {
    let mut out: Vec<u8> = Vec::new();
    push_header(&mut out, 0, 0);
    assert_eq!(String::from_utf8(out).unwrap(), "P3\n0 0\n255\n");
}

#[test]
fn triplet_is_one_line_of_three_values() {
    let mut out: Vec<u8> = Vec::new();
    push_triplet(&mut out, 255, 0, 127);
    push_triplet(&mut out, -1, 256, 3);
    assert_eq!(String::from_utf8(out).unwrap(), "255 0 127\n-1 256 3\n");
}

#[test]
fn image_new_has_its_size_and_no_pixels() {
    let image = Image::new(4, 3);
    assert_eq!(image.width, 4);
    assert_eq!(image.height, 3);
    assert!(image.pixels.is_empty());
    assert!(image.pixels.capacity() >= 12);
}

#[test]
fn image_of_size_zero() {
    let image = Image::new(0, 0);
    assert_eq!(String::from_utf8(image.to_ppm()).unwrap(), "P3\n0 0\n255\n");
}

#[test]
fn image_is_written_row_by_row() {
    let mut image = Image::new(2, 2);
    image.pixels.push(Color::new(255, 0, 0));
    image.pixels.push(Color::new(0, 255, 0));
    image.pixels.push(Color::new(0, 0, 255));
    image.pixels.push(Color::new(12, 34, 56));
    assert_eq!(
        String::from_utf8(image.to_ppm()).unwrap(),
        "P3\n2 2\n255\n255 0 0\n0 255 0\n0 0 255\n12 34 56\n"
    );
}

#[test]
fn image_writes_the_pixels_it_holds() {
    let mut image = Image::new(3, 1);
    image.pixels.push(Color::new(1, 2, 3));
    assert_eq!(String::from_utf8(image.to_ppm()).unwrap(), "P3\n3 1\n255\n1 2 3\n");
}

#[test]
fn parse_reads_decimal_integers() {
    assert_eq!(parse("0"), Some(0));
    assert_eq!(parse("3"), Some(3));
    assert_eq!(parse("+3"), Some(3));
    assert_eq!(parse("-3"), Some(-3));
    assert_eq!(parse("007"), Some(7));
    assert_eq!(parse("-0"), Some(0));
    assert_eq!(parse("2147483647"), Some(i32::MAX));
    assert_eq!(parse("-2147483648"), Some(i32::MIN));
    assert_eq!(parse("000000000000000000000000000000004"), Some(4));
}

#[test]
fn parse_rejects_everything_else() {
    for text in [
        "", "+", "-", "+-1", "--1", " 1", "1 ", "1.0", "one", "1e3", "0x10", "2147483648",
        "-2147483649", "99999999999999999999", "-99999999999999999999", "1_000", "\u{0663}",
        "12a", "a12", "1+", "\n2",
    ] {
        assert_eq!(parse(text), None, "{text:?}");
    }
}

#[test]
fn parse_agrees_with_the_standard_parser() {
    let alphabet = ['0', '1', '9', '+', '-', ' ', 'x', '7'];
    let mut texts: Vec<String> = vec![String::new()];
    for len in 1..=4usize {
        let mut index = vec![0usize; len];
        loop {
            texts.push(index.iter().map(|&i| alphabet[i]).collect());
            let mut k = 0;
            while k < len {
                index[k] += 1;
                if index[k] < alphabet.len() {
                    break;
                }
                index[k] = 0;
                k += 1;
            }
            if k == len {
                break;
            }
        }
    }
    for n in [i32::MIN as i64 - 1, i32::MIN as i64, -1, 0, 1, i32::MAX as i64, i32::MAX as i64 + 1] {
        texts.push(format!("{}", n));
        texts.push(format!("+{}", n));
        texts.push(format!("00{}", n));
    }
    for text in texts.iter() {
        assert_eq!(parse(text), text.parse::<i32>().ok(), "{text:?}");
    }
}

#[test]
fn numbers_one_to_four_name_the_presets() {
    assert_eq!(preset(1), Preset::One);
    assert_eq!(preset(2), Preset::Two);
    assert_eq!(preset(3), Preset::Three);
    assert_eq!(preset(4), Preset::Four);
}

#[test]
fn other_numbers_name_the_first_preset() {
    for n in [0, 5, -1, -4, 100, i32::MAX, i32::MIN] {
        assert_eq!(preset(n), Preset::One);
    }
}

#[test]
fn select_reads_the_argument() {
    assert_eq!(select(Some("1")), Preset::One);
    assert_eq!(select(Some("2")), Preset::Two);
    assert_eq!(select(Some("3")), Preset::Three);
    assert_eq!(select(Some("4")), Preset::Four);
    assert_eq!(select(Some("+4")), Preset::Four);
    assert_eq!(select(Some("04")), Preset::Four);
}

#[test]
fn select_falls_back_to_the_first_preset() {
    assert_eq!(select(None), Preset::One);
    for text in ["", "5", "0", "-2", "two", "2.0", " 2", "99999999999"] {
        assert_eq!(select(Some(text)), Preset::One, "{text:?}");
    }
}
