use egui::Color32;
use sophross::color::Color;

#[test]
fn colors_are_written_with_eight_lower_case_digits() {
    assert_eq!(Color { r: 255, g: 0, b: 0, a: 255 }.to_hex(), "#ff0000ff");
    assert_eq!(Color { r: 0, g: 0, b: 0, a: 0 }.to_hex(), "#00000000");
    assert_eq!(Color { r: 0x1a, g: 0x2B, b: 0x3c, a: 0x4d }.to_hex(), "#1a2b3c4d");
    assert_eq!(Color { r: 10, g: 20, b: 30, a: 40 }.to_hex(), "#0a141e28");
}

#[test]
fn all_four_lengths_are_read() {
    assert_eq!(Color::from_hex("#00f"), Some(Color { r: 0, g: 0, b: 255, a: 255 }));
    assert_eq!(Color::from_hex("#0000"), Some(Color { r: 0, g: 0, b: 0, a: 0 }));
    assert_eq!(Color::from_hex("#1a2"), Some(Color { r: 0x11, g: 0xaa, b: 0x22, a: 255 }));
    assert_eq!(Color::from_hex("#1a2c"), Some(Color { r: 0x11, g: 0xaa, b: 0x22, a: 0xcc }));
    assert_eq!(Color::from_hex("#ff0000"), Some(Color { r: 255, g: 0, b: 0, a: 255 }));
    assert_eq!(Color::from_hex("#00ff00ff"), Some(Color { r: 0, g: 255, b: 0, a: 255 }));
    assert_eq!(Color::from_hex("#0A141E28"), Some(Color { r: 10, g: 20, b: 30, a: 40 }));
}

#[test]
fn malformed_hex_names_no_color() {
    assert_eq!(Color::from_hex(""), None);
    assert_eq!(Color::from_hex("#"), None);
    assert_eq!(Color::from_hex("ff0000"), None);
    assert_eq!(Color::from_hex("#ff00"), Some(Color { r: 255, g: 255, b: 0, a: 0 }));
    assert_eq!(Color::from_hex("#ff000"), None);
    assert_eq!(Color::from_hex("#ff0000f"), None);
    assert_eq!(Color::from_hex("#ff0000fff"), None);
    assert_eq!(Color::from_hex("#gg0000"), None);
    assert_eq!(Color::from_hex("#+ff"), None);
    assert_eq!(Color::from_hex("#ff00é0"), None);
    assert_eq!(Color::from_hex("#é"), None);
    assert_eq!(Color::from_hex(" #fff"), None);
}

#[test]
fn every_channel_value_round_trips() {
    for v in 0..=255u8 {
        let color = Color { r: v, g: 255 - v, b: v / 2, a: v ^ 0x5a };
        assert_eq!(Color::from_hex(&color.to_hex()), Some(color));
    }
}

#[test]
fn hex_text_is_that_of_the_toolkit() {
    let samples = [
        (255, 0, 0, 255),
        (0, 255, 0, 255),
        (0, 0, 255, 255),
        (255, 255, 255, 255),
        (0, 0, 0, 255),
        (0, 0, 0, 0),
        (18, 52, 86, 255),
        (10, 20, 30, 40),
        (200, 100, 50, 128),
        (255, 255, 255, 1),
    ];
    for (r, g, b, a) in samples {
        let toolkit = Color32::from_rgba_unmultiplied(r, g, b, a);
        let [tr, tg, tb, ta] = toolkit.to_srgba_unmultiplied();
        let color = Color { r: tr, g: tg, b: tb, a: ta };
        assert_eq!(color.to_hex(), toolkit.to_hex());
        let read = Color::from_hex(&toolkit.to_hex()).unwrap();
        assert_eq!(
            Color32::from_rgba_unmultiplied(read.r, read.g, read.b, read.a),
            Color32::from_hex(&toolkit.to_hex()).unwrap()
        );
    }
}
