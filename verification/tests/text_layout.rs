use mltg::geometry::{Point, Size};
use mltg::text::{
    Font, FontStretch, FontStyle, FontWeight, HitTestResult, TextAlignment, TextFormat,
    TextLayout, TextMetrics, TextStyle,
};

/// Measurements of a four-character line: cells of width 10, line height 16.
fn four_char_metrics() -> TextMetrics {
    TextMetrics::new(vec![0, 10, 20, 30, 40], 16).unwrap()
}

fn four_char_layout() -> TextLayout {
    let format = TextFormat::new(Font::System(String::from("Meiryo")), 1400, None, None).unwrap();
    TextLayout::new("abcd", &format, TextAlignment::Leading, None, four_char_metrics()).unwrap()
}

#[test]
fn from_file() {
    TextFormat::new(
        Font::File(
            String::from("./resources/Inconsolata/Inconsolata-VariableFont_wdth,wght.ttf"),
            String::from("Inconsolata"),
        ),
        1400,
        None,
        None,
    )
    .unwrap();
}

#[test]
fn from_memory() {
    TextFormat::new(
        Font::Memory(vec![0x00, 0x01, 0x00, 0x00], String::from("Inconsolata")),
        1400,
        None,
        None,
    )
    .unwrap();
}

#[test]
fn hit_test() {
    let layout = four_char_layout();
    let size = layout.size();
    assert!(
        layout.hit_test(Point::new(0, 0)).unwrap()
            == HitTestResult { text_position: 0, inside: true, trailing_hit: false }
    );
    assert!(
        layout.hit_test(Point::new(size.width - 1, 0)).unwrap()
            == HitTestResult { text_position: 3, inside: true, trailing_hit: true }
    );
    assert!(
        layout.hit_test(Point::new(-100, 0)).unwrap()
            == HitTestResult { text_position: 0, inside: false, trailing_hit: false }
    );
}

#[test]
fn hit_test_every_cell() {
    let layout = four_char_layout();
    for i in 0..4usize {
        let center = Point::new(i as i32 * 10 + 5, 8);
        let hit = layout.hit_test(center).unwrap();
        assert_eq!(hit.text_position, i);
        assert!(hit.inside);
    }
}

#[test]
fn hit_test_monotonic_along_line() {
    let layout = four_char_layout();
    let mut last: usize = 0;
    for x in -5..45 {
        let hit = layout.hit_test(Point::new(x, 8)).unwrap();
        assert!(hit.text_position >= last);
        last = hit.text_position;
    }
}

#[test]
fn hit_test_trailing_halves() {
    let layout = four_char_layout();
    let leading = layout.hit_test(Point::new(12, 8)).unwrap();
    assert!(!leading.trailing_hit);
    let trailing = layout.hit_test(Point::new(18, 8)).unwrap();
    assert!(trailing.trailing_hit);
    assert_eq!(leading.text_position, trailing.text_position);
}

#[test]
fn hit_test_outside_line_height() {
    let layout = four_char_layout();
    let hit = layout.hit_test(Point::new(15, 100)).unwrap();
    assert_eq!(hit.text_position, 1);
    assert!(!hit.inside);
}

#[test]
fn caret_round_trip() {
    let layout = four_char_layout();
    for i in 0..4usize {
        let caret = layout.text_position_to_point(i, false).unwrap();
        let hit = layout.hit_test(caret).unwrap();
        assert_eq!(hit.text_position, i);
        assert!(hit.inside);
    }
}

#[test]
fn caret_points() {
    let layout = four_char_layout();
    assert_eq!(layout.text_position_to_point(2, false).unwrap(), Point::new(20, 0));
    assert_eq!(layout.text_position_to_point(2, true).unwrap(), Point::new(30, 0));
    assert_eq!(layout.text_position_to_point(9, false).unwrap(), Point::new(40, 0));
}

#[test]
fn layout_takes_measured_size() {
    let layout = four_char_layout();
    assert_eq!(layout.size(), Size::new(40, 16));
}

#[test]
fn layout_takes_given_size() {
    let format = TextFormat::new(Font::System(String::from("Meiryo")), 1400, None, None).unwrap();
    let layout = TextLayout::new(
        "abcd",
        &format,
        TextAlignment::Center,
        Some(Size::new(200, 50)),
        four_char_metrics(),
    )
    .unwrap();
    assert_eq!(layout.size(), Size::new(200, 50));
    assert_eq!(layout.alignment(), TextAlignment::Center);
}

#[test]
fn layout_set_and_reset_size() {
    let mut layout = four_char_layout();
    layout.set_size(Size::new(111, 222));
    assert_eq!(layout.size(), Size::new(111, 222));
    layout.reset_size();
    assert_eq!(layout.size(), Size::new(40, 16));
    layout.set_alignment(TextAlignment::Trailing);
    assert_eq!(layout.alignment(), TextAlignment::Trailing);
}

#[test]
fn layout_rejects_mismatched_text() {
    let format = TextFormat::new(Font::System(String::from("Meiryo")), 1400, None, None).unwrap();
    let r = TextLayout::new("abc", &format, TextAlignment::Leading, None, four_char_metrics());
    assert!(r.is_err());
}

#[test]
fn metrics_reject_bad_measurements() {
    assert!(TextMetrics::new(vec![], 16).is_err());
    assert!(TextMetrics::new(vec![0, 10, 10], 16).is_err());
    assert!(TextMetrics::new(vec![0, 10, 5], 16).is_err());
    assert!(TextMetrics::new(vec![-1, 10], 16).is_err());
    assert!(TextMetrics::new(vec![0, 10], 0).is_err());
}

#[test]
fn empty_text_hit_test() {
    let format = TextFormat::new(Font::System(String::from("Meiryo")), 1400, None, None).unwrap();
    let metrics = TextMetrics::new(vec![0], 16).unwrap();
    let layout = TextLayout::new("", &format, TextAlignment::Leading, None, metrics).unwrap();
    let hit = layout.hit_test(Point::new(3, 3)).unwrap();
    assert_eq!(hit.text_position, 0);
    assert!(!hit.inside);
}

#[test]
fn format_defaults() {
    let f = TextFormat::new(Font::System(String::from("Arial")), 1200, None, None).unwrap();
    assert_eq!(f.style.weight, FontWeight::Regular);
    assert_eq!(f.style.style, FontStyle::Normal);
    assert_eq!(f.style.stretch, FontStretch::Medium);
    assert_eq!(f.locale, String::new());
    let styled = TextStyle {
        weight: FontWeight::Bold,
        style: FontStyle::Italic,
        stretch: FontStretch::Condensed,
    };
    let g =
        TextFormat::new(Font::System(String::from("Arial")), 1200, Some(&styled), Some("en-us"))
            .unwrap();
    assert_eq!(g.style, styled);
    assert_eq!(g.locale, String::from("en-us"));
}

#[test]
fn font_codes() {
    assert_eq!(FontWeight::Thin.to_raw(), 100);
    assert_eq!(FontWeight::SemiLight.to_raw(), 350);
    assert_eq!(FontWeight::Regular.to_raw(), 400);
    assert_eq!(FontWeight::UltraBlack.to_raw(), 950);
    assert_eq!(FontStyle::Italic.to_raw(), 2);
    assert_eq!(FontStretch::Medium.to_raw(), 5);
    assert_eq!(TextAlignment::Leading.to_raw(), 0);
    assert_eq!(TextAlignment::Center.to_raw(), 2);
    assert_eq!(TextAlignment::Trailing.to_raw(), 1);
    assert_eq!(TextAlignment::Justified.to_raw(), 3);
    assert_eq!(TextAlignment::from_raw(2), TextAlignment::Center);
}
