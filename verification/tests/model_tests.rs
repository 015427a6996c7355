use slide_layout::basics;
use slide_layout::grid::grid_to_page;
use slide_layout::options;
use slide_layout::options::IpAddrKind;
use slide_layout::place_span;
use slide_layout::DrawConfig;
use slide_layout::FontMap;
use slide_layout::FontStyle;
use slide_layout::LayoutError;
use slide_layout::NamedColor;
use slide_layout::Rectangle;
use slide_layout::RgbColor;
use slide_layout::SlideColor;
use slide_layout::TextSpan;

#[test]
fn grid_transform_flips_the_vertical_axis() {
    let (x, y) = grid_to_page(2000, 3000, 432_000, 24_000);
    assert_eq!(x, 48_000);
    assert_eq!(y, 360_000); // 432000 - 3.0*24000
}

#[test]
fn grid_transform_at_origin() {
    let (x, y) = grid_to_page(0, 0, 432_000, 24_000);
    assert_eq!(x, 0);
    assert_eq!(y, 432_000);
}

#[test]
fn named_palette_resolves_exactly() {
    assert_eq!(SlideColor::Named(NamedColor::Black).resolve(), RgbColor { r: 0, g: 0, b: 0 });
    assert_eq!(
        SlideColor::Named(NamedColor::White).resolve(),
        RgbColor { r: 1000, g: 1000, b: 1000 }
    );
    assert_eq!(SlideColor::Named(NamedColor::Red).resolve(), RgbColor { r: 800, g: 0, b: 0 });
    assert_eq!(SlideColor::Named(NamedColor::Green).resolve(), RgbColor { r: 0, g: 800, b: 0 });
    assert_eq!(SlideColor::Named(NamedColor::Blue).resolve(), RgbColor { r: 0, g: 0, b: 800 });
}

#[test]
fn custom_color_passes_through() {
    let c = SlideColor::Custom(1000, 500, 0);
    assert_eq!(c.resolve(), RgbColor { r: 1000, g: 500, b: 0 });
}

#[test]
fn font_map_lookup() {
    let mut fonts = FontMap::new();
    assert_eq!(fonts.get(FontStyle::Regular), None);
    assert_eq!(fonts.get(FontStyle::Bold), None);
    fonts.set(FontStyle::Regular, 7);
    assert_eq!(fonts.get(FontStyle::Regular), Some(7));
    assert_eq!(fonts.get(FontStyle::Bold), None);
    fonts.set(FontStyle::Regular, 9);
    assert_eq!(fonts.get(FontStyle::Regular), Some(9));
}

#[test]
fn place_span_resolves_style_and_color() {
    let mut fonts = FontMap::new();
    fonts.set(FontStyle::Bold, 3);
    let span = TextSpan {
        text: "Hi".to_string(),
        style: FontStyle::Bold,
        size_ratio: 2000,
        color: SlideColor::Named(NamedColor::Red),
    };
    let cfg = DrawConfig { page_height: 432_000, base_size: 24_000 };
    let p = place_span(&span, 1000, 2000, &cfg, &fonts).unwrap();
    assert_eq!(p.x, 24_000);
    assert_eq!(p.y, 336_000); // 432000 - 2.0*24000 - 48000
    assert_eq!(p.size, 48_000);
    assert_eq!(p.font, 3);
    assert_eq!(p.style, FontStyle::Bold);
    assert_eq!(p.color, RgbColor { r: 800, g: 0, b: 0 });
    assert_eq!(p.text, "Hi");
}

#[test]
fn place_span_fails_on_missing_style() {
    let fonts = FontMap::new();
    let span = TextSpan {
        text: "Hi".to_string(),
        style: FontStyle::Regular,
        size_ratio: 1000,
        color: SlideColor::Named(NamedColor::Black),
    };
    let cfg = DrawConfig { page_height: 432_000, base_size: 24_000 };
    assert_eq!(place_span(&span, 0, 0, &cfg, &fonts), Err(LayoutError::StyleNotFound));
}

#[test]
fn returns_five_returns_five() {
    assert_eq!(basics::returns_five(), 5);
}

#[test]
fn plus_one_adds_one() {
    assert_eq!(basics::plus_one(5), 6);
    assert_eq!(basics::plus_one(-1), 0);
}

#[test]
fn calculate_length_counts_bytes() {
    assert_eq!(basics::calculate_length(&"hello".to_string()), 5);
    // two characters, three UTF-8 bytes each
    assert_eq!(basics::calculate_length(&"\u{65e5}\u{672c}".to_string()), 6);
}

#[test]
fn change_appends_world() {
    let mut s = "hello".to_string();
    basics::change(&mut s);
    assert_eq!(s, "hello, world");
}

#[test]
fn gives_ownership_gives_yours() {
    assert_eq!(basics::gives_ownership(), "yours");
}

#[test]
fn takes_and_gives_back_returns_its_argument() {
    assert_eq!(basics::takes_and_gives_back("hello".to_string()), "hello");
}

#[test]
fn rectangle_area() {
    let rect = Rectangle { width: 30, height: 50 };
    assert_eq!(rect.area(), 1500);
}

#[test]
fn rectangle_can_hold() {
    let rect1 = Rectangle { width: 30, height: 50 };
    let rect2 = Rectangle { width: 10, height: 40 };
    assert!(rect1.can_hold(&rect2));
    assert!(!rect2.can_hold(&rect1));
}

#[test]
fn rectangle_square() {
    let sq = Rectangle::square(25);
    assert_eq!(sq.width, 25);
    assert_eq!(sq.height, 25);
}

#[test]
fn option_plus_one() {
    assert_eq!(options::plus_one(Some(5)), Some(6));
    assert_eq!(options::plus_one(None), None);
}

#[test]
fn route_accepts_both_kinds() {
    options::route(IpAddrKind::V4);
    options::route(IpAddrKind::V6);
}
