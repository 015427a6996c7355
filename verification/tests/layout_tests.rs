use slide_layout::layout_block;
use slide_layout::Content;
use slide_layout::DrawConfig;
use slide_layout::FontMap;
use slide_layout::FontStyle;
use slide_layout::LayoutError;
use slide_layout::NamedColor;
use slide_layout::SlideColor;
use slide_layout::TextSpan;
use slide_layout::VAlign;

const BLACK: SlideColor = SlideColor::Named(NamedColor::Black);

fn span(text: &str, style: FontStyle, ratio: u64) -> Content {
    Content::Span(TextSpan { text: text.to_string(), style, size_ratio: ratio, color: BLACK })
}

fn cfg() -> DrawConfig {
    // one grid cell is 24 pt; the page is 432 pt (18 cells) high
    DrawConfig { page_height: 432_000, base_size: 24_000 }
}

fn both_fonts() -> FontMap {
    let mut fonts = FontMap::new();
    fonts.set(FontStyle::Regular, 0);
    fonts.set(FontStyle::Bold, 1);
    fonts
}

#[test]
fn single_span_anchor() {
    let contents = vec![span("AB", FontStyle::Regular, 1000)];
    let out = layout_block(&contents, &both_fonts(), &cfg(), 0, 0, 1000, VAlign::Top).unwrap();
    assert_eq!(out.len(), 1);
    assert_eq!(out[0].x, 0);
    assert_eq!(out[0].y, 408_000); // 432000 - 0 - 24000
    assert_eq!(out[0].size, 24_000);
    assert_eq!(out[0].font, 0);
    assert_eq!(out[0].style, FontStyle::Regular);
    assert_eq!(out[0].text, "AB");
}

#[test]
fn unit_rows_advance_one_per_line() {
    let contents = vec![
        span("A", FontStyle::Regular, 1000),
        Content::Newline,
        Content::Newline,
        span("B", FontStyle::Regular, 1000),
    ];
    let out = layout_block(&contents, &both_fonts(), &cfg(), 0, 0, 1000, VAlign::Top).unwrap();
    assert_eq!(out.len(), 2);
    // first line at row 0, blank line at row 1.0, third line at row 2.0
    assert_eq!(out[0].y, 408_000);
    assert_eq!(out[1].y, 360_000); // 432000 - 2.0*24000 - 24000
}

#[test]
fn title_and_body_rows() {
    let contents = vec![
        span("Title", FontStyle::Bold, 2000),
        Content::Newline,
        span("Body", FontStyle::Regular, 1000),
    ];
    let out = layout_block(&contents, &both_fonts(), &cfg(), 0, 2000, 1200, VAlign::Top).unwrap();
    assert_eq!(out.len(), 2);
    // Title line at row 2.0 with font size 2.0 * 24 pt
    assert_eq!(out[0].size, 48_000);
    assert_eq!(out[0].font, 1);
    assert_eq!(out[0].y, 336_000); // 432000 - 2.0*24000 - 48000
    // Body line at row 2.0 + 2.0 * 1.2 = 4.4
    assert_eq!(out[1].size, 24_000);
    assert_eq!(out[1].font, 0);
    assert_eq!(out[1].y, 302_400); // 432000 - 4.4*24000 - 24000
}

#[test]
fn top_offset_is_zero_whatever_the_line_holds() {
    let alone = vec![span("AB", FontStyle::Regular, 1000)];
    let with_big = vec![span("AB", FontStyle::Regular, 1000), span("C", FontStyle::Bold, 2000)];
    let out1 = layout_block(&alone, &both_fonts(), &cfg(), 0, 0, 1000, VAlign::Top).unwrap();
    let out2 = layout_block(&with_big, &both_fonts(), &cfg(), 0, 0, 1000, VAlign::Top).unwrap();
    assert_eq!(out1[0].y, out2[0].y);
    assert_eq!(out2[0].y, 408_000);
}

#[test]
fn middle_offset_is_half_the_ratio_gap() {
    let contents = vec![span("AB", FontStyle::Regular, 1000), span("C", FontStyle::Bold, 2000)];
    let out = layout_block(&contents, &both_fonts(), &cfg(), 0, 0, 1000, VAlign::Middle).unwrap();
    // smaller span shifted down by (2.0 - 1.0) / 2 = 0.5 cells
    assert_eq!(out[0].y, 396_000); // 432000 - 0.5*24000 - 24000
    assert_eq!(out[1].y, 384_000); // 432000 - 0 - 48000
}

#[test]
fn bottom_offset_is_the_ratio_gap() {
    let contents = vec![span("AB", FontStyle::Regular, 1000), span("C", FontStyle::Bold, 2000)];
    let out = layout_block(&contents, &both_fonts(), &cfg(), 0, 0, 1000, VAlign::Bottom).unwrap();
    // smaller span shifted down by 2.0 - 1.0 = 1.0 cell: baselines meet
    assert_eq!(out[0].y, 384_000); // 432000 - 1.0*24000 - 24000
    assert_eq!(out[1].y, 384_000);
}

#[test]
fn column_advance_is_additive() {
    let contents = vec![span("AB", FontStyle::Regular, 1000), span("C", FontStyle::Bold, 2000)];
    let out = layout_block(&contents, &both_fonts(), &cfg(), 0, 0, 1000, VAlign::Top).unwrap();
    assert_eq!(out[0].x, 0);
    // second span starts 2 chars * ratio 1.0 = 2.0 cells to the right
    assert_eq!(out[1].x, 48_000);
}

#[test]
fn column_advance_counts_characters_not_bytes() {
    let contents = vec![span("\u{65e5}\u{672c}", FontStyle::Regular, 1000), span("C", FontStyle::Regular, 1000)];
    let out = layout_block(&contents, &both_fonts(), &cfg(), 0, 0, 1000, VAlign::Top).unwrap();
    // two characters (six bytes) advance exactly two cells
    assert_eq!(out[1].x, 48_000);
}

#[test]
fn empty_text_advances_nothing() {
    let contents = vec![span("", FontStyle::Regular, 1000), span("C", FontStyle::Regular, 1000)];
    let out = layout_block(&contents, &both_fonts(), &cfg(), 0, 0, 1000, VAlign::Top).unwrap();
    assert_eq!(out[0].x, 0);
    assert_eq!(out[1].x, 0);
}

#[test]
fn lone_newline_emits_nothing() {
    let contents = vec![Content::Newline];
    let out = layout_block(&contents, &both_fonts(), &cfg(), 0, 0, 1500, VAlign::Top).unwrap();
    assert_eq!(out.len(), 0);
}

#[test]
fn blank_line_advances_by_spacing_times_unit() {
    // a lone Newline advances the next line by exactly 1.0 * 1.5 cells
    let contents = vec![Content::Newline, span("A", FontStyle::Regular, 1000)];
    let out = layout_block(&contents, &both_fonts(), &cfg(), 0, 0, 1500, VAlign::Top).unwrap();
    assert_eq!(out.len(), 1);
    assert_eq!(out[0].y, 372_000); // 432000 - 1.5*24000 - 24000
}

#[test]
fn two_blank_lines_push_down_twice() {
    let contents = vec![Content::Newline, Content::Newline, span("A", FontStyle::Regular, 1000)];
    let out = layout_block(&contents, &both_fonts(), &cfg(), 0, 0, 1500, VAlign::Top).unwrap();
    assert_eq!(out.len(), 1);
    assert_eq!(out[0].y, 336_000); // 432000 - (2 * 1.5)*24000 - 24000
}

#[test]
fn empty_contents_emit_nothing() {
    let contents: Vec<Content> = Vec::new();
    let out = layout_block(&contents, &both_fonts(), &cfg(), 0, 0, 1000, VAlign::Top).unwrap();
    assert_eq!(out.len(), 0);
}

#[test]
fn layout_is_deterministic() {
    let contents = vec![
        span("Title", FontStyle::Bold, 2000),
        Content::Newline,
        span("Body", FontStyle::Regular, 1000),
        span("More", FontStyle::Regular, 1500),
    ];
    let a = layout_block(&contents, &both_fonts(), &cfg(), 2000, 2000, 1200, VAlign::Middle).unwrap();
    let b = layout_block(&contents, &both_fonts(), &cfg(), 2000, 2000, 1200, VAlign::Middle).unwrap();
    assert_eq!(a, b);
}

#[test]
fn unregistered_style_fails_without_output() {
    let mut fonts = FontMap::new();
    fonts.set(FontStyle::Regular, 0);
    let contents = vec![span("ok", FontStyle::Regular, 1000), span("bad", FontStyle::Bold, 1000)];
    let r = layout_block(&contents, &fonts, &cfg(), 0, 0, 1000, VAlign::Top);
    assert_eq!(r, Err(LayoutError::StyleNotFound));
}

#[test]
fn start_position_shifts_every_line() {
    let contents = vec![
        span("A", FontStyle::Regular, 1000),
        Content::Newline,
        span("B", FontStyle::Regular, 1000),
    ];
    let out = layout_block(&contents, &both_fonts(), &cfg(), 3000, 1000, 1000, VAlign::Top).unwrap();
    // both lines start back at the same column
    assert_eq!(out[0].x, 72_000);
    assert_eq!(out[1].x, 72_000);
    assert_eq!(out[0].y, 384_000); // 432000 - 1.0*24000 - 24000
    assert_eq!(out[1].y, 360_000); // one unit line lower
}
