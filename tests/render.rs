use pdf_canvas::color::{to_rgb, Color, Rgb8};
use pdf_canvas::geometry::{page_extent, pixel_size_exec, Matrix, MediaBox};
use pdf_canvas::interp::{render_operation, render_operations, Operator, Winding};
use pdf_canvas::session::{render_page_content, PdfRenderer, ViewerError};
use pdf_canvas::surface::{Command, LineCap, LineJoin, SurfaceCall};
use pdf_canvas::text::TextState;

fn rgb(r: u8, g: u8, b: u8) -> Rgb8 {
    Rgb8 { r, g, b }
}

fn d(c: Command) -> SurfaceCall<String> {
    SurfaceCall::Draw(c)
}

fn letter_box() -> MediaBox {
    MediaBox { left: 0, bottom: 0, right: 612_000, top: 792_000 }
}

fn loaded(pages: usize) -> PdfRenderer {
    let mut r = PdfRenderer::new();
    assert_eq!(r.load_pdf(Some(pages)), Ok(()));
    r
}

fn setup(w: u32, h: u32, zoom: i64, height: i64) -> Vec<SurfaceCall<String>> {
    vec![
        d(Command::Resize { columns: w, rows: h }),
        d(Command::SetFillStyle(rgb(255, 255, 255))),
        d(Command::FillRect { x: 0, y: 0, width: w as i64 * 1000, height: h as i64 * 1000 }),
        d(Command::Scale { x: zoom, y: zoom }),
        d(Command::Save),
        d(Command::Translate { x: 0, y: height }),
        d(Command::Scale { x: 1000, y: -1000 }),
    ]
}

fn replayed(ops: Vec<Operator>) -> Vec<SurfaceCall<String>> {
    let mut st = TextState::new();
    let mut out = Vec::new();
    render_operations(&ops, &mut st, &mut out);
    out
}

#[test]
fn cmyk_and_gray_conversions() {
    assert_eq!(to_rgb(&Color::Cmyk(0, 0, 0, 1000)), rgb(0, 0, 0));
    assert_eq!(to_rgb(&Color::Cmyk(0, 0, 0, 0)), rgb(255, 255, 255));
    assert_eq!(to_rgb(&Color::Gray(500)), rgb(128, 128, 128));
}

#[test]
fn rgb_conversion_rounds_and_clamps() {
    assert_eq!(to_rgb(&Color::Rgb(1000, 0, 500)), rgb(255, 0, 128));
    assert_eq!(to_rgb(&Color::Rgb(-200, 2000, 1)), rgb(0, 255, 0));
    assert_eq!(to_rgb(&Color::Gray(2)), rgb(1, 1, 1));
}

#[test]
fn cmyk_conversion_mixes_key() {
    // (1 - 0.5) * (1 - 0.5) * 255 = 63.75
    assert_eq!(to_rgb(&Color::Cmyk(500, 0, 1000, 500)), rgb(64, 128, 0));
}

#[test]
fn other_color_models_are_black() {
    assert_eq!(to_rgb(&Color::Other), rgb(0, 0, 0));
}

#[test]
fn end_to_end_red_rectangle() {
    let r = loaded(1);
    let ops = vec![
        Operator::FillColor(Color::Rgb(1000, 0, 0)),
        Operator::Rect { x: 100_000, y: 100_000, width: 50_000, height: 50_000 },
        Operator::Fill { winding: Winding::NonZero },
    ];
    let calls = r.render_page(0, &letter_box(), 1000, &Some(ops)).unwrap();
    let mut expected = setup(612, 792, 1000, 792_000);
    expected.push(d(Command::BeginPath));
    expected.push(d(Command::SetFillStyle(rgb(255, 0, 0))));
    expected.push(d(Command::Rect { x: 100_000, y: 100_000, width: 50_000, height: 50_000 }));
    expected.push(d(Command::Fill));
    expected.push(d(Command::BeginPath));
    expected.push(d(Command::Restore));
    assert_eq!(calls, expected);
    // y = 150 and y = 100 land at 792 - 150 = 642 and 792 - 100 = 692
    assert_eq!(792_000 - 150_000, 642_000);
    assert_eq!(792_000 - 100_000, 692_000);
}

#[test]
fn move_to_then_fill_on_empty_page() {
    let r = loaded(1);
    let mb = MediaBox { left: 0, bottom: 0, right: 200_000, top: 300_000 };
    let ops = vec![Operator::MoveTo { x: 10_000, y: 20_000 }, Operator::Fill { winding: Winding::EvenOdd }];
    let calls = r.render_page(0, &mb, 2000, &Some(ops)).unwrap();
    let mut expected = setup(400, 600, 2000, 300_000);
    expected.push(d(Command::BeginPath));
    expected.push(d(Command::MoveTo { x: 10_000, y: 20_000 }));
    expected.push(d(Command::Fill));
    expected.push(d(Command::BeginPath));
    expected.push(d(Command::Restore));
    assert_eq!(calls, expected);
}

#[test]
fn consecutive_text_runs_advance_by_half_font_size_per_char() {
    let ops = vec![
        Operator::BeginText,
        Operator::TextFont { size: 10_000 },
        Operator::TextDraw(b"AB".to_vec()),
        Operator::TextDraw(b"CD".to_vec()),
        Operator::EndText,
    ];
    let calls = replayed(ops);
    let at = |e: i64| d(Command::Transform(Matrix { a: 1000, b: 0, c: 0, d: 1000, e, f: 0 }));
    let expected = vec![
        d(Command::SetFont { size: 10_000 }),
        d(Command::Save),
        at(0),
        SurfaceCall::FillText { text: "AB".to_string(), x: 0, y: 0 },
        d(Command::Restore),
        d(Command::Save),
        at(10_000),
        SurfaceCall::FillText { text: "CD".to_string(), x: 0, y: 0 },
        d(Command::Restore),
    ];
    assert_eq!(calls, expected);
}

#[test]
fn text_run_decodes_utf16_with_byte_order_mark() {
    let mut st = TextState::new();
    let mut out = Vec::new();
    render_operation(&Operator::TextDraw(vec![0xfe, 0xff, 0x00, 0x48, 0x00, 0x69]), &mut st, &mut out);
    assert_eq!(out[2], SurfaceCall::FillText { text: "Hi".to_string(), x: 0, y: 0 });
    // two characters at the default 12-unit font
    assert_eq!(st.text_matrix.e, 12_000);
}

#[test]
fn text_run_replaces_invalid_utf8() {
    let mut st = TextState::new();
    let mut out = Vec::new();
    render_operation(&Operator::TextDraw(vec![0x41, 0xff]), &mut st, &mut out);
    assert_eq!(out[2], SurfaceCall::FillText { text: "A\u{fffd}".to_string(), x: 0, y: 0 });
    assert_eq!(st.text_matrix.e, 12_000);
}

#[test]
fn odd_run_advance_rounds_toward_zero() {
    let mut st = TextState::new();
    st.font_size = 3;
    let mut out = Vec::new();
    render_operation(&Operator::TextDraw(b"abc".to_vec()), &mut st, &mut out);
    assert_eq!(st.text_matrix.e, 4);
}

#[test]
fn text_rise_translates_the_run() {
    let calls = replayed(vec![Operator::TextRise(2_000), Operator::TextDraw(b"x".to_vec())]);
    assert_eq!(calls[2], d(Command::Translate { x: 0, y: 2_000 }));
    assert_eq!(calls[3], SurfaceCall::FillText { text: "x".to_string(), x: 0, y: 0 });
}

#[test]
fn begin_text_resets_only_the_matrix() {
    let m = Matrix { a: 2000, b: 0, c: 0, d: 2000, e: 5_000, f: 7_000 };
    let mut st = TextState::new();
    let mut out = Vec::new();
    render_operation(&Operator::SetTextMatrix(m), &mut st, &mut out);
    render_operation(&Operator::CharSpacing(300), &mut st, &mut out);
    render_operation(&Operator::WordSpacing(400), &mut st, &mut out);
    assert_eq!(st.text_matrix, m);
    render_operation(&Operator::BeginText, &mut st, &mut out);
    assert_eq!(st.text_matrix, Matrix { a: 1000, b: 0, c: 0, d: 1000, e: 0, f: 0 });
    assert_eq!(st.char_spacing, 300);
    assert_eq!(st.word_spacing, 400);
    assert!(out.is_empty());
}

#[test]
fn newline_resets_horizontal_offset() {
    let m = Matrix { a: 1000, b: 0, c: 0, d: 1000, e: 5_000, f: 7_000 };
    let mut st = TextState::new();
    st.text_leading = 1_500;
    let mut out = Vec::new();
    render_operation(&Operator::SetTextMatrix(m), &mut st, &mut out);
    render_operation(&Operator::TextNewline, &mut st, &mut out);
    assert_eq!(st.text_matrix.e, 0);
    assert_eq!(st.text_matrix.f, 5_500);
}

#[test]
fn painting_starts_a_new_path() {
    let calls = replayed(vec![
        Operator::MoveTo { x: 1, y: 2 },
        Operator::LineTo { x: 3, y: 4 },
        Operator::Close,
        Operator::Stroke,
        Operator::CurveTo { x1: 1, y1: 2, x2: 3, y2: 4, x: 5, y: 6 },
        Operator::FillAndStroke { winding: Winding::NonZero },
        Operator::EndPath,
    ]);
    assert_eq!(calls, vec![
        d(Command::MoveTo { x: 1, y: 2 }),
        d(Command::LineTo { x: 3, y: 4 }),
        d(Command::ClosePath),
        d(Command::Stroke),
        d(Command::BeginPath),
        d(Command::BezierCurveTo { x1: 1, y1: 2, x2: 3, y2: 4, x: 5, y: 6 }),
        d(Command::Fill),
        d(Command::Stroke),
        d(Command::BeginPath),
        d(Command::BeginPath),
    ]);
}

#[test]
fn style_setters_map_one_to_one() {
    let m = Matrix { a: 1000, b: 0, c: 0, d: 1000, e: 3, f: 4 };
    let calls = replayed(vec![
        Operator::Save,
        Operator::Transform(m),
        Operator::StrokeColor(Color::Gray(0)),
        Operator::LineWidth(2_500),
        Operator::LineCap(LineCap::Round),
        Operator::LineJoin(LineJoin::Bevel),
        Operator::MiterLimit(10_000),
        Operator::Restore,
    ]);
    assert_eq!(calls, vec![
        d(Command::Save),
        d(Command::Transform(m)),
        d(Command::SetStrokeStyle(rgb(0, 0, 0))),
        d(Command::SetLineWidth(2_500)),
        d(Command::SetLineCap(LineCap::Round)),
        d(Command::SetLineJoin(LineJoin::Bevel)),
        d(Command::SetMiterLimit(10_000)),
        d(Command::Restore),
    ]);
}

#[test]
fn ignored_operator_among_valid_ones() {
    let valid = vec![
        Operator::MoveTo { x: 1, y: 2 },
        Operator::LineTo { x: 3, y: 4 },
        Operator::Stroke,
    ];
    let mut with_bad = valid.clone();
    with_bad.insert(1, Operator::Unsupported);
    with_bad.insert(3, Operator::TextDrawAdjusted);
    assert_eq!(replayed(with_bad.clone()), replayed(valid));
    let r = loaded(1);
    assert!(r.render_page(0, &letter_box(), 1000, &Some(with_bad)).is_ok());
}

#[test]
fn render_is_repeatable() {
    let mut r = loaded(2);
    let ops = Some(vec![Operator::TextDraw(b"hello".to_vec()), Operator::TextDraw(b"world".to_vec())]);
    let first = r.render_page(1, &letter_box(), 1500, &ops);
    assert_eq!(r.set_current_page(1), Ok(()));
    let second = r.render_page(1, &letter_box(), 1500, &ops);
    assert_eq!(first, second);
}

#[test]
fn page_without_content_is_only_cleared() {
    let calls = render_page_content(&letter_box(), 1000, &None);
    let mut expected = setup(612, 792, 1000, 792_000);
    expected.push(d(Command::Restore));
    assert_eq!(calls, expected);
}

#[test]
fn pixel_size_rounds_half_up() {
    assert_eq!(pixel_size_exec(612_500, 1000), 613);
    assert_eq!(pixel_size_exec(612_499, 1000), 612);
    assert_eq!(pixel_size_exec(612_000, 1500), 918);
    assert_eq!(pixel_size_exec(-5_000, 1000), 0);
}

#[test]
fn page_dimensions_follow_media_box() {
    let r = loaded(3);
    let mb = MediaBox { left: 10_000, bottom: 20_000, right: 622_000, top: 812_000 };
    assert_eq!(r.get_page_dimensions(2, &mb), Ok((612_000, 792_000)));
    assert_eq!(page_extent(&mb), (612_000, 792_000));
}

#[test]
fn out_of_range_pages_are_rejected() {
    let mut r = loaded(3);
    assert_eq!(r.set_current_page(2), Ok(()));
    assert_eq!(r.set_current_page(3), Err(ViewerError::PageOutOfRange));
    assert_eq!(r.get_current_page(), 2);
    assert_eq!(r.get_page_dimensions(3, &letter_box()), Err(ViewerError::PageOutOfRange));
    assert_eq!(r.render_page(7, &letter_box(), 1000, &None), Err(ViewerError::PageOutOfRange));
    assert_eq!(r.get_current_page(), 2);
    assert_eq!(ViewerError::PageOutOfRange.message(), "Page number out of range");
}

#[test]
fn empty_session_has_no_pages() {
    let r = PdfRenderer::new();
    assert_eq!(r.get_total_pages(), 0);
    assert_eq!(r.get_current_page(), 0);
    assert_eq!(r.render_page(0, &letter_box(), 1000, &None), Err(ViewerError::PageOutOfRange));
}

#[test]
fn loading_resets_navigation() {
    let mut r = loaded(4);
    assert_eq!(r.set_current_page(3), Ok(()));
    assert_eq!(r.load_pdf(Some(9)), Ok(()));
    assert_eq!(r.get_current_page(), 0);
    assert_eq!(r.get_total_pages(), 9);
}

#[test]
fn failed_load_discards_the_document() {
    let mut r = loaded(4);
    assert_eq!(r.set_current_page(1), Ok(()));
    assert_eq!(r.load_pdf(None), Err(ViewerError::Load));
    assert_eq!(r.get_total_pages(), 0);
    assert_eq!(r.get_current_page(), 0);
    assert_eq!(ViewerError::Load.message(), "Failed to parse PDF");
}
