//! The operator interpreter: replays a page's operators as surface calls.
use vstd::prelude::*;
use crate::color::{color_rgb, to_rgb, Color};
use crate::geometry::{half, half_exec, identity, sat, sat_i64, Matrix, UNIT};
use crate::surface::{calls_model, CallModel, Command, LineCap, LineJoin, SurfaceCall};
use crate::text::TextState;

verus! {

/// The winding rule named by a fill operator; it is accepted but not applied.
#[derive(Clone, Copy, Debug, PartialEq, Eq, Structural)]
pub enum Winding {
    NonZero,
    EvenOdd,
}

/// One decoded drawing operator. Numbers count thousandths of a unit.
#[derive(Clone, Debug, PartialEq, Eq)]
pub enum Operator {
    Save,
    Restore,
    Transform(Matrix),
    MoveTo { x: i64, y: i64 },
    LineTo { x: i64, y: i64 },
    CurveTo { x1: i64, y1: i64, x2: i64, y2: i64, x: i64, y: i64 },
    Rect { x: i64, y: i64, width: i64, height: i64 },
    Close,
    Stroke,
    Fill { winding: Winding },
    FillAndStroke { winding: Winding },
    EndPath,
    StrokeColor(Color),
    FillColor(Color),
    LineWidth(i64),
    LineCap(LineCap),
    LineJoin(LineJoin),
    MiterLimit(i64),
    BeginText,
    EndText,
    SetTextMatrix(Matrix),
    TextNewline,
    TextFont { size: i64 },
    CharSpacing(i64),
    WordSpacing(i64),
    TextRise(i64),
    /// A run of encoded glyph bytes.
    TextDraw(Vec<u8>),
    /// A show-text with positioning adjustments; not applied.
    TextDrawAdjusted,
    /// Any other operator; ignored.
    Unsupported,
}

/// The display string that a run of text bytes decodes to.
pub uninterp spec fn lossy_text(b: Seq<u8>) -> Seq<char>;

/// Relies on pdf's `PdfString::to_string_lossy`: the bytes decoded as UTF-16BE
/// after a `FE FF` mark, else as UTF-8 with invalid sequences replaced. The result
/// depends on the bytes alone.
#[verifier::external_body]
fn decode_text(b: &Vec<u8>) -> (r: String)
    ensures
        r@ == lossy_text(b@),
{
    pdf::primitive::PdfString::new(b.as_slice().into()).to_string_lossy()
}

pub open spec fn draw(c: Command) -> CallModel {
    SurfaceCall::Draw(c)
}

/// The calls that show `text` under state `s`: the text matrix, then horizontal
/// scaling and rise where they are not neutral, then the text at the local origin.
pub open spec fn text_calls(s: TextState, text: Seq<char>) -> Seq<CallModel> {
    seq![draw(Command::Save), draw(Command::Transform(s.text_matrix))] + (if s.horizontal_scaling
        != UNIT {
        seq![draw(Command::Scale { x: s.horizontal_scaling, y: UNIT })]
    } else {
        seq![]
    }) + (if s.text_rise != 0 {
        seq![draw(Command::Translate { x: 0, y: s.text_rise })]
    } else {
        seq![]
    }) + seq![SurfaceCall::FillText { text, x: 0, y: 0 }, draw(Command::Restore)]
}

/// The state after showing `count` characters: the matrix's `e` moves right by
/// `count × font size × 0.5`.
pub open spec fn advanced(s: TextState, count: int) -> TextState {
    TextState {
        text_matrix: Matrix {
            e: sat(s.text_matrix.e + half(count * s.font_size)) as i64,
            ..s.text_matrix
        },
        ..s
    }
}

/// One operator's effect: the next text state and the calls it makes.
pub open spec fn step(s: TextState, op: Operator) -> (TextState, Seq<CallModel>) {
    match op {
        Operator::Save => (s, seq![draw(Command::Save)]),
        Operator::Restore => (s, seq![draw(Command::Restore)]),
        Operator::Transform(m) => (s, seq![draw(Command::Transform(m))]),
        Operator::MoveTo { x, y } => (s, seq![draw(Command::MoveTo { x, y })]),
        Operator::LineTo { x, y } => (s, seq![draw(Command::LineTo { x, y })]),
        Operator::CurveTo { x1, y1, x2, y2, x, y } => (
            s,
            seq![draw(Command::BezierCurveTo { x1, y1, x2, y2, x, y })],
        ),
        Operator::Rect { x, y, width, height } => (
            s,
            seq![draw(Command::Rect { x, y, width, height })],
        ),
        Operator::Close => (s, seq![draw(Command::ClosePath)]),
        Operator::Stroke => (s, seq![draw(Command::Stroke), draw(Command::BeginPath)]),
        Operator::Fill { .. } => (s, seq![draw(Command::Fill), draw(Command::BeginPath)]),
        Operator::FillAndStroke { .. } => (
            s,
            seq![draw(Command::Fill), draw(Command::Stroke), draw(Command::BeginPath)],
        ),
        Operator::EndPath => (s, seq![draw(Command::BeginPath)]),
        Operator::StrokeColor(c) => (s, seq![draw(Command::SetStrokeStyle(color_rgb(c)))]),
        Operator::FillColor(c) => (s, seq![draw(Command::SetFillStyle(color_rgb(c)))]),
        Operator::LineWidth(w) => (s, seq![draw(Command::SetLineWidth(w))]),
        Operator::LineCap(c) => (s, seq![draw(Command::SetLineCap(c))]),
        Operator::LineJoin(j) => (s, seq![draw(Command::SetLineJoin(j))]),
        Operator::MiterLimit(l) => (s, seq![draw(Command::SetMiterLimit(l))]),
        Operator::BeginText => (TextState { text_matrix: identity(), ..s }, seq![]),
        Operator::SetTextMatrix(m) => (TextState { text_matrix: m, ..s }, seq![]),
        Operator::TextNewline => (
            TextState {
                text_matrix: Matrix {
                    e: 0,
                    f: sat(s.text_matrix.f - s.text_leading) as i64,
                    ..s.text_matrix
                },
                ..s
            },
            seq![],
        ),
        Operator::TextFont { size } => (
            TextState { font_size: size, ..s },
            seq![draw(Command::SetFont { size })],
        ),
        Operator::CharSpacing(v) => (TextState { char_spacing: v, ..s }, seq![]),
        Operator::WordSpacing(v) => (TextState { word_spacing: v, ..s }, seq![]),
        Operator::TextRise(v) => (TextState { text_rise: v, ..s }, seq![]),
        Operator::TextDraw(b) => {
            let t = lossy_text(b@);
            (advanced(s, t.len() as int), text_calls(s, t))
        },
        Operator::EndText | Operator::TextDrawAdjusted | Operator::Unsupported => (s, seq![]),
    }
}

/// Replays `ops` in order from state `s`: the final state and all calls made.
pub open spec fn replay(s: TextState, ops: Seq<Operator>) -> (TextState, Seq<CallModel>)
    decreases ops.len(),
{
    if ops.len() == 0 {
        (s, seq![])
    } else {
        let r = replay(s, ops.drop_last());
        let t = step(r.0, ops.last());
        (t.0, r.1 + t.1)
    }
}

fn emit(out: &mut Vec<SurfaceCall<String>>, c: Command)
    ensures
        calls_model(final(out)@) == calls_model(old(out)@).push(draw(c)),
{
    out.push(SurfaceCall::Draw(c));
    assert(calls_model(out@) =~= calls_model(old(out)@).push(draw(c)));
}

fn draw_text(bytes: &Vec<u8>, st: &mut TextState, out: &mut Vec<SurfaceCall<String>>)
    ensures
        *final(st) == advanced(*old(st), lossy_text(bytes@).len() as int),
        calls_model(final(out)@) == calls_model(old(out)@) + text_calls(
            *old(st),
            lossy_text(bytes@),
        ),
{
    let ghost s0 = *st;
    let ghost start = calls_model(out@);
    emit(out, Command::Save);
    emit(out, Command::Transform(st.text_matrix));
    if st.horizontal_scaling != UNIT {
        emit(out, Command::Scale { x: st.horizontal_scaling, y: UNIT });
    }
    if st.text_rise != 0 {
        emit(out, Command::Translate { x: 0, y: st.text_rise });
    }
    let text = decode_text(bytes);
    let count = text.as_str().unicode_len();
    let ghost t = text@;
    let ghost before = calls_model(out@);
    out.push(SurfaceCall::FillText { text, x: 0, y: 0 });
    assert(calls_model(out@) =~= before.push(SurfaceCall::FillText { text: t, x: 0, y: 0 }));
    emit(out, Command::Restore);
    assert(calls_model(out@) =~= start + text_calls(s0, t));
    assert(-0x7fff_ffff_ffff_ffff_ffff_ffff_ffff_ffff <= (count as int) * (st.font_size as int)
        <= 0x7fff_ffff_ffff_ffff_ffff_ffff_ffff_fff0) by (nonlinear_arith)
        requires
            0 <= count < 0x1_0000_0000_0000_0000,
            i64::MIN <= st.font_size <= i64::MAX,
    ;
    let adv = half_exec(count as i128 * st.font_size as i128);
    st.text_matrix.e = sat_i64(st.text_matrix.e as i128 + adv);
}

/// Applies one operator: updates the text state and appends its surface calls.
pub fn render_operation(op: &Operator, st: &mut TextState, out: &mut Vec<SurfaceCall<String>>)
    ensures
        *final(st) == step(*old(st), *op).0,
        calls_model(final(out)@) == calls_model(old(out)@) + step(*old(st), *op).1,
{
    let ghost start = calls_model(out@);
    match op {
        Operator::Save => emit(out, Command::Save),
        Operator::Restore => emit(out, Command::Restore),
        Operator::Transform(m) => emit(out, Command::Transform(*m)),
        Operator::MoveTo { x, y } => emit(out, Command::MoveTo { x: *x, y: *y }),
        Operator::LineTo { x, y } => emit(out, Command::LineTo { x: *x, y: *y }),
        Operator::CurveTo { x1, y1, x2, y2, x, y } => emit(
            out,
            Command::BezierCurveTo { x1: *x1, y1: *y1, x2: *x2, y2: *y2, x: *x, y: *y },
        ),
        Operator::Rect { x, y, width, height } => emit(
            out,
            Command::Rect { x: *x, y: *y, width: *width, height: *height },
        ),
        Operator::Close => emit(out, Command::ClosePath),
        Operator::Stroke => {
            emit(out, Command::Stroke);
            emit(out, Command::BeginPath);
        },
        Operator::Fill { .. } => {
            emit(out, Command::Fill);
            emit(out, Command::BeginPath);
        },
        Operator::FillAndStroke { .. } => {
            emit(out, Command::Fill);
            emit(out, Command::Stroke);
            emit(out, Command::BeginPath);
        },
        Operator::EndPath => emit(out, Command::BeginPath),
        Operator::StrokeColor(c) => emit(out, Command::SetStrokeStyle(to_rgb(c))),
        Operator::FillColor(c) => emit(out, Command::SetFillStyle(to_rgb(c))),
        Operator::LineWidth(w) => emit(out, Command::SetLineWidth(*w)),
        Operator::LineCap(c) => emit(out, Command::SetLineCap(*c)),
        Operator::LineJoin(j) => emit(out, Command::SetLineJoin(*j)),
        Operator::MiterLimit(l) => emit(out, Command::SetMiterLimit(*l)),
        Operator::BeginText => st.reset(),
        Operator::SetTextMatrix(m) => st.text_matrix = *m,
        Operator::TextNewline => {
            st.text_matrix.e = 0;
            st.text_matrix.f = sat_i64(st.text_matrix.f as i128 - st.text_leading as i128);
        },
        Operator::TextFont { size } => {
            st.font_size = *size;
            emit(out, Command::SetFont { size: *size });
        },
        Operator::CharSpacing(v) => st.char_spacing = *v,
        Operator::WordSpacing(v) => st.word_spacing = *v,
        Operator::TextRise(v) => st.text_rise = *v,
        Operator::TextDraw(b) => draw_text(b, st, out),
        Operator::EndText | Operator::TextDrawAdjusted | Operator::Unsupported => {},
    }
    assert(calls_model(out@) =~= start + step(*old(st), *op).1);
}

/// Replays every operator of `ops` in order from a fresh text state's `st`,
/// appending the calls to `out`.
pub fn render_operations(ops: &Vec<Operator>, st: &mut TextState, out: &mut Vec<SurfaceCall<String>>)
    ensures
        *final(st) == replay(*old(st), ops@).0,
        calls_model(final(out)@) == calls_model(old(out)@) + replay(*old(st), ops@).1,
{
    let ghost s0 = *st;
    let ghost start = calls_model(out@);
    let mut i: usize = 0;
    while i < ops.len()
        invariant
            i <= ops@.len(),
            *st == replay(s0, ops@.take(i as int)).0,
            calls_model(out@) == start + replay(s0, ops@.take(i as int)).1,
        decreases ops@.len() - i,
    {
        proof {
            assert(ops@.take(i as int + 1).drop_last() =~= ops@.take(i as int));
        }
        render_operation(&ops[i], st, out);
        i = i + 1;
        assert(calls_model(out@) =~= start + replay(s0, ops@.take(i as int)).1);
    }
    assert(ops@.take(ops@.len() as int) =~= ops@);
}

} // verus!
