//! The calls that the interpreter makes on a 2D drawing surface.
use vstd::prelude::*;
use crate::color::Rgb8;
use crate::geometry::{Matrix, UNIT};

verus! {

#[derive(Clone, Copy, Debug, PartialEq, Eq, Structural)]
pub enum LineCap {
    Butt,
    Round,
    Square,
}

#[derive(Clone, Copy, Debug, PartialEq, Eq, Structural)]
pub enum LineJoin {
    Miter,
    Round,
    Bevel,
}

/// A surface primitive that carries no text. Lengths count thousandths of a unit,
/// except the pixel counts of `Resize`.
#[derive(Clone, Copy, Debug, PartialEq, Eq, Structural)]
pub enum Command {
    Resize { columns: u32, rows: u32 },
    SetFillStyle(Rgb8),
    SetStrokeStyle(Rgb8),
    FillRect { x: i64, y: i64, width: i64, height: i64 },
    Save,
    Restore,
    Transform(Matrix),
    Translate { x: i64, y: i64 },
    Scale { x: i64, y: i64 },
    BeginPath,
    MoveTo { x: i64, y: i64 },
    LineTo { x: i64, y: i64 },
    BezierCurveTo { x1: i64, y1: i64, x2: i64, y2: i64, x: i64, y: i64 },
    Rect { x: i64, y: i64, width: i64, height: i64 },
    ClosePath,
    Fill,
    Stroke,
    SetLineWidth(i64),
    SetLineCap(LineCap),
    SetLineJoin(LineJoin),
    SetMiterLimit(i64),
    /// The font `"{size}px sans-serif"`.
    SetFont { size: i64 },
}

/// One call on the surface. `T` is the text type: `String` for the calls the
/// interpreter emits, `Seq<char>` for their model.
#[derive(Clone, Debug, PartialEq, Eq)]
pub enum SurfaceCall<T> {
    Draw(Command),
    FillText { text: T, x: i64, y: i64 },
}

pub type CallModel = SurfaceCall<Seq<char>>;

impl View for SurfaceCall<String> {
    type V = CallModel;

    open spec fn view(&self) -> CallModel {
        match self {
            SurfaceCall::Draw(c) => SurfaceCall::Draw(*c),
            SurfaceCall::FillText { text, x, y } => SurfaceCall::FillText { text: text@, x: *x, y: *y },
        }
    }
}

/// The model of a list of emitted calls.
pub open spec fn calls_model(v: Seq<SurfaceCall<String>>) -> Seq<CallModel> {
    v.map_values(|c: SurfaceCall<String>| c@)
}

/// Where one transform command sends the point `(x, y)` (thousandths).
pub open spec fn map_point(c: Command, x: int, y: int) -> (int, int) {
    match c {
        Command::Scale { x: sx, y: sy } => (sx * x / UNIT as int, sy * y / UNIT as int),
        Command::Translate { x: tx, y: ty } => (x + tx, y + ty),
        Command::Transform(m) => (
            (m.a * x + m.c * y) / UNIT as int + m.e,
            (m.b * x + m.d * y) / UNIT as int + m.f,
        ),
        _ => (x, y),
    }
}

/// Where the transforms issued in `calls` send a point given after them: the
/// last transform applies first. Meant for call sequences without `Restore`.
pub open spec fn device_point(calls: Seq<CallModel>, x: int, y: int) -> (int, int)
    decreases calls.len(),
{
    if calls.len() == 0 {
        (x, y)
    } else {
        let p = match calls.last() {
            SurfaceCall::Draw(c) => map_point(c, x, y),
            SurfaceCall::FillText { .. } => (x, y),
        };
        device_point(calls.drop_last(), p.0, p.1)
    }
}

} // verus!
