//! Properties that relate several calls of the library.
use vstd::prelude::*;
use crate::geometry::{half, sat, Matrix, MediaBox, UNIT};
use crate::interp::{draw, lossy_text, replay, step, Operator, Winding};
use crate::session::{page_calls, PdfRenderer, ViewerError};
use crate::surface::{device_point, CallModel, Command};
use crate::text::TextState;

verus! {

/// A valid page of a proper media box has a positive width and height, namely
/// `right − left` and `top − bottom` (saturated to the range of `i64`).
pub proof fn lemma_page_dimensions_positive(r: PdfRenderer, page: int, media_box: MediaBox)
    requires
        r.wf(),
        0 <= page < r.total(),
        media_box.left < media_box.right,
        media_box.bottom < media_box.top,
    ensures
        r.dimensions(page, media_box) == Ok::<(int, int), ViewerError>((media_box.width(), media_box.height())),
        media_box.width() > 0,
        media_box.height() > 0,
        media_box.right - media_box.left <= i64::MAX ==> media_box.width() == media_box.right - media_box.left,
        media_box.top - media_box.bottom <= i64::MAX ==> media_box.height() == media_box.top - media_box.bottom,
{
}

/// Every page-addressed call fails with a range error on an index at or past the
/// page count.
pub proof fn lemma_out_of_range_rejected(
    r: PdfRenderer,
    page: int,
    media_box: MediaBox,
    zoom: int,
    contents: Option<Seq<Operator>>,
)
    requires
        page >= r.total(),
    ensures
        r.page_check(page) == Err::<(), ViewerError>(ViewerError::PageOutOfRange),
        r.dimensions(page, media_box) == Err::<(int, int), ViewerError>(ViewerError::PageOutOfRange),
        r.render_result(page, media_box, zoom, contents) == Err::<Seq<CallModel>, ViewerError>(
            ViewerError::PageOutOfRange,
        ),
{
}

/// Rendering depends only on the document's page count and the call's arguments:
/// two sessions that agree on those render a page identically, whatever page each
/// shows or was rendered before.
pub proof fn lemma_render_repeatable(
    a: PdfRenderer,
    b: PdfRenderer,
    page: int,
    media_box: MediaBox,
    zoom: int,
    contents: Option<Seq<Operator>>,
)
    requires
        a.total() == b.total(),
    ensures
        a.render_result(page, media_box, zoom, contents) == b.render_result(page, media_box, zoom, contents),
{
}

/// On a page whose content is a move-to `(x, y)` followed by a fill, the move-to
/// is issued under transforms that send `(x, y)` to pixel `(x·Z, (H − y)·Z)`,
/// for page height `H` and zoom `Z` (all in thousandths).
pub proof fn lemma_move_to_pixel(media_box: MediaBox, zoom: i64, x: i64, y: i64, winding: Winding)
    requires
        media_box.top - media_box.bottom <= i64::MAX,
        media_box.top - media_box.bottom >= i64::MIN,
    ensures
        ({
            let calls = page_calls(
                media_box,
                zoom as int,
                Some(seq![Operator::MoveTo { x, y }, Operator::Fill { winding }]),
            );
            let h = media_box.top - media_box.bottom;
            &&& calls[8] == draw(Command::MoveTo { x, y })
            &&& device_point(calls.take(8), x as int, y as int) == (
                (x * zoom) / UNIT as int,
                ((h - y) * zoom) / UNIT as int,
            )
        }),
{
    let ops = seq![Operator::MoveTo { x, y }, Operator::Fill { winding }];
    let calls = page_calls(media_box, zoom as int, Some(ops));
    let s0 = crate::text::initial_text_state();
    assert(ops.drop_last().drop_last() =~= Seq::<Operator>::empty());
    let r0 = replay(s0, ops.drop_last().drop_last());
    assert(r0.1 =~= Seq::<CallModel>::empty());
    assert(ops.drop_last().last() == Operator::MoveTo { x, y });
    let r1 = replay(s0, ops.drop_last());
    assert(r1.1 =~= r0.1 + seq![draw(Command::MoveTo { x, y })]);
    assert(r1.1 =~= seq![draw(Command::MoveTo { x, y })]);
    let h = media_box.top - media_box.bottom;
    assert(media_box.height() == h);
    let pre = calls.take(8);
    assert(pre.drop_last() =~= calls.take(7));
    assert(calls.take(7).drop_last() =~= calls.take(6));
    assert(calls.take(6).drop_last() =~= calls.take(5));
    assert(calls.take(5).drop_last() =~= calls.take(4));
    assert(calls.take(4).drop_last() =~= calls.take(3));
    assert(calls.take(3).drop_last() =~= calls.take(2));
    assert(calls.take(2).drop_last() =~= calls.take(1));
    assert(calls.take(1).drop_last() =~= Seq::<CallModel>::empty());
    assert(UNIT * (x as int) / (UNIT as int) == x as int);
    assert((-UNIT) * (y as int) / (UNIT as int) == -(y as int));
    assert(zoom * (h - y) == (h - y) * zoom) by (nonlinear_arith);
    assert(zoom * (x as int) == (x as int) * zoom) by (nonlinear_arith);
    reveal_with_fuel(device_point, 9);
}

/// Two text runs in a row, each decoding to two characters, with no matrix set
/// between them: the second is placed `2 × F × 0.5 = F` to the right of the first,
/// for font size `F` (where that position is within range).
pub proof fn lemma_runs_advance(s: TextState, first: Vec<u8>, second: Vec<u8>)
    requires
        lossy_text(first@).len() == 2,
        lossy_text(second@).len() == 2,
        i64::MIN <= s.text_matrix.e + s.font_size <= i64::MAX,
    ensures
        ({
            let (s1, c1) = step(s, Operator::TextDraw(first));
            let (s2, c2) = step(s1, Operator::TextDraw(second));
            &&& c1[1] == draw(Command::Transform(s.text_matrix))
            &&& c2[1] == draw(Command::Transform(
                Matrix { e: (s.text_matrix.e + s.font_size) as i64, ..s.text_matrix },
            ))
        }),
{
    assert(half(2 * s.font_size) == s.font_size);
    let s1 = step(s, Operator::TextDraw(first)).0;
    assert(s1.text_matrix.e == sat(s.text_matrix.e + s.font_size));
}

/// Replaying `a` then `b` is replaying `a + b`.
pub proof fn lemma_replay_concat(s: TextState, a: Seq<Operator>, b: Seq<Operator>)
    ensures
        ({
            let ra = replay(s, a);
            let rb = replay(ra.0, b);
            replay(s, a + b) == (rb.0, ra.1 + rb.1)
        }),
    decreases b.len(),
{
    if b.len() == 0 {
        assert(a + b =~= a);
        assert(replay(s, a).1 + seq![] =~= replay(s, a).1);
    } else {
        lemma_replay_concat(s, a, b.drop_last());
        assert((a + b).drop_last() =~= a + b.drop_last());
        let ra = replay(s, a);
        let rb = replay(ra.0, b.drop_last());
        let t = step(rb.0, b.last());
        assert(ra.1 + rb.1 + t.1 =~= ra.1 + (rb.1 + t.1));
    }
}

/// An operator that cannot be interpreted changes nothing: the operators around
/// it make the same calls, in the same order, as without it.
pub proof fn lemma_unsupported_ignored(s: TextState, ops: Seq<Operator>, i: int)
    requires
        0 <= i <= ops.len(),
    ensures
        replay(s, ops.insert(i, Operator::Unsupported)) == replay(s, ops),
{
    let pre = ops.take(i);
    let post = ops.skip(i);
    let u = seq![Operator::Unsupported];
    assert(ops.insert(i, Operator::Unsupported) =~= (pre + u) + post);
    assert(ops =~= pre + post);
    lemma_replay_concat(s, pre + u, post);
    lemma_replay_concat(s, pre, u);
    lemma_replay_concat(s, pre, post);
    assert((pre + u).drop_last() =~= pre);
    assert(u.drop_last() =~= Seq::<Operator>::empty());
    assert(replay(s, pre).1 + seq![] =~= replay(s, pre).1);
    let rp = replay(s, pre);
    assert(replay(rp.0, u).1 =~= seq![]);
    assert(rp.1 + replay(rp.0, u).1 =~= rp.1);
}

} // verus!
