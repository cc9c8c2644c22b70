//! The viewer session: the loaded document's page count, the current page,
//! and the page-addressed calls that check an index before doing any work.
use vstd::prelude::*;
use crate::color::Rgb8;
use crate::geometry::{page_extent, pixel_size, pixel_size_exec, MediaBox, UNIT};
use crate::interp::{draw, render_operations, replay, Operator};
use crate::surface::{calls_model, CallModel, Command, SurfaceCall};
use crate::text::{initial_text_state, TextState};

verus! {

/// Why a session call failed.
#[derive(Clone, Copy, Debug, PartialEq, Eq, Structural)]
pub enum ViewerError {
    /// The document bytes could not be parsed.
    Load,
    /// The page index is not below the page count.
    PageOutOfRange,
}

impl ViewerError {
    /// The message shown to the caller.
    pub fn message(&self) -> (r: &'static str)
        ensures
            *self == ViewerError::Load ==> r@ == "Failed to parse PDF"@,
            *self == ViewerError::PageOutOfRange ==> r@ == "Page number out of range"@,
    {
        match self {
            ViewerError::Load => "Failed to parse PDF",
            ViewerError::PageOutOfRange => "Page number out of range",
        }
    }
}

/// The navigation state of one viewer.
pub struct PdfRenderer {
    current_page: usize,
    total_pages: usize,
}

impl PdfRenderer {
    pub closed spec fn current(&self) -> nat {
        self.current_page as nat
    }

    pub closed spec fn total(&self) -> nat {
        self.total_pages as nat
    }

    /// The current page is a page, or 0 where there are none (as before any
    /// document is loaded).
    pub open spec fn wf(&self) -> bool {
        &&& (self.total() == 0 ==> self.current() == 0)
        &&& (self.total() > 0 ==> self.current() < self.total())
    }

    /// The result of looking up page `page`.
    pub open spec fn page_check(&self, page: int) -> Result<(), ViewerError> {
        if page >= self.total() {
            Err(ViewerError::PageOutOfRange)
        } else {
            Ok(())
        }
    }

    /// A session with no document.
    pub fn new() -> (r: PdfRenderer)
        ensures
            r.wf(),
            r.total() == 0,
            r.current() == 0,
    {
        PdfRenderer { current_page: 0, total_pages: 0 }
    }

    /// Takes the outcome of parsing a new document: its page count, or `None`
    /// where the bytes were malformed. Success shows the first page; failure
    /// discards the previous document, leaving no pages.
    pub fn load_pdf(&mut self, page_count: Option<usize>) -> (r: Result<(), ViewerError>)
        ensures
            final(self).wf(),
            match page_count {
                Some(n) => {
                    &&& r == Ok::<(), ViewerError>(())
                    &&& final(self).total() == n
                    &&& final(self).current() == 0
                },
                None => {
                    &&& r == Err::<(), ViewerError>(ViewerError::Load)
                    &&& final(self).total() == 0
                    &&& final(self).current() == 0
                },
            },
    {
        match page_count {
            Some(n) => {
                self.total_pages = n;
                self.current_page = 0;
                Ok(())
            },
            None => {
                self.total_pages = 0;
                self.current_page = 0;
                Err(ViewerError::Load)
            },
        }
    }

    pub fn get_total_pages(&self) -> (r: usize)
        ensures
            r == self.total(),
    {
        self.total_pages
    }

    pub fn get_current_page(&self) -> (r: usize)
        ensures
            r == self.current(),
    {
        self.current_page
    }

    /// Moves to page `page`, which must be below the page count.
    pub fn set_current_page(&mut self, page: usize) -> (r: Result<(), ViewerError>)
        requires
            old(self).wf(),
        ensures
            final(self).wf(),
            final(self).total() == old(self).total(),
            page < old(self).total() ==> r == Ok::<(), ViewerError>(()) && final(self).current()
                == page,
            page >= old(self).total() ==> r == Err::<(), ViewerError>(ViewerError::PageOutOfRange)
                && final(self).current() == old(self).current(),
    {
        if page >= self.total_pages {
            return Err(ViewerError::PageOutOfRange);
        }
        self.current_page = page;
        Ok(())
    }

    /// The width and height of page `page`, whose media box is `media_box`.
    pub open spec fn dimensions(&self, page: int, media_box: MediaBox) -> Result<(int, int), ViewerError> {
        match self.page_check(page) {
            Ok(_) => Ok((media_box.width(), media_box.height())),
            Err(e) => Err(e),
        }
    }

    pub fn get_page_dimensions(&self, page: usize, media_box: &MediaBox) -> (r: Result<(i64, i64), ViewerError>)
        ensures
            match r {
                Ok((w, h)) => self.dimensions(page as int, *media_box) == Ok::<(int, int), ViewerError>((w as int, h as int)),
                Err(e) => self.dimensions(page as int, *media_box) == Err::<(int, int), ViewerError>(e),
            },
    {
        if page >= self.total_pages {
            return Err(ViewerError::PageOutOfRange);
        }
        Ok(page_extent(media_box))
    }

    /// The calls that render page `page`, or why it cannot be rendered.
    pub open spec fn render_result(
        &self,
        page: int,
        media_box: MediaBox,
        zoom: int,
        contents: Option<Seq<Operator>>,
    ) -> Result<Seq<CallModel>, ViewerError> {
        match self.page_check(page) {
            Ok(_) => Ok(page_calls(media_box, zoom, contents)),
            Err(e) => Err(e),
        }
    }

    /// Renders page `page` at `zoom` (thousandths): the surface calls, in order.
    /// `contents` holds the page's operators, those of all its content parts in
    /// document order, or `None` where the page has no content.
    pub fn render_page(
        &self,
        page: usize,
        media_box: &MediaBox,
        zoom: i64,
        contents: &Option<Vec<Operator>>,
    ) -> (r: Result<Vec<SurfaceCall<String>>, ViewerError>)
        ensures
            match r {
                Ok(v) => self.render_result(page as int, *media_box, zoom as int, opt_view(*contents))
                    == Ok::<Seq<CallModel>, ViewerError>(calls_model(v@)),
                Err(e) => self.render_result(page as int, *media_box, zoom as int, opt_view(*contents))
                    == Err::<Seq<CallModel>, ViewerError>(e),
            },
    {
        if page >= self.total_pages {
            return Err(ViewerError::PageOutOfRange);
        }
        Ok(render_page_content(media_box, zoom, contents))
    }
}

pub open spec fn opt_view(c: Option<Vec<Operator>>) -> Option<Seq<Operator>> {
    match c {
        Some(v) => Some(v@),
        None => None,
    }
}

pub open spec fn white() -> Rgb8 {
    Rgb8 { r: 255, g: 255, b: 255 }
}

/// The calls that size and clear the surface, then set up page space:
/// scale by the zoom, then translate by the page height and flip y.
pub open spec fn setup_calls(media_box: MediaBox, zoom: int) -> Seq<CallModel> {
    let w = pixel_size(media_box.width(), zoom);
    let h = pixel_size(media_box.height(), zoom);
    seq![
        draw(Command::Resize { columns: w as u32, rows: h as u32 }),
        draw(Command::SetFillStyle(white())),
        draw(Command::FillRect { x: 0, y: 0, width: (w * UNIT) as i64, height: (h * UNIT) as i64 }),
        draw(Command::Scale { x: zoom as i64, y: zoom as i64 }),
        draw(Command::Save),
        draw(Command::Translate { x: 0, y: media_box.height() as i64 }),
        draw(Command::Scale { x: UNIT, y: (-UNIT) as i64 }),
    ]
}

/// All calls for a page: the setup, a fresh path and the replayed operators
/// (where the page has content), then the restore of the setup's save.
pub open spec fn page_calls(media_box: MediaBox, zoom: int, contents: Option<Seq<Operator>>) -> Seq<CallModel> {
    setup_calls(media_box, zoom) + match contents {
        Some(ops) => seq![draw(Command::BeginPath)] + replay(initial_text_state(), ops).1,
        None => seq![],
    } + seq![draw(Command::Restore)]
}

fn emit_call(out: &mut Vec<SurfaceCall<String>>, c: Command)
    ensures
        calls_model(final(out)@) == calls_model(old(out)@).push(draw(c)),
{
    out.push(SurfaceCall::Draw(c));
    assert(calls_model(out@) =~= calls_model(old(out)@).push(draw(c)));
}

/// The calls for one page, without the page-index check.
pub fn render_page_content(media_box: &MediaBox, zoom: i64, contents: &Option<Vec<Operator>>) -> (r: Vec<SurfaceCall<String>>)
    ensures
        calls_model(r@) == page_calls(*media_box, zoom as int, opt_view(*contents)),
{
    let (width, height) = page_extent(media_box);
    let w = pixel_size_exec(width, zoom);
    let h = pixel_size_exec(height, zoom);
    let mut out: Vec<SurfaceCall<String>> = Vec::new();
    assert(calls_model(out@) =~= seq![]);
    emit_call(&mut out, Command::Resize { columns: w, rows: h });
    emit_call(&mut out, Command::SetFillStyle(Rgb8 { r: 255, g: 255, b: 255 }));
    emit_call(&mut out, Command::FillRect { x: 0, y: 0, width: w as i64 * UNIT, height: h as i64 * UNIT });
    emit_call(&mut out, Command::Scale { x: zoom, y: zoom });
    emit_call(&mut out, Command::Save);
    emit_call(&mut out, Command::Translate { x: 0, y: height });
    emit_call(&mut out, Command::Scale { x: UNIT, y: -UNIT });
    let ghost setup = calls_model(out@);
    assert(setup =~= setup_calls(*media_box, zoom as int));
    match contents {
        Some(ops) => {
            emit_call(&mut out, Command::BeginPath);
            let mut st = TextState::new();
            render_operations(ops, &mut st, &mut out);
        },
        None => {},
    }
    emit_call(&mut out, Command::Restore);
    assert(calls_model(out@) =~= page_calls(*media_box, zoom as int, opt_view(*contents)));
    out
}

} // verus!
