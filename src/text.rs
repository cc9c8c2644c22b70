//! Text state kept across the text operators of one page.
use vstd::prelude::*;
use crate::geometry::{identity, identity_matrix, Matrix, UNIT};

verus! {

/// Font size, text matrix, leading, spacings, horizontal scaling and rise,
/// all in thousandths (a horizontal scaling of `1000` leaves text unscaled).
#[derive(Clone, Copy, Debug, PartialEq, Eq, Structural)]
pub struct TextState {
    pub font_size: i64,
    pub text_matrix: Matrix,
    pub text_leading: i64,
    pub char_spacing: i64,
    pub word_spacing: i64,
    pub horizontal_scaling: i64,
    pub text_rise: i64,
}

/// The state a page starts with: 12-unit font, identity matrix, no spacing or rise.
pub open spec fn initial_text_state() -> TextState {
    TextState {
        font_size: 12000,
        text_matrix: identity(),
        text_leading: 0,
        char_spacing: 0,
        word_spacing: 0,
        horizontal_scaling: UNIT,
        text_rise: 0,
    }
}

impl TextState {
    pub fn new() -> (r: TextState)
        ensures
            r == initial_text_state(),
    {
        TextState {
            font_size: 12000,
            text_matrix: identity_matrix(),
            text_leading: 0,
            char_spacing: 0,
            word_spacing: 0,
            horizontal_scaling: UNIT,
            text_rise: 0,
        }
    }

    /// Starts a text object: the matrix becomes the identity, the rest stays.
    pub fn reset(&mut self)
        ensures
            *final(self) == (TextState { text_matrix: identity(), ..*old(self) }),
    {
        self.text_matrix = identity_matrix();
    }
}

} // verus!
