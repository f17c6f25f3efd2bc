//! Errors reported by the descriptor parsers.

use vstd::prelude::*;

verus! {

/// A failure to parse a descriptor.
#[derive(Debug)]
pub enum Parse {
    /// The type descriptor is empty, starts with an unknown tag, or is an
    /// array prefix with no element type behind it.
    InvalidTypeDescriptor(String),
    /// The shorty descriptor is empty.
    InvalidShortyDescriptor(String),
    /// The character is not a tag of the shorty alphabet at its position.
    InvalidShortyType(char),
}

/// Mathematical model of [`Parse`]: strings become character sequences.
pub enum ParseView {
    InvalidTypeDescriptor(Seq<char>),
    InvalidShortyDescriptor(Seq<char>),
    InvalidShortyType(char),
}

impl View for Parse {
    type V = ParseView;

    open spec fn view(&self) -> ParseView {
        match self {
            Parse::InvalidTypeDescriptor(s) => ParseView::InvalidTypeDescriptor(s@),
            Parse::InvalidShortyDescriptor(s) => ParseView::InvalidShortyDescriptor(s@),
            Parse::InvalidShortyType(c) => ParseView::InvalidShortyType(*c),
        }
    }
}

/// The model of a parser's outcome: the model of the value or of the error.
pub open spec fn outcome<T: View>(parsed: Result<T, Parse>) -> Result<T::V, ParseView> {
    match parsed {
        Ok(value) => Ok(value@),
        Err(e) => Err(e@),
    }
}

} // verus!
