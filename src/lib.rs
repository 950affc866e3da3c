use vstd::prelude::*;

pub mod calendar;
pub mod date_format;
pub mod export;
pub mod ical;
pub mod range;
pub mod record;
pub mod text;

verus! {

/// The two date expressions that bound the export: its start and its end.
#[derive(Debug)]
pub struct Arguments {
    pub start: String,
    pub end: String,
}

} // verus!
