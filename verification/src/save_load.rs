//! The record of a note as it is kept between runs.

use vstd::prelude::*;

verus! {

/// A note as stored: its look, its text and where its window was.
#[derive(Clone, Debug, PartialEq, Eq)]
pub struct Note {
    pub color: String,
    pub contents: String,
    pub x: i32,
    pub y: i32,
    pub height: u32,
    pub width: u32,
}

} // verus!
