//! OCR text fragments.

use vstd::prelude::*;

verus! {

/// One recognized text fragment, with its bounding box in frame pixel
/// coordinates.
#[derive(Debug)]
pub struct Word {
    pub text: String,
    pub x: u64,
    pub y: u64,
    pub height: u64,
    pub width: u64,
}

impl Clone for Word {
    fn clone(&self) -> (w: Self)
        ensures
            w == *self,
    {
        Word {
            text: self.text.clone(),
            x: self.x,
            y: self.y,
            height: self.height,
            width: self.width,
        }
    }
}

impl Word {
    pub fn new(text: String, x: u64, y: u64, height: u64, width: u64) -> (w: Word)
        ensures
            w.text == text,
            w.x == x,
            w.y == y,
            w.height == height,
            w.width == width,
    {
        Word { text, x, y, height, width }
    }
}

} // verus!
