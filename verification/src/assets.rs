use vstd::prelude::*;

verus! {

/// The fonts of the 240x240 display.
pub struct FontSet240 {}

impl FontSet240 {
    pub fn new() -> (r: FontSet240)
        ensures
            r == (FontSet240 {}),
    {
        FontSet240 {}
    }
}

/// The fonts of the 466x466 display.
pub struct FontSet466 {}

impl FontSet466 {
    pub fn new() -> (r: FontSet466)
        ensures
            r == (FontSet466 {}),
    {
        FontSet466 {}
    }
}

/// The icons of the 240x240 display.
pub struct IconsSet240 {}

/// The icons of the 466x466 display.
pub struct IconsSet466 {}

} // verus!
