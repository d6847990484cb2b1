//! Colours.

use vstd::prelude::*;

verus! {

/// A colour by its red, green and blue components.
#[derive(Clone, Copy, Debug, PartialEq, Eq, Hash)]
pub struct ColorRGB {
    pub red: u8,
    pub green: u8,
    pub blue: u8,
}

impl ColorRGB {
    /// Black, in ghost code.
    pub open spec fn spec_black() -> ColorRGB {
        ColorRGB { red: 0, green: 0, blue: 0 }
    }

    /// Black.
    #[verifier::when_used_as_spec(spec_black)]
    pub fn black() -> (c: ColorRGB)
        ensures
            c == Self::spec_black(),
    {
        ColorRGB { red: 0, green: 0, blue: 0 }
    }

    /// Blue, in ghost code.
    pub open spec fn spec_blue() -> ColorRGB {
        ColorRGB { red: 0, green: 0, blue: 255 }
    }

    /// Blue.
    #[verifier::when_used_as_spec(spec_blue)]
    pub fn blue() -> (c: ColorRGB)
        ensures
            c == Self::spec_blue(),
    {
        ColorRGB { red: 0, green: 0, blue: 255 }
    }
}

} // verus!
