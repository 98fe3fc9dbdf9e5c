//! The indentation choice for a formatting run.

use vstd::prelude::*;
use crate::text::str_to_chars;

verus! {

/// How one nesting level is rendered.
///
/// The named variants are common presets; `Custom` repeats an arbitrary
/// string (even the empty string) verbatim once per nesting level, with no
/// validation. Exactly one choice is active for a whole run.
#[derive(Debug, Copy, Clone, Eq, PartialEq, Hash)]
pub enum Indentation<'a> {
    /// Two spaces per level.
    TwoSpace,
    /// Four spaces per level.
    FourSpace,
    /// One tab per level.
    Tab,
    /// A custom indentation string.
    Custom(&'a str),
}

impl<'a> Indentation<'a> {
    /// The characters this choice puts down for one nesting level.
    pub open spec fn unit(self) -> Seq<char> {
        match self {
            Indentation::TwoSpace => seq![' ', ' '],
            Indentation::FourSpace => seq![' ', ' ', ' ', ' '],
            Indentation::Tab => seq!['\t'],
            Indentation::Custom(s) => s@,
        }
    }

    /// The indent unit as a character vector.
    pub fn unit_chars(self) -> (v: Vec<char>)
        ensures
            v@ == self.unit(),
    {
        match self {
            Indentation::TwoSpace => {
                let mut v: Vec<char> = Vec::new();
                v.push(' ');
                v.push(' ');
                proof {
                    assert(v@ =~= self.unit());
                }
                v
            },
            Indentation::FourSpace => {
                let mut v: Vec<char> = Vec::new();
                v.push(' ');
                v.push(' ');
                v.push(' ');
                v.push(' ');
                proof {
                    assert(v@ =~= self.unit());
                }
                v
            },
            Indentation::Tab => {
                let mut v: Vec<char> = Vec::new();
                v.push('\t');
                proof {
                    assert(v@ =~= self.unit());
                }
                v
            },
            Indentation::Custom(s) => str_to_chars(s),
        }
    }
}

impl<'a> Default for Indentation<'a> {
    /// Two spaces, the implicit choice when none is given.
    fn default() -> (r: Self)
        ensures
            r == Indentation::<'a>::TwoSpace,
    {
        Indentation::TwoSpace
    }
}

} // verus!
