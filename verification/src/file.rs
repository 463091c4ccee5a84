//! Board columns.
//!
//! A file is a plain integer: 0 stands for file A, 7 for file H.

use vstd::prelude::*;
use vstd::string::StringExecFns;

verus! {

/// A board column, counted from 0 (file A) to 7 (file H).
pub type File = u8;

pub const A: File = 0;

pub const B: File = 1;

pub const C: File = 2;

pub const D: File = 3;

pub const E: File = 4;

pub const F: File = 5;

pub const G: File = 6;

pub const H: File = 7;

/// Whether `file` names one of the eight columns.
pub open spec fn is_file(file: File) -> bool {
    file <= H
}

/// The letter a file is written with.
pub open spec fn file_letter(file: File) -> char
    recommends
        is_file(file),
{
    if file == A {
        'A'
    } else if file == B {
        'B'
    } else if file == C {
        'C'
    } else if file == D {
        'D'
    } else if file == E {
        'E'
    } else if file == F {
        'F'
    } else if file == G {
        'G'
    } else {
        'H'
    }
}

/// A file together with its human-readable rendering.
#[derive(Clone, Copy, PartialEq, Eq, Structural)]
pub struct FileWrapper(pub File);

impl FileWrapper {
    /// Whether the wrapped value names one of the eight columns.
    pub open spec fn wf(&self) -> bool {
        is_file(self.0)
    }

    /// The file's letter, `"A"` to `"H"`.
    pub fn render(&self) -> (text: String)
        requires
            self.wf(),
        ensures
            text@ == seq![file_letter(self.0)],
    {
        proof {
            reveal_strlit("A");
            reveal_strlit("B");
            reveal_strlit("C");
            reveal_strlit("D");
            reveal_strlit("E");
            reveal_strlit("F");
            reveal_strlit("G");
            reveal_strlit("H");
        }
        let letter = match self.0 {
            0 => "A",
            1 => "B",
            2 => "C",
            3 => "D",
            4 => "E",
            5 => "F",
            6 => "G",
            _ => "H",
        };
        let text = String::from_str(letter);
        assert(text@ =~= seq![file_letter(self.0)]);
        text
    }
}

} // verus!
