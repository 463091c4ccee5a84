//! Board rows.
//!
//! A rank is a plain integer: 0 stands for the first rank, 7 for the eighth.

use vstd::prelude::*;
use vstd::string::StringExecFns;

verus! {

/// A board row, counted from 0 (rank 1) to 7 (rank 8).
pub type Rank = u8;

/// Whether `rank` names one of the eight rows.
pub open spec fn is_rank(rank: Rank) -> bool {
    rank <= 7
}

/// The digit a rank is written with: one more than its number.
pub open spec fn rank_digit(rank: Rank) -> char
    recommends
        is_rank(rank),
{
    if rank == 0 {
        '1'
    } else if rank == 1 {
        '2'
    } else if rank == 2 {
        '3'
    } else if rank == 3 {
        '4'
    } else if rank == 4 {
        '5'
    } else if rank == 5 {
        '6'
    } else if rank == 6 {
        '7'
    } else {
        '8'
    }
}

/// A rank together with its human-readable rendering.
#[derive(Clone, Copy, PartialEq, Eq, Structural)]
pub struct RankWrapper(pub Rank);

impl RankWrapper {
    /// Whether the wrapped value names one of the eight rows.
    pub open spec fn wf(&self) -> bool {
        is_rank(self.0)
    }

    /// The rank's digit, `"1"` to `"8"`.
    pub fn render(&self) -> (text: String)
        requires
            self.wf(),
        ensures
            text@ == seq![rank_digit(self.0)],
    {
        proof {
            reveal_strlit("1");
            reveal_strlit("2");
            reveal_strlit("3");
            reveal_strlit("4");
            reveal_strlit("5");
            reveal_strlit("6");
            reveal_strlit("7");
            reveal_strlit("8");
        }
        let digit = match self.0 {
            0 => "1",
            1 => "2",
            2 => "3",
            3 => "4",
            4 => "5",
            5 => "6",
            6 => "7",
            _ => "8",
        };
        let text = String::from_str(digit);
        assert(text@ =~= seq![rank_digit(self.0)]);
        text
    }
}

} // verus!
