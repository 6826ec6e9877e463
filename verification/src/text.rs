//! Frames as they are written in SQL, for query plans.

use crate::bound::FrameBound;
use crate::exclusion::FrameExclusion;
use crate::frame::Frame;
use crate::frame::FrameBounds;
use vstd::prelude::*;

verus! {

/// The character that stands for a digit below ten.
pub open spec fn digit(d: nat) -> char {
    seq!['0', '1', '2', '3', '4', '5', '6', '7', '8', '9'][d as int]
}

/// A number written in base ten, without sign and without leading zeros.
pub open spec fn decimal(n: nat) -> Seq<char>
    decreases n,
{
    if n < 10 {
        seq![digit(n)]
    } else {
        decimal(n / 10).push(digit(n % 10))
    }
}

/// The digit `d` as a string of one character.
fn digit_str(d: usize) -> (r: &'static str)
    requires
        d < 10,
    ensures
        r@ == seq![digit(d as nat)],
{
    proof {
        reveal_strlit("0");
        reveal_strlit("1");
        reveal_strlit("2");
        reveal_strlit("3");
        reveal_strlit("4");
        reveal_strlit("5");
        reveal_strlit("6");
        reveal_strlit("7");
        reveal_strlit("8");
        reveal_strlit("9");
    }
    let r = if d == 0 {
        "0"
    } else if d == 1 {
        "1"
    } else if d == 2 {
        "2"
    } else if d == 3 {
        "3"
    } else if d == 4 {
        "4"
    } else if d == 5 {
        "5"
    } else if d == 6 {
        "6"
    } else if d == 7 {
        "7"
    } else if d == 8 {
        "8"
    } else {
        "9"
    };
    r
}

/// Writes `n` in base ten at the end of `s`.
fn push_decimal(s: &mut String, n: usize)
    ensures
        final(s)@ == old(s)@ + decimal(n as nat),
    decreases n,
{
    if n >= 10 {
        push_decimal(s, n / 10);
    }
    s.append(digit_str(n % 10));
}

impl FrameBound<usize> {
    /// The bound as SQL writes it.
    pub open spec fn text(&self) -> Seq<char> {
        match *self {
            FrameBound::UnboundedPreceding => "UNBOUNDED PRECEDING"@,
            FrameBound::Preceding(n) => decimal(n as nat) + " PRECEDING"@,
            FrameBound::CurrentRow => "CURRENT ROW"@,
            FrameBound::Following(n) => decimal(n as nat) + " FOLLOWING"@,
            FrameBound::UnboundedFollowing => "UNBOUNDED FOLLOWING"@,
        }
    }

    /// Writes the bound as SQL does.
    pub fn to_string(&self) -> (s: String)
        ensures
            s@ == self.text(),
    {
        match self {
            FrameBound::UnboundedPreceding => String::from_str("UNBOUNDED PRECEDING"),
            FrameBound::Preceding(n) => {
                let mut s = String::new();
                push_decimal(&mut s, *n);
                s.append(" PRECEDING");
                s
            },
            FrameBound::CurrentRow => String::from_str("CURRENT ROW"),
            FrameBound::Following(n) => {
                let mut s = String::new();
                push_decimal(&mut s, *n);
                s.append(" FOLLOWING");
                s
            },
            FrameBound::UnboundedFollowing => String::from_str("UNBOUNDED FOLLOWING"),
        }
    }
}

impl FrameExclusion {
    /// The exclusion as SQL writes it.
    pub open spec fn text(&self) -> Seq<char> {
        match *self {
            FrameExclusion::CurrentRow => "EXCLUDE CURRENT ROW"@,
            FrameExclusion::NoOthers => "EXCLUDE NO OTHERS"@,
        }
    }

    /// Writes the exclusion as SQL does.
    pub fn to_string(&self) -> (s: String)
        ensures
            s@ == self.text(),
    {
        match self {
            FrameExclusion::CurrentRow => String::from_str("EXCLUDE CURRENT ROW"),
            FrameExclusion::NoOthers => String::from_str("EXCLUDE NO OTHERS"),
        }
    }
}

impl FrameBounds {
    /// The bounds as SQL writes them.
    pub open spec fn text(&self) -> Seq<char> {
        "ROWS BETWEEN "@ + self.start().text() + " AND "@ + self.end().text()
    }

    /// Writes the bounds as SQL does.
    pub fn to_string(&self) -> (s: String)
        ensures
            s@ == self.text(),
    {
        match self {
            FrameBounds::Rows(start, end) => {
                let mut s = String::from_str("ROWS BETWEEN ");
                let start_text = start.to_string();
                s.append(start_text.as_str());
                s.append(" AND ");
                let end_text = end.to_string();
                s.append(end_text.as_str());
                s
            },
        }
    }
}

impl Frame {
    /// The frame as SQL writes it: the bounds, and after them the exclusion
    /// unless it is the one that SQL takes where none is written.
    pub open spec fn text(&self) -> Seq<char> {
        if self.exclusion is NoOthers {
            self.bounds.text()
        } else {
            self.bounds.text() + " "@ + self.exclusion.text()
        }
    }

    /// Writes the frame as SQL does.
    pub fn to_string(&self) -> (s: String)
        ensures
            s@ == self.text(),
    {
        let mut s = self.bounds.to_string();
        match self.exclusion {
            FrameExclusion::NoOthers => {},
            FrameExclusion::CurrentRow => {
                s.append(" ");
                let exclusion_text = self.exclusion.to_string();
                s.append(exclusion_text.as_str());
            },
        }
        s
    }
}

} // verus!
