//! Match results as reported by runners.

use vstd::prelude::*;
use crate::text::str_eq;

verus! {

/// Match result from a team perspective.
#[derive(Debug, Clone, Copy, PartialEq, Eq)]
pub enum MatchResult {
    RedWin,
    BluWin,
    Draw,
}

/// The result named `s`: `red`, `blu` or `draw`.
pub open spec fn match_result_of(s: Seq<char>) -> Option<MatchResult> {
    if s == "red"@ {
        Some(MatchResult::RedWin)
    } else if s == "blu"@ {
        Some(MatchResult::BluWin)
    } else if s == "draw"@ {
        Some(MatchResult::Draw)
    } else {
        None
    }
}

impl MatchResult {
    /// The result named `s` (`red`, `blu` or `draw`), else `None`.
    pub fn from_str(s: &str) -> (r: Option<MatchResult>)
        ensures
            r == match_result_of(s@),
    {
        if str_eq(s, "red") {
            Some(MatchResult::RedWin)
        } else if str_eq(s, "blu") {
            Some(MatchResult::BluWin)
        } else if str_eq(s, "draw") {
            Some(MatchResult::Draw)
        } else {
            None
        }
    }
}

/// A result field names a RED win exactly when it reads "red", a BLU win
/// exactly when it reads "blu", and a draw exactly when it reads "draw".
pub proof fn lemma_result_words(s: Seq<char>)
    ensures
        (match_result_of(s) == Some(MatchResult::RedWin)) == (s == "red"@),
        (match_result_of(s) == Some(MatchResult::BluWin)) == (s == "blu"@),
        (match_result_of(s) == Some(MatchResult::Draw)) == (s == "draw"@),
{
    reveal_strlit("red");
    reveal_strlit("blu");
    reveal_strlit("draw");
    assert("red"@ != "draw"@) by {
        assert("red"@.len() != "draw"@.len());
    }
    assert("red"@ != "blu"@) by {
        assert("red"@[0] != "blu"@[0]);
    }
    assert("blu"@ != "draw"@) by {
        assert("blu"@.len() != "draw"@.len());
    }
}

} // verus!
