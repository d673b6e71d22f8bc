//! Queue types, stored by name.

use vstd::prelude::*;
use vstd::string::*;
use crate::text::str_eq;

verus! {

/// The division a queue serves.
#[derive(Debug, Clone, Copy, PartialEq, Eq)]
pub enum QueueType {
    Newcomer,
    Journey,
    Default,
}

/// The queue type stored under the name `s`: `newcomer`, `journey`, and
/// anything else the default queue.
pub open spec fn queue_type_of(s: Seq<char>) -> QueueType {
    if s == "newcomer"@ {
        QueueType::Newcomer
    } else if s == "journey"@ {
        QueueType::Journey
    } else {
        QueueType::Default
    }
}

/// The name a queue type is stored under.
pub open spec fn queue_type_name_spec(q: QueueType) -> Seq<char> {
    match q {
        QueueType::Newcomer => "newcomer"@,
        QueueType::Journey => "journey"@,
        QueueType::Default => "default"@,
    }
}

impl QueueType {
    /// The queue type stored under `s`.
    pub fn from_name(s: &str) -> (r: QueueType)
        ensures
            r == queue_type_of(s@),
    {
        if str_eq(s, "newcomer") {
            QueueType::Newcomer
        } else if str_eq(s, "journey") {
            QueueType::Journey
        } else {
            QueueType::Default
        }
    }

    /// The name the queue type is stored under.
    pub fn to_name(&self) -> (r: String)
        ensures
            r@ == queue_type_name_spec(*self),
    {
        match self {
            QueueType::Newcomer => String::from_str("newcomer"),
            QueueType::Journey => String::from_str("journey"),
            QueueType::Default => String::from_str("default"),
        }
    }
}

impl From<String> for QueueType {
    fn from(s: String) -> (r: QueueType) {
        QueueType::from_name(s.as_str())
    }
}

impl vstd::std_specs::convert::FromSpecImpl<String> for QueueType {
    open spec fn obeys_from_spec() -> bool {
        true
    }

    open spec fn from_spec(v: String) -> QueueType {
        queue_type_of(v@)
    }
}

/// Storing a queue type by name and reading it back gives the same type.
pub proof fn lemma_queue_type_round_trip(q: QueueType)
    ensures
        queue_type_of(queue_type_name_spec(q)) == q,
{
    reveal_strlit("newcomer");
    reveal_strlit("journey");
    reveal_strlit("default");
    assert("journey"@[0] != "newcomer"@[0]);
    assert("default"@[0] != "newcomer"@[0]);
    assert("default"@[0] != "journey"@[0]);
}

} // verus!
