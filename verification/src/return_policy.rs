//! Player-selected priorities for resolving a forced return cargo casualty.

use crate::session::{ExpeditionState, GameSession};
use vstd::prelude::*;

verus! {

#[derive(Clone, Copy, Debug, PartialEq, Eq, Structural)]
pub enum ReturnPolicy {
    Standard,
    ProtectObjective,
    ProtectValue,
}

impl ReturnPolicy {
    pub open spec fn next_spec(self) -> Self {
        match self {
            ReturnPolicy::Standard => ReturnPolicy::ProtectObjective,
            ReturnPolicy::ProtectObjective => ReturnPolicy::ProtectValue,
            ReturnPolicy::ProtectValue => ReturnPolicy::Standard,
        }
    }

    pub fn next(self) -> (r: Self)
        ensures
            r == self.next_spec(),
    {
        match self {
            ReturnPolicy::Standard => ReturnPolicy::ProtectObjective,
            ReturnPolicy::ProtectObjective => ReturnPolicy::ProtectValue,
            ReturnPolicy::ProtectValue => ReturnPolicy::Standard,
        }
    }

    pub open spec fn label_spec(self) -> Seq<char> {
        match self {
            ReturnPolicy::Standard => "STANDARD"@,
            ReturnPolicy::ProtectObjective => "PROTECT OBJECTIVE"@,
            ReturnPolicy::ProtectValue => "PROTECT VALUE"@,
        }
    }

    pub fn label(self) -> (r: &'static str)
        ensures
            r@ == self.label_spec(),
    {
        match self {
            ReturnPolicy::Standard => "STANDARD",
            ReturnPolicy::ProtectObjective => "PROTECT OBJECTIVE",
            ReturnPolicy::ProtectValue => "PROTECT VALUE",
        }
    }

    pub open spec fn short_label_spec(self) -> Seq<char> {
        match self {
            ReturnPolicy::Standard => "STANDARD"@,
            ReturnPolicy::ProtectObjective => "OBJECTIVE"@,
            ReturnPolicy::ProtectValue => "VALUE"@,
        }
    }

    pub fn short_label(self) -> (r: &'static str)
        ensures
            r@ == self.short_label_spec(),
    {
        match self {
            ReturnPolicy::Standard => "STANDARD",
            ReturnPolicy::ProtectObjective => "OBJECTIVE",
            ReturnPolicy::ProtectValue => "VALUE",
        }
    }

    pub open spec fn description_spec(self) -> Seq<char> {
        match self {
            ReturnPolicy::Standard => "normal casualty selection"@,
            ReturnPolicy::ProtectObjective => "sacrifice another load before the contract target"@,
            ReturnPolicy::ProtectValue => "sacrifice the lowest-value load first"@,
        }
    }

    pub fn description(self) -> (r: &'static str)
        ensures
            r@ == self.description_spec(),
    {
        match self {
            ReturnPolicy::Standard => "normal casualty selection",
            ReturnPolicy::ProtectObjective => "sacrifice another load before the contract target",
            ReturnPolicy::ProtectValue => "sacrifice the lowest-value load first",
        }
    }

}


impl GameSession {
    /// The return priority of the run in progress.
    pub fn return_policy(&self) -> (r: Option<ReturnPolicy>)
        ensures
            r == match self.expedition {
                Some(e) => Some(e.return_policy),
                None => None::<ReturnPolicy>,
            },
    {
        match &self.expedition {
            Some(e) => Some(e.return_policy),
            None => None,
        }
    }

    /// Moves the run's return priority to the next one, announcing it;
    /// refused when no run is in progress.
    pub fn cycle_return_policy(&mut self) -> (r: Result<String, String>)
        requires
            old(self).wf(),
        ensures
            final(self).wf(),
            match old(self).expedition {
                None => *final(self) == *old(self) && r is Err && r->Err_0@
                    == "return priorities are available during an active haul"@,
                Some(e) => {
                    let next = e.return_policy.next_spec();
                    &&& final(self).expedition == Some(ExpeditionState { return_policy: next, ..e })
                    &&& *final(self) == (GameSession { expedition: final(self).expedition, ..*old(self) })
                    &&& r is Ok
                    &&& r->Ok_0@ == "Return policy: "@ + next.label_spec() + ". "@
                        + next.description_spec() + "."@
                },
            },
    {
        match &mut self.expedition {
            Some(e) => {
                let next = e.return_policy.next();
                e.return_policy = next;
                let mut msg = "Return policy: ".to_owned();
                msg.append(next.label());
                msg.append(". ");
                msg.append(next.description());
                msg.append(".");
                Ok(msg)
            },
            None => Err("return priorities are available during an active haul".to_owned()),
        }
    }
}

} // verus!
