//! Route familiarity earned by working the same wreck repeatedly.

use crate::session::GameSession;
use crate::text::push_int;
use vstd::prelude::*;

verus! {

pub const MAX_ROUTE_FAMILIARITY: u8 = 3;
pub const ROUTE_FAMILIARITY_DANGER_REDUCTION: i32 = 4;

impl GameSession {
    pub open spec fn familiarity_spec(&self, site_id: Seq<char>) -> int {
        match self.progress_spec(site_id) {
            Some(p) => if p.visits > MAX_ROUTE_FAMILIARITY {
                MAX_ROUTE_FAMILIARITY as int
            } else {
                p.visits as int
            },
            None => 0,
        }
    }

    /// Completed visits to a wreck, capped at the familiarity ceiling.
    pub fn route_familiarity(&self, site_id: &str) -> (r: u8)
        ensures
            r == self.familiarity_spec(site_id@),
            r <= MAX_ROUTE_FAMILIARITY,
    {
        match self.progress(site_id) {
            Some(p) => if p.visits > MAX_ROUTE_FAMILIARITY as u32 {
                MAX_ROUTE_FAMILIARITY
            } else {
                p.visits as u8
            },
            None => 0,
        }
    }

    pub open spec fn familiarity_reduction_spec(&self, site_id: Seq<char>) -> int {
        self.familiarity_spec(site_id) * ROUTE_FAMILIARITY_DANGER_REDUCTION
    }

    /// Route danger a known route takes off: four per level of familiarity.
    pub fn route_familiarity_danger_reduction(&self, site_id: &str) -> (r: i32)
        ensures
            r == self.familiarity_reduction_spec(site_id@),
            0 <= r <= 12,
    {
        (self.route_familiarity(site_id) as i32) * ROUTE_FAMILIARITY_DANGER_REDUCTION
    }

    pub open spec fn familiarity_label_spec(&self, site_id: Seq<char>) -> Seq<char> {
        let f = self.familiarity_spec(site_id);
        if f == 0 {
            "NEW"@
        } else if f == 1 {
            "KNOWN"@
        } else if f == 2 {
            "WORKED"@
        } else {
            "FAMILIAR"@
        }
    }

    pub fn route_familiarity_label(&self, site_id: &str) -> (r: &'static str)
        ensures
            r@ == self.familiarity_label_spec(site_id@),
    {
        let f = self.route_familiarity(site_id);
        if f == 0 {
            "NEW"
        } else if f == 1 {
            "KNOWN"
        } else if f == 2 {
            "WORKED"
        } else {
            "FAMILIAR"
        }
    }

    /// The route line on the site card.
    pub fn route_familiarity_readout(&self, site_id: &str) -> (r: String)
        ensures
            r@ == if self.familiarity_reduction_spec(site_id@) == 0 {
                "ROUTE "@ + self.familiarity_label_spec(site_id@) + " // FIRST PASS"@
            } else {
                "ROUTE "@ + self.familiarity_label_spec(site_id@) + " // DANGER -"@
                    + crate::text::decimal(self.familiarity_reduction_spec(site_id@))
            },
    {
        let reduction = self.route_familiarity_danger_reduction(site_id);
        let mut s = "ROUTE ".to_owned();
        s.append(self.route_familiarity_label(site_id));
        if reduction == 0 {
            s.append(" // FIRST PASS");
        } else {
            s.append(" // DANGER -");
            push_int(&mut s, reduction as i64);
        }
        s
    }
}

} // verus!
