//! Contract standing earned from completed briefs, and its license benefits.

use crate::session::GameSession;
use vstd::prelude::*;

verus! {

#[derive(Clone, Copy, Debug, PartialEq, Eq, Structural)]
pub enum SalvageStanding {
    Independent,
    LocalContractor,
    TrustedSalvor,
    FleetPartner,
}

impl SalvageStanding {
    pub open spec fn from_reputation_spec(reputation: int) -> Self {
        if 0 <= reputation <= 1 {
            SalvageStanding::Independent
        } else if 2 <= reputation <= 3 {
            SalvageStanding::LocalContractor
        } else if 4 <= reputation <= 6 {
            SalvageStanding::TrustedSalvor
        } else {
            SalvageStanding::FleetPartner
        }
    }

    /// Standing for a reputation score; scores outside the authored bands
    /// (negative ones included) count as fleet partners, as the bands leave them.
    pub fn from_reputation(reputation: i32) -> (r: Self)
        ensures
            r == Self::from_reputation_spec(reputation as int),
    {
        if 0 <= reputation && reputation <= 1 {
            SalvageStanding::Independent
        } else if 2 <= reputation && reputation <= 3 {
            SalvageStanding::LocalContractor
        } else if 4 <= reputation && reputation <= 6 {
            SalvageStanding::TrustedSalvor
        } else {
            SalvageStanding::FleetPartner
        }
    }

    pub open spec fn label_spec(self) -> Seq<char> {
        match self {
            SalvageStanding::Independent => "INDEPENDENT"@,
            SalvageStanding::LocalContractor => "LOCAL CONTRACTOR"@,
            SalvageStanding::TrustedSalvor => "TRUSTED SALVOR"@,
            SalvageStanding::FleetPartner => "FLEET PARTNER"@,
        }
    }

    pub fn label(self) -> (r: &'static str)
        ensures
            r@ == self.label_spec(),
    {
        match self {
            SalvageStanding::Independent => "INDEPENDENT",
            SalvageStanding::LocalContractor => "LOCAL CONTRACTOR",
            SalvageStanding::TrustedSalvor => "TRUSTED SALVOR",
            SalvageStanding::FleetPartner => "FLEET PARTNER",
        }
    }

    pub open spec fn next_threshold_spec(self) -> Option<i32> {
        match self {
            SalvageStanding::Independent => Some(2),
            SalvageStanding::LocalContractor => Some(4),
            SalvageStanding::TrustedSalvor => Some(7),
            SalvageStanding::FleetPartner => None,
        }
    }

    pub fn next_threshold(self) -> (r: Option<i32>)
        ensures
            r == self.next_threshold_spec(),
    {
        match self {
            SalvageStanding::Independent => Some(2),
            SalvageStanding::LocalContractor => Some(4),
            SalvageStanding::TrustedSalvor => Some(7),
            SalvageStanding::FleetPartner => None,
        }
    }

    pub open spec fn contract_bonus_percent_spec(self) -> int {
        match self {
            SalvageStanding::Independent => 0,
            SalvageStanding::LocalContractor => 5,
            SalvageStanding::TrustedSalvor => 10,
            SalvageStanding::FleetPartner => 15,
        }
    }

    pub fn contract_bonus_percent(self) -> (r: i32)
        ensures
            r == self.contract_bonus_percent_spec(),
    {
        match self {
            SalvageStanding::Independent => 0,
            SalvageStanding::LocalContractor => 5,
            SalvageStanding::TrustedSalvor => 10,
            SalvageStanding::FleetPartner => 15,
        }
    }
}

impl GameSession {
    pub open spec fn standing_spec(&self) -> SalvageStanding {
        SalvageStanding::from_reputation_spec(self.reputation as int)
    }

    pub fn salvage_standing(&self) -> (r: SalvageStanding)
        ensures
            r == self.standing_spec(),
    {
        SalvageStanding::from_reputation(self.reputation)
    }

    pub fn next_standing_threshold(&self) -> (r: Option<i32>)
        ensures
            r == self.standing_spec().next_threshold_spec(),
    {
        self.salvage_standing().next_threshold()
    }

    pub open spec fn reward_bonus_spec(&self, base_reward: int) -> int {
        crate::career::nonneg(base_reward) * self.standing_spec().contract_bonus_percent_spec() / 100
    }

    /// Standing's share of a contract reward.
    pub fn contract_reward_bonus(&self, base_reward: i64) -> (r: i64)
        requires
            base_reward <= 1_000_000_000_000,
        ensures
            r == self.reward_bonus_spec(base_reward as int),
            0 <= r <= 150_000_000_000,
    {
        let base = if base_reward < 0 {
            0
        } else {
            base_reward
        };
        let percent = self.salvage_standing().contract_bonus_percent() as i64;
        assert(0 <= base * percent <= 15_000_000_000_000) by (nonlinear_arith)
            requires
                0 <= base <= 1_000_000_000_000,
                0 <= percent <= 15,
        ;
        base * percent / 100
    }
}

} // verus!
