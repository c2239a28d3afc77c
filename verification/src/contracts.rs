//! The client contract of each wreck: its objective's state, and the payout
//! or failure filed when a run closes.

use crate::career::{sat_i64, nonneg, streak_bonus_spec, CareerStats};
use crate::data::{GameData, SiteData};
use crate::progression::newly_unlocked_spec;
use crate::reputation::SalvageStanding;
use crate::session::{CargoItem, CargoStatus, Economy, GameSession, SiteProgress, WALLET};
use crate::text::{decimal, has_id, joined, push_int, views};
use crate::voyage_record::VoyageRecord;
use crate::workspace_records::opt_view;
use vstd::prelude::*;

verus! {

#[derive(Clone, Copy, Debug, PartialEq, Eq, Structural)]
pub enum ContractObjectiveState {
    Open,
    Recovered,
    Complete,
    Failed,
}

impl ContractObjectiveState {
    pub open spec fn label_spec(self) -> Seq<char> {
        match self {
            ContractObjectiveState::Open => "OPEN"@,
            ContractObjectiveState::Recovered => "IN HOLD"@,
            ContractObjectiveState::Complete => "COMPLETE"@,
            ContractObjectiveState::Failed => "FAILED"@,
        }
    }

    pub fn label(self) -> (r: &'static str)
        ensures
            r@ == self.label_spec(),
    {
        match self {
            ContractObjectiveState::Open => "OPEN",
            ContractObjectiveState::Recovered => "IN HOLD",
            ContractObjectiveState::Complete => "COMPLETE",
            ContractObjectiveState::Failed => "FAILED",
        }
    }
}

/// The contract objective of a wreck and where it stands.
#[derive(Clone, Debug)]
pub struct ContractObjectiveStatus {
    pub target_id: String,
    pub state: ContractObjectiveState,
}

/// How a contract target is called: its authored name, or its identifier.
pub open spec fn target_name(data: GameData, target: Seq<char>) -> Seq<char> {
    match data.object_spec(target) {
        Some(o) => o.display_name@,
        None => target,
    }
}

/// Display names of the known modules among `ids`, in order.
pub open spec fn module_names(ids: Seq<Seq<char>>, data: GameData) -> Seq<Seq<char>>
    decreases ids.len(),
{
    if ids.len() == 0 {
        Seq::empty()
    } else {
        let rest = module_names(ids.drop_last(), data);
        match data.module_spec(ids.last()) {
            Some(m) => rest.push(m.display_name@),
            None => rest,
        }
    }
}

pub open spec fn standing_notice(before: SalvageStanding, after: SalvageStanding, advanced: bool) -> Seq<
    char,
> {
    if before != after {
        " Standing "@ + (if advanced {
            "advanced to"@
        } else {
            "fell to"@
        }) + " "@ + after.label_spec() + "."@
    } else if advanced {
        " Standing +1; "@ + after.label_spec() + " remains active."@
    } else {
        " Standing held at "@ + after.label_spec() + "."@
    }
}

pub open spec fn payout_notice(standing_bonus: int, streak_bonus: int, payout: int) -> Seq<char> {
    if standing_bonus > 0 && streak_bonus > 0 {
        " Standing bonus +"@ + decimal(standing_bonus) + "; streak bonus +"@ + decimal(streak_bonus)
            + " credits; paid "@ + decimal(payout) + " credits total."@
    } else if standing_bonus > 0 {
        " Standing bonus +"@ + decimal(standing_bonus) + "; paid "@ + decimal(payout)
            + " credits total."@
    } else if streak_bonus > 0 {
        " Streak bonus +"@ + decimal(streak_bonus) + " credits; paid "@ + decimal(payout)
            + " credits total."@
    } else {
        " Paid "@ + decimal(payout) + " credits."@
    }
}

pub open spec fn streak_notice(streak: int, streak_bonus: int) -> Seq<char> {
    if streak_bonus > 0 {
        " Contract streak x"@ + decimal(streak) + "."@
    } else {
        " Contract streak started."@
    }
}

pub open spec fn blueprint_notice(ids: Seq<Seq<char>>, data: GameData) -> Seq<char> {
    if ids.len() == 0 {
        Seq::empty()
    } else {
        " Blueprint unlocked: "@ + joined(module_names(ids, data), ", "@) + "."@
    }
}

fn target_display<'a>(data: &'a GameData, target_id: &'a str) -> (r: &'a str)
    ensures
        r@ == target_name(*data, target_id@),
{
    match data.object(target_id) {
        Some(o) => o.display_name.as_str(),
        None => target_id,
    }
}

fn push_standing_notice(msg: &mut String, before: SalvageStanding, after: SalvageStanding, advanced: bool)
    ensures
        final(msg)@ == old(msg)@ + standing_notice(before, after, advanced),
{
    if before != after {
        msg.append(" Standing ");
        if advanced {
            msg.append("advanced to");
        } else {
            msg.append("fell to");
        }
        msg.append(" ");
        msg.append(after.label());
        msg.append(".");
    } else if advanced {
        msg.append(" Standing +1; ");
        msg.append(after.label());
        msg.append(" remains active.");
    } else {
        msg.append(" Standing held at ");
        msg.append(after.label());
        msg.append(".");
    }
}

/// Display names of the known modules among `ids`.
pub(crate) fn names_of(ids: &Vec<String>, data: &GameData) -> (r: Vec<String>)
    ensures
        views(r@) == module_names(views(ids@), *data),
{
    let mut out: Vec<String> = Vec::new();
    let mut i: usize = 0;
    while i < ids.len()
        invariant
            i <= ids.len(),
            views(out@) == module_names(views(ids@).take(i as int), *data),
        decreases ids.len() - i,
    {
        proof {
            assert(views(ids@).take(i + 1).drop_last() =~= views(ids@).take(i as int));
            assert(views(ids@).take(i + 1).last() == ids@[i as int]@);
        }
        match data.module(ids[i].as_str()) {
            Some(m) => {
                let ghost before = out@;
                out.push(m.display_name.clone());
                proof {
                    assert(views(out@) =~= views(before).push(m.display_name@));
                }
            },
            None => {},
        }
        i = i + 1;
    }
    proof {
        assert(views(ids@).take(ids.len() as int) =~= views(ids@));
    }
    out
}

/// The packed cargo holds the object.
pub open spec fn packed_in(cargo: Seq<CargoItem>, target: Seq<char>) -> bool {
    exists|k: int|
        0 <= k < cargo.len() && (#[trigger] cargo[k]).object_id@ == target && cargo[k].status
            == CargoStatus::Packed
}

/// What a return pays in contract money: the reward with its standing and
/// streak bonuses, when the accepted contract is still open and its
/// objective comes home packed; nothing otherwise.
pub open spec fn contract_pay_spec(
    s: GameSession,
    site_id: Seq<char>,
    cargo: Seq<CargoItem>,
    data: GameData,
    accepted: bool,
) -> int {
    let site = data.site_spec(site_id).unwrap();
    if s.contract_open(site_id, data, accepted) && packed_in(
        cargo,
        site.contract_target.unwrap()@,
    ) {
        site.contract_reward + s.reward_bonus_spec(site.contract_reward as int)
            + crate::career::streak_bonus_spec(crate::career::sat_u32(s.career.contract_streak + 1) as int)
    } else {
        0
    }
}

fn has_packed(cargo: &Vec<CargoItem>, target: &str) -> (r: bool)
    ensures
        r == packed_in(cargo@, target@),
{
    let mut i: usize = 0;
    while i < cargo.len()
        invariant
            i <= cargo.len(),
            forall|k: int|
                0 <= k < i ==> !((#[trigger] cargo@[k]).object_id@ == target@ && cargo@[k].status
                    == CargoStatus::Packed),
        decreases cargo.len() - i,
    {
        if crate::text::same_text(cargo[i].object_id.as_str(), target) && cargo[i].status
            == CargoStatus::Packed {
            return true;
        }
        i = i + 1;
    }
    false
}


fn push_payout_notice(msg: &mut String, standing_bonus: i64, streak_bonus: i64, payout: i64)
    ensures
        final(msg)@ == old(msg)@ + payout_notice(standing_bonus as int, streak_bonus as int, payout as int),
{
    if standing_bonus > 0 && streak_bonus > 0 {
        msg.append(" Standing bonus +");
        push_int(msg, standing_bonus);
        msg.append("; streak bonus +");
        push_int(msg, streak_bonus);
        msg.append(" credits; paid ");
        push_int(msg, payout);
        msg.append(" credits total.");
    } else if standing_bonus > 0 {
        msg.append(" Standing bonus +");
        push_int(msg, standing_bonus);
        msg.append("; paid ");
        push_int(msg, payout);
        msg.append(" credits total.");
    } else if streak_bonus > 0 {
        msg.append(" Streak bonus +");
        push_int(msg, streak_bonus);
        msg.append(" credits; paid ");
        push_int(msg, payout);
        msg.append(" credits total.");
    } else {
        msg.append(" Paid ");
        push_int(msg, payout);
        msg.append(" credits.");
    }
}

fn push_streak_notice(msg: &mut String, streak: u32, streak_bonus: i64)
    ensures
        final(msg)@ == old(msg)@ + streak_notice(streak as int, streak_bonus as int),
{
    if streak_bonus > 0 {
        msg.append(" Contract streak x");
        push_int(msg, streak as i64);
        msg.append(".");
    } else {
        msg.append(" Contract streak started.");
    }
}

fn push_blueprint_notice(msg: &mut String, newly: &Vec<String>, data: &GameData)
    ensures
        final(msg)@ == old(msg)@ + blueprint_notice(views(newly@), *data),
{
    if newly.len() > 0 {
        let names = names_of(newly, data);
        let joined_names = crate::text::join(&names, ", ");
        msg.append(" Blueprint unlocked: ");
        msg.append(joined_names.as_str());
        msg.append(".");
    }
}

fn completion_message(
    data: &GameData,
    target_id: &str,
    reward: i64,
    standing_bonus: i64,
    streak_bonus: i64,
    payout: i64,
    before: SalvageStanding,
    after: SalvageStanding,
    streak: u32,
    newly: &Vec<String>,
) -> (r: String)
    ensures
        r@ == " Contract complete: "@ + target_name(*data, target_id@)
            + " recovered. You keep the hardware; no hand-in needed. Bonus +"@ + decimal(
            reward as int,
        ) + " credits."@ + payout_notice(standing_bonus as int, streak_bonus as int, payout as int)
            + standing_notice(before, after, true) + streak_notice(streak as int, streak_bonus as int)
            + blueprint_notice(views(newly@), *data),
{
    let mut msg = " Contract complete: ".to_owned();
    msg.append(target_display(data, target_id));
    msg.append(" recovered. You keep the hardware; no hand-in needed. Bonus +");
    push_int(&mut msg, reward);
    msg.append(" credits.");
    push_payout_notice(&mut msg, standing_bonus, streak_bonus, payout);
    push_standing_notice(&mut msg, before, after, true);
    push_streak_notice(&mut msg, streak, streak_bonus);
    push_blueprint_notice(&mut msg, newly, data);
    msg
}

impl GameSession {
    /// The most recent voyage on file.
    pub fn last_voyage(&self) -> (r: Option<&VoyageRecord>)
        ensures
            r == if self.voyage_log.len() == 0 {
                None::<&VoyageRecord>
            } else {
                Some(&self.voyage_log@.last())
            },
    {
        if self.voyage_log.len() == 0 {
            None
        } else {
            Some(&self.voyage_log[self.voyage_log.len() - 1])
        }
    }

    /// Contracts completed in a row.
    pub fn contract_streak(&self) -> (r: u32)
        ensures
            r == self.career.contract_streak,
    {
        self.career.contract_streak
    }

    /// The streak bonus the next completed contract pays.
    pub fn next_contract_streak_bonus(&self) -> (r: i64)
        ensures
            r == streak_bonus_spec(crate::career::sat_u32(self.career.contract_streak + 1) as int),
    {
        self.career.next_contract_streak_bonus()
    }

    /// The run holds the object, pending or packed, at that wreck.
    pub open spec fn run_holds(&self, site_id: Seq<char>, target: Seq<char>) -> bool {
        match self.expedition {
            Some(e) => e.site_id@ == site_id && exists|k: int|
                0 <= k < e.cargo.len() && (#[trigger] e.cargo@[k]).object_id@ == target && (
                e.cargo@[k].status == CargoStatus::Pending || e.cargo@[k].status
                    == CargoStatus::Packed),
            None => false,
        }
    }

    fn expedition_contains_target(&self, site_id: &str, target_id: &str) -> (r: bool)
        ensures
            r == self.run_holds(site_id@, target_id@),
    {
        match &self.expedition {
            Some(e) => {
                if !crate::text::same_text(e.site_id.as_str(), site_id) {
                    return false;
                }
                let mut i: usize = 0;
                while i < e.cargo.len()
                    invariant
                        i <= e.cargo.len(),
                        self.expedition == Some(*e),
                        e.site_id@ == site_id@,
                        forall|k: int|
                            0 <= k < i ==> !((#[trigger] e.cargo@[k]).object_id@ == target_id@ && (
                            e.cargo@[k].status == CargoStatus::Pending || e.cargo@[k].status
                                == CargoStatus::Packed)),
                    decreases e.cargo.len() - i,
                {
                    if crate::text::same_text(e.cargo[i].object_id.as_str(), target_id) && (
                    e.cargo[i].status == CargoStatus::Pending || e.cargo[i].status
                        == CargoStatus::Packed) {
                        proof {
                            assert(e.cargo@[i as int].object_id@ == target_id@);
                        }
                        return true;
                    }
                    i = i + 1;
                }
                false
            },
            None => false,
        }
    }

    /// Whether the run, or the last voyage when at port, declined the wreck's
    /// contract.
    pub open spec fn contract_declined(&self, site_id: Seq<char>) -> bool {
        match self.expedition {
            Some(e) => e.site_id@ == site_id && !e.contract_accepted,
            None => self.voyage_log.len() > 0 && self.voyage_log@.last().site_id@ == site_id
                && !self.voyage_log@.last().contract_accepted,
        }
    }

    pub open spec fn objective_state_spec(&self, site_id: Seq<char>, target: Seq<char>) -> ContractObjectiveState {
        let p = self.progress_spec(site_id);
        let removed = p is Some && views(p.unwrap().removed_targets@).contains(target);
        let in_hold = removed && self.run_holds(site_id, target);
        if p is Some && p.unwrap().contract_completed {
            ContractObjectiveState::Complete
        } else if (p is Some && p.unwrap().contract_failed) || (removed && !in_hold) {
            ContractObjectiveState::Failed
        } else if in_hold {
            ContractObjectiveState::Recovered
        } else {
            ContractObjectiveState::Open
        }
    }

    /// The objective of a wreck's contract and where it stands; none for a
    /// declined contract or a wreck without one.
    pub fn contract_objective_status(&self, site_id: &str, data: &GameData) -> (r: Option<
        ContractObjectiveStatus,
    >)
        ensures
            r is Some <==> !self.contract_declined(site_id@) && data.site_spec(site_id@) is Some
                && data.site_spec(site_id@).unwrap().contract_target is Some,
            r matches Some(s) ==> s.target_id@ == data.site_spec(
                site_id@,
            ).unwrap().contract_target.unwrap()@ && s.state == self.objective_state_spec(
                site_id@,
                s.target_id@,
            ),
    {
        let declined = match &self.expedition {
            Some(e) => crate::text::same_text(e.site_id.as_str(), site_id) && !e.contract_accepted,
            None => match self.last_voyage() {
                Some(record) => crate::text::same_text(record.site_id.as_str(), site_id)
                    && !record.contract_accepted,
                None => false,
            },
        };
        if declined {
            return None;
        }
        let site = data.site(site_id)?;
        let target_id = match &site.contract_target {
            Some(t) => t.as_str(),
            None => {
                return None;
            },
        };
        let progress = self.progress(site_id);
        let removed = match progress {
            Some(p) => has_id(&p.removed_targets, target_id),
            None => false,
        };
        let in_hold = removed && self.expedition_contains_target(site_id, target_id);
        let completed = match progress {
            Some(p) => p.contract_completed,
            None => false,
        };
        let failed = match progress {
            Some(p) => p.contract_failed,
            None => false,
        };
        let state = if completed {
            ContractObjectiveState::Complete
        } else if failed || (removed && !in_hold) {
            ContractObjectiveState::Failed
        } else if in_hold {
            ContractObjectiveState::Recovered
        } else {
            ContractObjectiveState::Open
        };
        Some(ContractObjectiveStatus { target_id: target_id.to_owned(), state })
    }

    /// Closes a wreck's contract against the cargo of a run the client
    /// accepted.
    pub fn complete_site_contract(&mut self, site_id: &str, cargo: &Vec<CargoItem>, data: &GameData) -> (r:
        Option<String>)
        requires
            old(self).wf(),
            data.wf(),
            old(self).economy.credits <= WALLET - 2 * crate::data::AUTHORED_LIMIT,
        ensures
            final(self).wf(),
            Self::contract_closed(*old(self), *final(self), site_id@, cargo@, *data, true, r),
    {
        self.complete_site_contract_for_run(site_id, cargo, data, true)
    }

    /// The contract of a wreck can be closed now: accepted, authored, and
    /// neither completed nor failed yet.
    pub open spec fn contract_open(&self, site_id: Seq<char>, data: GameData, accepted: bool) -> bool {
        &&& accepted
        &&& data.site_spec(site_id) is Some
        &&& data.site_spec(site_id).unwrap().contract_target is Some
        &&& self.progress_spec(site_id) is Some
        &&& !self.progress_spec(site_id).unwrap().contract_completed
        &&& !self.progress_spec(site_id).unwrap().contract_failed
    }

    /// What closing a contract does: a packed objective pays the reward with
    /// standing and streak bonuses; an objective that left the wreck unpacked
    /// fails the contract; otherwise nothing happens.
    pub open spec fn contract_closed(
        old: GameSession,
        new: GameSession,
        site_id: Seq<char>,
        cargo: Seq<CargoItem>,
        data: GameData,
        accepted: bool,
        r: Option<String>,
    ) -> bool {
        if !old.contract_open(site_id, data, accepted) {
            new == old && r is None
        } else {
            let site = data.site_spec(site_id).unwrap();
            let target = site.contract_target.unwrap()@;
            let i = old.progress_index(site_id);
            let p = old.site_progress@[i];
            if packed_in(cargo, target) {
                let streak = crate::career::sat_u32(old.career.contract_streak + 1) as int;
                let streak_bonus = streak_bonus_spec(streak);
                let standing_bonus = old.reward_bonus_spec(site.contract_reward as int);
                let payout = site.contract_reward + standing_bonus + streak_bonus;
                let newly = newly_unlocked_spec(
                    data.modules@,
                    (old.economy.credits + payout) as i64,
                    views(old.unlocked_modules@),
                );
                let rep = if old.reputation == i32::MAX {
                    i32::MAX
                } else {
                    (old.reputation + 1) as i32
                };
                &&& new.site_progress@ == old.site_progress@.update(
                    i,
                    SiteProgress { contract_completed: true, ..p },
                )
                &&& new.economy == (Economy {
                    credits: (old.economy.credits + payout) as i64,
                    ..old.economy
                })
                &&& new.reputation == rep
                &&& new.career.contract_streak == streak
                &&& new.career.contract_income == sat_i64(
                    old.career.contract_income + nonneg(payout),
                )
                &&& new.career.best_contract_streak == if old.career.best_contract_streak
                    >= streak {
                    old.career.best_contract_streak
                } else {
                    streak as u32
                }
                &&& new.career == (CareerStats {
                    contract_streak: new.career.contract_streak,
                    best_contract_streak: new.career.best_contract_streak,
                    contract_income: new.career.contract_income,
                    ..old.career
                })
                &&& views(new.unlocked_modules@) == views(old.unlocked_modules@) + newly
                &&& new.milestone_reached == ((old.economy.credits + payout)
                    >= data.config.progression_credit_threshold && new.unlocked_modules.len()
                    > data.config.starting_modules.len())
                &&& new == (GameSession {
                    site_progress: new.site_progress,
                    economy: new.economy,
                    reputation: new.reputation,
                    career: new.career,
                    unlocked_modules: new.unlocked_modules,
                    milestone_reached: new.milestone_reached,
                    ..old
                })
                &&& r is Some && r.unwrap()@ == " Contract complete: "@ + target_name(data, target)
                    + " recovered. You keep the hardware; no hand-in needed. Bonus +"@ + decimal(
                    site.contract_reward as int,
                ) + " credits."@ + payout_notice(standing_bonus, streak_bonus, payout)
                    + standing_notice(
                    SalvageStanding::from_reputation_spec(old.reputation as int),
                    SalvageStanding::from_reputation_spec(rep as int),
                    true,
                ) + streak_notice(streak, streak_bonus) + blueprint_notice(newly, data)
            } else if views(p.removed_targets@).contains(target) {
                let rep = if old.reputation == i32::MIN {
                    i32::MIN
                } else {
                    (old.reputation - 1) as i32
                };
                &&& new.site_progress@ == old.site_progress@.update(
                    i,
                    SiteProgress { contract_failed: true, ..p },
                )
                &&& new == (GameSession {
                    site_progress: new.site_progress,
                    reputation: rep,
                    career: CareerStats {
                        contract_streak: 0,
                        contract_failures: crate::career::sat_u32(
                            old.career.contract_failures + 1,
                        ),
                        ..old.career
                    },
                    ..old
                })
                &&& r is Some && r.unwrap()@ == " Contract failed: "@ + target_name(data, target)
                    + " was lost before returning to port. Standing -1. Contract streak reset."@
                    + standing_notice(
                    SalvageStanding::from_reputation_spec(old.reputation as int),
                    SalvageStanding::from_reputation_spec(rep as int),
                    false,
                )
            } else {
                new == old && r is None
            }
        }
    }

    /// Closes a wreck's contract against a run's cargo; a declined contract
    /// is left alone.
    pub fn complete_site_contract_for_run(
        &mut self,
        site_id: &str,
        cargo: &Vec<CargoItem>,
        data: &GameData,
        contract_accepted: bool,
    ) -> (r: Option<String>)
        requires
            old(self).wf(),
            data.wf(),
            old(self).economy.credits <= WALLET - 2 * crate::data::AUTHORED_LIMIT || cargo@.len() == 0,
        ensures
            final(self).wf(),
            Self::contract_closed(*old(self), *final(self), site_id@, cargo@, *data, contract_accepted, r),
            final(self).site_progress.len() == old(self).site_progress.len(),
            forall|j: int|
                0 <= j < old(self).site_progress.len() ==> (#[trigger] final(self).site_progress@[j]).operation_log
                    == old(self).site_progress@[j].operation_log && final(self).site_progress@[j].site_id
                    == old(self).site_progress@[j].site_id,
            final(self).economy.credits <= old(self).economy.credits + 2 * crate::data::AUTHORED_LIMIT,
            final(self).economy.fuel == old(self).economy.fuel,
            final(self).expedition == old(self).expedition,
            final(self).voyage_log == old(self).voyage_log,
            final(self).market_cycle == old(self).market_cycle,
            final(self).returned == old(self).returned,
            final(self).crew_role == old(self).crew_role,
            final(self).hull == old(self).hull,
            final(self).crew_fatigue == old(self).crew_fatigue,
            final(self).ship_wear == old(self).ship_wear,
            final(self).ship_layout == old(self).ship_layout,
            final(self).damaged_modules == old(self).damaged_modules,
            final(self).economy.alloy == old(self).economy.alloy,
            final(self).economy.electronics == old(self).economy.electronics,
            final(self).economy.credits == old(self).economy.credits + contract_pay_spec(
                *old(self),
                site_id@,
                cargo@,
                *data,
                contract_accepted,
            ),
    {
        if !contract_accepted {
            return None;
        }
        let site = data.site(site_id)?;
        let target_id = match &site.contract_target {
            Some(t) => t.as_str(),
            None => {
                return None;
            },
        };
        let i = self.progress_slot(site_id)?;
        if self.site_progress[i].contract_completed || self.site_progress[i].contract_failed {
            return None;
        }
        if !has_packed(cargo, target_id) {
            if !has_id(&self.site_progress[i].removed_targets, target_id) {
                return None;
            }
            self.site_progress[i].contract_failed = true;
            self.career.record_contract_failure();
            let before = self.salvage_standing();
            self.reputation = if self.reputation == i32::MIN {
                i32::MIN
            } else {
                self.reputation - 1
            };
            let after = self.salvage_standing();
            let mut msg = " Contract failed: ".to_owned();
            msg.append(target_display(data, target_id));
            msg.append(" was lost before returning to port. Standing -1. Contract streak reset.");
            push_standing_notice(&mut msg, before, after, false);
            proof {
                assert(self.site_progress@ =~= old(self).site_progress@.update(
                    i as int,
                    SiteProgress { contract_failed: true, ..old(self).site_progress@[i as int] },
                ));
            }
            return Some(msg);
        }
        self.site_progress[i].contract_completed = true;
        proof {
            assert(self.site_progress@ =~= old(self).site_progress@.update(
                i as int,
                SiteProgress { contract_completed: true, ..old(self).site_progress@[i as int] },
            ));
        }
        let (streak, streak_bonus) = self.career.record_contract_success();
        let before = self.salvage_standing();
        let standing_bonus = self.contract_reward_bonus(site.contract_reward);
        let payout = site.contract_reward + standing_bonus + streak_bonus;
        self.economy.credits = self.economy.credits + payout;
        self.career.record_contract_income(payout);
        self.reputation = if self.reputation == i32::MAX {
            i32::MAX
        } else {
            self.reputation + 1
        };
        let after = self.salvage_standing();
        let newly = self.refresh_module_unlocks(data);
        let msg = completion_message(
            data,
            target_id,
            site.contract_reward,
            standing_bonus,
            streak_bonus,
            payout,
            before,
            after,
            streak,
            &newly,
        );
        proof {
            let site_v = data.site_spec(site_id@).unwrap();
            let target = site_v.contract_target.unwrap()@;
            assert(site_v == *site);
            assert(target == target_id@);
            assert(old(self).contract_open(site_id@, *data, contract_accepted));
            assert(old(self).progress_index(site_id@) == i);
            assert(packed_in(cargo@, target));
            assert(self.site_progress@ == old(self).site_progress@.update(
                    i as int,
                    SiteProgress { contract_completed: true, ..old(self).site_progress@[i as int] },
                ));
            assert(self.career.contract_income == crate::career::sat_i64(
                    old(self).career.contract_income + nonneg(payout as int),
                ));
            let p = old(self).site_progress@[i as int];
            let streak_v = crate::career::sat_u32(old(self).career.contract_streak + 1) as int;
            let streak_bonus_v = streak_bonus_spec(streak_v);
            let standing_bonus_v = old(self).reward_bonus_spec(site_v.contract_reward as int);
            let payout_v = site_v.contract_reward + standing_bonus_v + streak_bonus_v;
            assert(payout_v == payout);
            let newly_v = newly_unlocked_spec(
                    data.modules@,
                    (old(self).economy.credits + payout_v) as i64,
                    views(old(self).unlocked_modules@),
                );
            assert(views(newly@) == newly_v);
            assert(self.economy == (Economy {
                    credits: (old(self).economy.credits + payout_v) as i64,
                    ..old(self).economy
                }));
            assert(self.career == (CareerStats {
                    contract_streak: self.career.contract_streak,
                    best_contract_streak: self.career.best_contract_streak,
                    contract_income: self.career.contract_income,
                    ..old(self).career
                }));
            assert(*self == (GameSession {
                    site_progress: self.site_progress,
                    economy: self.economy,
                    reputation: self.reputation,
                    career: self.career,
                    unlocked_modules: self.unlocked_modules,
                    milestone_reached: self.milestone_reached,
                    ..*old(self)
                }));
            let rep = if old(self).reputation == i32::MAX {
                    i32::MAX
                } else {
                    (old(self).reputation + 1) as i32
                };
            assert(self.reputation == rep);
            assert(before == SalvageStanding::from_reputation_spec(old(self).reputation as int));
            assert(after == SalvageStanding::from_reputation_spec(rep as int));
        }
        Some(msg)
    }
}

} // verus!
