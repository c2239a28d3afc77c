//! Blueprint milestones for ship upgrades.

use crate::data::{GameData, ModuleData, StartingModule};
use crate::session::GameSession;
use crate::text::{has_id, views};
use vstd::prelude::*;

verus! {

/// Modules a wallet of `credits` unlocks that are not already `known`, in
/// catalog order.
pub open spec fn unlock_pred(credits: i64, known: Seq<Seq<char>>) -> spec_fn(ModuleData) -> bool {
    |m: ModuleData| m.unlock_credits <= credits && !known.contains(m.id@)
}

pub open spec fn module_ids(s: Seq<ModuleData>) -> Seq<Seq<char>> {
    s.map_values(|m: ModuleData| m.id@)
}

pub open spec fn newly_unlocked_spec(
    modules: Seq<ModuleData>,
    credits: i64,
    known: Seq<Seq<char>>,
) -> Seq<Seq<char>> {
    module_ids(modules.filter(unlock_pred(credits, known)))
}

pub open spec fn starts_with_module(starting: Seq<StartingModule>, id: Seq<char>) -> bool {
    exists|i: int| 0 <= i < starting.len() && (#[trigger] starting[i]).module_id@ == id
}

impl GameSession {
    pub open spec fn module_unlocked_spec(&self, id: Seq<char>, data: GameData) -> bool {
        views(self.unlocked_modules@).contains(id) || starts_with_module(
            data.config.starting_modules@,
            id,
        )
    }

    /// Unlocks every blueprint the wallet now reaches and re-evaluates the
    /// progression milestone; returns the newly unlocked blueprints.
    pub fn refresh_module_unlocks(&mut self, data: &GameData) -> (r: Vec<String>)
        ensures
            views(r@) == newly_unlocked_spec(
                data.modules@,
                old(self).economy.credits,
                views(old(self).unlocked_modules@),
            ),
            views(final(self).unlocked_modules@) == views(old(self).unlocked_modules@) + views(r@),
            final(self).milestone_reached == (old(self).economy.credits
                >= data.config.progression_credit_threshold && final(self).unlocked_modules.len()
                > data.config.starting_modules.len()),
            *final(self) == (GameSession {
                unlocked_modules: final(self).unlocked_modules,
                milestone_reached: final(self).milestone_reached,
                ..*old(self)
            }),
    {
        let ghost known = views(old(self).unlocked_modules@);
        let ghost pred = unlock_pred(old(self).economy.credits, known);
        let mut newly: Vec<String> = Vec::new();
        let mut i: usize = 0;
        while i < data.modules.len()
            invariant
                i <= data.modules.len(),
                *self == *old(self),
                known == views(old(self).unlocked_modules@),
                pred == unlock_pred(old(self).economy.credits, known),
                views(newly@) == module_ids(data.modules@.take(i as int).filter(pred)),
            decreases data.modules.len() - i,
        {
            proof {
                reveal_with_fuel(Seq::<_>::filter, 1);
                assert(data.modules@.take(i + 1).drop_last() =~= data.modules@.take(i as int));
                assert(data.modules@.take(i + 1).last() == data.modules@[i as int]);
            }
            let ghost before = newly@;
            let m = &data.modules[i];
            if m.unlock_credits <= self.economy.credits && !has_id(
                &self.unlocked_modules,
                m.id.as_str(),
            ) {
                newly.push(m.id.clone());
                proof {
                    assert(views(newly@) =~= views(before).push(m.id@));
                    assert(module_ids(data.modules@.take(i + 1).filter(pred)) =~= module_ids(
                        data.modules@.take(i as int).filter(pred),
                    ).push(m.id@));
                }
            } else {
                proof {
                    assert(module_ids(data.modules@.take(i + 1).filter(pred)) =~= module_ids(
                        data.modules@.take(i as int).filter(pred),
                    ));
                }
            }
            i = i + 1;
        }
        proof {
            assert(data.modules@.take(data.modules.len() as int) =~= data.modules@);
        }
        let mut k: usize = 0;
        while k < newly.len()
            invariant
                k <= newly.len(),
                views(self.unlocked_modules@) == views(old(self).unlocked_modules@) + views(
                    newly@.take(k as int),
                ),
                *self == (GameSession { unlocked_modules: self.unlocked_modules, ..*old(self) }),
            decreases newly.len() - k,
        {
            let ghost prev = self.unlocked_modules@;
            self.unlocked_modules.push(newly[k].clone());
            proof {
                assert(views(self.unlocked_modules@) =~= views(prev).push(newly@[k as int]@));
                assert(views(newly@.take(k + 1)) =~= views(newly@.take(k as int)).push(
                    newly@[k as int]@,
                ));
                assert(views(self.unlocked_modules@) =~= views(old(self).unlocked_modules@)
                    + views(newly@.take(k + 1)));
            }
            k = k + 1;
        }
        proof {
            assert(newly@.take(newly.len() as int) =~= newly@);
        }
        self.milestone_reached = self.economy.credits >= data.config.progression_credit_threshold
            && self.unlocked_modules.len() > data.config.starting_modules.len();
        newly
    }

    /// Whether a blueprint is unlocked, by milestone or as a starting module.
    pub fn module_is_unlocked(&self, module_id: &str, data: &GameData) -> (r: bool)
        ensures
            r == self.module_unlocked_spec(module_id@, *data),
    {
        if has_id(&self.unlocked_modules, module_id) {
            return true;
        }
        let key = module_id.to_owned();
        let mut i: usize = 0;
        while i < data.config.starting_modules.len()
            invariant
                i <= data.config.starting_modules.len(),
                key@ == module_id@,
                forall|j: int|
                    0 <= j < i ==> (#[trigger] data.config.starting_modules@[j]).module_id@
                        != module_id@,
            decreases data.config.starting_modules.len() - i,
        {
            if data.config.starting_modules[i].module_id == key {
                return true;
            }
            i = i + 1;
        }
        false
    }

    pub open spec fn unlocked_pred(&self, data: GameData) -> spec_fn(ModuleData) -> bool {
        |m: ModuleData| self.module_unlocked_spec(m.id@, data)
    }

    /// How many catalog blueprints are unlocked.
    pub fn unlocked_module_count(&self, data: &GameData) -> (r: usize)
        ensures
            r == data.modules@.filter(self.unlocked_pred(*data)).len(),
    {
        let ghost pred = self.unlocked_pred(*data);
        let mut count: usize = 0;
        let mut i: usize = 0;
        while i < data.modules.len()
            invariant
                i <= data.modules.len(),
                pred == self.unlocked_pred(*data),
                count == data.modules@.take(i as int).filter(pred).len(),
                count <= i,
            decreases data.modules.len() - i,
        {
            proof {
                reveal_with_fuel(Seq::<_>::filter, 1);
                assert(data.modules@.take(i + 1).drop_last() =~= data.modules@.take(i as int));
                assert(data.modules@.take(i + 1).last() == data.modules@[i as int]);
            }
            if self.module_is_unlocked(data.modules[i].id.as_str(), data) {
                count = count + 1;
            }
            i = i + 1;
        }
        proof {
            assert(data.modules@.take(data.modules.len() as int) =~= data.modules@);
        }
        count
    }

    /// The locked blueprint with the lowest unlock threshold (the first in
    /// catalog order among equals), if any is still locked.
    pub fn next_module_unlock<'a>(&self, data: &'a GameData) -> (r: Option<&'a ModuleData>)
        ensures
            match r {
                Some(m) => exists|i: int|
                    0 <= i < data.modules.len() && data.modules@[i] == *m && {
                        &&& !self.module_unlocked_spec(m.id@, *data)
                        &&& forall|j: int|
                            0 <= j < data.modules.len() && !self.module_unlocked_spec(
                                (#[trigger] data.modules@[j]).id@,
                                *data,
                            ) ==> m.unlock_credits <= data.modules@[j].unlock_credits
                        &&& forall|j: int|
                            0 <= j < i && !self.module_unlocked_spec(
                                (#[trigger] data.modules@[j]).id@,
                                *data,
                            ) ==> m.unlock_credits < data.modules@[j].unlock_credits
                    },
                None => forall|j: int|
                    0 <= j < data.modules.len() ==> self.module_unlocked_spec(
                        (#[trigger] data.modules@[j]).id@,
                        *data,
                    ),
            },
    {
        let mut best: Option<usize> = None;
        let mut i: usize = 0;
        while i < data.modules.len()
            invariant
                i <= data.modules.len(),
                match best {
                    Some(b) => b < i && !self.module_unlocked_spec(data.modules@[b as int].id@, *data)
                        && (forall|j: int|
                        0 <= j < i && !self.module_unlocked_spec(
                            (#[trigger] data.modules@[j]).id@,
                            *data,
                        ) ==> data.modules@[b as int].unlock_credits
                            <= data.modules@[j].unlock_credits) && (forall|j: int|
                        0 <= j < b && !self.module_unlocked_spec(
                            (#[trigger] data.modules@[j]).id@,
                            *data,
                        ) ==> data.modules@[b as int].unlock_credits
                            < data.modules@[j].unlock_credits),
                    None => forall|j: int|
                        0 <= j < i ==> self.module_unlocked_spec(
                            (#[trigger] data.modules@[j]).id@,
                            *data,
                        ),
                },
            decreases data.modules.len() - i,
        {
            if !self.module_is_unlocked(data.modules[i].id.as_str(), data) {
                match best {
                    None => {
                        best = Some(i);
                    },
                    Some(b) => {
                        if data.modules[i].unlock_credits < data.modules[b].unlock_credits {
                            best = Some(i);
                        }
                    },
                }
            }
            i = i + 1;
        }
        match best {
            Some(b) => Some(&data.modules[b]),
            None => None,
        }
    }
}

} // verus!
