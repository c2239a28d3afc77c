//! Site intelligence purchases: route briefs that lower departure danger.

use crate::data::GameData;
use crate::engine::{reconnaissance_quote_for, reconnaissance_quote_spec, ReconnaissanceQuote};
use crate::session::{GameSession, SiteProgress};
use crate::text::{decimal, err_msg, ok_msg, push_int};
use vstd::prelude::*;

verus! {

impl GameSession {
    pub open spec fn intel_level_spec(&self, site_id: Seq<char>) -> u8 {
        match self.progress_spec(site_id) {
            Some(p) => p.reconnaissance_level,
            None => 0,
        }
    }

    /// Route briefs bought for a wreck.
    pub fn reconnaissance_level(&self, site_id: &str) -> (r: u8)
        ensures
            r == self.intel_level_spec(site_id@),
    {
        match self.progress(site_id) {
            Some(p) => p.reconnaissance_level,
            None => 0,
        }
    }

    pub open spec fn intel_quote_spec(&self, site_id: Seq<char>, data: GameData) -> Option<
        ReconnaissanceQuote,
    > {
        if data.site_spec(site_id) is None {
            None
        } else {
            reconnaissance_quote_spec(self.intel_level_spec(site_id), data.config.reconnaissance)
        }
    }

    /// The next route brief for a known wreck, or none at the ceiling.
    pub fn reconnaissance_quote(&self, site_id: &str, data: &GameData) -> (r: Option<
        ReconnaissanceQuote,
    >)
        requires
            data.wf(),
        ensures
            r == self.intel_quote_spec(site_id@, *data),
            r matches Some(q) ==> 0 <= q.cost <= 256_000_000_000,
    {
        data.site(site_id)?;
        reconnaissance_quote_for(self.reconnaissance_level(site_id), &data.config.reconnaissance)
    }

    pub open spec fn can_buy_intel_spec(&self, site_id: Seq<char>, data: GameData) -> bool {
        self.at_port() && self.intel_quote_spec(site_id, data) is Some && self.economy.credits
            >= self.intel_quote_spec(site_id, data).unwrap().cost
    }

    pub fn can_buy_reconnaissance(&self, site_id: &str, data: &GameData) -> (r: bool)
        requires
            data.wf(),
        ensures
            r == self.can_buy_intel_spec(site_id@, *data),
    {
        self.expedition.is_none() && self.returned.len() == 0 && match self.reconnaissance_quote(
            site_id,
            data,
        ) {
            Some(q) => self.economy.credits >= q.cost,
            None => false,
        }
    }

    /// Buys the next route brief for a wreck at port.
    pub fn buy_reconnaissance(&mut self, site_id: &str, data: &GameData) -> (r: Result<
        String,
        String,
    >)
        requires
            old(self).wf(),
            data.wf(),
        ensures
            r is Err ==> *final(self) == *old(self),
            !old(self).at_port() ==> err_msg(
                r,
                "route intelligence is available at the port before departure"@,
            ),
            old(self).at_port() && data.site_spec(site_id@) is None ==> err_msg(
                r,
                "unknown salvage site '"@ + site_id@ + "'"@,
            ),
            old(self).at_port() && data.site_spec(site_id@) is Some ==> {
                let site = data.site_spec(site_id@).unwrap();
                let quote = old(self).intel_quote_spec(site_id@, *data);
                if quote is None {
                    err_msg(r, site.display_name@ + " route is fully briefed"@)
                } else if old(self).economy.credits < quote.unwrap().cost {
                    err_msg(
                        r,
                        "route intelligence requires "@ + decimal(quote.unwrap().cost as int)
                            + " credits"@,
                    )
                } else if old(self).progress_spec(site_id@) is None {
                    err_msg(r, "missing progress for '"@ + site.display_name@ + "'"@)
                } else {
                    let q = quote.unwrap();
                    let i = old(self).progress_index(site_id@);
                    &&& *final(self) == (GameSession {
                        site_progress: final(self).site_progress,
                        economy: crate::session::Economy {
                            credits: (old(self).economy.credits - q.cost) as i64,
                            ..old(self).economy
                        },
                        ..*old(self)
                    })
                    &&& final(self).site_progress@ == old(self).site_progress@.update(
                        i,
                        SiteProgress {
                            reconnaissance_level: q.next_level,
                            ..old(self).site_progress@[i]
                        },
                    )
                    &&& ok_msg(
                        r,
                        "Route brief bought for "@ + decimal(q.cost as int) + " credits. "@
                            + site.display_name@ + " intel level "@ + decimal(q.next_level as int)
                            + "/"@ + decimal(q.max_level as int) + "; departure danger -"@
                            + decimal(q.danger_reduction as int) + "."@,
                    )
                }
            },
            final(self).wf(),
    {
        if self.expedition.is_some() || self.returned.len() > 0 {
            return Err("route intelligence is available at the port before departure".to_owned());
        }
        let site = match data.site(site_id) {
            Some(s) => s,
            None => {
                let mut e = "unknown salvage site '".to_owned();
                e.append(site_id);
                e.append("'");
                return Err(e);
            },
        };
        let quote = match self.reconnaissance_quote(site_id, data) {
            Some(q) => q,
            None => {
                let mut e = site.display_name.clone();
                e.append(" route is fully briefed");
                return Err(e);
            },
        };
        if self.economy.credits < quote.cost {
            let mut e = "route intelligence requires ".to_owned();
            push_int(&mut e, quote.cost);
            e.append(" credits");
            return Err(e);
        }
        let slot = match self.progress_slot(site_id) {
            Some(i) => i,
            None => {
                let mut e = "missing progress for '".to_owned();
                e.append(site.display_name.as_str());
                e.append("'");
                return Err(e);
            },
        };
        self.site_progress[slot].reconnaissance_level = quote.next_level;
        self.economy.credits = self.economy.credits - quote.cost;
        let mut s = "Route brief bought for ".to_owned();
        push_int(&mut s, quote.cost);
        s.append(" credits. ");
        s.append(site.display_name.as_str());
        s.append(" intel level ");
        push_int(&mut s, quote.next_level as i64);
        s.append("/");
        push_int(&mut s, quote.max_level as i64);
        s.append("; departure danger -");
        push_int(&mut s, quote.danger_reduction as i64);
        s.append(".");
        Ok(s)
    }
}

} // verus!
