//! Safe-checkpoint material refining for the station shipyard.

use crate::data::GameData;
use crate::engine::{refinery_quote_for, refinery_quote_spec, RefineryQuote, RefineryResource};
use crate::session::GameSession;
use crate::text::{decimal, err_msg, ok_msg, push_int};
use vstd::prelude::*;

verus! {

impl GameSession {
    pub open spec fn refinery_spec(&self, resource: RefineryResource, data: GameData) -> RefineryQuote {
        refinery_quote_spec(
            resource,
            self.economy.alloy,
            self.economy.electronics,
            data.config.refinery,
        )
    }

    pub fn refinery_quote(&self, resource: RefineryResource, data: &GameData) -> (r: RefineryQuote)
        ensures
            r == self.refinery_spec(resource, *data),
    {
        refinery_quote_for(resource, self.economy.alloy, self.economy.electronics, &data.config.refinery)
    }

    /// Refines one batch of a material into credits.
    pub fn refine_resource(&mut self, resource: RefineryResource, data: &GameData) -> (r: Result<
        String,
        String,
    >)
        requires
            old(self).wf(),
            data.wf(),
            old(self).economy.credits <= crate::session::WALLET - crate::data::AUTHORED_LIMIT,
        ensures
            ({
                let q = old(self).refinery_spec(resource, *data);
                if !q.can_refine_spec() {
                    *final(self) == *old(self) && err_msg(
                        r,
                        "Need "@ + decimal(q.batch_size as int) + " "@ + resource.label_spec()
                            + " for one refinery batch"@,
                    )
                } else {
                    let remaining = q.available - q.batch_size;
                    &&& *final(self) == (GameSession {
                        economy: crate::session::Economy {
                            credits: (old(self).economy.credits + q.payout) as i64,
                            alloy: if resource is Alloy {
                                remaining as i32
                            } else {
                                old(self).economy.alloy
                            },
                            electronics: if resource is Electronics {
                                remaining as i32
                            } else {
                                old(self).economy.electronics
                            },
                            ..old(self).economy
                        },
                        ..*old(self)
                    })
                    &&& ok_msg(
                        r,
                        "Refined "@ + decimal(q.batch_size as int) + " "@ + resource.label_spec()
                            + " for "@ + decimal(q.payout as int) + " credits. "@ + decimal(
                            remaining,
                        ) + " "@ + resource.label_spec() + " remain."@,
                    )
                }
            }),
            final(self).wf(),
    {
        let quote = self.refinery_quote(resource, data);
        if !quote.can_refine() {
            let mut e = "Need ".to_owned();
            push_int(&mut e, quote.batch_size as i64);
            e.append(" ");
            e.append(resource.label());
            e.append(" for one refinery batch");
            return Err(e);
        }
        match resource {
            RefineryResource::Alloy => self.economy.alloy = self.economy.alloy - quote.batch_size,
            RefineryResource::Electronics => self.economy.electronics = self.economy.electronics
                - quote.batch_size,
        }
        self.economy.credits = self.economy.credits + quote.payout;
        let remaining = self.refinery_quote(resource, data).available;
        let mut s = "Refined ".to_owned();
        push_int(&mut s, quote.batch_size as i64);
        s.append(" ");
        s.append(resource.label());
        s.append(" for ");
        push_int(&mut s, quote.payout);
        s.append(" credits. ");
        push_int(&mut s, remaining as i64);
        s.append(" ");
        s.append(resource.label());
        s.append(" remain.");
        Ok(s)
    }
}

} // verus!
