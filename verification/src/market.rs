//! Market-cycle quotes for returned salvage.

use crate::data::GameData;
use crate::engine::{market_quote_spec, quote_for, MarketQuote};
use crate::session::{GameSession, ReturnedItem};
use vstd::prelude::*;

verus! {

impl GameSession {
    /// Today's price for an object, if the catalog knows it.
    pub fn market_quote(&self, object_id: &str, data: &GameData) -> (r: Option<MarketQuote>)
        requires
            data.wf(),
        ensures
            r == match data.object_spec(object_id@) {
                Some(o) => Some(market_quote_spec(o, self.market_cycle, data.config.market)),
                None => None,
            },
    {
        let object = data.object(object_id)?;
        Some(quote_for(object, self.market_cycle, &data.config.market))
    }

    /// The price locked for returned salvage: that of the cycle it came home in.
    pub fn returned_market_quote(&self, returned: &ReturnedItem, data: &GameData) -> (r: Option<
        MarketQuote,
    >)
        requires
            data.wf(),
        ensures
            r == match data.object_spec(returned.object_id@) {
                Some(o) => Some(market_quote_spec(o, returned.market_cycle, data.config.market)),
                None => None,
            },
    {
        let object = data.object(returned.object_id.as_str())?;
        Some(quote_for(object, returned.market_cycle, &data.config.market))
    }

    /// The market cycle as shown at port, two digits at least.
    pub fn market_cycle_label(&self) -> (r: String)
        ensures
            r@ == "CYCLE "@ + crate::text::decimal2(self.market_cycle as nat),
    {
        let mut s = "CYCLE ".to_owned();
        crate::text::push_padded2(&mut s, self.market_cycle);
        s
    }
}

} // verus!
