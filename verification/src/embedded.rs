use vstd::prelude::*;

use crate::agents::{agents_view, default_agent_table};
use crate::exchange::{Exchange, Frontend, Phase, StockParams};
use crate::params::{BakcellParams, NarParams};

verus! {

/// The User-Agents of an embedded lookup: the full built-in list.
pub fn default_user_agents() -> (agents: Vec<String>)
    ensures
        agents_view(agents@) == default_agent_table(),
{
    crate::agents::default_user_agents()
}

/// A lookup of `number` with `prefix` at Nar for an embedding program: the
/// default query, the embedded User-Agents, no pauses.
pub fn nar_lookup(number: String, prefix: String) -> (ex: Exchange)
    ensures
        ex.frontend == Frontend::Embedded,
        ex.params matches StockParams::Nar(p) && p.page == 0 && p.number@ == number@ && p.prefix@
            == prefix@ && p.size == 50 && p.provider_id == 1 && p.time == 0,
        agents_view(ex.agents@) == default_agent_table(),
        ex.max_delay == 0,
        ex.phase == Phase::Ready,
        ex.headers@.len() == 0,
{
    Exchange::new(
        Frontend::Embedded,
        StockParams::Nar(NarParams::lookup(number, prefix)),
        default_user_agents(),
        0,
    )
}

/// A lookup of `number` with `prefix` at Bakcell for an embedding program:
/// the default query, the embedded User-Agents, no pauses.
pub fn bakcell_lookup(number: String, prefix: String) -> (ex: Exchange)
    ensures
        ex.frontend == Frontend::Embedded,
        ex.params matches StockParams::Bakcell(p) && p.page == 0 && p.number@ == number@
            && p.prefix@ == prefix@ && p.size == 6 && p.provider_id == 2 && p.organization == 1
            && p.msisdn_type@ == "E_SIM"@ && p.time == 0,
        agents_view(ex.agents@) == default_agent_table(),
        ex.max_delay == 0,
        ex.phase == Phase::Ready,
        ex.headers@.len() == 0,
{
    Exchange::new(
        Frontend::Embedded,
        StockParams::Bakcell(BakcellParams::lookup(number, prefix)),
        default_user_agents(),
        0,
    )
}

} // verus!
