//! The ledger's store: typed access to the configuration entries and to the
//! per-entity records, each of which may be present or absent.

use crate::errors::ContractError;
use crate::types::{Address, Remittance};
use std::collections::HashMap;
use vstd::prelude::*;

verus! {

broadcast use vstd::std_specs::hash::group_hash_axioms;

/// What a store holds, entry by entry.
pub struct LedgerState {
    pub admin: Option<Address>,
    pub usdc_token: Option<Address>,
    pub platform_fee_bps: Option<u32>,
    pub remittance_counter: Option<u64>,
    pub accumulated_fees: Option<i128>,
    pub paused: Option<bool>,
    /// The remittance records, by id.
    pub remittances: Map<u64, Remittance>,
    /// The registration flags, by agent.
    pub agents: Map<Address, bool>,
    /// The ids that carry a settlement marker.
    pub settlements: Set<u64>,
}

impl LedgerState {
    /// The store in which every entry is absent.
    pub open spec fn empty() -> LedgerState {
        LedgerState {
            admin: None,
            usdc_token: None,
            platform_fee_bps: None,
            remittance_counter: None,
            accumulated_fees: None,
            paused: None,
            remittances: Map::empty(),
            agents: Map::empty(),
            settlements: Set::empty(),
        }
    }

    /// Whether `agent` is registered: an absent flag counts as `false`.
    pub open spec fn agent_registered(self, agent: Address) -> bool {
        self.agents.contains_key(agent) && self.agents[agent]
    }

    /// Whether settlements are suspended: an absent flag counts as `false`.
    pub open spec fn is_paused(self) -> bool {
        self.paused == Some(true)
    }
}

/// The registration flag stored for one agent.
#[derive(Copy, Clone, Debug)]
struct AgentFlag {
    agent: Address,
    registered: bool,
}

/// No agent has two flags.
spec fn distinct_agents(flags: Seq<AgentFlag>) -> bool {
    forall|i: int, j: int|
        0 <= i < j < flags.len() ==> (#[trigger] flags[i]).agent != (#[trigger] flags[j]).agent
}

/// Whether `agent` has a flag in `flags`.
spec fn has_flag(flags: Seq<AgentFlag>, agent: Address) -> bool {
    exists|i: int| 0 <= i < flags.len() && (#[trigger] flags[i]).agent == agent
}

/// The position of the flag of `agent` in `flags`.
spec fn flag_index(flags: Seq<AgentFlag>, agent: Address) -> int {
    choose|i: int| 0 <= i < flags.len() && (#[trigger] flags[i]).agent == agent
}

/// The flags as a map from agent to flag.
spec fn flag_map(flags: Seq<AgentFlag>) -> Map<Address, bool> {
    Map::new(
        |agent: Address| has_flag(flags, agent),
        |agent: Address| flags[flag_index(flags, agent)].registered,
    )
}

/// In a list without repeated agents, the flag at a position is the one the
/// map gives for that position's agent.
proof fn lemma_flag_at(flags: Seq<AgentFlag>, i: int)
    requires
        distinct_agents(flags),
        0 <= i < flags.len(),
    ensures
        has_flag(flags, flags[i].agent),
        flag_index(flags, flags[i].agent) == i,
        flag_map(flags).contains_key(flags[i].agent),
        flag_map(flags)[flags[i].agent] == flags[i].registered,
{
    let agent = flags[i].agent;
    assert(has_flag(flags, agent));
    let j = flag_index(flags, agent);
    assert(0 <= j < flags.len() && flags[j].agent == agent);
    if j < i {
        assert(flags[j].agent != flags[i].agent);
    } else if i < j {
        assert(flags[i].agent != flags[j].agent);
    }
}

/// Replacing the flag at a position by another flag for the same agent sets
/// that agent's entry of the map and leaves the others.
proof fn lemma_flag_update(flags: Seq<AgentFlag>, i: int, registered: bool)
    requires
        distinct_agents(flags),
        0 <= i < flags.len(),
    ensures
        distinct_agents(flags.update(i, AgentFlag { agent: flags[i].agent, registered })),
        flag_map(flags.update(i, AgentFlag { agent: flags[i].agent, registered })) == flag_map(
            flags,
        ).insert(flags[i].agent, registered),
{
    let agent = flags[i].agent;
    let after = flags.update(i, AgentFlag { agent, registered });
    assert forall|a: int, b: int| 0 <= a < b < after.len() implies (#[trigger] after[a]).agent != (
    #[trigger] after[b]).agent by {
        assert(after[a].agent == flags[a].agent);
        assert(after[b].agent == flags[b].agent);
    }
    let want = flag_map(flags).insert(agent, registered);
    assert forall|who: Address| #[trigger]
        flag_map(after).contains_key(who) <==> want.contains_key(who) by {
        if has_flag(after, who) {
            let k = flag_index(after, who);
            assert(flags[k].agent == who);
        }
        if has_flag(flags, who) {
            let k = flag_index(flags, who);
            assert(after[k].agent == who);
        }
        if who == agent {
            assert(after[i].agent == who);
        }
    }
    assert forall|who: Address| #[trigger]
        flag_map(after).contains_key(who) implies flag_map(after)[who] == want[who] by {
        let k = flag_index(after, who);
        lemma_flag_at(after, k);
        if who != agent {
            assert(k != i);
            assert(flags[k] == after[k]);
            lemma_flag_at(flags, k);
        } else {
            lemma_flag_at(after, i);
        }
    }
    assert(flag_map(after) =~= want);
}

/// Appending a flag for an agent that has none adds that agent's entry to
/// the map and leaves the others.
proof fn lemma_flag_push(flags: Seq<AgentFlag>, flag: AgentFlag)
    requires
        distinct_agents(flags),
        !has_flag(flags, flag.agent),
    ensures
        distinct_agents(flags.push(flag)),
        flag_map(flags.push(flag)) == flag_map(flags).insert(flag.agent, flag.registered),
{
    let after = flags.push(flag);
    let last = flags.len() as int;
    assert forall|a: int, b: int| 0 <= a < b < after.len() implies (#[trigger] after[a]).agent != (
    #[trigger] after[b]).agent by {
        assert(after[a] == flags[a]);
        if b < last {
            assert(after[b] == flags[b]);
        } else {
            assert(after[b] == flag);
        }
    }
    let want = flag_map(flags).insert(flag.agent, flag.registered);
    assert forall|who: Address| #[trigger]
        flag_map(after).contains_key(who) <==> want.contains_key(who) by {
        if has_flag(after, who) {
            let k = flag_index(after, who);
            if k < last {
                assert(flags[k].agent == who);
            }
        }
        if has_flag(flags, who) {
            let k = flag_index(flags, who);
            assert(after[k].agent == who);
        }
        if who == flag.agent {
            assert(after[last].agent == who);
        }
    }
    assert forall|who: Address| #[trigger]
        flag_map(after).contains_key(who) implies flag_map(after)[who] == want[who] by {
        let k = flag_index(after, who);
        lemma_flag_at(after, k);
        if who != flag.agent {
            assert(k != last);
            assert(flags[k] == after[k]);
            lemma_flag_at(flags, k);
        } else {
            lemma_flag_at(after, last);
        }
    }
    assert(flag_map(after) =~= want);
}

/// The registration flags, one for each agent that was ever given one.
#[derive(Debug)]
struct AgentRegistry {
    flags: Vec<AgentFlag>,
}

impl AgentRegistry {
    /// No agent has two flags.
    #[verifier::type_invariant]
    spec fn distinct(&self) -> bool {
        distinct_agents(self.flags@)
    }

    /// The flags, by agent.
    pub closed spec fn flag_by_agent(&self) -> Map<Address, bool> {
        flag_map(self.flags@)
    }

    /// Makes a registry without flags.
    fn new() -> (registry: AgentRegistry)
        ensures
            registry.flag_by_agent() == Map::<Address, bool>::empty(),
    {
        let flags: Vec<AgentFlag> = Vec::new();
        proof {
            assert(flag_map(flags@) =~= Map::<Address, bool>::empty());
        }
        AgentRegistry { flags }
    }

    /// Finds the position of the flag of `agent`, if it has one.
    fn find(&self, agent: &Address) -> (found: Option<usize>)
        ensures
            match found {
                Some(i) => i < self.flags@.len() && self.flags@[i as int].agent == *agent,
                None => !has_flag(self.flags@, *agent),
            },
    {
        let mut i: usize = 0;
        while i < self.flags.len()
            invariant
                i <= self.flags@.len(),
                forall|k: int| 0 <= k < i ==> (#[trigger] self.flags@[k]).agent != *agent,
            decreases self.flags@.len() - i,
        {
            if self.flags[i].agent == *agent {
                return Some(i);
            }
            i += 1;
        }
        None
    }

    /// Sets the flag of `agent`.
    fn set(&mut self, agent: &Address, registered: bool)
        ensures
            final(self).flag_by_agent() == old(self).flag_by_agent().insert(*agent, registered),
    {
        proof {
            use_type_invariant(&*self);
        }
        let flag = AgentFlag { agent: *agent, registered };
        let found = self.find(agent);
        proof {
            match found {
                Some(i) => lemma_flag_update(self.flags@, i as int, registered),
                None => lemma_flag_push(self.flags@, flag),
            }
        }
        // The list is taken out for the change, so that the registry is never
        // seen with a list that is only half changed.
        let mut flags: Vec<AgentFlag> = Vec::new();
        core::mem::swap(&mut self.flags, &mut flags);
        match found {
            Some(i) => {
                flags[i] = flag;
            },
            None => {
                flags.push(flag);
            },
        }
        core::mem::swap(&mut self.flags, &mut flags);
    }

    /// Tells whether the flag of `agent` is set; an agent without a flag
    /// counts as having it unset.
    fn get(&self, agent: &Address) -> (registered: bool)
        ensures
            registered == (self.flag_by_agent().contains_key(*agent)
                && self.flag_by_agent()[*agent]),
    {
        proof {
            use_type_invariant(self);
        }
        match self.find(agent) {
            Some(i) => {
                proof {
                    lemma_flag_at(self.flags@, i as int);
                }
                self.flags[i].registered
            },
            None => false,
        }
    }
}

impl Clone for AgentRegistry {
    fn clone(&self) -> (copy: AgentRegistry)
        ensures
            copy.flag_by_agent() == self.flag_by_agent(),
    {
        proof {
            use_type_invariant(self);
        }
        let mut flags: Vec<AgentFlag> = Vec::new();
        let mut i: usize = 0;
        while i < self.flags.len()
            invariant
                i <= self.flags@.len(),
                flags@ == self.flags@.take(i as int),
            decreases self.flags@.len() - i,
        {
            flags.push(self.flags[i]);
            proof {
                assert(self.flags@.take(i as int).push(self.flags@[i as int])
                    =~= self.flags@.take(i + 1));
            }
            i += 1;
        }
        proof {
            assert(self.flags@.take(i as int) =~= self.flags@);
        }
        AgentRegistry { flags }
    }
}

/// The store behind one ledger.
#[derive(Debug)]
pub struct Storage {
    admin: Option<Address>,
    usdc_token: Option<Address>,
    platform_fee_bps: Option<u32>,
    remittance_counter: Option<u64>,
    accumulated_fees: Option<i128>,
    paused: Option<bool>,
    remittances: HashMap<u64, Remittance>,
    agents: AgentRegistry,
    settlements: HashMap<u64, bool>,
}

impl View for Storage {
    type V = LedgerState;

    closed spec fn view(&self) -> LedgerState {
        LedgerState {
            admin: self.admin,
            usdc_token: self.usdc_token,
            platform_fee_bps: self.platform_fee_bps,
            remittance_counter: self.remittance_counter,
            accumulated_fees: self.accumulated_fees,
            paused: self.paused,
            remittances: self.remittances@,
            agents: self.agents.flag_by_agent(),
            settlements: self.settlements@.dom(),
        }
    }
}

impl Clone for Storage {
    /// Makes a copy that holds the same entries.
    fn clone(&self) -> (copy: Storage)
        ensures
            copy@ == self@,
    {
        Storage {
            admin: self.admin,
            usdc_token: self.usdc_token,
            platform_fee_bps: self.platform_fee_bps,
            remittance_counter: self.remittance_counter,
            accumulated_fees: self.accumulated_fees,
            paused: self.paused,
            remittances: self.remittances.clone(),
            agents: self.agents.clone(),
            settlements: self.settlements.clone(),
        }
    }
}

impl Storage {
    /// Makes a store in which every entry is absent.
    pub fn new() -> (store: Storage)
        ensures
            store@ == LedgerState::empty(),
    {
        let store = Storage {
            admin: None,
            usdc_token: None,
            platform_fee_bps: None,
            remittance_counter: None,
            accumulated_fees: None,
            paused: None,
            remittances: HashMap::new(),
            agents: AgentRegistry::new(),
            settlements: HashMap::new(),
        };
        proof {
            assert(store.settlements@.dom() =~= Set::<u64>::empty());
        }
        store
    }
}

/// Tells whether an administrator is stored.
pub fn has_admin(store: &Storage) -> (r: bool)
    ensures
        r == store@.admin is Some,
{
    store.admin.is_some()
}

/// Stores the administrator.
pub fn set_admin(store: &mut Storage, admin: &Address)
    ensures
        final(store)@ == (LedgerState { admin: Some(*admin), ..old(store)@ }),
{
    store.admin = Some(*admin);
}

/// Returns the administrator, or `NotInitialized` if none is stored.
pub fn get_admin(store: &Storage) -> (r: Result<Address, ContractError>)
    ensures
        r == match store@.admin {
            Some(admin) => Ok::<Address, ContractError>(admin),
            None => Err(ContractError::NotInitialized),
        },
{
    match store.admin {
        Some(admin) => Ok(admin),
        None => Err(ContractError::NotInitialized),
    }
}

/// Stores the asset in which the ledger settles.
pub fn set_usdc_token(store: &mut Storage, token: &Address)
    ensures
        final(store)@ == (LedgerState { usdc_token: Some(*token), ..old(store)@ }),
{
    store.usdc_token = Some(*token);
}

/// Returns the asset, or `NotInitialized` if none is stored.
pub fn get_usdc_token(store: &Storage) -> (r: Result<Address, ContractError>)
    ensures
        r == match store@.usdc_token {
            Some(token) => Ok::<Address, ContractError>(token),
            None => Err(ContractError::NotInitialized),
        },
{
    match store.usdc_token {
        Some(token) => Ok(token),
        None => Err(ContractError::NotInitialized),
    }
}

/// Stores the fee rate, in basis points.
pub fn set_platform_fee_bps(store: &mut Storage, fee_bps: u32)
    ensures
        final(store)@ == (LedgerState { platform_fee_bps: Some(fee_bps), ..old(store)@ }),
{
    store.platform_fee_bps = Some(fee_bps);
}

/// Returns the fee rate, or `NotInitialized` if none is stored.
pub fn get_platform_fee_bps(store: &Storage) -> (r: Result<u32, ContractError>)
    ensures
        r == match store@.platform_fee_bps {
            Some(fee_bps) => Ok::<u32, ContractError>(fee_bps),
            None => Err(ContractError::NotInitialized),
        },
{
    match store.platform_fee_bps {
        Some(fee_bps) => Ok(fee_bps),
        None => Err(ContractError::NotInitialized),
    }
}

/// Stores the id counter: the id given out last.
pub fn set_remittance_counter(store: &mut Storage, counter: u64)
    ensures
        final(store)@ == (LedgerState { remittance_counter: Some(counter), ..old(store)@ }),
{
    store.remittance_counter = Some(counter);
}

/// Returns the id counter, or `NotInitialized` if none is stored.
pub fn get_remittance_counter(store: &Storage) -> (r: Result<u64, ContractError>)
    ensures
        r == match store@.remittance_counter {
            Some(counter) => Ok::<u64, ContractError>(counter),
            None => Err(ContractError::NotInitialized),
        },
{
    match store.remittance_counter {
        Some(counter) => Ok(counter),
        None => Err(ContractError::NotInitialized),
    }
}

/// Stores a remittance record under `id`, in place of any record there.
pub fn set_remittance(store: &mut Storage, id: u64, remittance: &Remittance)
    ensures
        final(store)@ == (LedgerState {
            remittances: old(store)@.remittances.insert(id, *remittance),
            ..old(store)@
        }),
{
    store.remittances.insert(id, *remittance);
}

/// Returns the record stored under `id`, or `RemittanceNotFound`.
pub fn get_remittance(store: &Storage, id: u64) -> (r: Result<Remittance, ContractError>)
    ensures
        r == if store@.remittances.contains_key(id) {
            Ok::<Remittance, ContractError>(store@.remittances[id])
        } else {
            Err(ContractError::RemittanceNotFound)
        },
{
    match store.remittances.get(&id) {
        Some(remittance) => Ok(*remittance),
        None => Err(ContractError::RemittanceNotFound),
    }
}

/// Stores the registration flag of `agent`.
pub fn set_agent_registered(store: &mut Storage, agent: &Address, registered: bool)
    ensures
        final(store)@ == (LedgerState {
            agents: old(store)@.agents.insert(*agent, registered),
            ..old(store)@
        }),
{
    store.agents.set(agent, registered);
}

/// Tells whether `agent` is registered; an agent without a flag is not.
pub fn is_agent_registered(store: &Storage, agent: &Address) -> (r: bool)
    ensures
        r == store@.agent_registered(*agent),
{
    store.agents.get(agent)
}

/// Stores the accumulated fees.
pub fn set_accumulated_fees(store: &mut Storage, fees: i128)
    ensures
        final(store)@ == (LedgerState { accumulated_fees: Some(fees), ..old(store)@ }),
{
    store.accumulated_fees = Some(fees);
}

/// Returns the accumulated fees, or `NotInitialized` if none are stored.
pub fn get_accumulated_fees(store: &Storage) -> (r: Result<i128, ContractError>)
    ensures
        r == match store@.accumulated_fees {
            Some(fees) => Ok::<i128, ContractError>(fees),
            None => Err(ContractError::NotInitialized),
        },
{
    match store.accumulated_fees {
        Some(fees) => Ok(fees),
        None => Err(ContractError::NotInitialized),
    }
}

/// Tells whether the remittance under `remittance_id` carries a settlement
/// marker.
pub fn has_settlement_hash(store: &Storage, remittance_id: u64) -> (r: bool)
    ensures
        r == store@.settlements.contains(remittance_id),
{
    store.settlements.contains_key(&remittance_id)
}

/// Sets the settlement marker of the remittance under `remittance_id`. A
/// marker is never taken away again.
pub fn set_settlement_hash(store: &mut Storage, remittance_id: u64)
    ensures
        final(store)@ == (LedgerState {
            settlements: old(store)@.settlements.insert(remittance_id),
            ..old(store)@
        }),
{
    store.settlements.insert(remittance_id, true);
    proof {
        assert(store.settlements@.dom() =~= old(store).settlements@.dom().insert(remittance_id));
    }
}

/// Tells whether settlements are suspended; without a stored flag they are
/// not.
pub fn is_paused(store: &Storage) -> (r: bool)
    ensures
        r == store@.is_paused(),
{
    match store.paused {
        Some(paused) => paused,
        None => false,
    }
}

/// Stores the pause flag.
pub fn set_paused(store: &mut Storage, paused: bool)
    ensures
        final(store)@ == (LedgerState { paused: Some(paused), ..old(store)@ }),
{
    store.paused = Some(paused);
}

} // verus!
