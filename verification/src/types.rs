//! The values the ledger stores and hands out.

use vstd::prelude::*;

verus! {

/// What kind of principal an address names.
#[derive(Copy, Clone, Debug, PartialEq, Eq, Structural, Hash)]
pub enum AddressKind {
    /// A key-holding account.
    Account,
    /// A deployed contract.
    Contract,
}

/// The identity of a principal: a sender, an agent, the administrator or the
/// asset. It is a 256-bit identifier, held as two halves, together with its
/// kind. Two addresses name the same principal exactly when they are equal.
#[derive(Copy, Clone, Debug, PartialEq, Eq, Structural, Hash)]
pub struct Address {
    pub kind: AddressKind,
    pub hi: u128,
    pub lo: u128,
}

/// Proof that a principal has authorized the operation at hand. Whoever
/// builds one vouches that the principal's authorization was checked.
#[derive(Copy, Clone, Debug, PartialEq, Eq, Structural)]
pub struct Auth {
    pub principal: Address,
}

impl Auth {
    /// Whether this authorization speaks for `who`.
    pub open spec fn covers(self, who: Address) -> bool {
        self.principal == who
    }

    /// The authorization of `principal`.
    pub fn of(principal: Address) -> (auth: Auth)
        ensures
            auth.principal == principal,
            auth.covers(principal),
    {
        Auth { principal }
    }

    /// Tells whether this authorization speaks for `who`.
    pub fn authorizes(&self, who: &Address) -> (r: bool)
        ensures
            r == self.covers(*who),
    {
        self.principal == *who
    }
}

/// Where a remittance stands in its life.
#[derive(Copy, Clone, Debug, PartialEq, Eq, Structural)]
pub enum RemittanceStatus {
    /// Escrowed, neither paid out nor refunded.
    Pending,
    /// Paid out to the agent.
    Completed,
    /// Refunded to the sender.
    Cancelled,
}

/// One escrowed transfer from a sender to an agent.
#[derive(Copy, Clone, Debug, PartialEq, Eq, Structural)]
pub struct Remittance {
    pub id: u64,
    pub sender: Address,
    pub agent: Address,
    /// The escrowed principal.
    pub amount: i128,
    /// The platform's share, fixed when the remittance is created.
    pub fee: i128,
    pub status: RemittanceStatus,
    /// The time after which the remittance can no longer be settled.
    pub expiry: Option<u64>,
}

impl Remittance {
    /// The same record with another status.
    pub open spec fn with_status(self, status: RemittanceStatus) -> Remittance {
        Remittance { status, ..self }
    }
}

/// One end of a movement of funds.
#[derive(Copy, Clone, Debug, PartialEq, Eq, Structural)]
pub enum Party {
    /// The ledger's own custody account.
    Custody,
    /// The account of a principal.
    Holder(Address),
}

/// A movement of funds that has to happen together with the operation that
/// returned it: if it cannot be made, the operation must not take effect.
#[derive(Copy, Clone, Debug, PartialEq, Eq, Structural)]
pub struct Transfer {
    pub asset: Address,
    pub from: Party,
    pub to: Party,
    pub amount: i128,
}

/// What an operation did. Every successful operation yields exactly one.
#[derive(Copy, Clone, Debug, PartialEq, Eq, Structural)]
pub enum Event {
    Initialized { admin: Address, asset: Address, fee_bps: u32 },
    AgentRegistered { agent: Address, admin: Address },
    AgentRemoved { agent: Address, admin: Address },
    FeeUpdated { admin: Address, old_fee_bps: u32, new_fee_bps: u32 },
    RemittanceCreated {
        id: u64,
        sender: Address,
        agent: Address,
        asset: Address,
        amount: i128,
        fee: i128,
    },
    RemittanceCompleted { id: u64, sender: Address, agent: Address, asset: Address, payout: i128 },
    RemittanceCancelled { id: u64, sender: Address, agent: Address, asset: Address, amount: i128 },
    FeesWithdrawn { admin: Address, to: Address, asset: Address, amount: i128 },
    Paused { admin: Address },
    Unpaused { admin: Address },
}

impl Event {
    /// The movement of funds that belongs to the event, if any.
    pub open spec fn spec_transfer(self) -> Option<Transfer> {
        match self {
            Event::RemittanceCreated { sender, asset, amount, .. } => Some(
                Transfer { asset, from: Party::Holder(sender), to: Party::Custody, amount },
            ),
            Event::RemittanceCompleted { agent, asset, payout, .. } => Some(
                Transfer { asset, from: Party::Custody, to: Party::Holder(agent), amount: payout },
            ),
            Event::RemittanceCancelled { sender, asset, amount, .. } => Some(
                Transfer { asset, from: Party::Custody, to: Party::Holder(sender), amount },
            ),
            Event::FeesWithdrawn { to, asset, amount, .. } => Some(
                Transfer { asset, from: Party::Custody, to: Party::Holder(to), amount },
            ),
            _ => None,
        }
    }

    /// By how much custody grows through the event's movement of funds
    /// (negative where funds leave custody).
    pub open spec fn custody_change(self) -> int {
        match self {
            Event::RemittanceCreated { amount, .. } => amount as int,
            Event::RemittanceCompleted { payout, .. } => -(payout as int),
            Event::RemittanceCancelled { amount, .. } => -(amount as int),
            Event::FeesWithdrawn { amount, .. } => -(amount as int),
            _ => 0,
        }
    }

    /// Returns the movement of funds that has to be made for the event.
    #[verifier::when_used_as_spec(spec_transfer)]
    pub fn transfer(self) -> (t: Option<Transfer>)
        ensures
            t == self.spec_transfer(),
    {
        match self {
            Event::RemittanceCreated { sender, asset, amount, .. } => Some(
                Transfer { asset, from: Party::Holder(sender), to: Party::Custody, amount },
            ),
            Event::RemittanceCompleted { agent, asset, payout, .. } => Some(
                Transfer { asset, from: Party::Custody, to: Party::Holder(agent), amount: payout },
            ),
            Event::RemittanceCancelled { sender, asset, amount, .. } => Some(
                Transfer { asset, from: Party::Custody, to: Party::Holder(sender), amount },
            ),
            Event::FeesWithdrawn { to, asset, amount, .. } => Some(
                Transfer { asset, from: Party::Custody, to: Party::Holder(to), amount },
            ),
            _ => None,
        }
    }
}

} // verus!
