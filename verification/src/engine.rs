//! The escrow engine: the state machine that records new escrows arriving
//! via the receive-hook protocol, executes expiration-gated redemptions, and
//! answers configuration and escrow-lookup queries.
//!
//! The clock is an explicit parameter of every state-changing operation, and
//! the instruction to move tokens is returned as a value; the host carries
//! it out after the engine's logic returns.

use vstd::prelude::*;

use crate::error::{ContractError, QueryError};
use crate::state::{
    amounts_positive, has_record, lookup, unique_depositors, EscrowRecord, EscrowStore,
    lemma_lookup_push,
};

verus! {

/// Immutable-after-init configuration: set once at creation, never mutated.
#[derive(Debug, Clone)]
pub struct Config {
    /// The address that created the engine; inert metadata, exposed via
    /// query, gating no operation.
    pub owner: String,
    /// The address of the single token ledger this engine trusts as the
    /// source of valid deposits.
    pub token: String,
}

/// The observable event of a successful execute call, for off-engine
/// indexing and auditing.
#[derive(Debug)]
pub enum EscrowEvent {
    /// A new escrow was recorded.
    Escrow {
        /// The depositor whose tokens are now held.
        depositor: String,
        /// The amount recorded.
        amount: u128,
        /// The absolute expiry computed at creation.
        expires_at: u64,
    },
    /// A live escrow was redeemed and removed.
    Redeem {
        /// The depositor the tokens go back to.
        depositor: String,
        /// The amount released.
        amount: u128,
    },
}

impl EscrowEvent {
    /// The fixed action tag of the event; external indexers rely on it.
    pub fn action(&self) -> (t: &'static str)
        ensures
            t@ == match *self {
                EscrowEvent::Escrow { .. } => "escrow"@,
                EscrowEvent::Redeem { .. } => "redeem"@,
            },
    {
        match *self {
            EscrowEvent::Escrow { .. } => "escrow",
            EscrowEvent::Redeem { .. } => "redeem",
        }
    }
}

/// An instruction to the token ledger: move `amount` of the configured token
/// from the engine's custody to `recipient`.
#[derive(Debug)]
pub struct TransferMsg {
    /// The address the tokens go to.
    pub recipient: String,
    /// The quantity to move.
    pub amount: u128,
}

/// What a successful execute call hands back to the host: the observable
/// event, and, for a redemption, the transfer instruction to dispatch.
#[derive(Debug)]
pub struct ExecResponse {
    /// The event to emit, tagged `escrow` or `redeem`.
    pub event: EscrowEvent,
    /// The transfer to dispatch to the token ledger, if any.
    pub transfer: Option<TransferMsg>,
}

/// The configuration, as the config query reports it.
#[derive(Debug, PartialEq, Eq)]
pub struct ConfigResponse {
    /// The address that created the engine.
    pub owner: String,
    /// The configured token ledger address.
    pub token: String,
}

/// A live escrow, as the escrow query reports it.
#[derive(Debug, PartialEq, Eq, Clone, Copy)]
pub struct EscrowResponse {
    /// The amount held.
    pub amount: u128,
    /// The absolute clock value at or after which redemption is permitted.
    pub time: u64,
}

/// When the receive hook accepts a deposit: the hook was invoked by the
/// configured token ledger, the amount is positive, and the sender has no
/// live escrow.
pub open spec fn receive_accepts(
    token: Seq<char>,
    s: Seq<EscrowRecord>,
    caller: Seq<char>,
    sender: Seq<char>,
    amount: u128,
) -> bool {
    caller == token && amount > 0 && !has_record(s, sender)
}

/// When a redeem by `a` at clock value `clock` is permitted: a live record
/// exists and the clock has reached its expiry — equality counts as
/// expired, so redemption is permitted at the boundary.
pub open spec fn redeem_accepts(s: Seq<EscrowRecord>, a: Seq<char>, clock: u64) -> bool {
    match lookup(s, a) {
        Some(rec) => clock >= rec.expires_at,
        None => false,
    }
}

/// The escrow engine: the immutable configuration and the escrow store it
/// is the sole writer of.
#[derive(Debug)]
pub struct Engine {
    /// The configuration written once at creation.
    pub config: Config,
    /// The store of live escrow records.
    pub store: EscrowStore,
}

impl Engine {
    /// Well-formed: the store holds at most one live record per depositor,
    /// and every live record holds a strictly positive amount.
    pub open spec fn wf(self) -> bool {
        self.store.wf() && amounts_positive(self.store@)
    }

    /// Creation: record `owner` (the creator) and the trusted token ledger
    /// address; the store starts empty. No funds movement.
    pub fn new(owner: String, token: String) -> (e: Engine)
        ensures
            e.wf(),
            e.config.owner == owner,
            e.config.token == token,
            e.store@ == Seq::<EscrowRecord>::empty(),
    {
        Engine { config: Config { owner, token }, store: EscrowStore::new() }
    }

    /// The receive hook: `caller` (the contract that invoked the hook)
    /// reports an inbound transfer of `amount` tokens by `sender`, whose
    /// embedded instruction asks for a lock of `duration`; `clock` is the
    /// time observed at this moment. On success a record expiring at
    /// `clock + duration` is committed and the escrow event is emitted; on
    /// any failure the store is left exactly as it was, and the tokens the
    /// ledger already moved stay custodied under the engine's account.
    pub fn execute_receive(
        &mut self,
        caller: &String,
        sender: String,
        amount: u128,
        duration: u64,
        clock: u64,
    ) -> (r: Result<ExecResponse, ContractError>)
        requires
            old(self).wf(),
            clock + duration <= u64::MAX,
        ensures
            final(self).wf(),
            final(self).config == old(self).config,
            r is Ok <==> receive_accepts(
                old(self).config.token@,
                old(self).store@,
                caller@,
                sender@,
                amount,
            ),
            r is Err ==> final(self).store@ == old(self).store@,
            caller@ != old(self).config.token@ ==> r == Err::<ExecResponse, ContractError>(
                ContractError::Unauthorized,
            ),
            caller@ == old(self).config.token@ && amount == 0 ==> r == Err::<
                ExecResponse,
                ContractError,
            >(ContractError::InvalidAmount),
            caller@ == old(self).config.token@ && amount > 0 && has_record(
                old(self).store@,
                sender@,
            ) ==> r == Err::<ExecResponse, ContractError>(ContractError::ExistingEscrow),
            r matches Ok(resp) ==> ({
                let rec = (EscrowRecord {
                    depositor: sender,
                    amount,
                    expires_at: (clock + duration) as u64,
                });
                &&& final(self).store@ == old(self).store@.push(rec)
                &&& lookup(final(self).store@, sender@) == Some(rec)
                &&& (forall|b: Seq<char>|
                    b != sender@ ==> #[trigger] lookup(final(self).store@, b) == lookup(
                        old(self).store@,
                        b,
                    ))
                &&& resp.event == (EscrowEvent::Escrow {
                    depositor: sender,
                    amount,
                    expires_at: (clock + duration) as u64,
                })
                &&& resp.transfer is None
            }),
    {
        if !(*caller == self.config.token) {
            return Err(ContractError::Unauthorized);
        }
        if amount == 0 {
            return Err(ContractError::InvalidAmount);
        }
        let expires_at = clock + duration;
        let event_depositor = sender.clone();
        let record = EscrowRecord { depositor: sender, amount, expires_at };
        match self.store.insert_new(record) {
            Ok(()) => {
                proof {
                    assert forall|b: Seq<char>|
                        (#[trigger] lookup(self.store@, b)) matches Some(rec2) ==> rec2.amount
                        > 0 by {
                        if b != sender@ {
                            assert(lookup(self.store@, b) == lookup(old(self).store@, b));
                        }
                    }
                }
                Ok(
                    ExecResponse {
                        event: EscrowEvent::Escrow {
                            depositor: event_depositor,
                            amount,
                            expires_at,
                        },
                        transfer: None,
                    },
                )
            },
            Err(_) => Err(ContractError::ExistingEscrow),
        }
    }

    /// Redeem: the caller asks their escrow back at clock value `clock`.
    /// On success the record is removed — before the transfer instruction
    /// is issued, so a repeated redeem cannot see a still-present record —
    /// and the returned response carries the redeem event and the
    /// instruction to move exactly the recorded amount back to the caller.
    /// Any failure leaves the store exactly as it was.
    pub fn execute_redeem(&mut self, caller: &String, clock: u64) -> (r: Result<
        ExecResponse,
        ContractError,
    >)
        requires
            old(self).wf(),
        ensures
            final(self).wf(),
            final(self).config == old(self).config,
            r is Ok <==> redeem_accepts(old(self).store@, caller@, clock),
            r is Err ==> final(self).store@ == old(self).store@,
            match lookup(old(self).store@, caller@) {
                None => r == Err::<ExecResponse, ContractError>(ContractError::NotFound),
                Some(rec) => if clock < rec.expires_at {
                    r == Err::<ExecResponse, ContractError>(ContractError::EscrowNotExpired)
                } else {
                    r matches Ok(resp) && {
                        &&& rec.amount > 0
                        &&& lookup(final(self).store@, caller@) is None
                        &&& (forall|b: Seq<char>|
                            b != caller@ ==> #[trigger] lookup(final(self).store@, b) == lookup(
                                old(self).store@,
                                b,
                            ))
                        &&& final(self).store@.len() == old(self).store@.len() - 1
                        &&& resp.event == (EscrowEvent::Redeem {
                            depositor: rec.depositor,
                            amount: rec.amount,
                        })
                        &&& resp.transfer == Some(
                            TransferMsg { recipient: rec.depositor, amount: rec.amount },
                        )
                    }
                },
            },
    {
        let expires_at: u64;
        match self.store.get(caller) {
            None => {
                return Err(ContractError::NotFound);
            },
            Some(rec) => {
                expires_at = rec.expires_at;
            },
        }
        if clock < expires_at {
            return Err(ContractError::EscrowNotExpired);
        }
        match self.store.remove(caller) {
            Ok(rec) => {
                proof {
                    assert forall|b: Seq<char>|
                        (#[trigger] lookup(self.store@, b)) matches Some(rec2) ==> rec2.amount
                        > 0 by {
                        if b != caller@ {
                            assert(lookup(self.store@, b) == lookup(old(self).store@, b));
                        }
                    }
                }
                let recipient = rec.depositor.clone();
                let amount = rec.amount;
                Ok(
                    ExecResponse {
                        event: EscrowEvent::Redeem { depositor: rec.depositor, amount },
                        transfer: Some(TransferMsg { recipient, amount }),
                    },
                )
            },
            Err(_) => {
                proof {
                    assert(false);
                }
                Err(ContractError::NotFound)
            },
        }
    }

    /// The configuration, as stored at creation. Read-only.
    pub fn query_config(&self) -> (r: ConfigResponse)
        ensures
            r.owner == self.config.owner,
            r.token == self.config.token,
    {
        ConfigResponse { owner: self.config.owner.clone(), token: self.config.token.clone() }
    }

    /// The live escrow for `address` — its amount and expiry — or the
    /// not-found failure if no record exists. Read-only.
    pub fn query_escrow(&self, address: &String) -> (r: Result<EscrowResponse, QueryError>)
        requires
            self.wf(),
        ensures
            match lookup(self.store@, address@) {
                Some(rec) => r == Ok::<EscrowResponse, QueryError>(
                    (EscrowResponse { amount: rec.amount, time: rec.expires_at }),
                ),
                None => r == Err::<EscrowResponse, QueryError>(QueryError::NotFound),
            },
    {
        match self.store.get(address) {
            Some(rec) => Ok(EscrowResponse { amount: rec.amount, time: rec.expires_at }),
            None => Err(QueryError::NotFound),
        }
    }
}

/// Expiry-boundary law: with a live record for `a`, redemption is permitted
/// exactly from the recorded expiry on — at the boundary and at every later
/// clock value, and at no earlier one.
pub proof fn lemma_expiry_boundary(s: Seq<EscrowRecord>, a: Seq<char>, rec: EscrowRecord)
    requires
        lookup(s, a) == Some(rec),
    ensures
        redeem_accepts(s, a, rec.expires_at),
        forall|c: u64| c > rec.expires_at ==> redeem_accepts(s, a, c),
        forall|c: u64| c < rec.expires_at ==> !redeem_accepts(s, a, c),
{
}

/// Post-redeem reusability law: once no record is live for `a` — which is
/// how a successful redeem leaves the store — a hook-receive for `a` from
/// the configured token ledger with a positive amount is accepted again,
/// and the cycle can repeat.
pub proof fn lemma_post_redeem_reusability(
    token: Seq<char>,
    s: Seq<EscrowRecord>,
    a: Seq<char>,
    amount: u128,
)
    requires
        lookup(s, a) is None,
        amount > 0,
    ensures
        receive_accepts(token, s, token, a, amount),
{
}

/// Conservation law: in the store as a successful hook-receive leaves it,
/// what a lookup for the depositor finds is exactly the record created —
/// same amount, same expiry. Together with the redeem contract, which
/// releases precisely the looked-up record's amount, a redemption returns
/// exactly what was recorded at creation: no fee, no rounding.
pub proof fn lemma_conservation(s: Seq<EscrowRecord>, rec: EscrowRecord, clock: u64)
    requires
        unique_depositors(s),
        !has_record(s, rec.depositor@),
        redeem_accepts(s.push(rec), rec.depositor@, clock),
    ensures
        lookup(s.push(rec), rec.depositor@) == Some(rec),
        clock >= rec.expires_at,
{
    lemma_lookup_push(s, rec);
}

} // verus!
