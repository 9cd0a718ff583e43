use vstd::prelude::*;
use crate::types::{
    Address, Bytes32, Error, LifecycleConfig, LifecycleRecord, LifecycleTerminal, PolicyDecision,
    Postage, ReceiptState,
};
use crate::model::{
    LifecycleState, refuse, spec_bind, spec_initialize, spec_verify_delivered, spec_verify_dispute,
    spec_verify_expire, spec_verify_read, spec_verify_reclaim, spec_verify_terminal,
};
use crate::model::state_consistent;
use crate::laws::{is_final, law_consistency_is_kept, same_binding};

verus! {

/// A state-changing invocation of the contract, with its arguments.
pub enum Invocation {
    Initialize { config: LifecycleConfig },
    Bind {
        message_id: Bytes32,
        owner: Address,
        sender: Address,
        recipient: Address,
        amount: i128,
        verified: bool,
        receipt_required: bool,
        decision: PolicyDecision,
        now: u64,
    },
    Settle { message_id: Bytes32, postage: Postage },
    Refund { message_id: Bytes32, postage: Postage },
    Dispute { message_id: Bytes32, postage: Postage },
    Expire { message_id: Bytes32, postage: Postage },
    Reclaim { message_id: Bytes32, postage: Postage },
    Delivered { message_id: Bytes32, receipt: ReceiptState },
    Read { message_id: Bytes32, receipt: ReceiptState, now: u64 },
}

/// The state after one invocation, whether it succeeds or is refused.
pub open spec fn step(s: LifecycleState, inv: Invocation) -> LifecycleState {
    match inv {
        Invocation::Initialize { config } => spec_initialize(s, config).0,
        Invocation::Bind {
            message_id,
            owner,
            sender,
            recipient,
            amount,
            verified,
            receipt_required,
            decision,
            now,
        } => spec_bind(
            s,
            message_id,
            owner,
            sender,
            recipient,
            amount,
            verified,
            receipt_required,
            decision,
            now,
        ).0,
        Invocation::Settle { message_id, postage } => spec_verify_terminal(
            s,
            message_id,
            postage,
            LifecycleTerminal::Settled,
        ).0,
        Invocation::Refund { message_id, postage } => spec_verify_terminal(
            s,
            message_id,
            postage,
            LifecycleTerminal::Refunded,
        ).0,
        Invocation::Dispute { message_id, postage } => spec_verify_dispute(
            s,
            message_id,
            postage,
        ).0,
        Invocation::Expire { message_id, postage } => spec_verify_expire(s, message_id, postage).0,
        Invocation::Reclaim { message_id, postage } => spec_verify_reclaim(
            s,
            message_id,
            postage,
        ).0,
        Invocation::Delivered { message_id, receipt } => spec_verify_delivered(
            s,
            message_id,
            receipt,
        ).0,
        Invocation::Read { message_id, receipt, now } => spec_verify_read(
            s,
            message_id,
            receipt,
            now,
        ).0,
    }
}

/// The state after a sequence of invocations, first to last.
pub open spec fn run(s: LifecycleState, ops: Seq<Invocation>) -> LifecycleState
    decreases ops.len(),
{
    if ops.len() == 0 {
        s
    } else {
        step(run(s, ops.drop_last()), ops.last())
    }
}

/// The state of a freshly created contract.
pub open spec fn fresh_state() -> LifecycleState {
    LifecycleState {
        config: None,
        records: Map::empty(),
        events: Seq::empty(),
        auths: Seq::empty(),
    }
}

/// The invocation at position `i` of `ops`, run from `s` after those before
/// it, records a delivery for `message_id`: it is a delivery receipt for that
/// message, and it is not refused.
pub open spec fn records_delivery_at(
    s: LifecycleState,
    ops: Seq<Invocation>,
    i: int,
    message_id: Bytes32,
) -> bool {
    &&& ops[i] matches Invocation::Delivered { message_id: m, receipt }
    &&& m == message_id
    &&& spec_verify_delivered(run(s, ops.take(i)), m, receipt).1 is Ok
}

/// How a stored record can stand after any number of invocations: it keeps
/// what it was bound with, delivery data and the read time once set stay,
/// once it has a postage outcome it never returns to a stage in flight
/// (open, delivered or read), and a final outcome stays exactly as it is.
pub open spec fn persists_as(a: LifecycleRecord, b: LifecycleRecord) -> bool {
    &&& same_binding(a, b)
    &&& (a.delivered_at is Some ==> {
        &&& b.delivered_at == a.delivered_at
        &&& b.payload_hash == a.payload_hash
        &&& b.protocol_version == a.protocol_version
    })
    &&& (a.read_at is Some ==> b.read_at == a.read_at)
    &&& (!(a.terminal is Open || a.terminal is Delivered || a.terminal is Read) ==> !(b.terminal
        is Open || b.terminal is Delivered || b.terminal is Read))
    &&& (is_final(a.terminal) ==> b == a)
}

proof fn lemma_step_consistent(s: LifecycleState, inv: Invocation)
    requires
        state_consistent(s),
    ensures
        state_consistent(step(s, inv)),
{
    match inv {
        Invocation::Initialize { config } => {},
        Invocation::Bind {
            message_id,
            owner,
            sender,
            recipient,
            amount,
            verified,
            receipt_required,
            decision,
            now,
        } => {
            law_consistency_is_kept(
                s,
                message_id,
                owner,
                sender,
                recipient,
                amount,
                verified,
                receipt_required,
                decision,
                now,
                arbitrary(),
                LifecycleTerminal::Settled,
                arbitrary(),
            );
        },
        Invocation::Settle { message_id, postage } | Invocation::Refund { message_id, postage }
        | Invocation::Dispute { message_id, postage } | Invocation::Expire {
            message_id,
            postage,
        } | Invocation::Reclaim { message_id, postage } => {
            law_consistency_is_kept(
                s,
                message_id,
                arbitrary(),
                arbitrary(),
                arbitrary(),
                0,
                false,
                false,
                arbitrary(),
                0,
                postage,
                LifecycleTerminal::Settled,
                arbitrary(),
            );
            law_consistency_is_kept(
                s,
                message_id,
                arbitrary(),
                arbitrary(),
                arbitrary(),
                0,
                false,
                false,
                arbitrary(),
                0,
                postage,
                LifecycleTerminal::Refunded,
                arbitrary(),
            );
        },
        Invocation::Delivered { message_id, receipt } => {
            law_consistency_is_kept(
                s,
                message_id,
                arbitrary(),
                arbitrary(),
                arbitrary(),
                0,
                false,
                false,
                arbitrary(),
                0,
                arbitrary(),
                LifecycleTerminal::Settled,
                receipt,
            );
        },
        Invocation::Read { message_id, receipt, now } => {
            law_consistency_is_kept(
                s,
                message_id,
                arbitrary(),
                arbitrary(),
                arbitrary(),
                0,
                false,
                false,
                arbitrary(),
                now,
                arbitrary(),
                LifecycleTerminal::Settled,
                receipt,
            );
        },
    }
}

proof fn lemma_step_persists(s: LifecycleState, inv: Invocation, m: Bytes32)
    requires
        s.records.contains_key(m),
    ensures
        step(s, inv).records.contains_key(m),
        persists_as(s.records[m], step(s, inv).records[m]),
        s.config is Some ==> step(s, inv).config == s.config,
{
    match inv {
        Invocation::Initialize { .. } => {},
        Invocation::Bind { .. } => {},
        Invocation::Settle { .. } => {},
        Invocation::Refund { .. } => {},
        Invocation::Dispute { .. } => {},
        Invocation::Expire { .. } => {},
        Invocation::Reclaim { .. } => {},
        Invocation::Delivered { .. } => {},
        Invocation::Read { .. } => {},
    }
}

proof fn lemma_step_undelivered(s: LifecycleState, inv: Invocation, m: Bytes32)
    requires
        s.records.contains_key(m),
        s.records[m].delivered_at is None,
        !(inv matches Invocation::Delivered { message_id, receipt } && message_id == m
            && spec_verify_delivered(s, m, receipt).1 is Ok),
    ensures
        step(s, inv).records[m].delivered_at is None,
{
    match inv {
        Invocation::Initialize { .. } => {},
        Invocation::Bind { .. } => {},
        Invocation::Settle { .. } => {},
        Invocation::Refund { .. } => {},
        Invocation::Dispute { .. } => {},
        Invocation::Expire { .. } => {},
        Invocation::Reclaim { .. } => {},
        Invocation::Delivered { .. } => {},
        Invocation::Read { .. } => {},
    }
}

proof fn lemma_run_consistent(s: LifecycleState, ops: Seq<Invocation>)
    requires
        state_consistent(s),
    ensures
        state_consistent(run(s, ops)),
    decreases ops.len(),
{
    if ops.len() > 0 {
        lemma_run_consistent(s, ops.drop_last());
        lemma_step_consistent(run(s, ops.drop_last()), ops.last());
    }
}

/// Every state a fresh contract reaches, by any sequence of invocations,
/// each succeeding or refused, holds only consistent records, each kept
/// under its own message id: its owner is its recipient, its delivery data
/// is set all at once, it is read only after delivery, an open record is
/// undelivered, a read record has its read time, and a record that needs a
/// receipt has left the open stage only once delivered.
pub proof fn law_reachable_records_are_consistent(ops: Seq<Invocation>)
    ensures
        state_consistent(run(fresh_state(), ops)),
        forall|m: Bytes32| #[trigger]
            run(fresh_state(), ops).records.contains_key(m) ==> ({
                let r = run(fresh_state(), ops).records[m];
                &&& r.message_id == m
                &&& r.owner == r.recipient
                &&& (r.payload_hash is Some <==> r.delivered_at is Some)
                &&& (r.protocol_version is Some <==> r.delivered_at is Some)
                &&& (r.read_at is Some ==> r.delivered_at is Some)
                &&& (r.terminal is Open ==> r.delivered_at is None)
                &&& (r.terminal is Read ==> r.read_at is Some)
                &&& (r.receipt_required && !(r.terminal is Open) ==> r.delivered_at is Some)
            }),
{
    lemma_run_consistent(fresh_state(), ops);
}

/// Records persist: a stored record is never removed, keeps what it was
/// bound with, keeps delivery data and a read time once set, never returns
/// to flight once it has a postage outcome, and a record with a final
/// outcome stays exactly as it is, whatever sequence of
/// invocations follows; a stored configuration is never replaced.
pub proof fn law_records_persist(s: LifecycleState, ops: Seq<Invocation>, m: Bytes32)
    requires
        s.records.contains_key(m),
    ensures
        run(s, ops).records.contains_key(m),
        persists_as(s.records[m], run(s, ops).records[m]),
        s.config is Some ==> run(s, ops).config == s.config,
    decreases ops.len(),
{
    if ops.len() > 0 {
        law_records_persist(s, ops.drop_last(), m);
        lemma_step_persists(run(s, ops.drop_last()), ops.last(), m);
    }
}

/// A record stays undelivered through any sequence of invocations in which
/// no delivery for its message succeeds: delivery receipts that are refused
/// leave it as it was.
pub proof fn law_undelivered_until_delivery(s: LifecycleState, ops: Seq<Invocation>, m: Bytes32)
    requires
        s.records.contains_key(m),
        s.records[m].delivered_at is None,
        forall|i: int| 0 <= i < ops.len() ==> !#[trigger] records_delivery_at(s, ops, i, m),
    ensures
        run(s, ops).records.contains_key(m),
        run(s, ops).records[m].delivered_at is None,
    decreases ops.len(),
{
    if ops.len() > 0 {
        let prefix = ops.drop_last();
        assert forall|i: int| 0 <= i < prefix.len() implies !#[trigger] records_delivery_at(
            s,
            prefix,
            i,
            m,
        ) by {
            assert(prefix.take(i) =~= ops.take(i));
            assert(prefix[i] == ops[i]);
            assert(!records_delivery_at(s, ops, i, m));
        }
        law_undelivered_until_delivery(s, prefix, m);
        law_records_persist(s, prefix, m);
        let k = ops.len() - 1;
        assert(ops.take(k) =~= prefix);
        assert(!records_delivery_at(s, ops, k, m));
        lemma_step_undelivered(run(s, prefix), ops.last(), m);
    }
}

/// A message bound as needing a receipt cannot be settled until its
/// delivery is recorded: whatever invocations follow the binding, as long
/// as every delivery receipt for it among them is refused, settling it with
/// its own postage is refused with `TerminalStateMismatch` and leaves it as
/// it is.
pub proof fn law_receipt_required_settles_only_after_delivery(
    s: LifecycleState,
    message_id: Bytes32,
    owner: Address,
    sender: Address,
    amount: i128,
    verified: bool,
    decision: PolicyDecision,
    now: u64,
    ops: Seq<Invocation>,
    postage: Postage,
)
    requires
        spec_bind(
            s,
            message_id,
            owner,
            sender,
            owner,
            amount,
            verified,
            true,
            decision,
            now,
        ).1 is Ok,
        forall|i: int|
            0 <= i < ops.len() ==> !#[trigger] records_delivery_at(
                spec_bind(
                    s,
                    message_id,
                    owner,
                    sender,
                    owner,
                    amount,
                    verified,
                    true,
                    decision,
                    now,
                ).0,
                ops,
                i,
                message_id,
            ),
        postage.sender == sender,
        postage.recipient == owner,
        postage.amount == amount,
    ensures
        ({
            let t = run(
                spec_bind(
                    s,
                    message_id,
                    owner,
                    sender,
                    owner,
                    amount,
                    verified,
                    true,
                    decision,
                    now,
                ).0,
                ops,
            );
            spec_verify_terminal(t, message_id, postage, LifecycleTerminal::Settled) == refuse(
                t,
                seq![t.config->0.postage],
                Error::TerminalStateMismatch,
            )
        }),
{
    let s1 = spec_bind(
        s,
        message_id,
        owner,
        sender,
        owner,
        amount,
        verified,
        true,
        decision,
        now,
    ).0;
    assert(s1.records.contains_key(message_id));
    law_records_persist(s1, ops, message_id);
    law_undelivered_until_delivery(s1, ops, message_id);
}

/// Once a delivery receipt is recorded, a read receipt carrying another
/// payload hash or protocol version is refused with `ReceiptMismatch`, and
/// the record stays unread.  This holds in every consistent state, which
/// includes every state a fresh contract reaches and every value of the
/// contract.
pub proof fn law_read_needs_the_delivered_receipt(
    s: LifecycleState,
    message_id: Bytes32,
    receipt: ReceiptState,
    other: ReceiptState,
    now: u64,
)
    requires
        state_consistent(s),
        spec_verify_delivered(s, message_id, receipt).1 is Ok,
        other.message_id == receipt.message_id,
        other.sender == receipt.sender,
        other.recipient == receipt.recipient,
        other.payload_hash != receipt.payload_hash || other.protocol_version
            != receipt.protocol_version,
    ensures
        ({
            let t = spec_verify_delivered(s, message_id, receipt).0;
            &&& spec_verify_read(t, message_id, other, now) == refuse(
                t,
                seq![t.config->0.receipts],
                Error::ReceiptMismatch,
            )
            &&& t.records[message_id].read_at is None
        }),
{
}

} // verus!
