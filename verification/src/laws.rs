use vstd::prelude::*;
use crate::types::{
    Address, Bytes32, Error, LifecycleAction, LifecycleConfig, LifecycleEvent, LifecycleRecord,
    LifecycleTerminal, PolicyDecision, Postage, ReceiptState,
};
use crate::rules::{is_postage_outcome, policy_admits, terminal_action, transition_allowed};
use crate::model::{
    LifecycleState, Outcome, fresh_record, spec_bind, spec_config, spec_get, spec_initialize,
    spec_policy_query, spec_verify_delivered, spec_verify_dispute, spec_verify_expire,
    spec_verify_read, spec_verify_reclaim, spec_verify_terminal, state_consistent,
};

verus! {

/// An invocation touches at most the record of `message_id`: when it
/// succeeds it stores the record it answers with, so that `get` gives that
/// record back, and publishes exactly one event, under `action`, reporting
/// it; when it is refused, configuration, records and events stay as they
/// were.
pub open spec fn touches_only(
    s: LifecycleState,
    o: Outcome,
    message_id: Bytes32,
    action: LifecycleAction,
) -> bool {
    &&& o.0.config == s.config
    &&& match o.1 {
        Ok(record) => {
            &&& o.0.records == s.records.insert(message_id, record)
            &&& spec_get(o.0, message_id) == o.1
            &&& o.0.events == s.events.push(LifecycleEvent { action, message_id, record })
        },
        Err(_) => {
            &&& o.0.records == s.records
            &&& o.0.events == s.events
        },
    }
}

/// The fields fixed when a message is bound.
pub open spec fn same_binding(a: LifecycleRecord, b: LifecycleRecord) -> bool {
    &&& a.message_id == b.message_id
    &&& a.owner == b.owner
    &&& a.sender == b.sender
    &&& a.recipient == b.recipient
    &&& a.amount == b.amount
    &&& a.verified == b.verified
    &&& a.receipt_required == b.receipt_required
    &&& a.policy_version == b.policy_version
    &&& a.decision_reason == b.decision_reason
    &&& a.bound_at == b.bound_at
}

/// How a record may evolve: the binding never changes, and delivery data
/// and the read time, once set, are never overwritten.
pub open spec fn evolves_to(a: LifecycleRecord, b: LifecycleRecord) -> bool {
    &&& same_binding(a, b)
    &&& (a.delivered_at is Some ==> {
        &&& b.delivered_at == a.delivered_at
        &&& b.payload_hash == a.payload_hash
        &&& b.protocol_version == a.protocol_version
    })
    &&& (a.read_at is Some ==> b.read_at == a.read_at)
    &&& (b.terminal != a.terminal && is_postage_outcome(b.terminal) ==> transition_allowed(
        a.terminal,
        b.terminal,
    ))
    &&& (b.terminal is Open ==> a.terminal is Open)
}

/// Every record the state already held evolves as `evolves_to` allows.
pub open spec fn records_evolve(s: LifecycleState, t: LifecycleState) -> bool {
    forall|id: Bytes32|
        #[trigger] s.records.contains_key(id) ==> t.records.contains_key(id) && evolves_to(
            s.records[id],
            t.records[id],
        )
}

/// Settled, refunded and reclaimed are final.
pub open spec fn is_final(t: LifecycleTerminal) -> bool {
    t is Settled || t is Refunded || t is Reclaimed
}

/// Initializing stores the configuration exactly when there was none, and
/// `config` then gives it back; a second initialization is refused with
/// `AlreadyInitialized` and keeps the first configuration.
pub proof fn law_initialize_then_config(
    s: LifecycleState,
    config: LifecycleConfig,
    other: LifecycleConfig,
)
    ensures
        spec_initialize(s, config).1 is Ok <==> s.config is None,
        spec_initialize(s, config).1 is Ok ==> spec_config(spec_initialize(s, config).0) == Ok::<
            LifecycleConfig,
            Error,
        >(config),
        spec_initialize(s, config).1 is Ok ==> spec_initialize(spec_initialize(s, config).0, other)
            == (spec_initialize(s, config).0, Err::<(), Error>(Error::AlreadyInitialized)),
        spec_initialize(s, config).0.records == s.records,
        spec_initialize(s, config).0.events == s.events,
{
    let t = spec_initialize(s, config).0;
    assert(spec_initialize(t, other).0 =~= t);
}

/// A bound record is read back as it was written: `get` answers with the
/// record `bind` answered with, and that record starts open, with the
/// binding data and policy decision it was bound with.
pub proof fn law_get_after_bind(
    s: LifecycleState,
    message_id: Bytes32,
    owner: Address,
    sender: Address,
    recipient: Address,
    amount: i128,
    verified: bool,
    receipt_required: bool,
    decision: PolicyDecision,
    now: u64,
)
    requires
        spec_bind(
            s,
            message_id,
            owner,
            sender,
            recipient,
            amount,
            verified,
            receipt_required,
            decision,
            now,
        ).1 is Ok,
    ensures
        ({
            let (t, r) = spec_bind(
                s,
                message_id,
                owner,
                sender,
                recipient,
                amount,
                verified,
                receipt_required,
                decision,
                now,
            );
            &&& spec_get(t, message_id) == r
            &&& r == Ok::<LifecycleRecord, Error>(
                fresh_record(
                    message_id,
                    owner,
                    sender,
                    recipient,
                    amount,
                    verified,
                    receipt_required,
                    decision,
                    now,
                ),
            )
        }),
{
}

/// Binding succeeds exactly when the owner is the recipient, the message is
/// not bound yet, the contract is configured and the policy admits the
/// postage; a message that is bound is refused a second binding with
/// `DuplicateLifecycle`, whatever the rest of the request.
pub proof fn law_bind_once(
    s: LifecycleState,
    message_id: Bytes32,
    owner: Address,
    sender: Address,
    recipient: Address,
    amount: i128,
    verified: bool,
    receipt_required: bool,
    decision: PolicyDecision,
    now: u64,
    sender2: Address,
    amount2: i128,
    verified2: bool,
    receipt_required2: bool,
    decision2: PolicyDecision,
    now2: u64,
)
    ensures
        spec_bind(
            s,
            message_id,
            owner,
            sender,
            recipient,
            amount,
            verified,
            receipt_required,
            decision,
            now,
        ).1 is Ok <==> (owner == recipient && !s.records.contains_key(message_id)
            && s.config is Some && policy_admits(decision, amount)),
        spec_bind(
            s,
            message_id,
            owner,
            sender,
            recipient,
            amount,
            verified,
            receipt_required,
            decision,
            now,
        ).1 is Ok ==> spec_bind(
            spec_bind(
                s,
                message_id,
                owner,
                sender,
                recipient,
                amount,
                verified,
                receipt_required,
                decision,
                now,
            ).0,
            message_id,
            owner,
            sender2,
            owner,
            amount2,
            verified2,
            receipt_required2,
            decision2,
            now2,
        ).1 == Err::<LifecycleRecord, Error>(Error::DuplicateLifecycle),
{
}

/// `policy_query` names exactly the checks `bind` makes before it asks the
/// policies contract: where it refuses, `bind` is refused with the same
/// error whatever the decision; where it answers, `bind` succeeds exactly
/// when the decision admits the postage.
pub proof fn law_policy_query_guards_bind(
    s: LifecycleState,
    message_id: Bytes32,
    owner: Address,
    sender: Address,
    recipient: Address,
    amount: i128,
    verified: bool,
    receipt_required: bool,
    decision: PolicyDecision,
    now: u64,
)
    ensures
        ({
            let q = spec_policy_query(
                s,
                message_id,
                owner,
                sender,
                recipient,
                amount,
                verified,
                receipt_required,
            );
            let r = spec_bind(
                s,
                message_id,
                owner,
                sender,
                recipient,
                amount,
                verified,
                receipt_required,
                decision,
                now,
            ).1;
            &&& (q matches Err(e) ==> r == Err::<LifecycleRecord, Error>(e))
            &&& (q is Ok ==> (r is Ok <==> policy_admits(decision, amount)))
            &&& (q matches Ok(query) ==> query.policies == s.config->0.policies && query.owner
                == owner && query.sender == sender && query.verified == verified && query.postage
                == amount && query.receipt_required == receipt_required)
        }),
{
}

/// Every invocation touches at most the record of its own message, stores
/// what it answers with, publishes exactly one event per change, and leaves
/// configuration, records and events as they were when refused.
pub proof fn law_invocations_touch_only_their_record(
    s: LifecycleState,
    message_id: Bytes32,
    owner: Address,
    sender: Address,
    recipient: Address,
    amount: i128,
    verified: bool,
    receipt_required: bool,
    decision: PolicyDecision,
    now: u64,
    postage: Postage,
    terminal: LifecycleTerminal,
    receipt: ReceiptState,
)
    ensures
        touches_only(
            s,
            spec_bind(
                s,
                message_id,
                owner,
                sender,
                recipient,
                amount,
                verified,
                receipt_required,
                decision,
                now,
            ),
            message_id,
            LifecycleAction::Bind,
        ),
        touches_only(
            s,
            spec_verify_terminal(s, message_id, postage, terminal),
            message_id,
            terminal_action(terminal),
        ),
        touches_only(
            s,
            spec_verify_dispute(s, message_id, postage),
            message_id,
            LifecycleAction::Dispute,
        ),
        touches_only(
            s,
            spec_verify_expire(s, message_id, postage),
            message_id,
            LifecycleAction::Expire,
        ),
        touches_only(
            s,
            spec_verify_reclaim(s, message_id, postage),
            message_id,
            LifecycleAction::Reclaim,
        ),
        touches_only(
            s,
            spec_verify_delivered(s, message_id, receipt),
            message_id,
            LifecycleAction::Delivered,
        ),
        touches_only(
            s,
            spec_verify_read(s, message_id, receipt, now),
            message_id,
            LifecycleAction::Read,
        ),
{
}

/// Records only evolve: no invocation changes what a message was bound
/// with, overwrites delivery data or a read time once set, moves a record
/// to a postage outcome its stage does not allow, or reopens a record.
pub proof fn law_records_only_evolve(
    s: LifecycleState,
    message_id: Bytes32,
    owner: Address,
    sender: Address,
    recipient: Address,
    amount: i128,
    verified: bool,
    receipt_required: bool,
    decision: PolicyDecision,
    now: u64,
    postage: Postage,
    terminal: LifecycleTerminal,
    receipt: ReceiptState,
)
    ensures
        records_evolve(s, spec_bind(
            s,
            message_id,
            owner,
            sender,
            recipient,
            amount,
            verified,
            receipt_required,
            decision,
            now,
        ).0),
        records_evolve(s, spec_verify_terminal(s, message_id, postage, terminal).0),
        records_evolve(s, spec_verify_dispute(s, message_id, postage).0),
        records_evolve(s, spec_verify_expire(s, message_id, postage).0),
        records_evolve(s, spec_verify_reclaim(s, message_id, postage).0),
        records_evolve(s, spec_verify_delivered(s, message_id, receipt).0),
        records_evolve(s, spec_verify_read(s, message_id, receipt, now).0),
{
}

/// Every stored record stays consistent: its owner is its recipient, its
/// delivery data is set all at once, it is read only after delivery, its
/// stage agrees with its delivery and read data, and a message that needs a
/// receipt reaches a postage outcome only once delivered.  A contract with
/// no record is consistent, and every invocation keeps consistency.
pub proof fn law_consistency_is_kept(
    s: LifecycleState,
    message_id: Bytes32,
    owner: Address,
    sender: Address,
    recipient: Address,
    amount: i128,
    verified: bool,
    receipt_required: bool,
    decision: PolicyDecision,
    now: u64,
    postage: Postage,
    terminal: LifecycleTerminal,
    receipt: ReceiptState,
)
    requires
        state_consistent(s),
    ensures
        state_consistent(LifecycleState { records: Map::empty(), ..s }),
        state_consistent(spec_bind(
            s,
            message_id,
            owner,
            sender,
            recipient,
            amount,
            verified,
            receipt_required,
            decision,
            now,
        ).0),
        state_consistent(spec_verify_terminal(s, message_id, postage, terminal).0),
        state_consistent(spec_verify_dispute(s, message_id, postage).0),
        state_consistent(spec_verify_expire(s, message_id, postage).0),
        state_consistent(spec_verify_reclaim(s, message_id, postage).0),
        state_consistent(spec_verify_delivered(s, message_id, receipt).0),
        state_consistent(spec_verify_read(s, message_id, receipt, now).0),
{
}

/// Settled, refunded and reclaimed messages are final: every invocation
/// on them is refused.
pub proof fn law_final_outcomes_stay(
    s: LifecycleState,
    message_id: Bytes32,
    owner: Address,
    sender: Address,
    recipient: Address,
    amount: i128,
    verified: bool,
    receipt_required: bool,
    decision: PolicyDecision,
    now: u64,
    postage: Postage,
    terminal: LifecycleTerminal,
    receipt: ReceiptState,
)
    requires
        s.records.contains_key(message_id),
        is_final(s.records[message_id].terminal),
    ensures
        spec_bind(
            s,
            message_id,
            owner,
            sender,
            recipient,
            amount,
            verified,
            receipt_required,
            decision,
            now,
        ).1 is Err,
        spec_verify_terminal(s, message_id, postage, terminal).1 is Err,
        spec_verify_dispute(s, message_id, postage).1 is Err,
        spec_verify_expire(s, message_id, postage).1 is Err,
        spec_verify_reclaim(s, message_id, postage).1 is Err,
        spec_verify_delivered(s, message_id, receipt).1 is Err,
        spec_verify_read(s, message_id, receipt, now).1 is Err,
{
}

/// Every change is authorized by the party responsible for it: a binding
/// by its sender, a postage outcome by the configured postage contract, a
/// delivery or read by the configured receipts contract.
pub proof fn law_changes_are_authorized(
    s: LifecycleState,
    message_id: Bytes32,
    owner: Address,
    sender: Address,
    recipient: Address,
    amount: i128,
    verified: bool,
    receipt_required: bool,
    decision: PolicyDecision,
    now: u64,
    postage: Postage,
    terminal: LifecycleTerminal,
    receipt: ReceiptState,
)
    ensures
        spec_bind(
            s,
            message_id,
            owner,
            sender,
            recipient,
            amount,
            verified,
            receipt_required,
            decision,
            now,
        ).1 is Ok ==> spec_bind(
            s,
            message_id,
            owner,
            sender,
            recipient,
            amount,
            verified,
            receipt_required,
            decision,
            now,
        ).0.auths == seq![sender],
        spec_verify_terminal(s, message_id, postage, terminal).1 is Ok ==> spec_verify_terminal(
            s,
            message_id,
            postage,
            terminal,
        ).0.auths == seq![s.config->0.postage],
        spec_verify_delivered(s, message_id, receipt).1 is Ok ==> spec_verify_delivered(
            s,
            message_id,
            receipt,
        ).0.auths == seq![s.config->0.receipts],
        spec_verify_read(s, message_id, receipt, now).1 is Ok ==> spec_verify_read(
            s,
            message_id,
            receipt,
            now,
        ).0.auths == seq![s.config->0.receipts],
{
}


/// The stored record of `message_id` belongs to the given message, sender
/// and recipient.
pub open spec fn owned_by(
    s: LifecycleState,
    message_id: Bytes32,
    sender: Address,
    recipient: Address,
) -> bool {
    &&& s.records.contains_key(message_id)
    &&& s.records[message_id].message_id == message_id
    &&& s.records[message_id].sender == sender
    &&& s.records[message_id].recipient == recipient
}

/// A receipt agrees with the stored record of `message_id`: same message
/// and parties, and the payload hash and protocol version the record
/// already holds, if any.
pub open spec fn receipt_fits(s: LifecycleState, message_id: Bytes32, receipt: ReceiptState) -> bool {
    &&& owned_by(s, message_id, receipt.sender, receipt.recipient)
    &&& receipt.message_id == message_id
    &&& (s.records[message_id].payload_hash is Some ==> s.records[message_id].payload_hash == Some(
        receipt.payload_hash,
    ))
    &&& (s.records[message_id].protocol_version is Some
        ==> s.records[message_id].protocol_version == Some(receipt.protocol_version))
}

/// A postage belongs to the stored record of `message_id`: same message,
/// parties and amount.
pub open spec fn postage_fits(s: LifecycleState, message_id: Bytes32, postage: Postage) -> bool {
    &&& owned_by(s, message_id, postage.sender, postage.recipient)
    &&& s.records[message_id].amount == postage.amount
}

/// A record that has left the stages in flight (open, delivered, read)
/// for a postage outcome never returns to them.
pub open spec fn stays_out_of_flight(s: LifecycleState, t: LifecycleState) -> bool {
    forall|id: Bytes32|
        #[trigger] s.records.contains_key(id) && !(s.records[id].terminal is Open
            || s.records[id].terminal is Delivered || s.records[id].terminal is Read)
            ==> t.records.contains_key(id) && !(t.records[id].terminal is Open
            || t.records[id].terminal is Delivered || t.records[id].terminal is Read)
}

/// The transition table of postage outcomes: a message in flight (open,
/// delivered or read) may take any outcome and never a stage in flight; a
/// disputed one may only be refunded or reclaimed; an expired one may only
/// be disputed or reclaimed; settled, refunded and reclaimed are final.
pub proof fn law_transition_table(current: LifecycleTerminal, next: LifecycleTerminal)
    ensures
        (current is Open || current is Delivered || current is Read) ==> (transition_allowed(
            current,
            next,
        ) <==> !(next is Open || next is Delivered || next is Read)),
        current is Disputed ==> (transition_allowed(current, next) <==> (next is Refunded
            || next is Reclaimed)),
        current is Expired ==> (transition_allowed(current, next) <==> (next is Disputed
            || next is Reclaimed)),
        (current is Settled || current is Refunded || current is Reclaimed) ==> !transition_allowed(
            current,
            next,
        ),
{
}

/// What binding answers: it succeeds exactly when the owner is the
/// recipient, the message is not bound yet, the contract is configured and
/// the policy allows the message and asks no more postage than it carries.
/// The record it answers with and stores holds exactly the arguments it was
/// bound with, the version and reason of the decision, no delivery or read
/// data, the open stage and the binding time.  Each refusal has its error,
/// checked in that order, and leaves records and events as they were.
pub proof fn law_bind_answers(
    s: LifecycleState,
    message_id: Bytes32,
    owner: Address,
    sender: Address,
    recipient: Address,
    amount: i128,
    verified: bool,
    receipt_required: bool,
    decision: PolicyDecision,
    now: u64,
)
    ensures
        ({
            let (t, r) = spec_bind(
                s,
                message_id,
                owner,
                sender,
                recipient,
                amount,
                verified,
                receipt_required,
                decision,
                now,
            );
            &&& r is Ok <==> (owner == recipient && !s.records.contains_key(message_id)
                && s.config is Some && decision.allowed && decision.required_postage <= amount)
            &&& (r matches Ok(rec) ==> {
                &&& rec.message_id == message_id
                &&& rec.owner == owner
                &&& rec.sender == sender
                &&& rec.recipient == recipient
                &&& rec.amount == amount
                &&& rec.verified == verified
                &&& rec.receipt_required == receipt_required
                &&& rec.policy_version == decision.version
                &&& rec.decision_reason == decision.reason
                &&& rec.payload_hash is None
                &&& rec.protocol_version is None
                &&& rec.delivered_at is None
                &&& rec.read_at is None
                &&& rec.terminal is Open
                &&& rec.bound_at == now
                &&& t.records == s.records.insert(message_id, rec)
                &&& t.events == s.events.push(
                    LifecycleEvent { action: LifecycleAction::Bind, message_id, record: rec },
                )
            })
            &&& (r is Err ==> t.records == s.records && t.events == s.events && t.config
                == s.config)
            &&& (owner != recipient ==> r == Err::<LifecycleRecord, Error>(Error::PostageMismatch))
            &&& (owner == recipient && s.records.contains_key(message_id) ==> r == Err::<
                LifecycleRecord,
                Error,
            >(Error::DuplicateLifecycle))
            &&& (owner == recipient && !s.records.contains_key(message_id) && s.config is None
                ==> r == Err::<LifecycleRecord, Error>(Error::NotInitialized))
            &&& (owner == recipient && !s.records.contains_key(message_id) && s.config is Some
                && !(decision.allowed && decision.required_postage <= amount) ==> r == Err::<
                LifecycleRecord,
                Error,
            >(Error::PolicyRejected))
        }),
{
}

/// What a postage outcome answers: on a configured contract, for a stored
/// record the postage belongs to, it succeeds exactly when the transition
/// table allows the outcome from the record's stage and a record that needs
/// a receipt is delivered; in particular every outcome succeeds from a
/// stage in flight once that requirement is met.  The answer is the record
/// at the new stage, all else unchanged, published as one event under the
/// action of that outcome.  Each refusal has its error,
/// checked in that order, and leaves records and events as they were.
pub proof fn law_postage_outcome_answers(
    s: LifecycleState,
    message_id: Bytes32,
    postage: Postage,
    terminal: LifecycleTerminal,
)
    ensures
        ({
            let (t, r) = spec_verify_terminal(s, message_id, postage, terminal);
            let rec = s.records[message_id];
            let ready = s.config is Some && postage_fits(s, message_id, postage) && (
            rec.receipt_required ==> rec.delivered_at is Some);
            &&& r is Ok <==> (ready && transition_allowed(rec.terminal, terminal))
            &&& (ready && (rec.terminal is Open || rec.terminal is Delivered || rec.terminal is Read)
                && !(terminal is Open || terminal is Delivered || terminal is Read) ==> r is Ok)
            &&& (r matches Ok(out) ==> {
                &&& out == LifecycleRecord { terminal, ..rec }
                &&& t.records == s.records.insert(message_id, out)
                &&& t.events.len() == s.events.len() + 1
                &&& t.events.drop_last() == s.events
                &&& t.events.last().message_id == message_id
                &&& t.events.last().record == out
                &&& (terminal is Settled ==> t.events.last().action is Settle)
                &&& (terminal is Refunded ==> t.events.last().action is Refund)
                &&& (terminal is Disputed ==> t.events.last().action is Dispute)
                &&& (terminal is Expired ==> t.events.last().action is Expire)
                &&& (terminal is Reclaimed ==> t.events.last().action is Reclaim)
            })
            &&& (r is Err ==> t.records == s.records && t.events == s.events && t.config
                == s.config)
            &&& (s.config is None ==> r == Err::<LifecycleRecord, Error>(Error::NotInitialized))
            &&& (s.config is Some && !s.records.contains_key(message_id) ==> r == Err::<
                LifecycleRecord,
                Error,
            >(Error::MissingLifecycle))
            &&& (s.config is Some && s.records.contains_key(message_id) && !postage_fits(
                s,
                message_id,
                postage,
            ) ==> r == Err::<LifecycleRecord, Error>(Error::PostageMismatch))
            &&& (s.config is Some && postage_fits(s, message_id, postage) && (!transition_allowed(
                rec.terminal,
                terminal,
            ) || (rec.receipt_required && rec.delivered_at is None)) ==> r == Err::<
                LifecycleRecord,
                Error,
            >(Error::TerminalStateMismatch))
        }),
{
}

/// Disputing, expiring and reclaiming first check the status of the
/// postage: a dispute needs a pending or expired postage, an expiry a
/// pending one, and a reclaim one that is not settled, refunded or
/// reclaimed already.  Otherwise they are refused with `PostageMismatch`,
/// leaving records and events as they were; when the status passes they
/// answer as the postage outcome does.
pub proof fn law_postage_status_gates(s: LifecycleState, message_id: Bytes32, postage: Postage)
    ensures
        (postage.status is Pending || postage.status is Expired) ==> spec_verify_dispute(
            s,
            message_id,
            postage,
        ) == spec_verify_terminal(s, message_id, postage, LifecycleTerminal::Disputed),
        !(postage.status is Pending || postage.status is Expired) ==> ({
            let (t, r) = spec_verify_dispute(s, message_id, postage);
            r == Err::<LifecycleRecord, Error>(Error::PostageMismatch) && t.records == s.records
                && t.events == s.events
        }),
        postage.status is Pending ==> spec_verify_expire(s, message_id, postage)
            == spec_verify_terminal(s, message_id, postage, LifecycleTerminal::Expired),
        !(postage.status is Pending) ==> ({
            let (t, r) = spec_verify_expire(s, message_id, postage);
            r == Err::<LifecycleRecord, Error>(Error::PostageMismatch) && t.records == s.records
                && t.events == s.events
        }),
        !(postage.status is Settled || postage.status is Refunded || postage.status is Reclaimed)
            ==> spec_verify_reclaim(s, message_id, postage) == spec_verify_terminal(
            s,
            message_id,
            postage,
            LifecycleTerminal::Reclaimed,
        ),
        (postage.status is Settled || postage.status is Refunded || postage.status is Reclaimed)
            ==> ({
            let (t, r) = spec_verify_reclaim(s, message_id, postage);
            r == Err::<LifecycleRecord, Error>(Error::PostageMismatch) && t.records == s.records
                && t.events == s.events
        }),
{
}

/// What a delivery receipt answers: on a configured contract, for a stored
/// record the receipt agrees with, it succeeds exactly when the record is
/// undelivered and open or delivered, and the answer is the record moved to
/// the delivered stage with the receipt's delivery time, payload hash and
/// protocol version, all else unchanged.  A delivered record is refused
/// with `AlreadyDelivered`, a read one with `AlreadyRead`, one with a
/// postage outcome with `TerminalStateMismatch`; refusals leave records and
/// events as they were.
pub proof fn law_delivery_answers(s: LifecycleState, message_id: Bytes32, receipt: ReceiptState)
    ensures
        ({
            let (t, r) = spec_verify_delivered(s, message_id, receipt);
            let rec = s.records[message_id];
            let ready = s.config is Some && receipt_fits(s, message_id, receipt);
            &&& r is Ok <==> (ready && rec.delivered_at is None && (rec.terminal is Open
                || rec.terminal is Delivered))
            &&& (r matches Ok(out) ==> {
                &&& out == LifecycleRecord {
                    delivered_at: Some(receipt.delivered_at),
                    payload_hash: Some(receipt.payload_hash),
                    protocol_version: Some(receipt.protocol_version),
                    terminal: LifecycleTerminal::Delivered,
                    ..rec
                }
                &&& t.records == s.records.insert(message_id, out)
                &&& t.events == s.events.push(
                    LifecycleEvent { action: LifecycleAction::Delivered, message_id, record: out },
                )
            })
            &&& (r is Err ==> t.records == s.records && t.events == s.events && t.config
                == s.config)
            &&& (s.config is None ==> r == Err::<LifecycleRecord, Error>(Error::NotInitialized))
            &&& (s.config is Some && !s.records.contains_key(message_id) ==> r == Err::<
                LifecycleRecord,
                Error,
            >(Error::MissingLifecycle))
            &&& (s.config is Some && s.records.contains_key(message_id) && !owned_by(
                s,
                message_id,
                receipt.sender,
                receipt.recipient,
            ) ==> r == Err::<LifecycleRecord, Error>(Error::PostageMismatch))
            &&& (s.config is Some && owned_by(s, message_id, receipt.sender, receipt.recipient)
                && !receipt_fits(s, message_id, receipt) ==> r == Err::<LifecycleRecord, Error>(
                Error::ReceiptMismatch,
            ))
            &&& (ready && rec.delivered_at is Some ==> r == Err::<LifecycleRecord, Error>(
                Error::AlreadyDelivered,
            ))
            &&& (ready && rec.delivered_at is None && rec.terminal is Read ==> r == Err::<
                LifecycleRecord,
                Error,
            >(Error::AlreadyRead))
            &&& (ready && rec.delivered_at is None && !(rec.terminal is Open || rec.terminal
                is Delivered || rec.terminal is Read) ==> r == Err::<LifecycleRecord, Error>(
                Error::TerminalStateMismatch,
            ))
        }),
{
}

/// What a read receipt answers: on a configured contract, for a stored
/// record the receipt agrees with, it succeeds exactly when the record is
/// delivered, not read yet, and still in flight (open, delivered or read),
/// and the answer is the record moved to the read stage with the read time
/// `now`, all else unchanged.  An undelivered record is refused with
/// `TerminalStateMismatch`, a read one with `AlreadyRead`, one with a
/// postage outcome with `TerminalStateMismatch`; refusals leave records and
/// events as they were.
pub proof fn law_read_answers(
    s: LifecycleState,
    message_id: Bytes32,
    receipt: ReceiptState,
    now: u64,
)
    ensures
        ({
            let (t, r) = spec_verify_read(s, message_id, receipt, now);
            let rec = s.records[message_id];
            let ready = s.config is Some && receipt_fits(s, message_id, receipt);
            &&& r is Ok <==> (ready && rec.delivered_at is Some && rec.read_at is None && (
            rec.terminal is Open || rec.terminal is Delivered || rec.terminal is Read))
            &&& (r matches Ok(out) ==> {
                &&& out == LifecycleRecord {
                    read_at: Some(now),
                    terminal: LifecycleTerminal::Read,
                    ..rec
                }
                &&& t.records == s.records.insert(message_id, out)
                &&& t.events == s.events.push(
                    LifecycleEvent { action: LifecycleAction::Read, message_id, record: out },
                )
            })
            &&& (r is Err ==> t.records == s.records && t.events == s.events && t.config
                == s.config)
            &&& (s.config is None ==> r == Err::<LifecycleRecord, Error>(Error::NotInitialized))
            &&& (s.config is Some && !s.records.contains_key(message_id) ==> r == Err::<
                LifecycleRecord,
                Error,
            >(Error::MissingLifecycle))
            &&& (s.config is Some && s.records.contains_key(message_id) && !owned_by(
                s,
                message_id,
                receipt.sender,
                receipt.recipient,
            ) ==> r == Err::<LifecycleRecord, Error>(Error::PostageMismatch))
            &&& (s.config is Some && owned_by(s, message_id, receipt.sender, receipt.recipient)
                && !receipt_fits(s, message_id, receipt) ==> r == Err::<LifecycleRecord, Error>(
                Error::ReceiptMismatch,
            ))
            &&& (ready && rec.delivered_at is None ==> r == Err::<LifecycleRecord, Error>(
                Error::TerminalStateMismatch,
            ))
            &&& (ready && rec.delivered_at is Some && rec.read_at is Some ==> r == Err::<
                LifecycleRecord,
                Error,
            >(Error::AlreadyRead))
            &&& (ready && rec.delivered_at is Some && rec.read_at is None && !(rec.terminal is Open
                || rec.terminal is Delivered || rec.terminal is Read) ==> r == Err::<
                LifecycleRecord,
                Error,
            >(Error::TerminalStateMismatch))
        }),
{
}

/// No invocation brings a record that has a postage outcome back into
/// flight: it never becomes open, delivered or read again.
pub proof fn law_outcomes_never_return_to_flight(
    s: LifecycleState,
    message_id: Bytes32,
    owner: Address,
    sender: Address,
    recipient: Address,
    amount: i128,
    verified: bool,
    receipt_required: bool,
    decision: PolicyDecision,
    now: u64,
    postage: Postage,
    terminal: LifecycleTerminal,
    receipt: ReceiptState,
    config: LifecycleConfig,
)
    ensures
        stays_out_of_flight(s, spec_initialize(s, config).0),
        stays_out_of_flight(
            s,
            spec_bind(
                s,
                message_id,
                owner,
                sender,
                recipient,
                amount,
                verified,
                receipt_required,
                decision,
                now,
            ).0,
        ),
        stays_out_of_flight(s, spec_verify_terminal(s, message_id, postage, terminal).0),
        stays_out_of_flight(s, spec_verify_dispute(s, message_id, postage).0),
        stays_out_of_flight(s, spec_verify_expire(s, message_id, postage).0),
        stays_out_of_flight(s, spec_verify_reclaim(s, message_id, postage).0),
        stays_out_of_flight(s, spec_verify_delivered(s, message_id, receipt).0),
        stays_out_of_flight(s, spec_verify_read(s, message_id, receipt, now).0),
{
}

} // verus!
