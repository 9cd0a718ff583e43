use vstd::prelude::*;
use crate::types::{
    Address, Bytes32, Error, LifecycleAction, LifecycleConfig, LifecycleEvent, LifecycleRecord,
    LifecycleTerminal, PolicyDecision, Postage, ReceiptState,
};
use crate::rules::{
    core_matches, is_postage_outcome, policy_admits, receipt_matches, terminal_action,
    transition_allowed,
};

verus! {

/// The abstract state of the contract: its configuration, the record of each
/// bound message, the events published so far, and the addresses whose
/// authorization the latest state-changing invocation required.
pub struct LifecycleState {
    pub config: Option<LifecycleConfig>,
    pub records: Map<Bytes32, LifecycleRecord>,
    pub events: Seq<LifecycleEvent>,
    pub auths: Seq<Address>,
}

/// The invariant every stored record keeps.
pub open spec fn record_consistent(r: LifecycleRecord) -> bool {
    &&& r.owner == r.recipient
    &&& (r.delivered_at is Some <==> r.payload_hash is Some)
    &&& (r.delivered_at is Some <==> r.protocol_version is Some)
    &&& (r.read_at is Some ==> r.delivered_at is Some)
    &&& (r.terminal is Open ==> r.delivered_at is None)
    &&& (r.terminal is Delivered ==> r.delivered_at is Some)
    &&& (r.terminal is Read ==> r.read_at is Some)
    &&& (r.receipt_required && is_postage_outcome(r.terminal) ==> r.delivered_at is Some)
}

/// Every stored record is kept under its own message id and is consistent.
pub open spec fn state_consistent(s: LifecycleState) -> bool {
    forall|id: Bytes32|
        #[trigger] s.records.contains_key(id) ==> s.records[id].message_id == id
            && record_consistent(s.records[id])
}

/// The outcome of an invocation: the state after it and its answer.
pub type Outcome = (LifecycleState, Result<LifecycleRecord, Error>);

/// An invocation that is refused with `e`, having required `auths`:
/// configuration, records and events stay as they were.
pub open spec fn refuse(s: LifecycleState, auths: Seq<Address>, e: Error) -> Outcome {
    (LifecycleState { auths, ..s }, Err(e))
}

/// An invocation that stores `record` for `message_id` and publishes it under `action`.
pub open spec fn commit(
    s: LifecycleState,
    auths: Seq<Address>,
    message_id: Bytes32,
    action: LifecycleAction,
    record: LifecycleRecord,
) -> Outcome {
    (
        LifecycleState {
            config: s.config,
            records: s.records.insert(message_id, record),
            events: s.events.push(LifecycleEvent { action, message_id, record }),
            auths,
        },
        Ok(record),
    )
}

/// `initialize`: stores the configuration once.
pub open spec fn spec_initialize(s: LifecycleState, config: LifecycleConfig) -> (
    LifecycleState,
    Result<(), Error>,
) {
    if s.config is Some {
        (LifecycleState { auths: Seq::empty(), ..s }, Err(Error::AlreadyInitialized))
    } else {
        (LifecycleState { config: Some(config), auths: Seq::empty(), ..s }, Ok(()))
    }
}

/// `config`: the stored configuration.
pub open spec fn spec_config(s: LifecycleState) -> Result<LifecycleConfig, Error> {
    match s.config {
        Some(c) => Ok(c),
        None => Err(Error::NotInitialized),
    }
}

/// `get`: the record of a message.
pub open spec fn spec_get(s: LifecycleState, message_id: Bytes32) -> Result<LifecycleRecord, Error> {
    if s.records.contains_key(message_id) {
        Ok(s.records[message_id])
    } else {
        Err(Error::MissingLifecycle)
    }
}

/// The question the policies contract is asked when a message is bound.
#[derive(Clone, Copy, Debug, PartialEq, Eq)]
pub struct PolicyQuery {
    pub policies: Address,
    pub owner: Address,
    pub sender: Address,
    pub verified: bool,
    pub postage: i128,
    pub receipt_required: bool,
}

/// Whether binding reaches the policies contract, and with which question.
pub open spec fn spec_policy_query(
    s: LifecycleState,
    message_id: Bytes32,
    owner: Address,
    sender: Address,
    recipient: Address,
    amount: i128,
    verified: bool,
    receipt_required: bool,
) -> Result<PolicyQuery, Error> {
    if owner != recipient {
        Err(Error::PostageMismatch)
    } else if s.records.contains_key(message_id) {
        Err(Error::DuplicateLifecycle)
    } else if s.config is None {
        Err(Error::NotInitialized)
    } else {
        Ok(
            PolicyQuery {
                policies: s.config->0.policies,
                owner,
                sender,
                verified,
                postage: amount,
                receipt_required,
            },
        )
    }
}

/// The record a newly bound message starts with.
pub open spec fn fresh_record(
    message_id: Bytes32,
    owner: Address,
    sender: Address,
    recipient: Address,
    amount: i128,
    verified: bool,
    receipt_required: bool,
    decision: PolicyDecision,
    now: u64,
) -> LifecycleRecord {
    LifecycleRecord {
        message_id,
        owner,
        sender,
        recipient,
        amount,
        verified,
        receipt_required,
        policy_version: decision.version,
        decision_reason: decision.reason,
        payload_hash: None,
        protocol_version: None,
        delivered_at: None,
        read_at: None,
        terminal: LifecycleTerminal::Open,
        bound_at: now,
    }
}

/// `bind`: the owner must be the recipient; the sender authorizes; the
/// message must not be bound yet; the contract must be configured; the
/// policies contract, whose answer is `decision`, must admit the postage.
pub open spec fn spec_bind(
    s: LifecycleState,
    message_id: Bytes32,
    owner: Address,
    sender: Address,
    recipient: Address,
    amount: i128,
    verified: bool,
    receipt_required: bool,
    decision: PolicyDecision,
    now: u64,
) -> Outcome {
    if owner != recipient {
        refuse(s, Seq::empty(), Error::PostageMismatch)
    } else if s.records.contains_key(message_id) {
        refuse(s, seq![sender], Error::DuplicateLifecycle)
    } else if s.config is None {
        refuse(s, seq![sender], Error::NotInitialized)
    } else if !policy_admits(decision, amount) {
        refuse(s, seq![sender], Error::PolicyRejected)
    } else {
        commit(
            s,
            seq![sender],
            message_id,
            LifecycleAction::Bind,
            fresh_record(
                message_id,
                owner,
                sender,
                recipient,
                amount,
                verified,
                receipt_required,
                decision,
                now,
            ),
        )
    }
}

/// Moving a record to a postage outcome, on the word of the postage contract.
pub open spec fn spec_verify_terminal(
    s: LifecycleState,
    message_id: Bytes32,
    postage: Postage,
    terminal: LifecycleTerminal,
) -> Outcome {
    match s.config {
        None => refuse(s, Seq::empty(), Error::NotInitialized),
        Some(config) => {
            let auths = seq![config.postage];
            if !s.records.contains_key(message_id) {
                refuse(s, auths, Error::MissingLifecycle)
            } else {
                let record = s.records[message_id];
                if !core_matches(record, message_id, postage.sender, postage.recipient) {
                    refuse(s, auths, Error::PostageMismatch)
                } else if record.amount != postage.amount {
                    refuse(s, auths, Error::PostageMismatch)
                } else if !transition_allowed(record.terminal, terminal) {
                    refuse(s, auths, Error::TerminalStateMismatch)
                } else if record.receipt_required && record.delivered_at is None {
                    refuse(s, auths, Error::TerminalStateMismatch)
                } else {
                    commit(
                        s,
                        auths,
                        message_id,
                        terminal_action(terminal),
                        LifecycleRecord { terminal, ..record },
                    )
                }
            }
        },
    }
}

/// `verify_dispute`: only a pending or expired postage can be disputed.
pub open spec fn spec_verify_dispute(s: LifecycleState, message_id: Bytes32, postage: Postage) -> Outcome {
    if !(postage.status is Pending || postage.status is Expired) {
        refuse(s, Seq::empty(), Error::PostageMismatch)
    } else {
        spec_verify_terminal(s, message_id, postage, LifecycleTerminal::Disputed)
    }
}

/// `verify_expire`: only a pending postage can expire.
pub open spec fn spec_verify_expire(s: LifecycleState, message_id: Bytes32, postage: Postage) -> Outcome {
    if !(postage.status is Pending) {
        refuse(s, Seq::empty(), Error::PostageMismatch)
    } else {
        spec_verify_terminal(s, message_id, postage, LifecycleTerminal::Expired)
    }
}

/// `verify_reclaim`: a settled, refunded or reclaimed postage cannot be reclaimed.
pub open spec fn spec_verify_reclaim(s: LifecycleState, message_id: Bytes32, postage: Postage) -> Outcome {
    if postage.status is Settled || postage.status is Refunded || postage.status is Reclaimed {
        refuse(s, Seq::empty(), Error::PostageMismatch)
    } else {
        spec_verify_terminal(s, message_id, postage, LifecycleTerminal::Reclaimed)
    }
}

/// `verify_delivered`: records the first delivery receipt of a message.
pub open spec fn spec_verify_delivered(
    s: LifecycleState,
    message_id: Bytes32,
    receipt: ReceiptState,
) -> Outcome {
    match s.config {
        None => refuse(s, Seq::empty(), Error::NotInitialized),
        Some(config) => {
            let auths = seq![config.receipts];
            if !s.records.contains_key(message_id) {
                refuse(s, auths, Error::MissingLifecycle)
            } else {
                let record = s.records[message_id];
                if !core_matches(record, message_id, receipt.sender, receipt.recipient) {
                    refuse(s, auths, Error::PostageMismatch)
                } else if !receipt_matches(record, receipt) {
                    refuse(s, auths, Error::ReceiptMismatch)
                } else if record.delivered_at is Some {
                    refuse(s, auths, Error::AlreadyDelivered)
                } else if record.terminal is Read {
                    refuse(s, auths, Error::AlreadyRead)
                } else if !(record.terminal is Open || record.terminal is Delivered) {
                    refuse(s, auths, Error::TerminalStateMismatch)
                } else {
                    commit(
                        s,
                        auths,
                        message_id,
                        LifecycleAction::Delivered,
                        LifecycleRecord {
                            delivered_at: Some(receipt.delivered_at),
                            payload_hash: Some(receipt.payload_hash),
                            protocol_version: Some(receipt.protocol_version),
                            terminal: LifecycleTerminal::Delivered,
                            ..record
                        },
                    )
                }
            }
        },
    }
}

/// `verify_read`: records, at time `now`, that a delivered message was read.
pub open spec fn spec_verify_read(
    s: LifecycleState,
    message_id: Bytes32,
    receipt: ReceiptState,
    now: u64,
) -> Outcome {
    match s.config {
        None => refuse(s, Seq::empty(), Error::NotInitialized),
        Some(config) => {
            let auths = seq![config.receipts];
            if !s.records.contains_key(message_id) {
                refuse(s, auths, Error::MissingLifecycle)
            } else {
                let record = s.records[message_id];
                if !core_matches(record, message_id, receipt.sender, receipt.recipient) {
                    refuse(s, auths, Error::PostageMismatch)
                } else if !receipt_matches(record, receipt) {
                    refuse(s, auths, Error::ReceiptMismatch)
                } else if record.delivered_at is None {
                    refuse(s, auths, Error::TerminalStateMismatch)
                } else if record.read_at is Some {
                    refuse(s, auths, Error::AlreadyRead)
                } else if !(record.terminal is Open || record.terminal is Delivered
                    || record.terminal is Read) {
                    refuse(s, auths, Error::TerminalStateMismatch)
                } else {
                    commit(
                        s,
                        auths,
                        message_id,
                        LifecycleAction::Read,
                        LifecycleRecord {
                            read_at: Some(now),
                            terminal: LifecycleTerminal::Read,
                            ..record
                        },
                    )
                }
            }
        },
    }
}

} // verus!
