use vstd::prelude::*;
use crate::types::{
    Address, Bytes32, Error, LifecycleAction, LifecycleRecord, LifecycleTerminal, PolicyDecision,
    ReceiptState,
};
use crate::contract::LifecycleContract;

verus! {

/// The stages a message passes through before its postage has an outcome.
pub open spec fn is_in_flight(t: LifecycleTerminal) -> bool {
    t is Open || t is Delivered || t is Read
}

/// The outcomes of the postage escrow a record can be moved to.
pub open spec fn is_postage_outcome(t: LifecycleTerminal) -> bool {
    !is_in_flight(t)
}

/// Which postage outcome may follow which stage: a message in flight may
/// take any outcome; an expired one may still be disputed or reclaimed; a
/// disputed one may still be refunded or reclaimed; settled, refunded and
/// reclaimed messages are final.  Nothing leads back into flight.
pub open spec fn transition_allowed(current: LifecycleTerminal, next: LifecycleTerminal) -> bool {
    match next {
        LifecycleTerminal::Settled => is_in_flight(current),
        LifecycleTerminal::Refunded => is_in_flight(current) || current is Disputed,
        LifecycleTerminal::Disputed => is_in_flight(current) || current is Expired,
        LifecycleTerminal::Expired => is_in_flight(current),
        LifecycleTerminal::Reclaimed => is_in_flight(current) || current is Expired
            || current is Disputed,
        _ => false,
    }
}

/// The action under which a move to a stage is published.
pub open spec fn terminal_action(t: LifecycleTerminal) -> LifecycleAction {
    match t {
        LifecycleTerminal::Open => LifecycleAction::Open,
        LifecycleTerminal::Delivered => LifecycleAction::Delivered,
        LifecycleTerminal::Read => LifecycleAction::Read,
        LifecycleTerminal::Settled => LifecycleAction::Settle,
        LifecycleTerminal::Refunded => LifecycleAction::Refund,
        LifecycleTerminal::Disputed => LifecycleAction::Dispute,
        LifecycleTerminal::Expired => LifecycleAction::Expire,
        LifecycleTerminal::Reclaimed => LifecycleAction::Reclaim,
    }
}

/// A record belongs to the given message, sender and recipient.
pub open spec fn core_matches(
    record: LifecycleRecord,
    message_id: Bytes32,
    sender: Address,
    recipient: Address,
) -> bool {
    &&& record.message_id == message_id
    &&& record.sender == sender
    &&& record.recipient == recipient
}

/// A receipt agrees with a record: same message and parties, and the same
/// payload hash and protocol version where the record already holds them.
pub open spec fn receipt_matches(record: LifecycleRecord, receipt: ReceiptState) -> bool {
    &&& core_matches(record, receipt.message_id, receipt.sender, receipt.recipient)
    &&& (record.payload_hash matches Some(h) ==> h == receipt.payload_hash)
    &&& (record.protocol_version matches Some(v) ==> v == receipt.protocol_version)
}

/// A policy decision admits a message with the given postage.
pub open spec fn policy_admits(decision: PolicyDecision, postage: i128) -> bool {
    decision.allowed && decision.required_postage <= postage
}

impl LifecycleContract {
    /// Whether a record at stage `current` may move to the outcome `next`.
    pub fn can_transition(current: LifecycleTerminal, next: LifecycleTerminal) -> (r: bool)
        ensures
            r == transition_allowed(current, next),
    {
        let in_flight = matches!(
            current,
            LifecycleTerminal::Open | LifecycleTerminal::Delivered | LifecycleTerminal::Read
        );
        match next {
            LifecycleTerminal::Settled => in_flight,
            LifecycleTerminal::Refunded => in_flight || matches!(
                current,
                LifecycleTerminal::Disputed
            ),
            LifecycleTerminal::Disputed => in_flight || matches!(
                current,
                LifecycleTerminal::Expired
            ),
            LifecycleTerminal::Expired => in_flight,
            LifecycleTerminal::Reclaimed => in_flight || matches!(
                current,
                LifecycleTerminal::Expired | LifecycleTerminal::Disputed
            ),
            LifecycleTerminal::Open | LifecycleTerminal::Delivered | LifecycleTerminal::Read => {
                false
            },
        }
    }

    /// The action under which a move to `terminal` is published.
    pub fn terminal_symbol(terminal: LifecycleTerminal) -> (r: LifecycleAction)
        ensures
            r == terminal_action(terminal),
    {
        match terminal {
            LifecycleTerminal::Open => LifecycleAction::Open,
            LifecycleTerminal::Delivered => LifecycleAction::Delivered,
            LifecycleTerminal::Read => LifecycleAction::Read,
            LifecycleTerminal::Settled => LifecycleAction::Settle,
            LifecycleTerminal::Refunded => LifecycleAction::Refund,
            LifecycleTerminal::Disputed => LifecycleAction::Dispute,
            LifecycleTerminal::Expired => LifecycleAction::Expire,
            LifecycleTerminal::Reclaimed => LifecycleAction::Reclaim,
        }
    }

    /// Checks that a record belongs to the given message, sender and recipient.
    pub fn assert_core_match(
        record: &LifecycleRecord,
        message_id: &Bytes32,
        sender: &Address,
        recipient: &Address,
    ) -> (r: Result<(), Error>)
        ensures
            r is Ok <==> core_matches(*record, *message_id, *sender, *recipient),
            r is Err ==> r == Err::<(), Error>(Error::PostageMismatch),
    {
        if !record.message_id.equals(message_id) || !record.sender.equals(sender)
            || !record.recipient.equals(recipient) {
            return Err(Error::PostageMismatch);
        }
        Ok(())
    }

    /// Checks that a receipt agrees with a record.
    pub fn assert_receipt_match(record: &LifecycleRecord, receipt: &ReceiptState) -> (r: Result<
        (),
        Error,
    >)
        ensures
            r is Ok <==> receipt_matches(*record, *receipt),
            r is Err ==> r == Err::<(), Error>(Error::ReceiptMismatch),
    {
        if !record.message_id.equals(&receipt.message_id) || !record.sender.equals(
            &receipt.sender,
        ) || !record.recipient.equals(&receipt.recipient) {
            return Err(Error::ReceiptMismatch);
        }
        if let Some(payload_hash) = &record.payload_hash {
            if !payload_hash.equals(&receipt.payload_hash) {
                return Err(Error::ReceiptMismatch);
            }
        }
        if let Some(protocol_version) = record.protocol_version {
            if protocol_version != receipt.protocol_version {
                return Err(Error::ReceiptMismatch);
            }
        }
        Ok(())
    }

    /// Applies the answer of the policies contract to a message carrying
    /// `postage`: the message is admitted when the policy allows it and asks
    /// for no more postage than it carries.
    pub fn evaluate_policy(decision: PolicyDecision, postage: i128) -> (r: Result<
        PolicyDecision,
        Error,
    >)
        ensures
            policy_admits(decision, postage) ==> r == Ok::<PolicyDecision, Error>(decision),
            !policy_admits(decision, postage) ==> r == Err::<PolicyDecision, Error>(
                Error::PolicyRejected,
            ),
    {
        if !decision.allowed {
            return Err(Error::PolicyRejected);
        }
        if decision.required_postage > postage {
            return Err(Error::PolicyRejected);
        }
        Ok(decision)
    }
}

} // verus!
