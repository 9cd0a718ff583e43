use lifecycle::contract::LifecycleContract;
use lifecycle::types::LifecycleTerminal::{
    Delivered, Disputed, Expired, Open, Read, Reclaimed, Refunded, Settled,
};
use lifecycle::types::{
    Address, AddressKind, Bytes32, Error, LifecycleAction, LifecycleConfig, LifecycleRecord,
    LifecycleTerminal, PolicyDecision, PolicyReason, Postage, PostageStatus, ReceiptState,
};

fn hash(byte: u8) -> Bytes32 {
    Bytes32 { bytes: [byte; 32] }
}

fn account(byte: u8) -> Address {
    Address { kind: AddressKind::Account, key: [byte; 32] }
}

fn contract_address(byte: u8) -> Address {
    Address { kind: AddressKind::Contract, key: [byte; 32] }
}

fn policy(allowed: bool, required_postage: i128) -> PolicyDecision {
    PolicyDecision { allowed, required_postage, version: 7, reason: PolicyReason { code: 3 } }
}

const OWNER: u8 = 10;
const SENDER: u8 = 11;
const POLICIES: u8 = 20;
const POSTAGE: u8 = 21;
const RECEIPTS: u8 = 22;

fn configured() -> LifecycleContract {
    let mut c = LifecycleContract::new();
    c.initialize(contract_address(POLICIES), contract_address(POSTAGE), contract_address(RECEIPTS))
        .unwrap();
    c
}

fn bind(c: &mut LifecycleContract, id: u8, receipt_required: bool) -> Result<LifecycleRecord, Error> {
    c.bind(
        hash(id),
        account(OWNER),
        account(SENDER),
        account(OWNER),
        100,
        false,
        receipt_required,
        policy(true, 50),
        42,
    )
}

fn postage(status: PostageStatus) -> Postage {
    Postage {
        sender: account(SENDER),
        recipient: account(OWNER),
        amount: 100,
        fee: 1,
        created_at: 42,
        expires_at: 90,
        dispute_until: 120,
        status,
    }
}

fn receipt(id: u8) -> ReceiptState {
    ReceiptState {
        message_id: hash(id),
        payload_hash: hash(2),
        protocol_version: 1,
        sender: account(SENDER),
        recipient: account(OWNER),
        delivered_at: 100,
        read_at: None,
    }
}

#[test]
fn second_initialize_is_refused_and_keeps_config() {
    let mut c = configured();
    let r = c.initialize(account(1), account(2), account(3));
    assert_eq!(r, Err(Error::AlreadyInitialized));
    let config = c.config().unwrap();
    assert_eq!(
        config,
        LifecycleConfig {
            policies: contract_address(POLICIES),
            postage: contract_address(POSTAGE),
            receipts: contract_address(RECEIPTS),
        }
    );
    assert!(c.required_auths().is_empty());
}

#[test]
fn config_before_initialize_fails() {
    let c = LifecycleContract::new();
    assert_eq!(c.config(), Err(Error::NotInitialized));
}

#[test]
fn bind_before_initialize_fails() {
    let mut c = LifecycleContract::new();
    assert_eq!(bind(&mut c, 1, false), Err(Error::NotInitialized));
    assert_eq!(c.required_auths(), &vec![account(SENDER)]);
    assert!(c.events().is_empty());
}

#[test]
fn bind_requires_owner_to_be_recipient() {
    let mut c = configured();
    let r = c.bind(
        hash(1),
        account(OWNER),
        account(SENDER),
        account(12),
        100,
        false,
        false,
        policy(true, 0),
        42,
    );
    assert_eq!(r, Err(Error::PostageMismatch));
    assert!(c.required_auths().is_empty());
    assert_eq!(c.get(hash(1)), Err(Error::MissingLifecycle));
}

#[test]
fn bind_owner_check_comes_before_initialization() {
    let mut c = LifecycleContract::new();
    let r = c.bind(hash(1), account(OWNER), account(SENDER), account(12), 1, false, false, policy(true, 0), 1);
    assert_eq!(r, Err(Error::PostageMismatch));
}

#[test]
fn bind_rejected_by_policy() {
    let mut c = configured();
    let r = c.bind(hash(1), account(OWNER), account(SENDER), account(OWNER), 100, false, false, policy(false, 0), 42);
    assert_eq!(r, Err(Error::PolicyRejected));
    let r = c.bind(hash(1), account(OWNER), account(SENDER), account(OWNER), 100, false, false, policy(true, 101), 42);
    assert_eq!(r, Err(Error::PolicyRejected));
    assert!(c.events().is_empty());
    let r = c.bind(hash(1), account(OWNER), account(SENDER), account(OWNER), 100, false, false, policy(true, 100), 42);
    assert!(r.is_ok());
}

#[test]
fn bind_keeps_policy_decision_and_requires_sender() {
    let mut c = configured();
    let record = bind(&mut c, 1, true).unwrap();
    assert_eq!(record.policy_version, 7);
    assert_eq!(record.decision_reason, PolicyReason { code: 3 });
    assert_eq!(record.payload_hash, None);
    assert_eq!(record.protocol_version, None);
    assert_eq!(record.delivered_at, None);
    assert_eq!(record.read_at, None);
    assert!(record.receipt_required);
    assert_eq!(c.required_auths(), &vec![account(SENDER)]);
}

#[test]
fn get_missing_record_fails() {
    let c = configured();
    assert_eq!(c.get(hash(9)), Err(Error::MissingLifecycle));
}

#[test]
fn records_are_independent() {
    let mut c = configured();
    let first = bind(&mut c, 1, false).unwrap();
    bind(&mut c, 2, false).unwrap();
    c.verify_settle(hash(2), postage(PostageStatus::Pending)).unwrap();
    assert_eq!(c.get(hash(1)), Ok(first));
    assert_eq!(c.get(hash(2)).unwrap().terminal, LifecycleTerminal::Settled);
}

#[test]
fn settle_requires_postage_contract_and_matching_postage() {
    let mut c = configured();
    bind(&mut c, 1, false).unwrap();
    let mut p = postage(PostageStatus::Pending);
    p.amount = 99;
    assert_eq!(c.verify_settle(hash(1), p), Err(Error::PostageMismatch));
    assert_eq!(c.required_auths(), &vec![contract_address(POSTAGE)]);
    let mut p = postage(PostageStatus::Pending);
    p.sender = account(12);
    assert_eq!(c.verify_settle(hash(1), p), Err(Error::PostageMismatch));
    assert_eq!(c.verify_settle(hash(5), postage(PostageStatus::Pending)), Err(Error::MissingLifecycle));
    assert_eq!(c.events().len(), 1);
    assert_eq!(c.get(hash(1)).unwrap().terminal, LifecycleTerminal::Open);
}

#[test]
fn postage_outcome_without_config_fails() {
    let mut c = LifecycleContract::new();
    assert_eq!(c.verify_refund(hash(1), postage(PostageStatus::Pending)), Err(Error::NotInitialized));
    assert!(c.required_auths().is_empty());
}

#[test]
fn settled_is_final() {
    let mut c = configured();
    bind(&mut c, 1, false).unwrap();
    c.verify_settle(hash(1), postage(PostageStatus::Pending)).unwrap();
    assert_eq!(c.verify_settle(hash(1), postage(PostageStatus::Pending)), Err(Error::TerminalStateMismatch));
    assert_eq!(c.verify_refund(hash(1), postage(PostageStatus::Pending)), Err(Error::TerminalStateMismatch));
    assert_eq!(c.verify_dispute(hash(1), postage(PostageStatus::Pending)), Err(Error::TerminalStateMismatch));
    assert_eq!(c.verify_reclaim(hash(1), postage(PostageStatus::Pending)), Err(Error::TerminalStateMismatch));
    assert_eq!(c.verify_delivered(hash(1), receipt(1)), Err(Error::TerminalStateMismatch));
    assert_eq!(c.verify_read(hash(1), receipt(1), 50), Err(Error::TerminalStateMismatch));
    assert_eq!(c.get(hash(1)).unwrap().terminal, LifecycleTerminal::Settled);
    assert_eq!(c.events().len(), 2);
}

#[test]
fn dispute_then_refund() {
    let mut c = configured();
    bind(&mut c, 1, false).unwrap();
    let r = c.verify_dispute(hash(1), postage(PostageStatus::Pending)).unwrap();
    assert_eq!(r.terminal, LifecycleTerminal::Disputed);
    assert_eq!(c.verify_settle(hash(1), postage(PostageStatus::Disputed)), Err(Error::TerminalStateMismatch));
    assert_eq!(c.verify_expire(hash(1), postage(PostageStatus::Pending)), Err(Error::TerminalStateMismatch));
    let r = c.verify_refund(hash(1), postage(PostageStatus::Disputed)).unwrap();
    assert_eq!(r.terminal, LifecycleTerminal::Refunded);
    let actions: Vec<&str> = c.events().iter().map(|e| e.action.symbol()).collect();
    assert_eq!(actions, vec!["bind", "dispute", "refund"]);
}

#[test]
fn expire_then_dispute_then_reclaim() {
    let mut c = configured();
    bind(&mut c, 1, false).unwrap();
    assert_eq!(c.verify_expire(hash(1), postage(PostageStatus::Pending)).unwrap().terminal, LifecycleTerminal::Expired);
    assert_eq!(c.verify_dispute(hash(1), postage(PostageStatus::Expired)).unwrap().terminal, LifecycleTerminal::Disputed);
    assert_eq!(c.verify_reclaim(hash(1), postage(PostageStatus::Disputed)).unwrap().terminal, LifecycleTerminal::Reclaimed);
    assert_eq!(c.verify_refund(hash(1), postage(PostageStatus::Disputed)), Err(Error::TerminalStateMismatch));
}

#[test]
fn postage_status_prechecks() {
    let mut c = configured();
    bind(&mut c, 1, false).unwrap();
    assert_eq!(c.verify_dispute(hash(1), postage(PostageStatus::Settled)), Err(Error::PostageMismatch));
    assert!(c.required_auths().is_empty());
    assert_eq!(c.verify_dispute(hash(1), postage(PostageStatus::Disputed)), Err(Error::PostageMismatch));
    assert_eq!(c.verify_expire(hash(1), postage(PostageStatus::Expired)), Err(Error::PostageMismatch));
    assert_eq!(c.verify_reclaim(hash(1), postage(PostageStatus::Refunded)), Err(Error::PostageMismatch));
    assert_eq!(c.verify_reclaim(hash(1), postage(PostageStatus::Reclaimed)), Err(Error::PostageMismatch));
    assert_eq!(c.verify_reclaim(hash(1), postage(PostageStatus::Settled)), Err(Error::PostageMismatch));
    // A missing record is reported only once the status passes.
    assert_eq!(c.verify_expire(hash(4), postage(PostageStatus::Pending)), Err(Error::MissingLifecycle));
    assert_eq!(c.get(hash(1)).unwrap().terminal, LifecycleTerminal::Open);
}

#[test]
fn reclaim_from_expired_status() {
    let mut c = configured();
    bind(&mut c, 1, false).unwrap();
    let r = c.verify_reclaim(hash(1), postage(PostageStatus::Expired)).unwrap();
    assert_eq!(r.terminal, LifecycleTerminal::Reclaimed);
    assert_eq!(c.events()[1].action, LifecycleAction::Reclaim);
}

#[test]
fn receipt_required_needs_delivery_before_outcome() {
    let mut c = configured();
    bind(&mut c, 1, true).unwrap();
    assert_eq!(c.verify_settle(hash(1), postage(PostageStatus::Pending)), Err(Error::TerminalStateMismatch));
    c.verify_delivered(hash(1), receipt(1)).unwrap();
    assert_eq!(c.required_auths(), &vec![contract_address(RECEIPTS)]);
    let r = c.verify_settle(hash(1), postage(PostageStatus::Pending)).unwrap();
    assert_eq!(r.terminal, LifecycleTerminal::Settled);
    assert_eq!(r.delivered_at, Some(100));
}

#[test]
fn delivery_is_recorded_once() {
    let mut c = configured();
    bind(&mut c, 1, false).unwrap();
    let r = c.verify_delivered(hash(1), receipt(1)).unwrap();
    assert_eq!(r.payload_hash, Some(hash(2)));
    assert_eq!(r.protocol_version, Some(1));
    let mut later = receipt(1);
    later.delivered_at = 150;
    assert_eq!(c.verify_delivered(hash(1), later), Err(Error::AlreadyDelivered));
    assert_eq!(c.get(hash(1)).unwrap().delivered_at, Some(100));
}

#[test]
fn receipt_must_match_record() {
    let mut c = configured();
    bind(&mut c, 1, false).unwrap();
    let mut wrong_sender = receipt(1);
    wrong_sender.sender = account(12);
    assert_eq!(c.verify_delivered(hash(1), wrong_sender), Err(Error::PostageMismatch));
    let mut wrong_id = receipt(1);
    wrong_id.message_id = hash(3);
    assert_eq!(c.verify_delivered(hash(1), wrong_id), Err(Error::ReceiptMismatch));
    c.verify_delivered(hash(1), receipt(1)).unwrap();
    let mut other_payload = receipt(1);
    other_payload.payload_hash = hash(8);
    assert_eq!(c.verify_read(hash(1), other_payload, 200), Err(Error::ReceiptMismatch));
    let mut other_version = receipt(1);
    other_version.protocol_version = 2;
    assert_eq!(c.verify_read(hash(1), other_version, 200), Err(Error::ReceiptMismatch));
    assert_eq!(c.get(hash(1)).unwrap().read_at, None);
}

#[test]
fn read_requires_delivery_and_happens_once() {
    let mut c = configured();
    bind(&mut c, 1, false).unwrap();
    assert_eq!(c.verify_read(hash(1), receipt(1), 200), Err(Error::TerminalStateMismatch));
    c.verify_delivered(hash(1), receipt(1)).unwrap();
    c.verify_read(hash(1), receipt(1), 200).unwrap();
    assert_eq!(c.verify_read(hash(1), receipt(1), 300), Err(Error::AlreadyRead));
    assert_eq!(c.verify_delivered(hash(1), receipt(1)), Err(Error::AlreadyDelivered));
    assert_eq!(c.get(hash(1)).unwrap().read_at, Some(200));
}

#[test]
fn read_message_can_still_settle() {
    let mut c = configured();
    bind(&mut c, 1, false).unwrap();
    c.verify_delivered(hash(1), receipt(1)).unwrap();
    c.verify_read(hash(1), receipt(1), 200).unwrap();
    let r = c.verify_settle(hash(1), postage(PostageStatus::Pending)).unwrap();
    assert_eq!(r.terminal, LifecycleTerminal::Settled);
    assert_eq!(r.read_at, Some(200));
    let actions: Vec<&str> = c.events().iter().map(|e| e.action.symbol()).collect();
    assert_eq!(actions, vec!["bind", "delivered", "read", "settle"]);
    assert_eq!(c.events()[3].record, r);
}

#[test]
fn receipt_checks_without_config_or_record() {
    let mut c = LifecycleContract::new();
    assert_eq!(c.verify_delivered(hash(1), receipt(1)), Err(Error::NotInitialized));
    assert_eq!(c.verify_read(hash(1), receipt(1), 1), Err(Error::NotInitialized));
    let mut c = configured();
    assert_eq!(c.verify_delivered(hash(1), receipt(1)), Err(Error::MissingLifecycle));
    assert_eq!(c.verify_read(hash(1), receipt(1), 1), Err(Error::MissingLifecycle));
}

#[test]
fn transition_table() {
    let all = [Open, Delivered, Read, Settled, Refunded, Disputed, Expired, Reclaimed];
    let allowed = |current: LifecycleTerminal, next: LifecycleTerminal| -> bool {
        let in_flight = matches!(current, Open | Delivered | Read);
        match next {
            Settled | Expired => in_flight,
            Refunded => in_flight || current == Disputed,
            Disputed => in_flight || current == Expired,
            Reclaimed => in_flight || current == Expired || current == Disputed,
            Open | Delivered | Read => false,
        }
    };
    for current in all {
        for next in all {
            assert_eq!(LifecycleContract::can_transition(current, next), allowed(current, next));
        }
    }
    assert!(!LifecycleContract::can_transition(Settled, Refunded));
    assert!(LifecycleContract::can_transition(Disputed, Reclaimed));
    assert!(!LifecycleContract::can_transition(Expired, Settled));
}

#[test]
fn terminal_symbols() {
    let names: Vec<&str> = [Open, Delivered, Read, Settled, Refunded, Disputed, Expired, Reclaimed]
        .iter()
        .map(|t| LifecycleContract::terminal_symbol(*t).symbol())
        .collect();
    assert_eq!(
        names,
        vec!["open", "delivered", "read", "settle", "refund", "dispute", "expire", "reclaim"]
    );
}

#[test]
fn error_codes() {
    let all = [
        Error::AlreadyInitialized,
        Error::NotInitialized,
        Error::UnauthorizedContract,
        Error::PolicyRejected,
        Error::PolicyVersionMismatch,
        Error::PostageMismatch,
        Error::ReceiptMismatch,
        Error::MissingLifecycle,
        Error::TerminalStateMismatch,
        Error::DuplicateLifecycle,
        Error::AlreadyDelivered,
        Error::AlreadyRead,
    ];
    let codes: Vec<u32> = all.iter().map(|e| e.code()).collect();
    assert_eq!(codes, (1..=12).collect::<Vec<u32>>());
}

#[test]
fn equality_of_keys() {
    assert!(hash(1).equals(&hash(1)));
    let mut h = hash(1);
    h.bytes[31] = 0;
    assert!(!hash(1).equals(&h));
    assert!(account(1).equals(&account(1)));
    assert!(!account(1).equals(&contract_address(1)));
    assert!(!account(1).equals(&account(2)));
}

#[test]
fn policy_query_names_the_question() {
    let mut c = configured();
    let q = c
        .policy_query(hash(1), account(OWNER), account(SENDER), account(OWNER), 100, true, false)
        .unwrap();
    assert_eq!(q.policies, contract_address(POLICIES));
    assert_eq!(q.owner, account(OWNER));
    assert_eq!(q.sender, account(SENDER));
    assert!(q.verified);
    assert_eq!(q.postage, 100);
    assert!(!q.receipt_required);
    assert_eq!(
        c.policy_query(hash(1), account(OWNER), account(SENDER), account(12), 100, true, false),
        Err(Error::PostageMismatch)
    );
    bind(&mut c, 1, false).unwrap();
    assert_eq!(
        c.policy_query(hash(1), account(OWNER), account(SENDER), account(OWNER), 100, true, false),
        Err(Error::DuplicateLifecycle)
    );
    let fresh = LifecycleContract::new();
    assert_eq!(
        fresh.policy_query(hash(1), account(OWNER), account(SENDER), account(OWNER), 100, true, false),
        Err(Error::NotInitialized)
    );
}

#[test]
fn evaluate_policy_decisions() {
    let d = policy(true, 10);
    assert_eq!(LifecycleContract::evaluate_policy(d, 10), Ok(d));
    assert_eq!(LifecycleContract::evaluate_policy(d, 9), Err(Error::PolicyRejected));
    assert_eq!(LifecycleContract::evaluate_policy(policy(false, 0), 10), Err(Error::PolicyRejected));
    assert_eq!(LifecycleContract::evaluate_policy(policy(true, -5), -5), Ok(policy(true, -5)));
}

#[test]
fn match_checks() {
    let mut c = configured();
    let record = bind(&mut c, 1, false).unwrap();
    assert_eq!(
        LifecycleContract::assert_core_match(&record, &hash(1), &account(SENDER), &account(OWNER)),
        Ok(())
    );
    assert_eq!(
        LifecycleContract::assert_core_match(&record, &hash(2), &account(SENDER), &account(OWNER)),
        Err(Error::PostageMismatch)
    );
    assert_eq!(
        LifecycleContract::assert_core_match(&record, &hash(1), &account(OWNER), &account(OWNER)),
        Err(Error::PostageMismatch)
    );
    assert_eq!(LifecycleContract::assert_receipt_match(&record, &receipt(1)), Ok(()));
    let mut r = receipt(1);
    r.recipient = account(SENDER);
    assert_eq!(LifecycleContract::assert_receipt_match(&record, &r), Err(Error::ReceiptMismatch));
}

#[test]
fn restored_contract_continues() {
    let mut c = configured();
    let record = bind(&mut c, 1, false).unwrap();
    let config = c.config().unwrap();
    let mut restored = LifecycleContract::from_storage(Some(config), Some(record)).unwrap();
    assert_eq!(restored.get(hash(1)), Ok(record));
    assert!(restored.events().is_empty());
    let r = restored.verify_expire(hash(1), postage(PostageStatus::Pending)).unwrap();
    assert_eq!(r.terminal, LifecycleTerminal::Expired);
    assert_eq!(restored.events().len(), 1);
    let empty = LifecycleContract::from_storage(None, None).unwrap();
    assert_eq!(empty.config(), Err(Error::NotInitialized));
}

#[test]
fn from_storage_refuses_inconsistent_records() {
    let mut c = configured();
    let record = bind(&mut c, 1, false).unwrap();
    let config = c.config().unwrap();
    let mut other_owner = record;
    other_owner.owner = account(SENDER);
    assert!(LifecycleContract::from_storage(Some(config), Some(other_owner)).is_none());
    let mut read_undelivered = record;
    read_undelivered.read_at = Some(5);
    assert!(LifecycleContract::from_storage(Some(config), Some(read_undelivered)).is_none());
    let mut delivered_open = record;
    delivered_open.delivered_at = Some(3);
    delivered_open.payload_hash = Some(hash(9));
    delivered_open.protocol_version = Some(1);
    assert!(LifecycleContract::from_storage(Some(config), Some(delivered_open)).is_none());
    let mut settled_unreceipted = record;
    settled_unreceipted.receipt_required = true;
    settled_unreceipted.terminal = LifecycleTerminal::Settled;
    assert!(LifecycleContract::from_storage(None, Some(settled_unreceipted)).is_none());
    settled_unreceipted.receipt_required = false;
    assert!(LifecycleContract::from_storage(None, Some(settled_unreceipted)).is_some());
}

#[test]
fn receipt_required_stays_unsettled_through_other_calls() {
    let mut c = configured();
    bind(&mut c, 1, true).unwrap();
    bind(&mut c, 2, false).unwrap();
    c.verify_delivered(hash(2), receipt(2)).unwrap();
    assert_eq!(c.verify_expire(hash(1), postage(PostageStatus::Pending)), Err(Error::TerminalStateMismatch));
    assert_eq!(c.verify_read(hash(1), receipt(1), 7), Err(Error::TerminalStateMismatch));
    assert_eq!(c.verify_dispute(hash(1), postage(PostageStatus::Pending)), Err(Error::TerminalStateMismatch));
    let mut wrong_sender = receipt(1);
    wrong_sender.sender = account(OWNER);
    assert_eq!(c.verify_delivered(hash(1), wrong_sender), Err(Error::PostageMismatch));
    let before = c.get(hash(1)).unwrap();
    assert_eq!(c.verify_settle(hash(1), postage(PostageStatus::Pending)), Err(Error::TerminalStateMismatch));
    assert_eq!(c.get(hash(1)), Ok(before));
    assert_eq!(before.terminal, LifecycleTerminal::Open);
    assert_eq!(before.delivered_at, None);
}
