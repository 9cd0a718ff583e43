use lifecycle::contract::LifecycleContract;
use lifecycle::types::{
    Address, AddressKind, Bytes32, Error, LifecycleRecord, LifecycleTerminal, PolicyDecision,
    PolicyReason, Postage, PostageStatus, ReceiptState,
};

fn hash(byte: u8) -> Bytes32 {
    Bytes32 { bytes: [byte; 32] }
}

fn account(byte: u8) -> Address {
    Address { kind: AddressKind::Account, key: [byte; 32] }
}

fn contract_address(byte: u8) -> Address {
    Address { kind: AddressKind::Contract, key: [byte; 32] }
}

/// The answer of a policies contract whose mailbox policy accepts unknown
/// senders, requires neither verification nor receipts, and asks no postage.
fn open_policy() -> PolicyDecision {
    PolicyDecision { allowed: true, required_postage: 0, version: 1, reason: PolicyReason { code: 0 } }
}

struct Setup {
    client: LifecycleContract,
    owner: Address,
    sender: Address,
    recipient: Address,
}

const NOW: u64 = 42;

fn setup() -> Setup {
    let owner = account(10);
    let sender = account(11);
    // `bind` requires the mailbox owner to be the recipient.
    let recipient = owner;
    let policies = contract_address(20);
    let postage = contract_address(21);
    let receipts = contract_address(22);
    let mut client = LifecycleContract::new();
    client.initialize(policies, postage, receipts).unwrap();
    Setup { client, owner, sender, recipient }
}

fn bind_default(s: &mut Setup, message_id: Bytes32) -> Result<LifecycleRecord, Error> {
    let (owner, sender, recipient) = (s.owner, s.sender, s.recipient);
    s.client.bind(message_id, owner, sender, recipient, 100, true, false, open_policy(), NOW)
}

fn receipt_for(s: &Setup, message_id: Bytes32) -> ReceiptState {
    ReceiptState {
        message_id,
        payload_hash: hash(2),
        protocol_version: 1,
        sender: s.sender,
        recipient: s.recipient,
        delivered_at: 100,
        read_at: None,
    }
}

fn postage_for(s: &Setup, status: PostageStatus) -> Postage {
    Postage {
        sender: s.sender,
        recipient: s.recipient,
        amount: 100,
        fee: 10,
        created_at: 42,
        expires_at: 100,
        dispute_until: 100,
        status,
    }
}

#[test]
fn initialize_sets_config() {
    let policies = contract_address(20);
    let postage = contract_address(21);
    let receipts = contract_address(22);
    let mut client = LifecycleContract::new();
    client.initialize(policies, postage, receipts).unwrap();

    let config = client.config().unwrap();
    assert_eq!(config.policies, policies);
    assert_eq!(config.postage, postage);
    assert_eq!(config.receipts, receipts);
}

#[test]
fn bind_creates_open_record() {
    let mut s = setup();
    let message_id = hash(1);

    let record = bind_default(&mut s, message_id).unwrap();
    assert_eq!(record.message_id, message_id);
    assert_eq!(record.owner, s.owner);
    assert_eq!(record.sender, s.sender);
    assert_eq!(record.recipient, s.recipient);
    assert_eq!(record.amount, 100);
    assert!(record.verified);
    assert!(!record.receipt_required);
    assert_eq!(record.terminal, LifecycleTerminal::Open);
    assert_eq!(record.bound_at, 42);
}

#[test]
fn bind_emits_event() {
    let mut s = setup();
    let message_id = hash(1);

    bind_default(&mut s, message_id).unwrap();

    let events = s.client.events();
    assert_eq!(events.len(), 1);
    let event = &events[0];
    assert_eq!(event.topic(), "lifecycle");
    assert_eq!(event.action.symbol(), "bind");
    assert_eq!(event.message_id, message_id);
}

#[test]
fn verify_delivered_transitions_to_delivered() {
    let mut s = setup();
    let message_id = hash(1);
    bind_default(&mut s, message_id).unwrap();

    let receipt = receipt_for(&s, message_id);
    let record = s.client.verify_delivered(message_id, receipt).unwrap();
    assert_eq!(record.terminal, LifecycleTerminal::Delivered);
    assert_eq!(record.delivered_at, Some(100));
}

#[test]
fn verify_read_transitions_to_read() {
    let mut s = setup();
    let message_id = hash(1);
    bind_default(&mut s, message_id).unwrap();

    let receipt = receipt_for(&s, message_id);
    s.client.verify_delivered(message_id, receipt).unwrap();

    let record = s.client.verify_read(message_id, receipt, 200).unwrap();
    assert_eq!(record.terminal, LifecycleTerminal::Read);
    assert_eq!(record.read_at, Some(200));
}

#[test]
fn verify_settle_transitions_to_settled() {
    let mut s = setup();
    let message_id = hash(1);
    bind_default(&mut s, message_id).unwrap();

    let postage = postage_for(&s, PostageStatus::Pending);
    let record = s.client.verify_settle(message_id, postage).unwrap();
    assert_eq!(record.terminal, LifecycleTerminal::Settled);
}

#[test]
fn duplicate_bind_fails() {
    let mut s = setup();
    let message_id = hash(1);
    bind_default(&mut s, message_id).unwrap();
    assert_eq!(bind_default(&mut s, message_id).unwrap_err(), Error::DuplicateLifecycle);
}

#[test]
fn get_returns_record() {
    let mut s = setup();
    let message_id = hash(1);
    let created = bind_default(&mut s, message_id).unwrap();

    let fetched = s.client.get(message_id).unwrap();
    assert_eq!(fetched, created);
}

#[test]
fn event_schema_is_stable() {
    let mut s = setup();
    let message_id = hash(1);
    bind_default(&mut s, message_id).unwrap();

    let event = &s.client.events()[0];
    assert_eq!(event.topic(), "lifecycle");
    assert_eq!(event.action.symbol(), "bind");
    assert_eq!(event.message_id.bytes, [1u8; 32]);
}
