use vstd::prelude::*;

verus! {

/// A 32-byte value: a message id or a payload hash.
#[derive(Clone, Copy, Debug, PartialEq, Eq)]
pub struct Bytes32 {
    pub bytes: [u8; 32],
}

impl Bytes32 {
    /// Byte-wise equality.
    pub fn equals(&self, other: &Bytes32) -> (r: bool)
        ensures
            r == (*self == *other),
    {
        let mut i: usize = 0;
        while i < 32
            invariant
                i <= 32,
                forall|j: int| 0 <= j < i ==> self.bytes[j] == other.bytes[j],
            decreases 32 - i,
        {
            if self.bytes[i] != other.bytes[i] {
                return false;
            }
            i = i + 1;
        }
        assert(self.bytes =~= other.bytes);
        true
    }
}

/// The two kinds of ledger address.
#[derive(Clone, Copy, Debug, PartialEq, Eq)]
pub enum AddressKind {
    /// An account, named by its Ed25519 public key.
    Account,
    /// A contract, named by its contract id hash.
    Contract,
}

/// A ledger address: an account or a contract, with its 32-byte key.
#[derive(Clone, Copy, Debug, PartialEq, Eq)]
pub struct Address {
    pub kind: AddressKind,
    pub key: [u8; 32],
}

impl Address {
    /// Two addresses are the same when their kinds and keys are.
    pub fn equals(&self, other: &Address) -> (r: bool)
        ensures
            r == (*self == *other),
    {
        let same_kind = match (self.kind, other.kind) {
            (AddressKind::Account, AddressKind::Account) => true,
            (AddressKind::Contract, AddressKind::Contract) => true,
            _ => false,
        };
        if !same_kind {
            return false;
        }
        let a = Bytes32 { bytes: self.key };
        let b = Bytes32 { bytes: other.key };
        a.equals(&b)
    }
}

/// The status of a postage escrow, as reported by the postage contract.
#[derive(Clone, Copy, Debug, PartialEq, Eq)]
pub enum PostageStatus {
    Pending,
    Expired,
    Disputed,
    Settled,
    Refunded,
    Reclaimed,
}

/// Where a message's lifecycle stands.
#[derive(Clone, Copy, Debug, PartialEq, Eq)]
pub enum LifecycleTerminal {
    Open,
    Delivered,
    Read,
    Settled,
    Refunded,
    Disputed,
    Expired,
    Reclaimed,
}

/// The reason a policy decision was taken, as the code the policies
/// contract reported it with.
#[derive(Clone, Copy, Debug, PartialEq, Eq)]
pub struct PolicyReason {
    pub code: u32,
}

/// The answer of the policies contract on whether a mailbox accepts a message.
#[derive(Clone, Copy, Debug, PartialEq, Eq)]
pub struct PolicyDecision {
    pub allowed: bool,
    pub required_postage: i128,
    pub version: u32,
    pub reason: PolicyReason,
}

/// The contracts this lifecycle contract trusts.
#[derive(Clone, Copy, Debug, PartialEq, Eq)]
pub struct LifecycleConfig {
    pub policies: Address,
    pub postage: Address,
    pub receipts: Address,
}

/// The postage escrow of a message, as reported by the postage contract.
#[derive(Clone, Copy, Debug, PartialEq, Eq)]
pub struct Postage {
    pub sender: Address,
    pub recipient: Address,
    pub amount: i128,
    pub fee: i128,
    pub created_at: u64,
    pub expires_at: u64,
    pub dispute_until: u64,
    pub status: PostageStatus,
}

/// A delivery receipt, as reported by the receipts contract.
#[derive(Clone, Copy, Debug, PartialEq, Eq)]
pub struct ReceiptState {
    pub message_id: Bytes32,
    pub payload_hash: Bytes32,
    pub protocol_version: u32,
    pub sender: Address,
    pub recipient: Address,
    pub delivered_at: u64,
    pub read_at: Option<u64>,
}

/// What the contract knows of one message.
#[derive(Clone, Copy, Debug, PartialEq, Eq)]
pub struct LifecycleRecord {
    pub message_id: Bytes32,
    pub owner: Address,
    pub sender: Address,
    pub recipient: Address,
    pub amount: i128,
    pub verified: bool,
    pub receipt_required: bool,
    pub policy_version: u32,
    pub decision_reason: PolicyReason,
    pub payload_hash: Option<Bytes32>,
    pub protocol_version: Option<u32>,
    pub delivered_at: Option<u64>,
    pub read_at: Option<u64>,
    pub terminal: LifecycleTerminal,
    pub bound_at: u64,
}

/// The action an event reports.
#[derive(Clone, Copy, Debug, PartialEq, Eq)]
pub enum LifecycleAction {
    Bind,
    Open,
    Delivered,
    Read,
    Settle,
    Refund,
    Dispute,
    Expire,
    Reclaim,
}

/// The symbol under which an action is published.
pub open spec fn action_symbol(action: LifecycleAction) -> Seq<char> {
    match action {
        LifecycleAction::Bind => "bind"@,
        LifecycleAction::Open => "open"@,
        LifecycleAction::Delivered => "delivered"@,
        LifecycleAction::Read => "read"@,
        LifecycleAction::Settle => "settle"@,
        LifecycleAction::Refund => "refund"@,
        LifecycleAction::Dispute => "dispute"@,
        LifecycleAction::Expire => "expire"@,
        LifecycleAction::Reclaim => "reclaim"@,
    }
}

impl LifecycleAction {
    /// The symbol under which this action is published.
    pub fn symbol(&self) -> (r: &'static str)
        ensures
            r@ == action_symbol(*self),
    {
        match self {
            LifecycleAction::Bind => "bind",
            LifecycleAction::Open => "open",
            LifecycleAction::Delivered => "delivered",
            LifecycleAction::Read => "read",
            LifecycleAction::Settle => "settle",
            LifecycleAction::Refund => "refund",
            LifecycleAction::Dispute => "dispute",
            LifecycleAction::Expire => "expire",
            LifecycleAction::Reclaim => "reclaim",
        }
    }
}

/// The topic every lifecycle event is published under, ahead of its action.
pub open spec fn event_topic() -> Seq<char> {
    "lifecycle"@
}

/// An event published on every change of a record.
#[derive(Clone, Copy, Debug, PartialEq, Eq)]
pub struct LifecycleEvent {
    pub action: LifecycleAction,
    pub message_id: Bytes32,
    pub record: LifecycleRecord,
}

impl LifecycleEvent {
    /// The first topic of every lifecycle event.
    pub fn topic(&self) -> (r: &'static str)
        ensures
            r@ == event_topic(),
    {
        "lifecycle"
    }
}

/// The errors the contract answers with.
#[derive(Clone, Copy, Debug, PartialEq, Eq)]
pub enum Error {
    AlreadyInitialized,
    NotInitialized,
    UnauthorizedContract,
    PolicyRejected,
    PolicyVersionMismatch,
    PostageMismatch,
    ReceiptMismatch,
    MissingLifecycle,
    TerminalStateMismatch,
    DuplicateLifecycle,
    AlreadyDelivered,
    AlreadyRead,
}

/// The number each error is reported with.
pub open spec fn error_code(e: Error) -> u32 {
    match e {
        Error::AlreadyInitialized => 1,
        Error::NotInitialized => 2,
        Error::UnauthorizedContract => 3,
        Error::PolicyRejected => 4,
        Error::PolicyVersionMismatch => 5,
        Error::PostageMismatch => 6,
        Error::ReceiptMismatch => 7,
        Error::MissingLifecycle => 8,
        Error::TerminalStateMismatch => 9,
        Error::DuplicateLifecycle => 10,
        Error::AlreadyDelivered => 11,
        Error::AlreadyRead => 12,
    }
}

impl Error {
    /// The number this error is reported with.
    pub fn code(&self) -> (r: u32)
        ensures
            r == error_code(*self),
    {
        match self {
            Error::AlreadyInitialized => 1,
            Error::NotInitialized => 2,
            Error::UnauthorizedContract => 3,
            Error::PolicyRejected => 4,
            Error::PolicyVersionMismatch => 5,
            Error::PostageMismatch => 6,
            Error::ReceiptMismatch => 7,
            Error::MissingLifecycle => 8,
            Error::TerminalStateMismatch => 9,
            Error::DuplicateLifecycle => 10,
            Error::AlreadyDelivered => 11,
            Error::AlreadyRead => 12,
        }
    }
}

} // verus!
