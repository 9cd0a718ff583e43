use vstd::prelude::*;
use crate::types::{
    Address, Bytes32, Error, LifecycleAction, LifecycleConfig, LifecycleEvent, LifecycleRecord,
    LifecycleTerminal, PolicyDecision, Postage, PostageStatus, ReceiptState,
};
use crate::model::{
    LifecycleState, PolicyQuery, record_consistent, spec_bind, spec_config, spec_get,
    spec_initialize, spec_policy_query, spec_verify_delivered, spec_verify_dispute,
    spec_verify_expire, spec_verify_read, spec_verify_reclaim, spec_verify_terminal,
    state_consistent,
};
use crate::laws::law_consistency_is_kept;

verus! {

/// Some record in `records` belongs to `message_id`.
pub open spec fn has_id(records: Seq<LifecycleRecord>, message_id: Bytes32) -> bool {
    exists|i: int| 0 <= i < records.len() && (#[trigger] records[i]).message_id == message_id
}

/// No two records in `records` belong to the same message.
pub open spec fn ids_unique(records: Seq<LifecycleRecord>) -> bool {
    forall|i: int, j: int|
        0 <= i < records.len() && 0 <= j < records.len() && (#[trigger] records[i]).message_id
            == (#[trigger] records[j]).message_id ==> i == j
}

/// The records of a list, keyed by their message id.
pub open spec fn records_map(records: Seq<LifecycleRecord>) -> Map<Bytes32, LifecycleRecord> {
    Map::new(
        |id: Bytes32| has_id(records, id),
        |id: Bytes32|
            records[choose|i: int| 0 <= i < records.len() && (#[trigger] records[i]).message_id == id],
    )
}

proof fn lemma_map_at(records: Seq<LifecycleRecord>, i: int)
    requires
        ids_unique(records),
        0 <= i < records.len(),
    ensures
        records_map(records).contains_key(records[i].message_id),
        records_map(records)[records[i].message_id] == records[i],
{
    let id = records[i].message_id;
    assert(has_id(records, id));
    let j = choose|j: int| 0 <= j < records.len() && (#[trigger] records[j]).message_id == id;
    assert(records[j].message_id == records[i].message_id);
}

proof fn lemma_map_keys(records: Seq<LifecycleRecord>, id: Bytes32)
    requires
        records_map(records).contains_key(id),
    ensures
        records_map(records)[id].message_id == id,
{
}

proof fn lemma_map_push(records: Seq<LifecycleRecord>, record: LifecycleRecord)
    requires
        ids_unique(records),
        !has_id(records, record.message_id),
    ensures
        ids_unique(records.push(record)),
        records_map(records.push(record)) =~= records_map(records).insert(
            record.message_id,
            record,
        ),
{
    let s = records.push(record);
    assert forall|i: int, j: int|
        0 <= i < s.len() && 0 <= j < s.len() && (#[trigger] s[i]).message_id
            == (#[trigger] s[j]).message_id implies i == j by {
        if i < records.len() && j < records.len() {
            assert(records[i] == s[i] && records[j] == s[j]);
        } else if i < records.len() {
            assert(records[i] == s[i]);
        } else if j < records.len() {
            assert(records[j] == s[j]);
        }
    }
    let m = records_map(records).insert(record.message_id, record);
    assert forall|id: Bytes32| #[trigger] records_map(s).contains_key(id) <==> m.contains_key(id) by {
        if has_id(s, id) {
            let k = choose|k: int| 0 <= k < s.len() && (#[trigger] s[k]).message_id == id;
            if k < records.len() {
                assert(records[k] == s[k]);
            }
        }
        if records_map(records).contains_key(id) {
            let k = choose|k: int| 0 <= k < records.len() && (#[trigger] records[k]).message_id == id;
            assert(records[k] == s[k]);
        }
        if id == record.message_id {
            assert(s[records.len() as int] == record);
        }
    }
    assert forall|id: Bytes32| #[trigger] records_map(s).contains_key(id) implies records_map(s)[id]
        == m[id] by {
        let k = choose|k: int| 0 <= k < s.len() && (#[trigger] s[k]).message_id == id;
        lemma_map_at(s, k);
        if k < records.len() {
            assert(records[k] == s[k]);
            lemma_map_at(records, k);
        }
    }
}

proof fn lemma_map_update(records: Seq<LifecycleRecord>, i: int, record: LifecycleRecord)
    requires
        ids_unique(records),
        0 <= i < records.len(),
        records[i].message_id == record.message_id,
    ensures
        ids_unique(records.update(i, record)),
        records_map(records.update(i, record)) =~= records_map(records).insert(
            record.message_id,
            record,
        ),
{
    let s = records.update(i, record);
    assert forall|a: int, b: int|
        0 <= a < s.len() && 0 <= b < s.len() && (#[trigger] s[a]).message_id
            == (#[trigger] s[b]).message_id implies a == b by {
        assert(s[a].message_id == records[a].message_id);
        assert(s[b].message_id == records[b].message_id);
    }
    let m = records_map(records).insert(record.message_id, record);
    assert forall|id: Bytes32| #[trigger] records_map(s).contains_key(id) <==> m.contains_key(id) by {
        if has_id(s, id) {
            let k = choose|k: int| 0 <= k < s.len() && (#[trigger] s[k]).message_id == id;
            assert(records[k].message_id == s[k].message_id);
        }
        if has_id(records, id) {
            let k = choose|k: int| 0 <= k < records.len() && (#[trigger] records[k]).message_id == id;
            assert(records[k].message_id == s[k].message_id);
        }
        if id == record.message_id {
            assert(s[i] == record);
        }
    }
    assert forall|id: Bytes32| #[trigger] records_map(s).contains_key(id) implies records_map(s)[id]
        == m[id] by {
        let k = choose|k: int| 0 <= k < s.len() && (#[trigger] s[k]).message_id == id;
        lemma_map_at(s, k);
        if k != i {
            assert(records[k] == s[k]);
            lemma_map_at(records, k);
        }
    }
}

proof fn lemma_map_consistent(records: Seq<LifecycleRecord>)
    requires
        ids_unique(records),
        forall|i: int| 0 <= i < records.len() ==> record_consistent(#[trigger] records[i]),
    ensures
        forall|id: Bytes32| #[trigger]
            records_map(records).contains_key(id) ==> records_map(records)[id].message_id == id
                && record_consistent(records_map(records)[id]),
{
    assert forall|id: Bytes32| #[trigger] records_map(records).contains_key(id) implies records_map(
        records,
    )[id].message_id == id && record_consistent(records_map(records)[id]) by {
        let k = choose|k: int| 0 <= k < records.len() && (#[trigger] records[k]).message_id == id;
        lemma_map_at(records, k);
    }
}

/// Whether a record is consistent.
fn record_is_consistent(record: &LifecycleRecord) -> (r: bool)
    ensures
        r == record_consistent(*record),
{
    let delivered = record.delivered_at.is_some();
    let read = record.read_at.is_some();
    let (open, delivered_stage, read_stage) = match record.terminal {
        LifecycleTerminal::Open => (true, false, false),
        LifecycleTerminal::Delivered => (false, true, false),
        LifecycleTerminal::Read => (false, false, true),
        _ => (false, false, false),
    };
    let postage_outcome = !(open || delivered_stage || read_stage);
    &&& record.owner.equals(&record.recipient)
    &&& delivered == record.payload_hash.is_some()
    &&& delivered == record.protocol_version.is_some()
    &&& (!read || delivered)
    &&& (!open || !delivered)
    &&& (!delivered_stage || delivered)
    &&& (!read_stage || read)
    &&& (!(record.receipt_required && postage_outcome) || delivered)
}

/// The state of the lifecycle contract.
pub struct LifecycleContract {
    config: Option<LifecycleConfig>,
    records: Vec<LifecycleRecord>,
    events: Vec<LifecycleEvent>,
    auths: Vec<Address>,
}

impl LifecycleContract {
    /// Records are kept at most once per message, and each is consistent.
    #[verifier::type_invariant]
    spec fn well_formed(self) -> bool {
        &&& ids_unique(self.records@)
        &&& forall|i: int|
            0 <= i < self.records@.len() ==> record_consistent(#[trigger] self.records@[i])
    }
}

impl View for LifecycleContract {
    type V = LifecycleState;

    closed spec fn view(&self) -> LifecycleState {
        LifecycleState {
            config: self.config,
            records: records_map(self.records@),
            events: self.events@,
            auths: self.auths@,
        }
    }
}

impl LifecycleContract {
    /// Every stored record is kept under its own message id.
    pub proof fn lemma_records_keyed(&self)
        ensures
            forall|id: Bytes32| #[trigger]
                self@.records.contains_key(id) ==> self@.records[id].message_id == id,
    {
        assert forall|id: Bytes32| #[trigger]
            self@.records.contains_key(id) implies self@.records[id].message_id == id by {
            lemma_map_keys(self.records@, id);
        }
    }
}

impl LifecycleContract {
    /// A contract that has not been initialized and holds no record.
    pub fn new() -> (r: Self)
        ensures
            r@.config is None,
            r@.records == Map::<Bytes32, LifecycleRecord>::empty(),
            r@.events == Seq::<LifecycleEvent>::empty(),
            r@.auths == Seq::<Address>::empty(),
            state_consistent(r@),
    {
        let r = LifecycleContract {
            config: None,
            records: Vec::new(),
            events: Vec::new(),
            auths: Vec::new(),
        };
        assert(records_map(r.records@) =~= Map::<Bytes32, LifecycleRecord>::empty());
        r
    }

    /// A contract holding `config` and, where given, one stored record: the
    /// part of the stored state that one invocation on that record reads.
    /// A stored record that is not consistent is refused with `None`.
    pub fn from_storage(config: Option<LifecycleConfig>, record: Option<LifecycleRecord>) -> (r:
        Option<Self>)
        ensures
            r is Some <==> (record matches Some(rec) ==> record_consistent(rec)),
            r matches Some(c) ==> {
                &&& c@.config == config
                &&& c@.records == (match record {
                    Some(rec) => Map::<Bytes32, LifecycleRecord>::empty().insert(
                        rec.message_id,
                        rec,
                    ),
                    None => Map::<Bytes32, LifecycleRecord>::empty(),
                })
                &&& c@.events == Seq::<LifecycleEvent>::empty()
                &&& c@.auths == Seq::<Address>::empty()
                &&& state_consistent(c@)
            },
    {
        let mut records: Vec<LifecycleRecord> = Vec::new();
        assert(records_map(records@) =~= Map::<Bytes32, LifecycleRecord>::empty());
        if let Some(rec) = record {
            if !record_is_consistent(&rec) {
                return None;
            }
            proof {
                lemma_map_push(records@, rec);
            }
            records.push(rec);
        }
        proof {
            lemma_map_consistent(records@);
        }
        Some(LifecycleContract { config, records, events: Vec::new(), auths: Vec::new() })
    }

    /// The position of the record of `message_id`, if there is one.
    fn find(&self, message_id: &Bytes32) -> (r: Option<usize>)
        ensures
            r matches Some(i) ==> i < self.records@.len() && self.records@[i as int].message_id
                == *message_id,
            r is None ==> !has_id(self.records@, *message_id),
    {
        let mut i: usize = 0;
        while i < self.records.len()
            invariant
                i <= self.records@.len(),
                forall|j: int| 0 <= j < i ==> (#[trigger] self.records@[j]).message_id != *message_id,
            decreases self.records@.len() - i,
        {
            if self.records[i].message_id.equals(message_id) {
                return Some(i);
            }
            i = i + 1;
        }
        None
    }

    /// The stored configuration.
    fn read_config(&self) -> (r: Result<LifecycleConfig, Error>)
        ensures
            r == spec_config(self@),
    {
        match self.config {
            Some(c) => Ok(c),
            None => Err(Error::NotInitialized),
        }
    }

    /// The stored record of `message_id`.
    fn read_record(&self, message_id: &Bytes32) -> (r: Result<LifecycleRecord, Error>)
        ensures
            r == spec_get(self@, *message_id),
    {
        proof {
            use_type_invariant(self);
        }
        match self.find(message_id) {
            Some(i) => {
                proof {
                    lemma_map_at(self.records@, i as int);
                }
                Ok(self.records[i])
            },
            None => Err(Error::MissingLifecycle),
        }
    }

    /// Stores `record` as the record of its message.
    fn store_record(&mut self, record: LifecycleRecord)
        requires
            record_consistent(record),
        ensures
            final(self)@ == (LifecycleState {
                records: old(self)@.records.insert(record.message_id, record),
                ..old(self)@
            }),
    {
        proof {
            use_type_invariant(&*self);
        }
        let found = self.find(&record.message_id);
        let mut records: Vec<LifecycleRecord> = Vec::new();
        std::mem::swap(&mut records, &mut self.records);
        match found {
            Some(i) => {
                proof {
                    lemma_map_update(records@, i as int, record);
                }
                records.set(i, record);
                assert(forall|j: int|
                    0 <= j < records@.len() ==> record_consistent(#[trigger] records@[j]));
            },
            None => {
                proof {
                    lemma_map_push(records@, record);
                }
                records.push(record);
                assert(forall|j: int|
                    0 <= j < records@.len() ==> record_consistent(#[trigger] records@[j]));
            },
        }
        self.records = records;
    }

    /// Publishes an event reporting `record` under `action`.
    fn publish_event(&mut self, action: LifecycleAction, message_id: Bytes32, record: LifecycleRecord)
        ensures
            final(self)@ == (LifecycleState {
                events: old(self)@.events.push(LifecycleEvent { action, message_id, record }),
                ..old(self)@
            }),
    {
        proof {
            use_type_invariant(&*self);
        }
        let mut events: Vec<LifecycleEvent> = Vec::new();
        std::mem::swap(&mut events, &mut self.events);
        events.push(LifecycleEvent { action, message_id, record });
        self.events = events;
    }

    /// Marks `address` as the one whose authorization this invocation requires.
    fn require_auth(&mut self, address: Address)
        ensures
            final(self)@ == (LifecycleState { auths: seq![address], ..old(self)@ }),
    {
        proof {
            use_type_invariant(&*self);
        }
        let mut auths: Vec<Address> = Vec::new();
        auths.push(address);
        assert(auths@ =~= seq![address]);
        self.auths = auths;
    }

    /// Starts an invocation that requires no authorization.
    fn clear_auths(&mut self)
        ensures
            final(self)@ == (LifecycleState { auths: Seq::empty(), ..old(self)@ }),
    {
        proof {
            use_type_invariant(&*self);
        }
        self.auths = Vec::new();
    }

    /// Stores the configuration of a fresh contract.
    pub fn initialize(&mut self, policies: Address, postage: Address, receipts: Address) -> (r:
        Result<(), Error>)
        ensures
            (final(self)@, r) == spec_initialize(
                old(self)@,
                LifecycleConfig { policies, postage, receipts },
            ),
            state_consistent(old(self)@),
            state_consistent(final(self)@),
    {
        proof {
            use_type_invariant(&*self);
            lemma_map_consistent(self.records@);
        }
        self.clear_auths();
        if self.config.is_some() {
            return Err(Error::AlreadyInitialized);
        }
        proof {
            use_type_invariant(&*self);
        }
        self.config = Some(LifecycleConfig { policies, postage, receipts });
        Ok(())
    }

    /// The stored configuration.
    pub fn config(&self) -> (r: Result<LifecycleConfig, Error>)
        ensures
            r == spec_config(self@),
            state_consistent(self@),
    {
        proof {
            use_type_invariant(self);
            lemma_map_consistent(self.records@);
        }
        self.read_config()
    }

    /// The record of `message_id`.
    pub fn get(&self, message_id: Bytes32) -> (r: Result<LifecycleRecord, Error>)
        ensures
            r == spec_get(self@, message_id),
            state_consistent(self@),
    {
        proof {
            use_type_invariant(self);
            lemma_map_consistent(self.records@);
        }
        self.read_record(&message_id)
    }

    /// The events published so far, oldest first.
    pub fn events(&self) -> (r: &Vec<LifecycleEvent>)
        ensures
            r@ == self@.events,
            state_consistent(self@),
    {
        proof {
            use_type_invariant(self);
            lemma_map_consistent(self.records@);
        }
        &self.events
    }

    /// The addresses whose authorization the latest state-changing invocation required.
    pub fn required_auths(&self) -> (r: &Vec<Address>)
        ensures
            r@ == self@.auths,
            state_consistent(self@),
    {
        proof {
            use_type_invariant(self);
            lemma_map_consistent(self.records@);
        }
        &self.auths
    }
}

impl LifecycleContract {
    /// Requires the authorization of the configured postage contract.
    fn require_postage_contract(&mut self) -> (r: Result<(), Error>)
        ensures
            match spec_config(old(self)@) {
                Ok(c) => r is Ok && final(self)@ == (LifecycleState {
                    auths: seq![c.postage],
                    ..old(self)@
                }),
                Err(e) => r == Err::<(), Error>(e) && final(self)@ == old(self)@,
            },
    {
        let config = match self.read_config() {
            Ok(c) => c,
            Err(e) => return Err(e),
        };
        self.require_auth(config.postage);
        Ok(())
    }

    /// Requires the authorization of the configured receipts contract.
    fn require_receipts_contract(&mut self) -> (r: Result<(), Error>)
        ensures
            match spec_config(old(self)@) {
                Ok(c) => r is Ok && final(self)@ == (LifecycleState {
                    auths: seq![c.receipts],
                    ..old(self)@
                }),
                Err(e) => r == Err::<(), Error>(e) && final(self)@ == old(self)@,
            },
    {
        let config = match self.read_config() {
            Ok(c) => c,
            Err(e) => return Err(e),
        };
        self.require_auth(config.receipts);
        Ok(())
    }

    /// Whether binding `message_id` would ask the policies contract, and
    /// the question it would ask: the checks that come before that call.
    pub fn policy_query(
        &self,
        message_id: Bytes32,
        owner: Address,
        sender: Address,
        recipient: Address,
        amount: i128,
        verified: bool,
        receipt_required: bool,
    ) -> (r: Result<PolicyQuery, Error>)
        ensures
            r == spec_policy_query(
                self@,
                message_id,
                owner,
                sender,
                recipient,
                amount,
                verified,
                receipt_required,
            ),
            state_consistent(self@),
    {
        proof {
            use_type_invariant(self);
            lemma_map_consistent(self.records@);
        }
        if !owner.equals(&recipient) {
            return Err(Error::PostageMismatch);
        }
        if self.find(&message_id).is_some() {
            return Err(Error::DuplicateLifecycle);
        }
        let config = match self.read_config() {
            Ok(c) => c,
            Err(e) => return Err(e),
        };
        Ok(
            PolicyQuery {
                policies: config.policies,
                owner,
                sender,
                verified,
                postage: amount,
                receipt_required,
            },
        )
    }

    /// Binds a new record to `message_id`; `decision` is the answer of the
    /// policies contract to the question `policy_query` names, and `now` the
    /// ledger time.
    pub fn bind(
        &mut self,
        message_id: Bytes32,
        owner: Address,
        sender: Address,
        recipient: Address,
        amount: i128,
        verified: bool,
        receipt_required: bool,
        decision: PolicyDecision,
        now: u64,
    ) -> (r: Result<LifecycleRecord, Error>)
        ensures
            (final(self)@, r) == spec_bind(
                old(self)@,
                message_id,
                owner,
                sender,
                recipient,
                amount,
                verified,
                receipt_required,
                decision,
                now,
            ),
            state_consistent(old(self)@),
            state_consistent(final(self)@),
    {
        proof {
            use_type_invariant(&*self);
            lemma_map_consistent(self.records@);
            law_consistency_is_kept(
                self@,
                message_id,
                owner,
                sender,
                recipient,
                amount,
                verified,
                receipt_required,
                decision,
                now,
                arbitrary(),
                LifecycleTerminal::Settled,
                arbitrary(),
            );
        }
        self.clear_auths();
        if !owner.equals(&recipient) {
            return Err(Error::PostageMismatch);
        }
        self.require_auth(sender);
        if self.find(&message_id).is_some() {
            return Err(Error::DuplicateLifecycle);
        }
        if let Err(e) = self.read_config() {
            return Err(e);
        }
        let decision = match Self::evaluate_policy(decision, amount) {
            Ok(d) => d,
            Err(e) => return Err(e),
        };
        let record = LifecycleRecord {
            message_id,
            owner,
            sender,
            recipient,
            amount,
            verified,
            receipt_required,
            policy_version: decision.version,
            decision_reason: decision.reason,
            payload_hash: None,
            protocol_version: None,
            delivered_at: None,
            read_at: None,
            terminal: LifecycleTerminal::Open,
            bound_at: now,
        };
        self.store_record(record);
        self.publish_event(LifecycleAction::Bind, message_id, record);
        Ok(record)
    }

    /// Moves the record of `message_id` to the postage outcome `terminal`.
    fn verify_terminal(&mut self, message_id: Bytes32, postage: Postage, terminal: LifecycleTerminal) -> (r:
        Result<LifecycleRecord, Error>)
        ensures
            (final(self)@, r) == spec_verify_terminal(old(self)@, message_id, postage, terminal),
            state_consistent(old(self)@),
            state_consistent(final(self)@),
    {
        proof {
            use_type_invariant(&*self);
            lemma_map_consistent(self.records@);
            law_consistency_is_kept(
                self@,
                message_id,
                arbitrary(),
                arbitrary(),
                arbitrary(),
                0,
                false,
                false,
                arbitrary(),
                0,
                postage,
                terminal,
                arbitrary(),
            );
        }

        self.clear_auths();
        if let Err(e) = self.require_postage_contract() {
            return Err(e);
        }
        let record = match self.read_record(&message_id) {
            Ok(r) => r,
            Err(e) => return Err(e),
        };
        if let Err(e) = Self::assert_core_match(
            &record,
            &message_id,
            &postage.sender,
            &postage.recipient,
        ) {
            return Err(e);
        }
        if record.amount != postage.amount {
            return Err(Error::PostageMismatch);
        }
        if !Self::can_transition(record.terminal, terminal) {
            return Err(Error::TerminalStateMismatch);
        }
        if record.receipt_required && record.delivered_at.is_none() {
            return Err(Error::TerminalStateMismatch);
        }
        let updated = LifecycleRecord { terminal, ..record };
        self.store_record(updated);
        self.publish_event(Self::terminal_symbol(terminal), message_id, updated);
        Ok(updated)
    }

    /// Settles the postage of a message, on the word of the postage contract.
    pub fn verify_settle(&mut self, message_id: Bytes32, postage: Postage) -> (r: Result<
        LifecycleRecord,
        Error,
    >)
        ensures
            (final(self)@, r) == spec_verify_terminal(
                old(self)@,
                message_id,
                postage,
                LifecycleTerminal::Settled,
            ),
            state_consistent(old(self)@),
            state_consistent(final(self)@),
    {
        self.verify_terminal(message_id, postage, LifecycleTerminal::Settled)
    }

    /// Refunds the postage of a message, on the word of the postage contract.
    pub fn verify_refund(&mut self, message_id: Bytes32, postage: Postage) -> (r: Result<
        LifecycleRecord,
        Error,
    >)
        ensures
            (final(self)@, r) == spec_verify_terminal(
                old(self)@,
                message_id,
                postage,
                LifecycleTerminal::Refunded,
            ),
            state_consistent(old(self)@),
            state_consistent(final(self)@),
    {
        self.verify_terminal(message_id, postage, LifecycleTerminal::Refunded)
    }

    /// Marks the postage of a message as disputed.
    pub fn verify_dispute(&mut self, message_id: Bytes32, postage: Postage) -> (r: Result<
        LifecycleRecord,
        Error,
    >)
        ensures
            (final(self)@, r) == spec_verify_dispute(old(self)@, message_id, postage),
            state_consistent(old(self)@),
            state_consistent(final(self)@),
    {
        proof {
            use_type_invariant(&*self);
            lemma_map_consistent(self.records@);
            law_consistency_is_kept(
                self@,
                message_id,
                arbitrary(),
                arbitrary(),
                arbitrary(),
                0,
                false,
                false,
                arbitrary(),
                0,
                postage,
                LifecycleTerminal::Settled,
                arbitrary(),
            );
        }
        if !matches!(postage.status, PostageStatus::Pending | PostageStatus::Expired) {
            self.clear_auths();
            return Err(Error::PostageMismatch);
        }
        self.verify_terminal(message_id, postage, LifecycleTerminal::Disputed)
    }

    /// Marks the postage of a message as expired.
    pub fn verify_expire(&mut self, message_id: Bytes32, postage: Postage) -> (r: Result<
        LifecycleRecord,
        Error,
    >)
        ensures
            (final(self)@, r) == spec_verify_expire(old(self)@, message_id, postage),
            state_consistent(old(self)@),
            state_consistent(final(self)@),
    {
        proof {
            use_type_invariant(&*self);
            lemma_map_consistent(self.records@);
            law_consistency_is_kept(
                self@,
                message_id,
                arbitrary(),
                arbitrary(),
                arbitrary(),
                0,
                false,
                false,
                arbitrary(),
                0,
                postage,
                LifecycleTerminal::Settled,
                arbitrary(),
            );
        }
        if !matches!(postage.status, PostageStatus::Pending) {
            self.clear_auths();
            return Err(Error::PostageMismatch);
        }
        self.verify_terminal(message_id, postage, LifecycleTerminal::Expired)
    }

    /// Marks the postage of a message as reclaimed by its sender.
    pub fn verify_reclaim(&mut self, message_id: Bytes32, postage: Postage) -> (r: Result<
        LifecycleRecord,
        Error,
    >)
        ensures
            (final(self)@, r) == spec_verify_reclaim(old(self)@, message_id, postage),
            state_consistent(old(self)@),
            state_consistent(final(self)@),
    {
        proof {
            use_type_invariant(&*self);
            lemma_map_consistent(self.records@);
            law_consistency_is_kept(
                self@,
                message_id,
                arbitrary(),
                arbitrary(),
                arbitrary(),
                0,
                false,
                false,
                arbitrary(),
                0,
                postage,
                LifecycleTerminal::Settled,
                arbitrary(),
            );
        }
        if matches!(
            postage.status,
            PostageStatus::Settled | PostageStatus::Refunded | PostageStatus::Reclaimed
        ) {
            self.clear_auths();
            return Err(Error::PostageMismatch);
        }
        self.verify_terminal(message_id, postage, LifecycleTerminal::Reclaimed)
    }

    /// Records the delivery of a message, on the word of the receipts contract.
    pub fn verify_delivered(&mut self, message_id: Bytes32, receipt: ReceiptState) -> (r: Result<
        LifecycleRecord,
        Error,
    >)
        ensures
            (final(self)@, r) == spec_verify_delivered(old(self)@, message_id, receipt),
            state_consistent(old(self)@),
            state_consistent(final(self)@),
    {
        proof {
            use_type_invariant(&*self);
            lemma_map_consistent(self.records@);
            law_consistency_is_kept(
                self@,
                message_id,
                arbitrary(),
                arbitrary(),
                arbitrary(),
                0,
                false,
                false,
                arbitrary(),
                0,
                arbitrary(),
                LifecycleTerminal::Settled,
                receipt,
            );
        }
        self.clear_auths();
        if let Err(e) = self.require_receipts_contract() {
            return Err(e);
        }
        let record = match self.read_record(&message_id) {
            Ok(r) => r,
            Err(e) => return Err(e),
        };
        if let Err(e) = Self::assert_core_match(
            &record,
            &message_id,
            &receipt.sender,
            &receipt.recipient,
        ) {
            return Err(e);
        }
        if let Err(e) = Self::assert_receipt_match(&record, &receipt) {
            return Err(e);
        }
        if record.delivered_at.is_some() {
            return Err(Error::AlreadyDelivered);
        }
        if matches!(record.terminal, LifecycleTerminal::Read) {
            return Err(Error::AlreadyRead);
        }
        if !matches!(record.terminal, LifecycleTerminal::Open | LifecycleTerminal::Delivered) {
            return Err(Error::TerminalStateMismatch);
        }
        let updated = LifecycleRecord {
            delivered_at: Some(receipt.delivered_at),
            payload_hash: Some(receipt.payload_hash),
            protocol_version: Some(receipt.protocol_version),
            terminal: LifecycleTerminal::Delivered,
            ..record
        };
        self.store_record(updated);
        self.publish_event(LifecycleAction::Delivered, message_id, updated);
        Ok(updated)
    }

    /// Records that a delivered message was read at ledger time `now`, on
    /// the word of the receipts contract.
    pub fn verify_read(&mut self, message_id: Bytes32, receipt: ReceiptState, now: u64) -> (r:
        Result<LifecycleRecord, Error>)
        ensures
            (final(self)@, r) == spec_verify_read(old(self)@, message_id, receipt, now),
            state_consistent(old(self)@),
            state_consistent(final(self)@),
    {
        proof {
            use_type_invariant(&*self);
            lemma_map_consistent(self.records@);
            law_consistency_is_kept(
                self@,
                message_id,
                arbitrary(),
                arbitrary(),
                arbitrary(),
                0,
                false,
                false,
                arbitrary(),
                now,
                arbitrary(),
                LifecycleTerminal::Settled,
                receipt,
            );
        }
        self.clear_auths();
        if let Err(e) = self.require_receipts_contract() {
            return Err(e);
        }
        let record = match self.read_record(&message_id) {
            Ok(r) => r,
            Err(e) => return Err(e),
        };
        if let Err(e) = Self::assert_core_match(
            &record,
            &message_id,
            &receipt.sender,
            &receipt.recipient,
        ) {
            return Err(e);
        }
        if let Err(e) = Self::assert_receipt_match(&record, &receipt) {
            return Err(e);
        }
        if record.delivered_at.is_none() {
            return Err(Error::TerminalStateMismatch);
        }
        if record.read_at.is_some() {
            return Err(Error::AlreadyRead);
        }
        if !matches!(
            record.terminal,
            LifecycleTerminal::Open | LifecycleTerminal::Delivered | LifecycleTerminal::Read
        ) {
            return Err(Error::TerminalStateMismatch);
        }
        let updated = LifecycleRecord {
            read_at: Some(now),
            terminal: LifecycleTerminal::Read,
            ..record
        };
        self.store_record(updated);
        self.publish_event(LifecycleAction::Read, message_id, updated);
        Ok(updated)
    }
}

} // verus!
