//! Where each account's outbox stands: the sequence of its last event and
//! the ledger event it came from. New events are numbered from it, one after
//! another.
use vstd::prelude::*;
use std::collections::HashMap;

use super::event::{payload_for, EventSequence, OutboxEvent, OutboxEventPayload};
use crate::ledger::event::JournalEvent;
use crate::primitives::{AccountId, OutboxEventId, SqlxLedgerEventId};
use crate::uuid_text::{is_random_uuid, new_random_uuid};

verus! {

broadcast use vstd::std_specs::hash::group_hash_axioms;

/// An account's position in its outbox.
#[derive(Clone, Copy, Debug)]
pub struct SequenceElems {
    pub sequence: EventSequence,
    pub ledger_event_id: Option<SqlxLedgerEventId>,
}

/// A position, as a value.
pub open spec fn elems_view(e: SequenceElems) -> (int, Option<SqlxLedgerEventId>) {
    (e.sequence@, e.ledger_event_id)
}

/// The positions of the accounts whose outbox has been looked at.
pub struct SequenceTable {
    map: HashMap<AccountId, SequenceElems>,
}

/// The table the rows give, a later row for an account replacing an earlier.
pub open spec fn table_of_rows(rows: Seq<(AccountId, SequenceElems)>) -> Map<AccountId, (int, Option<SqlxLedgerEventId>)>
    decreases rows.len(),
{
    if rows.len() == 0 {
        Map::empty()
    } else {
        table_of_rows(rows.drop_last()).insert(rows.last().0, elems_view(rows.last().1))
    }
}

/// Where the account stands after an event was persisted for it.
pub open spec fn after_recorded(
    m: Map<AccountId, (int, Option<SqlxLedgerEventId>)>,
    account_id: AccountId,
    sequence: int,
    ledger_event_id: Option<SqlxLedgerEventId>,
) -> Map<AccountId, (int, Option<SqlxLedgerEventId>)> {
    m.insert(account_id, (sequence, ledger_event_id))
}

/// Where the account stands after an event of it was heard from another
/// instance: a later sequence is taken, with its ledger event if it names one.
pub open spec fn after_observed(
    m: Map<AccountId, (int, Option<SqlxLedgerEventId>)>,
    account_id: AccountId,
    sequence: int,
    ledger_event_id: Option<SqlxLedgerEventId>,
) -> Map<AccountId, (int, Option<SqlxLedgerEventId>)> {
    let cur = if m.contains_key(account_id) { m[account_id] } else { (0, None) };
    if cur.0 < sequence {
        m.insert(account_id, (sequence, if ledger_event_id is Some { ledger_event_id } else { cur.1 }))
    } else {
        m.insert(account_id, cur)
    }
}

impl View for SequenceTable {
    type V = Map<AccountId, (int, Option<SqlxLedgerEventId>)>;

    closed spec fn view(&self) -> Self::V {
        self.map@.map_values(|e: SequenceElems| elems_view(e))
    }
}

impl SequenceTable {
    /// A table that knows no account.
    pub fn new() -> (t: SequenceTable)
        ensures
            t@ == Map::<AccountId, (int, Option<SqlxLedgerEventId>)>::empty(),
    {
        let t = SequenceTable { map: HashMap::new() };
        assert(t@ =~= Map::<AccountId, (int, Option<SqlxLedgerEventId>)>::empty());
        t
    }

    /// Where the account stands, if the table knows it.
    pub fn lookup(&self, account_id: AccountId) -> (r: Option<SequenceElems>)
        ensures
            r is Some <==> self@.contains_key(account_id),
            r is Some ==> elems_view(r->0) == self@[account_id],
    {
        match self.map.get(&account_id) {
            Some(e) => Some(*e),
            None => None,
        }
    }

    /// Replaces what the table knows by the positions read from storage.
    pub fn load(&mut self, rows: Vec<(AccountId, SequenceElems)>)
        ensures
            final(self)@ == table_of_rows(rows@),
    {
        let mut map: HashMap<AccountId, SequenceElems> = HashMap::new();
        let mut i: usize = 0;
        while i < rows.len()
            invariant
                i <= rows.len(),
                map@.map_values(|e: SequenceElems| elems_view(e)) == table_of_rows(rows@.take(i as int)),
            decreases rows.len() - i,
        {
            let (a, e) = rows[i];
            map.insert(a, e);
            proof {
                assert(rows@.take(i + 1).drop_last() =~= rows@.take(i as int));
                assert(map@.map_values(|e: SequenceElems| elems_view(e)) =~= table_of_rows(rows@.take(i + 1)));
            }
            i = i + 1;
        }
        assert(rows@.take(rows.len() as int) =~= rows@);
        self.map = map;
    }

    /// Where the account stands; an account the table does not know starts
    /// before its first event.
    pub fn entry_or_begin(&mut self, account_id: AccountId) -> (e: SequenceElems)
        ensures
            old(self)@.contains_key(account_id) ==> final(self)@ == old(self)@ && elems_view(e) == old(self)@[account_id],
            !old(self)@.contains_key(account_id) ==> final(self)@ == old(self)@.insert(account_id, (0, None)) && elems_view(e) == (0int, None::<SqlxLedgerEventId>),
    {
        match self.map.get(&account_id) {
            Some(e) => *e,
            None => {
                let e = SequenceElems { sequence: EventSequence::begin(), ledger_event_id: None };
                self.map.insert(account_id, e);
                proof {
                    assert(self@ =~= old(self)@.insert(account_id, (0, None)));
                }
                e
            },
        }
    }

    /// Records the event just persisted for its account.
    pub fn record(&mut self, event: &OutboxEvent)
        ensures
            final(self)@ == after_recorded(old(self)@, event.account_id, event.sequence@, event.ledger_event_id),
    {
        self.map.insert(event.account_id, SequenceElems { sequence: event.sequence, ledger_event_id: event.ledger_event_id });
        assert(self@ =~= after_recorded(old(self)@, event.account_id, event.sequence@, event.ledger_event_id));
    }

    /// Forgets the account, after persisting an event for it failed; it is
    /// read from storage again when next needed.
    pub fn forget(&mut self, account_id: AccountId)
        ensures
            final(self)@ == old(self)@.remove(account_id),
    {
        self.map.remove(&account_id);
        assert(self@ =~= old(self)@.remove(account_id));
    }

    /// Takes in the outcome of persisting an event: a persisted event moves
    /// its account to it; when persisting failed, the account is forgotten
    /// (and read from storage again when next needed), since the stored
    /// position is then unknown.
    pub fn persisted(&mut self, event: &OutboxEvent, ok: bool)
        ensures
            ok ==> final(self)@ == after_recorded(old(self)@, event.account_id, event.sequence@, event.ledger_event_id),
            !ok ==> final(self)@ == old(self)@.remove(event.account_id),
    {
        if ok {
            self.record(event);
        } else {
            self.forget(event.account_id);
        }
    }

    /// Takes in an event of the account heard from another instance: the
    /// account moves to a later sequence, never back.
    pub fn observe(&mut self, account_id: AccountId, sequence: EventSequence, ledger_event_id: Option<SqlxLedgerEventId>)
        ensures
            final(self)@ == after_observed(old(self)@, account_id, sequence@, ledger_event_id),
    {
        let cur = self.entry_or_begin(account_id);
        let ghost mid = self@;
        if cur.sequence.value() < sequence.value() {
            let lid = match ledger_event_id {
                Some(l) => Some(l),
                None => cur.ledger_event_id,
            };
            let ne = SequenceElems { sequence, ledger_event_id: lid };
            self.map.insert(account_id, ne);
            proof {
                assert(self@ =~= mid.insert(account_id, elems_view(ne)));
                assert(mid.insert(account_id, elems_view(ne)) =~= old(self)@.insert(account_id, elems_view(ne)));
            }
        } else {
            proof {
                if old(self)@.contains_key(account_id) {
                    assert(old(self)@.insert(account_id, old(self)@[account_id]) =~= old(self)@);
                }
            }
        }
    }
}

/// The outbox event a journal event gives, numbered right after where its
/// account stands; none when the journal event gives no payload.
pub fn prepare_event(id: OutboxEventId, current: SequenceElems, event: JournalEvent) -> (r: Option<OutboxEvent>)
    requires
        current.sequence@ < i64::MAX,
    ensures
        r is Some <==> payload_for(event.metadata) is Some,
        r matches Some(o) ==> {
            &&& o.id == id
            &&& o.account_id == event.account_id
            &&& o.sequence@ == current.sequence@ + 1
            &&& Some(o.payload) == payload_for(event.metadata)
            &&& o.ledger_event_id == Some(event.ledger_event_id)
            &&& o.ledger_tx_id == Some(event.ledger_tx_id)
            &&& o.recorded_at == event.recorded_at
        },
{
    match OutboxEventPayload::try_from_metadata(event.metadata) {
        Some(payload) => Some(
            OutboxEvent {
                id,
                account_id: event.account_id,
                sequence: current.sequence.next(),
                payload,
                ledger_event_id: Some(event.ledger_event_id),
                ledger_tx_id: Some(event.ledger_tx_id),
                recorded_at: event.recorded_at,
            },
        ),
        None => None,
    }
}

/// The outbox event a journal event gives, with a fresh id, numbered right
/// after where its account stands; none when the journal event gives no
/// payload.
pub fn next_event(current: SequenceElems, event: JournalEvent) -> (r: Option<OutboxEvent>)
    requires
        current.sequence@ < i64::MAX,
    ensures
        r is Some <==> payload_for(event.metadata) is Some,
        r matches Some(o) ==> {
            &&& o.account_id == event.account_id
            &&& o.sequence@ == current.sequence@ + 1
            &&& Some(o.payload) == payload_for(event.metadata)
            &&& o.ledger_event_id == Some(event.ledger_event_id)
            &&& o.ledger_tx_id == Some(event.ledger_tx_id)
            &&& o.recorded_at == event.recorded_at
            &&& is_random_uuid(o.id)
        },
{
    let id = new_random_uuid();
    prepare_event(id, current, event)
}

/// Events handled one after another for an account are numbered one after
/// another: once an event numbered right after the account's position is
/// recorded, the account stands at that event.
pub proof fn lemma_consecutive_numbering(
    m: Map<AccountId, (int, Option<SqlxLedgerEventId>)>,
    account_id: AccountId,
    ledger_event_id: SqlxLedgerEventId,
)
    requires
        m.contains_key(account_id),
    ensures
        ({
            let m2 = after_recorded(m, account_id, m[account_id].0 + 1, Some(ledger_event_id));
            &&& m2[account_id].0 == m[account_id].0 + 1
            &&& m2[account_id].1 == Some(ledger_event_id)
            &&& forall|a: AccountId| a != account_id ==> m2.contains_key(a) == m.contains_key(a) && (m.contains_key(a) ==> m2[a] == m[a])
        }),
{
}

/// Hearing of other instances' events never moves an account back, and
/// leaves it at the later of the two sequences.
pub proof fn lemma_observed_never_moves_back(
    m: Map<AccountId, (int, Option<SqlxLedgerEventId>)>,
    account_id: AccountId,
    sequence: int,
    ledger_event_id: Option<SqlxLedgerEventId>,
)
    requires
        m.contains_key(account_id),
    ensures
        after_observed(m, account_id, sequence, ledger_event_id)[account_id].0 >= m[account_id].0,
        after_observed(m, account_id, sequence, ledger_event_id)[account_id].0 >= sequence,
        after_observed(m, account_id, sequence, ledger_event_id)[account_id].0 == m[account_id].0
            || after_observed(m, account_id, sequence, ledger_event_id)[account_id].0 == sequence,
{
}

} // verus!
