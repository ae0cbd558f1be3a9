//! A listener on one account's outbox: it hands out the account's events in
//! the order of their sequence numbers, each exactly once and without gaps,
//! from what it hears live and from pages it has read from storage.
use vstd::prelude::*;

use super::event::{EventSequence, OutboxEvent};
use crate::primitives::AccountId;

verus! {

/// The state of a listener, as a value.
pub struct ListenerView {
    pub account_id: AccountId,
    /// The sequence of the last event handed out.
    pub last_sequence: int,
    /// The greatest sequence known to exist for the account.
    pub latest_known: int,
    pub buffer_size: nat,
    /// Events heard but not yet handed out, in order of their sequences.
    pub cache: Seq<OutboxEvent>,
    pub page_requested: bool,
    pub has_augmenter: bool,
    /// The event handed out and waiting for its augmentation.
    pub next_to_augment: Option<OutboxEvent>,
    pub augmentation_requested: bool,
}

pub open spec fn seq_of(e: OutboxEvent) -> int {
    e.sequence@
}

/// The sequences of the events strictly increase.
pub open spec fn strictly_sorted(s: Seq<OutboxEvent>) -> bool {
    forall|i: int, j: int| 0 <= i < j < s.len() ==> seq_of(#[trigger] s[i]) < seq_of(#[trigger] s[j])
}

/// Inserts an event into a sorted list of events; an event with the same
/// sequence is replaced.
pub open spec fn insert_sorted(s: Seq<OutboxEvent>, e: OutboxEvent) -> Seq<OutboxEvent>
    decreases s.len(),
{
    if s.len() == 0 {
        seq![e]
    } else if seq_of(s.last()) < seq_of(e) {
        s.push(e)
    } else if seq_of(s.last()) == seq_of(e) {
        s.drop_last().push(e)
    } else {
        insert_sorted(s.drop_last(), e).push(s.last())
    }
}

/// The cache after an event is put into it: when that makes it hold more
/// than `buffer_size` events, the one with the greatest sequence leaves.
pub open spec fn cache_after_insert(s: Seq<OutboxEvent>, buffer_size: nat, e: OutboxEvent) -> Seq<OutboxEvent> {
    let t = insert_sorted(s, e);
    if t.len() > s.len() && t.len() > buffer_size {
        t.drop_last()
    } else {
        t
    }
}

/// The listener after it hears an event: events of other accounts are
/// ignored; any event of the account raises what is known to exist; it is
/// cached only when it comes after the last one handed out.
pub open spec fn heard(v: ListenerView, e: OutboxEvent) -> ListenerView {
    if e.account_id != v.account_id {
        v
    } else {
        let latest = if seq_of(e) > v.latest_known { seq_of(e) } else { v.latest_known };
        if seq_of(e) > v.last_sequence {
            ListenerView { latest_known: latest, cache: cache_after_insert(v.cache, v.buffer_size, e), ..v }
        } else {
            ListenerView { latest_known: latest, ..v }
        }
    }
}

/// The listener after it hears the events in order.
pub open spec fn heard_all(v: ListenerView, es: Seq<OutboxEvent>) -> ListenerView
    decreases es.len(),
{
    if es.len() == 0 {
        v
    } else {
        heard(heard_all(v, es.drop_last()), es.last())
    }
}

/// A listener's invariant: its cache is sorted, holds only events of its
/// account that are still to be handed out, and no more than its buffer.
pub open spec fn listener_wf(v: ListenerView) -> bool {
    &&& strictly_sorted(v.cache)
    &&& v.cache.len() <= v.buffer_size
    &&& forall|i: int| 0 <= i < v.cache.len() ==> seq_of(#[trigger] v.cache[i]) > v.last_sequence
    &&& forall|i: int| 0 <= i < v.cache.len() ==> (#[trigger] v.cache[i]).account_id == v.account_id
    &&& (v.augmentation_requested ==> v.next_to_augment is Some)
    &&& (v.next_to_augment is Some ==> v.has_augmenter)
}

/// A request for the account's events after a sequence, at most `limit` of them.
#[derive(Clone, Copy, Debug, PartialEq, Eq)]
pub struct PageRequest {
    pub account_id: AccountId,
    pub after: EventSequence,
    pub limit: usize,
}

/// What the listener asks of whoever drives it.
#[derive(Clone, Debug)]
pub enum ListenerAction {
    /// Hand this event to the listener's reader.
    Deliver(OutboxEvent),
    /// Read a page of events from storage and hand it back.
    FetchPage(PageRequest),
    /// Load the augmentation of the event being held (see
    /// `held_for_augmentation`).
    FetchAugmentation { account_id: AccountId },
    /// Nothing to do until more is heard.
    Wait,
}

/// One step of the listener: what to do, and whether a page being read is no
/// longer needed.
#[derive(Clone, Debug)]
pub struct ListenerStep {
    pub action: ListenerAction,
    pub abort_page: bool,
}

/// Where a new listener starts: after the given sequence, or else after the
/// latest event known.
pub fn start_position(start_after: Option<EventSequence>, latest_known: EventSequence) -> (s: EventSequence)
    ensures
        s == (match start_after {
            Some(a) => a,
            None => latest_known,
        }),
{
    match start_after {
        Some(a) => a,
        None => latest_known,
    }
}

/// A step of the listener, as a value.
pub enum StepView {
    Deliver(OutboxEvent),
    FetchPage { account_id: AccountId, after: int, limit: nat },
    FetchAugmentation { account_id: AccountId },
    Wait,
}

/// A step as a value, and whether it aborts the page being read.
pub open spec fn step_view(s: ListenerStep) -> (StepView, bool) {
    (
        match s.action {
            ListenerAction::Deliver(e) => StepView::Deliver(e),
            ListenerAction::FetchPage(p) => StepView::FetchPage { account_id: p.account_id, after: p.after@, limit: p.limit as nat },
            ListenerAction::FetchAugmentation { account_id } => StepView::FetchAugmentation { account_id },
            ListenerAction::Wait => StepView::Wait,
        },
        s.abort_page,
    )
}

/// One step of a listener: an event held for augmentation is waited on (its
/// augmentation is requested once); else the next event in order is handed
/// out, or held when the listener augments events; else a page is requested
/// when events are known to exist beyond the last handed out.
pub open spec fn polled(v: ListenerView) -> ((StepView, bool), ListenerView) {
    if v.next_to_augment is Some {
        if !v.augmentation_requested {
            ((StepView::FetchAugmentation { account_id: v.account_id }, false), ListenerView { augmentation_requested: true, ..v })
        } else {
            ((StepView::Wait, false), v)
        }
    } else if v.cache.len() > 0 && seq_of(v.cache[0]) == v.last_sequence + 1 {
        let handed = ListenerView { last_sequence: v.last_sequence + 1, cache: v.cache.drop_first(), page_requested: false, ..v };
        if v.has_augmenter {
            (
                (StepView::FetchAugmentation { account_id: v.account_id }, v.page_requested),
                ListenerView { next_to_augment: Some(v.cache[0]), augmentation_requested: true, ..handed },
            )
        } else {
            ((StepView::Deliver(v.cache[0]), v.page_requested), handed)
        }
    } else if !v.page_requested && v.last_sequence < v.latest_known {
        (
            (StepView::FetchPage { account_id: v.account_id, after: v.last_sequence, limit: v.buffer_size }, false),
            ListenerView { page_requested: true, ..v },
        )
    } else {
        ((StepView::Wait, false), v)
    }
}

/// What the listener hands out, and becomes, once the held event's
/// augmentation was loaded (`loaded`) or failed to load.
pub open spec fn augmentation_outcome(v: ListenerView, loaded: bool) -> (Option<OutboxEvent>, ListenerView) {
    if loaded && v.augmentation_requested {
        (v.next_to_augment, ListenerView { next_to_augment: None, augmentation_requested: false, ..v })
    } else {
        (None, ListenerView { augmentation_requested: false, ..v })
    }
}

/// What drives a listener.
pub enum ListenerInput {
    /// A step is asked for.
    Poll,
    /// The held event's augmentation was loaded.
    AugmentationLoaded,
    /// Loading the held event's augmentation failed.
    AugmentationFailed,
    /// An event was heard live.
    Heard(OutboxEvent),
    /// A page of events was read from storage.
    PageLoaded(Seq<OutboxEvent>),
    /// Reading a page failed.
    PageFailed,
}

/// An input that brings the listener no new events.
pub open spec fn hears_nothing(input: ListenerInput) -> bool {
    ||| input is Poll
    ||| input is AugmentationLoaded
    ||| input is AugmentationFailed
}

/// The events an input brings the listener.
pub open spec fn heard_in(input: ListenerInput) -> Seq<OutboxEvent> {
    match input {
        ListenerInput::Heard(e) => seq![e],
        ListenerInput::PageLoaded(es) => es,
        _ => Seq::empty(),
    }
}

/// The events a sequence of inputs brings the listener, in order.
pub open spec fn all_heard(inputs: Seq<ListenerInput>) -> Seq<OutboxEvent>
    decreases inputs.len(),
{
    if inputs.len() == 0 {
        Seq::empty()
    } else {
        all_heard(inputs.drop_last()) + heard_in(inputs.last())
    }
}

/// The event an input makes the listener hand out, if any, and what the
/// listener becomes.
pub open spec fn applied(v: ListenerView, input: ListenerInput) -> (Option<OutboxEvent>, ListenerView) {
    match input {
        ListenerInput::Poll => {
            let (step, w) = polled(v);
            (
                match step.0 {
                    StepView::Deliver(e) => Some(e),
                    _ => None,
                },
                w,
            )
        },
        ListenerInput::AugmentationLoaded => augmentation_outcome(v, true),
        ListenerInput::AugmentationFailed => augmentation_outcome(v, false),
        ListenerInput::Heard(e) => (None, heard(v, e)),
        ListenerInput::PageLoaded(es) => (None, ListenerView { page_requested: false, ..heard_all(v, es) }),
        ListenerInput::PageFailed => (None, ListenerView { page_requested: false, ..v }),
    }
}

/// The events a sequence of inputs makes the listener hand out, in order,
/// and what the listener becomes.
pub open spec fn run(v: ListenerView, inputs: Seq<ListenerInput>) -> (Seq<OutboxEvent>, ListenerView)
    decreases inputs.len(),
{
    if inputs.len() == 0 {
        (Seq::empty(), v)
    } else {
        let (out, w) = run(v, inputs.drop_last());
        let (e, x) = applied(w, inputs.last());
        (
            match e {
                Some(e) => out.push(e),
                None => out,
            },
            x,
        )
    }
}

/// The events taken in but not yet handed out: the held one, then the cache.
pub open spec fn pending(v: ListenerView) -> Seq<OutboxEvent> {
    match v.next_to_augment {
        Some(e) => seq![e] + v.cache,
        None => v.cache,
    }
}

/// The sequence of the last event handed out for good, an event held for
/// augmentation not counting.
pub open spec fn delivered_through(v: ListenerView) -> int {
    if v.next_to_augment is Some { v.last_sequence - 1 } else { v.last_sequence }
}

/// An event held for augmentation is the last one taken from the cache, an
/// event of the listener's account.
pub open spec fn held_is_last(v: ListenerView) -> bool {
    v.next_to_augment matches Some(e) ==> seq_of(e) == v.last_sequence && e.account_id == v.account_id
}

/// A listener on one account's outbox.
pub struct OutboxListener {
    account_id: AccountId,
    last_sequence: EventSequence,
    latest_known: EventSequence,
    buffer_size: usize,
    cache: Vec<OutboxEvent>,
    page_requested: bool,
    has_augmenter: bool,
    next_to_augment: Option<OutboxEvent>,
    augmentation_requested: bool,
}

impl View for OutboxListener {
    type V = ListenerView;

    closed spec fn view(&self) -> ListenerView {
        ListenerView {
            account_id: self.account_id,
            last_sequence: self.last_sequence@,
            latest_known: self.latest_known@,
            buffer_size: self.buffer_size as nat,
            cache: self.cache@,
            page_requested: self.page_requested,
            has_augmenter: self.has_augmenter,
            next_to_augment: self.next_to_augment,
            augmentation_requested: self.augmentation_requested,
        }
    }
}

/// Inserting into a sorted list at the place that its order gives.
proof fn lemma_insert_sorted_at(s: Seq<OutboxEvent>, e: OutboxEvent, i: int)
    requires
        0 <= i <= s.len(),
        forall|j: int| i <= j < s.len() ==> seq_of(#[trigger] s[j]) > seq_of(e),
        i > 0 ==> seq_of(s[i - 1]) <= seq_of(e),
    ensures
        insert_sorted(s, e) == (if i > 0 && seq_of(s[i - 1]) == seq_of(e) {
            s.take(i - 1) + seq![e] + s.skip(i)
        } else {
            s.take(i) + seq![e] + s.skip(i)
        }),
    decreases s.len() - i,
{
    if i == s.len() {
        if s.len() == 0 {
            assert(s.take(0) + seq![e] + s.skip(0) =~= seq![e]);
        } else if seq_of(s.last()) < seq_of(e) {
            assert(s.take(i) + seq![e] + s.skip(i) =~= s.push(e));
        } else {
            assert(s.take(i - 1) + seq![e] + s.skip(i) =~= s.drop_last().push(e));
        }
    } else {
        let d = s.drop_last();
        assert(seq_of(s[s.len() - 1]) > seq_of(e));
        assert forall|j: int| i <= j < d.len() implies seq_of(#[trigger] d[j]) > seq_of(e) by {
            assert(d[j] == s[j]);
        }
        if i > 0 {
            assert(d[i - 1] == s[i - 1]);
        }
        lemma_insert_sorted_at(d, e, i);
        if i > 0 && seq_of(s[i - 1]) == seq_of(e) {
            assert(d.take(i - 1) + seq![e] + d.skip(i) + seq![s.last()] =~= s.take(i - 1) + seq![e] + s.skip(i));
        } else {
            assert(d.take(i) + seq![e] + d.skip(i) + seq![s.last()] =~= s.take(i) + seq![e] + s.skip(i));
        }
    }
}

/// Inserting the same event twice is inserting it once.
proof fn lemma_insert_sorted_idempotent(s: Seq<OutboxEvent>, e: OutboxEvent)
    ensures
        insert_sorted(insert_sorted(s, e), e) == insert_sorted(s, e),
    decreases s.len(),
{
    let t = insert_sorted(s, e);
    if s.len() == 0 {
        assert(t.drop_last() =~= Seq::<OutboxEvent>::empty());
        assert(t.drop_last().push(e) =~= t);
    } else if seq_of(s.last()) < seq_of(e) {
        assert(t.drop_last() =~= s);
    } else if seq_of(s.last()) == seq_of(e) {
        assert(t.drop_last() =~= s.drop_last());
    } else {
        let d = s.drop_last();
        lemma_insert_sorted_idempotent(d, e);
        assert(t.drop_last() =~= insert_sorted(d, e));
    }
}

/// When an insertion adds an event, either the new event is the last one and
/// the rest is what was there, or the new event is inside and inserting it
/// again after dropping the last changes nothing.
proof fn lemma_insert_sorted_grown(s: Seq<OutboxEvent>, e: OutboxEvent)
    ensures
        insert_sorted(s, e).len() == s.len() || insert_sorted(s, e).len() == s.len() + 1,
        insert_sorted(s, e).len() == s.len() + 1 ==> {
            let t = insert_sorted(s, e);
            ||| t.last() == e && t.drop_last() == s
            ||| insert_sorted(t.drop_last(), e) == t.drop_last()
        },
    decreases s.len(),
{
    let t = insert_sorted(s, e);
    if s.len() == 0 {
        assert(t.drop_last() =~= s);
    } else if seq_of(s.last()) < seq_of(e) {
        assert(t.drop_last() =~= s);
    } else if seq_of(s.last()) == seq_of(e) {
    } else {
        let d = s.drop_last();
        lemma_insert_sorted_grown(d, e);
        assert(t.drop_last() =~= insert_sorted(d, e));
        lemma_insert_sorted_idempotent(d, e);
    }
}

/// Hearing the same event twice is hearing it once.
pub proof fn lemma_hearing_twice_is_hearing_once(v: ListenerView, e: OutboxEvent)
    ensures
        heard(heard(v, e), e) == heard(v, e),
{
    if e.account_id == v.account_id && seq_of(e) > v.last_sequence {
        let c = v.cache;
        let t = insert_sorted(c, e);
        let c1 = cache_after_insert(c, v.buffer_size, e);
        lemma_insert_sorted_idempotent(c, e);
        lemma_insert_sorted_grown(c, e);
        if t.len() > c.len() && t.len() > v.buffer_size {
            assert(c1 == t.drop_last());
            if t.last() == e && t.drop_last() == c {
                assert(cache_after_insert(c1, v.buffer_size, e) == c1);
            } else {
                assert(insert_sorted(c1, e) == c1);
                assert(cache_after_insert(c1, v.buffer_size, e) == c1);
            }
        } else {
            assert(c1 == t);
            assert(cache_after_insert(c1, v.buffer_size, e) == c1);
        }
    }
}

/// An event at or before the last one handed out is never cached again.
pub proof fn lemma_handed_out_not_cached_again(v: ListenerView, e: OutboxEvent)
    requires
        seq_of(e) <= v.last_sequence,
    ensures
        heard(v, e).cache == v.cache,
        heard(v, e).last_sequence == v.last_sequence,
{
}

/// Replacing an event by one with the same sequence keeps the order.
proof fn lemma_replace_keeps_order(s: Seq<OutboxEvent>, k: int, e: OutboxEvent, last: int, account_id: AccountId)
    requires
        strictly_sorted(s),
        0 <= k < s.len(),
        seq_of(s[k]) == seq_of(e),
        seq_of(e) > last,
        e.account_id == account_id,
        forall|j: int| 0 <= j < s.len() ==> seq_of(#[trigger] s[j]) > last && s[j].account_id == account_id,
    ensures
        strictly_sorted(s.update(k, e)),
        forall|j: int| 0 <= j < s.len() ==> seq_of(#[trigger] s.update(k, e)[j]) > last && s.update(k, e)[j].account_id == account_id,
{
    let t = s.update(k, e);
    assert forall|a: int, b: int| 0 <= a < b < t.len() implies seq_of(#[trigger] t[a]) < seq_of(#[trigger] t[b]) by {
        assert(seq_of(t[a]) == seq_of(s[a]));
        assert(seq_of(t[b]) == seq_of(s[b]));
    }
}

/// Inserting an event where its sequence falls keeps the order.
proof fn lemma_insert_keeps_order(s: Seq<OutboxEvent>, i: int, e: OutboxEvent, last: int, account_id: AccountId)
    requires
        strictly_sorted(s),
        0 <= i <= s.len(),
        i > 0 ==> seq_of(s[i - 1]) < seq_of(e),
        forall|j: int| i <= j < s.len() ==> seq_of(#[trigger] s[j]) > seq_of(e),
        seq_of(e) > last,
        e.account_id == account_id,
        forall|j: int| 0 <= j < s.len() ==> seq_of(#[trigger] s[j]) > last && s[j].account_id == account_id,
    ensures
        strictly_sorted(s.insert(i, e)),
        forall|j: int| 0 <= j < s.len() + 1 ==> seq_of(#[trigger] s.insert(i, e)[j]) > last && s.insert(i, e)[j].account_id == account_id,
{
    let t = s.insert(i, e);
    assert forall|a: int, b: int| 0 <= a < b < t.len() implies seq_of(#[trigger] t[a]) < seq_of(#[trigger] t[b]) by {
        if b < i {
            assert(t[a] == s[a] && t[b] == s[b]);
        } else if a > i {
            assert(t[a] == s[a - 1] && t[b] == s[b - 1]);
        } else if a == i {
            assert(t[b] == s[b - 1]);
        } else if b == i {
            assert(t[a] == s[a]);
            assert(seq_of(s[a]) <= seq_of(s[i - 1]));
        } else {
            assert(t[a] == s[a] && t[b] == s[b - 1]);
        }
    }
    assert forall|j: int| 0 <= j < s.len() + 1 implies seq_of(#[trigger] t[j]) > last && t[j].account_id == account_id by {
        if j < i {
            assert(t[j] == s[j]);
        } else if j > i {
            assert(t[j] == s[j - 1]);
        }
    }
}

impl OutboxListener {
    /// A listener on an account's events after `start_after`, knowing events
    /// up to `latest_known` to exist, caching at most `buffer` events.
    pub fn new(
        account_id: AccountId,
        start_after: EventSequence,
        latest_known: EventSequence,
        buffer: usize,
        has_augmenter: bool,
    ) -> (l: OutboxListener)
        ensures
            l@ == (ListenerView {
                account_id,
                last_sequence: start_after@,
                latest_known: latest_known@,
                buffer_size: buffer as nat,
                cache: Seq::empty(),
                page_requested: false,
                has_augmenter,
                next_to_augment: None,
                augmentation_requested: false,
            }),
            listener_wf(l@),
    {
        OutboxListener {
            account_id,
            last_sequence: start_after,
            latest_known,
            buffer_size: buffer,
            cache: Vec::new(),
            page_requested: false,
            has_augmenter,
            next_to_augment: None,
            augmentation_requested: false,
        }
    }

    /// Takes in an event heard live or read from storage.
    pub fn maybe_add_to_cache(&mut self, event: OutboxEvent)
        requires
            listener_wf(old(self)@),
        ensures
            final(self)@ == heard(old(self)@, event),
            listener_wf(final(self)@),
    {
        if event.account_id != self.account_id {
            return;
        }
        if event.sequence.value() > self.latest_known.value() {
            self.latest_known = event.sequence;
        }
        if event.sequence.value() <= self.last_sequence.value() {
            return;
        }
        let ghost s = self.cache@;
        let x = event.sequence.value();
        let mut i: usize = self.cache.len();
        while i > 0 && self.cache[i - 1].sequence.value() > x
            invariant
                i <= self.cache.len(),
                self.cache@ == s,
                x == seq_of(event),
                forall|j: int| i <= j < s.len() ==> seq_of(#[trigger] s[j]) > x,
            decreases i,
        {
            i = i - 1;
        }
        proof {
            lemma_insert_sorted_at(s, event, i as int);
        }
        let replaced = i > 0 && self.cache[i - 1].sequence.value() == x;
        if replaced {
            proof {
                lemma_replace_keeps_order(s, (i - 1) as int, event, self.last_sequence@, self.account_id);
            }
            self.cache.set(i - 1, event);
            assert(self.cache@ =~= s.take(i - 1) + seq![event] + s.skip(i as int));
        } else {
            proof {
                if i > 0 {
                    assert(seq_of(s[i - 1]) < x);
                }
                lemma_insert_keeps_order(s, i as int, event, self.last_sequence@, self.account_id);
            }
            self.cache.insert(i, event);
            assert(self.cache@ =~= s.take(i as int) + seq![event] + s.skip(i as int));
            if self.cache.len() > self.buffer_size {
                let ghost t = self.cache@;
                self.cache.pop();
                assert(self.cache@ =~= t.drop_last());
            }
        }
    }

    /// Takes in a page of events read from storage; no page is then pending.
    pub fn receive_page(&mut self, events: Vec<OutboxEvent>)
        requires
            listener_wf(old(self)@),
        ensures
            final(self)@ == (ListenerView { page_requested: false, ..heard_all(old(self)@, events@) }),
            listener_wf(final(self)@),
    {
        let ghost v0 = self@;
        let ghost all = events@;
        let mut events = events;
        let n = events.len();
        let mut i: usize = 0;
        while i < n
            invariant
                i <= n,
                n == all.len(),
                events@ == all.skip(i as int),
                self@ == heard_all(v0, all.take(i as int)),
                listener_wf(self@),
            decreases n - i,
        {
            proof {
                assert(all.take(i + 1).drop_last() =~= all.take(i as int));
                assert(events@[0] == all[i as int]);
            }
            let e = events.remove(0);
            assert(events@ =~= all.skip(i + 1));
            self.maybe_add_to_cache(e);
            i = i + 1;
        }
        assert(all.take(n as int) =~= all);
        self.page_requested = false;
    }

    /// Notes that reading a page failed; a new one may then be requested.
    pub fn page_failed(&mut self)
        requires
            listener_wf(old(self)@),
        ensures
            final(self)@ == (ListenerView { page_requested: false, ..old(self)@ }),
            listener_wf(final(self)@),
    {
        self.page_requested = false;
    }

    /// The next event to hand out, if the cache holds it: the one right after
    /// the last handed out; handing it out ends the need for a page.
    pub fn next_ready(&mut self) -> (e: Option<OutboxEvent>)
        requires
            listener_wf(old(self)@),
        ensures
            listener_wf(final(self)@),
            ({
                let v = old(self)@;
                if v.cache.len() > 0 && seq_of(v.cache[0]) == v.last_sequence + 1 {
                    &&& e == Some(v.cache[0])
                    &&& final(self)@ == (ListenerView {
                        last_sequence: v.last_sequence + 1,
                        cache: v.cache.drop_first(),
                        page_requested: false,
                        ..v
                    })
                } else {
                    &&& e is None
                    &&& final(self)@ == v
                }
            }),
    {
        if self.cache.len() == 0 {
            return None;
        }
        let first = self.cache[0].sequence;
        assert(seq_of(self.cache@[0]) > self.last_sequence@);
        let f = first.value();
        let l = self.last_sequence.value();
        if f - 1 != l {
            return None;
        }
        let ghost s = self.cache@;
        let e = self.cache.remove(0);
        assert(self.cache@ =~= s.drop_first());
        proof {
            assert forall|k: int| 0 <= k < self.cache@.len() implies seq_of(#[trigger] self.cache@[k]) > first@ by {
                assert(self.cache@[k] == s[k + 1]);
            }
        }
        self.last_sequence = first;
        self.page_requested = false;
        Some(e)
    }

    /// A page to read, when events are known to exist beyond the last handed
    /// out and no page is being read.
    pub fn page_request(&mut self) -> (r: Option<PageRequest>)
        requires
            listener_wf(old(self)@),
        ensures
            listener_wf(final(self)@),
            ({
                let v = old(self)@;
                if !v.page_requested && v.last_sequence < v.latest_known {
                    &&& r matches Some(p) && p.account_id == v.account_id && p.after@ == v.last_sequence
                        && p.limit == v.buffer_size
                    &&& final(self)@ == (ListenerView { page_requested: true, ..v })
                } else {
                    &&& r is None
                    &&& final(self)@ == v
                }
            }),
    {
        if !self.page_requested && self.last_sequence.value() < self.latest_known.value() {
            self.page_requested = true;
            Some(PageRequest { account_id: self.account_id, after: self.last_sequence, limit: self.buffer_size })
        } else {
            None
        }
    }

    /// The event held for augmentation, if any.
    pub fn held_for_augmentation(&self) -> (e: Option<&OutboxEvent>)
        ensures
            e is Some <==> self@.next_to_augment is Some,
            e is Some ==> *e->0 == self@.next_to_augment->0,
    {
        self.next_to_augment.as_ref()
    }

    /// The listener's next step: an event held for augmentation is waited
    /// on; else the next event in order is handed out, or held when the
    /// listener augments events; else a page is requested when events are
    /// known to exist beyond the last handed out.
    pub fn poll_step(&mut self) -> (step: ListenerStep)
        requires
            listener_wf(old(self)@),
        ensures
            listener_wf(final(self)@),
            (step_view(step), final(self)@) == polled(old(self)@),
            ({
                let v = old(self)@;
                if v.next_to_augment is Some {
                    &&& !step.abort_page
                    &&& if !v.augmentation_requested {
                        &&& step.action == ListenerAction::FetchAugmentation { account_id: v.account_id }
                        &&& final(self)@ == (ListenerView { augmentation_requested: true, ..v })
                    } else {
                        &&& step.action == ListenerAction::Wait
                        &&& final(self)@ == v
                    }
                } else if v.cache.len() > 0 && seq_of(v.cache[0]) == v.last_sequence + 1 {
                    &&& step.abort_page == v.page_requested
                    &&& if v.has_augmenter {
                        &&& step.action == ListenerAction::FetchAugmentation { account_id: v.account_id }
                        &&& final(self)@ == (ListenerView {
                            last_sequence: v.last_sequence + 1,
                            cache: v.cache.drop_first(),
                            page_requested: false,
                            next_to_augment: Some(v.cache[0]),
                            augmentation_requested: true,
                            ..v
                        })
                    } else {
                        &&& step.action == ListenerAction::Deliver(v.cache[0])
                        &&& final(self)@ == (ListenerView {
                            last_sequence: v.last_sequence + 1,
                            cache: v.cache.drop_first(),
                            page_requested: false,
                            ..v
                        })
                    }
                } else if !v.page_requested && v.last_sequence < v.latest_known {
                    &&& !step.abort_page
                    &&& step.action matches ListenerAction::FetchPage(p) && p.account_id == v.account_id
                        && p.after@ == v.last_sequence && p.limit == v.buffer_size
                    &&& final(self)@ == (ListenerView { page_requested: true, ..v })
                } else {
                    &&& !step.abort_page
                    &&& step.action == ListenerAction::Wait
                    &&& final(self)@ == v
                }
            }),
    {
        if self.next_to_augment.is_some() {
            if !self.augmentation_requested {
                self.augmentation_requested = true;
                return ListenerStep {
                    action: ListenerAction::FetchAugmentation { account_id: self.account_id },
                    abort_page: false,
                };
            }
            return ListenerStep { action: ListenerAction::Wait, abort_page: false };
        }
        let page_was_requested = self.page_requested;
        match self.next_ready() {
            Some(e) => {
                if self.has_augmenter {
                    self.next_to_augment = Some(e);
                    self.augmentation_requested = true;
                    ListenerStep {
                        action: ListenerAction::FetchAugmentation { account_id: self.account_id },
                        abort_page: page_was_requested,
                    }
                } else {
                    ListenerStep { action: ListenerAction::Deliver(e), abort_page: page_was_requested }
                }
            },
            None => {
                match self.page_request() {
                    Some(p) => ListenerStep { action: ListenerAction::FetchPage(p), abort_page: false },
                    None => ListenerStep { action: ListenerAction::Wait, abort_page: false },
                }
            },
        }
    }

    /// Takes in the outcome of loading the held event's augmentation: once
    /// loaded, the held event is handed out (to be delivered with it); when
    /// loading failed, it is requested again on the next step.
    pub fn augmentation_done(&mut self, loaded: bool) -> (e: Option<OutboxEvent>)
        requires
            listener_wf(old(self)@),
        ensures
            listener_wf(final(self)@),
            (e, final(self)@) == augmentation_outcome(old(self)@, loaded),
            ({
                let v = old(self)@;
                if loaded && v.augmentation_requested {
                    &&& e == v.next_to_augment
                    &&& final(self)@ == (ListenerView { next_to_augment: None, augmentation_requested: false, ..v })
                } else {
                    &&& e is None
                    &&& final(self)@ == (ListenerView { augmentation_requested: false, ..v })
                }
            }),
    {
        if loaded && self.augmentation_requested {
            self.augmentation_requested = false;
            self.next_to_augment.take()
        } else {
            self.augmentation_requested = false;
            None
        }
    }
}


/// One input keeps the order: what it hands out, then what is still pending,
/// is what was pending; each event handed out comes right after the last one
/// handed out before it.
proof fn lemma_applied_keeps_order(v: ListenerView, input: ListenerInput)
    requires
        listener_wf(v),
        held_is_last(v),
        hears_nothing(input),
    ensures
        ({
            let (e, w) = applied(v, input);
            &&& listener_wf(w)
            &&& held_is_last(w)
            &&& (match e {
                Some(x) => seq![x] + pending(w),
                None => pending(w),
            }) == pending(v)
            &&& delivered_through(w) == delivered_through(v) + (if e is Some { 1int } else { 0int })
            &&& (e matches Some(x) ==> seq_of(x) == delivered_through(v) + 1)
            &&& w.has_augmenter == v.has_augmenter
            &&& (!v.has_augmenter ==> w.next_to_augment is None)
        }),
{
    let (e, w) = applied(v, input);
    match input {
        ListenerInput::Poll => {
            if v.next_to_augment is None && v.cache.len() > 0 && seq_of(v.cache[0]) == v.last_sequence + 1 {
                assert(v.cache[0].account_id == v.account_id);
                assert(seq![v.cache[0]] + v.cache.drop_first() =~= v.cache);
                assert forall|i: int| 0 <= i < w.cache.len() implies seq_of(#[trigger] w.cache[i]) > w.last_sequence by {
                    assert(w.cache[i] == v.cache[i + 1]);
                    assert(seq_of(v.cache[0]) < seq_of(v.cache[i + 1]));
                }
                assert forall|i: int| 0 <= i < w.cache.len() implies (#[trigger] w.cache[i]).account_id == w.account_id by {
                    assert(w.cache[i] == v.cache[i + 1]);
                }
                assert forall|a: int, b: int| 0 <= a < b < w.cache.len() implies seq_of(#[trigger] w.cache[a]) < seq_of(#[trigger] w.cache[b]) by {
                    assert(w.cache[a] == v.cache[a + 1] && w.cache[b] == v.cache[b + 1]);
                }
            }
        },
        _ => {},
    }
}

/// Driven by steps and by the outcomes of loading augmentations, with no new
/// events heard, a listener hands out the events it has taken in in order,
/// none dropped and none twice: what it hands out, then what is still
/// pending, is what was pending; the events handed out are numbered one after
/// another, right after the last one handed out before. A failed augmentation
/// keeps its event pending, to be requested again; a listener without an
/// augmenter never holds an event back.
pub proof fn lemma_listener_hands_out_in_order(v: ListenerView, inputs: Seq<ListenerInput>)
    requires
        listener_wf(v),
        held_is_last(v),
        forall|i: int| 0 <= i < inputs.len() ==> hears_nothing(#[trigger] inputs[i]),
    ensures
        ({
            let (out, w) = run(v, inputs);
            &&& listener_wf(w)
            &&& held_is_last(w)
            &&& out + pending(w) == pending(v)
            &&& delivered_through(w) == delivered_through(v) + out.len()
            &&& forall|i: int| 0 <= i < out.len() ==> seq_of(#[trigger] out[i]) == delivered_through(v) + 1 + i
            &&& w.has_augmenter == v.has_augmenter
            &&& (!v.has_augmenter ==> w.next_to_augment is None)
        }),
    decreases inputs.len(),
{
    if inputs.len() == 0 {
        assert(Seq::<OutboxEvent>::empty() + pending(v) =~= pending(v));
    } else {
        let (out, w) = run(v, inputs.drop_last());
        assert forall|i: int| 0 <= i < inputs.drop_last().len() implies hears_nothing(#[trigger] inputs.drop_last()[i]) by {
            assert(inputs.drop_last()[i] == inputs[i]);
        }
        lemma_listener_hands_out_in_order(v, inputs.drop_last());
        lemma_applied_keeps_order(w, inputs.last());
        let (e, x) = applied(w, inputs.last());
        match e {
            Some(y) => {
                assert(out.push(y) + pending(x) =~= out + (seq![y] + pending(x)));
                assert forall|i: int| 0 <= i < out.push(y).len() implies seq_of(#[trigger] out.push(y)[i]) == delivered_through(v) + 1 + i by {
                    if i < out.len() {
                        assert(out.push(y)[i] == out[i]);
                    }
                }
            },
            None => {},
        }
    }
}

/// A failed augmentation keeps its event held, and the next step requests
/// its augmentation again.
pub proof fn lemma_failed_augmentation_is_requested_again(v: ListenerView)
    requires
        listener_wf(v),
        v.next_to_augment is Some,
    ensures
        ({
            let (e, w) = augmentation_outcome(v, false);
            &&& e is None
            &&& w.next_to_augment == v.next_to_augment
            &&& polled(w).0 == (StepView::FetchAugmentation { account_id: v.account_id }, false)
            &&& polled(w).1.next_to_augment == v.next_to_augment
        }),
{
}

/// An event is in a concatenation when it is in either part.
proof fn lemma_concat_contains(a: Seq<OutboxEvent>, b: Seq<OutboxEvent>, x: OutboxEvent)
    ensures
        (a + b).contains(x) <==> (a.contains(x) || b.contains(x)),
{
    if a.contains(x) {
        let i = choose|i: int| 0 <= i < a.len() && a[i] == x;
        assert((a + b)[i] == x);
    }
    if b.contains(x) {
        let i = choose|i: int| 0 <= i < b.len() && b[i] == x;
        assert((a + b)[a.len() + i] == x);
    }
    if (a + b).contains(x) {
        let i = choose|i: int| 0 <= i < (a + b).len() && (a + b)[i] == x;
        if i < a.len() {
            assert(a[i] == x);
        } else {
            assert(b[i - a.len()] == x);
        }
    }
}

/// The events pending are the held one and those of the cache.
proof fn lemma_pending_contains(v: ListenerView, x: OutboxEvent)
    ensures
        pending(v).contains(x) <==> (v.next_to_augment == Some(x) || v.cache.contains(x)),
{
    match v.next_to_augment {
        Some(h) => {
            lemma_concat_contains(seq![h], v.cache, x);
            if x == h {
                assert(seq![h][0] == x);
            }
            if seq![h].contains(x) {
                let i = choose|i: int| 0 <= i < 1 && seq![h][i] == x;
                assert(i == 0);
            }
        },
        None => {},
    }
}

/// Inserting an event of the account after `lb` into a sorted cache of such
/// events keeps it sorted and of such events, adds at most one, and brings in
/// nothing but the new event.
proof fn lemma_insert_sorted_keeps_cache(s: Seq<OutboxEvent>, e: OutboxEvent, lb: int, acc: AccountId)
    requires
        strictly_sorted(s),
        forall|j: int| 0 <= j < s.len() ==> seq_of(#[trigger] s[j]) > lb && s[j].account_id == acc,
        seq_of(e) > lb,
        e.account_id == acc,
    ensures
        strictly_sorted(insert_sorted(s, e)),
        insert_sorted(s, e).len() <= s.len() + 1,
        forall|j: int| 0 <= j < insert_sorted(s, e).len() ==> {
            let x = #[trigger] insert_sorted(s, e)[j];
            &&& seq_of(x) > lb
            &&& x.account_id == acc
            &&& (x == e || s.contains(x))
        },
    decreases s.len(),
{
    let t = insert_sorted(s, e);
    if s.len() == 0 {
    } else if seq_of(s.last()) < seq_of(e) {
        assert forall|j: int| 0 <= j < t.len() implies {
            let x = #[trigger] t[j];
            &&& seq_of(x) > lb
            &&& x.account_id == acc
            &&& (x == e || s.contains(x))
        } by {
            if j < s.len() {
                assert(t[j] == s[j]);
            }
        }
        assert forall|a: int, b: int| 0 <= a < b < t.len() implies seq_of(#[trigger] t[a]) < seq_of(#[trigger] t[b]) by {
            assert(t[a] == s[a]);
            if b < s.len() {
                assert(t[b] == s[b]);
            } else if a < s.len() - 1 {
                assert(seq_of(s[a]) < seq_of(s[s.len() - 1]));
            }
        }
    } else if seq_of(s.last()) == seq_of(e) {
        let d = s.drop_last();
        assert forall|j: int| 0 <= j < t.len() implies {
            let x = #[trigger] t[j];
            &&& seq_of(x) > lb
            &&& x.account_id == acc
            &&& (x == e || s.contains(x))
        } by {
            if j < d.len() {
                assert(t[j] == s[j]);
            }
        }
        assert forall|a: int, b: int| 0 <= a < b < t.len() implies seq_of(#[trigger] t[a]) < seq_of(#[trigger] t[b]) by {
            assert(t[a] == s[a]);
            if b < d.len() {
                assert(t[b] == s[b]);
            } else {
                assert(seq_of(s[a]) < seq_of(s[s.len() - 1]));
            }
        }
    } else {
        let d = s.drop_last();
        let last = s.last();
        assert forall|a: int, b: int| 0 <= a < b < d.len() implies seq_of(#[trigger] d[a]) < seq_of(#[trigger] d[b]) by {
            assert(d[a] == s[a] && d[b] == s[b]);
        }
        assert forall|j: int| 0 <= j < d.len() implies seq_of(#[trigger] d[j]) > lb && d[j].account_id == acc by {
            assert(d[j] == s[j]);
        }
        lemma_insert_sorted_keeps_cache(d, e, lb, acc);
        let u = insert_sorted(d, e);
        assert(t == u.push(last));
        assert forall|j: int| 0 <= j < u.len() implies seq_of(#[trigger] u[j]) < seq_of(last) && (u[j] == e || s.contains(u[j])) by {
            let x = u[j];
            if x != e {
                assert(d.contains(x));
                let k = choose|k: int| 0 <= k < d.len() && d[k] == x;
                assert(s[k] == x);
                assert(seq_of(s[k]) < seq_of(s[s.len() - 1]));
            }
        }
        assert forall|j: int| 0 <= j < t.len() implies {
            let x = #[trigger] t[j];
            &&& seq_of(x) > lb
            &&& x.account_id == acc
            &&& (x == e || s.contains(x))
        } by {
            if j < u.len() {
                assert(t[j] == u[j]);
            } else {
                assert(t[j] == s[s.len() - 1]);
            }
        }
        assert forall|a: int, b: int| 0 <= a < b < t.len() implies seq_of(#[trigger] t[a]) < seq_of(#[trigger] t[b]) by {
            assert(t[a] == u[a]);
            if b < u.len() {
                assert(t[b] == u[b]);
            }
        }
    }
}

/// Hearing an event keeps the listener's invariant, changes nothing but what
/// is known to exist and the cache, and caches nothing but the event heard.
proof fn lemma_heard_keeps_listener(v: ListenerView, e: OutboxEvent)
    requires
        listener_wf(v),
        held_is_last(v),
    ensures
        listener_wf(heard(v, e)),
        held_is_last(heard(v, e)),
        heard(v, e) == (ListenerView { latest_known: heard(v, e).latest_known, cache: heard(v, e).cache, ..v }),
        forall|x: OutboxEvent| #[trigger] heard(v, e).cache.contains(x) ==> v.cache.contains(x) || x == e,
{
    let w = heard(v, e);
    if e.account_id == v.account_id && seq_of(e) > v.last_sequence {
        let c = v.cache;
        lemma_insert_sorted_keeps_cache(c, e, v.last_sequence, v.account_id);
        let t = insert_sorted(c, e);
        if t.len() > c.len() && t.len() > v.buffer_size {
            let u = t.drop_last();
            assert(w.cache == u);
            assert forall|a: int, b: int| 0 <= a < b < u.len() implies seq_of(#[trigger] u[a]) < seq_of(#[trigger] u[b]) by {
                assert(u[a] == t[a] && u[b] == t[b]);
            }
            assert forall|i: int| 0 <= i < u.len() implies seq_of(#[trigger] u[i]) > v.last_sequence && u[i].account_id == v.account_id by {
                assert(u[i] == t[i]);
            }
            assert forall|x: OutboxEvent| #[trigger] u.contains(x) implies c.contains(x) || x == e by {
                let k = choose|k: int| 0 <= k < u.len() && u[k] == x;
                assert(t[k] == x);
            }
        } else {
            assert(w.cache == t);
            assert forall|x: OutboxEvent| #[trigger] t.contains(x) implies c.contains(x) || x == e by {
                let k = choose|k: int| 0 <= k < t.len() && t[k] == x;
            }
        }
    }
}

/// Hearing events in order keeps the listener's invariant, changes nothing
/// but what is known to exist and the cache, and caches nothing but events
/// heard.
proof fn lemma_heard_all_keeps_listener(v: ListenerView, es: Seq<OutboxEvent>)
    requires
        listener_wf(v),
        held_is_last(v),
    ensures
        listener_wf(heard_all(v, es)),
        held_is_last(heard_all(v, es)),
        heard_all(v, es) == (ListenerView { latest_known: heard_all(v, es).latest_known, cache: heard_all(v, es).cache, ..v }),
        forall|x: OutboxEvent| #[trigger] heard_all(v, es).cache.contains(x) ==> v.cache.contains(x) || es.contains(x),
    decreases es.len(),
{
    if es.len() > 0 {
        let d = es.drop_last();
        lemma_heard_all_keeps_listener(v, d);
        let w = heard_all(v, d);
        lemma_heard_keeps_listener(w, es.last());
        assert forall|x: OutboxEvent| #[trigger] heard_all(v, es).cache.contains(x) implies v.cache.contains(x) || es.contains(x) by {
            if w.cache.contains(x) {
                if d.contains(x) {
                    let k = choose|k: int| 0 <= k < d.len() && d[k] == x;
                    assert(es[k] == x);
                }
            } else {
                assert(es[es.len() - 1] == x);
            }
        }
    }
}

/// Every event pending is of the listener's account.
proof fn lemma_pending_of_account(v: ListenerView, x: OutboxEvent)
    requires
        listener_wf(v),
        held_is_last(v),
        pending(v).contains(x),
    ensures
        x.account_id == v.account_id,
{
    lemma_pending_contains(v, x);
    if v.cache.contains(x) {
        let k = choose|k: int| 0 <= k < v.cache.len() && v.cache[k] == x;
        assert(v.cache[k].account_id == v.account_id);
    }
}

/// One input of any kind: the event it hands out, if any, is the next one in
/// order and was pending; what is pending afterwards was pending before or
/// came with the input.
proof fn lemma_applied_hands_out_next(v: ListenerView, input: ListenerInput)
    requires
        listener_wf(v),
        held_is_last(v),
    ensures
        ({
            let (e, w) = applied(v, input);
            &&& listener_wf(w)
            &&& held_is_last(w)
            &&& w.account_id == v.account_id
            &&& w.has_augmenter == v.has_augmenter
            &&& (!v.has_augmenter ==> w.next_to_augment is None)
            &&& delivered_through(w) == delivered_through(v) + (if e is Some { 1int } else { 0int })
            &&& (e matches Some(x) ==> seq_of(x) == delivered_through(v) + 1 && pending(v).contains(x))
            &&& forall|x: OutboxEvent| #[trigger] pending(w).contains(x) ==> pending(v).contains(x) || heard_in(input).contains(x)
        }),
{
    let (e, w) = applied(v, input);
    if hears_nothing(input) {
        lemma_applied_keeps_order(v, input);
        match e {
            Some(y) => {
                assert(pending(v)[0] == y);
                assert forall|x: OutboxEvent| #[trigger] pending(w).contains(x) implies pending(v).contains(x) by {
                    lemma_concat_contains(seq![y], pending(w), x);
                }
            },
            None => {},
        }
    } else {
        match input {
            ListenerInput::Heard(h) => {
                lemma_heard_keeps_listener(v, h);
                assert forall|x: OutboxEvent| #[trigger] pending(w).contains(x) implies pending(v).contains(x) || heard_in(input).contains(x) by {
                    lemma_pending_contains(w, x);
                    lemma_pending_contains(v, x);
                    if x == h {
                        assert(heard_in(input)[0] == x);
                    }
                }
            },
            ListenerInput::PageLoaded(es) => {
                lemma_heard_all_keeps_listener(v, es);
                assert forall|x: OutboxEvent| #[trigger] pending(w).contains(x) implies pending(v).contains(x) || heard_in(input).contains(x) by {
                    lemma_pending_contains(w, x);
                    lemma_pending_contains(v, x);
                    lemma_pending_contains(heard_all(v, es), x);
                }
            },
            _ => {},
        }
    }
}

/// Driven by any inputs, new events heard live and pages read among them, a
/// listener hands out its account's events in the order of their sequences,
/// without gaps and none twice: the events handed out are numbered one after
/// another, right after the last one handed out before, and the last one
/// handed out is where the listener then stands. Each event handed out was
/// pending at the start or came with an input, and is of the listener's
/// account; a listener without an augmenter never holds an event back.
pub proof fn lemma_listener_hands_out_in_order_while_hearing(v: ListenerView, inputs: Seq<ListenerInput>)
    requires
        listener_wf(v),
        held_is_last(v),
    ensures
        ({
            let (out, w) = run(v, inputs);
            &&& listener_wf(w)
            &&& held_is_last(w)
            &&& w.account_id == v.account_id
            &&& w.has_augmenter == v.has_augmenter
            &&& (!v.has_augmenter ==> w.next_to_augment is None)
            &&& delivered_through(w) == delivered_through(v) + out.len()
            &&& forall|i: int| 0 <= i < out.len() ==> {
                let x = #[trigger] out[i];
                &&& seq_of(x) == delivered_through(v) + 1 + i
                &&& x.account_id == v.account_id
                &&& (pending(v).contains(x) || all_heard(inputs).contains(x))
            }
            &&& (out.len() > 0 ==> delivered_through(w) == seq_of(out.last()))
            &&& forall|x: OutboxEvent| #[trigger] pending(w).contains(x) ==> pending(v).contains(x) || all_heard(inputs).contains(x)
        }),
    decreases inputs.len(),
{
    let (out, w) = run(v, inputs);
    if inputs.len() > 0 {
        let d = inputs.drop_last();
        let last = inputs.last();
        let (out0, w0) = run(v, d);
        lemma_listener_hands_out_in_order_while_hearing(v, d);
        lemma_applied_hands_out_next(w0, last);
        let (e, x) = applied(w0, last);
        assert(all_heard(inputs) == all_heard(d) + heard_in(last));
        assert forall|y: OutboxEvent| #[trigger] pending(x).contains(y) implies pending(v).contains(y) || all_heard(inputs).contains(y) by {
            lemma_concat_contains(all_heard(d), heard_in(last), y);
        }
        match e {
            Some(y) => {
                assert(out == out0.push(y));
                lemma_pending_of_account(w0, y);
                lemma_concat_contains(all_heard(d), heard_in(last), y);
                assert forall|i: int| 0 <= i < out.len() implies {
                    let z = #[trigger] out[i];
                    &&& seq_of(z) == delivered_through(v) + 1 + i
                    &&& z.account_id == v.account_id
                    &&& (pending(v).contains(z) || all_heard(inputs).contains(z))
                } by {
                    if i < out0.len() {
                        assert(out[i] == out0[i]);
                        lemma_concat_contains(all_heard(d), heard_in(last), out0[i]);
                    }
                }
            },
            None => {
                assert forall|i: int| 0 <= i < out.len() implies {
                    let z = #[trigger] out[i];
                    &&& seq_of(z) == delivered_through(v) + 1 + i
                    &&& z.account_id == v.account_id
                    &&& (pending(v).contains(z) || all_heard(inputs).contains(z))
                } by {
                    lemma_concat_contains(all_heard(d), heard_in(last), out0[i]);
                }
            },
        }
    }
}

} // verus!
