use bria::ledger::event::{JournalEvent, JournalEventKind, JournalEventMetadata, UtxoSettledMeta};
use bria::ledger::templates::shared_meta::PayoutDestination;
use bria::ledger::templates::utxo_detected::UtxoDetectedMeta;
use bria::outbox::augmentation::{AugmentationLookup, Augmenter};
use bria::outbox::event::{payloads_from, EventSequence, OutboxEvent, OutboxEventPayload};
use bria::outbox::listener::{start_position, ListenerAction, OutboxListener};
use bria::outbox::sequences::{next_event, prepare_event, SequenceElems, SequenceTable};
use bria::outbox::DEFAULT_BUFFER_SIZE;
use bria::primitives::{BlockTime, OutPoint, Txid};

fn txid(n: u128) -> Txid {
    Txid { hi: 0, lo: n }
}

fn payload(n: u32) -> OutboxEventPayload {
    OutboxEventPayload::UtxoDetected {
        tx_id: txid(n as u128),
        vout: n,
        satoshis: 1000,
        address: format!("bc1q{n}"),
        wallet_id: 7,
        keychain_id: 8,
    }
}

fn event(account_id: u128, seq: u64) -> OutboxEvent {
    OutboxEvent {
        id: 1000 + seq as u128,
        account_id,
        sequence: EventSequence::from(seq),
        payload: payload(seq as u32),
        ledger_event_id: Some(seq as i64),
        ledger_tx_id: None,
        recorded_at: 0,
    }
}

fn seq_of(e: &OutboxEvent) -> u64 {
    u64::from(e.sequence)
}

fn detected_meta() -> UtxoDetectedMeta {
    UtxoDetectedMeta {
        account_id: 1,
        wallet_id: 2,
        keychain_id: 3,
        outpoint: OutPoint { txid: txid(9), vout: 4 },
        satoshis: 50_000,
        address: "bc1qdetected".to_string(),
        encumbered_spending_fees: vec![(OutPoint { txid: txid(9), vout: 4 }, 300)],
        confirmation_time: None,
    }
}

#[test]
fn event_sequence_starts_at_zero_and_counts_up() {
    let begin = EventSequence::begin();
    assert_eq!(begin.value(), 0);
    assert_eq!(begin.next().value(), 1);
    assert_eq!(begin.next().next().value(), 2);
}

#[test]
fn event_sequence_round_trips_through_u64() {
    for n in [0u64, 1, 42, i64::MAX as u64] {
        assert_eq!(u64::from(EventSequence::from(n)), n);
    }
}

#[test]
fn detected_utxo_gives_one_payload() {
    let payloads = payloads_from(JournalEventMetadata::UtxoDetected(detected_meta(), 11));
    assert_eq!(payloads.len(), 1);
    match &payloads[0] {
        OutboxEventPayload::UtxoDetected { tx_id, vout, satoshis, address, wallet_id, keychain_id } => {
            assert_eq!(*tx_id, txid(9));
            assert_eq!(*vout, 4);
            assert_eq!(*satoshis, 50_000);
            assert_eq!(address, "bc1qdetected");
            assert_eq!(*wallet_id, 2);
            assert_eq!(*keychain_id, 3);
        }
        other => panic!("unexpected payload {other:?}"),
    }
}

#[test]
fn settled_utxo_and_submitted_payout_give_payloads() {
    let settled = UtxoSettledMeta {
        account_id: 1,
        wallet_id: 2,
        keychain_id: 3,
        confirmation_time: BlockTime { height: 800_000, timestamp: 1_700_000_000 },
        satoshis: 10,
        outpoint: OutPoint { txid: txid(5), vout: 0 },
        address: "bc1qs".to_string(),
        already_spent_tx_id: None,
    };
    let p = payloads_from(JournalEventMetadata::UtxoSettled(settled));
    assert!(matches!(&p[..], [OutboxEventPayload::UtxoSettled { confirmation_time, .. }] if confirmation_time.height == 800_000));

    let other = payloads_from(JournalEventMetadata::Other(JournalEventKind::SpendDetected, None));
    assert!(other.is_empty());
}

#[test]
fn listener_hands_out_events_in_order_without_gaps() {
    let mut l = OutboxListener::new(1, EventSequence::from(0), EventSequence::from(0), 10, false);
    l.maybe_add_to_cache(event(1, 2));
    assert!(l.next_ready().is_none());
    l.maybe_add_to_cache(event(1, 1));
    assert_eq!(seq_of(&l.next_ready().unwrap()), 1);
    assert_eq!(seq_of(&l.next_ready().unwrap()), 2);
    assert!(l.next_ready().is_none());
}

#[test]
fn listener_ignores_other_accounts_and_old_events() {
    let mut l = OutboxListener::new(1, EventSequence::from(3), EventSequence::from(3), 10, false);
    l.maybe_add_to_cache(event(2, 4));
    l.maybe_add_to_cache(event(1, 3));
    l.maybe_add_to_cache(event(1, 2));
    assert!(l.next_ready().is_none());
    assert!(l.page_request().is_none());
    l.maybe_add_to_cache(event(1, 4));
    assert_eq!(seq_of(&l.next_ready().unwrap()), 4);
}

#[test]
fn listener_hearing_an_event_twice_hands_it_out_once() {
    let mut l = OutboxListener::new(1, EventSequence::from(0), EventSequence::from(0), 10, false);
    l.maybe_add_to_cache(event(1, 1));
    l.maybe_add_to_cache(event(1, 1));
    assert_eq!(seq_of(&l.next_ready().unwrap()), 1);
    assert!(l.next_ready().is_none());
    l.maybe_add_to_cache(event(1, 1));
    assert!(l.next_ready().is_none());
}

#[test]
fn listener_cache_drops_the_latest_beyond_its_buffer_and_pages_them_in() {
    let mut l = OutboxListener::new(1, EventSequence::from(0), EventSequence::from(0), 2, false);
    l.maybe_add_to_cache(event(1, 5));
    l.maybe_add_to_cache(event(1, 4));
    l.maybe_add_to_cache(event(1, 3));
    // 5 was dropped; a page after 0 is needed since 5 is known to exist.
    let page = l.page_request().expect("page request");
    assert_eq!(page.account_id, 1);
    assert_eq!(u64::from(page.after), 0);
    assert_eq!(page.limit, 2);
    assert!(l.page_request().is_none());
    l.receive_page(vec![event(1, 1), event(1, 2)]);
    // the page's earlier events push the later ones out of the cache
    let delivered: Vec<u64> = std::iter::from_fn(|| l.next_ready()).map(|e| seq_of(&e)).collect();
    assert_eq!(delivered, vec![1, 2]);
    let page = l.page_request().expect("second page");
    assert_eq!(u64::from(page.after), 2);
}

#[test]
fn listener_poll_step_delivers_or_requests_pages() {
    let mut l = OutboxListener::new(1, EventSequence::from(0), EventSequence::from(2), 10, false);
    let step = l.poll_step();
    assert!(matches!(step.action, ListenerAction::FetchPage(p) if u64::from(p.after) == 0));
    assert!(!step.abort_page);
    assert!(matches!(l.poll_step().action, ListenerAction::Wait));
    l.maybe_add_to_cache(event(1, 1));
    let step = l.poll_step();
    assert!(step.abort_page);
    assert!(matches!(step.action, ListenerAction::Deliver(ref e) if seq_of(e) == 1));
}

#[test]
fn listener_with_augmenter_holds_events_until_augmented() {
    let mut l = OutboxListener::new(1, EventSequence::from(0), EventSequence::from(0), 10, true);
    l.maybe_add_to_cache(event(1, 1));
    l.maybe_add_to_cache(event(1, 2));
    assert!(matches!(l.poll_step().action, ListenerAction::FetchAugmentation { account_id: 1 }));
    assert_eq!(seq_of(l.held_for_augmentation().unwrap()), 1);
    assert!(matches!(l.poll_step().action, ListenerAction::Wait));
    assert!(l.augmentation_done(false).is_none());
    assert!(matches!(l.poll_step().action, ListenerAction::FetchAugmentation { .. }));
    let e = l.augmentation_done(true).unwrap();
    assert_eq!(seq_of(&e), 1);
    assert!(l.held_for_augmentation().is_none());
    assert!(matches!(l.poll_step().action, ListenerAction::FetchAugmentation { .. }));
    assert_eq!(seq_of(l.held_for_augmentation().unwrap()), 2);
}

#[test]
fn listener_starts_after_latest_known_by_default() {
    assert_eq!(u64::from(start_position(None, EventSequence::from(9))), 9);
    assert_eq!(u64::from(start_position(Some(EventSequence::from(3)), EventSequence::from(9))), 3);
    assert_eq!(DEFAULT_BUFFER_SIZE, 100);
}

#[test]
fn sequence_table_numbers_events_one_after_another() {
    let mut t = SequenceTable::new();
    assert!(t.lookup(1).is_none());
    let cur = t.entry_or_begin(1);
    assert_eq!(cur.sequence.value(), 0);
    assert_eq!(cur.ledger_event_id, None);
    let je = JournalEvent::new(1, 77, 5, 123, JournalEventMetadata::UtxoDetected(detected_meta(), 5));
    let e = prepare_event(99, cur, je).expect("payload");
    assert_eq!(e.id, 99);
    assert_eq!(e.account_id, 1);
    assert_eq!(seq_of(&e), 1);
    assert_eq!(e.ledger_event_id, Some(5));
    assert_eq!(e.ledger_tx_id, Some(77));
    assert_eq!(e.recorded_at, 123);
    t.record(&e);
    let cur = t.lookup(1).unwrap();
    assert_eq!(cur.sequence.value(), 1);
    assert_eq!(cur.ledger_event_id, Some(5));
    let je = JournalEvent::new(1, 78, 6, 124, JournalEventMetadata::UtxoDetected(detected_meta(), 6));
    assert_eq!(seq_of(&prepare_event(100, cur, je).unwrap()), 2);
}

#[test]
fn sequence_table_skips_events_without_payload_and_forgets() {
    let mut t = SequenceTable::new();
    let cur = t.entry_or_begin(4);
    let je = JournalEvent::new(4, 1, 1, 1, JournalEventMetadata::Other(JournalEventKind::BatchCreated, None));
    assert!(prepare_event(1, cur, je).is_none());
    t.forget(4);
    assert!(t.lookup(4).is_none());
}

#[test]
fn sequence_table_observes_only_later_sequences() {
    let mut t = SequenceTable::new();
    t.load(vec![(1, SequenceElems { sequence: EventSequence::from(5), ledger_event_id: Some(50) })]);
    t.observe(1, EventSequence::from(3), Some(30));
    assert_eq!(t.lookup(1).unwrap().sequence.value(), 5);
    assert_eq!(t.lookup(1).unwrap().ledger_event_id, Some(50));
    t.observe(1, EventSequence::from(7), None);
    assert_eq!(t.lookup(1).unwrap().sequence.value(), 7);
    assert_eq!(t.lookup(1).unwrap().ledger_event_id, Some(50));
    t.observe(2, EventSequence::from(1), Some(10));
    assert_eq!(t.lookup(2).unwrap().sequence.value(), 1);
    assert_eq!(t.lookup(2).unwrap().ledger_event_id, Some(10));
}

#[test]
fn sequence_table_load_keeps_the_later_row() {
    let mut t = SequenceTable::new();
    t.load(vec![
        (1, SequenceElems { sequence: EventSequence::from(5), ledger_event_id: None }),
        (1, SequenceElems { sequence: EventSequence::from(6), ledger_event_id: Some(1) }),
    ]);
    assert_eq!(t.lookup(1).unwrap().sequence.value(), 6);
}

#[test]
fn augmenter_looks_up_addresses_and_payouts() {
    let a = Augmenter::new();
    match a.lookup_for(&payload(3)) {
        AugmentationLookup::Address { address, wallet_id } => {
            assert_eq!(address, "bc1q3");
            assert_eq!(wallet_id, 7);
        }
        other => panic!("unexpected {other:?}"),
    }
    let p = OutboxEventPayload::PayoutQueued {
        id: 55,
        wallet_id: 7,
        satoshis: 10,
        destination: PayoutDestination::OnchainAddress { value: "bc1qx".to_string() },
    };
    assert!(matches!(a.lookup_for(&p), AugmentationLookup::Payout { id: 55 }));
}

#[test]
fn listener_with_no_buffer_caches_nothing_and_pages_instead() {
    let mut l = OutboxListener::new(1, EventSequence::from(0), EventSequence::from(0), 0, false);
    l.maybe_add_to_cache(event(1, 1));
    assert!(l.next_ready().is_none());
    let page = l.page_request().expect("page");
    assert_eq!(page.limit, 0);
    l.page_failed();
    assert!(l.page_request().is_some());
}

#[test]
fn sequence_table_forgets_an_account_whose_event_was_not_persisted() {
    let mut t = SequenceTable::new();
    let cur = t.entry_or_begin(1);
    let je = JournalEvent::new(1, 2, 3, 4, JournalEventMetadata::UtxoDetected(detected_meta(), 3));
    let e = prepare_event(5, cur, je).unwrap();
    t.persisted(&e, false);
    assert!(t.lookup(1).is_none());
    let cur = t.entry_or_begin(1);
    let je = JournalEvent::new(1, 2, 3, 4, JournalEventMetadata::UtxoDetected(detected_meta(), 3));
    let e = prepare_event(5, cur, je).unwrap();
    t.persisted(&e, true);
    assert_eq!(t.lookup(1).unwrap().sequence.value(), 1);
    assert_eq!(t.lookup(1).unwrap().ledger_event_id, Some(3));
}

#[test]
fn listener_retries_failed_augmentations_and_keeps_the_order() {
    let mut l = OutboxListener::new(1, EventSequence::from(0), EventSequence::from(0), 10, true);
    for s in [3, 1, 2] {
        l.maybe_add_to_cache(event(1, s));
    }
    let mut out = Vec::new();
    let mut fail_next = true;
    for _ in 0..20 {
        match l.poll_step().action {
            ListenerAction::FetchAugmentation { .. } => {
                if fail_next {
                    assert!(l.augmentation_done(false).is_none());
                } else {
                    out.push(seq_of(&l.augmentation_done(true).unwrap()));
                }
                fail_next = !fail_next;
            }
            ListenerAction::Deliver(_) => panic!("an augmenting listener holds events back"),
            _ => {}
        }
    }
    assert_eq!(out, vec![1, 2, 3]);
}

#[test]
fn listener_hands_out_in_order_while_hearing_between_polls() {
    let mut l = OutboxListener::new(1, EventSequence::from(0), EventSequence::from(0), 3, false);
    let mut out: Vec<u64> = Vec::new();
    let poll = |l: &mut OutboxListener, out: &mut Vec<u64>| {
        let step = l.poll_step();
        match step.action {
            ListenerAction::Deliver(e) => {
                assert_eq!(e.account_id, 1);
                out.push(seq_of(&e));
                None
            }
            ListenerAction::FetchPage(p) => Some(u64::from(p.after)),
            _ => None,
        }
    };
    l.maybe_add_to_cache(event(1, 2));
    assert_eq!(poll(&mut l, &mut out), Some(0));
    l.maybe_add_to_cache(event(2, 1));
    l.maybe_add_to_cache(event(1, 4));
    assert_eq!(poll(&mut l, &mut out), None);
    l.receive_page(vec![event(1, 1), event(1, 2), event(1, 3)]);
    for _ in 0..3 {
        poll(&mut l, &mut out);
    }
    l.maybe_add_to_cache(event(1, 6));
    l.maybe_add_to_cache(event(1, 3));
    assert_eq!(poll(&mut l, &mut out), Some(3));
    l.page_failed();
    assert_eq!(poll(&mut l, &mut out), Some(3));
    l.receive_page(vec![event(1, 4), event(1, 5)]);
    for _ in 0..4 {
        poll(&mut l, &mut out);
    }
    assert_eq!(out, vec![1, 2, 3, 4, 5, 6]);
}

#[test]
fn next_event_draws_a_random_uuid_and_numbers_after_the_account() {
    let cur = SequenceElems { sequence: EventSequence::from(4), ledger_event_id: None };
    let je = JournalEvent::new(1, 77, 5, 123, JournalEventMetadata::UtxoDetected(detected_meta(), 5));
    let e = next_event(cur, je).expect("payload");
    assert_eq!(seq_of(&e), 5);
    assert_eq!(e.account_id, 1);
    assert_eq!((e.id >> 76) & 0xF, 4);
    assert_eq!((e.id >> 62) & 0x3, 2);
}
