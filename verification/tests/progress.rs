use ebidownload::progress::ProgressLedger;

#[test]
fn unreadable_ledger_counts_as_empty() {
    let ledger = ProgressLedger::load(None);
    assert!(ledger.is_empty());
    assert_eq!(ledger.len(), 0);
    assert!(ledger.ids().is_empty());
}

#[test]
fn ledger_holds_each_id_once() {
    let mut ledger = ProgressLedger::load(Some(&[3, 1, 3, 2, 1]));
    assert_eq!(ledger.len(), 3);
    assert!(ledger.contains(1) && ledger.contains(2) && ledger.contains(3));
    assert!(!ledger.contains(0));
    assert!(!ledger.insert(2));
    assert!(ledger.insert(7));
    assert_eq!(ledger.len(), 4);
    let mut ids = ledger.ids();
    ids.sort();
    assert_eq!(ids, vec![1, 2, 3, 7]);
}
