use operator_core::audit::{hash_record, AuditChain};

#[test]
fn audit_hash_covers_event_alone_at_start() {
    assert_eq!(
        hash_record(None, "abc"),
        "ba7816bf8f01cfea414140de5dae2223b00361a396177a9cb410ff61f20015ad"
    );
}

#[test]
fn audit_hash_covers_previous_hash_then_event() {
    assert_eq!(
        hash_record(Some("prev-hash"), "{\"step\":2}"),
        "f301c49daeca89a373ecbf9f7703d74a7fb9e1fc8406d60a70d5999b32d5b955"
    );
}

#[test]
fn audit_chain_links_consecutive_records() {
    let mut chain = AuditChain::new();
    assert_eq!(chain.previous_hash(), None);
    let first = chain.seal("{\"step\":1}");
    assert_eq!(first.previous_hash, None);
    assert_eq!(
        first.record_hash,
        "8565a568653654ae5b4d4444245fa76e8bdea8c7d0db4a75bcffbb60bd6a0452"
    );
    chain.commit(&first);
    let second = chain.seal("{\"step\":2}");
    assert_eq!(second.previous_hash, Some(first.record_hash.clone()));
    assert_eq!(second.record_hash, hash_record(Some(&first.record_hash), "{\"step\":2}"));
    chain.commit(&second);
    assert_eq!(chain.previous_hash(), Some(second.record_hash));
}

#[test]
fn audit_chain_unwritten_record_does_not_advance() {
    let chain = AuditChain::new();
    let attempted = chain.seal("{\"step\":1}");
    let retried = chain.seal("{\"step\":1}");
    assert_eq!(attempted.record_hash, retried.record_hash);
    assert_eq!(retried.previous_hash, None);
}
