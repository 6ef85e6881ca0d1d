use operator_core::connectors::{ConnectorCapabilityRegistry, ConnectorError, CrawlRequest, StaticSourceCrawler};
use operator_core::domain::{ConnectorCapability, ConnectorClass, IngestionMethod, OperationalMode, TrustLevel};

fn capability(id: &str, isolation: &str) -> ConnectorCapability {
    ConnectorCapability {
        connector_id: id.to_string(),
        class: ConnectorClass::ReadOnlyResearch,
        scopes: vec!["news.read".to_string(), "filings.read".to_string()],
        rate_limit_per_minute: 30,
        dry_run_supported: true,
        session_isolation: isolation.to_string(),
    }
}

fn crawler() -> StaticSourceCrawler {
    let mut registry = ConnectorCapabilityRegistry::default();
    registry.register(capability("approved-http", "read-only-profile"));
    StaticSourceCrawler::new(vec!["example.com".to_string(), "www.sec.gov".to_string()], registry)
}

fn crawl_request(connector: &str, url: &str, seed: Option<&str>) -> CrawlRequest {
    CrawlRequest {
        connector_id: connector.to_string(),
        url: url.to_string(),
        mode: OperationalMode::Research,
        entity_tags: vec!["btc".to_string()],
        market_tags: vec!["BTC-USD".to_string()],
        strategy_relevance_tags: vec![],
        seed_content: seed.map(|s| s.to_string()),
    }
}

#[test]
fn registry_reads_back_what_was_registered() {
    let mut registry = ConnectorCapabilityRegistry::default();
    assert!(registry.get("approved-http").is_none());
    registry.register(capability("approved-http", "first"));
    registry.register(capability("other", "other-profile"));
    registry.register(capability("approved-http", "second"));
    assert_eq!(registry.get("approved-http").unwrap().session_isolation, "second");
    assert_eq!(registry.get("other").unwrap().session_isolation, "other-profile");
    assert!(registry.get("missing").is_none());
}

#[test]
fn crawl_refuses_unapproved_host() {
    match crawler().crawl(crawl_request("approved-http", "https://evil.example.org/x", None)) {
        Err(ConnectorError::HostNotApproved(host)) => assert_eq!(host, "evil.example.org"),
        other => panic!("unexpected {:?}", other),
    }
}

#[test]
fn crawl_refuses_unknown_connector() {
    match crawler().crawl(crawl_request("rogue", "https://example.com/", None)) {
        Err(ConnectorError::UnknownConnector(id)) => assert_eq!(id, "rogue"),
        other => panic!("unexpected {:?}", other),
    }
}

#[test]
fn crawl_seeded_content_is_hashed() {
    let source = crawler()
        .crawl(crawl_request("approved-http", "https://example.com/news", Some("hello")))
        .unwrap();
    assert_eq!(source.content, "hello");
    assert_eq!(
        source.record.content_hash,
        "2cf24dba5fb0a30e26e83b2ac5b9e29e1b161e5c1fa7425e73043362938b9824"
    );
    assert_eq!(source.record.id, "src-2cf24dba5fb0");
    assert_eq!(source.record.source_name, "example.com");
    assert_eq!(source.record.source_uri, "https://example.com/news");
    assert_eq!(source.record.connector_id, "approved-http");
    assert_eq!(source.record.trust_level, TrustLevel::High);
    assert_eq!(source.record.ingestion_method, IngestionMethod::ScheduledCrawl);
    assert_eq!(source.record.entity_tags, vec!["btc".to_string()]);
    assert_eq!(source.record.market_tags, vec!["BTC-USD".to_string()]);
    assert_eq!(
        source.record.metadata,
        vec![
            ("mode".to_string(), "Research".to_string()),
            ("session_isolation".to_string(), "read-only-profile".to_string())
        ]
    );
}

#[test]
fn crawl_default_content_names_url_and_scopes() {
    let source = crawler()
        .crawl(crawl_request("approved-http", "https://www.sec.gov/filings", None))
        .unwrap();
    assert_eq!(
        source.content,
        "approved crawler snapshot from https://www.sec.gov/filings using scopes [\"news.read\", \"filings.read\"]"
    );
    assert_eq!(source.record.content_hash.len(), 64);
    assert!(source.record.id.starts_with("src-"));
    assert_eq!(source.record.id.len(), 16);
}

#[test]
fn crawl_from_given_host_uses_that_host() {
    let source = crawler()
        .crawl_from_host(crawl_request("approved-http", "https://mirror.test/a", Some("abc")), "www.sec.gov".to_string())
        .unwrap();
    assert_eq!(source.record.source_name, "www.sec.gov");
    assert_eq!(source.record.id, "src-ba7816bf8f01");
    match crawler().crawl_from_host(crawl_request("approved-http", "https://example.com/", None), "mirror.test".to_string()) {
        Err(ConnectorError::HostNotApproved(host)) => assert_eq!(host, "mirror.test"),
        other => panic!("unexpected {:?}", other),
    }
}

#[test]
fn crawl_source_id_and_snapshot_note() {
    assert_eq!(
        operator_core::connectors::source_id(&"abcdef0123456789".to_string()),
        "src-abcdef012345"
    );
    assert_eq!(
        operator_core::connectors::snapshot_note("https://example.com/", "[\"x\"]"),
        "approved crawler snapshot from https://example.com/ using scopes [\"x\"]"
    );
}
