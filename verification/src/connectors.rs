//! Connectors: the capability registry and the crawler that fetches only
//! from approved hosts through registered connectors.
use vstd::prelude::*;
use vstd::utf8::encode_utf8;

use crate::digest::{sha256_hex, sha256_of};
use crate::domain::{
    ConnectorCapability, IngestionMethod, OperationalMode, TrustLevel, mode_label, mode_name,
};
use crate::text::{chars_of, clone_strings, lower_hex, push_text, string_from_chars};

verus! {

/// The host named by a URL, as `url::Url::parse` and `Url::host_str` find it;
/// `None` for a URL without a host or a text that does not parse.
pub uninterp spec fn url_host_of(url: Seq<char>) -> Option<Seq<char>>;

/// Calls `url::Url::parse` and then `Url::host_str`. Trusted: the result is
/// `url_host_of(url)`; nothing is claimed of how URLs are parsed.
#[verifier::external_body]
fn url_host(url: &str) -> (host: Option<String>)
    ensures
        match host {
            Some(h) => url_host_of(url@) == Some(h@),
            None => url_host_of(url@) is None,
        },
{
    match url::Url::parse(url) {
        Ok(parsed) => match parsed.host_str() {
            Some(h) => Some(h.to_string()),
            None => None,
        },
        Err(_) => None,
    }
}

/// The `{:?}` rendering of a list of strings (quoted, escaped, bracketed).
pub uninterp spec fn debug_list_of(items: Seq<Seq<char>>) -> Seq<char>;

/// Renders a list of strings with `format!("{:?}", ..)`. Trusted: the result
/// is `debug_list_of(items)`; the escaping rules of `Debug` are not stated.
#[verifier::external_body]
fn debug_list(items: &Vec<String>) -> (text: String)
    ensures
        text@ == debug_list_of(items.deep_view()),
{
    format!("{:?}", items)
}

/// Why a crawl was refused.
#[derive(Debug, Clone)]
pub enum ConnectorError {
    /// The URL's host is not approved.
    HostNotApproved(String),
    /// No connector with this id is registered.
    UnknownConnector(String),
}

/// The connectors known to the system, by id.
#[derive(Debug)]
pub struct ConnectorCapabilityRegistry {
    connectors: Vec<ConnectorCapability>,
}

/// Position `i` holds the connector with id `id`.
pub open spec fn holds_id(entries: Seq<ConnectorCapability>, id: Seq<char>, i: int) -> bool {
    0 <= i < entries.len() && entries[i].connector_id@ == id
}

/// No id occurs twice.
pub open spec fn ids_unique(entries: Seq<ConnectorCapability>) -> bool {
    forall|i: int, j: int|
        0 <= i < entries.len() && 0 <= j < entries.len() && i != j
            ==> (#[trigger] entries[i]).connector_id@ != (#[trigger] entries[j]).connector_id@
}

impl View for ConnectorCapabilityRegistry {
    type V = Map<Seq<char>, ConnectorCapability>;

    closed spec fn view(&self) -> Map<Seq<char>, ConnectorCapability> {
        Map::new(
            |id: Seq<char>| exists|i: int| holds_id(self.connectors@, id, i),
            |id: Seq<char>| self.connectors@[choose|i: int| holds_id(self.connectors@, id, i)],
        )
    }
}

impl ConnectorCapabilityRegistry {
    #[verifier::type_invariant]
    closed spec fn wf(self) -> bool {
        ids_unique(self.connectors@)
    }

    proof fn lemma_lookup(&self, i: int)
        requires
            ids_unique(self.connectors@),
            0 <= i < self.connectors@.len(),
        ensures
            self@.contains_key(self.connectors@[i].connector_id@),
            self@[self.connectors@[i].connector_id@] == self.connectors@[i],
    {
        let id = self.connectors@[i].connector_id@;
        assert(holds_id(self.connectors@, id, i));
        let k = choose|k: int| holds_id(self.connectors@, id, k);
        assert(k == i);
    }

    fn position(&self, connector_id: &String) -> (found: Option<usize>)
        ensures
            match found {
                Some(i) => holds_id(self.connectors@, connector_id@, i as int),
                None => forall|i: int| !holds_id(self.connectors@, connector_id@, i),
            },
    {
        let mut i: usize = 0;
        while i < self.connectors.len()
            invariant
                i <= self.connectors.len(),
                forall|k: int| 0 <= k < i ==> !holds_id(self.connectors@, connector_id@, k),
            decreases self.connectors.len() - i,
        {
            if self.connectors[i].connector_id == *connector_id {
                return Some(i);
            }
            i = i + 1;
        }
        None
    }

    /// The capability registered under `connector_id`, if any.
    pub fn get(&self, connector_id: &str) -> (found: Option<&ConnectorCapability>)
        ensures
            match found {
                Some(c) => self@.contains_key(connector_id@) && self@[connector_id@] == *c,
                None => !self@.contains_key(connector_id@),
            },
    {
        proof {
            use_type_invariant(self);
        }
        let id = String::from_str(connector_id);
        match self.position(&id) {
            Some(i) => {
                proof {
                    self.lemma_lookup(i as int);
                }
                Some(&self.connectors[i])
            },
            None => None,
        }
    }

    /// Registers a capability under its connector id, replacing any capability
    /// registered under that id.
    pub fn register(&mut self, capability: ConnectorCapability)
        ensures
            final(self)@ == old(self)@.insert(capability.connector_id@, capability),
    {
        proof {
            use_type_invariant(&*self);
        }
        let ghost old_entries = self.connectors@;
        let ghost old_map = self@;
        let ghost id = capability.connector_id@;
        let found = self.position(&capability.connector_id);
        let mut entries = Vec::new();
        std::mem::swap(&mut entries, &mut self.connectors);
        match found {
            Some(i) => {
                entries.set(i, capability);
            },
            None => {
                entries.push(capability);
            },
        }
        let ghost new_entries = entries@;
        proof {
            assert forall|a: int, b: int|
                0 <= a < new_entries.len() && 0 <= b < new_entries.len() && a != b implies (
            #[trigger] new_entries[a]).connector_id@ != (#[trigger] new_entries[b]).connector_id@ by {
                if a < old_entries.len() && b < old_entries.len() {
                    if found is Some {
                        let i = found->0 as int;
                        if a == i {
                            assert(old_entries[b].connector_id@ != old_entries[i].connector_id@);
                        } else if b == i {
                            assert(old_entries[a].connector_id@ != old_entries[i].connector_id@);
                        } else {
                            assert(old_entries[a].connector_id@ != old_entries[b].connector_id@);
                        }
                    } else {
                        assert(old_entries[a].connector_id@ != old_entries[b].connector_id@);
                    }
                } else if a < old_entries.len() {
                    assert(!holds_id(old_entries, id, a));
                } else {
                    assert(!holds_id(old_entries, id, b));
                }
            }
        }
        self.connectors = entries;
        proof {
            let ghost new_map = self@;
            let ghost want = old_map.insert(id, capability);
            assert forall|k: Seq<char>| new_map.contains_key(k) <==> want.contains_key(k) by {
                if new_map.contains_key(k) {
                    let j = choose|j: int| holds_id(new_entries, k, j);
                    if k != id {
                        assert(j < old_entries.len());
                        assert(holds_id(old_entries, k, j));
                    }
                }
                if old_map.contains_key(k) && k != id {
                    let j = choose|j: int| holds_id(old_entries, k, j);
                    assert(holds_id(new_entries, k, j));
                }
                if k == id {
                    match found {
                        Some(i) => assert(holds_id(new_entries, k, i as int)),
                        None => assert(holds_id(new_entries, k, old_entries.len() as int)),
                    }
                }
            }
            assert forall|k: Seq<char>| #[trigger] new_map.contains_key(k) implies new_map[k]
                == want[k] by {
                let j = choose|j: int| holds_id(new_entries, k, j);
                self.lemma_lookup(j);
                if k == id {
                    match found {
                        Some(i) => {
                            assert(j == i);
                        },
                        None => {
                            assert(j == old_entries.len());
                        },
                    }
                } else {
                    assert(holds_id(old_entries, k, j));
                    assert(new_entries[j] == old_entries[j]);
                    let oj = choose|oj: int| holds_id(old_entries, k, oj);
                    assert(oj == j);
                }
            }
            assert(new_map =~= want);
        }
    }
}

impl Default for ConnectorCapabilityRegistry {
    fn default() -> (registry: Self)
        ensures
            registry@ == Map::<Seq<char>, ConnectorCapability>::empty(),
    {
        let registry = ConnectorCapabilityRegistry { connectors: Vec::new() };
        assert(registry@ =~= Map::<Seq<char>, ConnectorCapability>::empty());
        registry
    }
}

} // verus!

verus! {

/// A request to crawl one URL through one connector. The URL is held in its
/// serialized form.
#[derive(Debug, Clone)]
pub struct CrawlRequest {
    pub connector_id: String,
    pub url: String,
    pub mode: OperationalMode,
    pub entity_tags: Vec<String>,
    pub market_tags: Vec<String>,
    pub strategy_relevance_tags: Vec<String>,
    pub seed_content: Option<String>,
}

/// The provenance record of a crawled source. The crawl time and the
/// freshness score are stamped by the caller.
#[derive(Debug, Clone)]
pub struct SourceRecord {
    pub id: String,
    pub connector_id: String,
    pub source_uri: String,
    pub source_name: String,
    pub trust_level: TrustLevel,
    pub ingestion_method: IngestionMethod,
    pub content_hash: String,
    pub entity_tags: Vec<String>,
    pub market_tags: Vec<String>,
    pub strategy_relevance_tags: Vec<String>,
    /// Metadata entries in increasing key order.
    pub metadata: Vec<(String, String)>,
}

/// A crawled source: its record and its content.
#[derive(Debug, Clone)]
pub struct CrawledSource {
    pub record: SourceRecord,
    pub content: String,
}

/// The host of a URL, empty when it has none.
pub open spec fn host_name(url: Seq<char>) -> Seq<char> {
    match url_host_of(url) {
        Some(h) => h,
        None => Seq::empty(),
    }
}

/// The note that stands for the content of a crawl without seed content.
pub open spec fn snapshot_note_text(url: Seq<char>, scopes_text: Seq<char>) -> Seq<char> {
    "approved crawler snapshot from "@ + url + " using scopes "@ + scopes_text
}

/// The content of a crawl: the seed content when given, else a snapshot note
/// naming the URL and the connector's scopes.
pub open spec fn crawl_content(request: CrawlRequest, capability: ConnectorCapability) -> Seq<char> {
    match request.seed_content {
        Some(seed) => seed@,
        None => snapshot_note_text(request.url@, debug_list_of(capability.scopes.deep_view())),
    }
}

/// The hash of content: lowercase hex SHA-256 of its UTF-8 bytes.
pub open spec fn content_hash_of(content: Seq<char>) -> Seq<char> {
    lower_hex(sha256_of(encode_utf8(content)))
}

/// The id of a source: "src-" and the first twelve characters of its hash.
pub open spec fn source_id_of(content_hash: Seq<char>) -> Seq<char> {
    "src-"@ + content_hash.take(12)
}

/// The metadata of a crawled source record.
pub open spec fn crawl_metadata(mode: OperationalMode, capability: ConnectorCapability) -> Seq<
    (Seq<char>, Seq<char>),
> {
    seq![("mode"@, mode_name(mode)), ("session_isolation"@, capability.session_isolation@)]
}

/// `source` describes content with hash `content_hash`, crawled for
/// `request` from `host` through `capability`.
pub open spec fn described_as(
    request: CrawlRequest,
    capability: ConnectorCapability,
    host: Seq<char>,
    content: Seq<char>,
    content_hash: Seq<char>,
    source: CrawledSource,
) -> bool {
    &&& source.content@ == content
    &&& source.record.content_hash@ == content_hash
    &&& source.record.id@ == source_id_of(content_hash)
    &&& source.record.connector_id@ == request.connector_id@
    &&& source.record.source_uri@ == request.url@
    &&& source.record.source_name@ == host
    &&& source.record.trust_level == TrustLevel::High
    &&& source.record.ingestion_method == IngestionMethod::ScheduledCrawl
    &&& source.record.entity_tags@ == request.entity_tags@
    &&& source.record.market_tags@ == request.market_tags@
    &&& source.record.strategy_relevance_tags@ == request.strategy_relevance_tags@
    &&& source.record.metadata.deep_view() == crawl_metadata(request.mode, capability)
}

/// The source crawled for `request` from `host` through `capability`: its
/// content, hashed.
pub open spec fn crawled_as(
    request: CrawlRequest,
    capability: ConnectorCapability,
    host: Seq<char>,
    source: CrawledSource,
) -> bool {
    let content = crawl_content(request, capability);
    &&& described_as(request, capability, host, content, content_hash_of(content), source)
    &&& source.record.content_hash@.len() == 64
}

/// A crawler that fetches only from approved hosts, through registered
/// connectors.
#[derive(Debug)]
pub struct StaticSourceCrawler {
    approved_hosts: Vec<String>,
    registry: ConnectorCapabilityRegistry,
}

fn prefix_of(text: &String, n: usize) -> (prefix: String)
    requires
        n <= text@.len(),
    ensures
        prefix@ == text@.take(n as int),
{
    let chars = chars_of(text.as_str());
    let mut taken: Vec<char> = Vec::new();
    let mut i: usize = 0;
    while i < n
        invariant
            i <= n,
            n <= chars@.len(),
            chars@ == text@,
            taken@ == chars@.take(i as int),
        decreases n - i,
    {
        taken.push(chars[i]);
        i = i + 1;
        assert(taken@ =~= chars@.take(i as int));
    }
    string_from_chars(&taken)
}

/// The note that stands for the content of a crawl without seed content,
/// given the rendering of the connector's scopes.
pub fn snapshot_note(url: &str, scopes_text: &str) -> (note: String)
    ensures
        note@ == snapshot_note_text(url@, scopes_text@),
{
    let mut note = String::from_str("approved crawler snapshot from ");
    push_text(&mut note, url);
    push_text(&mut note, " using scopes ");
    push_text(&mut note, scopes_text);
    note
}

/// The id of a source with the given content hash (at least twelve
/// characters long).
pub fn source_id(content_hash: &String) -> (id: String)
    requires
        content_hash@.len() >= 12,
    ensures
        id@ == source_id_of(content_hash@),
{
    let mut id = String::from_str("src-");
    let head = prefix_of(content_hash, 12);
    push_text(&mut id, head.as_str());
    id
}

/// The provenance record and content of a crawl, for content whose hash is
/// known.
pub fn describe_crawl(
    request: &CrawlRequest,
    capability: &ConnectorCapability,
    host: String,
    content: String,
    content_hash: String,
) -> (source: CrawledSource)
    requires
        content_hash@.len() >= 12,
    ensures
        described_as(*request, *capability, host@, content@, content_hash@, source),
        source.content@ == content@,
        source.record.content_hash@ == content_hash@,
        source.record.metadata.deep_view() == seq![
            ("mode"@, mode_name(request.mode)),
            ("session_isolation"@, capability.session_isolation@),
        ],
        source.record.entity_tags@ == request.entity_tags@,
        source.record.market_tags@ == request.market_tags@,
        source.record.strategy_relevance_tags@ == request.strategy_relevance_tags@,
        source.record.connector_id@ == request.connector_id@,
        source.record.source_uri@ == request.url@,
        source.record.source_name@ == host@,
        source.record.trust_level == TrustLevel::High,
        source.record.ingestion_method == IngestionMethod::ScheduledCrawl,
        source.record.id@ == "src-"@ + source.record.content_hash@.take(12),
{
    let id = source_id(&content_hash);
    let mut metadata: Vec<(String, String)> = Vec::new();
    metadata.push((String::from_str("mode"), mode_label(request.mode)));
    metadata.push((String::from_str("session_isolation"), capability.session_isolation.clone()));
    assert(metadata.deep_view() =~= crawl_metadata(request.mode, *capability));
    let record = SourceRecord {
        id,
        connector_id: request.connector_id.clone(),
        source_uri: request.url.clone(),
        source_name: host,
        trust_level: TrustLevel::High,
        ingestion_method: IngestionMethod::ScheduledCrawl,
        content_hash,
        entity_tags: clone_strings(&request.entity_tags),
        market_tags: clone_strings(&request.market_tags),
        strategy_relevance_tags: clone_strings(&request.strategy_relevance_tags),
        metadata,
    };
    CrawledSource { record, content }
}

impl StaticSourceCrawler {
    /// The approved hosts.
    pub closed spec fn approved(&self) -> Set<Seq<char>> {
        Set::new(
            |h: Seq<char>|
                exists|i: int| 0 <= i < self.approved_hosts@.len() && self.approved_hosts@[i]@ == h,
        )
    }

    /// The connectors the crawler may use.
    pub closed spec fn connectors(&self) -> Map<Seq<char>, ConnectorCapability> {
        self.registry@
    }

    /// A crawler for the given approved hosts and connectors.
    pub fn new(approved_hosts: Vec<String>, registry: ConnectorCapabilityRegistry) -> (crawler:
        StaticSourceCrawler)
        ensures
            forall|h: Seq<char>|
                crawler.approved().contains(h) <==> exists|i: int|
                    0 <= i < approved_hosts@.len() && approved_hosts@[i]@ == h,
            crawler.connectors() == registry@,
    {
        StaticSourceCrawler { approved_hosts, registry }
    }

    fn host_approved(&self, host: &String) -> (r: bool)
        ensures
            r == self.approved().contains(host@),
    {
        let mut i: usize = 0;
        while i < self.approved_hosts.len()
            invariant
                i <= self.approved_hosts.len(),
                forall|k: int| 0 <= k < i ==> self.approved_hosts@[k]@ != host@,
            decreases self.approved_hosts.len() - i,
        {
            if self.approved_hosts[i] == *host {
                return true;
            }
            i = i + 1;
        }
        false
    }

    /// Crawls the request's URL, whose host is `host`: refuses a host that is
    /// not approved, then a connector that is not registered; otherwise
    /// returns the content with its provenance record.
    pub fn crawl_from_host(&self, request: CrawlRequest, host: String) -> (r: Result<
        CrawledSource,
        ConnectorError,
    >)
        ensures
            !self.approved().contains(host@) ==> (r matches Err(
                ConnectorError::HostNotApproved(h),
            ) && h@ == host@),
            self.approved().contains(host@) && !self.connectors().contains_key(
                request.connector_id@,
            ) ==> (r matches Err(ConnectorError::UnknownConnector(id)) && id@
                == request.connector_id@),
            self.approved().contains(host@) && self.connectors().contains_key(
                request.connector_id@,
            ) ==> (r matches Ok(source) && crawled_as(
                request,
                self.connectors()[request.connector_id@],
                host@,
                source,
            )),
            r matches Ok(source) ==> {
                &&& source.record.entity_tags@ == request.entity_tags@
                &&& source.record.market_tags@ == request.market_tags@
                &&& source.record.strategy_relevance_tags@ == request.strategy_relevance_tags@
                &&& source.record.connector_id@ == request.connector_id@
                &&& source.record.source_uri@ == request.url@
                &&& source.record.source_name@ == host@
                &&& source.record.trust_level == TrustLevel::High
                &&& source.record.ingestion_method == IngestionMethod::ScheduledCrawl
                &&& source.record.id@ == "src-"@ + source.record.content_hash@.take(12)
                &&& source.record.content_hash@ == lower_hex(sha256_of(encode_utf8(source.content@)))
                &&& source.record.content_hash@.len() == 64
                &&& (request.seed_content matches Some(seed) ==> source.content@ == seed@)
                &&& (request.seed_content is None ==> source.content@
                    == "approved crawler snapshot from "@ + request.url@ + " using scopes "@
                    + debug_list_of(self.connectors()[request.connector_id@].scopes.deep_view()))
            },
            r is Ok ==> self.approved().contains(host@) && self.connectors().contains_key(request.connector_id@),
    {
        if !self.host_approved(&host) {
            return Err(ConnectorError::HostNotApproved(host));
        }
        let capability = match self.registry.get(request.connector_id.as_str()) {
            Some(c) => c,
            None => {
                return Err(ConnectorError::UnknownConnector(request.connector_id.clone()));
            },
        };
        let content = match &request.seed_content {
            Some(seed) => seed.clone(),
            None => {
                let scopes = debug_list(&capability.scopes);
                snapshot_note(request.url.as_str(), scopes.as_str())
            },
        };
        assert(content@ == crawl_content(request, *capability));
        let content_hash = sha256_hex(content.as_str().as_bytes());
        Ok(describe_crawl(&request, capability, host, content, content_hash))
    }

    /// Crawls the request's URL: the host named by the URL must be approved
    /// and the connector registered.
    pub fn crawl(&self, request: CrawlRequest) -> (r: Result<CrawledSource, ConnectorError>)
        ensures
            !self.approved().contains(host_name(request.url@)) ==> (r matches Err(
                ConnectorError::HostNotApproved(h),
            ) && h@ == host_name(request.url@)),
            self.approved().contains(host_name(request.url@)) && !self.connectors().contains_key(
                request.connector_id@,
            ) ==> (r matches Err(ConnectorError::UnknownConnector(id)) && id@
                == request.connector_id@),
            self.approved().contains(host_name(request.url@)) && self.connectors().contains_key(
                request.connector_id@,
            ) ==> (r matches Ok(source) && crawled_as(
                request,
                self.connectors()[request.connector_id@],
                host_name(request.url@),
                source,
            )),
            r matches Ok(source) ==> {
                &&& source.record.entity_tags@ == request.entity_tags@
                &&& source.record.market_tags@ == request.market_tags@
                &&& source.record.strategy_relevance_tags@ == request.strategy_relevance_tags@
                &&& source.record.connector_id@ == request.connector_id@
                &&& source.record.source_uri@ == request.url@
                &&& source.record.source_name@ == host_name(request.url@)
                &&& source.record.trust_level == TrustLevel::High
                &&& source.record.ingestion_method == IngestionMethod::ScheduledCrawl
                &&& source.record.id@ == "src-"@ + source.record.content_hash@.take(12)
                &&& source.record.content_hash@ == lower_hex(sha256_of(encode_utf8(source.content@)))
                &&& source.record.content_hash@.len() == 64
                &&& (request.seed_content matches Some(seed) ==> source.content@ == seed@)
                &&& (request.seed_content is None ==> source.content@
                    == "approved crawler snapshot from "@ + request.url@ + " using scopes "@
                    + debug_list_of(self.connectors()[request.connector_id@].scopes.deep_view()))
            },
            r is Ok ==> self.approved().contains(host_name(request.url@)) && self.connectors().contains_key(request.connector_id@),
    {
        let host = match url_host(request.url.as_str()) {
            Some(h) => h,
            None => String::new(),
        };
        self.crawl_from_host(request, host)
    }
}

/// Reading a connector back gives what was registered under its id, and
/// registering leaves every other id as it was.
pub proof fn lemma_registry_read_after_write(
    before: Map<Seq<char>, ConnectorCapability>,
    capability: ConnectorCapability,
    other: Seq<char>,
)
    ensures
        before.insert(capability.connector_id@, capability).contains_key(capability.connector_id@),
        before.insert(capability.connector_id@, capability)[capability.connector_id@] == capability,
        other != capability.connector_id@ ==> (before.insert(
            capability.connector_id@,
            capability,
        ).contains_key(other) == before.contains_key(other) && before.insert(
            capability.connector_id@,
            capability,
        )[other] == before[other]),
{
}

/// The registry after registering `caps` in order, starting from `start`.
pub open spec fn after_registrations(
    start: Map<Seq<char>, ConnectorCapability>,
    caps: Seq<ConnectorCapability>,
) -> Map<Seq<char>, ConnectorCapability>
    decreases caps.len(),
{
    if caps.len() == 0 {
        start
    } else {
        after_registrations(start, caps.drop_last()).insert(caps.last().connector_id@, caps.last())
    }
}

/// The last capability in `caps` registered under `id`, if any.
pub open spec fn last_registered(caps: Seq<ConnectorCapability>, id: Seq<char>) -> Option<
    ConnectorCapability,
>
    decreases caps.len(),
{
    if caps.len() == 0 {
        None
    } else if caps.last().connector_id@ == id {
        Some(caps.last())
    } else {
        last_registered(caps.drop_last(), id)
    }
}

/// After any run of registrations on an empty registry, an id reads back the
/// capability of its last registration (the one at the largest position
/// with that id), and an id never registered reads back nothing.
pub proof fn lemma_registry_reads_last_registration(caps: Seq<ConnectorCapability>, id: Seq<char>)
    ensures
        match last_registered(caps, id) {
            Some(c) => {
                &&& after_registrations(Map::empty(), caps).contains_key(id)
                &&& after_registrations(Map::empty(), caps)[id] == c
                &&& exists|j: int|
                    0 <= j < caps.len() && caps[j] == c && caps[j].connector_id@ == id && forall|
                        k: int,
                    |
                        j < k < caps.len() ==> (#[trigger] caps[k]).connector_id@ != id
            },
            None => {
                &&& !after_registrations(Map::empty(), caps).contains_key(id)
                &&& forall|k: int| 0 <= k < caps.len() ==> (#[trigger] caps[k]).connector_id@ != id
            },
        },
    decreases caps.len(),
{
    if caps.len() > 0 {
        let prev = caps.drop_last();
        lemma_registry_reads_last_registration(prev, id);
        let n = caps.len() - 1;
        if caps.last().connector_id@ == id {
            assert(caps[n] == caps.last());
            assert forall|k: int| n < k < caps.len() implies (#[trigger] caps[k]).connector_id@
                != id by {}
        } else {
            match last_registered(prev, id) {
                Some(c) => {
                    let j = choose|j: int|
                        0 <= j < prev.len() && prev[j] == c && prev[j].connector_id@ == id
                            && forall|k: int|
                            j < k < prev.len() ==> (#[trigger] prev[k]).connector_id@ != id;
                    assert(caps[j] == prev[j]);
                    assert forall|k: int| j < k < caps.len() implies (#[trigger] caps[
                        k
                    ]).connector_id@ != id by {
                        if k < n {
                            assert(caps[k] == prev[k]);
                        }
                    }
                },
                None => {
                    assert forall|k: int| 0 <= k < caps.len() implies (#[trigger] caps[
                        k
                    ]).connector_id@ != id by {
                        if k < n {
                            assert(caps[k] == prev[k]);
                        }
                    }
                },
            }
        }
    }
}

/// A crawl's provenance record carries the request: its tags, connector and
/// URL, the host it came from, high trust, and an id made of "src-" and the
/// first twelve characters of the content's hash.
pub proof fn lemma_crawled_record_carries_request(
    request: CrawlRequest,
    capability: ConnectorCapability,
    host: Seq<char>,
    source: CrawledSource,
)
    requires
        crawled_as(request, capability, host, source),
    ensures
        source.record.entity_tags@ == request.entity_tags@,
        source.record.market_tags@ == request.market_tags@,
        source.record.strategy_relevance_tags@ == request.strategy_relevance_tags@,
        source.record.connector_id@ == request.connector_id@,
        source.record.source_uri@ == request.url@,
        source.record.source_name@ == host,
        source.record.trust_level == TrustLevel::High,
        source.record.ingestion_method == IngestionMethod::ScheduledCrawl,
        source.record.content_hash@ == lower_hex(sha256_of(encode_utf8(source.content@))),
        source.record.content_hash@.len() == 64,
        source.record.id@ == "src-"@ + source.record.content_hash@.take(12),
        request.seed_content matches Some(seed) ==> source.content@ == seed@,
        request.seed_content is None ==> source.content@ == "approved crawler snapshot from "@
            + request.url@ + " using scopes "@ + debug_list_of(capability.scopes.deep_view()),
{
}

/// Only approved sources are crawled: a crawl that succeeds came from an
/// approved host through a registered connector, and its record carries the
/// hash of exactly the content returned.
pub proof fn lemma_crawl_only_approved(
    approved: Set<Seq<char>>,
    connectors: Map<Seq<char>, ConnectorCapability>,
    request: CrawlRequest,
    source: CrawledSource,
)
    requires
        approved.contains(host_name(request.url@)),
        connectors.contains_key(request.connector_id@),
        crawled_as(request, connectors[request.connector_id@], host_name(request.url@), source),
    ensures
        source.record.content_hash@ == content_hash_of(source.content@),
        source.record.id@ == source_id_of(content_hash_of(source.content@)),
        approved.contains(source.record.source_name@),
{
}

} // verus!
