//! The tamper-evident audit chain: every record's hash covers the hash of
//! the record before it.
use vstd::prelude::*;
use vstd::utf8::encode_utf8;

use crate::digest::{sha256_hex, sha256_of};
use crate::text::lower_hex;

verus! {

/// The bytes that a record hash covers: the previous record's hash (when
/// there is one) followed by the serialized event.
pub open spec fn chained_bytes(previous_hash: Option<Seq<char>>, event_json: Seq<char>) -> Seq<u8> {
    match previous_hash {
        Some(p) => encode_utf8(p) + encode_utf8(event_json),
        None => encode_utf8(event_json),
    }
}

/// The hash of a record: lowercase hex SHA-256 of the chained bytes.
pub open spec fn record_hash_of(previous_hash: Option<Seq<char>>, event_json: Seq<char>) -> Seq<
    char,
> {
    lower_hex(sha256_of(chained_bytes(previous_hash, event_json)))
}

/// The characters of an optional text.
pub open spec fn opt_text(text: Option<&str>) -> Option<Seq<char>> {
    match text {
        Some(t) => Some(t@),
        None => None,
    }
}

/// The characters of an optional string.
pub open spec fn opt_string(text: Option<String>) -> Option<Seq<char>> {
    match text {
        Some(t) => Some(t@),
        None => None,
    }
}

fn append_bytes(out: &mut Vec<u8>, bytes: &[u8])
    ensures
        final(out)@ == old(out)@ + bytes@,
{
    let mut i: usize = 0;
    while i < bytes.len()
        invariant
            i <= bytes.len(),
            out@ == old(out)@ + bytes@.take(i as int),
        decreases bytes.len() - i,
    {
        out.push(bytes[i]);
        i = i + 1;
        assert(out@ =~= old(out)@ + bytes@.take(i as int));
    }
    assert(bytes@.take(bytes.len() as int) =~= bytes@);
}

/// Hashes an event, serialized as JSON, together with the hash of the record
/// before it.
pub fn hash_record(previous_hash: Option<&str>, event_json: &str) -> (hash: String)
    ensures
        hash@ == record_hash_of(opt_text(previous_hash), event_json@),
        hash@.len() == 64,
        previous_hash matches Some(p) ==> hash@ == lower_hex(
            sha256_of(encode_utf8(p@) + encode_utf8(event_json@)),
        ),
        previous_hash is None ==> hash@ == lower_hex(sha256_of(encode_utf8(event_json@))),
{
    let mut bytes: Vec<u8> = Vec::new();
    match previous_hash {
        Some(p) => append_bytes(&mut bytes, p.as_bytes()),
        None => {},
    }
    append_bytes(&mut bytes, event_json.as_bytes());
    assert(bytes@ =~= chained_bytes(opt_text(previous_hash), event_json@));
    sha256_hex(bytes.as_slice())
}

/// What a record carries of the chain: the hash it follows and its own hash.
pub struct AuditSeal {
    pub previous_hash: Option<String>,
    pub record_hash: String,
}

/// The head of an audit chain: the hash of the last record written, if any.
pub struct AuditChain {
    previous_hash: Option<String>,
}

impl View for AuditChain {
    type V = Option<Seq<char>>;

    closed spec fn view(&self) -> Option<Seq<char>> {
        opt_string(self.previous_hash)
    }
}

/// The seal that a chain with head `head` gives an event.
pub open spec fn seal_for(head: Option<Seq<char>>, event_json: Seq<char>) -> (
    Option<Seq<char>>,
    Seq<char>,
) {
    (head, record_hash_of(head, event_json))
}

/// The head of a chain after the record sealed for `event_json` was written.
pub open spec fn head_after(head: Option<Seq<char>>, event_json: Seq<char>) -> Option<Seq<char>> {
    Some(record_hash_of(head, event_json))
}

/// The head of a chain that starts at `start` after the events were written
/// in order.
pub open spec fn head_after_all(start: Option<Seq<char>>, events: Seq<Seq<char>>) -> Option<
    Seq<char>,
>
    decreases events.len(),
{
    if events.len() == 0 {
        start
    } else {
        head_after(head_after_all(start, events.drop_last()), events.last())
    }
}

impl AuditChain {
    /// A chain with no record yet.
    pub fn new() -> (chain: AuditChain)
        ensures
            chain@ == None::<Seq<char>>,
    {
        AuditChain { previous_hash: None }
    }

    /// The seal for the next record: it follows the current head, and its hash
    /// covers the head and the event.
    pub fn seal(&self, event_json: &str) -> (seal: AuditSeal)
        ensures
            opt_string(seal.previous_hash) == seal_for(self@, event_json@).0,
            seal.record_hash@ == seal_for(self@, event_json@).1,
            opt_string(seal.previous_hash) == self@,
            self@ matches Some(p) ==> seal.record_hash@ == lower_hex(
                sha256_of(encode_utf8(p) + encode_utf8(event_json@)),
            ),
            self@ is None ==> seal.record_hash@ == lower_hex(sha256_of(encode_utf8(event_json@))),
    {
        let (previous, hash) = match &self.previous_hash {
            Some(p) => (Some(p.clone()), hash_record(Some(p.as_str()), event_json)),
            None => (None, hash_record(None, event_json)),
        };
        AuditSeal { previous_hash: previous, record_hash: hash }
    }

    /// Records that the sealed record was written: it becomes the head.
    pub fn commit(&mut self, seal: &AuditSeal)
        ensures
            final(self)@ == Some(seal.record_hash@),
    {
        self.previous_hash = Some(seal.record_hash.clone());
    }

    /// The hash of the last record written, if any.
    pub fn previous_hash(&self) -> (hash: Option<String>)
        ensures
            opt_string(hash) == self@,
    {
        match &self.previous_hash {
            Some(p) => Some(p.clone()),
            None => None,
        }
    }
}

/// The bytes a chained record hash covers begin with the previous hash and
/// end with the event; the first record covers the event alone.
pub proof fn lemma_hash_covers_previous_then_event(previous: Seq<char>, event_json: Seq<char>)
    ensures
        chained_bytes(Some(previous), event_json).len() == encode_utf8(previous).len()
            + encode_utf8(event_json).len(),
        chained_bytes(Some(previous), event_json).subrange(0, encode_utf8(previous).len() as int)
            == encode_utf8(previous),
        chained_bytes(Some(previous), event_json).subrange(
            encode_utf8(previous).len() as int,
            chained_bytes(Some(previous), event_json).len() as int,
        ) == encode_utf8(event_json),
        chained_bytes(None, event_json) == encode_utf8(event_json),
{
    let a = encode_utf8(previous);
    let b = encode_utf8(event_json);
    assert((a + b).subrange(0, a.len() as int) =~= a);
    assert((a + b).subrange(a.len() as int, (a + b).len() as int) =~= b);
}

/// Chain law: once a record is written, the next record names that record's
/// hash as the hash it follows.
pub proof fn lemma_next_record_follows_previous(
    head: Option<Seq<char>>,
    first_json: Seq<char>,
    second_json: Seq<char>,
)
    ensures
        seal_for(head_after(head, first_json), second_json).0 == Some(
            seal_for(head, first_json).1,
        ),
{
}

/// Chain law: after a run of writes, the head is the hash of the last event
/// written, taken over the head that preceded it; so each record's hash
/// covers every record before it.
pub proof fn lemma_head_after_run(start: Option<Seq<char>>, events: Seq<Seq<char>>, next: Seq<char>)
    ensures
        head_after_all(start, events.push(next)) == Some(
            record_hash_of(head_after_all(start, events), next),
        ),
{
    assert(events.push(next).drop_last() =~= events);
}

} // verus!
