//! The record of one flush: the counters and gauges of every domain, taken at
//! one moment, and their rendering as one JSON object.
//!
//! The record is nested by domain. Domains and fields keep the order of the
//! lists below, and every value is an unsigned integer:
//!
//! - `fs`: `events`, `creates`, `deletes`, `writes`, `lines`, `bytes`,
//!   `partial_reads`
//! - `memory`: `active`, `allocated`, `resident`
//! - `ingest`: `requests`, `throughput`, `rate_limits`, `retries`
//! - `k8s`: `lines`, `polls`, `creates`, `deletes`, `events`, `notifies`
//! - `journald`: `lines`, `bytes`
//!
//! The `memory` domain is left out of a record for which the allocator's
//! statistics could not be sampled.

use vstd::prelude::*;

verus! {

/// File system activity since the last flush.
#[derive(Clone, Copy, Debug, PartialEq, Eq)]
pub struct FsSnapshot {
    pub events: u64,
    pub creates: u64,
    pub deletes: u64,
    pub writes: u64,
    pub lines: u64,
    pub bytes: u64,
    pub partial_reads: u64,
}

/// One sample of the allocator's statistics, in bytes.
#[derive(Clone, Copy, Debug, PartialEq, Eq)]
pub struct MemorySample {
    pub active: u64,
    pub allocated: u64,
    pub resident: u64,
}

/// Ingestion requests since the last flush.
#[derive(Clone, Copy, Debug, PartialEq, Eq)]
pub struct IngestSnapshot {
    pub requests: u64,
    pub throughput: u64,
    pub rate_limits: u64,
    pub retries: u64,
}

/// Kubernetes activity since the last flush.
#[derive(Clone, Copy, Debug, PartialEq, Eq)]
pub struct K8sSnapshot {
    pub lines: u64,
    pub polls: u64,
    pub creates: u64,
    pub deletes: u64,
    pub events: u64,
    pub notifies: u64,
}

/// Journal activity since the last flush.
#[derive(Clone, Copy, Debug, PartialEq, Eq)]
pub struct JournaldSnapshot {
    pub lines: u64,
    pub bytes: u64,
}

/// What one flush reports.
#[derive(Clone, Copy, Debug, PartialEq, Eq)]
pub struct Snapshot {
    pub fs: FsSnapshot,
    /// `None` where the allocator's statistics could not be sampled.
    pub memory: Option<MemorySample>,
    pub ingest: IngestSnapshot,
    pub k8s: K8sSnapshot,
    pub journald: JournaldSnapshot,
}

/// `json::object::Object`: held while a record is put together, and known
/// only by the entries that the functions below say it holds.
#[verifier::external_type_specification]
#[verifier::external_body]
pub struct ExObject(json::object::Object);

/// What a JSON object holds: its entries in the order in which `dump` writes
/// them, each as the key and the text that `dump` writes for the value.
pub uninterp spec fn object_entries(object: json::object::Object) -> Seq<(Seq<char>, Seq<char>)>;

/// The text that the `json` crate writes for the number `value`.
pub uninterp spec fn number_text(value: u64) -> Seq<char>;

/// The text that the `json` crate writes for an object with these entries.
pub uninterp spec fn object_text(entries: Seq<(Seq<char>, Seq<char>)>) -> Seq<char>;

/// Whether one of `entries` has the key `key`.
pub open spec fn has_key(entries: Seq<(Seq<char>, Seq<char>)>, key: Seq<char>) -> bool {
    exists|i: int| 0 <= i < entries.len() && (#[trigger] entries[i]).0 == key
}

/// `json::object::Object::new`: an object without entries.
#[verifier::external_body]
fn empty_object() -> (object: json::object::Object)
    ensures
        object_entries(object) == Seq::<(Seq<char>, Seq<char>)>::empty(),
{
    json::object::Object::new()
}

/// `json::object::Object::insert` with a number made by `JsonValue::from`:
/// under a key that the object does not hold yet, the entry goes behind the
/// entries that are there, which stay as they are.
#[verifier::external_body]
fn put_number(object: &mut json::object::Object, key: &str, value: u64)
    requires
        !has_key(object_entries(*old(object)), key@),
    ensures
        object_entries(*final(object)) == object_entries(*old(object)).push(
            (key@, number_text(value)),
        ),
{
    object.insert(key, json::JsonValue::from(value));
}

/// `json::object::Object::insert` with a nested object: under a key that the
/// object does not hold yet, the entry goes behind the entries that are
/// there, and its text is the text of the nested object.
#[verifier::external_body]
fn put_object(object: &mut json::object::Object, key: &str, child: json::object::Object)
    requires
        !has_key(object_entries(*old(object)), key@),
    ensures
        object_entries(*final(object)) == object_entries(*old(object)).push(
            (key@, object_text(object_entries(child))),
        ),
{
    object.insert(key, json::JsonValue::Object(child));
}

/// `json::object::Object::dump`: the object as JSON text without white space.
#[verifier::external_body]
fn dump_object(object: &json::object::Object) -> (text: String)
    ensures
        text@ == object_text(object_entries(*object)),
{
    object.dump()
}

/// The entries of the `fs` domain.
pub open spec fn fs_entries(fs: FsSnapshot) -> Seq<(Seq<char>, Seq<char>)> {
    seq![
        ("events"@, number_text(fs.events)),
        ("creates"@, number_text(fs.creates)),
        ("deletes"@, number_text(fs.deletes)),
        ("writes"@, number_text(fs.writes)),
        ("lines"@, number_text(fs.lines)),
        ("bytes"@, number_text(fs.bytes)),
        ("partial_reads"@, number_text(fs.partial_reads)),
    ]
}

/// The entries of the `memory` domain.
pub open spec fn memory_entries(memory: MemorySample) -> Seq<(Seq<char>, Seq<char>)> {
    seq![
        ("active"@, number_text(memory.active)),
        ("allocated"@, number_text(memory.allocated)),
        ("resident"@, number_text(memory.resident)),
    ]
}

/// The entries of the `ingest` domain.
pub open spec fn ingest_entries(ingest: IngestSnapshot) -> Seq<(Seq<char>, Seq<char>)> {
    seq![
        ("requests"@, number_text(ingest.requests)),
        ("throughput"@, number_text(ingest.throughput)),
        ("rate_limits"@, number_text(ingest.rate_limits)),
        ("retries"@, number_text(ingest.retries)),
    ]
}

/// The entries of the `k8s` domain.
pub open spec fn k8s_entries(k8s: K8sSnapshot) -> Seq<(Seq<char>, Seq<char>)> {
    seq![
        ("lines"@, number_text(k8s.lines)),
        ("polls"@, number_text(k8s.polls)),
        ("creates"@, number_text(k8s.creates)),
        ("deletes"@, number_text(k8s.deletes)),
        ("events"@, number_text(k8s.events)),
        ("notifies"@, number_text(k8s.notifies)),
    ]
}

/// The entries of the `journald` domain.
pub open spec fn journald_entries(journald: JournaldSnapshot) -> Seq<(Seq<char>, Seq<char>)> {
    seq![
        ("lines"@, number_text(journald.lines)),
        ("bytes"@, number_text(journald.bytes)),
    ]
}

/// The entries of the whole record: one per domain, each with the text of
/// that domain's object.
pub open spec fn record_entries(snapshot: Snapshot) -> Seq<(Seq<char>, Seq<char>)> {
    match snapshot.memory {
        Some(memory) => seq![
            ("fs"@, object_text(fs_entries(snapshot.fs))),
            ("memory"@, object_text(memory_entries(memory))),
            ("ingest"@, object_text(ingest_entries(snapshot.ingest))),
            ("k8s"@, object_text(k8s_entries(snapshot.k8s))),
            ("journald"@, object_text(journald_entries(snapshot.journald))),
        ],
        None => seq![
            ("fs"@, object_text(fs_entries(snapshot.fs))),
            ("ingest"@, object_text(ingest_entries(snapshot.ingest))),
            ("k8s"@, object_text(k8s_entries(snapshot.k8s))),
            ("journald"@, object_text(journald_entries(snapshot.journald))),
        ],
    }
}

/// The text of the whole record.
pub open spec fn record_text(snapshot: Snapshot) -> Seq<char> {
    object_text(record_entries(snapshot))
}

// The keys of one object are told apart by their first letter, or else by
// their length: the proofs below say so of each literal.

fn fs_object(fs: &FsSnapshot) -> (object: json::object::Object)
    ensures
        object_entries(object) == fs_entries(*fs),
{
    proof {
        reveal_strlit("events");
        reveal_strlit("creates");
        reveal_strlit("deletes");
        reveal_strlit("writes");
        reveal_strlit("lines");
        reveal_strlit("bytes");
        reveal_strlit("partial_reads");
        assert("events"@[0] == 'e');
        assert("creates"@[0] == 'c');
        assert("deletes"@[0] == 'd');
        assert("writes"@[0] == 'w');
        assert("lines"@[0] == 'l');
        assert("bytes"@[0] == 'b');
        assert("partial_reads"@[0] == 'p');
    }
    let mut object = empty_object();
    put_number(&mut object, "events", fs.events);
    put_number(&mut object, "creates", fs.creates);
    put_number(&mut object, "deletes", fs.deletes);
    put_number(&mut object, "writes", fs.writes);
    put_number(&mut object, "lines", fs.lines);
    put_number(&mut object, "bytes", fs.bytes);
    put_number(&mut object, "partial_reads", fs.partial_reads);
    object
}

fn memory_object(memory: &MemorySample) -> (object: json::object::Object)
    ensures
        object_entries(object) == memory_entries(*memory),
{
    proof {
        reveal_strlit("active");
        reveal_strlit("allocated");
        reveal_strlit("resident");
        assert("active"@.len() == 6);
        assert("allocated"@.len() == 9);
        assert("resident"@.len() == 8);
    }
    let mut object = empty_object();
    put_number(&mut object, "active", memory.active);
    put_number(&mut object, "allocated", memory.allocated);
    put_number(&mut object, "resident", memory.resident);
    object
}

fn ingest_object(ingest: &IngestSnapshot) -> (object: json::object::Object)
    ensures
        object_entries(object) == ingest_entries(*ingest),
{
    proof {
        reveal_strlit("requests");
        reveal_strlit("throughput");
        reveal_strlit("rate_limits");
        reveal_strlit("retries");
        assert("requests"@.len() == 8);
        assert("throughput"@.len() == 10);
        assert("rate_limits"@.len() == 11);
        assert("retries"@.len() == 7);
    }
    let mut object = empty_object();
    put_number(&mut object, "requests", ingest.requests);
    put_number(&mut object, "throughput", ingest.throughput);
    put_number(&mut object, "rate_limits", ingest.rate_limits);
    put_number(&mut object, "retries", ingest.retries);
    object
}

fn k8s_object(k8s: &K8sSnapshot) -> (object: json::object::Object)
    ensures
        object_entries(object) == k8s_entries(*k8s),
{
    proof {
        reveal_strlit("lines");
        reveal_strlit("polls");
        reveal_strlit("creates");
        reveal_strlit("deletes");
        reveal_strlit("events");
        reveal_strlit("notifies");
        assert("lines"@[0] == 'l');
        assert("polls"@[0] == 'p');
        assert("creates"@[0] == 'c');
        assert("deletes"@[0] == 'd');
        assert("events"@[0] == 'e');
        assert("notifies"@[0] == 'n');
    }
    let mut object = empty_object();
    put_number(&mut object, "lines", k8s.lines);
    put_number(&mut object, "polls", k8s.polls);
    put_number(&mut object, "creates", k8s.creates);
    put_number(&mut object, "deletes", k8s.deletes);
    put_number(&mut object, "events", k8s.events);
    put_number(&mut object, "notifies", k8s.notifies);
    object
}

fn journald_object(journald: &JournaldSnapshot) -> (object: json::object::Object)
    ensures
        object_entries(object) == journald_entries(*journald),
{
    proof {
        reveal_strlit("lines");
        reveal_strlit("bytes");
        assert("lines"@[0] == 'l');
        assert("bytes"@[0] == 'b');
    }
    let mut object = empty_object();
    put_number(&mut object, "lines", journald.lines);
    put_number(&mut object, "bytes", journald.bytes);
    object
}

impl Snapshot {
    /// The record as JSON text: one object per domain inside one object, in
    /// the order and under the names that `record_entries` gives.
    pub fn render(&self) -> (text: String)
        ensures
            text@ == record_text(*self),
    {
        proof {
            reveal_strlit("fs");
            reveal_strlit("memory");
            reveal_strlit("ingest");
            reveal_strlit("k8s");
            reveal_strlit("journald");
            assert("fs"@[0] == 'f');
            assert("memory"@[0] == 'm');
            assert("ingest"@[0] == 'i');
            assert("k8s"@[0] == 'k');
            assert("journald"@[0] == 'j');
        }
        let mut record = empty_object();
        put_object(&mut record, "fs", fs_object(&self.fs));
        match &self.memory {
            Some(memory) => {
                put_object(&mut record, "memory", memory_object(memory));
            },
            None => {},
        }
        put_object(&mut record, "ingest", ingest_object(&self.ingest));
        put_object(&mut record, "k8s", k8s_object(&self.k8s));
        put_object(&mut record, "journald", journald_object(&self.journald));
        assert(object_entries(record) =~= record_entries(*self));
        dump_object(&record)
    }
}

} // verus!
