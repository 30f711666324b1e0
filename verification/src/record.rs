//! The records of a zone, and the choice of the one that the host's address
//! is published in.

use vstd::prelude::*;
use crate::address::Ipv4Address;

verus! {

/// What a record holds, as far as this library looks at it.
#[derive(Clone, Copy, Debug, PartialEq, Eq, Structural)]
pub enum RecordContent {
    /// An address record with its IPv4 address.
    A(Ipv4Address),
    /// A record of any other type.
    Other,
}

/// One DNS record of the zone.
#[derive(Clone, Debug)]
pub struct DnsRecord {
    /// The name that the record is published under.
    pub name: String,
    /// What the record holds.
    pub content: RecordContent,
    /// The identifier that the provider knows the record by.
    pub id: String,
}

/// A record as contracts see it.
pub struct DnsRecordView {
    pub name: Seq<char>,
    pub content: RecordContent,
    pub id: Seq<char>,
}

impl View for DnsRecord {
    type V = DnsRecordView;

    open spec fn view(&self) -> DnsRecordView {
        DnsRecordView { name: self.name@, content: self.content, id: self.id@ }
    }
}

impl DeepView for DnsRecord {
    type V = DnsRecordView;

    open spec fn deep_view(&self) -> DnsRecordView {
        self@
    }
}

/// The record is an address record under the name `hostname`.
pub open spec fn is_candidate(record: DnsRecordView, hostname: Seq<char>) -> bool {
    record.name == hostname && record.content is A
}

/// The record at `at` is a candidate, and none before it is.
pub open spec fn is_first_candidate(
    records: Seq<DnsRecordView>,
    hostname: Seq<char>,
    at: int,
) -> bool {
    &&& 0 <= at < records.len()
    &&& is_candidate(records[at], hostname)
    &&& forall|j: int| 0 <= j < at ==> !is_candidate(#[trigger] records[j], hostname)
}

/// The address and the identifier of the first address record under the name
/// `hostname`, if the zone has one.
pub open spec fn selection(records: Seq<DnsRecordView>, hostname: Seq<char>) -> Option<
    (Ipv4Address, Seq<char>),
> {
    if exists|at: int| is_first_candidate(records, hostname, at) {
        let at = choose|at: int| is_first_candidate(records, hostname, at);
        Some((records[at].content->A_0, records[at].id))
    } else {
        None
    }
}

/// Picks, among the records of the zone, the first address record whose name is
/// `hostname`, and gives its address and its identifier. Records of other
/// types and records under other names are passed over.
pub fn select_record(records: &Vec<DnsRecord>, hostname: &str) -> (found: Option<
    (Ipv4Address, String),
>)
    ensures
        match selection(records.deep_view(), hostname@) {
            Some((address, id)) => found matches Some(pair) && pair.0 == address && pair.1@ == id,
            None => found is None,
        },
{
    let wanted = hostname.to_owned();
    let ghost views = records.deep_view();
    let mut i: usize = 0;
    while i < records.len()
        invariant
            i <= records.len(),
            views == records.deep_view(),
            wanted@ == hostname@,
            forall|j: int| 0 <= j < i ==> !is_candidate(#[trigger] views[j], hostname@),
        decreases records.len() - i,
    {
        let record = &records[i];
        assert(views[i as int] == record@);
        if record.name == wanted {
            if let RecordContent::A(address) = record.content {
                assert(is_first_candidate(views, hostname@, i as int));
                return Some((address, record.id.clone()));
            }
        }
        i += 1;
    }
    None
}

/// Where exactly one record is an address record under the host's name, that
/// record is the one selected, whatever stands before or after it.
pub proof fn lemma_only_candidate_is_selected(
    records: Seq<DnsRecordView>,
    hostname: Seq<char>,
    at: int,
)
    requires
        0 <= at < records.len(),
        is_candidate(records[at], hostname),
        forall|j: int|
            0 <= j < records.len() && j != at ==> !is_candidate(#[trigger] records[j], hostname),
    ensures
        selection(records, hostname) == Some((records[at].content->A_0, records[at].id)),
{
    assert(is_first_candidate(records, hostname, at));
}

/// A zone has a selection exactly if one of its records is a candidate.
pub proof fn lemma_selection_exists(records: Seq<DnsRecordView>, hostname: Seq<char>)
    ensures
        selection(records, hostname) is Some <==> exists|at: int|
            0 <= at < records.len() && is_candidate(#[trigger] records[at], hostname),
{
    if exists|at: int| 0 <= at < records.len() && is_candidate(#[trigger] records[at], hostname) {
        let at = choose|at: int|
            0 <= at < records.len() && is_candidate(#[trigger] records[at], hostname);
        lemma_candidate_has_first(records, hostname, at);
    }
}

proof fn lemma_candidate_has_first(records: Seq<DnsRecordView>, hostname: Seq<char>, at: int)
    requires
        0 <= at < records.len(),
        is_candidate(records[at], hostname),
    ensures
        exists|first: int| is_first_candidate(records, hostname, first),
    decreases at,
{
    if exists|j: int| 0 <= j < at && is_candidate(#[trigger] records[j], hostname) {
        let j = choose|j: int| 0 <= j < at && is_candidate(#[trigger] records[j], hostname);
        lemma_candidate_has_first(records, hostname, j);
    } else {
        assert(is_first_candidate(records, hostname, at));
    }
}

} // verus!
