//! What the two reads of a validation bring back, and what they say.

use vstd::prelude::*;
use crate::address::{address_of, Ipv4Address};
use crate::failure::LookupFailure;
use crate::record::{select_record, selection, DnsRecord, DnsRecordView};

verus! {

/// The order in which the provider is asked to list the records.
#[derive(Clone, Copy, Debug, PartialEq, Eq, Structural)]
pub enum OrderDirection {
    Ascending,
    Descending,
}

/// The request for the records of a zone.
#[derive(Debug)]
pub struct ListRequest {
    /// The zone whose records are asked for.
    pub zone_identifier: String,
    /// The order in which they are to come.
    pub direction: OrderDirection,
}

/// A request for records as contracts see it.
pub struct ListRequestView {
    pub zone_identifier: Seq<char>,
    pub direction: OrderDirection,
}

impl View for ListRequest {
    type V = ListRequestView;

    open spec fn view(&self) -> ListRequestView {
        ListRequestView { zone_identifier: self.zone_identifier@, direction: self.direction }
    }
}

/// The answers to the two reads that a validation rests on. `None` stands for a
/// request that failed, or that was not made: the public address is looked at
/// first, and where it is missing the records are never looked at.
#[derive(Debug)]
pub struct Observation {
    /// The body that the address-echo service answered with.
    pub public_ip: Option<Vec<u8>>,
    /// The records that the provider listed for the zone.
    pub records: Option<Vec<DnsRecord>>,
}

/// An observation as contracts see it.
pub struct ObservationView {
    pub public_ip: Option<Seq<u8>>,
    pub records: Option<Seq<DnsRecordView>>,
}

/// The answer of the echo service as contracts see it.
pub open spec fn body_view(body: Option<Vec<u8>>) -> Option<Seq<u8>> {
    match body {
        Some(text) => Some(text@),
        None => None,
    }
}

/// The answer of the provider as contracts see it.
pub open spec fn records_view(records: Option<Vec<DnsRecord>>) -> Option<Seq<DnsRecordView>> {
    match records {
        Some(records) => Some(records.deep_view()),
        None => None,
    }
}

impl View for Observation {
    type V = ObservationView;

    open spec fn view(&self) -> ObservationView {
        ObservationView {
            public_ip: body_view(self.public_ip),
            records: records_view(self.records),
        }
    }
}

/// The public address that an answer of the echo service gives: the body has to
/// be an address in dotted-quad form and nothing more.
pub open spec fn public_address(body: Option<Seq<u8>>) -> Result<Ipv4Address, LookupFailure> {
    match body {
        None => Err(LookupFailure::PublicIpUnavailable),
        Some(text) => match address_of(text) {
            Some(address) => Ok(address),
            None => Err(LookupFailure::PublicIpMalformed),
        },
    }
}

/// The address that the provider publishes for `hostname`, with the identifier
/// of the record that holds it. A zone without an address record for the host
/// is a failed lookup: none is made up.
pub open spec fn published_record(
    records: Option<Seq<DnsRecordView>>,
    hostname: Seq<char>,
) -> Result<(Ipv4Address, Seq<char>), LookupFailure> {
    match records {
        None => Err(LookupFailure::RecordsUnavailable),
        Some(records) => match selection(records, hostname) {
            Some(found) => Ok(found),
            None => Err(LookupFailure::RecordMissing),
        },
    }
}

/// Reads the public address out of the echo service's answer.
pub fn get_actual_ip(body: &Option<Vec<u8>>) -> (address: Result<Ipv4Address, LookupFailure>)
    ensures
        address == public_address(body_view(*body)),
{
    match body {
        None => Err(LookupFailure::PublicIpUnavailable),
        Some(text) => match Ipv4Address::parse(text.as_slice()) {
            Some(address) => Ok(address),
            None => Err(LookupFailure::PublicIpMalformed),
        },
    }
}

/// Reads the published address and its record's identifier out of the
/// provider's answer.
pub fn get_configured_ip(records: &Option<Vec<DnsRecord>>, hostname: &str) -> (found: Result<
    (Ipv4Address, String),
    LookupFailure,
>)
    ensures
        match published_record(records_view(*records), hostname@) {
            Ok((address, id)) => found matches Ok(pair) && pair.0 == address && pair.1@ == id,
            Err(failure) => found == Err::<(Ipv4Address, String), LookupFailure>(failure),
        },
{
    match records {
        None => Err(LookupFailure::RecordsUnavailable),
        Some(records) => match select_record(records, hostname) {
            Some(found) => Ok(found),
            None => Err(LookupFailure::RecordMissing),
        },
    }
}

} // verus!
