use staticify_ip::{
    get_configured_ip, select_record, DnsRecord, Ipv4Address, LookupFailure, RecordContent,
};

fn address_record(name: &str, address: Ipv4Address, id: &str) -> DnsRecord {
    DnsRecord { name: name.to_string(), content: RecordContent::A(address), id: id.to_string() }
}

fn other_record(name: &str, id: &str) -> DnsRecord {
    DnsRecord { name: name.to_string(), content: RecordContent::Other, id: id.to_string() }
}

#[test]
fn selection_takes_the_one_matching_address_record() {
    let records = vec![
        other_record("test.example.com", "rec_txt"),
        address_record("other.example.com", Ipv4Address::new(198, 51, 100, 1), "rec_other"),
        address_record("test.example.com", Ipv4Address::new(203, 0, 113, 9), "rec_1"),
        other_record("test.example.com", "rec_mx"),
        address_record("www.test.example.com", Ipv4Address::new(198, 51, 100, 2), "rec_www"),
    ];
    assert_eq!(
        select_record(&records, "test.example.com"),
        Some((Ipv4Address::new(203, 0, 113, 9), "rec_1".to_string()))
    );
}

#[test]
fn selection_takes_the_identifier_of_the_address_record() {
    let records = vec![
        other_record("test.example.com", "rec_cname"),
        address_record("test.example.com", Ipv4Address::new(203, 0, 113, 9), "rec_a"),
    ];
    let (_, id) = select_record(&records, "test.example.com").unwrap();
    assert_eq!(id, "rec_a");
}

#[test]
fn selection_takes_the_first_of_several_matching_records() {
    let records = vec![
        address_record("test.example.com", Ipv4Address::new(203, 0, 113, 1), "first"),
        address_record("test.example.com", Ipv4Address::new(203, 0, 113, 2), "second"),
    ];
    assert_eq!(
        select_record(&records, "test.example.com"),
        Some((Ipv4Address::new(203, 0, 113, 1), "first".to_string()))
    );
}

#[test]
fn selection_finds_nothing_in_an_empty_zone() {
    assert_eq!(select_record(&Vec::new(), "test.example.com"), None);
}

#[test]
fn selection_passes_over_other_types_under_the_name() {
    let records = vec![
        other_record("test.example.com", "rec_txt"),
        other_record("test.example.com", "rec_mx"),
    ];
    assert_eq!(select_record(&records, "test.example.com"), None);
    assert_eq!(
        get_configured_ip(&Some(records), "test.example.com"),
        Err(LookupFailure::RecordMissing)
    );
}

#[test]
fn selection_passes_over_addresses_under_other_names() {
    let records = vec![
        address_record("other.example.com", Ipv4Address::new(203, 0, 113, 9), "rec_1"),
        address_record("test.example.co", Ipv4Address::new(203, 0, 113, 9), "rec_2"),
        address_record("Test.example.com", Ipv4Address::new(203, 0, 113, 9), "rec_3"),
        address_record("", Ipv4Address::new(203, 0, 113, 9), "rec_4"),
    ];
    assert_eq!(select_record(&records, "test.example.com"), None);
    assert_eq!(
        get_configured_ip(&Some(records), "test.example.com"),
        Err(LookupFailure::RecordMissing)
    );
}

#[test]
fn get_configured_ip_fails_on_a_failed_request() {
    assert_eq!(
        get_configured_ip(&None, "test.example.com"),
        Err(LookupFailure::RecordsUnavailable)
    );
}

#[test]
fn get_configured_ip_selects_among_the_listed_records() {
    let records = vec![
        other_record("test.example.com", "rec_txt"),
        address_record("test.example.com", Ipv4Address::new(203, 0, 113, 9), "rec_1"),
    ];
    assert_eq!(
        get_configured_ip(&Some(records), "test.example.com"),
        Ok((Ipv4Address::new(203, 0, 113, 9), "rec_1".to_string()))
    );
    assert_eq!(
        get_configured_ip(&Some(Vec::new()), "test.example.com"),
        Err(LookupFailure::RecordMissing)
    );
}
