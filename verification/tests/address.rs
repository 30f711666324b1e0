use staticify_ip::{get_actual_ip, Ipv4Address, LookupFailure};

fn parse(text: &str) -> Option<Ipv4Address> {
    Ipv4Address::parse(text.as_bytes())
}

#[test]
fn parse_reads_the_four_octets_in_order() {
    assert_eq!(parse("203.0.113.5"), Some(Ipv4Address::new(203, 0, 113, 5)));
    assert_eq!(parse("127.0.0.1"), Some(Ipv4Address::new(127, 0, 0, 1)));
    assert_eq!(parse("1.22.133.4"), Some(Ipv4Address::new(1, 22, 133, 4)));
}

#[test]
fn parse_takes_the_smallest_and_the_largest_address() {
    assert_eq!(parse("0.0.0.0"), Some(Ipv4Address::new(0, 0, 0, 0)));
    assert_eq!(parse("255.255.255.255"), Some(Ipv4Address::new(255, 255, 255, 255)));
}

#[test]
fn parse_refuses_the_empty_text() {
    assert_eq!(parse(""), None);
}

#[test]
fn parse_refuses_an_octet_above_255() {
    assert_eq!(parse("256.0.0.1"), None);
    assert_eq!(parse("1.2.3.999"), None);
    assert_eq!(parse("1.300.3.4"), None);
}

#[test]
fn parse_refuses_a_zero_in_front_of_a_digit() {
    assert_eq!(parse("01.2.3.4"), None);
    assert_eq!(parse("1.2.3.04"), None);
    assert_eq!(parse("1.00.3.4"), None);
    assert_eq!(parse("1.2.003.4"), None);
}

#[test]
fn parse_refuses_too_few_or_too_many_fields() {
    assert_eq!(parse("1"), None);
    assert_eq!(parse("1.2"), None);
    assert_eq!(parse("1.2.3"), None);
    assert_eq!(parse("1.2.3.4.5"), None);
}

#[test]
fn parse_refuses_an_empty_field() {
    assert_eq!(parse(".1.2.3"), None);
    assert_eq!(parse("1..2.3"), None);
    assert_eq!(parse("1.2.3."), None);
    assert_eq!(parse("1.2.3.4."), None);
    assert_eq!(parse("..."), None);
}

#[test]
fn parse_refuses_a_field_of_four_digits() {
    assert_eq!(parse("1.2.3.0004"), None);
    assert_eq!(parse("1000.2.3.4"), None);
}

#[test]
fn parse_refuses_blanks_around_the_address() {
    assert_eq!(parse(" 203.0.113.5"), None);
    assert_eq!(parse("203.0.113.5 "), None);
    assert_eq!(parse("203.0.113.5\n"), None);
    assert_eq!(parse("203.0. 113.5"), None);
}

#[test]
fn parse_refuses_what_is_no_digit() {
    assert_eq!(parse("a.b.c.d"), None);
    assert_eq!(parse("1.2.3.x"), None);
    assert_eq!(parse("+1.2.3.4"), None);
    assert_eq!(parse("1.2.3.-4"), None);
    assert_eq!(parse("::1"), None);
    assert_eq!(parse("<html>203.0.113.5</html>"), None);
    assert_eq!(parse("١.٢.٣.٤"), None);
}

#[test]
fn parse_agrees_with_the_octets_it_was_written_from() {
    for a in [0u8, 1, 9, 10, 99, 100, 199, 200, 249, 250, 255] {
        for d in [0u8, 7, 10, 42, 100, 255] {
            let text = format!("{}.{}.{}.{}", a, d, a, d);
            assert_eq!(parse(&text), Some(Ipv4Address::new(a, d, a, d)));
        }
    }
}

#[test]
fn new_keeps_the_octets() {
    let address = Ipv4Address::new(203, 0, 113, 5);
    assert_eq!((address.a, address.b, address.c, address.d), (203, 0, 113, 5));
}

#[test]
fn get_actual_ip_reads_the_body() {
    assert_eq!(
        get_actual_ip(&Some(b"203.0.113.5".to_vec())),
        Ok(Ipv4Address::new(203, 0, 113, 5))
    );
}

#[test]
fn get_actual_ip_fails_on_a_failed_request() {
    assert_eq!(get_actual_ip(&None), Err(LookupFailure::PublicIpUnavailable));
}

#[test]
fn get_actual_ip_fails_on_an_empty_body() {
    assert_eq!(get_actual_ip(&Some(Vec::new())), Err(LookupFailure::PublicIpMalformed));
}

#[test]
fn get_actual_ip_fails_on_a_body_that_is_no_address() {
    assert_eq!(
        get_actual_ip(&Some(b"not an address".to_vec())),
        Err(LookupFailure::PublicIpMalformed)
    );
    assert_eq!(
        get_actual_ip(&Some(b"203.0.113.5\n".to_vec())),
        Err(LookupFailure::PublicIpMalformed)
    );
    assert_eq!(
        get_actual_ip(&Some(vec![0xff, 0xfe, 0x31])),
        Err(LookupFailure::PublicIpMalformed)
    );
}
