//! IPv4 addresses and their dotted-quad text form.

use vstd::prelude::*;

verus! {

/// The byte that separates the octets of an address in text.
pub const DOT: u8 = 46;

/// The byte of the digit zero.
pub const ZERO: u8 = 48;

/// The byte of the digit nine.
pub const NINE: u8 = 57;

/// An IPv4 address, most significant octet first.
#[derive(Clone, Copy, Debug, PartialEq, Eq, Structural, Hash)]
pub struct Ipv4Address {
    pub a: u8,
    pub b: u8,
    pub c: u8,
    pub d: u8,
}

/// The byte is a decimal digit.
pub open spec fn is_digit(byte: u8) -> bool {
    ZERO <= byte <= NINE
}

/// The number that a run of decimal digits denotes.
pub open spec fn decimal_value(digits: Seq<u8>) -> nat
    decreases digits.len(),
{
    if digits.len() == 0 {
        0
    } else {
        10 * decimal_value(digits.drop_last()) + (digits.last() - ZERO) as nat
    }
}

/// One octet in text: one to three digits, no zero in front of another digit,
/// and a value of at most 255.
pub open spec fn is_octet_literal(text: Seq<u8>) -> bool {
    &&& 1 <= text.len() <= 3
    &&& forall|i: int| 0 <= i < text.len() ==> is_digit(#[trigger] text[i])
    &&& (text.len() > 1 ==> text[0] != ZERO)
    &&& decimal_value(text) <= 255
}

/// Four pieces of text joined by dots.
pub open spec fn dotted_quad(a: Seq<u8>, b: Seq<u8>, c: Seq<u8>, d: Seq<u8>) -> Seq<u8> {
    a + seq![DOT] + b + seq![DOT] + c + seq![DOT] + d
}

/// `text` is made of the octet literals `a`, `b`, `c` and `d`, joined by dots,
/// and their values are the octets of `address` in this order.
pub open spec fn spells_with(
    text: Seq<u8>,
    address: Ipv4Address,
    a: Seq<u8>,
    b: Seq<u8>,
    c: Seq<u8>,
    d: Seq<u8>,
) -> bool {
    &&& text == dotted_quad(a, b, c, d)
    &&& is_octet_literal(a)
    &&& is_octet_literal(b)
    &&& is_octet_literal(c)
    &&& is_octet_literal(d)
    &&& address.a == decimal_value(a)
    &&& address.b == decimal_value(b)
    &&& address.c == decimal_value(c)
    &&& address.d == decimal_value(d)
}

/// `text` is the dotted-quad form of `address`: four octet literals joined by
/// dots and nothing else, their values being the octets of `address` in order.
pub open spec fn spells(text: Seq<u8>, address: Ipv4Address) -> bool {
    exists|a: Seq<u8>, b: Seq<u8>, c: Seq<u8>, d: Seq<u8>|
        spells_with(text, address, a, b, c, d)
}

/// The address that `text` spells, if it spells one.
pub open spec fn address_of(text: Seq<u8>) -> Option<Ipv4Address> {
    if exists|address: Ipv4Address| spells(text, address) {
        Some(choose|address: Ipv4Address| spells(text, address))
    } else {
        None
    }
}

/// Where the field that starts at `start` ends: at the next dot, or at the end
/// of the text.
spec fn field_end(text: Seq<u8>, start: int) -> int
    decreases text.len() - start,
{
    if start < 0 || start >= text.len() || text[start] == DOT {
        start
    } else {
        field_end(text, start + 1)
    }
}

/// The value of `text` as an octet literal.
spec fn octet_of(text: Seq<u8>) -> Option<u8> {
    if is_octet_literal(text) {
        Some(decimal_value(text) as u8)
    } else {
        None
    }
}

/// The address read field by field: the text is cut at its dots, and must fall
/// into exactly four octet literals.
spec fn address_by_fields(text: Seq<u8>) -> Option<Ipv4Address> {
    let e0 = field_end(text, 0);
    let e1 = field_end(text, e0 + 1);
    let e2 = field_end(text, e1 + 1);
    let e3 = field_end(text, e2 + 1);
    let a = octet_of(text.subrange(0, e0));
    let b = octet_of(text.subrange(e0 + 1, e1));
    let c = octet_of(text.subrange(e1 + 1, e2));
    let d = octet_of(text.subrange(e2 + 1, e3));
    if e0 < text.len() && e1 < text.len() && e2 < text.len() && e3 == text.len() && a is Some
        && b is Some && c is Some && d is Some {
        Some(Ipv4Address { a: a->0, b: b->0, c: c->0, d: d->0 })
    } else {
        None
    }
}

proof fn lemma_field_end_bounds(text: Seq<u8>, start: int)
    requires
        0 <= start <= text.len(),
    ensures
        start <= field_end(text, start) <= text.len(),
        forall|i: int| start <= i < field_end(text, start) ==> text[i] != DOT,
        field_end(text, start) < text.len() ==> text[field_end(text, start)] == DOT,
    decreases text.len() - start,
{
    if start < text.len() && text[start] != DOT {
        lemma_field_end_bounds(text, start + 1);
    }
}

proof fn lemma_field_end_found(text: Seq<u8>, start: int, end: int)
    requires
        0 <= start <= end <= text.len(),
        forall|i: int| start <= i < end ==> text[i] != DOT,
        end < text.len() ==> text[end] == DOT,
    ensures
        field_end(text, start) == end,
    decreases end - start,
{
    if start < end {
        lemma_field_end_found(text, start + 1, end);
    }
}

fn find_field_end(text: &[u8], start: usize) -> (end: usize)
    requires
        start <= text.len(),
    ensures
        end == field_end(text@, start as int),
        start <= end <= text.len(),
{
    let mut end = start;
    while end < text.len() && text[end] != DOT
        invariant
            start <= end <= text.len(),
            field_end(text@, start as int) == field_end(text@, end as int),
        decreases text.len() - end,
    {
        end += 1;
    }
    end
}

fn read_octet(text: &[u8], start: usize, end: usize) -> (octet: Option<u8>)
    requires
        start <= end <= text.len(),
    ensures
        octet == octet_of(text@.subrange(start as int, end as int)),
{
    let ghost field = text@.subrange(start as int, end as int);
    let len = end - start;
    if len == 0 || len > 3 {
        return None;
    }
    let mut value: u32 = 0;
    let mut i = start;
    while i < end
        invariant
            start <= i <= end <= text.len(),
            end - start <= 3,
            field == text@.subrange(start as int, end as int),
            forall|j: int| 0 <= j < i - start ==> is_digit(#[trigger] field[j]),
            value == decimal_value(field.subrange(0, i - start)),
            i - start == 0 ==> value == 0,
            i - start == 1 ==> value <= 9,
            i - start == 2 ==> value <= 99,
            i - start == 3 ==> value <= 999,
        decreases end - i,
    {
        let byte = text[i];
        if byte < ZERO || byte > NINE {
            assert(!is_digit(field[i - start]));
            return None;
        }
        proof {
            let longer = field.subrange(0, i - start + 1);
            assert(longer.drop_last() == field.subrange(0, i - start));
            assert(longer.last() == byte);
        }
        value = value * 10 + (byte - ZERO) as u32;
        i += 1;
    }
    assert(field.subrange(0, end - start) == field);
    if len > 1 && text[start] == ZERO {
        return None;
    }
    if value > 255 {
        return None;
    }
    Some(value as u8)
}

impl Ipv4Address {
    /// The address with the given octets, most significant first.
    pub fn new(a: u8, b: u8, c: u8, d: u8) -> (address: Ipv4Address)
        ensures
            address == (Ipv4Address { a, b, c, d }),
    {
        Ipv4Address { a, b, c, d }
    }

    /// Reads an address from its dotted-quad form. Anything else, the empty
    /// text included, is no address.
    pub fn parse(text: &[u8]) -> (address: Option<Ipv4Address>)
        ensures
            address == address_of(text@),
    {
        proof {
            lemma_fields_spell(text@);
        }
        let n = text.len();
        let e0 = find_field_end(text, 0);
        if e0 >= n {
            return None;
        }
        let e1 = find_field_end(text, e0 + 1);
        if e1 >= n {
            return None;
        }
        let e2 = find_field_end(text, e1 + 1);
        if e2 >= n {
            return None;
        }
        let e3 = find_field_end(text, e2 + 1);
        if e3 != n {
            return None;
        }
        let a = match read_octet(text, 0, e0) {
            Some(a) => a,
            None => { return None; },
        };
        let b = match read_octet(text, e0 + 1, e1) {
            Some(b) => b,
            None => { return None; },
        };
        let c = match read_octet(text, e1 + 1, e2) {
            Some(c) => c,
            None => { return None; },
        };
        let d = match read_octet(text, e2 + 1, e3) {
            Some(d) => d,
            None => { return None; },
        };
        Some(Ipv4Address { a, b, c, d })
    }
}

/// Reading field by field finds exactly the address that the text spells.
proof fn lemma_fields_spell(text: Seq<u8>)
    ensures
        address_by_fields(text) == address_of(text),
{
    match address_by_fields(text) {
        Some(address) => {
            lemma_fields_sound(text);
            assert forall|other: Ipv4Address| spells(text, other) implies other == address by {
                lemma_fields_complete(text, other);
            }
        },
        None => {
            assert forall|other: Ipv4Address| !spells(text, other) by {
                if spells(text, other) {
                    lemma_fields_complete(text, other);
                }
            }
        },
    }
}

proof fn lemma_fields_sound(text: Seq<u8>)
    requires
        address_by_fields(text) is Some,
    ensures
        spells(text, address_by_fields(text)->0),
{
    let e0 = field_end(text, 0);
    let e1 = field_end(text, e0 + 1);
    let e2 = field_end(text, e1 + 1);
    let e3 = field_end(text, e2 + 1);
    lemma_field_end_bounds(text, 0);
    lemma_field_end_bounds(text, e0 + 1);
    lemma_field_end_bounds(text, e1 + 1);
    lemma_field_end_bounds(text, e2 + 1);
    let a = text.subrange(0, e0);
    let b = text.subrange(e0 + 1, e1);
    let c = text.subrange(e1 + 1, e2);
    let d = text.subrange(e2 + 1, e3);
    assert(dotted_quad(a, b, c, d) =~= text);
    assert(spells_with(text, address_by_fields(text)->0, a, b, c, d));
}

proof fn lemma_fields_complete(text: Seq<u8>, address: Ipv4Address)
    requires
        spells(text, address),
    ensures
        address_by_fields(text) == Some(address),
{
    let (a, b, c, d) = choose|a: Seq<u8>, b: Seq<u8>, c: Seq<u8>, d: Seq<u8>|
        spells_with(text, address, a, b, c, d);
    let e0 = a.len() as int;
    let e1 = e0 + 1 + b.len();
    let e2 = e1 + 1 + c.len();
    let e3 = e2 + 1 + d.len();
    assert(e3 == text.len());
    assert forall|i: int| 0 <= i < e0 implies text[i] != DOT by {
        assert(text[i] == a[i]);
    }
    assert forall|i: int| e0 + 1 <= i < e1 implies text[i] != DOT by {
        assert(text[i] == b[i - e0 - 1]);
    }
    assert forall|i: int| e1 + 1 <= i < e2 implies text[i] != DOT by {
        assert(text[i] == c[i - e1 - 1]);
    }
    assert forall|i: int| e2 + 1 <= i < e3 implies text[i] != DOT by {
        assert(text[i] == d[i - e2 - 1]);
    }
    assert(text[e0] == DOT);
    assert(text[e1] == DOT);
    assert(text[e2] == DOT);
    lemma_field_end_found(text, 0, e0);
    lemma_field_end_found(text, e0 + 1, e1);
    lemma_field_end_found(text, e1 + 1, e2);
    lemma_field_end_found(text, e2 + 1, e3);
    assert(text.subrange(0, e0) =~= a);
    assert(text.subrange(e0 + 1, e1) =~= b);
    assert(text.subrange(e1 + 1, e2) =~= c);
    assert(text.subrange(e2 + 1, e3) =~= d);
}

/// A text spells at most one address.
pub proof fn lemma_spells_at_most_one(text: Seq<u8>, first: Ipv4Address, second: Ipv4Address)
    requires
        spells(text, first),
        spells(text, second),
    ensures
        first == second,
{
    lemma_fields_complete(text, first);
    lemma_fields_complete(text, second);
}

/// The address that a text spells is the one that `address_of` gives.
pub proof fn lemma_address_of_spelled(text: Seq<u8>, address: Ipv4Address)
    ensures
        spells(text, address) <==> address_of(text) == Some(address),
{
    if spells(text, address) {
        lemma_spells_at_most_one(text, address, choose|other: Ipv4Address| spells(text, other));
    }
}

/// Four octet literals joined by dots spell the address made of their values.
pub proof fn lemma_dotted_quad_spells(a: Seq<u8>, b: Seq<u8>, c: Seq<u8>, d: Seq<u8>)
    requires
        is_octet_literal(a),
        is_octet_literal(b),
        is_octet_literal(c),
        is_octet_literal(d),
    ensures
        address_of(dotted_quad(a, b, c, d)) == Some(
            Ipv4Address {
                a: decimal_value(a) as u8,
                b: decimal_value(b) as u8,
                c: decimal_value(c) as u8,
                d: decimal_value(d) as u8,
            },
        ),
{
    let address = Ipv4Address {
        a: decimal_value(a) as u8,
        b: decimal_value(b) as u8,
        c: decimal_value(c) as u8,
        d: decimal_value(d) as u8,
    };
    assert(spells_with(dotted_quad(a, b, c, d), address, a, b, c, d));
    lemma_address_of_spelled(dotted_quad(a, b, c, d), address);
}

/// The empty text spells no address.
pub proof fn lemma_empty_text_is_no_address()
    ensures
        address_of(Seq::<u8>::empty()) is None,
{
    let text = Seq::<u8>::empty();
    lemma_fields_spell(text);
}

/// A text that holds a byte other than a digit or a dot, a blank before or
/// after the address for one, spells no address.
pub proof fn lemma_foreign_byte_is_no_address(text: Seq<u8>, at: int)
    requires
        0 <= at < text.len(),
        !is_digit(text[at]),
        text[at] != DOT,
    ensures
        address_of(text) is None,
{
    lemma_fields_spell(text);
    if address_by_fields(text) is Some {
        let e0 = field_end(text, 0);
        let e1 = field_end(text, e0 + 1);
        let e2 = field_end(text, e1 + 1);
        let e3 = field_end(text, e2 + 1);
        lemma_field_end_bounds(text, 0);
        lemma_field_end_bounds(text, e0 + 1);
        lemma_field_end_bounds(text, e1 + 1);
        lemma_field_end_bounds(text, e2 + 1);
        if at < e0 {
            assert(text.subrange(0, e0)[at] == text[at]);
        } else if e0 < at < e1 {
            assert(text.subrange(e0 + 1, e1)[at - e0 - 1] == text[at]);
        } else if e1 < at < e2 {
            assert(text.subrange(e1 + 1, e2)[at - e1 - 1] == text[at]);
        } else if e2 < at {
            assert(text.subrange(e2 + 1, e3)[at - e2 - 1] == text[at]);
        }
    }
}

} // verus!
