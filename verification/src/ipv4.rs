//! IPv4 addresses and subnets as plain values, their text form, and the
//! parsers that read them back.

use vstd::prelude::*;

verus! {

/// An IPv4 address by its four octets.
#[derive(Clone, Copy, Debug, PartialEq, Eq, Structural)]
pub struct Ipv4 {
    pub a: u8,
    pub b: u8,
    pub c: u8,
    pub d: u8,
}

/// A gateway address with the length of the network mask.
#[derive(Clone, Copy, Debug, PartialEq, Eq, Structural)]
pub struct Subnet {
    pub gateway: Ipv4,
    pub mask: u8,
}

impl View for Ipv4 {
    type V = Ipv4;

    open spec fn view(&self) -> Ipv4 {
        *self
    }
}

impl View for Subnet {
    type V = Subnet;

    open spec fn view(&self) -> Subnet {
        *self
    }
}

impl Ipv4 {
    /// The address `a.b.c.d`.
    pub fn new(a: u8, b: u8, c: u8, d: u8) -> (res: Self)
        ensures
            res == (Ipv4 { a, b, c, d }),
    {
        Ipv4 { a, b, c, d }
    }
}

/// The character of the decimal digit `d`.
pub open spec fn digit(d: nat) -> char {
    if d == 0 {
        '0'
    } else if d == 1 {
        '1'
    } else if d == 2 {
        '2'
    } else if d == 3 {
        '3'
    } else if d == 4 {
        '4'
    } else if d == 5 {
        '5'
    } else if d == 6 {
        '6'
    } else if d == 7 {
        '7'
    } else if d == 8 {
        '8'
    } else {
        '9'
    }
}

/// `n` in decimal, without leading zeros.
pub open spec fn decimal(n: nat) -> Seq<char>
    decreases n,
{
    if n < 10 {
        seq![digit(n)]
    } else {
        decimal(n / 10).push(digit(n % 10))
    }
}

/// An address in dotted decimal notation.
pub open spec fn ipv4_text(ip: Ipv4) -> Seq<char> {
    decimal(ip.a as nat) + seq!['.'] + decimal(ip.b as nat) + seq!['.'] + decimal(ip.c as nat)
        + seq!['.'] + decimal(ip.d as nat)
}

/// A subnet as its gateway in dotted decimal notation, a slash, and the
/// length of the mask in decimal.
pub open spec fn subnet_text(subnet: Subnet) -> Seq<char> {
    ipv4_text(subnet.gateway) + seq!['/'] + decimal(subnet.mask as nat)
}

/// Whether `text` is the dotted decimal form of an address.
pub open spec fn is_ipv4_text(text: Seq<char>) -> bool {
    exists|ip: Ipv4| ipv4_text(ip) == text
}

/// Whether `text` is the decimal form of a number up to 255.
pub open spec fn is_u8_text(text: Seq<char>) -> bool {
    exists|number: u8| decimal(number as nat) == text
}

/// How many slashes `text` holds.
pub open spec fn slashes(text: Seq<char>) -> nat
    decreases text.len(),
{
    if text.len() == 0 {
        0
    } else if text.last() == '/' {
        slashes(text.drop_last()) + 1
    } else {
        slashes(text.drop_last())
    }
}

/// Where the first slash of `text` stands; the length of `text` where it
/// holds none.
pub open spec fn first_slash(text: Seq<char>) -> int
    decreases text.len(),
{
    if text.len() == 0 || text[0] == '/' {
        0
    } else {
        1 + first_slash(text.subrange(1, text.len() as int))
    }
}

/// What stands before the first slash of `text`.
pub open spec fn before_slash(text: Seq<char>) -> Seq<char> {
    text.subrange(0, first_slash(text))
}

/// What stands after the first slash of `text`.
pub open spec fn after_slash(text: Seq<char>) -> Seq<char> {
    text.subrange(first_slash(text) + 1, text.len() as int)
}

/// What the address parser makes of a text that is not the dotted decimal
/// form of an address.
pub uninterp spec fn parsed_ipv4(text: Seq<char>) -> Option<Ipv4>;

/// What the parser of small numbers makes of a text that is not the decimal
/// form of a number up to 255.
pub uninterp spec fn parsed_u8(text: Seq<char>) -> Option<u8>;

/// What the address parser makes of `text`: the dotted decimal form of an
/// address is read as that address, any other text as the parser sees fit.
pub open spec fn ipv4_reading(text: Seq<char>) -> Option<Ipv4> {
    if is_ipv4_text(text) {
        Some(choose|ip: Ipv4| ipv4_text(ip) == text)
    } else {
        parsed_ipv4(text)
    }
}

/// What the parser of small numbers makes of `text`: the decimal form of a
/// number up to 255 is read as that number, any other text as the parser
/// sees fit.
pub open spec fn u8_reading(text: Seq<char>) -> Option<u8> {
    if is_u8_text(text) {
        Some(choose|number: u8| decimal(number as nat) == text)
    } else {
        parsed_u8(text)
    }
}

/// The mask length that a parsed number stands for: a mask has 1 to 32 bits.
pub open spec fn mask_of(number: Option<u8>) -> Result<u8, Seq<char>> {
    match number {
        None => Err("Invalid subnet mask"@),
        Some(n) => if 1 <= n <= 32 {
            Ok(n)
        } else {
            Err("Mask should be a number between 1 and 32"@)
        },
    }
}

/// What the mask parser makes of `text`.
pub open spec fn mask_reading(text: Seq<char>) -> Result<u8, Seq<char>> {
    mask_of(u8_reading(text))
}

/// A mask parser's answer beside the gateway that it belongs to.
pub open spec fn with_gateway(gateway: Ipv4, mask: Result<u8, Seq<char>>) -> Result<
    Subnet,
    Seq<char>,
> {
    match mask {
        Ok(mask) => Ok(Subnet { gateway, mask }),
        Err(msg) => Err(msg),
    }
}

/// What the subnet parser makes of `text`. A text must hold exactly one
/// slash; what stands before it must be an address for the address parser;
/// what stands after it is left to the mask parser.
pub open spec fn subnet_reading(text: Seq<char>) -> Result<Subnet, Seq<char>> {
    if slashes(text) != 1 {
        Err("Expected <gateway-ip-address>/<mask>"@)
    } else {
        match ipv4_reading(before_slash(text)) {
            None => Err("Invalid IP address format, expected XXX.XXX.XXX.XXX"@),
            Some(gateway) => with_gateway(gateway, mask_reading(after_slash(text))),
        }
    }
}

/// `Display` of `embedded_svc::ipv4::Ipv4Addr`, which is the address type of
/// the standard library. Trusted: the text is the four octets in decimal,
/// without leading zeros, separated by dots.
#[verifier::external_body]
pub(crate) fn render_ipv4(ip: Ipv4) -> (res: String)
    ensures
        res@ == ipv4_text(ip),
{
    embedded_svc::ipv4::Ipv4Addr::new(ip.a, ip.b, ip.c, ip.d).to_string()
}

/// `Display` of `embedded_svc::ipv4::Subnet`. Trusted: the text is the
/// gateway as an address, a slash, and the mask's length in decimal.
#[verifier::external_body]
pub(crate) fn render_subnet(subnet: Subnet) -> (res: String)
    ensures
        res@ == subnet_text(subnet),
{
    let g = subnet.gateway;
    embedded_svc::ipv4::Subnet {
        gateway: embedded_svc::ipv4::Ipv4Addr::new(g.a, g.b, g.c, g.d),
        mask: embedded_svc::ipv4::Mask(subnet.mask),
    }.to_string()
}

/// `FromStr` of `embedded_svc::ipv4::Ipv4Addr`, which is the address type of
/// the standard library. Trusted: the dotted decimal form of an address is
/// read back as that address, and what is made of any other text depends on
/// the text alone.
#[verifier::external_body]
pub(crate) fn parse_ipv4(text: &str) -> (res: Option<Ipv4>)
    ensures
        forall|ip: Ipv4| #[trigger] ipv4_text(ip) == text@ ==> res == Some(ip),
        !is_ipv4_text(text@) ==> res == parsed_ipv4(text@),
{
    match text.parse::<embedded_svc::ipv4::Ipv4Addr>() {
        Ok(ip) => {
            let o = ip.octets();
            Some(Ipv4 { a: o[0], b: o[1], c: o[2], d: o[3] })
        },
        Err(_) => None,
    }
}

/// `FromStr` of `embedded_svc::ipv4::Subnet`. It reads the gateway by the
/// address parser and the mask by `FromStr` of `embedded_svc::ipv4::Mask`,
/// which in turn reads a number by the standard library's `FromStr` of `u8`.
/// Trusted, clause by clause: a text that does not hold exactly one slash is
/// rejected; so is one whose part before the slash is no address for the
/// address parser; where that part is an address, the decimal form of a
/// number up to 255 after the slash is taken as the mask's length, and any
/// other text after the slash as what the number parser makes of it; a
/// length that is no number or not 1 to 32 is rejected with its message.
#[verifier::external_body]
pub(crate) fn parse_subnet(text: &str) -> (res: Result<Subnet, String>)
    ensures
        slashes(text@) != 1 ==> res is Err && res->Err_0@
            == "Expected <gateway-ip-address>/<mask>"@,
        slashes(text@) == 1 && ipv4_reading(before_slash(text@)) is None ==> res is Err
            && res->Err_0@ == "Invalid IP address format, expected XXX.XXX.XXX.XXX"@,
        forall|number: u8|
            slashes(text@) == 1 && ipv4_reading(before_slash(text@)) is Some
                && #[trigger] decimal(number as nat) == after_slash(text@)
                ==> crate::field::outcome_view(res) == with_gateway(
                ipv4_reading(before_slash(text@))->0,
                mask_of(Some(number)),
            ),
        slashes(text@) == 1 && ipv4_reading(before_slash(text@)) is Some && !is_u8_text(
            after_slash(text@),
        ) ==> crate::field::outcome_view(res) == with_gateway(
            ipv4_reading(before_slash(text@))->0,
            mask_of(parsed_u8(after_slash(text@))),
        ),
{
    match text.parse::<embedded_svc::ipv4::Subnet>() {
        Ok(s) => {
            let o = s.gateway.octets();
            Ok(Subnet { gateway: Ipv4 { a: o[0], b: o[1], c: o[2], d: o[3] }, mask: s.mask.0 })
        },
        Err(msg) => Err(msg.to_owned()),
    }
}

/// Whether `c` is a decimal digit.
pub open spec fn is_digit(c: char) -> bool {
    '0' <= c <= '9'
}

/// The number that the digit `c` stands for.
pub open spec fn digit_value(c: char) -> nat {
    (c as int - '0' as int) as nat
}

/// The number that a text of decimal digits stands for.
pub open spec fn digits_value(text: Seq<char>) -> nat
    decreases text.len(),
{
    if text.len() == 0 {
        0
    } else {
        10 * digits_value(text.drop_last()) + digit_value(text.last())
    }
}

/// How many digits `text` begins with.
pub open spec fn leading_digits(text: Seq<char>) -> int
    decreases text.len(),
{
    if text.len() == 0 || !is_digit(text[0]) {
        0
    } else {
        1 + leading_digits(text.subrange(1, text.len() as int))
    }
}

/// The digits that `text` begins with.
pub open spec fn first_number(text: Seq<char>) -> Seq<char> {
    text.subrange(0, leading_digits(text))
}

/// What follows the digits that `text` begins with and the one character
/// after them.
pub open spec fn after_first_number(text: Seq<char>) -> Seq<char> {
    text.subrange(leading_digits(text) + 1, text.len() as int)
}

/// The decimal form of a number is made of digits, at least one, and stands
/// for that number.
pub proof fn decimal_is_a_number(n: nat)
    ensures
        decimal(n).len() >= 1,
        forall|i: int| 0 <= i < decimal(n).len() ==> is_digit(#[trigger] decimal(n)[i]),
        digits_value(decimal(n)) == n,
    decreases n,
{
    if n < 10 {
        assert(decimal(n).drop_last() =~= Seq::<char>::empty());
        assert(digits_value(decimal(n).drop_last()) == 0);
    } else {
        decimal_is_a_number(n / 10);
        assert(decimal(n).drop_last() =~= decimal(n / 10));
    }
}

/// A text made of digits begins with all of them.
proof fn leading_digits_of_digits(number: Seq<char>)
    requires
        forall|i: int| 0 <= i < number.len() ==> is_digit(#[trigger] number[i]),
    ensures
        leading_digits(number) == number.len(),
    decreases number.len(),
{
    if number.len() > 0 {
        leading_digits_of_digits(number.subrange(1, number.len() as int));
    }
}

/// Digits, one character that is none, and a rest: the text begins with
/// exactly those digits, and the rest is what follows the separator.
proof fn split_at_separator(number: Seq<char>, separator: char, rest: Seq<char>)
    requires
        forall|i: int| 0 <= i < number.len() ==> is_digit(#[trigger] number[i]),
        !is_digit(separator),
    ensures
        first_number(number + seq![separator] + rest) == number,
        after_first_number(number + seq![separator] + rest) == rest,
    decreases number.len(),
{
    let text = number + seq![separator] + rest;
    assert(leading_digits(text) == number.len()) by {
        split_leading(number, separator, rest);
    }
    assert(text.subrange(0, number.len() as int) =~= number);
    assert(text.subrange(number.len() as int + 1, text.len() as int) =~= rest);
}

/// Digits, one character that is none, and a rest: the text begins with as
/// many digits as stand before the separator.
proof fn split_leading(number: Seq<char>, separator: char, rest: Seq<char>)
    requires
        forall|i: int| 0 <= i < number.len() ==> is_digit(#[trigger] number[i]),
        !is_digit(separator),
    ensures
        leading_digits(number + seq![separator] + rest) == number.len(),
    decreases number.len(),
{
    let text = number + seq![separator] + rest;
    if number.len() == 0 {
        assert(text[0] == separator);
    } else {
        let shorter = number.subrange(1, number.len() as int);
        assert(text[0] == number[0]);
        assert(text.subrange(1, text.len() as int) =~= shorter + seq![separator] + rest);
        split_leading(shorter, separator, rest);
    }
}

/// The address that a text in dotted decimal notation stands for.
pub open spec fn ipv4_of_text(text: Seq<char>) -> Ipv4 {
    let b = after_first_number(text);
    let c = after_first_number(b);
    let d = after_first_number(c);
    Ipv4 {
        a: digits_value(first_number(text)) as u8,
        b: digits_value(first_number(b)) as u8,
        c: digits_value(first_number(c)) as u8,
        d: digits_value(first_number(d)) as u8,
    }
}

/// The address can be told from its dotted decimal form.
proof fn ipv4_text_stands_for(ip: Ipv4)
    ensures
        ipv4_of_text(ipv4_text(ip)) == ip,
{
    let a = decimal(ip.a as nat);
    let b = decimal(ip.b as nat);
    let c = decimal(ip.c as nat);
    let d = decimal(ip.d as nat);
    decimal_is_a_number(ip.a as nat);
    decimal_is_a_number(ip.b as nat);
    decimal_is_a_number(ip.c as nat);
    decimal_is_a_number(ip.d as nat);
    let dot = seq!['.'];
    let t0 = ipv4_text(ip);
    let t1 = b + dot + c + dot + d;
    let t2 = c + dot + d;
    assert(t0 =~= a + dot + t1);
    assert(t1 =~= b + dot + t2);
    split_at_separator(a, '.', t1);
    split_at_separator(b, '.', t2);
    split_at_separator(c, '.', d);
    leading_digits_of_digits(d);
    assert(first_number(d) =~= d);
}

/// No two addresses have the same dotted decimal form: the form of an
/// address is read as that address.
pub proof fn ipv4_text_is_read_back(ip: Ipv4)
    ensures
        is_ipv4_text(ipv4_text(ip)),
        ipv4_reading(ipv4_text(ip)) == Some(ip),
{
    let text = ipv4_text(ip);
    let other = choose|other: Ipv4| ipv4_text(other) == text;
    ipv4_text_stands_for(ip);
    ipv4_text_stands_for(other);
}

/// The decimal form of a number up to 255 is read as that number.
pub proof fn number_text_is_read_back(number: u8)
    ensures
        is_u8_text(decimal(number as nat)),
        u8_reading(decimal(number as nat)) == Some(number),
{
    let text = decimal(number as nat);
    let other = choose|other: u8| decimal(other as nat) == text;
    decimal_is_a_number(number as nat);
    decimal_is_a_number(other as nat);
}

/// A text without a slash holds no slashes, and its first slash would stand
/// at its end.
pub proof fn text_without_slash(text: Seq<char>)
    requires
        forall|i: int| 0 <= i < text.len() ==> text[i] != '/',
    ensures
        slashes(text) == 0,
        first_slash(text) == text.len(),
    decreases text.len(),
{
    if text.len() > 0 {
        text_without_slash(text.drop_last());
        text_without_slash(text.subrange(1, text.len() as int));
    }
}

/// A text without a slash, a slash, and another text without a slash: the
/// whole holds one slash, with the first text before it and the second after
/// it.
pub proof fn text_with_one_slash(before: Seq<char>, after: Seq<char>)
    requires
        forall|i: int| 0 <= i < before.len() ==> before[i] != '/',
        forall|i: int| 0 <= i < after.len() ==> after[i] != '/',
    ensures
        slashes(before + seq!['/'] + after) == 1,
        before_slash(before + seq!['/'] + after) == before,
        after_slash(before + seq!['/'] + after) == after,
{
    let text = before + seq!['/'] + after;
    slashes_up_to_the_slash(before, after);
    first_slash_after(before, seq!['/'] + after);
    assert(text =~= before + (seq!['/'] + after));
    assert(text.subrange(0, before.len() as int) =~= before);
    assert(text.subrange(before.len() as int + 1, text.len() as int) =~= after);
}

/// A text without a slash, a slash, and a text without a slash hold one
/// slash.
proof fn slashes_up_to_the_slash(before: Seq<char>, after: Seq<char>)
    requires
        forall|i: int| 0 <= i < before.len() ==> before[i] != '/',
        forall|i: int| 0 <= i < after.len() ==> after[i] != '/',
    ensures
        slashes(before + seq!['/'] + after) == 1,
    decreases after.len(),
{
    let text = before + seq!['/'] + after;
    if after.len() == 0 {
        assert(text.drop_last() =~= before);
        text_without_slash(before);
    } else {
        assert(text.drop_last() =~= before + seq!['/'] + after.drop_last());
        assert(text.last() == after.last());
        slashes_up_to_the_slash(before, after.drop_last());
    }
}

/// Behind a text without a slash, the first slash stands where it stands in
/// what follows, moved by the length of the text.
proof fn first_slash_after(before: Seq<char>, rest: Seq<char>)
    requires
        forall|i: int| 0 <= i < before.len() ==> before[i] != '/',
        rest.len() > 0,
        rest[0] == '/',
    ensures
        first_slash(before + rest) == before.len(),
    decreases before.len(),
{
    let text = before + rest;
    if before.len() == 0 {
        assert(text[0] == rest[0]);
    } else {
        let shorter = before.subrange(1, before.len() as int);
        assert(text[0] == before[0]);
        assert(text.subrange(1, text.len() as int) =~= shorter + rest);
        first_slash_after(shorter, rest);
    }
}

/// The dotted decimal form of an address holds digits and dots only.
pub proof fn ipv4_text_is_digits_and_dots(ip: Ipv4)
    ensures
        forall|i: int|
            0 <= i < ipv4_text(ip).len() ==> is_digit(#[trigger] ipv4_text(ip)[i]) || ipv4_text(
                ip,
            )[i] == '.',
{
    decimal_is_a_number(ip.a as nat);
    decimal_is_a_number(ip.b as nat);
    decimal_is_a_number(ip.c as nat);
    decimal_is_a_number(ip.d as nat);
}

/// The text form of a subnet with a mask of 1 to 32 bits is read as that
/// subnet.
pub proof fn subnet_text_is_read_back(subnet: Subnet)
    requires
        1 <= subnet.mask <= 32,
    ensures
        subnet_reading(subnet_text(subnet)) == Ok::<Subnet, Seq<char>>(subnet),
{
    let gateway = ipv4_text(subnet.gateway);
    let mask = decimal(subnet.mask as nat);
    ipv4_text_is_digits_and_dots(subnet.gateway);
    decimal_is_a_number(subnet.mask as nat);
    text_with_one_slash(gateway, mask);
    ipv4_text_is_read_back(subnet.gateway);
    number_text_is_read_back(subnet.mask);
}

/// The dotted decimal form of an address begins and ends with a digit.
pub proof fn ipv4_text_ends_in_digits(ip: Ipv4)
    ensures
        ipv4_text(ip).len() > 0,
        is_digit(ipv4_text(ip)[0]),
        is_digit(ipv4_text(ip)[ipv4_text(ip).len() - 1]),
{
    decimal_is_a_number(ip.a as nat);
    decimal_is_a_number(ip.d as nat);
    let a = decimal(ip.a as nat);
    let d = decimal(ip.d as nat);
    let text = ipv4_text(ip);
    assert(text[0] == a[0]);
    assert(text[text.len() - 1] == d[d.len() - 1]);
}

} // verus!
