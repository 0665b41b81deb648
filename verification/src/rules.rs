//! The rules that the configuration forms apply to their fields.

use vstd::prelude::*;
use crate::auth::{from_label, spec_from_label, AuthMethod};
use crate::field::{outcome, FieldState, TextField, Validator};
use crate::ipv4::{
    ipv4_reading,
    ipv4_text,
    ipv4_text_ends_in_digits,
    ipv4_text_is_read_back,
    parse_ipv4,
    parse_subnet,
    subnet_reading,
    Ipv4,
    Subnet,
};
use crate::raw::Raw;
use crate::text::{blank, empty_is_blank, is_blank, trimmed_is_identity};

verus! {

/// The rule that accepts every raw value as it is.
pub struct Accept;

impl<R: Raw> Validator<R, R> for Accept {
    type Peer = ();

    open spec fn spec_validate(&self, peer: (), raw: R::V) -> Result<R::V, Seq<char>> {
        Ok(raw)
    }

    fn validate(&self, peer: &(), raw: R) -> (res: Result<R, String>) {
        Ok(raw)
    }
}

/// The rule for a password: any text but the empty one.
pub struct Password;

impl Validator<String, String> for Password {
    type Peer = ();

    open spec fn spec_validate(&self, peer: (), raw: Seq<char>) -> Result<Seq<char>, Seq<char>> {
        if raw.len() == 0 {
            Err("Password cannot be empty"@)
        } else {
            Ok(raw)
        }
    }

    fn validate(&self, peer: &(), raw: String) -> (res: Result<String, String>) {
        if raw.as_str().is_empty() {
            Err("Password cannot be empty".to_owned())
        } else {
            Ok(raw)
        }
    }
}

/// The rule for the field that repeats a password: its text must be the
/// value in force in the password field, read at the moment the rule is
/// applied.
pub struct Confirmation;

impl Validator<String, String> for Confirmation {
    type Peer = TextField<String, Password>;

    open spec fn spec_validate(&self, peer: FieldState<Seq<char>>, raw: Seq<char>) -> Result<
        Seq<char>,
        Seq<char>,
    > {
        if raw == peer.effective(String::zero()) {
            Ok(raw)
        } else {
            Err("Passwords do not match"@)
        }
    }

    fn validate(&self, peer: &TextField<String, Password>, raw: String) -> (res: Result<
        String,
        String,
    >) {
        if raw == peer.raw_value() {
            Ok(raw)
        } else {
            Err("Passwords do not match".to_owned())
        }
    }
}

/// The rule for the authentication method: the method that the text is the
/// label of, and the default method for any other text. It rejects nothing.
pub struct Authentication;

impl Validator<String, AuthMethod> for Authentication {
    type Peer = ();

    open spec fn spec_validate(&self, peer: (), raw: Seq<char>) -> Result<AuthMethod, Seq<char>> {
        Ok(spec_from_label(raw))
    }

    fn validate(&self, peer: &(), raw: String) -> (res: Result<AuthMethod, String>) {
        Ok(from_label(&raw))
    }
}

/// The rule for a subnet: a gateway address, a slash, and a mask length.
pub struct SubnetText;

impl Validator<String, Subnet> for SubnetText {
    type Peer = ();

    open spec fn spec_validate(&self, peer: (), raw: Seq<char>) -> Result<Subnet, Seq<char>> {
        subnet_reading(raw)
    }

    fn validate(&self, peer: &(), raw: String) -> (res: Result<Subnet, String>) {
        parse_subnet(raw.as_str())
    }
}

/// What the address rule makes of a parser's answer: the address, or the
/// message for a text that is none.
pub open spec fn spec_address(parsed: Option<Ipv4>) -> Result<Ipv4, Seq<char>> {
    match parsed {
        Some(ip) => Ok(ip),
        None => Err("Invalid IP address format, expected XXX.XXX.XXX.XXX"@),
    }
}

/// What the address rule makes of a parser's answer.
pub fn address(parsed: Option<Ipv4>) -> (res: Result<Ipv4, String>)
    ensures
        crate::field::outcome_view(res) == spec_address(parsed),
{
    match parsed {
        Some(ip) => Ok(ip),
        None => Err("Invalid IP address format, expected XXX.XXX.XXX.XXX".to_owned()),
    }
}

/// What the rule for an address that may be left out makes of a text that is
/// blank or not, and of the parser's answer to it.
pub open spec fn spec_optional_address(blank: bool, parsed: Option<Ipv4>) -> Result<
    Option<Ipv4>,
    Seq<char>,
> {
    if blank {
        Ok(None)
    } else {
        match spec_address(parsed) {
            Ok(ip) => Ok(Some(ip)),
            Err(msg) => Err(msg),
        }
    }
}

/// The rule for an address that must be given.
pub struct Address;

impl Validator<String, Ipv4> for Address {
    type Peer = ();

    open spec fn spec_validate(&self, peer: (), raw: Seq<char>) -> Result<Ipv4, Seq<char>> {
        spec_address(ipv4_reading(raw))
    }

    fn validate(&self, peer: &(), raw: String) -> (res: Result<Ipv4, String>) {
        address(parse_ipv4(raw.as_str()))
    }
}

/// The rule for an address that may be left out: a blank text stands for no
/// address, any other text must be an address as it stands.
pub struct OptionalAddress;

impl Validator<String, Option<Ipv4>> for OptionalAddress {
    type Peer = ();

    open spec fn spec_validate(&self, peer: (), raw: Seq<char>) -> Result<
        Option<Ipv4>,
        Seq<char>,
    > {
        spec_optional_address(is_blank(raw), ipv4_reading(raw))
    }

    fn validate(&self, peer: &(), raw: String) -> (res: Result<Option<Ipv4>, String>) {
        if blank(raw.as_str()) {
            Ok(None)
        } else {
            match address(parse_ipv4(raw.as_str())) {
                Ok(ip) => Ok(Some(ip)),
                Err(msg) => Err(msg),
            }
        }
    }
}

/// The confirmation follows the password as it is typed: with one text in
/// the password field and another in the confirmation, the confirmation is
/// in error; once the confirmation holds the password's text, it is not.
pub proof fn confirmation_follows_password(
    password: FieldState<Seq<char>>,
    confirm: FieldState<Seq<char>>,
    r1: Seq<char>,
    r2: Seq<char>,
)
    requires
        r1 != r2,
    ensures
        outcome::<String, String, Confirmation>(
            Confirmation,
            password.on_change(r1),
            confirm.on_change(r2),
        ) is Err,
        outcome::<String, String, Confirmation>(
            Confirmation,
            password.on_change(r1),
            confirm.on_change(r2).on_change(r1),
        ) == Ok::<Seq<char>, Seq<char>>(r1),
{
}

/// The text of an address that may be absent: empty where it is.
pub open spec fn optional_ipv4_text(ip: Option<Ipv4>) -> Seq<char> {
    match ip {
        Some(ip) => ipv4_text(ip),
        None => Seq::empty(),
    }
}

/// The rule for an address that may be left out reads the text of such an
/// address back: the empty text as no address, the dotted decimal form of an
/// address as that address.
pub proof fn optional_address_is_read_back(ip: Option<Ipv4>)
    ensures
        OptionalAddress.spec_validate((), optional_ipv4_text(ip)) == Ok::<Option<Ipv4>, Seq<char>>(
            ip,
        ),
{
    match ip {
        Some(ip) => {
            ipv4_text_ends_in_digits(ip);
            trimmed_is_identity(ipv4_text(ip));
            ipv4_text_is_read_back(ip);
        },
        None => {
            empty_is_blank();
        },
    }
}

} // verus!
