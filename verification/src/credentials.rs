//! Network credentials as the wireless driver takes them: in strings of a
//! fixed capacity, 32 bytes for the network name and 64 for the password.

use vstd::prelude::*;
use vstd::string::StringSliceAdditionalSpecFns;

verus! {

/// Capacity in bytes of a network name.
pub const SSID_CAPACITY: usize = 32;

/// Capacity in bytes of a password.
pub const PASSWORD_CAPACITY: usize = 64;

/// What a field of `capacity` bytes holds when it is given `text`: the text
/// itself where its encoding fits, and nothing where it does not.
pub open spec fn field_text_of(text: Seq<char>, capacity: nat) -> Seq<char> {
    if vstd::utf8::encode_utf8(text).len() <= capacity {
        text
    } else {
        Seq::empty()
    }
}

/// `heapless::String::<N>::try_from(&str)` starts from an empty string of
/// capacity `N` and appends the bytes of `text`. That succeeds if and only if
/// they number no more than `N`, and the string then reads as `text`. This is
/// not proved here: it is what the source of `heapless` shows.
#[verifier::external_body]
fn bounded_copy<const N: usize>(text: &str) -> (held: Option<String>)
    ensures
        held is Some <==> text.spec_bytes().len() <= N,
        held matches Some(copy) ==> copy@ == text@,
{
    match heapless::String::<N>::try_from(text) {
        Ok(field) => Some(field.as_str().to_owned()),
        Err(_) => None,
    }
}

/// The text of the network-name field for `ssid`. A name that does not fit
/// leaves the field empty.
pub fn ssid_field(ssid: &str) -> (field: String)
    ensures
        field@ == field_text_of(ssid@, 32),
{
    match bounded_copy::<SSID_CAPACITY>(ssid) {
        Some(copy) => copy,
        None => String::new(),
    }
}

/// The text of the password field for `password`. A password that does not
/// fit leaves the field empty.
pub fn password_field(password: &str) -> (field: String)
    ensures
        field@ == field_text_of(password@, 64),
{
    match bounded_copy::<PASSWORD_CAPACITY>(password) {
        Some(copy) => copy,
        None => String::new(),
    }
}

} // verus!
