//! Account and contract addresses, and the rule that picks the trading
//! address from the sources a caller may have.

use crate::text::{same_text, text_of};
use vstd::prelude::*;

verus! {

/// A 20-byte account or contract address.
#[derive(Clone, Copy, Debug, PartialEq, Eq)]
pub struct Address {
    pub bytes: [u8; 20],
}

impl View for Address {
    type V = Seq<u8>;

    open spec fn view(&self) -> Seq<u8> {
        self.bytes@
    }
}

/// The value of a hexadecimal digit, in either case.
pub open spec fn hex_value(c: char) -> Option<int> {
    let n = c as u32 as int;
    if 0x30 <= n <= 0x39 {
        Some(n - 0x30)
    } else if 0x41 <= n <= 0x46 {
        Some(n - 0x41 + 10)
    } else if 0x61 <= n <= 0x66 {
        Some(n - 0x61 + 10)
    } else {
        None
    }
}

/// `s` without a leading `0x` or `0X`.
pub open spec fn without_prefix(s: Seq<char>) -> Seq<char> {
    if s.len() >= 2 && s[0] == '0' && (s[1] == 'x' || s[1] == 'X') {
        s.subrange(2, s.len() as int)
    } else {
        s
    }
}

/// `s` is forty hexadecimal digits, with or without the `0x` prefix.
pub open spec fn is_address_text(s: Seq<char>) -> bool {
    let digits = without_prefix(s);
    &&& digits.len() == 40
    &&& forall|i: int| 0 <= i < 40 ==> (#[trigger] hex_value(digits[i])) is Some
}

/// The twenty bytes that address text spells, two digits to a byte.
pub open spec fn address_text_bytes(s: Seq<char>) -> Seq<u8> {
    let digits = without_prefix(s);
    Seq::new(
        20,
        |i: int| (hex_value(digits[2 * i]).unwrap() * 16 + hex_value(digits[2 * i + 1]).unwrap()) as u8,
    )
}

pub open spec fn is_capital(c: char) -> bool {
    0x41 <= c as u32 <= 0x5a
}

pub open spec fn is_small(c: char) -> bool {
    0x61 <= c as u32 <= 0x7a
}

/// The text holds capital letters and small letters both.
pub open spec fn is_mixed_case(digits: Seq<char>) -> bool {
    (exists|i: int| 0 <= i < digits.len() && is_capital(#[trigger] digits[i])) && (exists|
        j: int,
    | 0 <= j < digits.len() && is_small(#[trigger] digits[j]))
}

/// The address text carries a good checksum, or none at all: digits whose
/// letters are all of one case make no claim, and digits of mixed case must
/// be capitalised exactly as the checksummed text of their bytes is.
pub open spec fn passes_checksum(s: Seq<char>) -> bool {
    let digits = without_prefix(s);
    !is_mixed_case(digits) || digits == without_prefix(checksum_text(address_text_bytes(s)))
}

/// What reading `s` as an address gives: its bytes, where it is address text
/// that passes the checksum.
pub open spec fn parsed_address(s: Seq<char>) -> Option<Seq<u8>> {
    if is_address_text(s) && passes_checksum(s) {
        Some(address_text_bytes(s))
    } else {
        None
    }
}

pub open spec fn all_zero(bytes: Seq<u8>) -> bool {
    forall|i: int| 0 <= i < bytes.len() ==> bytes[i] == 0
}

/// The mixed-case text that `alloy`'s `Display` writes for the address with
/// these bytes: `0x` and forty digits, letters capitalised by a hash of the
/// digits.
pub uninterp spec fn checksum_text(bytes: Seq<u8>) -> Seq<char>;

impl Address {
    pub fn new(bytes: [u8; 20]) -> (r: Address)
        ensures
            r.bytes == bytes,
    {
        Address { bytes }
    }

    /// Reads forty hexadecimal digits, with or without `0x` in front. Digits
    /// that mix capital and small letters are taken as checksummed and are
    /// refused unless the capitals are where the checksum puts them.
    pub fn parse(s: &str) -> (r: Option<Address>)
        ensures
            bytes_of(r) == parsed_address(s@),
    {
        match address_from_text(s) {
            None => None,
            Some(a) => {
                let digits = digits_of(s);
                if !has_both_cases(digits) {
                    return Some(a);
                }
                let checksummed = a.to_checksum_string();
                if same_text(digits, digits_of(checksummed.as_str())) {
                    Some(a)
                } else {
                    None
                }
            },
        }
    }

    pub fn is_zero(&self) -> (r: bool)
        ensures
            r == all_zero(self@),
    {
        let mut i: usize = 0;
        while i < 20
            invariant
                i <= 20,
                self@.len() == 20,
                forall|j: int| 0 <= j < i ==> self@[j] == 0,
            decreases 20 - i,
        {
            if self.bytes[i] != 0 {
                return false;
            }
            i += 1;
        }
        true
    }

    pub fn same_as(&self, other: &Address) -> (r: bool)
        ensures
            r == (self@ == other@),
    {
        let mut i: usize = 0;
        while i < 20
            invariant
                i <= 20,
                self@.len() == 20,
                other@.len() == 20,
                forall|j: int| 0 <= j < i ==> self@[j] == other@[j],
            decreases 20 - i,
        {
            if self.bytes[i] != other.bytes[i] {
                return false;
            }
            i += 1;
        }
        assert(self@ =~= other@);
        true
    }

    /// The address as mixed-case checksummed text.
    pub fn to_checksum_string(&self) -> (r: String)
        ensures
            r@ == checksum_text(self@),
    {
        address_to_text(self)
    }
}

/// The text behind an optional `0x` or `0X`.
fn digits_of(s: &str) -> (r: &str)
    ensures
        r@ == without_prefix(s@),
{
    let n = s.unicode_len();
    if n >= 2 && s.get_char(0) == '0' && (s.get_char(1) == 'x' || s.get_char(1) == 'X') {
        s.substring_char(2, n)
    } else {
        s
    }
}

/// Whether the text holds capital letters and small letters both.
fn has_both_cases(digits: &str) -> (r: bool)
    ensures
        r == is_mixed_case(digits@),
{
    let n = digits.unicode_len();
    let mut capital = false;
    let mut small = false;
    let mut i: usize = 0;
    while i < n
        invariant
            i <= n,
            n == digits@.len(),
            capital <==> exists|k: int| 0 <= k < i && is_capital(#[trigger] digits@[k]),
            small <==> exists|k: int| 0 <= k < i && is_small(#[trigger] digits@[k]),
        decreases n - i,
    {
        let code = digits.get_char(i) as u32;
        if 0x41 <= code && code <= 0x5a {
            capital = true;
        }
        if 0x61 <= code && code <= 0x7a {
            small = true;
        }
        i += 1;
    }
    capital && small
}

/// `alloy::primitives::Address::from_str`: the text minus an optional `0x`
/// or `0X` must be exactly forty hexadecimal digits of either case; each pair
/// of digits is one byte, high digit first. Anything else is an error.
#[verifier::external_body]
fn address_from_text(s: &str) -> (r: Option<Address>)
    ensures
        r is Some <==> is_address_text(s@),
        r matches Some(a) ==> a@ == address_text_bytes(s@),
{
    match s.parse::<alloy::primitives::Address>() {
        Ok(a) => Some(Address { bytes: a.into_array() }),
        Err(_) => None,
    }
}

/// `alloy::primitives::Address`'s `Display`: the checksummed text of the
/// address made of these bytes.
#[verifier::external_body]
fn address_to_text(a: &Address) -> (r: String)
    ensures
        r@ == checksum_text(a@),
{
    alloy::primitives::Address::new(a.bytes).to_string()
}

/// Why no trading address could be settled on.
#[derive(Clone, Copy, Debug, PartialEq, Eq)]
pub enum AddressError {
    /// A supplied address is not forty hexadecimal digits, or mixes capital
    /// and small letters otherwise than its checksum does.
    InvalidAddressFormat,
    /// No source held an address.
    AddressResolutionError,
}

/// The address that the three sources settle on. The first source that is
/// present decides, and a present source that does not read as an address
/// is an error rather than a reason to look further.
pub open spec fn resolved(
    explicit: Option<Seq<char>>,
    environment: Option<Seq<char>>,
    key_address: Option<Seq<u8>>,
) -> Result<Seq<u8>, AddressError> {
    match explicit {
        Some(text) => match parsed_address(text) {
            Some(bytes) => Ok(bytes),
            None => Err(AddressError::InvalidAddressFormat),
        },
        None => match environment {
            Some(text) => match parsed_address(text) {
                Some(bytes) => Ok(bytes),
                None => Err(AddressError::InvalidAddressFormat),
            },
            None => match key_address {
                Some(bytes) => Ok(bytes),
                None => Err(AddressError::AddressResolutionError),
            },
        },
    }
}

pub open spec fn bytes_of(a: Option<Address>) -> Option<Seq<u8>> {
    match a {
        Some(x) => Some(x@),
        None => None,
    }
}

pub open spec fn resolution_of(r: Result<Address, AddressError>) -> Result<Seq<u8>, AddressError> {
    match r {
        Ok(a) => Ok(a@),
        Err(e) => Err(e),
    }
}

/// Whether the address configured in the environment has any say: only when
/// the caller gave none.
pub fn consults_environment(user: &Option<String>) -> (r: bool)
    ensures
        r == (user is None),
{
    user.is_none()
}

/// Whether the address of the signing key has any say: only when neither the
/// caller nor the environment gave one.
pub fn consults_key(user: &Option<String>, environment: &Option<String>) -> (r: bool)
    ensures
        r == (user is None && environment is None),
{
    user.is_none() && environment.is_none()
}

/// Settles the trading address: the caller's, else the environment's, else
/// the signing key's.
pub fn resolve_user_address(
    user: Option<String>,
    environment: Option<String>,
    key_address: Option<Address>,
) -> (r: Result<Address, AddressError>)
    ensures
        resolution_of(r) == resolved(text_of(user), text_of(environment), bytes_of(key_address)),
{
    match user {
        Some(text) => parse_supplied(text.as_str()),
        None => match environment {
            Some(text) => parse_supplied(text.as_str()),
            None => match key_address {
                Some(a) => Ok(a),
                None => Err(AddressError::AddressResolutionError),
            },
        },
    }
}

fn parse_supplied(text: &str) -> (r: Result<Address, AddressError>)
    ensures
        resolution_of(r) == match parsed_address(text@) {
            Some(bytes) => Ok::<Seq<u8>, AddressError>(bytes),
            None => Err(AddressError::InvalidAddressFormat),
        },
{
    match Address::parse(text) {
        Some(a) => Ok(a),
        None => Err(AddressError::InvalidAddressFormat),
    }
}

/// An explicit address decides alone: whatever the environment and the key
/// hold, the result is the same.
pub proof fn explicit_address_takes_precedence(
    explicit: Seq<char>,
    environment: Option<Seq<char>>,
    key_address: Option<Seq<u8>>,
)
    ensures
        resolved(Some(explicit), environment, key_address) == resolved(Some(explicit), None, None),
        is_address_text(explicit) && passes_checksum(explicit) ==> resolved(
            Some(explicit),
            environment,
            key_address,
        ) == Ok::<Seq<u8>, AddressError>(address_text_bytes(explicit)),
        !(is_address_text(explicit) && passes_checksum(explicit)) ==> resolved(
            Some(explicit),
            environment,
            key_address,
        ) == Err::<Seq<u8>, AddressError>(AddressError::InvalidAddressFormat),
{
}

/// Address text in one case is taken as it is; address text in mixed case is
/// taken only where it is, prefix aside, the checksummed text of its own
/// bytes.
pub proof fn mixed_case_must_be_checksummed(s: Seq<char>)
    requires
        is_address_text(s),
    ensures
        !is_mixed_case(without_prefix(s)) ==> parsed_address(s) == Some(address_text_bytes(s)),
        is_mixed_case(without_prefix(s)) ==> (parsed_address(s) is Some <==> without_prefix(s)
            == without_prefix(checksum_text(address_text_bytes(s)))),
{
}

/// Without an explicit address the environment's decides, valid or not, and
/// the key is reached only when both are absent.
pub proof fn environment_address_precedes_key(environment: Seq<char>, key_address: Option<Seq<u8>>)
    ensures
        resolved(None, Some(environment), key_address) == resolved(None, Some(environment), None),
        resolved(None, None, key_address) is Ok <==> key_address is Some,
{
}

} // verus!
