//! Where the address to write comes from.

use crate::error::{is_outcome, Error, ErrorView};
use crate::ip::{parse_dotted_quad, Ipv4Address};
use vstd::prelude::*;
use vstd::string::*;

verus! {

/// The address to write: given, to be asked for at a URL, or both, in
/// which case the given one counts.
#[derive(Debug, PartialEq, Eq)]
pub enum IpAddress {
    Address(Ipv4Address),
    Url(String),
    Both { address: Ipv4Address, url: String },
}

/// What is said where neither an address nor a URL is given.
pub open spec fn no_address_message() -> Seq<char> {
    "Neither IP address nor IP url are set."@
}

/// What is said of a given address that is no dotted quad.
pub open spec fn bad_address_message(text: Seq<char>) -> Seq<char> {
    "Invalid IP address: '"@ + text + "'"@
}

fn bad_address(text: &str) -> (error: Error)
    ensures
        error@ == ErrorView::ConfigInvalid(bad_address_message(text@)),
{
    let mut message = String::from_str("Invalid IP address: '");
    message.append(text);
    message.append("'");
    Error::ConfigInvalid(message)
}

/// The source of the address that a given address and a URL make, or
/// what the error holds where they make none.
pub open spec fn address_source(ip_address: Option<String>, ip_url: Option<String>) -> Result<
    IpAddress,
    ErrorView,
> {
    match (ip_address, ip_url) {
        (None, None) => Err(ErrorView::ConfigInvalid(no_address_message())),
        (None, Some(url)) => Ok(IpAddress::Url(url)),
        (Some(address), url) => match parse_dotted_quad(address@) {
            None => Err(ErrorView::ConfigInvalid(bad_address_message(address@))),
            Some(bits) => match url {
                None => Ok(IpAddress::Address(Ipv4Address { bits })),
                Some(url) => Ok(IpAddress::Both { address: Ipv4Address { bits }, url }),
            },
        },
    }
}

impl IpAddress {
    /// The source of the address, from a given address, a URL, or both.
    /// One of them is needed, and a given address must be a dotted quad.
    pub fn new(ip_address: Option<String>, ip_url: Option<String>) -> (ip: Result<IpAddress, Error>)
        ensures
            is_outcome(ip, address_source(ip_address, ip_url)),
    {
        match (ip_address, ip_url) {
            (None, None) => Err(
                Error::ConfigInvalid(String::from_str("Neither IP address nor IP url are set.")),
            ),
            (None, Some(url)) => Ok(IpAddress::Url(url)),
            (Some(address), url) => match Ipv4Address::parse(address.as_str()) {
                None => Err(bad_address(address.as_str())),
                Some(address) => match url {
                    None => Ok(IpAddress::Address(address)),
                    Some(url) => Ok(IpAddress::Both { address, url }),
                },
            },
        }
    }

    /// The given address; `None` where the address is to be asked for.
    pub fn known_address(&self) -> (address: Option<Ipv4Address>)
        ensures
            address == match *self {
                IpAddress::Address(address) => Some(address),
                IpAddress::Url(_) => None,
                IpAddress::Both { address, .. } => Some(address),
            },
    {
        match self {
            IpAddress::Url(_) => None,
            IpAddress::Both { address, .. } => Some(*address),
            IpAddress::Address(address) => Some(*address),
        }
    }

    /// What the answer of the URL gives as the address: the dotted quad
    /// that it holds.
    pub fn from_answer(text: &str) -> (address: Result<Ipv4Address, Error>)
        ensures
            match parse_dotted_quad(text@) {
                Some(bits) => address == Ok::<Ipv4Address, Error>(Ipv4Address { bits }),
                None => address is Err && address->Err_0@ == ErrorView::NetworkError(
                    bad_address_message(text@),
                ),
            },
    {
        match Ipv4Address::parse(text) {
            Some(address) => Ok(address),
            None => {
                let mut message = String::from_str("Invalid IP address: '");
                message.append(text);
                message.append("'");
                Err(Error::NetworkError(message))
            },
        }
    }
}

} // verus!
