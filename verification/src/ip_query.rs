//! The service that is asked for the public address where the
//! configuration names none.

use crate::config::ip::{bad_address_message, IpAddress};
use crate::error::{Error, ErrorView};
use crate::ip::{parse_dotted_quad, Ipv4Address};
use vstd::prelude::*;

verus! {

/// The service at ipecho.net, which answers with the caller's address
/// as plain text.
#[derive(Debug, Clone, Copy, PartialEq, Eq, Default)]
pub struct IpEcho;

impl IpEcho {
    /// The address of the service.
    pub fn url(&self) -> (url: &'static str)
        ensures
            url@ == "https://ipecho.net/plain"@,
    {
        "https://ipecho.net/plain"
    }

    /// The address that an answer of the service holds: the answer must
    /// be a dotted quad and nothing else.
    pub fn read_answer(&self, text: &str) -> (address: Result<Ipv4Address, Error>)
        ensures
            match parse_dotted_quad(text@) {
                Some(bits) => address == Ok::<Ipv4Address, Error>(Ipv4Address { bits }),
                None => address is Err && address->Err_0@ == ErrorView::NetworkError(
                    bad_address_message(text@),
                ),
            },
    {
        IpAddress::from_answer(text)
    }
}

} // verus!
