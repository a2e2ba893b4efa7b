//! How the current address stands to the one of the run before, where a
//! single previous address is kept.

use crate::error::Error;
use crate::ip::{dotted_quad, parse_dotted_quad, Ipv4Address};
use vstd::prelude::*;
use vstd::string::*;

verus! {

/// The current address and how it stands to the previous one.
#[derive(Debug, Clone, Copy, PartialEq, Eq, Structural)]
pub enum IpAddressChange {
    /// No previous address is known.
    FirstRun(Ipv4Address),
    /// The previous address is the current one.
    Unchanged(Ipv4Address),
    /// The previous address is another one.
    Changed { new_ip_address: Ipv4Address, previous_ip_address: Ipv4Address },
}

/// How `new_ip_address` stands to `previous_ip_address`.
pub open spec fn change_of(new_ip_address: Ipv4Address, previous_ip_address: Option<Ipv4Address>)
    -> IpAddressChange {
    match previous_ip_address {
        None => IpAddressChange::FirstRun(new_ip_address),
        Some(previous_ip_address) => if new_ip_address == previous_ip_address {
            IpAddressChange::Unchanged(new_ip_address)
        } else {
            IpAddressChange::Changed { new_ip_address, previous_ip_address }
        },
    }
}

/// The line that tells of a change.
pub open spec fn change_message(change: IpAddressChange) -> Seq<char> {
    match change {
        IpAddressChange::FirstRun(new_ip_address) => "IP address: '"@ + dotted_quad(
            new_ip_address.bits,
        ) + "'"@,
        IpAddressChange::Unchanged(previous_ip_address) => "IP address unchanged: '"@ + dotted_quad(
            previous_ip_address.bits,
        ) + "'"@,
        IpAddressChange::Changed { new_ip_address, previous_ip_address } => "IP address updated: '"@
            + dotted_quad(previous_ip_address.bits) + "' => '"@ + dotted_quad(new_ip_address.bits)
            + "'"@,
    }
}

impl IpAddressChange {
    /// How `new_ip_address` stands to `previous_ip_address`.
    pub fn determine_variant(
        new_ip_address: Ipv4Address,
        previous_ip_address: Option<Ipv4Address>,
    ) -> (change: IpAddressChange)
        ensures
            change == change_of(new_ip_address, previous_ip_address),
    {
        match previous_ip_address {
            Some(previous_ip_address) => {
                if new_ip_address == previous_ip_address {
                    IpAddressChange::Unchanged(new_ip_address)
                } else {
                    IpAddressChange::Changed { new_ip_address, previous_ip_address }
                }
            },
            None => IpAddressChange::FirstRun(new_ip_address),
        }
    }

    /// How `new_ip_address` stands to the previous address as it was
    /// kept: `previous` is the kept text, or `None` where none was kept.
    /// A kept text that is no dotted quad is an error.
    pub fn new(new_ip_address: Ipv4Address, previous: Option<&str>) -> (change: Result<
        IpAddressChange,
        Error,
    >)
        ensures
            match previous {
                None => change == Ok::<IpAddressChange, Error>(
                    IpAddressChange::FirstRun(new_ip_address),
                ),
                Some(text) => match parse_dotted_quad(text@) {
                    Some(bits) => change == Ok::<IpAddressChange, Error>(
                        change_of(new_ip_address, Some(Ipv4Address { bits })),
                    ),
                    None => change is Err && change->Err_0 is CacheCorrupt,
                },
            },
    {
        match previous {
            None => Ok(IpAddressChange::determine_variant(new_ip_address, None)),
            Some(text) => match Ipv4Address::parse(text) {
                Some(previous_ip_address) => Ok(
                    IpAddressChange::determine_variant(new_ip_address, Some(previous_ip_address)),
                ),
                None => Err(Error::CacheCorrupt),
            },
        }
    }

    /// The address to write to the records: the current one where it is
    /// new or changed; where it is unchanged, only in a forced run.
    pub fn get_new_ip_address(&self, force: bool) -> (ip_address: Option<Ipv4Address>)
        ensures
            ip_address == match *self {
                IpAddressChange::FirstRun(new_ip_address) => Some(new_ip_address),
                IpAddressChange::Changed { new_ip_address, .. } => Some(new_ip_address),
                IpAddressChange::Unchanged(previous_ip_address) => if force {
                    Some(previous_ip_address)
                } else {
                    None
                },
            },
    {
        match self {
            IpAddressChange::Changed { new_ip_address, .. } => Some(*new_ip_address),
            IpAddressChange::FirstRun(new_ip_address) => Some(*new_ip_address),
            IpAddressChange::Unchanged(previous_ip_address) => {
                if force {
                    Some(*previous_ip_address)
                } else {
                    None
                }
            },
        }
    }

    /// The line that tells of the change.
    pub fn to_string(&self) -> (text: String)
        ensures
            text@ == change_message(*self),
    {
        match self {
            IpAddressChange::FirstRun(new_ip_address) => {
                let mut text = String::from_str("IP address: '");
                text.append(new_ip_address.to_string().as_str());
                text.append("'");
                text
            },
            IpAddressChange::Unchanged(previous_ip_address) => {
                let mut text = String::from_str("IP address unchanged: '");
                text.append(previous_ip_address.to_string().as_str());
                text.append("'");
                text
            },
            IpAddressChange::Changed { new_ip_address, previous_ip_address } => {
                let mut text = String::from_str("IP address updated: '");
                text.append(previous_ip_address.to_string().as_str());
                text.append("' => '");
                text.append(new_ip_address.to_string().as_str());
                text.append("'");
                text
            },
        }
    }
}

} // verus!
