//! The protocol versions that the proxy speaks.
use crate::packet::primitives::VarInt;
use crate::packet::stream::{DecodeError, DecodeErrorView};
use crate::text::{decimal, decimal_string};
use vstd::prelude::*;

verus! {

/// A protocol version that the proxy speaks. The variants are declared in the
/// order of their protocol numbers, which is the order that `Ord` gives.
#[derive(Debug, PartialEq, Eq, PartialOrd, Ord, Clone, Copy, Hash, Default, Structural)]
pub enum ConnectionProtocolVersion {
    MC772,
    #[default]
    MC776,
}

/// The protocol number of a version.
pub open spec fn protocol_number(version: ConnectionProtocolVersion) -> u32 {
    match version {
        ConnectionProtocolVersion::MC776 => 776,
        ConnectionProtocolVersion::MC772 => 772,
    }
}

/// The version with a protocol number, if the proxy speaks it.
pub open spec fn version_of(number: i32) -> Option<ConnectionProtocolVersion> {
    if number == 776 {
        Some(ConnectionProtocolVersion::MC776)
    } else if number == 772 {
        Some(ConnectionProtocolVersion::MC772)
    } else {
        None
    }
}

/// The text of the error for a protocol number that the proxy does not speak.
pub open spec fn invalid_version_text(number: i32) -> Seq<char> {
    "Invalid protocol versino: "@ + decimal(number as int)
}

/// The game release name of a version.
pub open spec fn release_name(version: ConnectionProtocolVersion) -> Seq<char> {
    match version {
        ConnectionProtocolVersion::MC776 => "26.2"@,
        ConnectionProtocolVersion::MC772 => "1.21.8"@,
    }
}

/// The variant name of a version, as `Debug` writes it.
pub open spec fn variant_name(version: ConnectionProtocolVersion) -> Seq<char> {
    match version {
        ConnectionProtocolVersion::MC776 => "MC776"@,
        ConnectionProtocolVersion::MC772 => "MC772"@,
    }
}

impl ConnectionProtocolVersion {
    /// The version with the protocol number that `version` carries.
    pub fn from_var_int(version: VarInt) -> (r: Result<Self, DecodeError>)
        ensures
            match version_of(version@) {
                Some(v) => r == Ok::<Self, DecodeError>(v),
                None => r matches Err(e) && e@ == DecodeErrorView::Invalid(
                    invalid_version_text(version@),
                ),
            },
    {
        let number = version.value();
        if number == 776 {
            Ok(ConnectionProtocolVersion::MC776)
        } else if number == 772 {
            Ok(ConnectionProtocolVersion::MC772)
        } else {
            Err(
                DecodeError::Invalid(
                    String::from_str("Invalid protocol versino: ").concat(
                        decimal_string(number as i128).as_str(),
                    ),
                ),
            )
        }
    }

    /// The game release name of the version.
    pub fn name(self) -> (r: &'static str)
        ensures
            r@ == release_name(self),
    {
        match self {
            ConnectionProtocolVersion::MC776 => "26.2",
            ConnectionProtocolVersion::MC772 => "1.21.8",
        }
    }

    /// The protocol number of the version.
    pub fn protocol(self) -> (r: u32)
        ensures
            r == protocol_number(self),
    {
        match self {
            ConnectionProtocolVersion::MC776 => 776,
            ConnectionProtocolVersion::MC772 => 772,
        }
    }

    /// The version as it is shown to a person: its variant name.
    pub fn to_string(&self) -> (s: String)
        ensures
            s@ == variant_name(*self),
    {
        match self {
            ConnectionProtocolVersion::MC776 => String::from_str("MC776"),
            ConnectionProtocolVersion::MC772 => String::from_str("MC772"),
        }
    }
}

/// Law: the version of a version's protocol number is that version.
pub proof fn lemma_version_number_roundtrip(version: ConnectionProtocolVersion)
    ensures
        version_of(protocol_number(version) as i32) == Some(version),
{
}

/// Law: the proxy speaks the protocol numbers 772 and 776 and no others: a
/// number names a version exactly when it is one of those two, and then that
/// version's protocol number is the number; every version's protocol number
/// is one of the two, and its variant name is `MC` followed by that number.
pub proof fn lemma_supported_protocols(number: i32, version: ConnectionProtocolVersion)
    ensures
        version_of(number) is Some <==> (number == 772 || number == 776),
        version_of(number) matches Some(v) ==> protocol_number(v) == number,
        protocol_number(version) == 772 || protocol_number(version) == 776,
        variant_name(version) == "MC"@ + decimal(protocol_number(version) as int),
{
    reveal_with_fuel(crate::text::natural_decimal, 4);
    reveal_strlit("MC");
    reveal_strlit("MC776");
    reveal_strlit("MC772");
    assert(decimal(776) =~= seq!['7', '7', '6']);
    assert(decimal(772) =~= seq!['7', '7', '2']);
    assert("MC776"@ =~= "MC"@ + seq!['7', '7', '6']);
    assert("MC772"@ =~= "MC"@ + seq!['7', '7', '2']);
}

} // verus!
