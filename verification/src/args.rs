//! The regions in which the service can be reached.

use vstd::prelude::*;
use vstd::string::*;

verus! {

/// A region's endpoint of the service.
#[derive(Clone, Copy, Debug, PartialEq, Eq, Structural)]
pub enum Endpoint {
    Com,
    Eu,
    Cn,
    In,
    NetAu,
}

impl Endpoint {
/// The endpoint's name.
    pub open spec fn spec_name(self) -> Seq<char> {
        match self {
            Endpoint::Com => "Com"@,
            Endpoint::Eu => "Eu"@,
            Endpoint::Cn => "Cn"@,
            Endpoint::In => "In"@,
            Endpoint::NetAu => "NetAu"@,
        }
    }

/// The domain under which the endpoint is chosen on the command line.
    pub open spec fn spec_value_name(self) -> Seq<char> {
        match self {
            Endpoint::Com => "site24x7.com"@,
            Endpoint::Eu => "site24x7.eu"@,
            Endpoint::Cn => "site24x7.cn"@,
            Endpoint::In => "site24x7.in"@,
            Endpoint::NetAu => "site24x7.net.au"@,
        }
    }

    /// The endpoint's name.
    pub fn to_string(&self) -> (r: String)
        ensures
            r@ == self.spec_name(),
    {
        match self {
            Endpoint::Com => String::from_str("Com"),
            Endpoint::Eu => String::from_str("Eu"),
            Endpoint::Cn => String::from_str("Cn"),
            Endpoint::In => String::from_str("In"),
            Endpoint::NetAu => String::from_str("NetAu"),
        }
    }

    /// The domain under which the endpoint is chosen on the command line.
    pub fn value_name(&self) -> (r: &'static str)
        ensures
            r@ == self.spec_value_name(),
    {
        match self {
            Endpoint::Com => "site24x7.com",
            Endpoint::Eu => "site24x7.eu",
            Endpoint::Cn => "site24x7.cn",
            Endpoint::In => "site24x7.in",
            Endpoint::NetAu => "site24x7.net.au",
        }
    }
}

/// The endpoint that is used where none is chosen.
impl Default for Endpoint {
    fn default() -> (r: Endpoint)
        ensures
            r == Endpoint::Com,
    {
        Endpoint::Com
    }
}

} // verus!
