use vstd::prelude::*;

verus! {

/// The transport of a listening endpoint.
#[derive(PartialEq, Eq, Structural, Clone, Copy, Debug)]
pub enum TSNetwork {
    TCP,
    UDP,
}

/// The name under which the native stack knows a transport.
pub open spec fn network_name(n: TSNetwork) -> Seq<char> {
    match n {
        TSNetwork::TCP => "tcp"@,
        TSNetwork::UDP => "udp"@,
    }
}

impl TSNetwork {
    /// The transport's name in the native stack's own spelling.
    pub fn to_string(&self) -> (r: String)
        ensures
            r@ == network_name(*self),
    {
        match self {
            TSNetwork::TCP => "tcp".to_string(),
            TSNetwork::UDP => "udp".to_string(),
        }
    }
}

} // verus!
