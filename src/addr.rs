use vstd::prelude::*;

verus! {

/// A network-layer address, held as its octets.
#[derive(Clone, Copy, Debug, PartialEq, Eq)]
pub enum IpAddress {
    V4([u8; 4]),
    V6([u8; 16]),
}

/// What an `IpAddress` denotes: its family and its octets.
pub enum IpModel {
    V4(Seq<u8>),
    V6(Seq<u8>),
}

impl View for IpAddress {
    type V = IpModel;

    open spec fn view(&self) -> IpModel {
        match self {
            IpAddress::V4(a) => IpModel::V4(a@),
            IpAddress::V6(a) => IpModel::V6(a@),
        }
    }
}

impl IpAddress {
    pub open spec fn is_v4_spec(&self) -> bool {
        self is V4
    }
}

/// A transport endpoint: a network address and a port.
#[derive(Clone, Copy, Debug, PartialEq, Eq)]
pub struct SocketAddress {
    pub ip: IpAddress,
    pub port: u16,
}

impl View for SocketAddress {
    type V = (IpModel, u16);

    open spec fn view(&self) -> (IpModel, u16) {
        (self.ip@, self.port)
    }
}

impl SocketAddress {
    pub fn new(ip: IpAddress, port: u16) -> (r: SocketAddress)
        ensures
            r.ip == ip,
            r.port == port,
    {
        SocketAddress { ip, port }
    }

    /// Whether both endpoints belong to the same address family.
    pub open spec fn same_family(a: SocketAddress, b: SocketAddress) -> bool {
        a.ip.is_v4_spec() == b.ip.is_v4_spec()
    }
}

} // verus!
