use vstd::prelude::*;

verus! {

/// Immutable snapshot describing one discovered peer. Pure data: created by
/// the signal layer, consumed by observers, no identity beyond its address.
#[derive(Debug, Clone, PartialEq, Eq)]
pub struct P2pDevice {
    /// Device MAC address (e.g. "02:11:22:33:44:55").
    pub mac_address: String,
    /// Optional device name reported by P2P.
    pub device_name: Option<String>,
    /// Optional primary device type (e.g. "1-0050F204-1").
    pub primary_type: Option<String>,
}

/// Mathematical image of a device record: each text field as its character
/// sequence.
pub struct DeviceView {
    pub mac_address: Seq<char>,
    pub device_name: Option<Seq<char>>,
    pub primary_type: Option<Seq<char>>,
}

impl View for P2pDevice {
    type V = DeviceView;

    open spec fn view(&self) -> DeviceView {
        DeviceView {
            mac_address: self.mac_address@,
            device_name: match self.device_name {
                Some(name) => Some(name@),
                None => None,
            },
            primary_type: match self.primary_type {
                Some(ty) => Some(ty@),
                None => None,
            },
        }
    }
}

impl P2pDevice {
    /// An owned copy with the same fields, as handed to each observer of a
    /// broadcast event that carries a device record.
    pub fn duplicate(&self) -> (r: Self)
        ensures
            r@ == self@,
    {
        P2pDevice {
            mac_address: self.mac_address.clone(),
            device_name: match &self.device_name {
                Some(name) => Some(name.clone()),
                None => None,
            },
            primary_type: match &self.primary_type {
                Some(ty) => Some(ty.clone()),
                None => None,
            },
        }
    }
}

} // verus!
