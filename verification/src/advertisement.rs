//! One observed broadcast, as plain values.

use vstd::prelude::*;

verus! {

/// Vendor-specific bytes attached to a broadcast, tagged with the vendor's identifier.
#[derive(Clone, Debug, PartialEq, Eq)]
pub struct ManufacturerData {
    pub vendor_id: u16,
    pub bytes: Vec<u8>,
}

/// Mathematical model of [`ManufacturerData`].
#[verifier::ext_equal]
pub struct ManufacturerDataView {
    pub vendor_id: u16,
    pub bytes: Seq<u8>,
}

impl View for ManufacturerData {
    type V = ManufacturerDataView;

    open spec fn view(&self) -> ManufacturerDataView {
        ManufacturerDataView { vendor_id: self.vendor_id, bytes: self.bytes@ }
    }
}

/// One broadcast as the scanner reports it.
///
/// `device_name` is `None` when the device's name could not be resolved.
#[derive(Clone, Debug, PartialEq, Eq)]
pub struct AdvertisementEvent {
    pub device_name: Option<String>,
    pub signal_strength: Option<i16>,
    pub manufacturer: Option<ManufacturerData>,
}

/// Mathematical model of [`AdvertisementEvent`].
#[verifier::ext_equal]
pub struct AdvertisementView {
    pub device_name: Option<Seq<char>>,
    pub signal_strength: Option<i16>,
    pub manufacturer: Option<ManufacturerDataView>,
}

impl View for AdvertisementEvent {
    type V = AdvertisementView;

    open spec fn view(&self) -> AdvertisementView {
        AdvertisementView {
            device_name: match self.device_name {
                Some(name) => Some(name@),
                None => None,
            },
            signal_strength: self.signal_strength,
            manufacturer: match self.manufacturer {
                Some(data) => Some(data@),
                None => None,
            },
        }
    }
}

} // verus!
