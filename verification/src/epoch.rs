use core::cmp::Ordering;

use vstd::prelude::*;
use vstd::std_specs::cmp::PartialOrdSpec;

verus! {

/// Identifies one lifetime of the graphics device.
///
/// Device loss creates a new context with a new epoch. GPU resources tagged
/// with an older epoch must not be submitted to the replacement device.
#[derive(Clone, Copy, Debug, Eq, Hash, Ord, PartialEq, Structural)]
pub struct GpuDeviceEpoch(u64);

impl View for GpuDeviceEpoch {
    type V = u64;

    closed spec fn view(&self) -> u64 {
        self.0
    }
}

impl GpuDeviceEpoch {
    /// Wraps the raw epoch value that a platform renderer assigns to a device lifetime.
    pub fn new(value: u64) -> (epoch: Self)
        ensures
            epoch@ == value,
            epoch == epoch_storing(value),
    {
        GpuDeviceEpoch(value)
    }

    /// Returns the monotonically increasing epoch value.
    pub fn get(self) -> (value: u64)
        ensures
            value == self@,
            value == stored_number(self),
    {
        self.0
    }
}

impl PartialOrd for GpuDeviceEpoch {
    fn partial_cmp(&self, other: &Self) -> (order: Option<Ordering>) {
        if self.0 < other.0 {
            Some(Ordering::Less)
        } else if self.0 == other.0 {
            Some(Ordering::Equal)
        } else {
            Some(Ordering::Greater)
        }
    }
}

impl vstd::std_specs::cmp::PartialOrdSpecImpl for GpuDeviceEpoch {
    open spec fn obeys_partial_cmp_spec() -> bool {
        true
    }

    open spec fn partial_cmp_spec(&self, other: &Self) -> Option<Ordering> {
        if self@ < other@ {
            Some(Ordering::Less)
        } else if self@ == other@ {
            Some(Ordering::Equal)
        } else {
            Some(Ordering::Greater)
        }
    }
}

/// The epoch that stores `value` in its one field.
pub closed spec fn epoch_storing(value: u64) -> GpuDeviceEpoch {
    GpuDeviceEpoch(value)
}

/// The number an epoch stores in its one field, which its derived equality,
/// hashing, order and `Debug` output go by.
pub closed spec fn stored_number(epoch: GpuDeviceEpoch) -> u64 {
    epoch.0
}

/// An epoch's value is the number it stores, so epochs compare, order and print
/// by that number; the epoch made from a value stores that value.
pub proof fn epoch_value_is_stored_number(value: u64, epoch: GpuDeviceEpoch)
    ensures
        epoch_storing(value)@ == value,
        stored_number(epoch_storing(value)) == value,
        epoch@ == stored_number(epoch),
        epoch@ == value <==> epoch == epoch_storing(value),
{
}

/// Two epochs are the same exactly when their values are.
pub proof fn epoch_value_identifies(a: GpuDeviceEpoch, b: GpuDeviceEpoch)
    ensures
        a@ == b@ <==> a == b,
{
}

/// Epochs are ordered by their values: a later device lifetime compares greater.
pub proof fn epoch_order_follows_value(a: GpuDeviceEpoch, b: GpuDeviceEpoch)
    ensures
        (a.partial_cmp_spec(&b) == Some(Ordering::Less)) <==> a@ < b@,
        (a.partial_cmp_spec(&b) == Some(Ordering::Equal)) <==> a == b,
        (a.partial_cmp_spec(&b) == Some(Ordering::Greater)) <==> a@ > b@,
{
}

} // verus!
