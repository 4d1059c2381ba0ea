//! The widths of an access to the configuration space of a PCI device.

use vstd::prelude::*;

verus! {

/// How wide each item of an access is, and how the address moves from one
/// item to the next.
#[derive(Clone, Copy, Debug, PartialEq, Eq, Structural)]
pub enum PciIoProtoWidth {
    /// Items of one byte.
    Uint8,
    /// Items of two bytes.
    Uint16,
    /// Items of four bytes.
    Uint32,
    /// Items of eight bytes.
    Uint64,
    /// Items of one byte, all at one address of the device.
    FifoUint8,
    /// Items of two bytes, all at one address of the device.
    FifoUint16,
    /// Items of four bytes, all at one address of the device.
    FifoUint32,
    /// Items of eight bytes, all at one address of the device.
    FifoUint64,
    /// Items of one byte, all at one address of the buffer.
    FillUint8,
    /// Items of two bytes, all at one address of the buffer.
    FillUint16,
    /// Items of four bytes, all at one address of the buffer.
    FillUint32,
    /// Items of eight bytes, all at one address of the buffer.
    FillUint64,
}

/// The number of widths: every width's number is below it.
pub const WIDTH_MAX: u64 = 12;

/// An access that cannot be made.
#[derive(Clone, Copy, Debug, PartialEq, Eq, Structural)]
pub enum PciIoError {
    /// The access names a width that no item can have.
    InvalidParameter,
}

impl PciIoProtoWidth {
    /// The number by which the device's protocol knows the width.
    pub open spec fn number(self) -> u64 {
        match self {
            PciIoProtoWidth::Uint8 => 0,
            PciIoProtoWidth::Uint16 => 1,
            PciIoProtoWidth::Uint32 => 2,
            PciIoProtoWidth::Uint64 => 3,
            PciIoProtoWidth::FifoUint8 => 4,
            PciIoProtoWidth::FifoUint16 => 5,
            PciIoProtoWidth::FifoUint32 => 6,
            PciIoProtoWidth::FifoUint64 => 7,
            PciIoProtoWidth::FillUint8 => 8,
            PciIoProtoWidth::FillUint16 => 9,
            PciIoProtoWidth::FillUint32 => 10,
            PciIoProtoWidth::FillUint64 => 11,
        }
    }

    /// The number by which the device's protocol knows the width.
    pub fn value(self) -> (number: u64)
        ensures
            number == self.number(),
            number < WIDTH_MAX,
    {
        match self {
            PciIoProtoWidth::Uint8 => 0,
            PciIoProtoWidth::Uint16 => 1,
            PciIoProtoWidth::Uint32 => 2,
            PciIoProtoWidth::Uint64 => 3,
            PciIoProtoWidth::FifoUint8 => 4,
            PciIoProtoWidth::FifoUint16 => 5,
            PciIoProtoWidth::FifoUint32 => 6,
            PciIoProtoWidth::FifoUint64 => 7,
            PciIoProtoWidth::FillUint8 => 8,
            PciIoProtoWidth::FillUint16 => 9,
            PciIoProtoWidth::FillUint32 => 10,
            PciIoProtoWidth::FillUint64 => 11,
        }
    }
}

/// The width of an access to configuration space whose items have `width`
/// bytes each: one, two or four. Any other size is refused.
pub fn access_width(width: u32) -> (chosen: Result<PciIoProtoWidth, PciIoError>)
    ensures
        chosen == if width == 1 {
            Ok::<PciIoProtoWidth, PciIoError>(PciIoProtoWidth::Uint8)
        } else if width == 2 {
            Ok(PciIoProtoWidth::Uint16)
        } else if width == 4 {
            Ok(PciIoProtoWidth::Uint32)
        } else {
            Err(PciIoError::InvalidParameter)
        },
{
    if width == 1 {
        Ok(PciIoProtoWidth::Uint8)
    } else if width == 2 {
        Ok(PciIoProtoWidth::Uint16)
    } else if width == 4 {
        Ok(PciIoProtoWidth::Uint32)
    } else {
        Err(PciIoError::InvalidParameter)
    }
}

} // verus!
