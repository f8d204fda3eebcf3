//! The protocol core of a safe layer over the native FTDI driver: which native call comes
//! next, what its status means, and what state the native handle is left in.
//!
//! Nothing here touches the driver. Each operation names the native call to make and the
//! plain values to make it with; whoever holds the native handle makes the call and hands
//! the reply back to be interpreted.

use vstd::prelude::*;
use vstd::std_specs::convert::FromSpecImpl;

pub mod call;
pub mod device;
pub mod error;
pub mod lifecycle;
pub mod mode;
pub mod opener;
pub mod status;

pub use device::Device;
pub use error::{Error, LibFtdiError};
pub use opener::{find_by_bus_address, find_by_raw_libusb_device, find_by_vid_pid, Opener};

verus! {

/// The target interface
#[derive(Clone, Copy, Debug, PartialEq, Eq, Hash, Structural)]
pub enum Interface {
    A,
    B,
    C,
    D,
    Any,
}

impl Interface {
    /// The number by which the driver knows the interface.
    pub open spec fn code(self) -> u32 {
        match self {
            Interface::Any => 0,
            Interface::A => 1,
            Interface::B => 2,
            Interface::C => 3,
            Interface::D => 4,
        }
    }
}

impl From<Interface> for u32 {
    fn from(interface: Interface) -> (code: u32) {
        match interface {
            Interface::A => 1,
            Interface::B => 2,
            Interface::C => 3,
            Interface::D => 4,
            Interface::Any => 0,
        }
    }
}

impl FromSpecImpl<Interface> for u32 {
    open spec fn obeys_from_spec() -> bool {
        true
    }

    open spec fn from_spec(interface: Interface) -> u32 {
        interface.code()
    }
}

#[derive(Clone, Copy, Debug, PartialEq, Eq, Hash, Structural)]
pub enum Parity {
    NoParity,
    Odd,
    Even,
    Mark,
    Space,
}

impl Parity {
    /// The number by which the driver knows the parity.
    pub open spec fn code(self) -> u32 {
        match self {
            Parity::NoParity => 0,
            Parity::Odd => 1,
            Parity::Even => 2,
            Parity::Mark => 3,
            Parity::Space => 4,
        }
    }
}

impl From<Parity> for u32 {
    fn from(parity: Parity) -> (code: u32) {
        match parity {
            Parity::NoParity => 0,
            Parity::Odd => 1,
            Parity::Even => 2,
            Parity::Mark => 3,
            Parity::Space => 4,
        }
    }
}

impl FromSpecImpl<Parity> for u32 {
    open spec fn obeys_from_spec() -> bool {
        true
    }

    open spec fn from_spec(parity: Parity) -> u32 {
        parity.code()
    }
}

#[derive(Clone, Copy, Debug, PartialEq, Eq, Hash, Structural)]
pub enum Bits {
    Seven,
    Eight,
}

impl Bits {
    /// The number by which the driver knows the word length: the length itself.
    pub open spec fn code(self) -> u32 {
        match self {
            Bits::Seven => 7,
            Bits::Eight => 8,
        }
    }
}

impl From<Bits> for u32 {
    fn from(bits: Bits) -> (code: u32) {
        match bits {
            Bits::Seven => 7,
            Bits::Eight => 8,
        }
    }
}

impl FromSpecImpl<Bits> for u32 {
    open spec fn obeys_from_spec() -> bool {
        true
    }

    open spec fn from_spec(bits: Bits) -> u32 {
        bits.code()
    }
}

#[derive(Clone, Copy, Debug, PartialEq, Eq, Hash, Structural)]
pub enum StopBits {
    One,
    OneHalf,
    Two,
}

impl StopBits {
    /// The number by which the driver knows the count of stop bits.
    pub open spec fn code(self) -> u32 {
        match self {
            StopBits::One => 0,
            StopBits::OneHalf => 1,
            StopBits::Two => 2,
        }
    }
}

impl From<StopBits> for u32 {
    fn from(stop_bits: StopBits) -> (code: u32) {
        match stop_bits {
            StopBits::One => 0,
            StopBits::OneHalf => 1,
            StopBits::Two => 2,
        }
    }
}

impl FromSpecImpl<StopBits> for u32 {
    open spec fn obeys_from_spec() -> bool {
        true
    }

    open spec fn from_spec(stop_bits: StopBits) -> u32 {
        stop_bits.code()
    }
}

#[derive(Clone, Copy, Debug, PartialEq, Eq, Hash, Structural)]
pub enum FlowControl {
    Disabled,
    RtsCts,
    DtrDsr,
    XonXoff,
}

impl FlowControl {
    /// The handshake word that the driver is given.
    ///
    /// `Disabled` is sent as the same word as `XonXoff`.
    pub open spec fn code(self) -> i32 {
        match self {
            FlowControl::RtsCts => 0x100,
            FlowControl::DtrDsr => 0x200,
            FlowControl::Disabled | FlowControl::XonXoff => 0x400,
        }
    }

    pub fn to_ffi(self) -> (code: i32)
        ensures
            code == self.code(),
    {
        match self {
            FlowControl::Disabled => 0x400,
            FlowControl::RtsCts => 0x100,
            FlowControl::DtrDsr => 0x200,
            FlowControl::XonXoff => 0x400,
        }
    }
}

#[derive(Clone, Copy, Debug, PartialEq, Eq, Hash, Structural)]
pub enum BitMode {
    Reset,
    Bitbang,
    Mpsse,
    SyncBB,
    Mcu,
    Opto,
    CBus,
    Syncff,
    Ft1284,
}

impl BitMode {
    /// How far the mode's bit stands from the lowest one; `Reset` has no bit.
    pub open spec fn bit(self) -> Option<nat> {
        match self {
            BitMode::Reset => None,
            BitMode::Bitbang => Some(0),
            BitMode::Mpsse => Some(1),
            BitMode::SyncBB => Some(2),
            BitMode::Mcu => Some(3),
            BitMode::Opto => Some(4),
            BitMode::CBus => Some(5),
            BitMode::Syncff => Some(6),
            BitMode::Ft1284 => Some(7),
        }
    }

    /// The number by which the driver knows the mode: zero for `Reset`, and one bit of a
    /// byte for each of the others.
    pub open spec fn code(self) -> u32 {
        match self.bit() {
            None => 0,
            Some(n) => vstd::arithmetic::power2::pow2(n) as u32,
        }
    }

    pub fn to_ffi(self) -> (code: u32)
        ensures
            code == self.code(),
            code <= 0x80,
    {
        proof {
            vstd::arithmetic::power2::lemma2_to64();
        }
        match self {
            BitMode::Reset => 0,
            BitMode::Bitbang => 1,
            BitMode::Mpsse => 2,
            BitMode::SyncBB => 4,
            BitMode::Mcu => 8,
            BitMode::Opto => 16,
            BitMode::CBus => 32,
            BitMode::Syncff => 64,
            BitMode::Ft1284 => 128,
        }
    }
}

} // verus!
