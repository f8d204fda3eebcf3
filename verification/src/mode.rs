//! Bit-bang mode: the chip's pins driven directly instead of through its serial engine.

use vstd::prelude::*;
use vstd::std_specs::convert::FromSpecImpl;
use crate::call::{Call, Reply};
use crate::device::{Closing, Device};
use crate::error::{Error, ErrorView};
use crate::lifecycle::{Event, Role};
use crate::status::{outcome, violates, Category};

verus! {

/// The chip's operating modes, by the names that the driver gives them.
#[derive(Debug, Clone, Copy, PartialEq, Eq, Structural)]
pub enum BitMode {
    RESET,
    BITBANG,
    MPSSE,
    SYNCBB,
    MCU,
    OPTO,
    CBUS,
    SYNCFF,
    FT1284,
}

impl BitMode {
    /// The same mode among the modes that a device is configured with.
    pub open spec fn mode(self) -> crate::BitMode {
        match self {
            BitMode::RESET => crate::BitMode::Reset,
            BitMode::BITBANG => crate::BitMode::Bitbang,
            BitMode::MPSSE => crate::BitMode::Mpsse,
            BitMode::SYNCBB => crate::BitMode::SyncBB,
            BitMode::MCU => crate::BitMode::Mcu,
            BitMode::OPTO => crate::BitMode::Opto,
            BitMode::CBUS => crate::BitMode::CBus,
            BitMode::SYNCFF => crate::BitMode::Syncff,
            BitMode::FT1284 => crate::BitMode::Ft1284,
        }
    }

    /// The byte that the driver is given for the mode.
    pub open spec fn byte(self) -> u8 {
        self.mode().code() as u8
    }
}

impl From<BitMode> for u8 {
    fn from(mode: BitMode) -> (byte: u8) {
        let mode = match mode {
            BitMode::RESET => crate::BitMode::Reset,
            BitMode::BITBANG => crate::BitMode::Bitbang,
            BitMode::MPSSE => crate::BitMode::Mpsse,
            BitMode::SYNCBB => crate::BitMode::SyncBB,
            BitMode::MCU => crate::BitMode::Mcu,
            BitMode::OPTO => crate::BitMode::Opto,
            BitMode::CBUS => crate::BitMode::CBus,
            BitMode::SYNCFF => crate::BitMode::Syncff,
            BitMode::FT1284 => crate::BitMode::Ft1284,
        };
        mode.to_ffi() as u8
    }
}

impl FromSpecImpl<BitMode> for u8 {
    open spec fn obeys_from_spec() -> bool {
        true
    }

    open spec fn from_spec(mode: BitMode) -> u8 {
        mode.byte()
    }
}

/// An open device in bit-bang mode.
pub struct BitBang {
    device: Device,
}

impl BitBang {
    /// The device underneath.
    pub closed spec fn device(&self) -> Device {
        self.device
    }

    /// The native call that puts a device into bit-bang mode: `bitmask` has a bit set for
    /// each pin that is an output.
    pub fn enable(bitmask: u8) -> (call: Call<'static>)
        ensures
            call == (Call::SetBitMode { mask: bitmask, mode: BitMode::BITBANG.byte() }),
            BitMode::BITBANG.byte() == 1,
    {
        proof {
            vstd::arithmetic::power2::lemma2_to64();
        }
        Call::SetBitMode { mask: bitmask, mode: BitMode::BITBANG.into() }
    }

    /// The native call that takes a device out of bit-bang mode.
    pub fn disabling() -> (call: Call<'static>)
        ensures
            call == Call::DisableBitBang,
    {
        Call::DisableBitBang
    }

    /// Reads the reply to [`BitBang::enable`]. Where the call failed the device is given up:
    /// it comes back on its way to being closed and freed.
    pub fn new(device: Device, bitmask: u8, reply: &Reply) -> (r: Result<
        BitBang,
        (Error, Closing),
    >)
        requires
            device.well_formed(),
            !violates(Category::BitMode, reply.status as int),
        ensures
            r is Ok <==> reply.status >= 0,
            match r {
                Ok(bitbang) => bitbang.device().well_formed()
                    && bitbang.device().handle().history() == device.handle().history().push(
                    Event { role: Role::Use, succeeded: true },
                ),
                Err((error, closing)) => Err::<u32, ErrorView>(error@) == outcome(
                    Category::BitMode,
                    reply.status as int,
                    reply.value,
                    reply.diagnostic@,
                ) && closing.well_formed() && closing.failure() is None
                    && closing.handle().history() == device.handle().history().push(
                    Event { role: Role::Use, succeeded: false },
                ),
            },
    {
        let mut device = device;
        match device.complete(BitBang::enable(bitmask), reply) {
            Ok(_) => Ok(BitBang { device }),
            Err(error) => Err((error, device.close())),
        }
    }

    /// Reads the reply to [`BitBang::disabling`]. Where the call failed the device is given
    /// up: it comes back on its way to being closed and freed.
    pub fn disable(self, reply: &Reply) -> (r: Result<Device, (Error, Closing)>)
        requires
            self.device().well_formed(),
            !violates(Category::DisableBitBang, reply.status as int),
        ensures
            r is Ok <==> reply.status >= 0,
            match r {
                Ok(device) => device.well_formed() && device.handle().history()
                    == self.device().handle().history().push(
                    Event { role: Role::Use, succeeded: true },
                ),
                Err((error, closing)) => Err::<u32, ErrorView>(error@) == outcome(
                    Category::DisableBitBang,
                    reply.status as int,
                    reply.value,
                    reply.diagnostic@,
                ) && closing.well_formed() && closing.failure() is None
                    && closing.handle().history() == self.device().handle().history().push(
                    Event { role: Role::Use, succeeded: false },
                ),
            },
    {
        let mut device = self.device;
        match device.complete(BitBang::disabling(), reply) {
            Ok(_) => Ok(device),
            Err(error) => Err((error, device.close())),
        }
    }
}

} // verus!
