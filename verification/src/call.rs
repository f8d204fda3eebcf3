//! The native calls that this layer asks for, and the replies that it takes back.

use vstd::prelude::*;
use crate::lifecycle::Role;
use crate::status::Category;

verus! {

/// Largest number of bytes that one native transfer can be asked for.
pub const MAX_TRANSFER: i32 = 0x7fff_ffff;

/// One call into the native driver, with the plain values that it is made with.
#[derive(Debug, Clone, Copy, PartialEq, Eq)]
pub enum Call<'a> {
    New,
    Free,
    SetInterface { interface: u32 },
    OpenBusAddress { bus: u8, address: u8 },
    /// A description or serial that is `None` stands for a null pointer: any will do.
    OpenDescIndex {
        vendor: i32,
        product: i32,
        description: Option<&'a str>,
        serial: Option<&'a str>,
        index: u32,
    },
    /// Open the device that the caller holds a platform reference to.
    OpenDevice,
    Close,
    SetBaudRate { rate: i32 },
    SetLineProperty { bits: u32, stop_bits: u32, parity: u32 },
    Reset,
    PurgeBuffers,
    PurgeTxBuffer,
    SetLatencyTimer { value: u8 },
    GetLatencyTimer,
    SetWriteChunkSize { size: u32 },
    GetWriteChunkSize,
    SetReadChunkSize { size: u32 },
    GetReadChunkSize,
    SetFlowControl { code: i32 },
    SetBitMode { mask: u8, mode: u8 },
    DisableBitBang,
    /// Read at most `len` bytes into the start of the caller's buffer.
    ReadData { len: i32 },
    /// Write the first `len` bytes of the caller's buffer.
    WriteData { len: i32 },
}

impl Category {
    /// The part that the calls of the category play in the life of the handle.
    pub open spec fn role(self) -> Role {
        match self {
            Category::Allocate => Role::Allocate,
            Category::Free => Role::Free,
            Category::SelectInterface => Role::Prepare,
            Category::Open | Category::OpenDevice => Role::Open,
            Category::Close => Role::Close,
            _ => Role::Use,
        }
    }

    pub fn role_of(self) -> (role: Role)
        ensures
            role == self.role(),
    {
        match self {
            Category::Allocate => Role::Allocate,
            Category::Free => Role::Free,
            Category::SelectInterface => Role::Prepare,
            Category::Open | Category::OpenDevice => Role::Open,
            Category::Close => Role::Close,
            _ => Role::Use,
        }
    }
}

impl<'a> Call<'a> {
    /// The table by which the call's status is read.
    pub open spec fn category(self) -> Category {
        match self {
            Call::New => Category::Allocate,
            Call::Free => Category::Free,
            Call::SetInterface { .. } => Category::SelectInterface,
            Call::OpenBusAddress { .. } | Call::OpenDescIndex { .. } => Category::Open,
            Call::OpenDevice => Category::OpenDevice,
            Call::Close => Category::Close,
            Call::SetBaudRate { .. } => Category::BaudRate,
            Call::SetLineProperty { .. } => Category::LineProperty,
            Call::Reset => Category::Reset,
            Call::PurgeBuffers => Category::PurgeBuffers,
            Call::PurgeTxBuffer => Category::PurgeTxBuffer,
            Call::SetLatencyTimer { .. } => Category::SetLatency,
            Call::GetLatencyTimer => Category::GetLatency,
            Call::SetWriteChunkSize { .. } | Call::SetReadChunkSize { .. } => Category::SetChunkSize,
            Call::GetWriteChunkSize | Call::GetReadChunkSize => Category::GetChunkSize,
            Call::SetFlowControl { .. } => Category::FlowControl,
            Call::SetBitMode { .. } => Category::BitMode,
            Call::DisableBitBang => Category::DisableBitBang,
            Call::ReadData { .. } => Category::Read,
            Call::WriteData { .. } => Category::Write,
        }
    }

    /// The part that the call plays in the life of the handle.
    pub open spec fn role(self) -> Role {
        self.category().role()
    }

    pub fn role_of(&self) -> (role: Role)
        ensures
            role == self.role(),
    {
        self.category_of().role_of()
    }

    pub fn category_of(&self) -> (category: Category)
        ensures
            category == self.category(),
    {
        match self {
            Call::New => Category::Allocate,
            Call::Free => Category::Free,
            Call::SetInterface { .. } => Category::SelectInterface,
            Call::OpenBusAddress { .. } | Call::OpenDescIndex { .. } => Category::Open,
            Call::OpenDevice => Category::OpenDevice,
            Call::Close => Category::Close,
            Call::SetBaudRate { .. } => Category::BaudRate,
            Call::SetLineProperty { .. } => Category::LineProperty,
            Call::Reset => Category::Reset,
            Call::PurgeBuffers => Category::PurgeBuffers,
            Call::PurgeTxBuffer => Category::PurgeTxBuffer,
            Call::SetLatencyTimer { .. } => Category::SetLatency,
            Call::GetLatencyTimer => Category::GetLatency,
            Call::SetWriteChunkSize { .. } | Call::SetReadChunkSize { .. } => Category::SetChunkSize,
            Call::GetWriteChunkSize | Call::GetReadChunkSize => Category::GetChunkSize,
            Call::SetFlowControl { .. } => Category::FlowControl,
            Call::SetBitMode { .. } => Category::BitMode,
            Call::DisableBitBang => Category::DisableBitBang,
            Call::ReadData { .. } => Category::Read,
            Call::WriteData { .. } => Category::Write,
        }
    }
}

/// What came back from a native call.
#[derive(Debug, Clone, PartialEq, Eq)]
pub struct Reply {
    /// The call's return value. A call that returns a pointer reports zero for a pointer
    /// that is not null and a negative number for null; one that returns nothing, zero.
    pub status: i32,
    /// What the call wrote to its out-parameter, where it has one.
    pub value: u32,
    /// The driver's text for its last error, where the status calls for it. It is asked for
    /// right after the call, so the handle is still there.
    pub diagnostic: String,
}

/// The length that the driver is asked for when the caller's buffer holds `len` bytes:
/// the length itself where the driver can count that far, the most it can count otherwise.
pub open spec fn transfer_len(len: int) -> int {
    if len <= MAX_TRANSFER {
        len
    } else {
        MAX_TRANSFER as int
    }
}

/// Cuts a buffer's length down to what one native transfer can be asked for.
pub fn clamp_len(len: usize) -> (n: i32)
    ensures
        n == transfer_len(len as int),
        0 <= n <= len,
{
    if len <= 0x7fff_ffff {
        len as i32
    } else {
        MAX_TRANSFER
    }
}

} // verus!
