//! An open device: the calls that configure it and move bytes, and the way it is let go.

use vstd::prelude::*;
use crate::call::{clamp_len, transfer_len, Call, Reply};
use crate::error::{decimal, libftdi_to_io, libusb_to_io, Error, ErrorView, IoError};
use crate::lifecycle::{
    allocations, frees, lemma_freed_exactly_once, replay, Event, Handle, Phase, Role,
};
use crate::status::{outcome, result_view, violates, DISCONNECTED};
use crate::{BitMode, Bits, FlowControl, Parity, StopBits};

verus! {

/// A native handle that is bound to a device.
///
/// Each operation names the native call to make; [`Device::complete`] reads the reply.
pub struct Device {
    handle: Handle,
}

impl Device {
    /// The record of the native handle.
    pub closed spec fn handle(&self) -> Handle {
        self.handle
    }

    /// The handle is on record as open, and its record is sound.
    pub open spec fn well_formed(&self) -> bool {
        self.handle().well_formed() && self.handle().phase() is Open
    }

    /// Takes over a handle that has just been opened.
    pub fn from_handle(handle: Handle) -> (device: Device)
        requires
            handle.well_formed(),
            handle.phase() is Open,
        ensures
            device.well_formed(),
            device.handle() == handle,
    {
        Device { handle }
    }

    /// The driver takes the rate as a signed number, which `rate` must fit.
    pub fn set_baud_rate(&self, rate: u32) -> (call: Call<'static>)
        requires
            rate <= i32::MAX,
        ensures
            call == (Call::SetBaudRate { rate: rate as i32 }),
    {
        Call::SetBaudRate { rate: rate as i32 }
    }

    pub fn configure(&self, bits: Bits, stop_bits: StopBits, parity: Parity) -> (call: Call<
        'static,
    >)
        ensures
            call == (Call::SetLineProperty {
                bits: bits.code(),
                stop_bits: stop_bits.code(),
                parity: parity.code(),
            }),
    {
        Call::SetLineProperty {
            bits: bits.into(),
            stop_bits: stop_bits.into(),
            parity: parity.into(),
        }
    }

    pub fn usb_reset(&self) -> (call: Call<'static>)
        ensures
            call == Call::Reset,
    {
        Call::Reset
    }

    pub fn usb_purge_buffers(&self) -> (call: Call<'static>)
        ensures
            call == Call::PurgeBuffers,
    {
        Call::PurgeBuffers
    }

    pub fn usb_purge_tx_buffer(&self) -> (call: Call<'static>)
        ensures
            call == Call::PurgeTxBuffer,
    {
        Call::PurgeTxBuffer
    }

    pub fn set_latency_timer(&self, value: u8) -> (call: Call<'static>)
        ensures
            call == (Call::SetLatencyTimer { value }),
    {
        Call::SetLatencyTimer { value }
    }

    /// On success the reply's value is the timer.
    pub fn latency_timer(&self) -> (call: Call<'static>)
        ensures
            call == Call::GetLatencyTimer,
    {
        Call::GetLatencyTimer
    }

    pub fn set_write_chunksize(&self, value: u32) -> (call: Call<'static>)
        ensures
            call == (Call::SetWriteChunkSize { size: value }),
    {
        Call::SetWriteChunkSize { size: value }
    }

    /// On success the reply's value is the chunk size.
    pub fn write_chunksize(&self) -> (call: Call<'static>)
        ensures
            call == Call::GetWriteChunkSize,
    {
        Call::GetWriteChunkSize
    }

    pub fn set_read_chunksize(&self, value: u32) -> (call: Call<'static>)
        ensures
            call == (Call::SetReadChunkSize { size: value }),
    {
        Call::SetReadChunkSize { size: value }
    }

    /// On success the reply's value is the chunk size.
    pub fn read_chunksize(&self) -> (call: Call<'static>)
        ensures
            call == Call::GetReadChunkSize,
    {
        Call::GetReadChunkSize
    }

    pub fn set_flow_control(&self, flowctrl: FlowControl) -> (call: Call<'static>)
        ensures
            call == (Call::SetFlowControl { code: flowctrl.code() }),
    {
        Call::SetFlowControl { code: flowctrl.to_ffi() }
    }

    pub fn set_bitmode(&self, output_mask: u8, mode: BitMode) -> (call: Call<'static>)
        ensures
            call == (Call::SetBitMode { mask: output_mask, mode: mode.code() as u8 }),
            mode.code() as u8 == mode.code(),
    {
        Call::SetBitMode { mask: output_mask, mode: mode.to_ffi() as u8 }
    }

    /// Asks for as many bytes as a buffer of `len` bytes takes, or as many as the driver can
    /// count if that is fewer.
    pub fn read(&self, len: usize) -> (call: Call<'static>)
        ensures
            call == (Call::ReadData { len: transfer_len(len as int) as i32 }),
            transfer_len(len as int) as i32 == transfer_len(len as int),
            0 <= transfer_len(len as int) <= len,
    {
        Call::ReadData { len: clamp_len(len) }
    }

    /// Offers the `len` bytes of a buffer, or as many as the driver can count if that is
    /// fewer.
    pub fn write(&self, len: usize) -> (call: Call<'static>)
        ensures
            call == (Call::WriteData { len: transfer_len(len as int) as i32 }),
            transfer_len(len as int) as i32 == transfer_len(len as int),
            0 <= transfer_len(len as int) <= len,
    {
        Call::WriteData { len: clamp_len(len) }
    }

    /// Nothing is buffered on this side, so there is nothing to flush and no call to make.
    pub fn flush(&mut self) -> (r: Result<(), Error>)
        ensures
            r is Ok,
            *final(self) == *old(self),
    {
        Ok(())
    }

    /// Reads the reply to a call that was made on the open device.
    ///
    /// Success carries the number of bytes moved for a transfer, the value asked for for a
    /// getter, and the status otherwise. A count below what was asked for is a success like
    /// any other. The device stays open whatever the reply.
    pub fn complete(&mut self, call: Call, reply: &Reply) -> (r: Result<u32, Error>)
        requires
            old(self).well_formed(),
            call.role() is Use,
            !violates(call.category(), reply.status as int),
        ensures
            final(self).well_formed(),
            final(self).handle().history() == old(self).handle().history().push(
                Event { role: Role::Use, succeeded: reply.status >= 0 },
            ),
            result_view(r) == outcome(
                call.category(),
                reply.status as int,
                reply.value,
                reply.diagnostic@,
            ),
            r is Ok <==> reply.status >= 0,
    {
        self.handle.complete(call, reply)
    }

    /// Reads the reply to a read or a write as an I/O result.
    ///
    /// The count of bytes moved is a success, however few they are. An unplugged device is
    /// reported by the sentence for it, any other failure by its code.
    pub fn complete_io(&mut self, call: Call, reply: &Reply) -> (r: Result<usize, IoError>)
        requires
            old(self).well_formed(),
            call.category().is_transfer(),
        ensures
            final(self).well_formed(),
            final(self).handle().history() == old(self).handle().history().push(
                Event { role: Role::Use, succeeded: reply.status >= 0 },
            ),
            r is Ok <==> reply.status >= 0,
            match r {
                Ok(count) => count == reply.status,
                Err(e) => e.message@ == io_failure(reply.status as int),
            },
    {
        self.handle.record(Role::Use, reply.status >= 0);
        if reply.status >= 0 {
            Ok(reply.status as usize)
        } else if reply.status == DISCONNECTED {
            Err(libftdi_to_io(Error::Disconnected))
        } else {
            Err(libusb_to_io(reply.status))
        }
    }

    /// Begins to let the device go: first the device is closed, then the handle is freed.
    pub fn close(self) -> (closing: Closing)
        requires
            self.well_formed(),
        ensures
            closing.well_formed(),
            closing.handle() == self.handle(),
            closing.failure() is None,
    {
        Closing { handle: self.handle, failure: None }
    }
}

/// The message of the I/O error for a transfer that returned the negative `status`.
pub open spec fn io_failure(status: int) -> Seq<char> {
    if status == DISCONNECTED {
        ErrorView::Disconnected.text()
    } else {
        "libusb error code "@ + decimal(status)
    }
}

/// The message for an unplugged device is the message of no other failure.
pub proof fn lemma_disconnected_message_is_its_own(status: int)
    requires
        status != DISCONNECTED,
    ensures
        io_failure(status) != io_failure(DISCONNECTED as int),
{
    reveal_strlit("libusb error code ");
    reveal_strlit("the device has been disconnected from the system");
    let code = "libusb error code "@ + decimal(status);
    assert(code[0] == 'l');
    assert(io_failure(DISCONNECTED as int)[0] == 't');
}

/// The way out for an open device, one native call at a time.
pub struct Closing {
    handle: Handle,
    failure: Option<Error>,
}

/// A result without a value, with its error taken by its view.
pub open spec fn unit_view(r: Result<(), Error>) -> Result<(), ErrorView> {
    match r {
        Ok(_) => Ok(()),
        Err(e) => Err(e@),
    }
}

impl Closing {
    /// The record of the native handle.
    pub closed spec fn handle(&self) -> Handle {
        self.handle
    }

    /// What went wrong so far, if anything did.
    pub closed spec fn failure(&self) -> Option<Error> {
        self.failure
    }

    /// The handle was opened at some time, and nothing has failed while it still is.
    pub open spec fn well_formed(&self) -> bool {
        &&& self.handle().well_formed()
        &&& !(self.handle().phase() is Unallocated)
        &&& self.handle().phase() is Open ==> self.failure() is None
    }

    /// Begins to give up a handle that was kept after a close, or one that is still open.
    pub fn release(handle: Handle) -> (closing: Closing)
        requires
            handle.well_formed(),
            handle.phase() is Allocated || handle.phase() is Open,
        ensures
            closing.well_formed(),
            closing.handle() == handle,
            closing.failure() is None,
    {
        Closing { handle, failure: None }
    }

    /// The call that is due: the close for an open handle, the free once it is closed.
    pub open spec fn pending(&self) -> Option<Call<'static>> {
        match self.handle().phase() {
            Phase::Open => Some(Call::Close),
            Phase::Allocated => Some(Call::Free),
            _ => None,
        }
    }

    /// The native call to make next, or `None` when the handle has been freed.
    pub fn next_call(&self) -> (call: Option<Call<'static>>)
        ensures
            call == self.pending(),
    {
        match self.handle.current_phase() {
            Phase::Open => Some(Call::Close),
            Phase::Allocated => Some(Call::Free),
            _ => None,
        }
    }

    /// Takes the reply to the call that was due.
    ///
    /// A close that reports a failure has let the device go all the same, so the free
    /// follows in either case; the failure is kept for [`Closing::finish`].
    pub fn advance(&mut self, reply: &Reply)
        requires
            old(self).well_formed(),
            old(self).pending() is Some,
            !violates(old(self).pending()->0.category(), reply.status as int),
        ensures
            final(self).well_formed(),
            final(self).handle().history() == old(self).handle().history().push(
                Event { role: old(self).pending()->0.role(), succeeded: reply.status >= 0 },
            ),
            old(self).handle().phase() is Open ==> final(self).handle().phase() is Allocated
                && final(self).failure() == if reply.status >= 0 {
                None
            } else {
                Some(Error::RequestFailed)
            },
            old(self).handle().phase() is Allocated ==> final(self).handle().phase() is Freed
                && final(self).failure() == old(self).failure(),
    {
        let call = match self.handle.current_phase() {
            Phase::Open => Call::Close,
            _ => Call::Free,
        };
        if let Err(e) = self.handle.complete(call, reply) {
            self.failure = Some(e);
        }
    }

    /// Stops after the close and hands the handle over, to be opened again or freed.
    pub fn keep(self) -> (handle: Handle)
        requires
            self.well_formed(),
            self.handle().phase() is Allocated,
        ensures
            handle == self.handle(),
    {
        self.handle
    }

    /// The end of the way: the handle is freed, and the close's failure is reported if it had one.
    pub fn finish(self) -> (r: Result<(), Error>)
        requires
            self.well_formed(),
            self.handle().phase() is Freed,
        ensures
            r == match self.failure() {
                Some(e) => Err::<(), Error>(e),
                None => Ok(()),
            },
            allocations(self.handle().history()) == 1,
            frees(self.handle().history()) == 1,
    {
        proof {
            lemma_freed_exactly_once(self.handle.history());
        }
        match self.failure {
            Some(e) => Err(e),
            None => Ok(()),
        }
    }
}

/// Letting an open device go takes two native calls, a close and then a free, whatever
/// the close reports, and leaves the handle freed.
pub proof fn lemma_closing_frees(history: Seq<Event>, close_ok: bool)
    requires
        replay(history) == Some(Phase::Open),
    ensures
        replay(
            history.push(Event { role: Role::Close, succeeded: close_ok }).push(
                Event { role: Role::Free, succeeded: true },
            ),
        ) == Some(Phase::Freed),
        frees(
            history.push(Event { role: Role::Close, succeeded: close_ok }).push(
                Event { role: Role::Free, succeeded: true },
            ),
        ) == 1,
{
    let closed = history.push(Event { role: Role::Close, succeeded: close_ok });
    let freed = closed.push(Event { role: Role::Free, succeeded: true });
    assert(closed.drop_last() =~= history);
    assert(freed.drop_last() =~= closed);
    assert(replay(closed) == Some(Phase::Allocated));
    assert(replay(freed) == Some(Phase::Freed));
    lemma_freed_exactly_once(freed);
}

} // verus!
