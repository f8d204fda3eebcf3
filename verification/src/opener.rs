//! Choosing a device and opening it: allocate a handle, select the interface if one was
//! asked for, open, and free the handle again if any of that fails.

use vstd::prelude::*;
use crate::call::{Call, Reply};
use crate::device::{unit_view, Device};
use crate::error::{Error, ErrorView};
use crate::lifecycle::{
    allocations, frees, lemma_freed_exactly_once, Event, Handle, Phase, Role,
};
use crate::status::{outcome, translate, violates, Category};
use crate::Interface;

verus! {

/// The outcome of a call that yields no value.
pub open spec fn unit_outcome(category: Category, status: int, diagnostic: Seq<char>) -> Result<
    (),
    ErrorView,
> {
    match outcome(category, status, 0, diagnostic) {
        Ok(_) => Ok(()),
        Err(e) => Err(e),
    }
}

/// A way to say which device is meant.
pub trait Target: Sized {
    /// The table by which the status of this target's open call is read.
    spec fn category(&self) -> Category;

    /// Whether `call` is the native call that opens this target.
    spec fn describes(&self, call: Call<'_>) -> bool;

    /// The call of every target is one that opens.
    proof fn lemma_category_opens(&self)
        ensures
            self.category().role() is Open,
    ;

    /// The native call that opens this target.
    fn call(&self) -> (call: Call<'_>)
        ensures
            self.describes(call),
            call.category() == self.category(),
    ;

    /// Reads the reply to this target's open call.
    fn open_in_context(&self, reply: &Reply) -> (r: Result<(), Error>)
        requires
            !violates(self.category(), reply.status as int),
        ensures
            unit_view(r) == unit_outcome(self.category(), reply.status as int, reply.diagnostic@),
            r is Ok <==> reply.status >= 0,
    ;
}

fn open_result(category: Category, reply: &Reply) -> (r: Result<(), Error>)
    requires
        !violates(category, reply.status as int),
    ensures
        unit_view(r) == unit_outcome(category, reply.status as int, reply.diagnostic@),
        r is Ok <==> reply.status >= 0,
{
    match translate(category, reply.status, 0, reply.diagnostic.as_str()) {
        Ok(_) => Ok(()),
        Err(e) => Err(e),
    }
}

/// A device by the bus it sits on and its address there.
#[derive(Debug, Clone, Copy, PartialEq, Eq)]
pub struct BusAddress {
    bus: u8,
    address: u8,
}

impl BusAddress {
    pub closed spec fn bus(&self) -> u8 {
        self.bus
    }

    pub closed spec fn address(&self) -> u8 {
        self.address
    }
}

impl Target for BusAddress {
    open spec fn category(&self) -> Category {
        Category::Open
    }

    open spec fn describes(&self, call: Call<'_>) -> bool {
        call == (Call::OpenBusAddress { bus: self.bus(), address: self.address() })
    }

    proof fn lemma_category_opens(&self) {
    }

    fn call(&self) -> (call: Call<'_>) {
        Call::OpenBusAddress { bus: self.bus, address: self.address }
    }

    fn open_in_context(&self, reply: &Reply) -> (r: Result<(), Error>) {
        open_result(Category::Open, reply)
    }
}

/// A device by what it says of itself: vendor and product, and optionally its description,
/// its serial, and its place among the devices that match.
#[derive(Debug, Clone, PartialEq, Eq)]
pub struct UsbProperties {
    vid: u16,
    pid: u16,
    description: Option<String>,
    serial: Option<String>,
    index: Option<u32>,
}

/// What a [`UsbProperties`] holds, with its texts as sequences of characters.
pub struct UsbPropertiesView {
    pub vid: u16,
    pub pid: u16,
    pub description: Option<Seq<char>>,
    pub serial: Option<Seq<char>>,
    pub index: Option<u32>,
}

/// The characters of a text that may be absent.
pub open spec fn text_of(s: Option<&str>) -> Option<Seq<char>> {
    match s {
        Some(s) => Some(s@),
        None => None,
    }
}

impl View for UsbProperties {
    type V = UsbPropertiesView;

    closed spec fn view(&self) -> UsbPropertiesView {
        UsbPropertiesView {
            vid: self.vid,
            pid: self.pid,
            description: match self.description {
                Some(s) => Some(s@),
                None => None,
            },
            serial: match self.serial {
                Some(s) => Some(s@),
                None => None,
            },
            index: self.index,
        }
    }
}

fn as_text(s: &Option<String>) -> (t: Option<&str>)
    ensures
        text_of(t) == match *s {
            Some(s) => Some(s@),
            None => None,
        },
{
    match s {
        Some(s) => Some(s.as_str()),
        None => None,
    }
}

impl Target for UsbProperties {
    open spec fn category(&self) -> Category {
        Category::Open
    }

    /// The open by description and index, where an index that was not chosen is the first.
    open spec fn describes(&self, call: Call<'_>) -> bool {
        &&& call matches Call::OpenDescIndex { vendor, product, description, serial, index }
        &&& vendor == self@.vid
        &&& product == self@.pid
        &&& text_of(description) == self@.description
        &&& text_of(serial) == self@.serial
        &&& index == match self@.index {
            Some(n) => n,
            None => 0,
        }
    }

    proof fn lemma_category_opens(&self) {
    }

    fn call(&self) -> (call: Call<'_>) {
        Call::OpenDescIndex {
            vendor: self.vid as i32,
            product: self.pid as i32,
            description: as_text(&self.description),
            serial: as_text(&self.serial),
            index: match self.index {
                Some(n) => n,
                None => 0,
            },
        }
    }

    fn open_in_context(&self, reply: &Reply) -> (r: Result<(), Error>) {
        open_result(Category::Open, reply)
    }
}

/// A device that the caller already holds a platform reference to.
#[derive(Debug, Clone, Copy, PartialEq, Eq)]
pub struct LibusbDevice {}

impl Target for LibusbDevice {
    open spec fn category(&self) -> Category {
        Category::OpenDevice
    }

    open spec fn describes(&self, call: Call<'_>) -> bool {
        call == Call::OpenDevice
    }

    proof fn lemma_category_opens(&self) {
    }

    fn call(&self) -> (call: Call<'_>) {
        Call::OpenDevice
    }

    fn open_in_context(&self, reply: &Reply) -> (r: Result<(), Error>) {
        open_result(Category::OpenDevice, reply)
    }
}

/// A device that is chosen but not opened yet.
pub struct Opener<T: Target> {
    target: T,
    interface: Option<Interface>,
}

impl<T: Target> Opener<T> {
    /// The device that is meant.
    pub closed spec fn target(&self) -> T {
        self.target
    }

    /// The interface that was asked for, if one was.
    pub closed spec fn selected(&self) -> Option<Interface> {
        self.interface
    }

    /// An opener for `target` with no interface chosen.
    pub fn new(target: T) -> (opener: Self)
        ensures
            opener.target() == target,
            opener.selected() is None,
    {
        Self { target, interface: None }
    }

    /// Whether an interface was asked for.
    pub fn has_interface(&self) -> (b: bool)
        ensures
            b == self.selected() is Some,
    {
        self.interface.is_some()
    }

    /// Asks for an interface. It can be asked for once, and only before the open.
    pub fn interface(self, interface: Interface) -> (opener: Self)
        requires
            self.selected() is None,
        ensures
            opener.target() == self.target(),
            opener.selected() == Some(interface),
    {
        let mut opener = self;
        opener.interface = Some(interface);
        opener
    }

    /// Begins to open the device on a handle of its own.
    pub fn open(self) -> (opening: Opening<T>)
        ensures
            opening.well_formed(),
            opening.stage() is Allocate,
            opening.target() == self.target(),
            opening.interface() == self.selected(),
            opening.handle().history() == Seq::<Event>::empty(),
    {
        Opening { handle: Handle::new(), target: self.target, interface: self.interface, failure: None }
    }

    /// Begins to open the device on a handle that was kept when another device was closed.
    pub fn reopen(self, handle: Handle) -> (opening: Opening<T>)
        requires
            handle.well_formed(),
            handle.phase() is Allocated,
        ensures
            opening.well_formed(),
            opening.handle() == handle,
            opening.target() == self.target(),
            opening.interface() == self.selected(),
            opening.failure() is None,
    {
        Opening { handle, target: self.target, interface: self.interface, failure: None }
    }
}

impl Opener<UsbProperties> {
    /// Whether a description was asked for.
    pub fn has_description(&self) -> (b: bool)
        ensures
            b == self.target()@.description is Some,
    {
        self.target.description.is_some()
    }

    /// Whether a serial was asked for.
    pub fn has_serial(&self) -> (b: bool)
        ensures
            b == self.target()@.serial is Some,
    {
        self.target.serial.is_some()
    }

    /// Whether a place among the matching devices was asked for.
    pub fn has_index(&self) -> (b: bool)
        ensures
            b == self.target()@.index is Some,
    {
        self.target.index.is_some()
    }

    /// Narrows the choice to devices with this description. The driver takes it as a C
    /// string, so it holds no NUL.
    pub fn description(self, description: &str) -> (opener: Self)
        requires
            self.target()@.description is None,
            !description@.contains('\0'),
        ensures
            opener.selected() == self.selected(),
            opener.target()@ == (UsbPropertiesView {
                description: Some(description@),
                ..self.target()@
            }),
    {
        let mut opener = self;
        opener.target.description = Some(description.to_owned());
        opener
    }

    /// Narrows the choice to the device with this serial. The driver takes it as a C
    /// string, so it holds no NUL.
    pub fn serial(self, serial: &str) -> (opener: Self)
        requires
            self.target()@.serial is None,
            !serial@.contains('\0'),
        ensures
            opener.selected() == self.selected(),
            opener.target()@ == (UsbPropertiesView { serial: Some(serial@), ..self.target()@ }),
    {
        let mut opener = self;
        opener.target.serial = Some(serial.to_owned());
        opener
    }

    /// Picks one among the devices that match, counted from zero.
    pub fn nth(self, index: u32) -> (opener: Self)
        requires
            self.target()@.index is None,
        ensures
            opener.selected() == self.selected(),
            opener.target()@ == (UsbPropertiesView { index: Some(index), ..self.target()@ }),
    {
        let mut opener = self;
        opener.target.index = Some(index);
        opener
    }
}

pub fn find_by_vid_pid(vid: u16, pid: u16) -> (opener: Opener<UsbProperties>)
    ensures
        opener.selected() is None,
        opener.target()@ == (UsbPropertiesView {
            vid,
            pid,
            description: None,
            serial: None,
            index: None,
        }),
{
    Opener::new(UsbProperties { vid, pid, description: None, serial: None, index: None })
}

pub fn find_by_bus_address(bus: u8, address: u8) -> (opener: Opener<BusAddress>)
    ensures
        opener.selected() is None,
        opener.target().bus() == bus,
        opener.target().address() == address,
{
    Opener::new(BusAddress { bus, address })
}

/// An opener for the device that the caller holds a platform reference to. The reference
/// stays with the caller, who hands it to the driver when the open call is due.
pub fn find_by_raw_libusb_device() -> (opener: Opener<LibusbDevice>)
    ensures
        opener.selected() is None,
{
    Opener::new(LibusbDevice {  })
}

/// How far an open has come.
#[derive(Debug, Clone, Copy, PartialEq, Eq, Structural)]
pub enum Stage {
    /// The handle is to be allocated.
    Allocate,
    /// The interface is to be selected.
    SelectInterface,
    /// The device is to be opened.
    Connect,
    /// Something failed after the allocation: the handle is to be freed.
    Release,
    /// The device is open.
    Opened,
    /// The open has failed and has left no handle behind.
    Failed,
}

/// An open on its way, one native call at a time.
pub struct Opening<T: Target> {
    handle: Handle,
    target: T,
    interface: Option<Interface>,
    failure: Option<Error>,
}

impl<T: Target> Opening<T> {
    /// The record of the native handle.
    pub closed spec fn handle(&self) -> Handle {
        self.handle
    }

    /// The device that is meant.
    pub closed spec fn target(&self) -> T {
        self.target
    }

    /// The interface that is still to be selected, if one is.
    pub closed spec fn interface(&self) -> Option<Interface> {
        self.interface
    }

    /// What went wrong, if anything did.
    pub closed spec fn failure(&self) -> Option<Error> {
        self.failure
    }

    pub open spec fn stage(&self) -> Stage {
        match self.handle().phase() {
            Phase::Unallocated => if self.failure() is None {
                Stage::Allocate
            } else {
                Stage::Failed
            },
            Phase::Allocated => if self.failure() is Some {
                Stage::Release
            } else if self.interface() is Some {
                Stage::SelectInterface
            } else {
                Stage::Connect
            },
            Phase::Open => Stage::Opened,
            Phase::Freed => Stage::Failed,
        }
    }

    /// The record of the handle is sound, an open handle has seen no failure, and a handle
    /// is freed only after one.
    pub open spec fn well_formed(&self) -> bool {
        &&& self.handle().well_formed()
        &&& self.handle().phase() is Open ==> self.failure() is None
        &&& self.handle().phase() is Freed ==> self.failure() is Some
    }

    /// The table by which the reply to the call that is due will be read.
    pub open spec fn pending(&self) -> Option<Category> {
        match self.stage() {
            Stage::Allocate => Some(Category::Allocate),
            Stage::SelectInterface => Some(Category::SelectInterface),
            Stage::Connect => Some(self.target().category()),
            Stage::Release => Some(Category::Free),
            _ => None,
        }
    }

    /// An upper bound on the native calls that are still to be made.
    pub open spec fn calls_left(&self) -> nat {
        match self.stage() {
            Stage::Allocate => 4,
            Stage::SelectInterface => 3,
            Stage::Connect => 2,
            Stage::Release => 1,
            _ => 0,
        }
    }

    pub fn current_stage(&self) -> (stage: Stage)
        ensures
            stage == self.stage(),
    {
        match self.handle.current_phase() {
            Phase::Unallocated => if self.failure.is_none() {
                Stage::Allocate
            } else {
                Stage::Failed
            },
            Phase::Allocated => if self.failure.is_some() {
                Stage::Release
            } else if self.interface.is_some() {
                Stage::SelectInterface
            } else {
                Stage::Connect
            },
            Phase::Open => Stage::Opened,
            Phase::Freed => Stage::Failed,
        }
    }

    /// The native call to make next, or `None` when the open has ended either way.
    pub fn next_call(&self) -> (call: Option<Call<'_>>)
        ensures
            match self.stage() {
                Stage::Allocate => call == Some(Call::New),
                Stage::SelectInterface => call == Some(
                    Call::SetInterface { interface: self.interface()->0.code() },
                ),
                Stage::Connect => call is Some && self.target().describes(call->0),
                Stage::Release => call == Some(Call::Free),
                _ => call is None,
            },
            call is Some <==> self.pending() is Some,
            call is Some ==> Some(call->0.category()) == self.pending(),
    {
        match self.current_stage() {
            Stage::Allocate => Some(Call::New),
            Stage::SelectInterface => {
                Some(Call::SetInterface { interface: self.interface.unwrap().into() })
            },
            Stage::Connect => Some(self.target.call()),
            Stage::Release => Some(Call::Free),
            _ => None,
        }
    }

    /// Takes the reply to the call that was due.
    ///
    /// A success leads on to the next call. A failed allocation ends the open at once,
    /// for there is no handle; any later failure is kept, and the handle is freed before the
    /// open ends with it.
    pub fn advance(&mut self, reply: &Reply)
        requires
            old(self).well_formed(),
            old(self).pending() is Some,
            !violates(old(self).pending()->0, reply.status as int),
        ensures
            final(self).well_formed(),
            final(self).target() == old(self).target(),
            final(self).calls_left() < old(self).calls_left(),
            final(self).handle().history() == old(self).handle().history().push(
                Event { role: old(self).pending()->0.role(), succeeded: reply.status >= 0 },
            ),
            match old(self).stage() {
                Stage::Allocate => final(self).interface() == old(self).interface() && if reply.status
                    >= 0 {
                    final(self).stage() == if old(self).interface() is Some {
                        Stage::SelectInterface
                    } else {
                        Stage::Connect
                    }
                } else {
                    final(self).stage() is Failed && final(self).failure() == Some(
                        Error::AllocationFailed,
                    )
                },
                Stage::SelectInterface => if reply.status >= 0 {
                    final(self).stage() is Connect
                } else {
                    final(self).stage() is Release && final(self).failure() is Some
                        && final(self).failure()->0@ == ErrorView::Unknown(reply.diagnostic@)
                },
                Stage::Connect => if reply.status >= 0 {
                    final(self).stage() is Opened
                } else {
                    final(self).stage() is Release && final(self).failure() is Some && Err::<
                        (),
                        ErrorView,
                    >(final(self).failure()->0@) == unit_outcome(
                        old(self).target().category(),
                        reply.status as int,
                        reply.diagnostic@,
                    )
                },
                _ => final(self).stage() is Failed && final(self).failure() == old(self).failure(),
            },
    {
        match self.current_stage() {
            Stage::Allocate => {
                if let Err(e) = self.handle.complete(Call::New, reply) {
                    self.failure = Some(e);
                }
            },
            Stage::SelectInterface => {
                let interface: u32 = self.interface.unwrap().into();
                match self.handle.complete(Call::SetInterface { interface }, reply) {
                    Ok(_) => {
                        self.interface = None;
                    },
                    Err(e) => {
                        self.failure = Some(e);
                    },
                }
            },
            Stage::Connect => {
                proof {
                    self.target.lemma_category_opens();
                }
                self.handle.record(Role::Open, reply.status >= 0);
                if let Err(e) = self.target.open_in_context(reply) {
                    self.failure = Some(e);
                }
            },
            _ => {
                let _ = self.handle.complete(Call::Free, reply);
            },
        }
    }

    /// The end of the open: the device, or the failure.
    ///
    /// A device comes with its handle allocated and not freed. A failure leaves no handle
    /// behind: either none was allocated, or the one that was has been freed.
    pub fn finish(self) -> (r: Result<Device, Error>)
        requires
            self.well_formed(),
            self.pending() is None,
        ensures
            match r {
                Ok(device) => self.stage() is Opened && device.well_formed() && device.handle()
                    == self.handle() && allocations(self.handle().history()) == 1 && frees(
                    self.handle().history(),
                ) == 0,
                Err(e) => self.stage() is Failed && Some(e) == self.failure() && frees(
                    self.handle().history(),
                ) == allocations(self.handle().history()),
            },
    {
        proof {
            lemma_freed_exactly_once(self.handle.history());
        }
        match self.failure {
            Some(e) => Err(e),
            None => Ok(Device::from_handle(self.handle)),
        }
    }
}

} // verus!
