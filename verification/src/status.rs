//! The result translator: what a native status means for the operation that returned it.
//!
//! The driver reuses the same negative numbers for different failures in different calls,
//! so a status is read only together with the category of the call that produced it.

use vstd::prelude::*;
use crate::error::{Error, ErrorView};

verus! {

/// The status that a transfer returns when the device has been unplugged.
pub const DISCONNECTED: i32 = -666;

/// The groups of native calls that share one table of statuses.
#[derive(Debug, Clone, Copy, PartialEq, Eq, Structural)]
pub enum Category {
    /// Allocating and initialising a context.
    Allocate,
    /// Freeing a context.
    Free,
    /// Selecting the chip's interface before opening.
    SelectInterface,
    /// Opening by bus address or by vendor and product.
    Open,
    /// Opening a device that the caller already holds a platform reference to.
    OpenDevice,
    /// Closing the device while keeping the context.
    Close,
    BaudRate,
    LineProperty,
    FlowControl,
    BitMode,
    DisableBitBang,
    Reset,
    PurgeBuffers,
    PurgeTxBuffer,
    SetLatency,
    GetLatency,
    SetChunkSize,
    GetChunkSize,
    Read,
    Write,
}

impl Category {
    /// Whether the call moves bytes to or from the device.
    pub open spec fn is_transfer(self) -> bool {
        self is Read || self is Write
    }

    /// Whether a successful call hands its result back beside the status.
    pub open spec fn yields_value(self) -> bool {
        self is GetLatency || self is GetChunkSize
    }
}

/// What a status means for one category of call.
#[derive(Debug, Clone, PartialEq, Eq)]
pub enum Verdict {
    /// The call succeeded; the status itself may carry a count.
    Success,
    /// The call failed in a way that the category's table names.
    Failure(Error),
    /// The call failed with a status that the table does not name.
    Unrecognized,
    /// The driver reports that it was called against its documented preconditions, which
    /// this layer rules out by construction. There is no sensible way to go on.
    Violation,
}

/// The statuses by which the driver says that its preconditions were broken.
pub open spec fn violates(category: Category, status: int) -> bool {
    status < 0 && match category {
        Category::Allocate => false,
        Category::Free => true,
        Category::SelectInterface => -3 <= status,
        Category::Open => status == -11,
        Category::OpenDevice => status == -8,
        Category::Close => status != -1,
        Category::BaudRate | Category::PurgeBuffers | Category::SetLatency => status == -3,
        Category::LineProperty
        | Category::FlowControl
        | Category::BitMode
        | Category::DisableBitBang
        | Category::Reset
        | Category::PurgeTxBuffer
        | Category::GetLatency => status == -2,
        Category::SetChunkSize | Category::GetChunkSize => true,
        Category::Read | Category::Write => false,
    }
}

/// The failure that the category's table names for a negative status, if it names one.
pub open spec fn recognized(category: Category, status: int) -> Option<Error> {
    match category {
        Category::Allocate => Some(Error::AllocationFailed),
        Category::Open => if status == -3 {
            Some(Error::DeviceNotFound)
        } else if status == -4 {
            Some(Error::AccessFailed)
        } else if status == -5 {
            Some(Error::ClaimFailed)
        } else if status == -6 || status == -7 {
            Some(Error::RequestFailed)
        } else if status == -1 || status == -2 || status == -8 || status == -9 || status == -12 {
            Some(Error::EnumerationFailed)
        } else {
            None
        },
        Category::OpenDevice => if status == -5 {
            Some(Error::ClaimFailed)
        } else if status == -6 || status == -7 {
            Some(Error::RequestFailed)
        } else if status == -3 || status == -4 || -12 <= status <= -9 {
            Some(Error::AccessFailed)
        } else {
            None
        },
        Category::BaudRate => if status == -1 {
            Some(Error::InvalidInput("unsupported baudrate"))
        } else if status == -2 {
            Some(Error::RequestFailed)
        } else {
            None
        },
        Category::SetLatency => if status == -1 {
            Some(Error::InvalidInput("latency value out of range"))
        } else if status == -2 {
            Some(Error::RequestFailed)
        } else {
            None
        },
        Category::PurgeBuffers => if status == -1 || status == -2 {
            Some(Error::RequestFailed)
        } else {
            None
        },
        Category::Close
        | Category::LineProperty
        | Category::FlowControl
        | Category::BitMode
        | Category::DisableBitBang
        | Category::Reset
        | Category::PurgeTxBuffer
        | Category::GetLatency => if status == -1 {
            Some(Error::RequestFailed)
        } else {
            None
        },
        Category::Read | Category::Write => if status == DISCONNECTED {
            Some(Error::Disconnected)
        } else {
            None
        },
        Category::Free
        | Category::SelectInterface
        | Category::SetChunkSize
        | Category::GetChunkSize => None,
    }
}

/// The meaning of `status` for a call of `category`.
pub open spec fn verdict(category: Category, status: int) -> Verdict {
    if status >= 0 {
        Verdict::Success
    } else if violates(category, status) {
        Verdict::Violation
    } else {
        match recognized(category, status) {
            Some(error) => Verdict::Failure(error),
            None => Verdict::Unrecognized,
        }
    }
}

/// What the caller gets for a reply: the count or value on success, the error otherwise.
/// A status that breaks the driver's preconditions has no outcome.
pub open spec fn outcome(category: Category, status: int, value: u32, diagnostic: Seq<char>)
    -> Result<u32, ErrorView>
    recommends
        !violates(category, status),
{
    match verdict(category, status) {
        Verdict::Success => Ok(
            if category.yields_value() {
                value
            } else {
                status as u32
            },
        ),
        Verdict::Failure(error) => Err(error@),
        _ => Err(ErrorView::Unknown(diagnostic)),
    }
}

/// A result with its error taken by its view.
pub open spec fn result_view(r: Result<u32, Error>) -> Result<u32, ErrorView> {
    match r {
        Ok(n) => Ok(n),
        Err(e) => Err(e@),
    }
}

fn request_failed_on(status: i32, code: i32) -> (v: Verdict)
    requires
        status < 0,
    ensures
        v == if status == code {
            Verdict::Failure(Error::RequestFailed)
        } else {
            Verdict::Unrecognized
        },
{
    if status == code {
        Verdict::Failure(Error::RequestFailed)
    } else {
        Verdict::Unrecognized
    }
}

/// Reads a status against the table of its category.
pub fn classify(category: Category, status: i32) -> (v: Verdict)
    ensures
        v == verdict(category, status as int),
{
    if status >= 0 {
        return Verdict::Success;
    }
    match category {
        Category::Allocate => Verdict::Failure(Error::AllocationFailed),
        Category::Free | Category::SetChunkSize | Category::GetChunkSize => Verdict::Violation,
        Category::SelectInterface => if status >= -3 {
            Verdict::Violation
        } else {
            Verdict::Unrecognized
        },
        Category::Open => match status {
            -1 | -2 | -8 | -9 | -12 => Verdict::Failure(Error::EnumerationFailed),
            -3 => Verdict::Failure(Error::DeviceNotFound),
            -4 => Verdict::Failure(Error::AccessFailed),
            -5 => Verdict::Failure(Error::ClaimFailed),
            -6 | -7 => Verdict::Failure(Error::RequestFailed),
            -11 => Verdict::Violation,
            _ => Verdict::Unrecognized,
        },
        Category::OpenDevice => match status {
            -3 | -4 | -9 | -10 | -11 | -12 => Verdict::Failure(Error::AccessFailed),
            -5 => Verdict::Failure(Error::ClaimFailed),
            -6 | -7 => Verdict::Failure(Error::RequestFailed),
            -8 => Verdict::Violation,
            _ => Verdict::Unrecognized,
        },
        Category::Close => if status == -1 {
            Verdict::Failure(Error::RequestFailed)
        } else {
            Verdict::Violation
        },
        Category::BaudRate => match status {
            -1 => Verdict::Failure(Error::InvalidInput("unsupported baudrate")),
            -2 => Verdict::Failure(Error::RequestFailed),
            -3 => Verdict::Violation,
            _ => Verdict::Unrecognized,
        },
        Category::SetLatency => match status {
            -1 => Verdict::Failure(Error::InvalidInput("latency value out of range")),
            -2 => Verdict::Failure(Error::RequestFailed),
            -3 => Verdict::Violation,
            _ => Verdict::Unrecognized,
        },
        Category::PurgeBuffers => match status {
            -1 | -2 => Verdict::Failure(Error::RequestFailed),
            -3 => Verdict::Violation,
            _ => Verdict::Unrecognized,
        },
        Category::LineProperty
        | Category::FlowControl
        | Category::BitMode
        | Category::DisableBitBang
        | Category::Reset
        | Category::PurgeTxBuffer
        | Category::GetLatency => if status == -2 {
            Verdict::Violation
        } else {
            request_failed_on(status, -1)
        },
        Category::Read | Category::Write => if status == DISCONNECTED {
            Verdict::Failure(Error::Disconnected)
        } else {
            Verdict::Unrecognized
        },
    }
}

/// Whether the driver says by `status` that it was called against its preconditions.
pub fn is_violation(category: Category, status: i32) -> (b: bool)
    ensures
        b == violates(category, status as int),
{
    match classify(category, status) {
        Verdict::Violation => true,
        _ => false,
    }
}

/// Whether the driver's diagnostic text is needed to report `status`.
pub fn needs_diagnostic(category: Category, status: i32) -> (b: bool)
    ensures
        b == (verdict(category, status as int) is Unrecognized),
{
    match classify(category, status) {
        Verdict::Unrecognized => true,
        _ => false,
    }
}

/// Turns the reply of a native call into the caller's result.
///
/// `value` is what the call wrote to its out-parameter, and `diagnostic` the text that the
/// driver holds for its last error; each is read only where the status calls for it.
pub fn translate(category: Category, status: i32, value: u32, diagnostic: &str) -> (r: Result<
    u32,
    Error,
>)
    requires
        !violates(category, status as int),
    ensures
        result_view(r) == outcome(category, status as int, value, diagnostic@),
        r is Ok <==> status >= 0,
{
    match classify(category, status) {
        Verdict::Success => {
            match category {
                Category::GetLatency | Category::GetChunkSize => Ok(value),
                _ => Ok(status as u32),
            }
        },
        Verdict::Failure(error) => Err(error),
        _ => Err(Error::unknown(diagnostic)),
    }
}

/// No table names a failure for a status by which the driver reports a broken
/// precondition: the two readings of a negative status never compete.
pub proof fn lemma_tables_are_disjoint(category: Category, status: int)
    requires
        violates(category, status),
    ensures
        recognized(category, status) is None,
        verdict(category, status) is Violation,
{
}

/// Every status is either a success or a failure, never both, and the sign alone decides
/// which: from zero upwards a call succeeded, below zero it did not.
pub proof fn lemma_status_partition(category: Category, status: int)
    ensures
        status >= 0 <==> verdict(category, status) is Success,
        status < 0 <==> !(verdict(category, status) is Success),
        !violates(category, status) ==> forall|value: u32, diagnostic: Seq<char>|
            (status >= 0 <==> #[trigger] outcome(category, status, value, diagnostic) is Ok) && (
            status < 0 <==> outcome(category, status, value, diagnostic) is Err),
{
}

/// The status of an unplugged device means `Disconnected` for a read and for a write, and
/// nothing else ever does: no other status of a transfer, and no status of any other call.
pub proof fn lemma_sentinel_isolation(category: Category, status: int)
    ensures
        category.is_transfer() ==> verdict(category, DISCONNECTED as int) == Verdict::Failure(
            Error::Disconnected,
        ),
        verdict(category, status) == Verdict::Failure(Error::Disconnected) <==> (
        category.is_transfer() && status == DISCONNECTED),
        category.is_transfer() ==> forall|value: u32, diagnostic: Seq<char>|
            #[trigger] outcome(category, DISCONNECTED as int, value, diagnostic) == Err::<
                u32,
                ErrorView,
            >(ErrorView::Disconnected),
{
}

/// A failure is reported as unknown exactly where the category's table does not name its
/// status, and then with the driver's diagnostic, unchanged. No table names it itself.
pub proof fn lemma_unknown_is_unrecognized(
    category: Category,
    status: int,
    value: u32,
    diagnostic: Seq<char>,
)
    requires
        !violates(category, status),
    ensures
        outcome(category, status, value, diagnostic) is Err && outcome(
            category,
            status,
            value,
            diagnostic,
        )->Err_0 is Unknown <==> verdict(category, status) is Unrecognized,
        verdict(category, status) is Unrecognized ==> outcome(category, status, value, diagnostic)
            == Err::<u32, ErrorView>(ErrorView::Unknown(diagnostic)),
        verdict(category, status) is Failure ==> !(verdict(category, status)->Failure_0 is Unknown),
{
}

/// A transfer that moved fewer bytes than were asked for has succeeded with that count.
pub proof fn lemma_partial_transfer(
    category: Category,
    requested: int,
    status: int,
    value: u32,
    diagnostic: Seq<char>,
)
    requires
        category.is_transfer(),
        0 <= status < requested,
        status <= i32::MAX,
    ensures
        outcome(category, status, value, diagnostic) == Ok::<u32, ErrorView>(status as u32),
        status as u32 == status,
{
}

/// The number alone does not say what went wrong: the same negative status means one thing
/// after an open and another after a request to the open device, a read, or an open of a
/// device that the caller holds.
pub proof fn lemma_category_decides()
    ensures
        verdict(Category::Open, -1) == Verdict::Failure(Error::EnumerationFailed),
        verdict(Category::SetLatency, -1) != verdict(Category::Open, -1),
        verdict(Category::BaudRate, -1) != verdict(Category::SetLatency, -1),
        verdict(Category::Reset, -1) != verdict(Category::Open, -1),
        verdict(Category::OpenDevice, -3) != verdict(Category::Open, -3),
        verdict(Category::Read, -3) != verdict(Category::Open, -3),
        exists|a: Category, b: Category, status: int|
            status < 0 && #[trigger] verdict(a, status) != #[trigger] verdict(b, status),
{
    assert(verdict(Category::SetLatency, -1) != verdict(Category::Open, -1));
}

} // verus!
