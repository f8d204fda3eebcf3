//! The structured error taxonomy and the conversions into I/O errors.

use vstd::prelude::*;
use vstd::string::StringExecFns;

verus! {

/// The diagnostic text that the native driver keeps after a failed call.
#[derive(Debug, Clone, PartialEq, Eq)]
pub struct LibFtdiError {
    message: String,
}

impl LibFtdiError {
    /// The characters of the diagnostic, exactly as the driver gave them.
    pub closed spec fn text(&self) -> Seq<char> {
        self.message@
    }

    pub fn new(message: String) -> (e: LibFtdiError)
        ensures
            e.text() == message@,
    {
        LibFtdiError { message }
    }

    /// The diagnostic without any prefix.
    pub fn diagnostic(&self) -> (s: &str)
        ensures
            s@ == self.text(),
    {
        self.message.as_str()
    }

    /// The diagnostic as it is shown to a user: prefixed with the driver's name.
    pub fn message(&self) -> (s: String)
        ensures
            s@ == "libftdi: "@ + self.text(),
    {
        String::from_str("libftdi: ").concat(self.message.as_str())
    }
}

/// Everything that can go wrong between this layer and the native driver.
#[derive(Debug, Clone, PartialEq, Eq)]
pub enum Error {
    /// Listing the devices on the bus failed while opening.
    EnumerationFailed,
    /// No device matches the requested identity.
    DeviceNotFound,
    /// The native context could not be allocated or initialised.
    AllocationFailed,
    /// The device exists but could not be opened.
    AccessFailed,
    /// The device was opened but its interface could not be claimed.
    ClaimFailed,
    /// The device has been unplugged.
    Disconnected,
    /// The device or the driver rejected a request.
    RequestFailed,
    /// The caller passed a value that the driver does not support.
    InvalidInput(&'static str),
    /// A failure that the operation's status table does not name.
    Unknown { source: LibFtdiError },
}

/// What an [`Error`] is, with its texts as sequences of characters.
pub enum ErrorView {
    EnumerationFailed,
    DeviceNotFound,
    AllocationFailed,
    AccessFailed,
    ClaimFailed,
    Disconnected,
    RequestFailed,
    InvalidInput(Seq<char>),
    Unknown(Seq<char>),
}

impl ErrorView {
    /// The sentence that describes the error to a user.
    pub open spec fn text(self) -> Seq<char> {
        match self {
            ErrorView::EnumerationFailed => "failed to enumerate devices to open the correct one"@,
            ErrorView::DeviceNotFound => "the specified device could not be found"@,
            ErrorView::AllocationFailed => "libftdi context allocation failed"@,
            ErrorView::AccessFailed => "failed to open the specified device"@,
            ErrorView::ClaimFailed => "the requested interface could not be claimed"@,
            ErrorView::Disconnected => "the device has been disconnected from the system"@,
            ErrorView::RequestFailed => "libftdi reported error to perform operation"@,
            ErrorView::InvalidInput(reason) => "input value invalid: "@ + reason,
            ErrorView::Unknown(_) => "unknown or unexpected libftdi error"@,
        }
    }
}

impl View for Error {
    type V = ErrorView;

    open spec fn view(&self) -> ErrorView {
        match *self {
            Error::EnumerationFailed => ErrorView::EnumerationFailed,
            Error::DeviceNotFound => ErrorView::DeviceNotFound,
            Error::AllocationFailed => ErrorView::AllocationFailed,
            Error::AccessFailed => ErrorView::AccessFailed,
            Error::ClaimFailed => ErrorView::ClaimFailed,
            Error::Disconnected => ErrorView::Disconnected,
            Error::RequestFailed => ErrorView::RequestFailed,
            Error::InvalidInput(reason) => ErrorView::InvalidInput(reason@),
            Error::Unknown { source } => ErrorView::Unknown(source.text()),
        }
    }
}

impl Error {
    /// The error for a status that no table names, carrying the driver's diagnostic verbatim.
    pub fn unknown(diagnostic: &str) -> (e: Error)
        ensures
            e@ == ErrorView::Unknown(diagnostic@),
    {
        Error::Unknown { source: LibFtdiError::new(String::from_str(diagnostic)) }
    }

    /// The sentence that describes the error to a user.
    pub fn message(&self) -> (s: String)
        ensures
            s@ == self@.text(),
    {
        match self {
            Error::EnumerationFailed => String::from_str(
                "failed to enumerate devices to open the correct one",
            ),
            Error::DeviceNotFound => String::from_str("the specified device could not be found"),
            Error::AllocationFailed => String::from_str("libftdi context allocation failed"),
            Error::AccessFailed => String::from_str("failed to open the specified device"),
            Error::ClaimFailed => String::from_str("the requested interface could not be claimed"),
            Error::Disconnected => String::from_str(
                "the device has been disconnected from the system",
            ),
            Error::RequestFailed => String::from_str("libftdi reported error to perform operation"),
            Error::InvalidInput(reason) => String::from_str("input value invalid: ").concat(reason),
            Error::Unknown { .. } => String::from_str("unknown or unexpected libftdi error"),
        }
    }

    /// The diagnostic behind an [`Error::Unknown`], if this is one.
    pub fn source(&self) -> (s: Option<&LibFtdiError>)
        ensures
            match s {
                Some(inner) => self@ == ErrorView::Unknown(inner.text()),
                None => !(self@ is Unknown),
            },
    {
        match self {
            Error::Unknown { source } => Some(source),
            _ => None,
        }
    }
}

/// An I/O error of the kind "other": all that it carries is its message.
#[derive(Debug, Clone, PartialEq, Eq)]
pub struct IoError {
    pub message: String,
}

/// The decimal digit for `d`, which is below ten.
pub open spec fn digit(d: nat) -> char {
    if d == 0 {
        '0'
    } else if d == 1 {
        '1'
    } else if d == 2 {
        '2'
    } else if d == 3 {
        '3'
    } else if d == 4 {
        '4'
    } else if d == 5 {
        '5'
    } else if d == 6 {
        '6'
    } else if d == 7 {
        '7'
    } else if d == 8 {
        '8'
    } else {
        '9'
    }
}

/// The decimal digits of `n`, most significant first, without leading zeros.
pub open spec fn digits(n: nat) -> Seq<char>
    decreases n,
{
    if n < 10 {
        seq![digit(n)]
    } else {
        digits(n / 10).push(digit(n % 10))
    }
}

/// `n` written in decimal, with a minus sign in front where it is negative.
pub open spec fn decimal(n: int) -> Seq<char> {
    if n < 0 {
        seq!['-'] + digits((-n) as nat)
    } else {
        digits(n as nat)
    }
}

/// The number that a sequence of decimal digits stands for.
pub open spec fn number(s: Seq<char>) -> nat
    decreases s.len(),
{
    if s.len() == 0 {
        0
    } else {
        number(s.drop_last()) * 10 + (s.last() as nat - '0' as nat) as nat
    }
}

/// The digits of a number stand for that number, and begin with a zero only for zero.
pub proof fn lemma_digits_stand_for(n: nat)
    ensures
        number(digits(n)) == n,
        digits(n).len() >= 1,
        n > 0 ==> digits(n)[0] != '0',
    decreases n,
{
    if n < 10 {
        assert(digits(n).drop_last() =~= Seq::<char>::empty());
        assert(number(digits(n).drop_last()) == 0);
    } else {
        lemma_digits_stand_for(n / 10);
        assert(digits(n).drop_last() =~= digits(n / 10));
        assert(digits(n)[0] == digits(n / 10)[0]);
    }
}

fn digit_str(d: u64) -> (s: &'static str)
    requires
        d < 10,
    ensures
        s@ == seq![digit(d as nat)],
{
    proof {
        reveal_strlit("0");
        reveal_strlit("1");
        reveal_strlit("2");
        reveal_strlit("3");
        reveal_strlit("4");
        reveal_strlit("5");
        reveal_strlit("6");
        reveal_strlit("7");
        reveal_strlit("8");
        reveal_strlit("9");
    }
    let s = if d == 0 {
        "0"
    } else if d == 1 {
        "1"
    } else if d == 2 {
        "2"
    } else if d == 3 {
        "3"
    } else if d == 4 {
        "4"
    } else if d == 5 {
        "5"
    } else if d == 6 {
        "6"
    } else if d == 7 {
        "7"
    } else if d == 8 {
        "8"
    } else {
        "9"
    };
    assert(s@ =~= seq![digit(d as nat)]);
    s
}

fn digits_string(n: u64) -> (s: String)
    ensures
        s@ == digits(n as nat),
    decreases n,
{
    if n < 10 {
        String::from_str(digit_str(n))
    } else {
        let head = digits_string(n / 10);
        let s = head.concat(digit_str(n % 10));
        assert(s@ =~= digits(n as nat));
        s
    }
}

/// Writes a status code in decimal.
pub fn decimal_string(code: i32) -> (s: String)
    ensures
        s@ == decimal(code as int),
{
    if code < 0 {
        let magnitude: u64 = (-(code as i64)) as u64;
        proof {
            reveal_strlit("-");
        }
        let s = String::from_str("-").concat(digits_string(magnitude).as_str());
        assert(s@ =~= decimal(code as int));
        s
    } else {
        digits_string(code as u64)
    }
}

/// Wraps a raw transport status in an I/O error that names the code.
pub fn libusb_to_io(code: i32) -> (e: IoError)
    ensures
        e.message@ == "libusb error code "@ + decimal(code as int),
{
    IoError { message: String::from_str("libusb error code ").concat(decimal_string(code).as_str()) }
}

/// Wraps a structured error in an I/O error that shows the same sentence.
pub fn libftdi_to_io(err: Error) -> (e: IoError)
    ensures
        e.message@ == err@.text(),
{
    IoError { message: err.message() }
}

} // verus!
