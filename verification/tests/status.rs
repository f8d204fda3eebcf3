use ftdi::error::{decimal_string, libftdi_to_io, libusb_to_io, Error, LibFtdiError};
use ftdi::status::{classify, is_violation, needs_diagnostic, translate, Category, Verdict, DISCONNECTED};

const ALL: [Category; 20] = [
    Category::Allocate,
    Category::Free,
    Category::SelectInterface,
    Category::Open,
    Category::OpenDevice,
    Category::Close,
    Category::BaudRate,
    Category::LineProperty,
    Category::FlowControl,
    Category::BitMode,
    Category::DisableBitBang,
    Category::Reset,
    Category::PurgeBuffers,
    Category::PurgeTxBuffer,
    Category::SetLatency,
    Category::GetLatency,
    Category::SetChunkSize,
    Category::GetChunkSize,
    Category::Read,
    Category::Write,
];

fn failure(e: Error) -> Verdict {
    Verdict::Failure(e)
}

#[test]
fn every_status_from_zero_up_is_a_success() {
    for category in ALL {
        for status in [0, 1, 32, 255, i32::MAX] {
            assert_eq!(classify(category, status), Verdict::Success);
            assert!(!is_violation(category, status));
            assert!(translate(category, status, 0, "").is_ok());
        }
    }
}

#[test]
fn every_status_below_zero_is_no_success() {
    for category in ALL {
        for status in [-1, -2, -3, -4, -8, -11, -12, -13, -666, i32::MIN] {
            assert_ne!(classify(category, status), Verdict::Success);
            if !is_violation(category, status) {
                assert!(translate(category, status, 0, "oops").is_err());
            }
        }
    }
}

#[test]
fn open_table() {
    let c = Category::Open;
    assert_eq!(classify(c, -1), failure(Error::EnumerationFailed));
    assert_eq!(classify(c, -2), failure(Error::EnumerationFailed));
    assert_eq!(classify(c, -3), failure(Error::DeviceNotFound));
    assert_eq!(classify(c, -4), failure(Error::AccessFailed));
    assert_eq!(classify(c, -5), failure(Error::ClaimFailed));
    assert_eq!(classify(c, -6), failure(Error::RequestFailed));
    assert_eq!(classify(c, -7), failure(Error::RequestFailed));
    assert_eq!(classify(c, -8), failure(Error::EnumerationFailed));
    assert_eq!(classify(c, -9), failure(Error::EnumerationFailed));
    assert_eq!(classify(c, -10), Verdict::Unrecognized);
    assert_eq!(classify(c, -11), Verdict::Violation);
    assert_eq!(classify(c, -12), failure(Error::EnumerationFailed));
    assert_eq!(classify(c, -13), Verdict::Unrecognized);
    assert_eq!(classify(c, -666), Verdict::Unrecognized);
}

#[test]
fn open_device_table() {
    let c = Category::OpenDevice;
    assert_eq!(classify(c, -1), Verdict::Unrecognized);
    assert_eq!(classify(c, -2), Verdict::Unrecognized);
    assert_eq!(classify(c, -3), failure(Error::AccessFailed));
    assert_eq!(classify(c, -4), failure(Error::AccessFailed));
    assert_eq!(classify(c, -5), failure(Error::ClaimFailed));
    assert_eq!(classify(c, -6), failure(Error::RequestFailed));
    assert_eq!(classify(c, -7), failure(Error::RequestFailed));
    assert_eq!(classify(c, -8), Verdict::Violation);
    assert_eq!(classify(c, -9), failure(Error::AccessFailed));
    assert_eq!(classify(c, -10), failure(Error::AccessFailed));
    assert_eq!(classify(c, -11), failure(Error::AccessFailed));
    assert_eq!(classify(c, -12), failure(Error::AccessFailed));
    assert_eq!(classify(c, -13), Verdict::Unrecognized);
}

#[test]
fn configuration_tables() {
    assert_eq!(
        classify(Category::BaudRate, -1),
        failure(Error::InvalidInput("unsupported baudrate"))
    );
    assert_eq!(classify(Category::BaudRate, -2), failure(Error::RequestFailed));
    assert_eq!(classify(Category::BaudRate, -3), Verdict::Violation);
    assert_eq!(classify(Category::BaudRate, -4), Verdict::Unrecognized);
    assert_eq!(
        classify(Category::SetLatency, -1),
        failure(Error::InvalidInput("latency value out of range"))
    );
    assert_eq!(classify(Category::SetLatency, -2), failure(Error::RequestFailed));
    assert_eq!(classify(Category::SetLatency, -3), Verdict::Violation);
    assert_eq!(classify(Category::PurgeBuffers, -1), failure(Error::RequestFailed));
    assert_eq!(classify(Category::PurgeBuffers, -2), failure(Error::RequestFailed));
    assert_eq!(classify(Category::PurgeBuffers, -3), Verdict::Violation);
    assert_eq!(classify(Category::PurgeBuffers, -4), Verdict::Unrecognized);
    for c in [
        Category::LineProperty,
        Category::FlowControl,
        Category::BitMode,
        Category::DisableBitBang,
        Category::Reset,
        Category::PurgeTxBuffer,
        Category::GetLatency,
    ] {
        assert_eq!(classify(c, -1), failure(Error::RequestFailed));
        assert_eq!(classify(c, -2), Verdict::Violation);
        assert_eq!(classify(c, -3), Verdict::Unrecognized);
    }
}

#[test]
fn lifecycle_tables() {
    assert_eq!(classify(Category::Allocate, -1), failure(Error::AllocationFailed));
    assert_eq!(classify(Category::Allocate, -77), failure(Error::AllocationFailed));
    assert_eq!(classify(Category::Free, -1), Verdict::Violation);
    assert_eq!(classify(Category::SelectInterface, -1), Verdict::Violation);
    assert_eq!(classify(Category::SelectInterface, -2), Verdict::Violation);
    assert_eq!(classify(Category::SelectInterface, -3), Verdict::Violation);
    assert_eq!(classify(Category::SelectInterface, -4), Verdict::Unrecognized);
    assert_eq!(classify(Category::Close, -1), failure(Error::RequestFailed));
    assert_eq!(classify(Category::Close, -3), Verdict::Violation);
    assert_eq!(classify(Category::Close, -2), Verdict::Violation);
}

#[test]
fn chunk_size_calls_fail_only_by_violation() {
    for c in [Category::SetChunkSize, Category::GetChunkSize] {
        assert_eq!(classify(c, 0), Verdict::Success);
        assert_eq!(classify(c, -1), Verdict::Violation);
        assert_eq!(classify(c, -5), Verdict::Violation);
        assert!(is_violation(c, -1));
    }
}

#[test]
fn sentinel_means_disconnected_for_read_and_write() {
    assert_eq!(DISCONNECTED, -666);
    for c in [Category::Read, Category::Write] {
        assert_eq!(classify(c, -666), failure(Error::Disconnected));
        assert_eq!(translate(c, -666, 0, "gone"), Err(Error::Disconnected));
        assert!(!needs_diagnostic(c, -666));
    }
}

#[test]
fn only_the_sentinel_of_a_transfer_means_disconnected() {
    for category in ALL {
        for status in -700..0 {
            let transfer = matches!(category, Category::Read | Category::Write);
            assert_eq!(
                classify(category, status) == failure(Error::Disconnected),
                transfer && status == -666
            );
        }
    }
}

#[test]
fn other_transfer_failures_are_unknown_with_the_diagnostic() {
    for c in [Category::Read, Category::Write] {
        assert_eq!(classify(c, -1), Verdict::Unrecognized);
        assert!(needs_diagnostic(c, -1));
        assert_eq!(translate(c, -5, 0, "usb bulk read failed"), Err(Error::unknown("usb bulk read failed")));
    }
}

#[test]
fn partial_transfer_is_a_success_with_its_count() {
    assert_eq!(translate(Category::Write, 32, 0, ""), Ok(32));
    assert_eq!(translate(Category::Read, 0, 0, ""), Ok(0));
    assert_eq!(translate(Category::Read, 1, 9, ""), Ok(1));
    assert_eq!(translate(Category::Write, i32::MAX, 0, ""), Ok(0x7fff_ffff));
}

#[test]
fn getters_hand_back_the_value_and_not_the_status() {
    assert_eq!(translate(Category::GetLatency, 0, 16, ""), Ok(16));
    assert_eq!(translate(Category::GetChunkSize, 0, 4096, ""), Ok(4096));
    assert_eq!(translate(Category::SetLatency, 0, 16, ""), Ok(0));
    assert_eq!(translate(Category::GetLatency, -1, 16, ""), Err(Error::RequestFailed));
}

#[test]
fn the_same_status_differs_by_category() {
    assert_eq!(classify(Category::Open, -1), failure(Error::EnumerationFailed));
    assert_eq!(
        classify(Category::SetLatency, -1),
        failure(Error::InvalidInput("latency value out of range"))
    );
    assert_eq!(classify(Category::Reset, -1), failure(Error::RequestFailed));
    assert_eq!(classify(Category::Open, -3), failure(Error::DeviceNotFound));
    assert_eq!(classify(Category::OpenDevice, -3), failure(Error::AccessFailed));
    assert_eq!(classify(Category::BaudRate, -3), Verdict::Violation);
    assert_eq!(classify(Category::Read, -3), Verdict::Unrecognized);
}

#[test]
fn unknown_carries_the_diagnostic_verbatim() {
    let r = translate(Category::Reset, -9, 0, "USB reset failed: pipe error");
    match r {
        Err(Error::Unknown { source }) => {
            assert_eq!(source.diagnostic(), "USB reset failed: pipe error");
            assert_eq!(source.message(), "libftdi: USB reset failed: pipe error");
        }
        other => panic!("unexpected {:?}", other),
    }
    let e = Error::unknown("x");
    assert_eq!(e.source(), Some(&LibFtdiError::new(String::from("x"))));
    assert_eq!(Error::RequestFailed.source(), None);
}

#[test]
fn error_messages() {
    assert_eq!(
        Error::EnumerationFailed.message(),
        "failed to enumerate devices to open the correct one"
    );
    assert_eq!(Error::DeviceNotFound.message(), "the specified device could not be found");
    assert_eq!(Error::AllocationFailed.message(), "libftdi context allocation failed");
    assert_eq!(Error::AccessFailed.message(), "failed to open the specified device");
    assert_eq!(Error::ClaimFailed.message(), "the requested interface could not be claimed");
    assert_eq!(
        Error::Disconnected.message(),
        "the device has been disconnected from the system"
    );
    assert_eq!(Error::RequestFailed.message(), "libftdi reported error to perform operation");
    assert_eq!(
        Error::InvalidInput("unsupported baudrate").message(),
        "input value invalid: unsupported baudrate"
    );
    assert_eq!(Error::unknown("boom").message(), "unknown or unexpected libftdi error");
}

#[test]
fn decimal_strings() {
    assert_eq!(decimal_string(0), "0");
    assert_eq!(decimal_string(7), "7");
    assert_eq!(decimal_string(10), "10");
    assert_eq!(decimal_string(-1), "-1");
    assert_eq!(decimal_string(-666), "-666");
    assert_eq!(decimal_string(1234567890), "1234567890");
    assert_eq!(decimal_string(i32::MAX), "2147483647");
    assert_eq!(decimal_string(i32::MIN), "-2147483648");
    for n in [-100005, -99, -10, 9, 99, 100, 101, 65536] {
        assert_eq!(decimal_string(n), format!("{}", n));
    }
}

#[test]
fn io_errors_carry_the_message() {
    assert_eq!(libusb_to_io(-7).message, "libusb error code -7");
    assert_eq!(libusb_to_io(-666).message, "libusb error code -666");
    assert_eq!(libusb_to_io(12).message, "libusb error code 12");
    assert_eq!(
        libftdi_to_io(Error::Disconnected).message,
        "the device has been disconnected from the system"
    );
    assert_eq!(
        libftdi_to_io(Error::InvalidInput("latency value out of range")).message,
        "input value invalid: latency value out of range"
    );
}
