use swiss_iperf::error::Error;
use swiss_iperf::util::wrap_io_err;

#[test]
fn non_error_results_pass_through() {
    assert_eq!(wrap_io_err(0).unwrap(), 0);
    assert_eq!(wrap_io_err(42).unwrap(), 42);
    assert_eq!(wrap_io_err(-2).unwrap(), -2);
}

#[test]
fn minus_one_is_an_error() {
    assert!(wrap_io_err(-1).is_err());
}

#[test]
fn io_errors_convert_into_the_library_error() {
    let e = std::io::Error::new(std::io::ErrorKind::Other, "boom");
    assert!(matches!(Error::from(e), Error::Io(_)));
}

#[test]
fn bincode_errors_convert_into_the_library_error() {
    let e: bincode::Error = Box::new(bincode::ErrorKind::SizeLimit);
    assert!(matches!(Error::from(e), Error::Bincode(_)));
}
