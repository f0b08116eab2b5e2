use kraken_driver::codec::KrakenError;
use kraken_driver::device::Kraken;

#[test]
fn open_reports_only_transport_errors() {
    // With no cooler attached, open must fail with a wrapped transport
    // error; with one attached it may succeed. No validation or protocol
    // error can arise at open time.
    match Kraken::open() {
        Ok(kraken) => kraken.release(),
        Err(e) => assert!(matches!(e, KrakenError::UsbError(_))),
    }
}
