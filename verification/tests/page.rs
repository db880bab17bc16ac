use njupt_wifi::net::Ipv4Addr;
use njupt_wifi::page::extract_address;

#[test]
fn extracts_from_the_ss5_marker() {
    let page = "<script>var a=1; ss5=\"1.2.3.4\";</script>";
    assert_eq!(
        extract_address(page),
        Some(Ipv4Addr { a: 1, b: 2, c: 3, d: 4 })
    );
}

#[test]
fn extracts_from_the_v46ip_marker() {
    let page = "<script>v46ip='10.21.128.66';</script>";
    assert_eq!(
        extract_address(page),
        Some(Ipv4Addr { a: 10, b: 21, c: 128, d: 66 })
    );
}

#[test]
fn no_known_marker_yields_nothing() {
    assert_eq!(extract_address("<html>nothing of interest</html>"), None);
    assert_eq!(extract_address(""), None);
}

#[test]
fn marker_with_unparsable_capture_yields_nothing() {
    assert_eq!(extract_address("ss5=\"not-an-address\""), None);
    assert_eq!(extract_address("ss5=\"999.1.1.1\""), None);
}

#[test]
fn unterminated_marker_yields_nothing() {
    assert_eq!(extract_address("ss5=\"1.2.3.4"), None);
}
