//! The portal's fixed URL scheme and form-field names. These are protocol
//! facts of the specific controller, not configuration.

use vstd::prelude::*;
use crate::net::{Ipv4Addr, ipv4_chars, ipv4_string};

verus! {

/// The unauthenticated landing endpoint that reveals the client address.
pub open spec fn fetch_ip_url_chars() -> Seq<char> {
    "http://10.10.244.11/"@
}

/// The status endpoint, parameterized by the client address.
pub open spec fn check_status_url_chars(ip: Ipv4Addr) -> Seq<char> {
    "http://10.10.244.11:801/eportal/?c=ACSetting&a=checkScanIP&wlanuserip="@ + ipv4_chars(ip)
}

/// The login endpoint, parameterized by the client address.
pub open spec fn login_url_chars(ip: Ipv4Addr) -> Seq<char> {
    "http://10.10.244.11:801/eportal/?c=ACSetting&a=Login&wlanuserip="@ + ipv4_chars(ip)
        + "&wlanacip=10.255.252.150"@
}

pub fn fetch_ip_url() -> (r: String)
    ensures
        r@ == fetch_ip_url_chars(),
{
    String::from_str("http://10.10.244.11/")
}

pub fn check_status_url(ip: &Ipv4Addr) -> (r: String)
    ensures
        r@ == check_status_url_chars(*ip),
{
    let mut s = String::from_str(
        "http://10.10.244.11:801/eportal/?c=ACSetting&a=checkScanIP&wlanuserip=",
    );
    let t = ipv4_string(ip);
    s.append(t.as_str());
    s
}

pub fn login_url(ip: &Ipv4Addr) -> (r: String)
    ensures
        r@ == login_url_chars(*ip),
{
    let mut s = String::from_str("http://10.10.244.11:801/eportal/?c=ACSetting&a=Login&wlanuserip=");
    let t = ipv4_string(ip);
    s.append(t.as_str());
    s.append("&wlanacip=10.255.252.150");
    s
}

/// The form field that carries the account in the login POST.
pub fn account_field() -> (r: &'static str)
    ensures
        r@ == "DDDDD"@,
{
    "DDDDD"
}

/// The form field that carries the password in the login POST.
pub fn password_field() -> (r: &'static str)
    ensures
        r@ == "upass"@,
{
    "upass"
}

} // verus!
