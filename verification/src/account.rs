//! Credentials and derivation of the portal account identifier.

use vstd::prelude::*;

verus! {

/// The carrier/ISP selector. The set of carriers is closed: a value outside
/// these three variants cannot be constructed.
#[derive(Clone, Copy, PartialEq, Eq, Structural, Debug)]
pub enum IspType {
    EDU,
    CMCC,
    CT,
}

/// The credential loaded once at process start: raw user id, password, and
/// the carrier the account belongs to.
pub struct Credential {
    pub userid: String,
    pub password: String,
    pub isp: IspType,
}

/// The portal account string for a user id under a carrier: the id itself
/// for EDU, the id with a fixed carrier suffix for CMCC and CT.
pub open spec fn derived_chars(userid: Seq<char>, isp: IspType) -> Seq<char> {
    match isp {
        IspType::EDU => userid,
        IspType::CMCC => userid + "@cmcc"@,
        IspType::CT => userid + "@njxy"@,
    }
}

/// Derives the effective portal account from the raw user id and the
/// carrier. Total: every carrier maps to exactly one suffix.
pub fn derive_account(userid: &String, isp: IspType) -> (r: String)
    ensures
        r@ == derived_chars(userid@, isp),
{
    match isp {
        IspType::EDU => userid.clone(),
        IspType::CMCC => userid.clone().concat("@cmcc"),
        IspType::CT => userid.clone().concat("@njxy"),
    }
}

} // verus!
