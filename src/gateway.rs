use vstd::prelude::*;
use vstd::string::*;

verus! {

/// The production gateway, as `host:port`.
pub const APN_URL_PRODUCTION: &'static str = "api.push.apple.com:443";

/// The development (sandbox) gateway, as `host:port`.
pub const APN_URL_DEV: &'static str = "api.development.push.apple.com:443";

/// The gateway for the chosen environment.
pub open spec fn gateway_text(production: bool) -> Seq<char> {
    if production {
        APN_URL_PRODUCTION@
    } else {
        APN_URL_DEV@
    }
}

/// The gateway that connections go to: the production one when
/// `production` holds, the development one otherwise.
pub fn gateway(production: bool) -> (r: String)
    ensures
        r@ == gateway_text(production),
{
    if production {
        String::from_str(APN_URL_PRODUCTION)
    } else {
        String::from_str(APN_URL_DEV)
    }
}

} // verus!
