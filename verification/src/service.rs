//! Service bookkeeping: a descriptive record of the provider and a liveness
//! probe. This is no part of the authentication core's security argument.

use vstd::prelude::*;

verus! {

/// A descriptive record of the provider service.
pub struct ServiceInfo {
    pub name: String,
    pub version: String,
    pub status: String,
}

/// The service's record with its fixed name and version and the operational
/// status.
pub fn get_service_info() -> (r: ServiceInfo)
    ensures
        r.name@ == "ic_siwb_provider"@,
        r.version@ == "0.1.0"@,
        r.status@ == "operational"@,
{
    ServiceInfo {
        name: "ic_siwb_provider".to_owned(),
        version: "0.1.0".to_owned(),
        status: "operational".to_owned(),
    }
}

/// The service's record with its fixed name and version and the given status.
pub fn set_status(new_status: String) -> (r: ServiceInfo)
    ensures
        r.name@ == "ic_siwb_provider"@,
        r.version@ == "0.1.0"@,
        r.status@ == new_status@,
{
    ServiceInfo { name: "ic_siwb_provider".to_owned(), version: "0.1.0".to_owned(), status: new_status }
}

/// Liveness probe.
pub fn ping() -> (r: String)
    ensures
        r@ == "pong"@,
{
    "pong".to_owned()
}

} // verus!
