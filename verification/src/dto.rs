//! Wire-shaped records exchanged with the vendor API: the login request
//! and response bodies, and the typed form of one device record.
use crate::hash::{hex_of, hexdigest, md5_of};
use vstd::prelude::*;

verus! {

/// Body of the login request: the account identifier, an empty
/// device-token placeholder, and the hashed password.
pub struct AccountRequest {
    /// The email address associated with the account.
    pub account: String,
    pub devToken: String,
    pub password: String,
}

impl AccountRequest {
    /// Builds the login request body for an account and a plaintext
    /// password; the password travels only as its hex MD5 digest.
    pub fn new(account: &str, password: &str) -> (r: AccountRequest)
        ensures
            r.account@ == account@,
            r.devToken@ == Seq::<char>::empty(),
            r.password@ == hex_of(md5_of(password@)),
            r.password@.len() == 32,
    {
        AccountRequest {
            account: account.to_owned(),
            devToken: String::new(),
            password: hexdigest(password),
        }
    }
}

/// Body of a successful login response. Only `tk` and `accountID` gate
/// anything; the rest is auxiliary metadata the server sends along.
pub struct AccountResponse {
    pub tk: String,
    pub accountID: String,
    pub nickName: String,
    /// A URL.
    pub avatarIcon: String,
    pub userType: i32,
    pub acceptLanguage: String,
    pub termsStatus: bool,
}

/// Power status exactly as the wire carries it: the server only ever
/// reports `on` or `off`.
#[allow(non_camel_case_types)]
#[derive(Debug, Clone, Copy, PartialEq, Eq, Structural)]
pub enum DeviceStatus {
    on,
    off,
}

/// Connectivity status exactly as the wire carries it.
#[allow(non_camel_case_types)]
#[derive(Debug, Clone, Copy, PartialEq, Eq, Structural)]
pub enum ConnectionStatus {
    online,
    offline,
}

/// One device record of the directory listing, with its enumerated
/// fields already decoded.
pub struct Device {
    /// Plaintext name of the device.
    pub deviceName: String,
    /// A URL.
    pub deviceImg: String,
    /// Vendor-assigned unique device identifier.
    pub cid: String,
    pub deviceStatus: DeviceStatus,
    /// E.g. 'wifi'.
    pub connectionType: String,
    pub connectionStatus: ConnectionStatus,
    /// E.g. 'wifi-switch-1.3'.
    pub deviceType: String,
    /// E.g. 'wifi-switch'.
    pub model: String,
    /// E.g. '1.99'.
    pub currentFirmVersion: String,
}

} // verus!
