//! The session: authentication token and account identifier obtained at
//! login, required by every subsequent call.
use crate::device::{listing_post, DeviceResponse, VeSyncDevice};
use crate::dto::AccountResponse;
use crate::error::VeSyncError;
use vstd::prelude::*;

verus! {

/// An authenticated session. Immutable once constructed; every device
/// operation borrows its two credentials.
#[derive(Debug)]
pub struct VeSyncAccount {
    /// Session authentication token.
    pub tk: String,
    /// Vendor-assigned account identifier.
    pub accountID: String,
}

impl VeSyncAccount {
    /// A session is well-formed when both credentials are non-empty; a
    /// session with an empty field is never constructed.
    pub open spec fn wf(self) -> bool {
        self.tk@.len() > 0 && self.accountID@.len() > 0
    }

    /// A fresh copy of the session, for a device to hold.
    pub fn duplicate(&self) -> (r: VeSyncAccount)
        ensures
            r == *self,
    {
        VeSyncAccount { tk: self.tk.clone(), accountID: self.accountID.clone() }
    }

    /// The session a decoded login response yields: its token and account
    /// identifier, verbatim. A response missing either credential is an
    /// authentication failure, and nothing is constructed from it.
    pub fn from_response(response: &AccountResponse) -> (r: Result<VeSyncAccount, VeSyncError>)
        ensures
            r is Ok <==> (response.tk@.len() > 0 && response.accountID@.len() > 0),
            r matches Ok(a) ==> a.tk == response.tk && a.accountID == response.accountID
                && a.wf(),
            r matches Err(e) ==> e == VeSyncError::Auth,
    {
        if response.tk.as_str().is_empty() || response.accountID.as_str().is_empty() {
            Err(VeSyncError::Auth)
        } else {
            Ok(
                VeSyncAccount {
                    tk: response.tk.clone(),
                    accountID: response.accountID.clone(),
                },
            )
        }
    }

    /// Decodes this session's directory listing: one device per record,
    /// bound to this session, or a decode error if any record is
    /// malformed.
    pub fn get_devices(&self, records: &Vec<DeviceResponse>) -> (r: Result<
        Vec<VeSyncDevice>,
        VeSyncError,
    >)
        ensures
            listing_post(*self, records@, r),
    {
        VeSyncDevice::get_devices(self, records)
    }
}

} // verus!
