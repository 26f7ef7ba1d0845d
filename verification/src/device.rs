//! The device model: one controllable smart plug, its cached tri-state
//! power and connectivity status, and the decision rules for the read and
//! write operations. The embedding application performs each HTTP exchange
//! these rules call for and feeds the observed outcome back in.
use crate::account::VeSyncAccount;
use crate::error::VeSyncError;
use vstd::prelude::*;

verus! {

/// Cached power status. `Unknown` exists only for locally-constructed
/// devices that have not been queried yet; the server never reports it.
#[derive(Debug, Clone, Copy, PartialEq, Eq, Structural)]
pub enum Status {
    Unknown,
    On,
    Off,
}

/// Cached connectivity status. As with `Status`, `Unknown` is local only.
#[derive(Debug, Clone, Copy, PartialEq, Eq, Structural)]
pub enum ConnectionStatus {
    Unknown,
    Online,
    Offline,
}

/// Whether a wire literal is a valid power status: exactly `on` or `off`.
pub open spec fn status_literal_ok(s: Seq<char>) -> bool {
    s == "on"@ || s == "off"@
}

/// The power status a valid wire literal decodes to; an invalid literal
/// maps to `Unknown`, which `status_literal_ok` rules out.
pub open spec fn parse_status(s: Seq<char>) -> Status {
    if s == "on"@ {
        Status::On
    } else if s == "off"@ {
        Status::Off
    } else {
        Status::Unknown
    }
}

/// Whether a wire literal is a valid connectivity status: exactly
/// `online` or `offline`.
pub open spec fn connection_literal_ok(s: Seq<char>) -> bool {
    s == "online"@ || s == "offline"@
}

/// The connectivity status a valid wire literal decodes to; an invalid
/// literal maps to `Unknown`, which `connection_literal_ok` rules out.
pub open spec fn parse_connection(s: Seq<char>) -> ConnectionStatus {
    if s == "online"@ {
        ConnectionStatus::Online
    } else if s == "offline"@ {
        ConnectionStatus::Offline
    } else {
        ConnectionStatus::Unknown
    }
}

impl Status {
    /// Decodes a wire power-status literal; anything but `on` or `off`
    /// is a decode failure, never a silent `Unknown`.
    pub fn from_literal(s: &str) -> (r: Result<Status, VeSyncError>)
        ensures
            r is Ok <==> status_literal_ok(s@),
            r matches Ok(st) ==> st == parse_status(s@) && st != Status::Unknown,
            r matches Err(e) ==> e == VeSyncError::Decode,
    {
        let owned = s.to_owned();
        if owned == String::from_str("on") {
            Ok(Status::On)
        } else if owned == String::from_str("off") {
            Ok(Status::Off)
        } else {
            Err(VeSyncError::Decode)
        }
    }
}

impl ConnectionStatus {
    /// Decodes a wire connectivity literal; anything but `online` or
    /// `offline` is a decode failure.
    pub fn from_literal(s: &str) -> (r: Result<ConnectionStatus, VeSyncError>)
        ensures
            r is Ok <==> connection_literal_ok(s@),
            r matches Ok(c) ==> c == parse_connection(s@) && c != ConnectionStatus::Unknown,
            r matches Err(e) ==> e == VeSyncError::Decode,
    {
        let owned = s.to_owned();
        if owned == String::from_str("online") {
            Ok(ConnectionStatus::Online)
        } else if owned == String::from_str("offline") {
            Ok(ConnectionStatus::Offline)
        } else {
            Err(VeSyncError::Decode)
        }
    }
}

/// One device record of the directory listing as the wire carries it,
/// with its enumerated fields still raw literals.
pub struct DeviceResponse {
    /// Plaintext name of the device.
    pub deviceName: String,
    /// A URL.
    pub deviceImg: String,
    /// Vendor-assigned unique device identifier.
    pub cid: String,
    /// Power status literal; only `on` or `off` decodes.
    pub deviceStatus: String,
    /// E.g. 'wifi'.
    pub connectionType: String,
    /// Connectivity literal; only `online` or `offline` decodes.
    pub connectionStatus: String,
    /// E.g. 'wifi-switch-1.3'.
    pub deviceType: String,
    /// E.g. 'wifi-switch'.
    pub model: String,
    /// E.g. '1.99'.
    pub currentFirmVersion: String,
}

/// Whether a listing record decodes: both enumerated literals valid.
pub open spec fn record_ok(r: DeviceResponse) -> bool {
    status_literal_ok(r.deviceStatus@) && connection_literal_ok(r.connectionStatus@)
}

/// The device a well-formed listing record yields, bound to `account`:
/// every field carried over verbatim.
pub open spec fn device_of_record(account: VeSyncAccount, r: DeviceResponse) -> VeSyncDevice {
    VeSyncDevice {
        deviceName: r.deviceName,
        cid: r.cid,
        deviceStatus: parse_status(r.deviceStatus@),
        connectionStatus: parse_connection(r.connectionStatus@),
        account: account,
    }
}

/// What a directory listing returns for a decoded sequence of records:
/// all-or-nothing. Every record well-formed yields exactly one device per
/// record, fields verbatim; any malformed record fails the whole call
/// with a decode error.
pub open spec fn listing_post(
    account: VeSyncAccount,
    records: Seq<DeviceResponse>,
    r: Result<Vec<VeSyncDevice>, VeSyncError>,
) -> bool {
    &&& (r is Ok <==> (forall|i: int| 0 <= i < records.len() ==> record_ok(records[i])))
    &&& (r matches Ok(ds) ==> ds@.len() == records.len() && (forall|i: int|
        0 <= i < records.len() ==> ds@[i] == device_of_record(account, records[i])))
    &&& (r matches Err(e) ==> e == VeSyncError::Decode)
}

/// The wire literal a power state is written as in a command path.
pub open spec fn status_path_literal(desired: Status) -> Seq<char> {
    match desired {
        Status::On => "on"@,
        Status::Off => "off"@,
        Status::Unknown => Seq::<char>::empty(),
    }
}

/// Relative path of the PUT that switches a device to `desired`. The
/// device-type segment is hard-coded to one fixed tag: the listing's
/// device-type field is not used to select it, a known limitation.
pub open spec fn put_path_spec(cid: Seq<char>, desired: Status) -> Seq<char> {
    "/v1/wifi-switch-1.3/"@ + cid + "/status/"@ + status_path_literal(desired)
}

/// Relative path of the detail read for a device.
pub open spec fn detail_path_spec(cid: Seq<char>) -> Seq<char> {
    "/v1/device/"@ + cid + "/detail"@
}

/// Relative path of the weekly-energy read for a device.
pub open spec fn energy_week_path_spec(cid: Seq<char>) -> Seq<char> {
    "/v1/device/"@ + cid + "/energy/week"@
}

/// Relative path of the configuration read for a device.
pub open spec fn configurations_path_spec(cid: Seq<char>) -> Seq<char> {
    "/v1/device/"@ + cid + "/configurations"@
}

/// One network write the library asks the application to perform: a PUT
/// to the given relative path, meant to switch the device to `desired`.
pub struct PowerCommand {
    pub path: String,
    pub desired: Status,
}

/// What a toggle asks for next: either one write, or one detail read to
/// resolve an `Unknown` cached status first.
pub enum ToggleAction {
    /// Perform this PUT, then report the outcome through `apply_power`.
    Send(PowerCommand),
    /// GET this relative detail path, then report the decoded power
    /// status literal through `update`, and ask again.
    Refresh(String),
}

/// The state a toggle drives a device with a known status to.
pub open spec fn toggle_desired(s: Status) -> Status {
    match s {
        Status::On => Status::Off,
        Status::Off => Status::On,
        Status::Unknown => Status::Unknown,
    }
}

/// One controllable device, bound to the session that authorized it.
pub struct VeSyncDevice {
    pub deviceName: String,
    /// Vendor-assigned unique device identifier.
    pub cid: String,
    pub deviceStatus: Status,
    pub connectionStatus: ConnectionStatus,
    /// The session whose credentials authorize this device's calls.
    pub account: VeSyncAccount,
}

impl VeSyncDevice {
    /// A locally-constructed device: identity only, both statuses pending
    /// a refresh.
    pub fn from_id(account: &VeSyncAccount, cid: &str) -> (d: VeSyncDevice)
        ensures
            d.deviceName@ == Seq::<char>::empty(),
            d.cid@ == cid@,
            d.deviceStatus == Status::Unknown,
            d.connectionStatus == ConnectionStatus::Unknown,
            d.account == *account,
    {
        VeSyncDevice {
            deviceName: String::new(),
            cid: cid.to_owned(),
            deviceStatus: Status::Unknown,
            connectionStatus: ConnectionStatus::Unknown,
            account: account.duplicate(),
        }
    }

    /// Whether reaching `desired` takes a network write: only when the
    /// cached status already equals it is the write skipped.
    pub open spec fn needs_write(self, desired: Status) -> bool {
        self.deviceStatus != desired
    }

    /// This device with its cached power status replaced; nothing else
    /// changes.
    pub open spec fn with_status(self, s: Status) -> VeSyncDevice {
        VeSyncDevice { deviceStatus: s, ..self }
    }

    /// The PUT path that switches this device to `desired`.
    pub fn put_path(&self, desired: Status) -> (p: String)
        requires
            desired != Status::Unknown,
        ensures
            p@ == put_path_spec(self.cid@, desired),
    {
        let mut p = String::from_str("/v1/wifi-switch-1.3/");
        p.append(self.cid.as_str());
        p.append("/status/");
        if let Status::On = desired {
            p.append("on");
        } else {
            p.append("off");
        }
        proof {
            assert(p@ =~= put_path_spec(self.cid@, desired));
        }
        p
    }

    /// The GET path of this device's detail read.
    pub fn detail_path(&self) -> (p: String)
        ensures
            p@ == detail_path_spec(self.cid@),
    {
        let mut p = String::from_str("/v1/device/");
        p.append(self.cid.as_str());
        p.append("/detail");
        proof {
            assert(p@ =~= detail_path_spec(self.cid@));
        }
        p
    }

    /// The GET path of this device's weekly-energy read.
    pub fn energy_week_path(&self) -> (p: String)
        ensures
            p@ == energy_week_path_spec(self.cid@),
    {
        let mut p = String::from_str("/v1/device/");
        p.append(self.cid.as_str());
        p.append("/energy/week");
        proof {
            assert(p@ =~= energy_week_path_spec(self.cid@));
        }
        p
    }

    /// The GET path of this device's configuration read.
    pub fn configurations_path(&self) -> (p: String)
        ensures
            p@ == configurations_path_spec(self.cid@),
    {
        let mut p = String::from_str("/v1/device/");
        p.append(self.cid.as_str());
        p.append("/configurations");
        proof {
            assert(p@ =~= configurations_path_spec(self.cid@));
        }
        p
    }

    /// The write, if any, that turns this device on: none when the cached
    /// status is already `On` (the idempotent short-circuit, which trusts
    /// the cache — a known staleness risk when the device was switched
    /// out-of-band), otherwise exactly the `on` command for this device.
    pub fn device_on(&self) -> (r: Option<PowerCommand>)
        ensures
            r is Some <==> self.needs_write(Status::On),
            r matches Some(c) ==> c.desired == Status::On && c.path@ == put_path_spec(
                self.cid@,
                Status::On,
            ),
    {
        match self.deviceStatus {
            Status::On => None,
            _ => Some(PowerCommand { path: self.put_path(Status::On), desired: Status::On }),
        }
    }

    /// The write, if any, that turns this device off; the mirror image of
    /// `device_on`.
    pub fn device_off(&self) -> (r: Option<PowerCommand>)
        ensures
            r is Some <==> self.needs_write(Status::Off),
            r matches Some(c) ==> c.desired == Status::Off && c.path@ == put_path_spec(
                self.cid@,
                Status::Off,
            ),
    {
        match self.deviceStatus {
            Status::Off => None,
            _ => Some(PowerCommand { path: self.put_path(Status::Off), desired: Status::Off }),
        }
    }

    /// What toggling asks for next: from a known status, the one write to
    /// the opposite state; from `Unknown`, one detail read first.
    pub fn device_toggle(&self) -> (r: ToggleAction)
        ensures
            self.deviceStatus != Status::Unknown ==> (r matches ToggleAction::Send(c)
                && c.desired == toggle_desired(self.deviceStatus) && c.path@ == put_path_spec(
                self.cid@,
                toggle_desired(self.deviceStatus),
            )),
            self.deviceStatus == Status::Unknown ==> (r matches ToggleAction::Refresh(p) && p@
                == detail_path_spec(self.cid@)),
    {
        match self.deviceStatus {
            Status::On => ToggleAction::Send(
                PowerCommand { path: self.put_path(Status::Off), desired: Status::Off },
            ),
            Status::Off => ToggleAction::Send(
                PowerCommand { path: self.put_path(Status::On), desired: Status::On },
            ),
            Status::Unknown => ToggleAction::Refresh(self.detail_path()),
        }
    }

    /// Folds the outcome of a power write back into the cache: only a
    /// confirmed success moves the cached status to `desired`; on failure
    /// the device is unchanged and the call fails as a command error.
    pub fn apply_power(&mut self, desired: Status, confirmed: bool) -> (r: Result<
        (),
        VeSyncError,
    >)
        requires
            desired != Status::Unknown,
        ensures
            confirmed ==> r is Ok && *final(self) == old(self).with_status(desired),
            !confirmed ==> (r matches Err(e) && e == VeSyncError::Command) && *final(self)
                == *old(self),
    {
        if confirmed {
            self.deviceStatus = desired;
            Ok(())
        } else {
            Err(VeSyncError::Command)
        }
    }

    /// Refreshes the cached power status from a freshly fetched detail
    /// record's status literal. A valid literal overwrites the cache and
    /// never leaves it `Unknown`; anything else is a fetch failure that
    /// leaves the device unchanged. Connectivity status is not touched.
    pub fn update(&mut self, device_status: &str) -> (r: Result<(), VeSyncError>)
        ensures
            status_literal_ok(device_status@) ==> r is Ok && *final(self) == old(
                self,
            ).with_status(parse_status(device_status@)) && final(self).deviceStatus
                != Status::Unknown,
            !status_literal_ok(device_status@) ==> (r matches Err(e) && e == VeSyncError::Fetch)
                && *final(self) == *old(self),
    {
        match Status::from_literal(device_status) {
            Ok(st) => {
                self.deviceStatus = st;
                Ok(())
            },
            Err(_) => Err(VeSyncError::Fetch),
        }
    }

    /// Decodes a directory listing for `account`: one device per record,
    /// fields verbatim, or a decode error if any record is malformed —
    /// partial success is not supported.
    pub fn get_devices(account: &VeSyncAccount, records: &Vec<DeviceResponse>) -> (r: Result<
        Vec<VeSyncDevice>,
        VeSyncError,
    >)
        ensures
            listing_post(*account, records@, r),
    {
        let mut devices: Vec<VeSyncDevice> = Vec::new();
        let mut idx: usize = 0;
        while idx < records.len()
            invariant
                idx <= records@.len(),
                devices@.len() == idx,
                forall|i: int| 0 <= i < idx ==> record_ok(records@[i]),
                forall|i: int|
                    0 <= i < idx ==> devices@[i] == device_of_record(*account, records@[i]),
            decreases records@.len() - idx,
        {
            let record = &records[idx];
            let device_status = match Status::from_literal(record.deviceStatus.as_str()) {
                Ok(st) => st,
                Err(_) => {
                    return Err(VeSyncError::Decode);
                },
            };
            let connection_status = match ConnectionStatus::from_literal(
                record.connectionStatus.as_str(),
            ) {
                Ok(c) => c,
                Err(_) => {
                    return Err(VeSyncError::Decode);
                },
            };
            devices.push(
                VeSyncDevice {
                    deviceName: record.deviceName.clone(),
                    cid: record.cid.clone(),
                    deviceStatus: device_status,
                    connectionStatus: connection_status,
                    account: account.duplicate(),
                },
            );
            idx = idx + 1;
        }
        Ok(devices)
    }
}

/// Law: setting a power state is idempotent. Once a confirmed write has
/// moved the cache to `desired`, a second request for `desired` needs no
/// network write.
pub proof fn lemma_set_power_idempotent(d: VeSyncDevice, desired: Status)
    requires
        desired != Status::Unknown,
    ensures
        !d.with_status(desired).needs_write(desired),
{
}

/// Law: toggling a device with a known power status takes exactly one
/// write, to the opposite state, and a confirmed write leaves the cache
/// at that opposite state.
pub proof fn lemma_toggle_inverts(d: VeSyncDevice)
    requires
        d.deviceStatus != Status::Unknown,
    ensures
        toggle_desired(d.deviceStatus) != Status::Unknown,
        toggle_desired(d.deviceStatus) != d.deviceStatus,
        d.needs_write(toggle_desired(d.deviceStatus)),
        d.with_status(toggle_desired(d.deviceStatus)).deviceStatus == Status::On <==> d.deviceStatus
            == Status::Off,
{
}

/// Law: toggling a device with an `Unknown` cached status takes exactly
/// one refresh read and then one write: a successful refresh always
/// leaves a known status, and toggling that status needs a write.
pub proof fn lemma_toggle_unknown_resolves(d: VeSyncDevice, literal: Seq<char>)
    requires
        d.deviceStatus == Status::Unknown,
        status_literal_ok(literal),
    ensures
        d.with_status(parse_status(literal)).deviceStatus != Status::Unknown,
        toggle_desired(d.with_status(parse_status(literal)).deviceStatus) != Status::Unknown,
        d.with_status(parse_status(literal)).needs_write(
            toggle_desired(d.with_status(parse_status(literal)).deviceStatus),
        ),
{
}

} // verus!
