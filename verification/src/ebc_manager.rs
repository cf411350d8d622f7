use vstd::prelude::*;

use crate::config::EbcConfig;
use crate::ebc::constants::{DeviceType, OUTBOUND_FRAME_SIZE};
use crate::ebc::device_capabilities::{ebc_a20_limits, CapabilityError, CapabilityLimits, DeviceCapabilities};
use crate::ebc::device_command::{
    command_frame, lemma_command_frame_carries_command, spec_command_frame, spec_device_command_byte,
    spec_device_command_values, DeviceCommand,
};
use crate::ebc::frame::{spec_outbound_bytes, InboundFrame};
use crate::ebc::report::FirmwareReport;

verus! {

/// A report of a connected device, as handed to subscribers.
#[derive(Clone, Debug)]
pub struct EbcEvent {
    pub frame: InboundFrame,
}

/// What is known of a connected device.
#[derive(Clone, Debug)]
pub struct DeviceInfo {
    pub device_type: DeviceType,
    pub fw_version: String,
    pub capabilities: DeviceCapabilities,
}

/// The plain values of a `DeviceInfo`.
pub struct DeviceInfoView {
    pub device_type: DeviceType,
    pub fw_version: Seq<char>,
    pub capabilities: CapabilityLimits,
}

impl View for DeviceInfo {
    type V = DeviceInfoView;

    open spec fn view(&self) -> DeviceInfoView {
        DeviceInfoView {
            device_type: self.device_type,
            fw_version: self.fw_version@,
            capabilities: self.capabilities@,
        }
    }
}

impl DeviceInfo {
    /// A copy of the device information.
    pub fn duplicate(&self) -> (c: Self)
        ensures
            c@ == self@,
    {
        DeviceInfo {
            device_type: self.device_type,
            fw_version: self.fw_version.clone(),
            capabilities: self.capabilities,
        }
    }
}

/// A connected device as the manager sees it: its id, what is known of it
/// and the last report it sent.
pub struct ManagedView {
    pub id: Seq<char>,
    pub info: DeviceInfoView,
    pub latest_report: InboundFrame,
}

struct ManagedEbc {
    id: String,
    info: DeviceInfo,
    latest_report: InboundFrame,
}

impl ManagedEbc {
    spec fn view_of(&self) -> ManagedView {
        ManagedView { id: self.id@, info: self.info@, latest_report: self.latest_report }
    }
}

/// No two connected devices share an id.
pub open spec fn spec_ids_unique(devs: Seq<ManagedView>) -> bool {
    forall|i: int, j: int| 0 <= i < j < devs.len() ==> #[trigger] devs[i].id != #[trigger] devs[j].id
}

/// The position of the connected device `id`, if it is connected.
pub open spec fn spec_index_of(devs: Seq<ManagedView>, id: Seq<char>) -> Option<int> {
    if exists|i: int| 0 <= i < devs.len() && #[trigger] devs[i].id == id {
        Some(choose|i: int| 0 <= i < devs.len() && #[trigger] devs[i].id == id)
    } else {
        None
    }
}

/// The port configured for device `id`: the first entry with that id.
pub open spec fn spec_config_port(configs: Seq<(Seq<char>, Seq<char>)>, id: Seq<char>) -> Option<Seq<char>>
    decreases configs.len(),
{
    if configs.len() == 0 {
        None
    } else if configs[0].0 == id {
        Some(configs[0].1)
    } else {
        spec_config_port(configs.drop_first(), id)
    }
}

/// What is known of a device after its first firmware report.
pub open spec fn spec_info_of(report: FirmwareReport) -> DeviceInfoView {
    DeviceInfoView {
        device_type: report.device_type,
        fw_version: report.firmware_version@,
        capabilities: ebc_a20_limits(),
    }
}

/// The connected devices after device `id` connected and reported `report`.
pub open spec fn spec_register(devs: Seq<ManagedView>, id: Seq<char>, report: FirmwareReport) -> Seq<ManagedView> {
    devs.push(
        ManagedView { id, info: spec_info_of(report), latest_report: InboundFrame::Firmware(report) },
    )
}

/// The connected devices after device `id` was disconnected.
pub open spec fn spec_disconnect(devs: Seq<ManagedView>, id: Seq<char>) -> Seq<ManagedView> {
    match spec_index_of(devs, id) {
        Some(i) => devs.remove(i),
        None => devs,
    }
}

/// The connected devices after device `id` sent `frame`.
pub open spec fn spec_record(devs: Seq<ManagedView>, id: Seq<char>, frame: InboundFrame) -> Seq<ManagedView> {
    match spec_index_of(devs, id) {
        Some(i) => devs.update(
            i,
            ManagedView { id: devs[i].id, info: devs[i].info, latest_report: frame },
        ),
        None => devs,
    }
}

/// The report that a status request for `id` is answered with, if `id` is
/// connected.
pub open spec fn spec_status_answer(devs: Seq<ManagedView>, id: Seq<char>) -> Option<InboundFrame> {
    match spec_index_of(devs, id) {
        Some(i) => Some(devs[i].latest_report),
        None => None,
    }
}

/// Why the manager refuses a request.
#[derive(Debug)]
pub enum ManagerError {
    AlreadyConnected,
    ConfigMissing { id: String },
    NotConnected,
    Rejected(CapabilityError),
}

impl ManagerError {
    /// The message that tells the user why the request was refused.
    pub fn to_string(&self) -> (s: String)
        ensures
            s@ == match self {
                ManagerError::AlreadyConnected => "The given id is already connected!"@,
                ManagerError::ConfigMissing { id } => "This config doesn't exist: "@ + id@,
                ManagerError::NotConnected => "The given id is not connected!"@,
                ManagerError::Rejected(e) => crate::ebc::device_capabilities::spec_capability_error_message(*e),
            },
    {
        match self {
            ManagerError::AlreadyConnected => String::from_str("The given id is already connected!"),
            ManagerError::ConfigMissing { id } => {
                let mut s = String::from_str("This config doesn't exist: ");
                s.append(id.as_str());
                s
            },
            ManagerError::NotConnected => String::from_str("The given id is not connected!"),
            ManagerError::Rejected(e) => e.to_string(),
        }
    }
}

/// A request to the device manager.
#[derive(Debug)]
pub enum ManagerRequest {
    Connect { id: String },
    Disconnect { id: String },
    Status { id: String },
    SubReports { id: String },
    Command { id: String, command: DeviceCommand },
}

/// What the caller has to do to carry out a request.
#[derive(Debug)]
pub enum ManagerAction {
    /// Answer the request with this error.
    Refuse(ManagerError),
    /// Open the serial port, send the connect frame and wait for the
    /// firmware report, then register the device.
    OpenDevice { port: String },
    /// The device was removed: send it the disconnect frame and close it.
    CloseDevice,
    /// Answer with the latest report.
    Status(EbcEvent),
    /// Subscribe the caller to the device's reports.
    Subscribe,
    /// Send these bytes to the device.
    Send([u8; OUTBOUND_FRAME_SIZE]),
}

/// The devices that are configured and those that are connected, with the
/// latest report of each.
pub struct EbcManagerState {
    configs: Vec<(String, EbcConfig)>,
    devices: Vec<ManagedEbc>,
}

impl View for EbcManagerState {
    type V = Seq<ManagedView>;

    closed spec fn view(&self) -> Seq<ManagedView> {
        self.devices@.map_values(|d: ManagedEbc| d.view_of())
    }
}

impl EbcManagerState {
    #[verifier::type_invariant]
    spec fn inv(&self) -> bool {
        spec_ids_unique(self@)
    }

    /// The configured devices: each id with its port.
    pub closed spec fn configs(&self) -> Seq<(Seq<char>, Seq<char>)> {
        self.configs@.map_values(|c: (String, EbcConfig)| (c.0@, c.1.port@))
    }

    /// A manager of the configured devices, none of them connected.
    pub fn new(configs: Vec<(String, EbcConfig)>) -> (s: Self)
        ensures
            s@ == Seq::<ManagedView>::empty(),
            s.configs() == configs@.map_values(|c: (String, EbcConfig)| (c.0@, c.1.port@)),
    {
        let s = EbcManagerState { configs, devices: Vec::new() };
        assert(s@ =~= Seq::<ManagedView>::empty());
        s
    }

    /// No two connected devices share an id.
    pub fn ids_unique(&self)
        ensures
            spec_ids_unique(self@),
    {
        proof {
            use_type_invariant(self);
        }
    }

    fn index_of(&self, id: &String) -> (r: Option<usize>)
        ensures
            match r {
                Some(i) => spec_index_of(self@, id@) == Some(i as int) && i < self@.len(),
                None => spec_index_of(self@, id@) is None,
            },
    {
        proof {
            use_type_invariant(self);
        }
        let mut i: usize = 0;
        while i < self.devices.len()
            invariant
                i <= self.devices@.len(),
                self@.len() == self.devices@.len(),
                spec_ids_unique(self@),
                forall|k: int| 0 <= k < i ==> (#[trigger] self@[k]).id != id@,
            decreases self.devices.len() - i,
        {
            assert(self@[i as int].id == self.devices@[i as int].id@);
            if self.devices[i].id == *id {
                proof {
                    let j = choose|j: int| 0 <= j < self@.len() && #[trigger] self@[j].id == id@;
                    if j != i {
                        if j < i {
                            assert(self@[j].id != self@[i as int].id);
                        } else {
                            assert(self@[i as int].id != self@[j].id);
                        }
                    }
                }
                return Some(i);
            }
            i = i + 1;
        }
        None
    }

    fn config_port(&self, id: &String) -> (r: Option<String>)
        ensures
            match r {
                Some(p) => spec_config_port(self.configs(), id@) == Some(p@),
                None => spec_config_port(self.configs(), id@) is None,
            },
    {
        let ghost all = self.configs();
        let mut i: usize = 0;
        assert(all.skip(0) =~= all);
        while i < self.configs.len()
            invariant
                i <= self.configs@.len(),
                all == self.configs(),
                all.len() == self.configs@.len(),
                spec_config_port(all, id@) == spec_config_port(all.skip(i as int), id@),
            decreases self.configs.len() - i,
        {
            let ghost rest = all.skip(i as int);
            assert(rest[0] == (self.configs@[i as int].0@, self.configs@[i as int].1.port@));
            assert(rest.drop_first() =~= all.skip(i + 1));
            if self.configs[i].0 == *id {
                return Some(self.configs[i].1.port.clone());
            }
            i = i + 1;
        }
        None
    }

    /// Decides what a request needs: a refusal, a device to open or close,
    /// an answer, a subscription or bytes to send. Only a disconnect of a
    /// connected device changes the state; connecting takes a second step,
    /// `register`, once the device has answered.
    pub fn decide(&mut self, request: &ManagerRequest) -> (action: ManagerAction)
        ensures
            final(self).configs() == old(self).configs(),
            match request {
                ManagerRequest::Connect { id } => {
                    &&& final(self)@ == old(self)@
                    &&& if spec_index_of(old(self)@, id@) is Some {
                        action matches ManagerAction::Refuse(ManagerError::AlreadyConnected)
                    } else if spec_config_port(old(self).configs(), id@) is None {
                        action matches ManagerAction::Refuse(ManagerError::ConfigMissing { id: x })
                            && x@ == id@
                    } else {
                        action matches ManagerAction::OpenDevice { port } && Some(port@)
                            == spec_config_port(old(self).configs(), id@)
                    }
                },
                ManagerRequest::Disconnect { id } => if spec_index_of(old(self)@, id@) is Some {
                    &&& action matches ManagerAction::CloseDevice
                    &&& final(self)@ == spec_disconnect(old(self)@, id@)
                } else {
                    &&& action matches ManagerAction::Refuse(ManagerError::NotConnected)
                    &&& final(self)@ == old(self)@
                },
                ManagerRequest::Status { id } => {
                    &&& final(self)@ == old(self)@
                    &&& match spec_status_answer(old(self)@, id@) {
                        Some(f) => action matches ManagerAction::Status(e) && e.frame == f,
                        None => action matches ManagerAction::Refuse(ManagerError::NotConnected),
                    }
                },
                ManagerRequest::SubReports { id } => {
                    &&& final(self)@ == old(self)@
                    &&& if spec_index_of(old(self)@, id@) is Some {
                        action matches ManagerAction::Subscribe
                    } else {
                        action matches ManagerAction::Refuse(ManagerError::NotConnected)
                    }
                },
                ManagerRequest::Command { id, command } => {
                    &&& final(self)@ == old(self)@
                    &&& match spec_index_of(old(self)@, id@) {
                        None => action matches ManagerAction::Refuse(ManagerError::NotConnected),
                        Some(i) => match spec_command_frame(old(self)@[i].info.capabilities, *command) {
                            Ok(k) => action matches ManagerAction::Send(b) && b@ == spec_outbound_bytes(k)
                                && b@[1] == spec_device_command_byte(*command)
                                && 240 * b@[2] + b@[3] == spec_device_command_values(*command).0
                                && 240 * b@[4] + b@[5] == spec_device_command_values(*command).1
                                && 240 * b@[6] + b@[7] == spec_device_command_values(*command).2,
                            Err(e) => action matches ManagerAction::Refuse(ManagerError::Rejected(x)) && x == e,
                        },
                    }
                },
            },
    {
        proof {
            use_type_invariant(&*self);
        }
        match request {
            ManagerRequest::Connect { id } => {
                if self.index_of(id).is_some() {
                    return ManagerAction::Refuse(ManagerError::AlreadyConnected);
                }
                match self.config_port(id) {
                    None => ManagerAction::Refuse(ManagerError::ConfigMissing { id: id.clone() }),
                    Some(port) => ManagerAction::OpenDevice { port },
                }
            },
            ManagerRequest::Disconnect { id } => {
                match self.index_of(id) {
                    None => ManagerAction::Refuse(ManagerError::NotConnected),
                    Some(i) => {
                        let ghost before = self@;
                        let mut devices: Vec<ManagedEbc> = Vec::new();
                        std::mem::swap(&mut devices, &mut self.devices);
                        devices.remove(i);
                        proof {
                            let after = devices@.map_values(|d: ManagedEbc| d.view_of());
                            assert(after =~= before.remove(i as int));
                            assert forall|a: int, b: int| 0 <= a < b < after.len() implies
                                #[trigger] after[a].id != #[trigger] after[b].id by {
                                let aa = if a < i { a } else { a + 1 };
                                let bb = if b < i { b } else { b + 1 };
                                assert(before[aa].id != before[bb].id);
                            }
                        }
                        self.devices = devices;
                        ManagerAction::CloseDevice
                    },
                }
            },
            ManagerRequest::Status { id } => {
                match self.index_of(id) {
                    None => ManagerAction::Refuse(ManagerError::NotConnected),
                    Some(i) => {
                        assert(self@[i as int].latest_report == self.devices@[i as int].latest_report);
                        ManagerAction::Status(EbcEvent { frame: self.devices[i].latest_report.duplicate() })
                    },
                }
            },
            ManagerRequest::SubReports { id } => {
                match self.index_of(id) {
                    None => ManagerAction::Refuse(ManagerError::NotConnected),
                    Some(_) => ManagerAction::Subscribe,
                }
            },
            ManagerRequest::Command { id, command } => {
                match self.index_of(id) {
                    None => ManagerAction::Refuse(ManagerError::NotConnected),
                    Some(i) => {
                        assert(self@[i as int].info.capabilities == self.devices@[i as int].info.capabilities@);
                        let capabilities = &self.devices[i].info.capabilities;
                        capabilities.limits_fit_frames();
                        proof {
                            lemma_command_frame_carries_command(capabilities@, *command);
                        }
                        match command_frame(*command, capabilities) {
                            Ok(frame) => ManagerAction::Send(frame.into_bytes()),
                            Err(e) => ManagerAction::Refuse(ManagerError::Rejected(e)),
                        }
                    },
                }
            },
        }
    }

    /// Adds device `id` once it has sent its first firmware report, and
    /// gives what is known of it.
    pub fn register(&mut self, id: String, report: FirmwareReport) -> (info: DeviceInfo)
        requires
            spec_index_of(old(self)@, id@) is None,
            report.device_type == DeviceType::EbcA20,
        ensures
            final(self)@ == spec_register(old(self)@, id@, report),
            final(self).configs() == old(self).configs(),
            info@ == spec_info_of(report),
    {
        proof {
            use_type_invariant(&*self);
        }
        let ghost before = self@;
        let info = DeviceInfo {
            device_type: report.device_type,
            fw_version: report.firmware_version.clone(),
            capabilities: DeviceCapabilities::from(report.device_type),
        };
        let result = info.duplicate();
        let entry = ManagedEbc { id, info, latest_report: InboundFrame::Firmware(report) };
        let mut devices: Vec<ManagedEbc> = Vec::new();
        std::mem::swap(&mut devices, &mut self.devices);
        let ghost new_id = entry.id@;
        devices.push(entry);
        proof {
            let after = devices@.map_values(|d: ManagedEbc| d.view_of());
            assert(after =~= spec_register(before, new_id, report));
            assert forall|a: int, b: int| 0 <= a < b < after.len() implies
                #[trigger] after[a].id != #[trigger] after[b].id by {
                if b == after.len() - 1 {
                    assert(before[a].id != new_id);
                } else {
                    assert(before[a].id != before[b].id);
                }
            }
        }
        self.devices = devices;
        result
    }

    /// Notes `frame` as the latest report of device `id`.
    pub fn record_frame(&mut self, id: &String, frame: InboundFrame)
        ensures
            final(self)@ == spec_record(old(self)@, id@, frame),
            final(self).configs() == old(self).configs(),
    {
        proof {
            use_type_invariant(&*self);
        }
        match self.index_of(id) {
            None => {},
            Some(i) => {
                let ghost before = self@;
                let mut devices: Vec<ManagedEbc> = Vec::new();
                std::mem::swap(&mut devices, &mut self.devices);
                let mut entry = devices.remove(i);
                entry.latest_report = frame;
                devices.insert(i, entry);
                proof {
                    let after = devices@.map_values(|d: ManagedEbc| d.view_of());
                    assert(after =~= spec_record(before, id@, frame));
                    assert forall|a: int, b: int| 0 <= a < b < after.len() implies
                        #[trigger] after[a].id != #[trigger] after[b].id by {
                        assert(before[a].id != before[b].id);
                    }
                }
                self.devices = devices;
            },
        }
    }
}


proof fn lemma_index_of_found(devs: Seq<ManagedView>, id: Seq<char>, i: int)
    requires
        spec_ids_unique(devs),
        0 <= i < devs.len(),
        devs[i].id == id,
    ensures
        spec_index_of(devs, id) == Some(i),
{
    let j = choose|j: int| 0 <= j < devs.len() && #[trigger] devs[j].id == id;
    if j < i {
        assert(devs[j].id != devs[i].id);
    } else if i < j {
        assert(devs[i].id != devs[j].id);
    }
}

/// A device that connected answers a status request with its firmware
/// report, and the ids of the connected devices stay unique.
pub proof fn lemma_status_after_register(devs: Seq<ManagedView>, id: Seq<char>, report: FirmwareReport)
    requires
        spec_ids_unique(devs),
        spec_index_of(devs, id) is None,
    ensures
        spec_ids_unique(spec_register(devs, id, report)),
        spec_status_answer(spec_register(devs, id, report), id) == Some(InboundFrame::Firmware(report)),
{
    let after = spec_register(devs, id, report);
    assert forall|a: int, b: int| 0 <= a < b < after.len() implies #[trigger] after[a].id
        != #[trigger] after[b].id by {
        if b == after.len() - 1 {
            assert(devs[a].id != id);
        } else {
            assert(devs[a].id != devs[b].id);
        }
    }
    lemma_index_of_found(after, id, devs.len() as int);
}

/// A status request is answered with the report that the device sent last;
/// the answers for other devices stay as they were.
pub proof fn lemma_status_after_record(
    devs: Seq<ManagedView>,
    id: Seq<char>,
    frame: InboundFrame,
    other: Seq<char>,
)
    requires
        spec_ids_unique(devs),
        spec_index_of(devs, id) is Some,
        other != id,
    ensures
        spec_ids_unique(spec_record(devs, id, frame)),
        spec_status_answer(spec_record(devs, id, frame), id) == Some(frame),
        spec_status_answer(spec_record(devs, id, frame), other) == spec_status_answer(devs, other),
{
    let i = spec_index_of(devs, id).unwrap();
    let after = spec_record(devs, id, frame);
    assert(devs[i].id == id);
    assert forall|a: int, b: int| 0 <= a < b < after.len() implies #[trigger] after[a].id
        != #[trigger] after[b].id by {
        assert(devs[a].id != devs[b].id);
    }
    lemma_index_of_found(after, id, i);
    if spec_index_of(devs, other) is Some {
        let k = spec_index_of(devs, other).unwrap();
        assert(devs[k].id == other);
        lemma_index_of_found(after, other, k);
    } else {
        assert forall|k: int| 0 <= k < after.len() implies #[trigger] after[k].id != other by {
            if after[k].id == other {
                assert(devs[k].id == other);
            }
        }
    }
}

/// A disconnected device is no longer connected: later requests for it are
/// refused. The other devices stay connected with their reports.
pub proof fn lemma_disconnect_removes(devs: Seq<ManagedView>, id: Seq<char>, other: Seq<char>)
    requires
        spec_ids_unique(devs),
        other != id,
    ensures
        spec_ids_unique(spec_disconnect(devs, id)),
        spec_index_of(spec_disconnect(devs, id), id) is None,
        spec_status_answer(spec_disconnect(devs, id), other) == spec_status_answer(devs, other),
{
    let after = spec_disconnect(devs, id);
    match spec_index_of(devs, id) {
        None => {},
        Some(i) => {
            assert(devs[i].id == id);
            assert forall|a: int, b: int| 0 <= a < b < after.len() implies #[trigger] after[a].id
                != #[trigger] after[b].id by {
                let aa = if a < i { a } else { a + 1 };
                let bb = if b < i { b } else { b + 1 };
                assert(devs[aa].id != devs[bb].id);
            }
            assert forall|k: int| 0 <= k < after.len() implies #[trigger] after[k].id != id by {
                let kk = if k < i { k } else { k + 1 };
                if kk != i {
                    assert(devs[kk].id != devs[i].id);
                }
            }
            if spec_index_of(devs, other) is Some {
                let k = spec_index_of(devs, other).unwrap();
                assert(devs[k].id == other);
                let kk = if k < i { k } else { k - 1 };
                assert(after[kk] == devs[k]);
                lemma_index_of_found(after, other, kk);
            } else {
                assert forall|k: int| 0 <= k < after.len() implies #[trigger] after[k].id != other by {
                    let kk = if k < i { k } else { k + 1 };
                    assert(after[k] == devs[kk]);
                }
            }
        },
    }
}

} // verus!
