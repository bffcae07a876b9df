//! Bluetooth LE device model, the virtual test network and the request
//! handling state machine of the device manager.
use vstd::prelude::*;
use crate::keyed::KeyedList;
use crate::ieee::Real64;
use crate::text::{contains, decimal, digit_char, lacks, lemma_contains_middle, lemma_decimal_lacks, lemma_lacks_concat, lemma_lacks_first, str_contains};
use crate::zephyr::{
    command_string, command_text, lemma_record_text_one, lemma_record_text_two, CollarCommand, FeedingCommand, ZephyrCommand,
    ZephyrResponse,
};
use vstd::string::*;

verus! {

/// The JSON value type kept in a virtual device's state table.
#[verifier::external_type_specification]
#[verifier::external_body]
pub struct ExJsonValue(serde_json::Value);

/// Identifier of a device.
#[derive(Debug)]
pub struct DeviceId(pub String);

impl Clone for DeviceId {
    fn clone(&self) -> (r: Self)
        ensures
            r == *self,
    {
        DeviceId(self.0.clone())
    }
}

/// Kind of smart collar.
#[derive(Clone, Copy, Debug, PartialEq, Eq)]
pub enum CollarType {
    TrainingCollar,
    GPSCollar,
    HealthMonitor,
    SmartTag,
}

/// Sensor carried by an activity tracker.
#[derive(Clone, Copy, Debug, PartialEq, Eq)]
pub enum SensorType {
    Accelerometer,
    Gyroscope,
    HeartRate,
    Temperature,
    GPS,
    Microphone,
}

/// What a device is.
#[derive(Debug)]
pub enum BluetoothLEDeviceType {
    SmartCollar { collar_type: CollarType },
    FeedingStation { capacity_ml: u32 },
    ToyDispenser { toy_count: u8 },
    ActivityTracker { sensors: Vec<SensorType> },
    VirtualDevice { emulated_type: Box<BluetoothLEDeviceType> },
    TestDevice { device_name: String },
    Unknown { service_uuid: String },
}

/// Mathematical model of [`BluetoothLEDeviceType`].
pub enum DeviceTypeView {
    SmartCollar { collar_type: CollarType },
    FeedingStation { capacity_ml: u32 },
    ToyDispenser { toy_count: u8 },
    ActivityTracker { sensors: Seq<SensorType> },
    VirtualDevice { emulated_type: Box<DeviceTypeView> },
    TestDevice { device_name: Seq<char> },
    Unknown { service_uuid: Seq<char> },
}

impl BluetoothLEDeviceType {
    /// The model of this device type.
    pub open spec fn view(&self) -> DeviceTypeView
        decreases self,
    {
        match self {
            BluetoothLEDeviceType::SmartCollar { collar_type } => DeviceTypeView::SmartCollar { collar_type: *collar_type },
            BluetoothLEDeviceType::FeedingStation { capacity_ml } => DeviceTypeView::FeedingStation { capacity_ml: *capacity_ml },
            BluetoothLEDeviceType::ToyDispenser { toy_count } => DeviceTypeView::ToyDispenser { toy_count: *toy_count },
            BluetoothLEDeviceType::ActivityTracker { sensors } => DeviceTypeView::ActivityTracker { sensors: sensors@ },
            BluetoothLEDeviceType::VirtualDevice { emulated_type } => DeviceTypeView::VirtualDevice { emulated_type: Box::new((**emulated_type).view()) },
            BluetoothLEDeviceType::TestDevice { device_name } => DeviceTypeView::TestDevice { device_name: device_name@ },
            BluetoothLEDeviceType::Unknown { service_uuid } => DeviceTypeView::Unknown { service_uuid: service_uuid@ },
        }
    }

    /// A copy with the same model.
    pub fn copy(&self) -> (r: Self)
        ensures
            r.view() == self.view(),
        decreases self,
    {
        match self {
            BluetoothLEDeviceType::SmartCollar { collar_type } => BluetoothLEDeviceType::SmartCollar { collar_type: *collar_type },
            BluetoothLEDeviceType::FeedingStation { capacity_ml } => BluetoothLEDeviceType::FeedingStation { capacity_ml: *capacity_ml },
            BluetoothLEDeviceType::ToyDispenser { toy_count } => BluetoothLEDeviceType::ToyDispenser { toy_count: *toy_count },
            BluetoothLEDeviceType::ActivityTracker { sensors } => {
                let mut s: Vec<SensorType> = Vec::new();
                for i in 0..sensors.len()
                    invariant
                        s@ == sensors@.take(i as int),
                {
                    s.push(sensors[i]);
                    assert(s@ =~= sensors@.take(i + 1));
                }
                assert(sensors@.take(sensors@.len() as int) =~= sensors@);
                BluetoothLEDeviceType::ActivityTracker { sensors: s }
            },
            BluetoothLEDeviceType::VirtualDevice { emulated_type } => {
                let inner: &BluetoothLEDeviceType = emulated_type;
                BluetoothLEDeviceType::VirtualDevice { emulated_type: Box::new(inner.copy()) }
            },
            BluetoothLEDeviceType::TestDevice { device_name } => BluetoothLEDeviceType::TestDevice { device_name: device_name.clone() },
            BluetoothLEDeviceType::Unknown { service_uuid } => BluetoothLEDeviceType::Unknown { service_uuid: service_uuid.clone() },
        }
    }
}

impl Clone for BluetoothLEDeviceType {
    fn clone(&self) -> (r: Self)
        ensures
            r.view() == self.view(),
    {
        self.copy()
    }
}

/// Copy of a list of strings.
pub fn clone_strings(v: &Vec<String>) -> (r: Vec<String>)
    ensures
        r@ == v@,
{
    let mut r: Vec<String> = Vec::new();
    for i in 0..v.len()
        invariant
            r@ == v@.take(i as int),
    {
        r.push(v[i].clone());
        assert(r@ =~= v@.take(i + 1));
    }
    assert(v@.take(v@.len() as int) =~= v@);
    r
}

/// Copy of an optional string.
pub fn clone_opt_string(o: &Option<String>) -> (r: Option<String>)
    ensures
        r == *o,
{
    match o {
        Some(s) => Some(s.clone()),
        None => None,
    }
}

/// What is known of a device.
#[derive(Clone, Debug)]
pub struct DeviceInfo {
    pub id: DeviceId,
    pub name: String,
    pub device_type: BluetoothLEDeviceType,
    pub rssi: i16,
    pub services: Vec<String>,
    pub manufacturer_data: Option<String>,
    pub is_connected: bool,
    pub last_seen: Option<Real64>,
    pub battery_level: Option<u8>,
}

/// Mathematical model of [`DeviceInfo`].
pub struct DeviceInfoView {
    pub id: Seq<char>,
    pub name: Seq<char>,
    pub device_type: DeviceTypeView,
    pub rssi: i16,
    pub services: Seq<String>,
    pub manufacturer_data: Option<String>,
    pub is_connected: bool,
    pub last_seen: Option<Real64>,
    pub battery_level: Option<u8>,
}

impl View for DeviceInfo {
    type V = DeviceInfoView;

    open spec fn view(&self) -> DeviceInfoView {
        DeviceInfoView {
            id: self.id.0@,
            name: self.name@,
            device_type: self.device_type.view(),
            rssi: self.rssi,
            services: self.services@,
            manufacturer_data: self.manufacturer_data,
            is_connected: self.is_connected,
            last_seen: self.last_seen,
            battery_level: self.battery_level,
        }
    }
}

impl DeviceInfo {
    /// A copy with the same model.
    pub fn copy(&self) -> (r: Self)
        ensures
            r@ == self@,
    {
        DeviceInfo {
            id: self.id.clone(),
            name: self.name.clone(),
            device_type: self.device_type.copy(),
            rssi: self.rssi,
            services: clone_strings(&self.services),
            manufacturer_data: clone_opt_string(&self.manufacturer_data),
            is_connected: self.is_connected,
            last_seen: self.last_seen,
            battery_level: self.battery_level,
        }
    }
}

/// Connection state of a device.
#[derive(Clone, Debug)]
pub enum BluetoothLEConnectionState {
    Disconnected,
    Connecting,
    Connected,
    Pairing,
    Paired,
    Error(String),
}

/// How a virtual device answers commands that contain a pattern.
#[derive(Clone, Debug)]
pub struct VirtualCommandHandler {
    pub command_pattern: String,
    pub response_template: String,
    pub delay_ms: u64,
}

/// A simulated device of the virtual test network. Its handlers are keyed
/// by the pattern that a command must contain.
#[derive(Clone, Debug)]
pub struct VirtualDevice {
    pub info: DeviceInfo,
    pub command_handlers: KeyedList<VirtualCommandHandler>,
    pub state: KeyedList<serde_json::Value>,
    pub auto_responses: bool,
}

/// An entry of the log of commands sent to virtual devices.
#[derive(Clone, Debug)]
pub struct VirtualCommand {
    pub timestamp: Real64,
    pub device_id: DeviceId,
    pub command: String,
    pub response: Option<String>,
}

/// Errors of the Bluetooth LE layer.
#[derive(Clone, Debug)]
pub enum BluetoothLEError {
    AdapterNotFound,
    DeviceNotFound { device_id: String },
    ConnectionFailed { reason: String },
    PairingFailed { reason: String },
    ServiceDiscoveryFailed,
    CommandTimeout { command: String },
    PlatformError { message: String },
}

/// The message of an error, as its `Display` renders it.
pub open spec fn error_text(e: BluetoothLEError) -> Seq<char> {
    match e {
        BluetoothLEError::AdapterNotFound => "BluetoothLE adapter not found"@,
        BluetoothLEError::DeviceNotFound { device_id } => "Device not found: "@ + device_id@,
        BluetoothLEError::ConnectionFailed { reason } => "Connection failed: "@ + reason@,
        BluetoothLEError::PairingFailed { reason } => "Pairing failed: "@ + reason@,
        BluetoothLEError::ServiceDiscoveryFailed => "Service discovery failed"@,
        BluetoothLEError::CommandTimeout { command } => "Command timeout: "@ + command@,
        BluetoothLEError::PlatformError { message } => "Platform error: "@ + message@,
    }
}

impl BluetoothLEError {
    /// The message of this error.
    pub fn message(&self) -> (r: String)
        ensures
            r@ == error_text(*self),
    {
        match self {
            BluetoothLEError::AdapterNotFound => String::from_str("BluetoothLE adapter not found"),
            BluetoothLEError::DeviceNotFound { device_id } => String::from_str("Device not found: ").concat(device_id.as_str()),
            BluetoothLEError::ConnectionFailed { reason } => String::from_str("Connection failed: ").concat(reason.as_str()),
            BluetoothLEError::PairingFailed { reason } => String::from_str("Pairing failed: ").concat(reason.as_str()),
            BluetoothLEError::ServiceDiscoveryFailed => String::from_str("Service discovery failed"),
            BluetoothLEError::CommandTimeout { command } => String::from_str("Command timeout: ").concat(command.as_str()),
            BluetoothLEError::PlatformError { message } => String::from_str("Platform error: ").concat(message.as_str()),
        }
    }
}

/// Which devices a scan looks for.
#[derive(Clone, Debug)]
pub struct BluetoothLEDeviceFilter {
    pub device_types: Option<Vec<BluetoothLEDeviceType>>,
    pub min_rssi: Option<i16>,
    pub service_uuids: Option<Vec<String>>,
    pub manufacturer_ids: Option<Vec<u16>>,
    pub name_patterns: Option<Vec<String>>,
}

/// Requests from the game to the Bluetooth LE layer.
#[derive(Clone, Debug)]
#[allow(inconsistent_fields)]
pub enum BluetoothLERequest {
    StartScan { duration_ms: Option<u32>, device_filter: Option<BluetoothLEDeviceFilter> },
    StopScan,
    Connect { device_id: DeviceId },
    Disconnect { device_id: DeviceId },
    Pair { device_id: DeviceId, pin: Option<String> },
    SendCommand { device_id: DeviceId, command: ZephyrCommand, timeout_ms: Option<u32> },
    EnableVirtualNetwork,
    DisableVirtualNetwork,
    RegisterVirtualDevice { device: VirtualDevice },
    RemoveVirtualDevice { device_id: DeviceId },
    SimulateDeviceCommand { device_id: DeviceId, command: String },
}

/// Responses of the Bluetooth LE layer to the game.
#[derive(Clone, Debug)]
#[allow(inconsistent_fields)]
pub enum BluetoothLEResponse {
    ScanStarted,
    ScanStopped,
    DeviceDiscovered { device: DeviceInfo },
    Connected { device_id: DeviceId },
    Disconnected { device_id: DeviceId, reason: Option<String> },
    Paired { device_id: DeviceId },
    PairingFailed { device_id: DeviceId, error: String },
    CommandResponse { device_id: DeviceId, command: ZephyrCommand, response: ZephyrResponse, latency_ms: u32 },
    CommandFailed { device_id: DeviceId, command: ZephyrCommand, error: String },
    VirtualNetworkEnabled,
    VirtualNetworkDisabled,
    VirtualDeviceRegistered { device_id: DeviceId },
    VirtualCommandExecuted { device_id: DeviceId, command: String, response: String },
    Error { error: BluetoothLEError },
}

/// `2^n`.
pub open spec fn pow2(n: nat) -> nat
    decreases n,
{
    if n == 0 {
        1
    } else {
        2 * pow2((n - 1) as nat)
    }
}

/// The retry back-off after `error_count` errors, in milliseconds:
/// 100 ms doubled once per error, at most ten times.
pub open spec fn backoff_ms(error_count: nat) -> nat {
    100 * pow2(if error_count < 10 { error_count } else { 10 })
}

/// The views of optional strings.
pub open spec fn opt_view(o: Option<String>) -> Option<Seq<char>> {
    match o {
        Some(s) => Some(s@),
        None => None,
    }
}

/// Position of the first pattern that `command` contains.
pub open spec fn first_match(patterns: Seq<Seq<char>>, command: Seq<char>) -> Option<int> {
    if exists|i: int| 0 <= i < patterns.len() && contains(command, patterns[i]) {
        Some(choose|i: int| 0 <= i < patterns.len() && contains(command, patterns[i])
            && forall|j: int| 0 <= j < i ==> !contains(command, patterns[j]))
    } else {
        None
    }
}

/// The reply of a matching handler of `device` to `command`, if one matches.
pub open spec fn handler_reply(device: VirtualDevice, command: Seq<char>) -> Option<Seq<char>> {
    match first_match(device.command_handlers.keys(), command) {
        Some(i) => Some(device.command_handlers.values()[i].response_template@),
        None => None,
    }
}

/// The reply of `device` to `command`: its matching handler's template, or
/// "OK" when no handler matches.
pub open spec fn virtual_reply(device: VirtualDevice, command: Seq<char>) -> Seq<char> {
    match handler_reply(device, command) {
        Some(t) => t,
        None => "OK"@,
    }
}

/// The simulated Zephyr answer to `command`.
pub open spec fn simulated_reply(command: ZephyrCommand, r: ZephyrResponse) -> bool {
    match command {
        ZephyrCommand::GetBatteryLevel => r == ZephyrResponse::BatteryLevel { percentage: 85, voltage_mv: 3700 },
        ZephyrCommand::GetDeviceInfo => r matches ZephyrResponse::DeviceInfo { firmware_version, hardware_version, serial_number }
            && firmware_version@ == "1.0.0"@ && hardware_version@ == "v2.1"@ && serial_number@ == "VRT001"@,
        _ => r is Success,
    }
}

/// The Bluetooth LE state of the game: devices, connections, errors and the
/// virtual test network.
pub struct BluetoothLEManager {
    pub scanning: bool,
    pub connected_devices: KeyedList<DeviceInfo>,
    pub discovered_devices: KeyedList<DeviceInfo>,
    pub pending_requests: KeyedList<BluetoothLERequest>,
    pub connection_states: KeyedList<BluetoothLEConnectionState>,
    pub last_error: Option<BluetoothLEError>,
    pub error_count: u32,
    pub retry_backoff_ms: u64,
    pub virtual_network_enabled: bool,
    pub virtual_devices: KeyedList<VirtualDevice>,
    pub virtual_command_log: Vec<VirtualCommand>,
}

impl BluetoothLEManager {
    /// A manager with no devices, no errors, a 100 ms back-off and the
    /// virtual network off.
    pub fn new() -> (m: Self)
        ensures
            !m.scanning,
            m.connected_devices@ == Map::<Seq<char>, DeviceInfo>::empty(),
            m.discovered_devices@ == Map::<Seq<char>, DeviceInfo>::empty(),
            m.pending_requests@ == Map::<Seq<char>, BluetoothLERequest>::empty(),
            m.connection_states@ == Map::<Seq<char>, BluetoothLEConnectionState>::empty(),
            m.last_error is None,
            m.error_count == 0,
            m.retry_backoff_ms == 100,
            !m.virtual_network_enabled,
            m.virtual_devices@ == Map::<Seq<char>, VirtualDevice>::empty(),
            m.virtual_devices.keys() == Seq::<Seq<char>>::empty(),
            m.virtual_command_log@ == Seq::<VirtualCommand>::empty(),
    {
        BluetoothLEManager {
            scanning: false,
            connected_devices: KeyedList::new(),
            discovered_devices: KeyedList::new(),
            pending_requests: KeyedList::new(),
            connection_states: KeyedList::new(),
            last_error: None,
            error_count: 0,
            retry_backoff_ms: 100,
            virtual_network_enabled: false,
            virtual_devices: KeyedList::new(),
            virtual_command_log: Vec::new(),
        }
    }

    /// Records `error`, counts it and doubles the retry back-off (capped at
    /// ten doublings).
    pub fn handle_error(&mut self, error: BluetoothLEError)
        requires
            old(self).error_count < u32::MAX,
        ensures
            final(self).last_error == Some(error),
            final(self).error_count == old(self).error_count + 1,
            final(self).retry_backoff_ms == backoff_ms(final(self).error_count as nat),
            *final(self) == (BluetoothLEManager {
                last_error: Some(error),
                error_count: final(self).error_count,
                retry_backoff_ms: final(self).retry_backoff_ms,
                ..*old(self)
            }),
    {
        self.last_error = Some(error);
        self.error_count = self.error_count + 1;
        let e: u32 = if self.error_count < 10 { self.error_count } else { 10 };
        let mut p: u64 = 1;
        let mut i: u32 = 0;
        while i < e
            invariant
                i <= e <= 10,
                p == pow2(i as nat),
                p <= 1024,
            decreases e - i,
        {
            proof {
                lemma_pow2_bound((i + 1) as nat);
            }
            p = p * 2;
            i = i + 1;
        }
        self.retry_backoff_ms = 100 * p;
    }

    /// Whether another attempt is due: fewer than three errors, and a
    /// back-off under 30 s.
    pub fn should_retry(&self) -> (b: bool)
        ensures
            b == (self.error_count < 3 && self.retry_backoff_ms < 30000),
    {
        self.error_count < 3 && self.retry_backoff_ms < 30000
    }
}

impl BluetoothLEManager {
    /// Adds `device` to the virtual network and to the discovered devices,
    /// both under its id (replacing an earlier device with that id).
    pub fn register_virtual_device(&mut self, device: VirtualDevice)
        ensures
            device_registered(*old(self), *final(self), device),
    {
        let ghost k = device.info.id.0@;
        let ghost d = device;
        let info = device.info.copy();
        let key1 = device.info.id.0.clone();
        let key2 = device.info.id.0.clone();
        self.virtual_devices.insert(key1, device);
        self.discovered_devices.insert(key2, info);
        proof {
            assert(self.discovered_devices@.dom() =~= old(self).discovered_devices@.dom().insert(k));
            assert(self.discovered_devices@.remove(k) =~= old(self).discovered_devices@.remove(k));
        }
    }

    /// Sends `command` to the virtual device `device_id` at time `now`.
    /// An unknown device yields `None` and changes nothing. A known device
    /// logs the command and answers with the template of the first handler
    /// (in key order) whose pattern the command contains, or "OK"; the log
    /// entry records the template when a handler matched.
    pub fn execute_virtual_command(&mut self, device_id: &DeviceId, command: &str, now: Real64) -> (r: Option<String>)
        ensures
            !old(self).virtual_devices@.contains_key(device_id.0@) ==> r is None && *final(self) == *old(self),
            old(self).virtual_devices@.contains_key(device_id.0@) ==> command_executed(*old(self), *final(self), *device_id, command@, now, r),
    {
        let vd = match self.virtual_devices.get(device_id.0.as_str()) {
            Some(vd) => vd,
            None => return None,
        };
        let ghost keys = vd.command_handlers.keys();
        let n = vd.command_handlers.len();
        let mut i: usize = 0;
        let mut found: Option<usize> = None;
        while i < n
            invariant_except_break
                found is None,
            invariant
                n == keys.len(),
                keys == vd.command_handlers.keys(),
                i <= n,
                forall|j: int| 0 <= j < i ==> !contains(command@, keys[j]),
            ensures
                found matches Some(fi) ==> fi < n && contains(command@, keys[fi as int])
                    && forall|j: int| 0 <= j < fi ==> !contains(command@, keys[j]),
                found is None ==> forall|j: int| 0 <= j < n ==> !contains(command@, keys[j]),
            decreases n - i,
        {
            let (pattern, _h) = vd.command_handlers.entry_at(i);
            if str_contains(command, pattern.as_str()) {
                found = Some(i);
                break;
            }
            i = i + 1;
        }
        proof {
            match found {
                Some(fi) => {
                    let fm = first_match(keys, command@);
                    let w = choose|w: int| 0 <= w < keys.len() && contains(command@, keys[w])
                        && forall|j: int| 0 <= j < w ==> !contains(command@, keys[j]);
                    assert(contains(command@, keys[fi as int]));
                    if w < fi {
                    } else if w > fi {
                        assert(!contains(command@, keys[fi as int]));
                    }
                    assert(fm == Some(fi as int));
                },
                None => {
                    assert(first_match(keys, command@) is None);
                },
            }
        }
        let reply: Option<String> = match found {
            Some(fi) => {
                let (_p, h) = vd.command_handlers.entry_at(fi);
                Some(h.response_template.clone())
            },
            None => None,
        };
        let answer = match &reply {
            Some(t) => t.clone(),
            None => String::from_str("OK"),
        };
        self.virtual_command_log.push(VirtualCommand {
            timestamp: now,
            device_id: device_id.clone(),
            command: String::from_str(command),
            response: reply,
        });
        assert(self.virtual_command_log@.drop_last() =~= old(self).virtual_command_log@);
        Some(answer)
    }
}

/// `post` is `pre` after the known virtual device `device_id` received
/// `command` at `now` and answered `reply`.
pub open spec fn command_executed(
    pre: BluetoothLEManager,
    post: BluetoothLEManager,
    device_id: DeviceId,
    command: Seq<char>,
    now: Real64,
    reply: Option<String>,
) -> bool {
    let vd = pre.virtual_devices@[device_id.0@];
    &&& reply is Some
    &&& reply->0@ == virtual_reply(vd, command)
    &&& post.virtual_command_log@.len() == pre.virtual_command_log@.len() + 1
    &&& post.virtual_command_log@.drop_last() == pre.virtual_command_log@
    &&& post.virtual_command_log@.last().timestamp == now
    &&& post.virtual_command_log@.last().device_id == device_id
    &&& post.virtual_command_log@.last().command@ == command
    &&& opt_view(post.virtual_command_log@.last().response) == handler_reply(vd, command)
    &&& post == (BluetoothLEManager { virtual_command_log: post.virtual_command_log, ..pre })
}

/// `post` is `pre` after registering the virtual device `device`.
pub open spec fn device_registered(pre: BluetoothLEManager, post: BluetoothLEManager, device: VirtualDevice) -> bool {
    let k = device.info.id.0@;
    &&& post.virtual_devices@ == pre.virtual_devices@.insert(k, device)
    &&& post.discovered_devices@.dom() == pre.discovered_devices@.dom().insert(k)
    &&& post.discovered_devices@[k]@ == device.info@
    &&& post.discovered_devices@.remove(k) == pre.discovered_devices@.remove(k)
    &&& !pre.virtual_devices.keys().contains(k) ==> post.virtual_devices.keys() == pre.virtual_devices.keys().push(k)
    &&& pre.virtual_devices.keys().contains(k) ==> post.virtual_devices.keys() == pre.virtual_devices.keys()
    &&& post == (BluetoothLEManager {
        virtual_devices: post.virtual_devices,
        discovered_devices: post.discovered_devices,
        ..pre
    })
}

/// Whether a connection request for `k` succeeds at once: the virtual
/// network is on and `k` is one of its devices.
pub open spec fn connects_virtually(pre: BluetoothLEManager, k: Seq<char>) -> bool {
    pre.virtual_network_enabled && pre.virtual_devices@.contains_key(k)
}

/// The effect of a connection request for `device_id`: the device's state
/// becomes `Connected` (a virtual device, which is also added to the
/// connected devices and answered `Connected`) or `Connecting` (left to the
/// platform, no response).
pub open spec fn connect_handled(
    pre: BluetoothLEManager,
    post: BluetoothLEManager,
    device_id: DeviceId,
    responses: Seq<BluetoothLEResponse>,
) -> bool {
    let k = device_id.0@;
    if connects_virtually(pre, k) {
        &&& post.connection_states@ == pre.connection_states@.insert(k, BluetoothLEConnectionState::Connected)
        &&& post.connected_devices@.dom() == pre.connected_devices@.dom().insert(k)
        &&& post.connected_devices@[k]@ == pre.virtual_devices@[k].info@
        &&& post.connected_devices@.remove(k) == pre.connected_devices@.remove(k)
        &&& responses == seq![BluetoothLEResponse::Connected { device_id }]
        &&& post == (BluetoothLEManager {
            connection_states: post.connection_states,
            connected_devices: post.connected_devices,
            ..pre
        })
    } else {
        &&& post.connection_states@ == pre.connection_states@.insert(k, BluetoothLEConnectionState::Connecting)
        &&& responses.len() == 0
        &&& post == (BluetoothLEManager { connection_states: post.connection_states, ..pre })
    }
}

/// The responses to a scan start: `ScanStarted`, then, with the virtual
/// network on, one `DeviceDiscovered` per virtual device in table order.
pub open spec fn scan_responses(pre: BluetoothLEManager, responses: Seq<BluetoothLEResponse>) -> bool {
    let n = if pre.virtual_network_enabled { pre.virtual_devices.keys().len() } else { 0 };
    &&& responses.len() == 1 + n
    &&& responses[0] == BluetoothLEResponse::ScanStarted
    &&& forall|i: int| 0 <= i < n ==> (#[trigger] responses[i + 1] matches BluetoothLEResponse::DeviceDiscovered { device }
        && device@ == pre.virtual_devices.values()[i].info@)
}

/// What handling `request` at time `now` does to the manager and answers.
pub open spec fn request_handled(
    pre: BluetoothLEManager,
    post: BluetoothLEManager,
    request: BluetoothLERequest,
    now: Real64,
    responses: Seq<BluetoothLEResponse>,
) -> bool {
    match request {
        BluetoothLERequest::StartScan { .. } => {
            &&& post == (BluetoothLEManager { scanning: true, ..pre })
            &&& scan_responses(pre, responses)
        },
        BluetoothLERequest::StopScan => {
            &&& post == (BluetoothLEManager { scanning: false, ..pre })
            &&& responses == seq![BluetoothLEResponse::ScanStopped]
        },
        BluetoothLERequest::Connect { device_id } => connect_handled(pre, post, device_id, responses),
        BluetoothLERequest::SendCommand { device_id, command, .. } => {
            if pre.virtual_network_enabled && pre.virtual_devices@.contains_key(device_id.0@) {
                &&& responses.len() == 1
                &&& responses[0] matches BluetoothLEResponse::CommandResponse { device_id: d, command: c, response: zr, latency_ms }
                    && d == device_id && c == command && simulated_reply(command, zr) && latency_ms == 50
                &&& exists|reply: Option<String>| command_executed(pre, post, device_id, command_text(command), now, reply)
            } else {
                post == pre && responses.len() == 0
            }
        },
        BluetoothLERequest::EnableVirtualNetwork => {
            &&& post == (BluetoothLEManager { virtual_network_enabled: true, ..pre })
            &&& responses == seq![BluetoothLEResponse::VirtualNetworkEnabled]
        },
        BluetoothLERequest::DisableVirtualNetwork => {
            &&& post == (BluetoothLEManager { virtual_network_enabled: false, ..pre })
            &&& responses == seq![BluetoothLEResponse::VirtualNetworkDisabled]
        },
        BluetoothLERequest::RegisterVirtualDevice { device } => {
            &&& device_registered(pre, post, device)
            &&& responses == seq![BluetoothLEResponse::VirtualDeviceRegistered { device_id: device.info.id }]
        },
        BluetoothLERequest::Disconnect { device_id } => disconnect_handled(pre, post, device_id, responses),
        _ => post == pre && responses.len() == 0,
    }
}

/// The effect of a disconnection request for `device_id`: the device
/// leaves the connected devices, its state becomes `Disconnected`, and the
/// answer is `Disconnected` without a reason.
pub open spec fn disconnect_handled(
    pre: BluetoothLEManager,
    post: BluetoothLEManager,
    device_id: DeviceId,
    responses: Seq<BluetoothLEResponse>,
) -> bool {
    let k = device_id.0@;
    &&& post.connected_devices@ == pre.connected_devices@.remove(k)
    &&& post.connection_states@ == pre.connection_states@.insert(k, BluetoothLEConnectionState::Disconnected)
    &&& responses == seq![BluetoothLEResponse::Disconnected { device_id, reason: None }]
    &&& post == (BluetoothLEManager {
        connected_devices: post.connected_devices,
        connection_states: post.connection_states,
        ..pre
    })
}

/// The simulated Zephyr answer of a virtual device to `command`.
pub fn simulated_response(command: &ZephyrCommand) -> (r: ZephyrResponse)
    ensures
        simulated_reply(*command, r),
{
    match command {
        ZephyrCommand::GetBatteryLevel => ZephyrResponse::BatteryLevel { percentage: 85, voltage_mv: 3700 },
        ZephyrCommand::GetDeviceInfo => ZephyrResponse::DeviceInfo {
            firmware_version: String::from_str("1.0.0"),
            hardware_version: String::from_str("v2.1"),
            serial_number: String::from_str("VRT001"),
        },
        _ => ZephyrResponse::Success,
    }
}

impl BluetoothLEManager {
    /// Handles one request at time `now` and returns the responses it
    /// produces, in order. Pairing, removing a virtual device and simulated
    /// commands change nothing and are not answered.
    pub fn handle_request(&mut self, request: BluetoothLERequest, now: Real64) -> (responses: Vec<BluetoothLEResponse>)
        ensures
            request_handled(*old(self), *final(self), request, now, responses@),
    {
        let mut responses: Vec<BluetoothLEResponse> = Vec::new();
        match request {
            BluetoothLERequest::StartScan { .. } => {
                self.scanning = true;
                responses.push(BluetoothLEResponse::ScanStarted);
                if self.virtual_network_enabled {
                    let n = self.virtual_devices.len();
                    for i in 0..n
                        invariant
                            n == self.virtual_devices.keys().len(),
                            responses@.len() == 1 + i,
                            responses@[0] == BluetoothLEResponse::ScanStarted,
                            forall|j: int| 0 <= j < i ==> (#[trigger] responses@[j + 1] matches BluetoothLEResponse::DeviceDiscovered { device }
                                && device@ == self.virtual_devices.values()[j].info@),
                    {
                        let (_k, vd) = self.virtual_devices.entry_at(i);
                        let info = vd.info.copy();
                        responses.push(BluetoothLEResponse::DeviceDiscovered { device: info });
                        proof {
                            assert(responses@[i + 1] matches BluetoothLEResponse::DeviceDiscovered { device }
                                && device@ == self.virtual_devices.values()[i as int].info@);
                        }
                    }
                }
            },
            BluetoothLERequest::StopScan => {
                self.scanning = false;
                responses.push(BluetoothLEResponse::ScanStopped);
            },
            BluetoothLERequest::Connect { device_id } => {
                let ghost k = device_id.0@;
                self.connection_states.insert(device_id.0.clone(), BluetoothLEConnectionState::Connecting);
                if self.virtual_network_enabled && self.virtual_devices.contains_key(device_id.0.as_str()) {
                    self.connection_states.insert(device_id.0.clone(), BluetoothLEConnectionState::Connected);
                    match self.virtual_devices.get(device_id.0.as_str()) {
                        Some(vd) => {
                            let info = vd.info.copy();
                            self.connected_devices.insert(device_id.0.clone(), info);
                        },
                        None => {},
                    }
                    responses.push(BluetoothLEResponse::Connected { device_id });
                    proof {
                        assert(self.connection_states@ =~= old(self).connection_states@.insert(k, BluetoothLEConnectionState::Connected));
                        assert(self.connected_devices@.dom() =~= old(self).connected_devices@.dom().insert(k));
                        assert(self.connected_devices@.remove(k) =~= old(self).connected_devices@.remove(k));
                    }
                }
            },
            BluetoothLERequest::SendCommand { device_id, command, .. } => {
                if self.virtual_network_enabled {
                    let text = command_string(&command);
                    match self.execute_virtual_command(&device_id, text.as_str(), now) {
                        Some(_reply) => {
                            let zr = simulated_response(&command);
                            responses.push(BluetoothLEResponse::CommandResponse {
                                device_id,
                                command,
                                response: zr,
                                latency_ms: 50,
                            });
                        },
                        None => {},
                    }
                }
            },
            BluetoothLERequest::EnableVirtualNetwork => {
                self.virtual_network_enabled = true;
                responses.push(BluetoothLEResponse::VirtualNetworkEnabled);
            },
            BluetoothLERequest::DisableVirtualNetwork => {
                self.virtual_network_enabled = false;
                responses.push(BluetoothLEResponse::VirtualNetworkDisabled);
            },
            BluetoothLERequest::Disconnect { device_id } => {
                self.connected_devices.remove(device_id.0.as_str());
                self.connection_states.insert(device_id.0.clone(), BluetoothLEConnectionState::Disconnected);
                responses.push(BluetoothLEResponse::Disconnected { device_id, reason: None });
            },
            BluetoothLERequest::RegisterVirtualDevice { device } => {
                let device_id = device.info.id.clone();
                self.register_virtual_device(device);
                responses.push(BluetoothLEResponse::VirtualDeviceRegistered { device_id });
            },
            _ => {},
        }
        responses
    }
}

/// `h` answers commands containing `pattern` with `template` after
/// `delay_ms`.
pub open spec fn handler_is(h: VirtualCommandHandler, pattern: Seq<char>, template: Seq<char>, delay_ms: u64) -> bool {
    h.command_pattern@ == pattern && h.response_template@ == template && h.delay_ms == delay_ms
}

/// `d` is a test device with the given identity, seen at `now`, whose two
/// handlers answer `p1` with `t1` and `p2` with `t2`.
pub open spec fn test_device_is(
    d: VirtualDevice,
    now: Real64,
    id: Seq<char>,
    name: Seq<char>,
    device_type: DeviceTypeView,
    rssi: i16,
    service: Seq<char>,
    manufacturer: Seq<char>,
    battery: u8,
    handlers: Seq<(Seq<char>, Seq<char>, u64)>,
) -> bool {
    &&& d.info.id.0@ == id
    &&& d.info.name@ == name
    &&& d.info.device_type.view() == device_type
    &&& d.info.rssi == rssi
    &&& d.info.services@.len() == 1
    &&& d.info.services@[0]@ == service
    &&& opt_view(d.info.manufacturer_data) == Some(manufacturer)
    &&& !d.info.is_connected
    &&& d.info.last_seen == Some(now)
    &&& d.info.battery_level == Some(battery)
    &&& d.command_handlers.keys() == handlers.map_values(|h: (Seq<char>, Seq<char>, u64)| h.0)
    &&& forall|i: int| 0 <= i < handlers.len() ==> handler_is(
        #[trigger] d.command_handlers.values()[i],
        handlers[i].0,
        handlers[i].1,
        handlers[i].2,
    )
    &&& d.state@ == Map::<Seq<char>, serde_json::Value>::empty()
    &&& d.auto_responses
}

/// A handler table from `(pattern, template, delay)` triples with distinct
/// patterns.
fn handler_table(h1: (&str, &str, u64), h2: (&str, &str, u64)) -> (r: KeyedList<VirtualCommandHandler>)
    requires
        h1.0@ != h2.0@,
    ensures
        r.keys() == seq![h1.0@, h2.0@],
        handler_is(r.values()[0], h1.0@, h1.1@, h1.2),
        handler_is(r.values()[1], h2.0@, h2.1@, h2.2),
{
    let mut r: KeyedList<VirtualCommandHandler> = KeyedList::new();
    r.insert(String::from_str(h1.0), VirtualCommandHandler {
        command_pattern: String::from_str(h1.0),
        response_template: String::from_str(h1.1),
        delay_ms: h1.2,
    });
    let ghost v0 = r.values()[0];
    proof {
        assert(!Seq::<Seq<char>>::empty().contains(h1.0@));
    }
    r.insert(String::from_str(h2.0), VirtualCommandHandler {
        command_pattern: String::from_str(h2.0),
        response_template: String::from_str(h2.1),
        delay_ms: h2.2,
    });
    proof {
        assert(!seq![h1.0@].contains(h2.0@)) by {
            if seq![h1.0@].contains(h2.0@) {
                let j = choose|j: int| 0 <= j < 1 && seq![h1.0@][j] == h2.0@;
            }
        }
    }
    r
}

/// The two virtual devices of the test network, seen at `now`: a training
/// collar and a feeding station.
pub fn create_test_virtual_devices(now: Real64) -> (r: Vec<VirtualDevice>)
    ensures
        r@.len() == 2,
        test_device_is(
            r@[0],
            now,
            "virtual_collar_001"@,
            "Test Smart Collar"@,
            DeviceTypeView::SmartCollar { collar_type: CollarType::TrainingCollar },
            -45i16,
            "uuid_collar_service"@,
            "ZephyrCollar_v2.1"@,
            85u8,
            seq![("GetBatteryLevel"@, "85%"@, 100u64), ("Vibrate"@, "Vibrating"@, 50u64)],
        ),
        test_device_is(
            r@[1],
            now,
            "virtual_feeder_001"@,
            "Test Feeding Station"@,
            DeviceTypeView::FeedingStation { capacity_ml: 2000 },
            -38i16,
            "uuid_feeder_service"@,
            "ZephyrFeeder_v1.5"@,
            92u8,
            seq![("GetFoodLevel"@, "1200g/2000g"@, 75u64), ("DispenseFood"@, "Food dispensed"@, 200u64)],
        ),
{
    proof {
        reveal_strlit("GetBatteryLevel");
        reveal_strlit("Vibrate");
        reveal_strlit("GetFoodLevel");
        reveal_strlit("DispenseFood");
        assert("GetBatteryLevel"@.len() != "Vibrate"@.len());
        assert("GetFoodLevel"@[0] != "DispenseFood"@[0]);
    }
    let collar = VirtualDevice {
        info: DeviceInfo {
            id: DeviceId(String::from_str("virtual_collar_001")),
            name: String::from_str("Test Smart Collar"),
            device_type: BluetoothLEDeviceType::SmartCollar { collar_type: CollarType::TrainingCollar },
            rssi: -45,
            services: vec![String::from_str("uuid_collar_service")],
            manufacturer_data: Some(String::from_str("ZephyrCollar_v2.1")),
            is_connected: false,
            last_seen: Some(now),
            battery_level: Some(85),
        },
        command_handlers: handler_table(("GetBatteryLevel", "85%", 100), ("Vibrate", "Vibrating", 50)),
        state: KeyedList::new(),
        auto_responses: true,
    };
    let feeder = VirtualDevice {
        info: DeviceInfo {
            id: DeviceId(String::from_str("virtual_feeder_001")),
            name: String::from_str("Test Feeding Station"),
            device_type: BluetoothLEDeviceType::FeedingStation { capacity_ml: 2000 },
            rssi: -38,
            services: vec![String::from_str("uuid_feeder_service")],
            manufacturer_data: Some(String::from_str("ZephyrFeeder_v1.5")),
            is_connected: false,
            last_seen: Some(now),
            battery_level: Some(92),
        },
        command_handlers: handler_table(("GetFoodLevel", "1200g/2000g", 75), ("DispenseFood", "Food dispensed", 200)),
        state: KeyedList::new(),
        auto_responses: true,
    };
    let r = vec![collar, feeder];
    proof {
        let h1 = seq![("GetBatteryLevel"@, "85%"@, 100u64), ("Vibrate"@, "Vibrating"@, 50u64)];
        assert(h1.map_values(|h: (Seq<char>, Seq<char>, u64)| h.0) =~= seq!["GetBatteryLevel"@, "Vibrate"@]);
        let h2 = seq![("GetFoodLevel"@, "1200g/2000g"@, 75u64), ("DispenseFood"@, "Food dispensed"@, 200u64)];
        assert(h2.map_values(|h: (Seq<char>, Seq<char>, u64)| h.0) =~= seq!["GetFoodLevel"@, "DispenseFood"@]);
    }
    r
}

/// The request that starts a scan with `filter` for `duration_ms`.
pub fn trigger_bluetoothle_scan(filter: Option<BluetoothLEDeviceFilter>, duration_ms: Option<u32>) -> (r: BluetoothLERequest)
    ensures
        r == (BluetoothLERequest::StartScan { duration_ms, device_filter: filter }),
{
    BluetoothLERequest::StartScan { duration_ms, device_filter: filter }
}

/// The request that connects to `device_id`.
pub fn connect_to_device(device_id: DeviceId) -> (r: BluetoothLERequest)
    ensures
        r == (BluetoothLERequest::Connect { device_id }),
{
    BluetoothLERequest::Connect { device_id }
}

proof fn lemma_pow2_mono(a: nat, b: nat)
    requires
        a <= b,
    ensures
        pow2(a) <= pow2(b),
    decreases b - a,
{
    if a < b {
        lemma_pow2_mono(a, (b - 1) as nat);
    }
}

proof fn lemma_pow2_bound(n: nat)
    requires
        n <= 10,
    ensures
        pow2(n) <= 1024,
        n > 0 ==> pow2(n) == 2 * pow2((n - 1) as nat),
{
    reveal_with_fuel(pow2, 11);
    assert(pow2(10) == 1024);
    lemma_pow2_mono(n, 10);
}

impl Default for BluetoothLEManager {
    fn default() -> (m: Self)
        ensures
            !m.scanning,
            m.connected_devices@ == Map::<Seq<char>, DeviceInfo>::empty(),
            m.discovered_devices@ == Map::<Seq<char>, DeviceInfo>::empty(),
            m.pending_requests@ == Map::<Seq<char>, BluetoothLERequest>::empty(),
            m.connection_states@ == Map::<Seq<char>, BluetoothLEConnectionState>::empty(),
            m.last_error is None,
            m.error_count == 0,
            m.retry_backoff_ms == 100,
            !m.virtual_network_enabled,
            m.virtual_devices@ == Map::<Seq<char>, VirtualDevice>::empty(),
            m.virtual_devices.keys() == Seq::<Seq<char>>::empty(),
            m.virtual_command_log@ == Seq::<VirtualCommand>::empty(),
    {
        BluetoothLEManager::new()
    }
}

/// The back-off doubles with each error up to ten errors and then stays at
/// 102.4 s.
pub proof fn law_backoff_doubles_then_caps(n: nat)
    ensures
        n < 10 ==> backoff_ms(n + 1) == 2 * backoff_ms(n),
        n >= 10 ==> backoff_ms(n) == 102400,
        backoff_ms(n) <= 102400,
{
    reveal_with_fuel(pow2, 11);
    if n < 10 {
        lemma_pow2_bound(n + 1);
    } else {
        assert(pow2(10) == 1024);
    }
    lemma_pow2_bound(if n < 10 { n } else { 10 });
}

/// Retrying is allowed exactly while fewer than three errors have been
/// counted: below three errors the back-off is at most 400 ms, under the
/// 30 s limit.
pub proof fn law_retry_only_below_three_errors(m: BluetoothLEManager)
    requires
        m.retry_backoff_ms == backoff_ms(m.error_count as nat),
    ensures
        (m.error_count < 3 && m.retry_backoff_ms < 30000) == (m.error_count < 3),
{
    if m.error_count < 3 {
        reveal_with_fuel(pow2, 3);
        lemma_pow2_mono(m.error_count as nat, 2);
    }
}

/// Once the virtual network is on, a registered device connects at once:
/// its state becomes `Connected`, it joins the connected devices with the
/// information it was registered with, and the answer is `Connected`.
pub proof fn law_registered_device_connects(
    m0: BluetoothLEManager,
    m1: BluetoothLEManager,
    m2: BluetoothLEManager,
    device: VirtualDevice,
    device_id: DeviceId,
    responses: Seq<BluetoothLEResponse>,
)
    requires
        m0.virtual_network_enabled,
        device_registered(m0, m1, device),
        device_id.0@ == device.info.id.0@,
        connect_handled(m1, m2, device_id, responses),
    ensures
        m2.connection_states@[device_id.0@] == BluetoothLEConnectionState::Connected,
        m2.connected_devices@.contains_key(device_id.0@),
        m2.connected_devices@[device_id.0@]@ == device.info@,
        responses == seq![BluetoothLEResponse::Connected { device_id }],
{
    assert(m1.virtual_devices@.contains_key(device_id.0@));
}

/// A registered device answers every command while it stays registered:
/// with its first matching handler's template, else "OK".
pub proof fn law_registered_device_answers(
    m0: BluetoothLEManager,
    m1: BluetoothLEManager,
    m2: BluetoothLEManager,
    device: VirtualDevice,
    device_id: DeviceId,
    command: Seq<char>,
    now: Real64,
    reply: Option<String>,
)
    requires
        device_registered(m0, m1, device),
        device_id.0@ == device.info.id.0@,
        command_executed(m1, m2, device_id, command, now, reply),
    ensures
        reply matches Some(r) && r@ == virtual_reply(device, command),
{
}

/// Starting and then stopping a scan leaves the manager as it was, not
/// scanning.
pub proof fn law_scan_start_then_stop(
    m0: BluetoothLEManager,
    m1: BluetoothLEManager,
    m2: BluetoothLEManager,
    start: BluetoothLERequest,
    now: Real64,
    r1: Seq<BluetoothLEResponse>,
    r2: Seq<BluetoothLEResponse>,
)
    requires
        start is StartScan,
        request_handled(m0, m1, start, now, r1),
        request_handled(m1, m2, BluetoothLERequest::StopScan, now, r2),
    ensures
        !m2.scanning,
        m2 == (BluetoothLEManager { scanning: false, ..m0 }),
        r1[0] == BluetoothLEResponse::ScanStarted,
        r2 == seq![BluetoothLEResponse::ScanStopped],
{
}

/// A device that was connected and then disconnected is no longer among the
/// connected devices, and its state is `Disconnected`.
pub proof fn law_disconnect_after_connect(
    m0: BluetoothLEManager,
    m1: BluetoothLEManager,
    m2: BluetoothLEManager,
    device_id: DeviceId,
    r1: Seq<BluetoothLEResponse>,
    r2: Seq<BluetoothLEResponse>,
)
    requires
        connect_handled(m0, m1, device_id, r1),
        disconnect_handled(m1, m2, device_id, r2),
    ensures
        !m2.connected_devices@.contains_key(device_id.0@),
        m2.connection_states@[device_id.0@] == BluetoothLEConnectionState::Disconnected,
{
}

/// Enabling and then disabling the virtual network leaves it off, with the
/// rest of the manager as it was after enabling.
pub proof fn law_enable_then_disable(
    m0: BluetoothLEManager,
    m1: BluetoothLEManager,
    m2: BluetoothLEManager,
    now: Real64,
    r1: Seq<BluetoothLEResponse>,
    r2: Seq<BluetoothLEResponse>,
)
    requires
        request_handled(m0, m1, BluetoothLERequest::EnableVirtualNetwork, now, r1),
        request_handled(m1, m2, BluetoothLERequest::DisableVirtualNetwork, now, r2),
    ensures
        !m2.virtual_network_enabled,
        m2 == (BluetoothLEManager { virtual_network_enabled: false, ..m0 }),
        r1 == seq![BluetoothLEResponse::VirtualNetworkEnabled],
        r2 == seq![BluetoothLEResponse::VirtualNetworkDisabled],
{
}

/// With the virtual network off, a connection request for any device, a
/// registered virtual device included, is left to the platform: the
/// device's state becomes `Connecting`, nothing is answered, and the
/// connected devices stay as they were.
pub proof fn law_connect_without_virtual_network(
    pre: BluetoothLEManager,
    post: BluetoothLEManager,
    device_id: DeviceId,
    now: Real64,
    responses: Seq<BluetoothLEResponse>,
)
    requires
        !pre.virtual_network_enabled,
        request_handled(pre, post, BluetoothLERequest::Connect { device_id }, now, responses),
    ensures
        post.connection_states@ == pre.connection_states@.insert(device_id.0@, BluetoothLEConnectionState::Connecting),
        responses.len() == 0,
        post.connected_devices@ == pre.connected_devices@,
        !post.virtual_network_enabled,
{
}

/// With the virtual network on, connecting to a registered virtual device
/// succeeds at once: it is answered `Connected`, its state is `Connected`
/// and it joins the connected devices with its own description. Any other
/// device is left to the platform as `Connecting`, unanswered.
pub proof fn law_connect_with_virtual_network(
    pre: BluetoothLEManager,
    post: BluetoothLEManager,
    device_id: DeviceId,
    now: Real64,
    responses: Seq<BluetoothLEResponse>,
)
    requires
        pre.virtual_network_enabled,
        request_handled(pre, post, BluetoothLERequest::Connect { device_id }, now, responses),
    ensures
        pre.virtual_devices@.contains_key(device_id.0@) ==> {
            &&& responses == seq![BluetoothLEResponse::Connected { device_id }]
            &&& post.connection_states@ == pre.connection_states@.insert(device_id.0@, BluetoothLEConnectionState::Connected)
            &&& post.connected_devices@.contains_key(device_id.0@)
            &&& post.connected_devices@[device_id.0@]@ == pre.virtual_devices@[device_id.0@].info@
        },
        !pre.virtual_devices@.contains_key(device_id.0@) ==> {
            &&& responses.len() == 0
            &&& post.connection_states@ == pre.connection_states@.insert(device_id.0@, BluetoothLEConnectionState::Connecting)
            &&& post.connected_devices@ == pre.connected_devices@
        },
{
}

/// A virtual device answers the battery query with 85 % at 3.7 V, the
/// device-info query with firmware 1.0.0, hardware v2.1, serial VRT001, and
/// every other command with `Success`.
pub proof fn law_simulated_answers(command: ZephyrCommand, r: ZephyrResponse)
    requires
        simulated_reply(command, r),
    ensures
        command is GetBatteryLevel ==> r == (ZephyrResponse::BatteryLevel { percentage: 85, voltage_mv: 3700 }),
        command is GetDeviceInfo ==> r is DeviceInfo,
        !(command is GetBatteryLevel) && !(command is GetDeviceInfo) ==> r == ZephyrResponse::Success,
{
}

/// A command other than the battery and device-info queries, sent to a
/// registered virtual device with the network on, is answered by one
/// `CommandResponse` carrying the command, `Success` and 50 ms.
pub proof fn law_virtual_command_succeeds(
    pre: BluetoothLEManager,
    post: BluetoothLEManager,
    device_id: DeviceId,
    command: ZephyrCommand,
    timeout_ms: Option<u32>,
    now: Real64,
    responses: Seq<BluetoothLEResponse>,
)
    requires
        pre.virtual_network_enabled,
        pre.virtual_devices@.contains_key(device_id.0@),
        !(command is GetBatteryLevel),
        !(command is GetDeviceInfo),
        request_handled(pre, post, BluetoothLERequest::SendCommand { device_id, command, timeout_ms }, now, responses),
    ensures
        responses == seq![BluetoothLEResponse::CommandResponse {
            device_id,
            command,
            response: ZephyrResponse::Success,
            latency_ms: 50,
        }],
{
    assert(responses =~= seq![BluetoothLEResponse::CommandResponse {
        device_id,
        command,
        response: ZephyrResponse::Success,
        latency_ms: 50,
    }]);
}

/// Of two handler patterns, the first that a command contains is picked.
proof fn lemma_first_of_two(p0: Seq<char>, p1: Seq<char>, command: Seq<char>)
    ensures
        contains(command, p0) ==> first_match(seq![p0, p1], command) == Some(0int),
        !contains(command, p0) && contains(command, p1) ==> first_match(seq![p0, p1], command) == Some(1int),
{
    let ps = seq![p0, p1];
    assert(ps[0] == p0 && ps[1] == p1);
    if contains(command, p0) {
        assert(0 <= 0 < ps.len() && contains(command, ps[0]));
        let i = choose|i: int| 0 <= i < ps.len() && contains(command, ps[i])
            && forall|j: int| 0 <= j < i ==> !contains(command, ps[j]);
        assert(forall|j: int| 0 <= j < 0 ==> !contains(command, ps[j]));
        if i == 1 {
            assert(contains(command, ps[0]));
        }
    } else if contains(command, p1) {
        assert(0 <= 1 < ps.len() && contains(command, ps[1]));
        assert(forall|j: int| 0 <= j < 1 ==> !contains(command, ps[j]));
        let i = choose|i: int| 0 <= i < ps.len() && contains(command, ps[i])
            && forall|j: int| 0 <= j < i ==> !contains(command, ps[j]);
    }
}

/// The reply of a device with the two handlers `h` to a command whose text
/// contains the first pattern, or only the second.
proof fn lemma_reply_of_two(d: VirtualDevice, h: Seq<(Seq<char>, Seq<char>, u64)>, command: Seq<char>)
    requires
        h.len() == 2,
        d.command_handlers.keys() == h.map_values(|x: (Seq<char>, Seq<char>, u64)| x.0),
        forall|i: int| 0 <= i < h.len() ==> handler_is(#[trigger] d.command_handlers.values()[i], h[i].0, h[i].1, h[i].2),
    ensures
        contains(command, h[0].0) ==> handler_reply(d, command) == Some(h[0].1),
        !contains(command, h[0].0) && contains(command, h[1].0) ==> handler_reply(d, command) == Some(h[1].1),
{
    assert(d.command_handlers.keys() =~= seq![h[0].0, h[1].0]);
    lemma_first_of_two(h[0].0, h[1].0, command);
    assert(handler_is(d.command_handlers.values()[0], h[0].0, h[0].1, h[0].2));
    assert(handler_is(d.command_handlers.values()[1], h[1].0, h[1].1, h[1].2));
}

/// None of the named text pieces, and no digit, is a capital G.
proof fn lemma_pieces_lack_g()
    ensures
        lacks("CollarCommands"@, 'G'),
        lacks("FeedingCommands"@, 'G'),
        lacks("Vibrate"@, 'G'),
        lacks("DispenseFood"@, 'G'),
        lacks("command"@, 'G'),
        lacks("intensity"@, 'G'),
        lacks("duration_ms"@, 'G'),
        lacks("amount_grams"@, 'G'),
        lacks(" { "@, 'G'),
        lacks(" }"@, 'G'),
        lacks(": "@, 'G'),
        lacks(", "@, 'G'),
        forall|d: nat| d < 10 ==> digit_char(d) != 'G',
{
    reveal_strlit("CollarCommands");
    reveal_strlit("FeedingCommands");
    reveal_strlit("Vibrate");
    reveal_strlit("DispenseFood");
    reveal_strlit("command");
    reveal_strlit("intensity");
    reveal_strlit("duration_ms");
    reveal_strlit("amount_grams");
    reveal_strlit(" { ");
    reveal_strlit(" }");
    reveal_strlit(": ");
    reveal_strlit(", ");
}

/// The text of a vibration names the vibration and not the battery query.
proof fn lemma_vibrate_text(intensity: u8, duration_ms: u32)
    ensures
        contains(command_text(ZephyrCommand::CollarCommands { command: CollarCommand::Vibrate { intensity, duration_ms } }), "Vibrate"@),
        !contains(command_text(ZephyrCommand::CollarCommands { command: CollarCommand::Vibrate { intensity, duration_ms } }), "GetBatteryLevel"@),
{
    let t = command_text(ZephyrCommand::CollarCommands { command: CollarCommand::Vibrate { intensity, duration_ms } });
    let dv = decimal(intensity as nat);
    let dd = decimal(duration_ms as nat);
    let f1 = "intensity"@ + ": "@ + dv;
    let f2 = "duration_ms"@ + ": "@ + dd;
    lemma_record_text_two("Vibrate"@, "intensity"@, dv, "duration_ms"@, dd);
    let vib = "Vibrate"@ + " { "@ + (f1 + ", "@ + f2) + " }"@;
    lemma_record_text_one("CollarCommands"@, "command"@, vib);
    let head = "CollarCommands"@ + " { "@ + "command"@ + ": "@;
    let tail = " { "@ + (f1 + ", "@ + f2) + " }"@ + " }"@;
    assert(head + "Vibrate"@ + tail =~= t);
    lemma_contains_middle(head, "Vibrate"@, tail);
    lemma_pieces_lack_g();
    lemma_decimal_lacks(intensity as nat, 'G');
    lemma_decimal_lacks(duration_ms as nat, 'G');
    lemma_lacks_concat("CollarCommands"@, " { "@, 'G');
    lemma_lacks_concat("CollarCommands"@ + " { "@, "command"@, 'G');
    lemma_lacks_concat("CollarCommands"@ + " { "@ + "command"@, ": "@, 'G');
    lemma_lacks_concat(head, "Vibrate"@, 'G');
    lemma_lacks_concat("intensity"@, ": "@, 'G');
    lemma_lacks_concat("intensity"@ + ": "@, dv, 'G');
    lemma_lacks_concat("duration_ms"@, ": "@, 'G');
    lemma_lacks_concat("duration_ms"@ + ": "@, dd, 'G');
    lemma_lacks_concat(f1, ", "@, 'G');
    lemma_lacks_concat(f1 + ", "@, f2, 'G');
    lemma_lacks_concat(" { "@, f1 + ", "@ + f2, 'G');
    lemma_lacks_concat(" { "@ + (f1 + ", "@ + f2), " }"@, 'G');
    lemma_lacks_concat(" { "@ + (f1 + ", "@ + f2) + " }"@, " }"@, 'G');
    lemma_lacks_concat(head + "Vibrate"@, tail, 'G');
    reveal_strlit("GetBatteryLevel");
    lemma_lacks_first(t, "GetBatteryLevel"@);
}

/// The text of a dispensing names the dispensing and not the food-level
/// query.
proof fn lemma_dispense_text(amount_grams: u32)
    ensures
        contains(command_text(ZephyrCommand::FeedingCommands { command: FeedingCommand::DispenseFood { amount_grams } }), "DispenseFood"@),
        !contains(command_text(ZephyrCommand::FeedingCommands { command: FeedingCommand::DispenseFood { amount_grams } }), "GetFoodLevel"@),
{
    let t = command_text(ZephyrCommand::FeedingCommands { command: FeedingCommand::DispenseFood { amount_grams } });
    let da = decimal(amount_grams as nat);
    let f = "amount_grams"@ + ": "@ + da;
    lemma_record_text_one("DispenseFood"@, "amount_grams"@, da);
    lemma_record_text_one("FeedingCommands"@, "command"@, "DispenseFood"@ + " { "@ + f + " }"@);
    let head = "FeedingCommands"@ + " { "@ + "command"@ + ": "@;
    let tail = " { "@ + f + " }"@ + " }"@;
    assert(head + "DispenseFood"@ + tail =~= t);
    lemma_contains_middle(head, "DispenseFood"@, tail);
    lemma_pieces_lack_g();
    lemma_decimal_lacks(amount_grams as nat, 'G');
    lemma_lacks_concat("FeedingCommands"@, " { "@, 'G');
    lemma_lacks_concat("FeedingCommands"@ + " { "@, "command"@, 'G');
    lemma_lacks_concat("FeedingCommands"@ + " { "@ + "command"@, ": "@, 'G');
    lemma_lacks_concat(head, "DispenseFood"@, 'G');
    lemma_lacks_concat("amount_grams"@, ": "@, 'G');
    lemma_lacks_concat("amount_grams"@ + ": "@, da, 'G');
    lemma_lacks_concat(" { "@, f, 'G');
    lemma_lacks_concat(" { "@ + f, " }"@, 'G');
    lemma_lacks_concat(" { "@ + f + " }"@, " }"@, 'G');
    lemma_lacks_concat(head + "DispenseFood"@, tail, 'G');
    reveal_strlit("GetFoodLevel");
    lemma_lacks_first(t, "GetFoodLevel"@);
}

/// The texts of the battery and food-level queries name them.
proof fn lemma_query_texts()
    ensures
        contains(command_text(ZephyrCommand::GetBatteryLevel), "GetBatteryLevel"@),
        contains(command_text(ZephyrCommand::FeedingCommands { command: FeedingCommand::GetFoodLevel }), "GetFoodLevel"@),
{
    let e = Seq::<char>::empty();
    assert(e + "GetBatteryLevel"@ + e =~= command_text(ZephyrCommand::GetBatteryLevel));
    lemma_contains_middle(e, "GetBatteryLevel"@, e);
    lemma_record_text_one("FeedingCommands"@, "command"@, "GetFoodLevel"@);
    let head = "FeedingCommands"@ + " { "@ + "command"@ + ": "@;
    assert(head + "GetFoodLevel"@ + " }"@ =~= command_text(ZephyrCommand::FeedingCommands { command: FeedingCommand::GetFoodLevel }));
    lemma_contains_middle(head, "GetFoodLevel"@, " }"@);
}

/// Each test device answers the commands its handlers are named after with
/// those handlers' replies: the collar answers the battery query with "85%"
/// and any vibration with "Vibrating"; the feeder answers the food-level
/// query with "1200g/2000g" and any dispensing with "Food dispensed".
pub proof fn law_test_devices_answer_their_commands(
    collar: VirtualDevice,
    feeder: VirtualDevice,
    now: Real64,
    intensity: u8,
    duration_ms: u32,
    amount_grams: u32,
)
    requires
        test_device_is(
            collar,
            now,
            "virtual_collar_001"@,
            "Test Smart Collar"@,
            DeviceTypeView::SmartCollar { collar_type: CollarType::TrainingCollar },
            -45i16,
            "uuid_collar_service"@,
            "ZephyrCollar_v2.1"@,
            85u8,
            seq![("GetBatteryLevel"@, "85%"@, 100u64), ("Vibrate"@, "Vibrating"@, 50u64)],
        ),
        test_device_is(
            feeder,
            now,
            "virtual_feeder_001"@,
            "Test Feeding Station"@,
            DeviceTypeView::FeedingStation { capacity_ml: 2000 },
            -38i16,
            "uuid_feeder_service"@,
            "ZephyrFeeder_v1.5"@,
            92u8,
            seq![("GetFoodLevel"@, "1200g/2000g"@, 75u64), ("DispenseFood"@, "Food dispensed"@, 200u64)],
        ),
    ensures
        handler_reply(collar, command_text(ZephyrCommand::GetBatteryLevel)) == Some("85%"@),
        handler_reply(
            collar,
            command_text(ZephyrCommand::CollarCommands { command: CollarCommand::Vibrate { intensity, duration_ms } }),
        ) == Some("Vibrating"@),
        handler_reply(feeder, command_text(ZephyrCommand::FeedingCommands { command: FeedingCommand::GetFoodLevel }))
            == Some("1200g/2000g"@),
        handler_reply(
            feeder,
            command_text(ZephyrCommand::FeedingCommands { command: FeedingCommand::DispenseFood { amount_grams } }),
        ) == Some("Food dispensed"@),
{
    let hc = seq![("GetBatteryLevel"@, "85%"@, 100u64), ("Vibrate"@, "Vibrating"@, 50u64)];
    let hf = seq![("GetFoodLevel"@, "1200g/2000g"@, 75u64), ("DispenseFood"@, "Food dispensed"@, 200u64)];
    lemma_query_texts();
    lemma_vibrate_text(intensity, duration_ms);
    lemma_dispense_text(amount_grams);
    lemma_reply_of_two(collar, hc, command_text(ZephyrCommand::GetBatteryLevel));
    lemma_reply_of_two(
        collar,
        hc,
        command_text(ZephyrCommand::CollarCommands { command: CollarCommand::Vibrate { intensity, duration_ms } }),
    );
    lemma_reply_of_two(feeder, hf, command_text(ZephyrCommand::FeedingCommands { command: FeedingCommand::GetFoodLevel }));
    lemma_reply_of_two(
        feeder,
        hf,
        command_text(ZephyrCommand::FeedingCommands { command: FeedingCommand::DispenseFood { amount_grams } }),
    );
}

} // verus!
