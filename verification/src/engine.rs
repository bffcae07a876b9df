//! The decisions behind the page-facing engine API: request ids, the
//! requests and events each call queues, and the Bluetooth status it
//! reports.
use vstd::prelude::*;
use vstd::string::*;
use crate::bluetooth::{create_test_virtual_devices, BluetoothLEManager, test_device_is, BluetoothLERequest, DeviceId, DeviceTypeView, CollarType};
use crate::events::BevyToJsEvent;
use crate::ieee::{Real32, Real64};
use crate::text::{contains, decimal, decimal_string, str_contains};
use crate::zephyr::ZephyrCommand;

verus! {

/// A request id: `prefix` followed by the time in whole milliseconds.
pub fn request_id(prefix: &str, now_ms: u64) -> (r: String)
    ensures
        r@ == prefix@ + decimal(now_ms as nat),
{
    let mut r = String::from_str(prefix);
    r.append(decimal_string(now_ms).as_str());
    r
}

/// The command a command description names: the battery level when it
/// mentions "battery", else the device information.
pub open spec fn command_for(description: Seq<char>) -> ZephyrCommand {
    if contains(description, "battery"@) {
        ZephyrCommand::GetBatteryLevel
    } else {
        ZephyrCommand::GetDeviceInfo
    }
}

/// The command a command description names.
pub fn parse_command(description: &str) -> (r: ZephyrCommand)
    ensures
        r == command_for(description@),
{
    if str_contains(description, "battery") {
        ZephyrCommand::GetBatteryLevel
    } else if str_contains(description, "info") {
        ZephyrCommand::GetDeviceInfo
    } else {
        ZephyrCommand::GetDeviceInfo
    }
}

/// The request that sends the command named by `description` to
/// `device_id`, with a 5 s timeout.
pub fn bluetooth_command_request(device_id: &str, description: &str) -> (r: BluetoothLERequest)
    ensures
        r matches BluetoothLERequest::SendCommand { device_id: d, command, timeout_ms }
            && d.0@ == device_id@ && command == command_for(description@) && timeout_ms == Some(5000u32),
{
    BluetoothLERequest::SendCommand {
        device_id: DeviceId(String::from_str(device_id)),
        command: parse_command(description),
        timeout_ms: Some(5000),
    }
}

/// The request that starts a scan of `duration_ms`, without a filter.
pub fn scan_request(duration_ms: Option<u32>) -> (r: BluetoothLERequest)
    ensures
        r == (BluetoothLERequest::StartScan { duration_ms, device_filter: None }),
{
    BluetoothLERequest::StartScan { duration_ms, device_filter: None }
}

/// The request that connects to `device_id`.
pub fn connect_request(device_id: &str) -> (r: BluetoothLERequest)
    ensures
        r matches BluetoothLERequest::Connect { device_id: d } && d.0@ == device_id@,
{
    BluetoothLERequest::Connect { device_id: DeviceId(String::from_str(device_id)) }
}

/// The request that disconnects from `device_id`.
pub fn disconnect_request(device_id: &str) -> (r: BluetoothLERequest)
    ensures
        r matches BluetoothLERequest::Disconnect { device_id: d } && d.0@ == device_id@,
{
    BluetoothLERequest::Disconnect { device_id: DeviceId(String::from_str(device_id)) }
}

/// The requests that turn the virtual network on: enabling it, then
/// registering the two test devices, seen at `now`.
pub fn enable_virtual_bluetooth_requests(now: Real64) -> (r: Vec<BluetoothLERequest>)
    ensures
        r@.len() == 3,
        r@[0] is EnableVirtualNetwork,
        r@[1] matches BluetoothLERequest::RegisterVirtualDevice { device } && test_device_is(
            device,
            now,
            "virtual_collar_001"@,
            "Test Smart Collar"@,
            DeviceTypeView::SmartCollar { collar_type: CollarType::TrainingCollar },
            -45i16,
            "uuid_collar_service"@,
            "ZephyrCollar_v2.1"@,
            85u8,
            seq![("GetBatteryLevel"@, "85%"@, 100u64), ("Vibrate"@, "Vibrating"@, 50u64)],
        ),
        r@[2] matches BluetoothLERequest::RegisterVirtualDevice { device } && test_device_is(
            device,
            now,
            "virtual_feeder_001"@,
            "Test Feeding Station"@,
            DeviceTypeView::FeedingStation { capacity_ml: 2000 },
            -38i16,
            "uuid_feeder_service"@,
            "ZephyrFeeder_v1.5"@,
            92u8,
            seq![("GetFoodLevel"@, "1200g/2000g"@, 75u64), ("DispenseFood"@, "Food dispensed"@, 200u64)],
        ),
{
    let mut r: Vec<BluetoothLERequest> = Vec::new();
    r.push(BluetoothLERequest::EnableVirtualNetwork);
    let mut devices = create_test_virtual_devices(now);
    let feeder = devices.pop().unwrap();
    let collar = devices.pop().unwrap();
    r.push(BluetoothLERequest::RegisterVirtualDevice { device: collar });
    r.push(BluetoothLERequest::RegisterVirtualDevice { device: feeder });
    r
}

/// The event that asks the page to play `sound_id` at `volume`.
pub fn play_audio_event(request_id: String, sound_id: &str, volume: Real32) -> (r: BevyToJsEvent)
    ensures
        r matches BevyToJsEvent::PlayAudio { request_id: rid, sound_id: s, volume: v }
            && rid == request_id && s@ == sound_id@ && v == volume,
{
    BevyToJsEvent::PlayAudio { request_id, sound_id: String::from_str(sound_id), volume }
}

/// A request to load a critter kind.
#[derive(Clone, Debug)]
pub struct LoadCritterEvent {
    pub critter_id: u32,
    pub name: String,
    pub species: String,
    /// The catalog id of the critter.
    pub id: String,
}

/// The load request of the older API, which names the critter by its name:
/// the name also serves as its catalog id.
pub fn load_critter_event(critter_id: u32, name: &str, species: &str) -> (r: LoadCritterEvent)
    ensures
        r.critter_id == critter_id,
        r.name@ == name@,
        r.species@ == species@,
        r.id@ == name@,
{
    LoadCritterEvent {
        critter_id,
        name: String::from_str(name),
        species: String::from_str(species),
        id: String::from_str(name),
    }
}

/// The load request for the catalog id `id`.
pub fn load_critter_by_id_event(id: &str) -> (r: LoadCritterEvent)
    ensures
        r.critter_id == 0,
        r.name@ == Seq::<char>::empty(),
        r.species@ == Seq::<char>::empty(),
        r.id@ == id@,
{
    LoadCritterEvent { critter_id: 0, name: String::new(), species: String::new(), id: String::from_str(id) }
}

/// The Bluetooth status the engine reports to the page.
#[derive(Clone, Copy, Debug, PartialEq, Eq)]
pub struct BluetoothStatus {
    pub scanning: bool,
    pub connected_devices: usize,
    pub discovered_devices: usize,
    pub virtual_network_enabled: bool,
}

/// The status of the manager: whether it is scanning, how many devices are
/// connected and discovered, and whether the virtual network is on.
pub fn bluetooth_status(bt: &BluetoothLEManager) -> (r: BluetoothStatus)
    ensures
        r.scanning == bt.scanning,
        r.connected_devices == bt.connected_devices@.len(),
        r.discovered_devices == bt.discovered_devices@.len(),
        r.virtual_network_enabled == bt.virtual_network_enabled,
{
    BluetoothStatus {
        scanning: bt.scanning,
        connected_devices: bt.connected_devices.len(),
        discovered_devices: bt.discovered_devices.len(),
        virtual_network_enabled: bt.virtual_network_enabled,
    }
}

} // verus!
