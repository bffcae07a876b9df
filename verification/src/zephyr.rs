//! The Zephyr device protocol: commands, responses, and the text form of a
//! command by which virtual devices pick their reply.
use vstd::prelude::*;
use crate::bluetooth::SensorType;
use crate::ieee::{Real32, Real64};
use crate::text::{decimal, decimal_string, views};
use vstd::string::*;

verus! {

/// Training mode of a smart collar.
#[derive(Clone, Copy, Debug, PartialEq, Eq)]
pub enum TrainingMode {
    Positive,
    Correction,
    Alert,
    Silent,
}

/// Feeding times ("HH:MM") and the portion in grams for each.
#[derive(Clone, Debug)]
pub struct FeedingSchedule {
    pub times: Vec<String>,
    pub portions: Vec<u32>,
}

/// Smart collar commands.
#[derive(Clone, Debug)]
pub enum CollarCommand {
    Vibrate { intensity: u8, duration_ms: u32 },
    PlaySound { sound_id: u8, volume: u8 },
    SetTrainingMode { mode: TrainingMode },
    GetLocation,
    GetHealthMetrics,
}

/// Feeding station commands.
#[derive(Clone, Debug)]
pub enum FeedingCommand {
    DispenseFood { amount_grams: u32 },
    GetFoodLevel,
    SetFeedingSchedule { schedule: FeedingSchedule },
    GetFeedingHistory,
}

/// Activity tracker commands.
#[derive(Clone, Debug)]
pub enum TrackerCommand {
    GetActivityData { start_time: u64, end_time: u64 },
    StartActivityTracking,
    StopActivityTracking,
    GetSensorData { sensor: SensorType },
    CalibrateDevice,
}

/// A command sent to a Zephyr device.
#[derive(Clone, Debug)]
#[allow(inconsistent_fields)]
pub enum ZephyrCommand {
    GetDeviceInfo,
    GetBatteryLevel,
    SetLEDState { r: u8, g: u8, b: u8 },
    Reboot,
    CollarCommands { command: CollarCommand },
    FeedingCommands { command: FeedingCommand },
    TrackerCommands { command: TrackerCommand },
    RawCommand { service_uuid: String, characteristic_uuid: String, data: Vec<u8> },
}

/// A Zephyr device's answer.
#[derive(Clone, Debug)]
pub enum ZephyrResponse {
    DeviceInfo { firmware_version: String, hardware_version: String, serial_number: String },
    BatteryLevel { percentage: u8, voltage_mv: u16 },
    LocationData { latitude: Real64, longitude: Real64, accuracy_m: Real32 },
    SensorData { sensor: SensorType, values: Vec<Real32>, timestamp: u64 },
    FoodLevel { current_grams: u32, capacity_grams: u32 },
    Success,
    Error { code: u16, message: String },
}

/// What `format!("{:?}", s)` yields for a string slice `s`: the text in
/// double quotes with `std`'s escapes. Named, not spelled out: the escape
/// rules rest on Unicode tables.
pub uninterp spec fn str_debug_text(s: Seq<char>) -> Seq<char>;

/// Calls `<str as core::fmt::Debug>::fmt` through `format!`. Claimed: the
/// result is [`str_debug_text`] of the argument, a function of its
/// characters alone.
#[verifier::external_body]
fn str_debug(s: &str) -> (r: String)
    ensures
        r@ == str_debug_text(s@),
{
    format!("{:?}", s)
}

/// `items` joined by `", "`.
pub open spec fn join(items: Seq<Seq<char>>) -> Seq<char>
    decreases items.len(),
{
    if items.len() == 0 {
        seq![]
    } else if items.len() == 1 {
        items[0]
    } else {
        join(items.drop_last()) + ", "@ + items.last()
    }
}

/// The `Debug` text of a list whose items have the texts `items`.
pub open spec fn list_text(items: Seq<Seq<char>>) -> Seq<char> {
    "["@ + join(items) + "]"@
}

/// The `Debug` text of a struct or struct-like variant `name` whose fields
/// have the given names and texts.
pub open spec fn record_text(name: Seq<char>, fields: Seq<(Seq<char>, Seq<char>)>) -> Seq<char> {
    name + " { "@ + join(field_parts(fields)) + " }"@
}

/// The `name: text` parts of a record's fields.
pub open spec fn field_parts(fields: Seq<(Seq<char>, Seq<char>)>) -> Seq<Seq<char>> {
    Seq::new(fields.len(), |i: int| fields[i].0 + ": "@ + fields[i].1)
}

/// `Debug` text of a sensor kind.
pub open spec fn sensor_text(s: SensorType) -> Seq<char> {
    match s {
        SensorType::Accelerometer => "Accelerometer"@,
        SensorType::Gyroscope => "Gyroscope"@,
        SensorType::HeartRate => "HeartRate"@,
        SensorType::Temperature => "Temperature"@,
        SensorType::GPS => "GPS"@,
        SensorType::Microphone => "Microphone"@,
    }
}

/// `Debug` text of a training mode.
pub open spec fn mode_text(m: TrainingMode) -> Seq<char> {
    match m {
        TrainingMode::Positive => "Positive"@,
        TrainingMode::Correction => "Correction"@,
        TrainingMode::Alert => "Alert"@,
        TrainingMode::Silent => "Silent"@,
    }
}

/// `Debug` text of a feeding schedule.
pub open spec fn schedule_text(s: FeedingSchedule) -> Seq<char> {
    record_text(
        "FeedingSchedule"@,
        seq![
            ("times"@, list_text(s.times@.map_values(|t: String| str_debug_text(t@)))),
            ("portions"@, list_text(s.portions@.map_values(|p: u32| decimal(p as nat)))),
        ],
    )
}

/// `Debug` text of a collar command.
pub open spec fn collar_text(c: CollarCommand) -> Seq<char> {
    match c {
        CollarCommand::Vibrate { intensity, duration_ms } => record_text(
            "Vibrate"@,
            seq![("intensity"@, decimal(intensity as nat)), ("duration_ms"@, decimal(duration_ms as nat))],
        ),
        CollarCommand::PlaySound { sound_id, volume } => record_text(
            "PlaySound"@,
            seq![("sound_id"@, decimal(sound_id as nat)), ("volume"@, decimal(volume as nat))],
        ),
        CollarCommand::SetTrainingMode { mode } => record_text("SetTrainingMode"@, seq![("mode"@, mode_text(mode))]),
        CollarCommand::GetLocation => "GetLocation"@,
        CollarCommand::GetHealthMetrics => "GetHealthMetrics"@,
    }
}

/// `Debug` text of a feeding command.
pub open spec fn feeding_text(c: FeedingCommand) -> Seq<char> {
    match c {
        FeedingCommand::DispenseFood { amount_grams } => record_text(
            "DispenseFood"@,
            seq![("amount_grams"@, decimal(amount_grams as nat))],
        ),
        FeedingCommand::GetFoodLevel => "GetFoodLevel"@,
        FeedingCommand::SetFeedingSchedule { schedule } => record_text(
            "SetFeedingSchedule"@,
            seq![("schedule"@, schedule_text(schedule))],
        ),
        FeedingCommand::GetFeedingHistory => "GetFeedingHistory"@,
    }
}

/// `Debug` text of a tracker command.
pub open spec fn tracker_text(c: TrackerCommand) -> Seq<char> {
    match c {
        TrackerCommand::GetActivityData { start_time, end_time } => record_text(
            "GetActivityData"@,
            seq![("start_time"@, decimal(start_time as nat)), ("end_time"@, decimal(end_time as nat))],
        ),
        TrackerCommand::StartActivityTracking => "StartActivityTracking"@,
        TrackerCommand::StopActivityTracking => "StopActivityTracking"@,
        TrackerCommand::GetSensorData { sensor } => record_text("GetSensorData"@, seq![("sensor"@, sensor_text(sensor))]),
        TrackerCommand::CalibrateDevice => "CalibrateDevice"@,
    }
}

/// The text `format!("{:?}", command)` gives for the derived `Debug` of a
/// command.
pub open spec fn command_text(c: ZephyrCommand) -> Seq<char> {
    match c {
        ZephyrCommand::GetDeviceInfo => "GetDeviceInfo"@,
        ZephyrCommand::GetBatteryLevel => "GetBatteryLevel"@,
        ZephyrCommand::SetLEDState { r, g, b } => record_text(
            "SetLEDState"@,
            seq![("r"@, decimal(r as nat)), ("g"@, decimal(g as nat)), ("b"@, decimal(b as nat))],
        ),
        ZephyrCommand::Reboot => "Reboot"@,
        ZephyrCommand::CollarCommands { command } => record_text("CollarCommands"@, seq![("command"@, collar_text(command))]),
        ZephyrCommand::FeedingCommands { command } => record_text("FeedingCommands"@, seq![("command"@, feeding_text(command))]),
        ZephyrCommand::TrackerCommands { command } => record_text("TrackerCommands"@, seq![("command"@, tracker_text(command))]),
        ZephyrCommand::RawCommand { service_uuid, characteristic_uuid, data } => record_text(
            "RawCommand"@,
            seq![
                ("service_uuid"@, str_debug_text(service_uuid@)),
                ("characteristic_uuid"@, str_debug_text(characteristic_uuid@)),
                ("data"@, list_text(data@.map_values(|b: u8| decimal(b as nat)))),
            ],
        ),
    }
}

/// `items` joined by `", "`.
fn join_string(items: &Vec<String>) -> (r: String)
    ensures
        r@ == join(views(items@)),
{
    let mut r = String::new();
    let ghost all = views(items@);
    for i in 0..items.len()
        invariant
            all == views(items@),
            r@ == join(all.take(i as int)),
    {
        proof {
            reveal_strlit(", ");
            let t = all.take(i + 1);
            assert(t.drop_last() =~= all.take(i as int));
            assert(t.last() == items@[i as int]@);
        }
        if i > 0 {
            r.append(", ");
        }
        r.append(items[i].as_str());
        proof {
            let t = all.take(i + 1);
            if i == 0 {
                assert(all.take(0) =~= Seq::<Seq<char>>::empty());
                assert(r@ =~= t[0]);
            } else {
                assert(r@ =~= join(t.drop_last()) + ", "@ + t.last());
            }
        }
    }
    assert(all.take(items@.len() as int) =~= all);
    r
}

/// `Debug` text of a list with the given item texts.
fn list_string(items: &Vec<String>) -> (r: String)
    ensures
        r@ == list_text(views(items@)),
{
    let mut r = String::from_str("[");
    let j = join_string(items);
    r.append(j.as_str());
    r.append("]");
    r
}

/// Views of named fields.
pub open spec fn field_views(fields: Seq<(&'static str, String)>) -> Seq<(Seq<char>, Seq<char>)> {
    fields.map_values(|f: (&'static str, String)| (f.0@, f.1@))
}

/// `Debug` text of a record with the given field names and texts.
fn record_string(name: &str, fields: Vec<(&'static str, String)>) -> (r: String)
    ensures
        r@ == record_text(name@, field_views(fields@)),
{
    let mut parts: Vec<String> = Vec::new();
    for i in 0..fields.len()
        invariant
            views(parts@) == field_parts(field_views(fields@)).take(i as int),
    {
        let mut p = String::from_str(fields[i].0);
        p.append(": ");
        p.append(fields[i].1.as_str());
        let ghost pv = p@;
        let ghost before = views(parts@);
        parts.push(p);
        proof {
            let fv = field_views(fields@);
            assert(fv[i as int] == (fields@[i as int].0@, fields@[i as int].1@));
            assert(pv == fv[i as int].0 + ": "@ + fv[i as int].1);
            assert(views(parts@) =~= before.push(pv));
            assert(views(parts@) =~= field_parts(field_views(fields@)).take(i + 1));
        }
    }
    proof {
        assert(field_parts(field_views(fields@)).take(fields@.len() as int) =~= field_parts(field_views(fields@)));
    }
    let mut r = String::from_str(name);
    r.append(" { ");
    let j = join_string(&parts);
    r.append(j.as_str());
    r.append(" }");
    r
}

/// Decimal texts of bytes.
fn u8_texts(v: &Vec<u8>) -> (r: Vec<String>)
    ensures
        views(r@) == v@.map_values(|b: u8| decimal(b as nat)),
{
    let mut r: Vec<String> = Vec::new();
    for i in 0..v.len()
        invariant
            views(r@) == v@.take(i as int).map_values(|b: u8| decimal(b as nat)),
    {
        let t = decimal_string(v[i] as u64);
        let ghost tv = t@;
        let ghost before = views(r@);
        r.push(t);
        assert(views(r@) =~= before.push(tv));
        assert(views(r@) =~= v@.take(i + 1).map_values(|b: u8| decimal(b as nat)));
    }
    assert(v@.take(v@.len() as int) =~= v@);
    r
}

/// Decimal texts of 32-bit numbers.
fn u32_texts(v: &Vec<u32>) -> (r: Vec<String>)
    ensures
        views(r@) == v@.map_values(|b: u32| decimal(b as nat)),
{
    let mut r: Vec<String> = Vec::new();
    for i in 0..v.len()
        invariant
            views(r@) == v@.take(i as int).map_values(|b: u32| decimal(b as nat)),
    {
        let t = decimal_string(v[i] as u64);
        let ghost tv = t@;
        let ghost before = views(r@);
        r.push(t);
        assert(views(r@) =~= before.push(tv));
        assert(views(r@) =~= v@.take(i + 1).map_values(|b: u32| decimal(b as nat)));
    }
    assert(v@.take(v@.len() as int) =~= v@);
    r
}

/// `Debug` texts of strings.
fn string_texts(v: &Vec<String>) -> (r: Vec<String>)
    ensures
        views(r@) == v@.map_values(|t: String| str_debug_text(t@)),
{
    let mut r: Vec<String> = Vec::new();
    for i in 0..v.len()
        invariant
            views(r@) == v@.take(i as int).map_values(|t: String| str_debug_text(t@)),
    {
        let t = str_debug(v[i].as_str());
        let ghost tv = t@;
        let ghost before = views(r@);
        r.push(t);
        assert(views(r@) =~= before.push(tv));
        assert(views(r@) =~= v@.take(i + 1).map_values(|t: String| str_debug_text(t@)));
    }
    assert(v@.take(v@.len() as int) =~= v@);
    r
}

/// `Debug` text of a sensor kind.
pub fn sensor_string(s: SensorType) -> (r: String)
    ensures
        r@ == sensor_text(s),
{
    match s {
        SensorType::Accelerometer => String::from_str("Accelerometer"),
        SensorType::Gyroscope => String::from_str("Gyroscope"),
        SensorType::HeartRate => String::from_str("HeartRate"),
        SensorType::Temperature => String::from_str("Temperature"),
        SensorType::GPS => String::from_str("GPS"),
        SensorType::Microphone => String::from_str("Microphone"),
    }
}

/// `Debug` text of a training mode.
pub fn mode_string(m: TrainingMode) -> (r: String)
    ensures
        r@ == mode_text(m),
{
    match m {
        TrainingMode::Positive => String::from_str("Positive"),
        TrainingMode::Correction => String::from_str("Correction"),
        TrainingMode::Alert => String::from_str("Alert"),
        TrainingMode::Silent => String::from_str("Silent"),
    }
}

/// `Debug` text of a feeding schedule.
pub fn schedule_string(s: &FeedingSchedule) -> (r: String)
    ensures
        r@ == schedule_text(*s),
{
    let times = list_string(&string_texts(&s.times));
    let portions = list_string(&u32_texts(&s.portions));
    let fields = vec![("times", times), ("portions", portions)];
    let r = record_string("FeedingSchedule", fields);
    assert(field_views(fields@) =~= seq![
        ("times"@, list_text(s.times@.map_values(|t: String| str_debug_text(t@)))),
        ("portions"@, list_text(s.portions@.map_values(|p: u32| decimal(p as nat)))),
    ]);
    r
}

/// `Debug` text of a collar command.
pub fn collar_string(c: &CollarCommand) -> (r: String)
    ensures
        r@ == collar_text(*c),
{
    match c {
        CollarCommand::Vibrate { intensity, duration_ms } => {
            let fields = vec![("intensity", decimal_string(*intensity as u64)), ("duration_ms", decimal_string(*duration_ms as u64))];
            let r = record_string("Vibrate", fields);
            assert(field_views(fields@) =~= seq![("intensity"@, decimal(*intensity as nat)), ("duration_ms"@, decimal(*duration_ms as nat))]);
            r
        },
        CollarCommand::PlaySound { sound_id, volume } => {
            let fields = vec![("sound_id", decimal_string(*sound_id as u64)), ("volume", decimal_string(*volume as u64))];
            let r = record_string("PlaySound", fields);
            assert(field_views(fields@) =~= seq![("sound_id"@, decimal(*sound_id as nat)), ("volume"@, decimal(*volume as nat))]);
            r
        },
        CollarCommand::SetTrainingMode { mode } => {
            let fields = vec![("mode", mode_string(*mode))];
            let r = record_string("SetTrainingMode", fields);
            assert(field_views(fields@) =~= seq![("mode"@, mode_text(*mode))]);
            r
        },
        CollarCommand::GetLocation => String::from_str("GetLocation"),
        CollarCommand::GetHealthMetrics => String::from_str("GetHealthMetrics"),
    }
}

/// `Debug` text of a feeding command.
pub fn feeding_string(c: &FeedingCommand) -> (r: String)
    ensures
        r@ == feeding_text(*c),
{
    match c {
        FeedingCommand::DispenseFood { amount_grams } => {
            let fields = vec![("amount_grams", decimal_string(*amount_grams as u64))];
            let r = record_string("DispenseFood", fields);
            assert(field_views(fields@) =~= seq![("amount_grams"@, decimal(*amount_grams as nat))]);
            r
        },
        FeedingCommand::GetFoodLevel => String::from_str("GetFoodLevel"),
        FeedingCommand::SetFeedingSchedule { schedule } => {
            let fields = vec![("schedule", schedule_string(schedule))];
            let r = record_string("SetFeedingSchedule", fields);
            assert(field_views(fields@) =~= seq![("schedule"@, schedule_text(*schedule))]);
            r
        },
        FeedingCommand::GetFeedingHistory => String::from_str("GetFeedingHistory"),
    }
}

/// `Debug` text of a tracker command.
pub fn tracker_string(c: &TrackerCommand) -> (r: String)
    ensures
        r@ == tracker_text(*c),
{
    match c {
        TrackerCommand::GetActivityData { start_time, end_time } => {
            let fields = vec![("start_time", decimal_string(*start_time)), ("end_time", decimal_string(*end_time))];
            let r = record_string("GetActivityData", fields);
            assert(field_views(fields@) =~= seq![("start_time"@, decimal(*start_time as nat)), ("end_time"@, decimal(*end_time as nat))]);
            r
        },
        TrackerCommand::StartActivityTracking => String::from_str("StartActivityTracking"),
        TrackerCommand::StopActivityTracking => String::from_str("StopActivityTracking"),
        TrackerCommand::GetSensorData { sensor } => {
            let fields = vec![("sensor", sensor_string(*sensor))];
            let r = record_string("GetSensorData", fields);
            assert(field_views(fields@) =~= seq![("sensor"@, sensor_text(*sensor))]);
            r
        },
        TrackerCommand::CalibrateDevice => String::from_str("CalibrateDevice"),
    }
}

/// The text of a command as `format!("{:?}", command)` renders it.
pub fn command_string(c: &ZephyrCommand) -> (r: String)
    ensures
        r@ == command_text(*c),
{
    match c {
        ZephyrCommand::GetDeviceInfo => String::from_str("GetDeviceInfo"),
        ZephyrCommand::GetBatteryLevel => String::from_str("GetBatteryLevel"),
        ZephyrCommand::SetLEDState { r, g, b } => {
            let fields = vec![("r", decimal_string(*r as u64)), ("g", decimal_string(*g as u64)), ("b", decimal_string(*b as u64))];
            let t = record_string("SetLEDState", fields);
            assert(field_views(fields@) =~= seq![("r"@, decimal(*r as nat)), ("g"@, decimal(*g as nat)), ("b"@, decimal(*b as nat))]);
            t
        },
        ZephyrCommand::Reboot => String::from_str("Reboot"),
        ZephyrCommand::CollarCommands { command } => {
            let fields = vec![("command", collar_string(command))];
            let t = record_string("CollarCommands", fields);
            assert(field_views(fields@) =~= seq![("command"@, collar_text(*command))]);
            t
        },
        ZephyrCommand::FeedingCommands { command } => {
            let fields = vec![("command", feeding_string(command))];
            let t = record_string("FeedingCommands", fields);
            assert(field_views(fields@) =~= seq![("command"@, feeding_text(*command))]);
            t
        },
        ZephyrCommand::TrackerCommands { command } => {
            let fields = vec![("command", tracker_string(command))];
            let t = record_string("TrackerCommands", fields);
            assert(field_views(fields@) =~= seq![("command"@, tracker_text(*command))]);
            t
        },
        ZephyrCommand::RawCommand { service_uuid, characteristic_uuid, data } => {
            let fields = vec![
                ("service_uuid", str_debug(service_uuid.as_str())),
                ("characteristic_uuid", str_debug(characteristic_uuid.as_str())),
                ("data", list_string(&u8_texts(data))),
            ];
            let t = record_string("RawCommand", fields);
            assert(field_views(fields@) =~= seq![
                ("service_uuid"@, str_debug_text(service_uuid@)),
                ("characteristic_uuid"@, str_debug_text(characteristic_uuid@)),
                ("data"@, list_text(data@.map_values(|b: u8| decimal(b as nat)))),
            ]);
            t
        },
    }
}

/// The `Debug` text of a record with one field, spelled out.
pub proof fn lemma_record_text_one(name: Seq<char>, f: Seq<char>, t: Seq<char>)
    ensures
        record_text(name, seq![(f, t)]) == name + " { "@ + (f + ": "@ + t) + " }"@,
{
    assert(field_parts(seq![(f, t)]) =~= seq![f + ": "@ + t]);
}

/// The `Debug` text of a record with two fields, spelled out.
pub proof fn lemma_record_text_two(name: Seq<char>, f1: Seq<char>, t1: Seq<char>, f2: Seq<char>, t2: Seq<char>)
    ensures
        record_text(name, seq![(f1, t1), (f2, t2)]) == name + " { "@ + ((f1 + ": "@ + t1) + ", "@ + (f2 + ": "@ + t2)) + " }"@,
{
    let parts = field_parts(seq![(f1, t1), (f2, t2)]);
    assert(parts =~= seq![f1 + ": "@ + t1, f2 + ": "@ + t2]);
    assert(parts.drop_last() =~= seq![f1 + ": "@ + t1]);
    reveal_with_fuel(join, 2);
}

} // verus!
