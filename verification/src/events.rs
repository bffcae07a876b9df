//! The event bridge between the game and the page: events each way, the
//! table of requests awaiting an answer, and the shared settings.
use vstd::prelude::*;
use crate::ieee::{Real32, Real64};
use crate::keyed::KeyedList;

verus! {

/// Settings pushed from the page.
#[derive(Clone, Copy, Debug, PartialEq, Eq)]
pub struct SharedSettings {
    pub music_enabled: bool,
    pub bgm_volume: Real32,
    pub sfx_volume: Real32,
}

/// Bit pattern of the binary32 value 0.6.
pub const DEFAULT_BGM_VOLUME_BITS: u32 = 0x3F19_999A;

/// Bit pattern of the binary32 value 0.8.
pub const DEFAULT_SFX_VOLUME_BITS: u32 = 0x3F4C_CCCD;

impl Default for SharedSettings {
    /// Music off, background volume 0.6, effects volume 0.8.
    fn default() -> (r: Self)
        ensures
            !r.music_enabled,
            r.bgm_volume.bits == DEFAULT_BGM_VOLUME_BITS,
            r.sfx_volume.bits == DEFAULT_SFX_VOLUME_BITS,
    {
        SharedSettings {
            music_enabled: false,
            bgm_volume: Real32 { bits: DEFAULT_BGM_VOLUME_BITS },
            sfx_volume: Real32 { bits: DEFAULT_SFX_VOLUME_BITS },
        }
    }
}

/// Events the game sends to the page.
#[derive(Clone, Debug)]
pub enum BevyToJsEvent {
    /// Play a sound; the page answers with `AudioCompleted`.
    PlayAudio { request_id: String, sound_id: String, volume: Real32 },
    /// Scan for Bluetooth devices; the page answers with
    /// `BluetoothScanCompleted`.
    BluetoothScan { request_id: String, device_filter: String },
    /// A test event.
    TestEvent { request_id: String, message: String },
}

/// Events the page sends to the game.
#[derive(Clone, Debug)]
pub enum JsToBevyEvent {
    AudioCompleted {
        request_id: String,
        success: bool,
        error_message: Option<String>,
        duration_seconds: Option<Real32>,
    },
    BluetoothScanCompleted {
        request_id: String,
        success: bool,
        devices_found: Vec<String>,
        error_message: Option<String>,
    },
    TestEventResponse { request_id: String, response_data: String },
    UserGesture { request_id: String, timestamp: Real64 },
    SettingsUpdated { request_id: String, settings: SharedSettings },
}

/// A sound request awaiting its completion.
#[derive(Clone, Debug)]
pub struct AudioRequest {
    pub sound_id: String,
    pub volume: Real32,
    pub timestamp: Real64,
}

/// A scan request awaiting its completion.
#[derive(Clone, Debug)]
pub struct BluetoothRequest {
    pub device_filter: String,
    pub timestamp: Real64,
}

/// The requests sent to the page that have not been answered yet, by
/// request id.
#[derive(Clone, Debug)]
pub struct PendingRequests {
    pub audio_requests: KeyedList<AudioRequest>,
    pub bluetooth_requests: KeyedList<BluetoothRequest>,
}

/// What an event from the page resolved.
#[derive(Clone, Debug)]
#[allow(inconsistent_fields)]
pub enum JsEventOutcome {
    /// A sound finished; the pending request it answered, if one was known.
    AudioFinished { request: Option<AudioRequest> },
    /// A scan finished; the pending request it answered, if one was known.
    ScanFinished { request: Option<BluetoothRequest> },
    /// The settings were replaced.
    SettingsApplied,
    /// Nothing to resolve.
    Noted,
}

impl PendingRequests {
    /// No pending request.
    pub fn new() -> (r: Self)
        ensures
            r.audio_requests@ == Map::<Seq<char>, AudioRequest>::empty(),
            r.bluetooth_requests@ == Map::<Seq<char>, BluetoothRequest>::empty(),
    {
        PendingRequests { audio_requests: KeyedList::new(), bluetooth_requests: KeyedList::new() }
    }

    /// Records `event`, sent at `now`, as awaiting an answer: a sound or
    /// scan request is stored under its request id; a test event is not
    /// tracked.
    pub fn track(&mut self, event: &BevyToJsEvent, now: Real64)
        ensures
            match *event {
                BevyToJsEvent::PlayAudio { request_id, sound_id, volume } => {
                    &&& final(self).audio_requests@ == old(self).audio_requests@.insert(
                        request_id@,
                        AudioRequest { sound_id, volume, timestamp: now },
                    )
                    &&& final(self).bluetooth_requests == old(self).bluetooth_requests
                },
                BevyToJsEvent::BluetoothScan { request_id, device_filter } => {
                    &&& final(self).bluetooth_requests@ == old(self).bluetooth_requests@.insert(
                        request_id@,
                        BluetoothRequest { device_filter, timestamp: now },
                    )
                    &&& final(self).audio_requests == old(self).audio_requests
                },
                BevyToJsEvent::TestEvent { .. } => *final(self) == *old(self),
            },
    {
        match event {
            BevyToJsEvent::PlayAudio { request_id, sound_id, volume } => {
                self.audio_requests.insert(
                    request_id.clone(),
                    AudioRequest { sound_id: sound_id.clone(), volume: *volume, timestamp: now },
                );
            },
            BevyToJsEvent::BluetoothScan { request_id, device_filter } => {
                self.bluetooth_requests.insert(
                    request_id.clone(),
                    BluetoothRequest { device_filter: device_filter.clone(), timestamp: now },
                );
            },
            BevyToJsEvent::TestEvent { .. } => {},
        }
    }
}

impl Default for PendingRequests {
    fn default() -> (r: Self)
        ensures
            r.audio_requests@ == Map::<Seq<char>, AudioRequest>::empty(),
            r.bluetooth_requests@ == Map::<Seq<char>, BluetoothRequest>::empty(),
    {
        PendingRequests::new()
    }
}

/// Applies one event from the page: a completion removes and returns the
/// pending request it answers; pushed settings replace the current ones;
/// other events change nothing.
pub fn handle_js_to_bevy_event(
    pending: &mut PendingRequests,
    settings: &mut SharedSettings,
    event: &JsToBevyEvent,
) -> (r: JsEventOutcome)
    ensures
        match *event {
            JsToBevyEvent::AudioCompleted { request_id, .. } => {
                &&& final(pending).audio_requests@ == old(pending).audio_requests@.remove(request_id@)
                &&& final(pending).bluetooth_requests == old(pending).bluetooth_requests
                &&& *final(settings) == *old(settings)
                &&& r == JsEventOutcome::AudioFinished {
                    request: if old(pending).audio_requests@.contains_key(request_id@) {
                        Some(old(pending).audio_requests@[request_id@])
                    } else {
                        None
                    },
                }
            },
            JsToBevyEvent::BluetoothScanCompleted { request_id, .. } => {
                &&& final(pending).bluetooth_requests@ == old(pending).bluetooth_requests@.remove(request_id@)
                &&& final(pending).audio_requests == old(pending).audio_requests
                &&& *final(settings) == *old(settings)
                &&& r == JsEventOutcome::ScanFinished {
                    request: if old(pending).bluetooth_requests@.contains_key(request_id@) {
                        Some(old(pending).bluetooth_requests@[request_id@])
                    } else {
                        None
                    },
                }
            },
            JsToBevyEvent::SettingsUpdated { settings: pushed, .. } => {
                &&& *final(settings) == pushed
                &&& *final(pending) == *old(pending)
                &&& r == JsEventOutcome::SettingsApplied
            },
            _ => {
                &&& *final(settings) == *old(settings)
                &&& *final(pending) == *old(pending)
                &&& r == JsEventOutcome::Noted
            },
        },
{
    match event {
        JsToBevyEvent::AudioCompleted { request_id, .. } => {
            let request = pending.audio_requests.remove(request_id.as_str());
            JsEventOutcome::AudioFinished { request }
        },
        JsToBevyEvent::BluetoothScanCompleted { request_id, .. } => {
            let request = pending.bluetooth_requests.remove(request_id.as_str());
            JsEventOutcome::ScanFinished { request }
        },
        JsToBevyEvent::SettingsUpdated { settings: pushed, .. } => {
            *settings = *pushed;
            JsEventOutcome::SettingsApplied
        },
        _ => JsEventOutcome::Noted,
    }
}

/// A sound request that was tracked and then answered is no longer
/// pending, the answer hands back exactly the tracked request, and the
/// other pending sounds are as before the request.
pub proof fn law_answered_sound_is_no_longer_pending(
    p0: PendingRequests,
    p1: PendingRequests,
    p2: PendingRequests,
    s0: SharedSettings,
    s1: SharedSettings,
    sent: BevyToJsEvent,
    answer: JsToBevyEvent,
    now: Real64,
    outcome: JsEventOutcome,
)
    requires
        sent matches BevyToJsEvent::PlayAudio { request_id: a, .. },
        answer matches JsToBevyEvent::AudioCompleted { request_id: b, .. },
        sent->PlayAudio_request_id@ == answer->AudioCompleted_request_id@,
        p1.audio_requests@ == p0.audio_requests@.insert(
            sent->PlayAudio_request_id@,
            AudioRequest { sound_id: sent->PlayAudio_sound_id, volume: sent->PlayAudio_volume, timestamp: now },
        ),
        p2.audio_requests@ == p1.audio_requests@.remove(answer->AudioCompleted_request_id@),
        outcome == (JsEventOutcome::AudioFinished {
            request: if p1.audio_requests@.contains_key(answer->AudioCompleted_request_id@) {
                Some(p1.audio_requests@[answer->AudioCompleted_request_id@])
            } else {
                None
            },
        }),
    ensures
        !p2.audio_requests@.contains_key(sent->PlayAudio_request_id@),
        p2.audio_requests@ == p0.audio_requests@.remove(sent->PlayAudio_request_id@),
        outcome == (JsEventOutcome::AudioFinished {
            request: Some(AudioRequest { sound_id: sent->PlayAudio_sound_id, volume: sent->PlayAudio_volume, timestamp: now }),
        }),
{
    assert(p2.audio_requests@ =~= p0.audio_requests@.remove(sent->PlayAudio_request_id@));
}

} // verus!
