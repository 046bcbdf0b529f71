//! Start-up and life cycle of the radio keyboard.
//!
//! The keyboard advertises on the radio link, serves a peer that connects,
//! and gives way to the wired link whenever the host on the wire is ready.
//! The waiting itself is done by the caller: this module decides, from the
//! state the keyboard is in and from what the caller has seen happen, where
//! the keyboard goes next, whether the radio connection has to be closed and
//! how long to pause before going on.

use vstd::prelude::*;
use crate::ble::bonder::{BondCache, BondInfo};

verus! {

/// Maximum number of bonded devices
pub const BONDED_DEVICE_NUM: usize = 8;

/// Pause before advertising again after a failed advertisement or the end of
/// a connection, in milliseconds.
pub const RETRY_DELAY_MS: u64 = 100;

/// Pause between the connection of a peer and the start of its services, in
/// milliseconds.
pub const GATT_START_DELAY_MS: u64 = 200;

/// Pause that lets the wired link resume when it became ready during an
/// advertisement, in milliseconds.
pub const USB_RESUME_DELAY_MS: u64 = 10;

/// Payload length of a keyboard report, in bytes.
pub const KEYBOARD_REPORT_LEN: usize = 8;

/// Payload length of a media key report, in bytes.
pub const MEDIA_REPORT_LEN: usize = 2;

/// Payload length of a system control report, in bytes.
pub const SYSTEM_CONTROL_REPORT_LEN: usize = 1;

/// Payload length of a mouse report, in bytes.
pub const MOUSE_REPORT_LEN: usize = 5;

/// Source of the low frequency clock of the radio stack.
#[derive(Clone, Copy, Debug, PartialEq, Eq)]
pub enum LfClockSource {
    /// The internal RC oscillator.
    Rc,
    /// An external crystal.
    Xtal,
    /// Synthesized from the high frequency clock.
    Synth,
}

/// Settings the radio stack is enabled with.
#[derive(Clone, Copy, Debug, PartialEq, Eq)]
pub struct BleConfig {
    pub clock_source: LfClockSource,
    /// Calibration interval of the RC oscillator, in quarter seconds.
    pub clock_rc_ctiv: u8,
    /// Calibration intervals between two that are forced by a change of
    /// temperature.
    pub clock_rc_temp_ctiv: u8,
    /// Accuracy of the clock, in parts per million.
    pub clock_accuracy_ppm: u16,
    /// Number of connections.
    pub conn_count: u8,
    /// Length of a connection event, in units of 1.25 ms.
    pub event_length: u16,
    /// Largest attribute protocol packet.
    pub att_mtu: u16,
    /// Size of the attribute table, in bytes.
    pub attr_tab_size: u32,
    pub adv_set_count: u8,
    pub periph_role_count: u8,
    pub central_role_count: u8,
    pub central_sec_count: u8,
    /// Length of the device name in bytes, as the stack takes it: its low 16
    /// bits.
    pub device_name_len: u16,
}

/// The settings for a keyboard whose name is `name_len` bytes long.
pub open spec fn ble_config_for(name_len: usize) -> BleConfig {
    BleConfig {
        clock_source: LfClockSource::Rc,
        clock_rc_ctiv: 16,
        clock_rc_temp_ctiv: 2,
        clock_accuracy_ppm: 500,
        conn_count: 6,
        event_length: 24,
        att_mtu: 256,
        attr_tab_size: 1408,
        adv_set_count: 1,
        periph_role_count: 3,
        central_role_count: 0,
        central_sec_count: 0,
        device_name_len: (name_len % 0x1_0000) as u16,
    }
}

/// Create default nrf ble config
pub fn nrf_ble_config(keyboard_name: &str) -> (config: BleConfig)
    ensures
        config == ble_config_for(keyboard_name.len()),
{
    BleConfig {
        clock_source: LfClockSource::Rc,
        clock_rc_ctiv: 16,
        clock_rc_temp_ctiv: 2,
        clock_accuracy_ppm: 500,
        conn_count: 6,
        event_length: 24,
        att_mtu: 256,
        attr_tab_size: 1408,
        adv_set_count: 1,
        periph_role_count: 3,
        central_role_count: 0,
        central_sec_count: 0,
        device_name_len: (keyboard_name.len() % 0x1_0000) as u16,
    }
}

/// What the radio stack reports of the power on the wired link.
#[derive(Clone, Copy, Debug, PartialEq, Eq)]
pub enum PowerEvent {
    /// Power was taken from the wired link.
    UsbRemoved,
    /// Power was found on the wired link.
    UsbDetected,
    /// The power on the wired link is ready for use.
    UsbPowerReady,
    /// Any other event of the system.
    Other,
}

/// What to tell the detector of bus power.
#[derive(Clone, Copy, Debug, PartialEq, Eq)]
pub enum VbusUpdate {
    /// Bus power is, or is not, there.
    Detected(bool),
    /// Bus power is ready.
    Ready,
    /// Nothing.
    Nothing,
}

/// Turns an event of the radio stack into what the detector of bus power has
/// to be told.
pub fn vbus_update(event: PowerEvent) -> (update: VbusUpdate)
    ensures
        update == match event {
            PowerEvent::UsbRemoved => VbusUpdate::Detected(false),
            PowerEvent::UsbDetected => VbusUpdate::Detected(true),
            PowerEvent::UsbPowerReady => VbusUpdate::Ready,
            PowerEvent::Other => VbusUpdate::Nothing,
        },
{
    match event {
        PowerEvent::UsbRemoved => VbusUpdate::Detected(false),
        PowerEvent::UsbDetected => VbusUpdate::Detected(true),
        PowerEvent::UsbPowerReady => VbusUpdate::Ready,
        PowerEvent::Other => VbusUpdate::Nothing,
    }
}

/// What reading one bond slot of the persistent store gave.
#[derive(Clone, Copy, Debug, PartialEq, Eq)]
pub enum StoredRecord {
    /// A bond record.
    Bond(BondInfo),
    /// A record of another kind.
    Other,
    /// No record under the key of the slot.
    Missing,
    /// The store failed to read or to decode the record.
    Corrupt,
}

/// The bonds among the first `slots` of `records`, each under the number of
/// its slot.
pub open spec fn bonds_in(records: Seq<StoredRecord>, slots: int) -> Map<u8, BondInfo> {
    Map::new(
        |slot: u8| slot < slots && records[slot as int] is Bond,
        |slot: u8| records[slot as int]->Bond_0,
    )
}

/// The number of bond records among the first `slots` of `records`.
pub open spec fn bond_count(records: Seq<StoredRecord>, slots: int) -> nat
    decreases slots,
{
    if slots <= 0 {
        0
    } else {
        bond_count(records, slots - 1) + if records[slots - 1] is Bond {
            1nat
        } else {
            0nat
        }
    }
}

/// Builds the cache of bonded devices from what the persistent store gave
/// for each slot. A slot with a bond record enters the cache under its
/// number; a slot whose record is missing, corrupt or of another kind is
/// passed over.
pub fn load_bond_info(records: &[StoredRecord; BONDED_DEVICE_NUM]) -> (cache: BondCache)
    ensures
        cache.wf(),
        cache@ == bonds_in(records@, BONDED_DEVICE_NUM as int),
        cache@.dom().len() == bond_count(records@, BONDED_DEVICE_NUM as int),
{
    let mut cache = BondCache::new();
    let mut key: usize = 0;
    assert(cache@ =~= bonds_in(records@, 0));
    while key < BONDED_DEVICE_NUM
        invariant
            key <= BONDED_DEVICE_NUM,
            cache.wf(),
            cache@ == bonds_in(records@, key as int),
            cache@.dom().len() == bond_count(records@, key as int),
            cache@.dom().len() <= key,
        decreases BONDED_DEVICE_NUM - key,
    {
        match records[key] {
            StoredRecord::Bond(info) => {
                let outcome = cache.insert(key as u8, info);
                assert(outcome.is_ok());
                assert(cache@ =~= bonds_in(records@, key + 1));
            },
            _ => {
                assert(cache@ =~= bonds_in(records@, key + 1));
            },
        }
        key = key + 1;
    }
    cache
}

/// What the keyboard is doing with its two links.
#[derive(Clone, Copy, Debug, PartialEq, Eq)]
pub enum ConnectionState {
    /// About to advertise, or advertising on the radio link alone.
    Advertising,
    /// Advertising on the radio link while watching the wired link.
    RacingUsb,
    /// Serving a peer over the radio link.
    BleConnected,
    /// Serving the host over the wired link.
    UsbActive,
}

/// The services that run side by side while a peer is connected. The first
/// one to end ends them all.
#[derive(Clone, Copy, Debug, PartialEq, Eq)]
pub enum Service {
    /// Serves the peer's requests on the radio link; ends when the peer
    /// disconnects.
    GattServer,
    /// Delivers key events as reports.
    Keyboard,
    /// Reports the battery level.
    Battery,
    /// Persists pending changes.
    Storage,
}

/// What the caller has seen happen.
#[derive(Clone, Copy, Debug, PartialEq, Eq)]
pub enum LinkEvent {
    /// The host on the wired link is ready.
    WiredReady,
    /// The wired link was looked at and its host is not ready.
    WiredIdle,
    /// The wired link was suspended or unplugged.
    WiredSuspended,
    /// A peer connected on the radio link.
    PeerConnected,
    /// The radio stack failed to advertise or to set up the connection.
    AdvertiseFailed,
    /// One of the services of the connection ended, with or without an error.
    ServiceExited(Service),
}

/// The answer to an event: the state to go to, whether to close the radio
/// connection first, and how long to pause before the work of the new state
/// begins.
#[derive(Clone, Copy, Debug, PartialEq, Eq)]
pub struct Transition {
    pub state: ConnectionState,
    pub disconnect: bool,
    pub delay_ms: u64,
}

/// The answer to an event that does not concern the state the keyboard is in:
/// stay, at once.
pub open spec fn stay(state: ConnectionState) -> Transition {
    Transition { state, disconnect: false, delay_ms: 0 }
}

/// The rules of the life cycle.
///
/// A ready wired link wins over the radio link wherever the keyboard has a
/// wired link: it ends an advertisement and it ends a connection, which is
/// then closed. A peer that connects is served after a short pause. Whatever
/// ends the services of a connection, and a failed advertisement too, leads
/// back to advertising after the retry delay. The wired link is served until
/// it is suspended.
pub open spec fn next_transition(
    has_wired: bool,
    state: ConnectionState,
    event: LinkEvent,
) -> Transition {
    match (state, event) {
        (ConnectionState::Advertising, LinkEvent::WiredReady) => if has_wired {
            Transition { state: ConnectionState::UsbActive, disconnect: false, delay_ms: 0 }
        } else {
            stay(state)
        },
        (ConnectionState::Advertising, LinkEvent::WiredIdle) => if has_wired {
            Transition { state: ConnectionState::RacingUsb, disconnect: false, delay_ms: 0 }
        } else {
            stay(state)
        },
        (ConnectionState::RacingUsb, LinkEvent::WiredReady) => if has_wired {
            Transition {
                state: ConnectionState::UsbActive,
                disconnect: false,
                delay_ms: USB_RESUME_DELAY_MS,
            }
        } else {
            stay(state)
        },
        (ConnectionState::Advertising, LinkEvent::PeerConnected)
        | (ConnectionState::RacingUsb, LinkEvent::PeerConnected) => Transition {
            state: ConnectionState::BleConnected,
            disconnect: false,
            delay_ms: GATT_START_DELAY_MS,
        },
        (ConnectionState::Advertising, LinkEvent::AdvertiseFailed)
        | (ConnectionState::RacingUsb, LinkEvent::AdvertiseFailed) => Transition {
            state: ConnectionState::Advertising,
            disconnect: false,
            delay_ms: RETRY_DELAY_MS,
        },
        (ConnectionState::BleConnected, LinkEvent::WiredReady) => if has_wired {
            Transition { state: ConnectionState::UsbActive, disconnect: true, delay_ms: 0 }
        } else {
            stay(state)
        },
        (ConnectionState::BleConnected, LinkEvent::ServiceExited(_)) => Transition {
            state: ConnectionState::Advertising,
            disconnect: false,
            delay_ms: RETRY_DELAY_MS,
        },
        (ConnectionState::UsbActive, LinkEvent::WiredSuspended) => Transition {
            state: ConnectionState::Advertising,
            disconnect: false,
            delay_ms: 0,
        },
        _ => stay(state),
    }
}

/// Whether a keyboard with or without a wired link can be in `state`: without
/// one it neither watches nor serves the wire.
pub open spec fn state_fits(has_wired: bool, state: ConnectionState) -> bool {
    has_wired || state is Advertising || state is BleConnected
}

/// Decides what follows `event` in `state`.
pub fn transition(has_wired: bool, state: ConnectionState, event: LinkEvent) -> (next: Transition)
    ensures
        next == next_transition(has_wired, state, event),
{
    let stay = Transition { state, disconnect: false, delay_ms: 0 };
    match state {
        ConnectionState::Advertising => match event {
            LinkEvent::WiredReady => if has_wired {
                Transition { state: ConnectionState::UsbActive, disconnect: false, delay_ms: 0 }
            } else {
                stay
            },
            LinkEvent::WiredIdle => if has_wired {
                Transition { state: ConnectionState::RacingUsb, disconnect: false, delay_ms: 0 }
            } else {
                stay
            },
            LinkEvent::PeerConnected => Transition {
                state: ConnectionState::BleConnected,
                disconnect: false,
                delay_ms: GATT_START_DELAY_MS,
            },
            LinkEvent::AdvertiseFailed => Transition {
                state: ConnectionState::Advertising,
                disconnect: false,
                delay_ms: RETRY_DELAY_MS,
            },
            _ => stay,
        },
        ConnectionState::RacingUsb => match event {
            LinkEvent::WiredReady => if has_wired {
                Transition {
                    state: ConnectionState::UsbActive,
                    disconnect: false,
                    delay_ms: USB_RESUME_DELAY_MS,
                }
            } else {
                stay
            },
            LinkEvent::PeerConnected => Transition {
                state: ConnectionState::BleConnected,
                disconnect: false,
                delay_ms: GATT_START_DELAY_MS,
            },
            LinkEvent::AdvertiseFailed => Transition {
                state: ConnectionState::Advertising,
                disconnect: false,
                delay_ms: RETRY_DELAY_MS,
            },
            _ => stay,
        },
        ConnectionState::BleConnected => match event {
            LinkEvent::WiredReady => if has_wired {
                Transition { state: ConnectionState::UsbActive, disconnect: true, delay_ms: 0 }
            } else {
                stay
            },
            LinkEvent::ServiceExited(_) => Transition {
                state: ConnectionState::Advertising,
                disconnect: false,
                delay_ms: RETRY_DELAY_MS,
            },
            _ => stay,
        },
        ConnectionState::UsbActive => match event {
            LinkEvent::WiredSuspended => Transition {
                state: ConnectionState::Advertising,
                disconnect: false,
                delay_ms: 0,
            },
            _ => stay,
        },
    }
}

/// The life cycle of the keyboard's connections: the state it is in, and
/// whether the device has a wired link at all.
pub struct Lifecycle {
    state: ConnectionState,
    has_wired: bool,
}

impl Lifecycle {
    /// The state the keyboard is in.
    pub closed spec fn spec_state(&self) -> ConnectionState {
        self.state
    }

    /// Whether the device has a wired link.
    pub closed spec fn spec_has_wired(&self) -> bool {
        self.has_wired
    }

    /// The state is one that a device with these links can be in.
    pub open spec fn wf(&self) -> bool {
        state_fits(self.spec_has_wired(), self.spec_state())
    }

    /// The life cycle at start-up: advertising.
    pub fn new(has_wired: bool) -> (lifecycle: Self)
        ensures
            lifecycle.wf(),
            lifecycle.spec_state() == ConnectionState::Advertising,
            lifecycle.spec_has_wired() == has_wired,
    {
        Lifecycle { state: ConnectionState::Advertising, has_wired }
    }

    #[verifier::when_used_as_spec(spec_state)]
    pub fn state(&self) -> (state: ConnectionState)
        ensures
            state == self.spec_state(),
    {
        self.state
    }

    #[verifier::when_used_as_spec(spec_has_wired)]
    pub fn has_wired(&self) -> (has_wired: bool)
        ensures
            has_wired == self.spec_has_wired(),
    {
        self.has_wired
    }

    /// Takes an event: moves to the state that follows and says what the
    /// caller has to do on the way.
    pub fn handle(&mut self, event: LinkEvent) -> (next: Transition)
        requires
            old(self).wf(),
        ensures
            final(self).wf(),
            next == next_transition(old(self).has_wired(), old(self).state(), event),
            final(self).state() == next.state,
            final(self).has_wired() == old(self).has_wired(),
    {
        let next = transition(self.has_wired, self.state, event);
        self.state = next.state;
        next
    }
}

/// The wired link comes first. On a device with a wired link, a ready host
/// takes the keyboard to the wired link in one step from the start of an
/// advertisement, from a running advertisement and from a connection; a
/// connection is left at once and closed on the way.
pub proof fn lemma_wired_link_preempts(state: ConnectionState)
    requires
        !(state is UsbActive),
    ensures
        next_transition(true, state, LinkEvent::WiredReady).state == ConnectionState::UsbActive,
        state is BleConnected ==> next_transition(true, state, LinkEvent::WiredReady) == (
        Transition { state: ConnectionState::UsbActive, disconnect: true, delay_ms: 0 }),
{
}

/// Whichever service ends, the connection is over: the keyboard goes back to
/// advertising after the retry delay.
pub proof fn lemma_service_exit_restarts_advertising(has_wired: bool, service: Service)
    ensures
        next_transition(has_wired, ConnectionState::BleConnected, LinkEvent::ServiceExited(service))
            == (Transition {
            state: ConnectionState::Advertising,
            disconnect: false,
            delay_ms: RETRY_DELAY_MS,
        }),
{
}

/// The radio connection is closed on request in exactly one case: when a
/// connection gives way to the wired link.
pub proof fn lemma_disconnect_only_for_wire(
    has_wired: bool,
    state: ConnectionState,
    event: LinkEvent,
)
    ensures
        next_transition(has_wired, state, event).disconnect <==> has_wired && state is BleConnected
            && event is WiredReady,
{
}

/// No event takes a device without a wired link to a state that watches or
/// serves the wire.
pub proof fn lemma_state_fits_is_kept(has_wired: bool, state: ConnectionState, event: LinkEvent)
    requires
        state_fits(has_wired, state),
    ensures
        state_fits(has_wired, next_transition(has_wired, state, event).state),
{
}

/// No state is final: from every state that a device can be in, some event
/// leads on to another state.
pub proof fn lemma_no_terminal_state(has_wired: bool, state: ConnectionState)
    requires
        state_fits(has_wired, state),
    ensures
        exists|event: LinkEvent| #[trigger] next_transition(has_wired, state, event).state != state,
{
    match state {
        ConnectionState::Advertising => {
            assert(next_transition(has_wired, state, LinkEvent::PeerConnected).state != state);
        },
        ConnectionState::RacingUsb => {
            assert(next_transition(has_wired, state, LinkEvent::PeerConnected).state != state);
        },
        ConnectionState::BleConnected => {
            assert(next_transition(
                has_wired,
                state,
                LinkEvent::ServiceExited(Service::GattServer),
            ).state != state);
        },
        ConnectionState::UsbActive => {
            assert(next_transition(has_wired, state, LinkEvent::WiredSuspended).state != state);
        },
    }
}

} // verus!
