//! The device's handlers, and a client that reads their answers.
use rmk_types::action::Action;
use rmk_types::morse::{Morse, MorseProfile, HOLD, TAP};
use rynk::frame::build_frame;
use rynk::reply::Reply;
use rynk::service::{KeyboardContext, Response, RynkService};
use rynk::{
    BatteryStatus, ChargeState, Client, Cmd, DeviceError, LedIndicator, PeripheralStatus, Request,
    RequestError,
};

fn battery(level: u8) -> BatteryStatus {
    BatteryStatus::Available { charge_state: ChargeState::Discharging, level: Some(level) }
}

fn morse(hold: u16) -> Morse {
    Morse { profile: MorseProfile::new(None, None, Some(hold), None), ..Default::default() }
}

fn service() -> RynkService {
    RynkService {
        ctx: KeyboardContext {
            active_layer: 3,
            matrix: None,
            battery: battery(80),
            wpm: 300,
            asleep: true,
            leds: LedIndicator { bits: 0b10 },
            peripherals: vec![
                PeripheralStatus { connected: true, battery: battery(50) },
                PeripheralStatus { connected: false, battery: BatteryStatus::Unavailable },
            ],
            morses: vec![morse(100), morse(200)],
        },
    }
}

/// Hands a response to the client that asked.
fn read<R: Reply>(
    open: impl Fn(&mut Client) -> Result<Request<R>, RequestError>,
    response: Response,
) -> R {
    let mut client = Client::new();
    let request = open(&mut client).ok().unwrap();
    let frame = build_frame(request.cmd(), request.seq(), &response.unwrap());
    client.received(Ok(frame)).ok().unwrap();
    client.poll_reply(&request).unwrap().ok().unwrap()
}

#[test]
fn plain_values_reach_the_host() {
    let s = service();
    assert_eq!(read(|c| c.get_current_layer(), s.handle_get_current_layer()), 3);
    assert_eq!(s.handle_get_current_layer().unwrap(), vec![0, 3]);
    assert_eq!(read(|c| c.get_wpm(), s.handle_get_wpm()), 300);
    assert_eq!(s.handle_get_wpm().unwrap(), vec![0, 0xac, 0x02]);
    assert!(read(|c| c.get_sleep_state(), s.handle_get_sleep_state()));
    assert_eq!(s.handle_get_sleep_state().unwrap(), vec![0, 1]);
    let leds = read(|c| c.get_led_indicator(), s.handle_get_led_indicator());
    assert_eq!(leds, LedIndicator { bits: 0b10 });
    assert_eq!(s.handle_get_led_indicator().unwrap(), vec![0, 0b10]);
}

#[test]
fn battery_and_peripherals_reach_the_host() {
    let s = service();
    let ask = |c: &mut Client| c.request_raw(Cmd::from_raw(0x0803), Ok(vec![]));
    assert_eq!(read::<BatteryStatus>(ask, s.handle_get_battery_status()), battery(80));
    assert_eq!(s.handle_get_battery_status().unwrap(), vec![0, 1, 1, 1, 80]);
    let bare = RynkService {
        ctx: KeyboardContext { battery: BatteryStatus::Unavailable, ..service().ctx },
    };
    assert_eq!(bare.handle_get_battery_status().unwrap(), vec![0, 0]);
    assert_eq!(s.handle_get_peripheral_status(&vec![0]).unwrap(), vec![0, 1, 1, 1, 1, 50]);
    assert_eq!(s.handle_get_peripheral_status(&vec![1]).unwrap(), vec![0, 0, 0]);
    let ask = |c: &mut Client| c.request_raw(Cmd::from_raw(0x0804), Ok(vec![0]));
    let got = read::<PeripheralStatus>(ask, s.handle_get_peripheral_status(&vec![0]));
    assert_eq!(got, PeripheralStatus { connected: true, battery: battery(50) });
    assert_eq!(s.handle_get_peripheral_status(&vec![2]), Err(DeviceError::Invalid));
    assert_eq!(s.handle_get_peripheral_status(&vec![]), Err(DeviceError::Malformed));
}

#[test]
fn an_untracked_matrix_is_all_clear() {
    let mut s = service();
    let mut want = vec![0u8, 32];
    want.extend([0u8; 32]);
    assert_eq!(s.handle_get_matrix_state().unwrap(), want);
    let mut bitmap = [0u8; 32];
    bitmap[5] = 0x81;
    s.ctx.matrix = Some(bitmap);
    let state = read(|c| c.get_matrix_state(), s.handle_get_matrix_state());
    assert_eq!(state.pressed_bitmap[..], bitmap);
}

#[test]
fn a_morse_key_is_read_back_as_it_was_set() {
    let mut s = service();
    let mut client = Client::new();
    let frame = client.set_morse(1, morse(999)).ok().unwrap().frame().clone();
    let payload = frame[5..].to_vec();
    assert_eq!(s.handle_set_morse(&payload).unwrap(), vec![0]);
    assert_eq!(read(|c| c.get_morse(1), s.handle_get_morse(&vec![1])), morse(999));
    // The others stay.
    assert_eq!(read(|c| c.get_morse(0), s.handle_get_morse(&vec![0])), morse(100));
    assert_eq!(s.ctx.morses.len(), 2);
}

#[test]
fn bad_morse_requests_are_rejected() {
    let mut s = service();
    assert_eq!(s.handle_get_morse(&vec![]), Err(DeviceError::Malformed));
    assert_eq!(s.handle_get_morse(&vec![2]), Err(DeviceError::Invalid));
    assert_eq!(s.handle_set_morse(&vec![0]), Err(DeviceError::Malformed));
    let mut payload = vec![2];
    payload.extend(postcard::to_allocvec(&morse(5)).unwrap());
    assert_eq!(s.handle_set_morse(&payload), Err(DeviceError::Invalid));
    assert_eq!(s.ctx.morses, vec![morse(100), morse(200)]);
    assert_eq!(s.handle_get_morse_bulk(&vec![0, 1]), Err(DeviceError::Unimplemented));
    assert_eq!(s.handle_set_morse_bulk(&vec![]), Err(DeviceError::Unimplemented));
}

#[test]
fn a_pattern_that_is_set_twice_is_stored_once() {
    let mut s = service();
    let twice = Morse {
        profile: MorseProfile::new(None, None, Some(7), None),
        actions: [
            (TAP, Action::LayerOn(1)),
            (HOLD, Action::LayerOn(3)),
            (TAP, Action::LayerOn(2)),
        ]
        .into_iter()
        .collect(),
    };
    let mut client = Client::new();
    let frame = client.set_morse(0, twice).ok().unwrap().frame().clone();
    assert_eq!(s.handle_set_morse(&frame[5..].to_vec()).unwrap(), vec![0]);
    let stored = s.ctx.morses[0].clone();
    assert_eq!(stored.actions.len(), 2);
    assert_eq!(stored.get(TAP), Some(Action::LayerOn(2)));
    assert_eq!(stored.get(HOLD), Some(Action::LayerOn(3)));
    // What was stored is what is read.
    assert_eq!(read(|c| c.get_morse(0), s.handle_get_morse(&vec![0])), stored);
}
