//! The device side: handlers that answer morse and status requests.
//!
//! A handler takes a request's payload and gives the payload of the response
//! envelope, or the error that the device answers with.
use crate::client::answer;
use crate::codec::{
    accept_battery_status, accept_byte, accept_flag, accept_led_indicator, accept_matrix_state,
    accept_morse, accept_peripheral_status, accept_unit, accept_word, morse_bytes,
    pressed_bitmap_of, read_byte, read_set_morse, reads_back, take_set_morse, Encoded,
};
use crate::command::Cmd;
use crate::error::{DeviceError, RequestError};
use crate::frame::FrameView;
use crate::reply::Reply;
use crate::status::{
    battery_is_read_back, peripheral_is_read_back, BatteryStatus, LedIndicator, PeripheralStatus,
};
use crate::wire::{
    acceptance_is_read_back, put_accept, scalars_are_read_back, take_byte, value_of, varint,
};
use rmk_types::morse::Morse;
use rmk_types::protocol::rynk::MatrixState;
use vstd::prelude::*;

verus! {

/// Size in bytes of the matrix bitmap: the largest supported geometry.
pub const MATRIX_BITMAP_SIZE: usize = 32;

/// What the handlers read of the keyboard. Each value is its producer's current
/// one.
pub struct KeyboardContext {
    pub active_layer: u8,
    /// The pressed-key bitmap, where the matrix is tracked.
    pub matrix: Option<[u8; MATRIX_BITMAP_SIZE]>,
    pub battery: BatteryStatus,
    pub wpm: u16,
    pub asleep: bool,
    pub leds: LedIndicator,
    /// The split peripherals, by slot.
    pub peripherals: Vec<PeripheralStatus>,
    /// The morse keys, by index.
    pub morses: Vec<Morse>,
}

/// The response to a request: a payload, or the device's error.
pub type Response = Result<Vec<u8>, DeviceError>;

/// Whether the response accepts, with this body.
pub open spec fn accepts(r: Response, body: Seq<u8>) -> bool {
    r matches Ok(payload) && payload@ == put_accept(body)
}

/// Whether the response is this error.
pub open spec fn rejects(r: Response, error: DeviceError) -> bool {
    r == Err::<Vec<u8>, DeviceError>(error)
}

/// Whether a client that asked gets `value` out of the response.
pub open spec fn delivers<R: Reply>(r: Response, value: R) -> bool {
    r matches Ok(payload) && forall|cmd: Cmd, seq: u8| #[trigger]
        answer::<R>(cmd, FrameView { cmd, seq, payload: payload@ }) == Ok::<R, RequestError>(value)
}

/// Whether a client that asked for the matrix gets this bitmap out of the
/// response.
pub open spec fn delivers_bitmap(r: Response, bitmap: Seq<u8>) -> bool {
    r matches Ok(payload) && forall|cmd: Cmd, seq: u8|
        match #[trigger] answer::<MatrixState>(
            cmd,
            FrameView { cmd, seq, payload: payload@ },
        ) {
            Ok(state) => pressed_bitmap_of(state) == bitmap,
            Err(_) => false,
        }
}

/// The bitmap that is reported: all clear where the matrix is not tracked, so
/// that tools see "no key pressed".
pub open spec fn reported_bitmap(matrix: Option<[u8; MATRIX_BITMAP_SIZE]>) -> Seq<u8> {
    match matrix {
        Some(bitmap) => bitmap@,
        None => Seq::new(MATRIX_BITMAP_SIZE as nat, |i: int| 0u8),
    }
}

/// Whether `r` answers a `GetMorse` request to a device with these morse keys.
pub open spec fn answers_get_morse(morses: Seq<Morse>, request: Seq<u8>, r: Response) -> bool {
    match value_of(take_byte(request)) {
        None => rejects(r, DeviceError::Malformed),
        Some(index) => if index >= morses.len() {
            rejects(r, DeviceError::Invalid)
        } else {
            let morse = morses[index as int];
            &&& accepts(r, morse_bytes(morse))
            &&& reads_back(morse) ==> delivers(r, morse)
        },
    }
}

/// Whether `r` answers a `SetMorse` request to a device with these morse keys.
/// Every key that a device takes over reads back.
pub open spec fn answers_set_morse(morses: Seq<Morse>, request: Seq<u8>, r: Response) -> bool {
    match value_of(take_set_morse(request)) {
        None => rejects(r, DeviceError::Malformed),
        Some((index, config)) => if index >= morses.len() {
            rejects(r, DeviceError::Invalid)
        } else {
            &&& accepts(r, seq![])
            &&& delivers(r, ())
            &&& reads_back(config)
        },
    }
}

/// The morse keys after a `SetMorse` request: one is replaced, where the request
/// is understood and names one.
pub open spec fn morses_after(morses: Seq<Morse>, request: Seq<u8>) -> Seq<Morse> {
    match value_of(take_set_morse(request)) {
        Some((index, config)) => if index < morses.len() {
            morses.update(index as int, config)
        } else {
            morses
        },
        None => morses,
    }
}

/// The response that encoding gave.
fn response(encoded: Encoded) -> (r: Response)
    ensures
        match encoded {
            Ok(payload) => r == Ok::<Vec<u8>, DeviceError>(payload),
            Err(_) => rejects(r, DeviceError::Internal),
        },
{
    match encoded {
        Ok(payload) => Ok(payload),
        Err(_) => Err(DeviceError::Internal),
    }
}

/// The Rynk service of a device.
pub struct RynkService {
    pub ctx: KeyboardContext,
}

impl RynkService {
    /// Answers with one morse key.
    pub fn handle_get_morse(&self, request: &Vec<u8>) -> (r: Response)
        ensures
            answers_get_morse(self.ctx.morses@, request@, r),
    {
        match read_byte(request.as_slice()) {
            None => Err(DeviceError::Malformed),
            Some(index) => {
                if index as usize >= self.ctx.morses.len() {
                    return Err(DeviceError::Invalid);
                }
                let encoded = accept_morse(&self.ctx.morses[index as usize]);
                proof {
                    let body = morse_bytes(self.ctx.morses@[index as int]);
                    assert(put_accept(body).skip(1) =~= body);
                    acceptance_is_read_back(body, Morse::body(body));
                }
                response(encoded)
            },
        }
    }

    /// Replaces one morse key. Persisting it is left to the caller.
    pub fn handle_set_morse(&mut self, request: &Vec<u8>) -> (r: Response)
        ensures
            answers_set_morse(old(self).ctx.morses@, request@, r),
            final(self).ctx.morses@ == morses_after(old(self).ctx.morses@, request@),
            final(self).ctx == (KeyboardContext {
                morses: final(self).ctx.morses,
                ..old(self).ctx
            }),
    {
        match read_set_morse(request.as_slice()) {
            None => Err(DeviceError::Malformed),
            Some((index, config)) => {
                if index as usize >= self.ctx.morses.len() {
                    return Err(DeviceError::Invalid);
                }
                self.ctx.morses.set(index as usize, config);
                proof {
                    acceptance_is_read_back::<()>(seq![], Ok(((), 0)));
                }
                response(accept_unit())
            },
        }
    }

    /// Bulk reads of morse keys have no handler yet.
    pub fn handle_get_morse_bulk(&self, request: &Vec<u8>) -> (r: Response)
        ensures
            rejects(r, DeviceError::Unimplemented),
    {
        Err(DeviceError::Unimplemented)
    }

    /// Bulk writes of morse keys have no handler yet.
    pub fn handle_set_morse_bulk(&self, request: &Vec<u8>) -> (r: Response)
        ensures
            rejects(r, DeviceError::Unimplemented),
    {
        Err(DeviceError::Unimplemented)
    }

    /// Answers with the active layer.
    pub fn handle_get_current_layer(&self) -> (r: Response)
        ensures
            accepts(r, seq![self.ctx.active_layer]),
            delivers(r, self.ctx.active_layer),
    {
        proof {
            let body = seq![self.ctx.active_layer];
            scalars_are_read_back(self.ctx.active_layer, 0, false, seq![]);
            assert(body + seq![] =~= body);
            acceptance_is_read_back(body, take_byte(body));
        }
        response(accept_byte(self.ctx.active_layer))
    }

    /// Answers with the matrix bitmap, sized for the largest geometry; the host
    /// slices it down by the device's rows and columns.
    pub fn handle_get_matrix_state(&self) -> (r: Response)
        ensures
            accepts(r, seq![MATRIX_BITMAP_SIZE as u8] + reported_bitmap(self.ctx.matrix)),
            delivers_bitmap(r, reported_bitmap(self.ctx.matrix)),
            self.ctx.matrix matches Some(bitmap) ==> accepts(r, seq![32u8] + bitmap@)
                && delivers_bitmap(r, bitmap@),
            self.ctx.matrix is None ==> delivers_bitmap(r, Seq::new(32, |i: int| 0u8)),
    {
        let bitmap: [u8; 32] = match self.ctx.matrix {
            Some(bitmap) => bitmap,
            None => [0; 32],
        };
        assert(bitmap@ =~= reported_bitmap(self.ctx.matrix));
        let encoded = accept_matrix_state(bitmap);
        proof {
            let body = seq![32u8] + bitmap@;
            assert(put_accept(body).skip(1) =~= body);
            acceptance_is_read_back(body, MatrixState::body(body));
        }
        response(encoded)
    }

    /// Answers with the battery status (BLE firmware only).
    pub fn handle_get_battery_status(&self) -> (r: Response)
        ensures
            accepts(r, self.ctx.battery.bytes()),
            delivers(r, self.ctx.battery),
    {
        proof {
            let body = self.ctx.battery.bytes();
            battery_is_read_back(self.ctx.battery, seq![]);
            assert(body + seq![] =~= body);
            acceptance_is_read_back(body, BatteryStatus::body(body));
        }
        response(accept_battery_status(self.ctx.battery))
    }

    /// Answers with one split peripheral's status (split BLE firmware only).
    pub fn handle_get_peripheral_status(&self, request: &Vec<u8>) -> (r: Response)
        ensures
            match value_of(take_byte(request@)) {
                None => rejects(r, DeviceError::Malformed),
                Some(id) => if id >= self.ctx.peripherals@.len() {
                    rejects(r, DeviceError::Invalid)
                } else {
                    &&& accepts(r, self.ctx.peripherals@[id as int].bytes())
                    &&& delivers(r, self.ctx.peripherals@[id as int])
                },
            },
    {
        match read_byte(request.as_slice()) {
            None => Err(DeviceError::Malformed),
            Some(id) => {
                if id as usize >= self.ctx.peripherals.len() {
                    return Err(DeviceError::Invalid);
                }
                let status = self.ctx.peripherals[id as usize];
                proof {
                    let body = status.bytes();
                    peripheral_is_read_back(status, seq![]);
                    assert(body + seq![] =~= body);
                    acceptance_is_read_back(body, PeripheralStatus::body(body));
                }
                response(accept_peripheral_status(status))
            },
        }
    }

    /// Answers with the words-per-minute estimate.
    pub fn handle_get_wpm(&self) -> (r: Response)
        ensures
            accepts(r, varint(self.ctx.wpm as nat)),
            delivers(r, self.ctx.wpm),
    {
        proof {
            let body = varint(self.ctx.wpm as nat);
            scalars_are_read_back(0, self.ctx.wpm, false, seq![]);
            assert(body + seq![] =~= body);
            acceptance_is_read_back(body, u16::body(body));
        }
        response(accept_word(self.ctx.wpm))
    }

    /// Answers with the sleep state.
    pub fn handle_get_sleep_state(&self) -> (r: Response)
        ensures
            accepts(r, seq![self.ctx.asleep as u8]),
            delivers(r, self.ctx.asleep),
    {
        proof {
            let body = seq![self.ctx.asleep as u8];
            scalars_are_read_back(0, 0, self.ctx.asleep, seq![]);
            assert(body + seq![] =~= body);
            acceptance_is_read_back(body, bool::body(body));
        }
        response(accept_flag(self.ctx.asleep))
    }

    /// Answers with the host LED indicators.
    pub fn handle_get_led_indicator(&self) -> (r: Response)
        ensures
            accepts(r, self.ctx.leds.bytes()),
            delivers(r, self.ctx.leds),
    {
        proof {
            let body = self.ctx.leds.bytes();
            acceptance_is_read_back(body, LedIndicator::body(body));
        }
        response(accept_led_indicator(self.ctx.leds))
    }
}

/// A morse key is read as it was last set: where a device takes a key over, a
/// client that then asks for its slot gets that key. The other keys stay as they
/// were, and none is added.
pub proof fn morse_is_read_as_it_was_set(
    morses: Seq<Morse>,
    set: Seq<u8>,
    set_response: Response,
    get: Seq<u8>,
    get_response: Response,
    index: u8,
    config: Morse,
)
    requires
        value_of(take_set_morse(set)) == Some((index, config)),
        index < morses.len(),
        answers_set_morse(morses, set, set_response),
        value_of(take_byte(get)) == Some(index),
        answers_get_morse(morses_after(morses, set), get, get_response),
    ensures
        delivers(set_response, ()),
        accepts(get_response, morse_bytes(config)),
        delivers(get_response, config),
        morses_after(morses, set).len() == morses.len(),
        forall|other: int|
            0 <= other < morses.len() && other != index ==> #[trigger] morses_after(
                morses,
                set,
            )[other] == morses[other],
{
}

} // verus!
