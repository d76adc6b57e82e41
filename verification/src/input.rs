//! Controller input handling: stick/button/roll state, the binary input
//! report codec, and the non-blocking drain-to-latest algorithm.

use vstd::prelude::*;
use crate::device::Device;
use crate::device::DeviceError;

verus! {

/// Identifier for the position of the controller's stick.
#[derive(Debug, Copy, Clone, Eq, Hash, PartialEq, Structural)]
pub enum StickPosition {
    Center,
    Up,
    UpRight,
    Right,
    DownRight,
    Down,
    DownLeft,
    Left,
    UpLeft,
}

/// The canonical nibble encoding of each stick position on the wire.
pub open spec fn spec_stick_code(p: StickPosition) -> u8 {
    match p {
        StickPosition::Center => 0,
        StickPosition::Up => 1,
        StickPosition::UpRight => 2,
        StickPosition::Right => 3,
        StickPosition::DownRight => 4,
        StickPosition::Down => 5,
        StickPosition::DownLeft => 6,
        StickPosition::Left => 7,
        StickPosition::UpLeft => 8,
    }
}

/// The stick position a nibble decodes to: codes 0 to 8 map to the nine
/// canonical positions, anything larger is treated as Center.
pub open spec fn spec_stick_of_code(code: u8) -> StickPosition {
    if code == 1 {
        StickPosition::Up
    } else if code == 2 {
        StickPosition::UpRight
    } else if code == 3 {
        StickPosition::Right
    } else if code == 4 {
        StickPosition::DownRight
    } else if code == 5 {
        StickPosition::Down
    } else if code == 6 {
        StickPosition::DownLeft
    } else if code == 7 {
        StickPosition::Left
    } else if code == 8 {
        StickPosition::UpLeft
    } else {
        StickPosition::Center
    }
}

impl Default for StickPosition {
    fn default() -> (r: Self)
        ensures
            r == StickPosition::Center,
    {
        StickPosition::Center
    }
}

impl StickPosition {
    /// The centered stick position.
    pub fn new() -> (r: Self)
        ensures
            r == StickPosition::Center,
    {
        StickPosition::Center
    }

    /// The stick position with the given wire code, if the code is canonical.
    pub fn from_u8(position: u8) -> (r: Option<Self>)
        ensures
            position <= 8 ==> r == Some(spec_stick_of_code(position)),
            position > 8 ==> r is None,
    {
        match position {
            0 => Some(StickPosition::Center),
            1 => Some(StickPosition::Up),
            2 => Some(StickPosition::UpRight),
            3 => Some(StickPosition::Right),
            4 => Some(StickPosition::DownRight),
            5 => Some(StickPosition::Down),
            6 => Some(StickPosition::DownLeft),
            7 => Some(StickPosition::Left),
            8 => Some(StickPosition::UpLeft),
            _ => None,
        }
    }

    /// The wire code of this stick position.
    pub fn to_u8(self) -> (r: u8)
        ensures
            r == spec_stick_code(self),
            r <= 8,
    {
        match self {
            StickPosition::Center => 0,
            StickPosition::Up => 1,
            StickPosition::UpRight => 2,
            StickPosition::Right => 3,
            StickPosition::DownRight => 4,
            StickPosition::Down => 5,
            StickPosition::DownLeft => 6,
            StickPosition::Left => 7,
            StickPosition::UpLeft => 8,
        }
    }
}

/// A friendly representation of a game controller input state.
#[derive(Debug, Copy, Clone, PartialEq, Eq, Structural)]
pub struct State {
    /// The position of the stick
    pub stick_position: StickPosition,
    /// Whether the main button is down
    pub button_1: bool,
    /// Whether the secondary trigger is down
    pub button_2: bool,
    /// Whether the back button is down
    pub button_back: bool,
    /// Whether the menu/context button is down
    pub button_menu: bool,
    /// Whether the Atari button is down
    pub button_fuji: bool,
    /// The absolute position of the rotational paddle,
    /// as a number between 0 and 1023
    pub roll: u16,
}

impl State {
    /// An input state is valid when its roll lies on the circular
    /// 10-bit track. Every decoded state is valid.
    pub open spec fn valid(self) -> bool {
        self.roll < 1024
    }
}

/// Error raised when a byte message cannot be decoded as an input report.
#[derive(Debug, Copy, Clone, PartialEq, Eq, Structural)]
pub enum DecodeError {
    /// The message does not have the length of an input report.
    UnexpectedLength,
    /// The message does not carry the input report identifier.
    UnexpectedReportId,
}

/// The six-byte buffer a single blocking-style read leaves behind: the
/// read bytes over a buffer that starts as an input report identifier
/// followed by zeroes.
pub open spec fn read_buffer(data: Seq<u8>) -> Seq<u8> {
    Seq::new(
        6,
        |i: int|
            if i < data.len() {
                data[i]
            } else if i == 0 {
                1u8
            } else {
                0u8
            },
    )
}

/// The state that reading a single report from a queue yields: the front
/// report laid over the prepared buffer and decoded past its first byte,
/// provided the first byte carries the input report identifier. An empty
/// queue leaves the prepared buffer, which decodes to the neutral state.
pub open spec fn single_read_state(pending: Seq<Seq<u8>>) -> Option<State> {
    let buf = read_buffer(if pending.len() == 0 {
        Seq::empty()
    } else {
        pending[0]
    });
    if buf[0] == 1 {
        Some(spec_decode(buf.subrange(1, 6)))
    } else {
        None
    }
}

/// The input state carried by the five bytes of an input report message.
/// Byte 0 is the report identifier; byte 1 holds the two trigger buttons,
/// byte 2 the remaining buttons and the stick nibble, bytes 3 and 4 the
/// roll in little-endian order, masked to 10 bits.
pub open spec fn spec_decode(msg: Seq<u8>) -> State
    recommends
        msg.len() == 5,
{
    State {
        stick_position: spec_stick_of_code((msg[2] >> 4) as u8),
        button_1: msg[1] & 1 == 1,
        button_2: (msg[1] >> 1) & 1 == 1,
        button_back: msg[2] & 1 == 1,
        button_menu: (msg[2] >> 1) & 1 == 1,
        button_fuji: (msg[2] >> 2) & 1 == 1,
        roll: ((msg[3] as u16) | (((msg[4] as u16) << 8) as u16)) & 0x3FF,
    }
}

/// A value masked to 10 bits lies on the 1024-unit circular track.
pub proof fn lemma_mask10(x: u16)
    ensures
        x & 0x3FF < 1024,
{
    assert(x & 0x3FF < 1024) by (bit_vector);
}

/// The five wire bytes that carry the given input state.
pub open spec fn spec_encode(s: State) -> Seq<u8> {
    seq![
        1u8,
        ((if s.button_1 { 1u8 } else { 0u8 }) | (if s.button_2 { 2u8 } else { 0u8 })) as u8,
        ((if s.button_back { 1u8 } else { 0u8 })
            | (if s.button_menu { 2u8 } else { 0u8 })
            | (if s.button_fuji { 4u8 } else { 0u8 })
            | ((spec_stick_code(s.stick_position) << 4) as u8)) as u8,
        (s.roll & 0xFF) as u8,
        (s.roll >> 8) as u8,
    ]
}

/// Interpret a five-byte input message body.
///
/// The report identifier in byte 0 is not examined here: callers check it
/// (or deliberately ignore it) before interpreting the message.
pub fn msg_to_state(msg: &[u8]) -> (s: State)
    requires
        msg@.len() == 5,
    ensures
        s == spec_decode(msg@),
        s.valid(),
{
    let stick_code: u8 = msg[2] >> 4;
    let raw: u16 = (msg[3] as u16) | ((msg[4] as u16) << 8);
    let roll: u16 = raw & 0x3FF;
    proof {
        lemma_mask10(raw);
    }
    let s = State {
        stick_position: match StickPosition::from_u8(stick_code) {
            Some(p) => p,
            None => StickPosition::Center,
        },
        button_1: msg[1] & 1 == 1,
        button_2: (msg[1] >> 1) & 1 == 1,
        button_back: msg[2] & 1 == 1,
        button_menu: (msg[2] >> 1) & 1 == 1,
        button_fuji: (msg[2] >> 2) & 1 == 1,
        roll,
    };
    proof {
        assert(stick_code > 8 ==> spec_stick_of_code(stick_code) == StickPosition::Center);
    }
    s
}

/// Decode a full five-byte input report, rejecting a message of the wrong
/// length or one that does not carry the input report identifier.
pub fn decode_input(msg: &[u8]) -> (r: Result<State, DecodeError>)
    ensures
        msg@.len() != 5 ==> r == Err::<State, DecodeError>(DecodeError::UnexpectedLength),
        msg@.len() == 5 && msg@[0] != 1 ==> r == Err::<State, DecodeError>(
            DecodeError::UnexpectedReportId,
        ),
        msg@.len() == 5 && msg@[0] == 1 ==> r == Ok::<State, DecodeError>(spec_decode(msg@)),
        r matches Ok(s) ==> s.valid(),
{
    if msg.len() != 5 {
        Err(DecodeError::UnexpectedLength)
    } else if msg[0] != 1 {
        Err(DecodeError::UnexpectedReportId)
    } else {
        Ok(msg_to_state(msg))
    }
}

/// Encode an input state back into the five wire bytes of an input report.
pub fn encode_input(s: &State) -> (r: Vec<u8>)
    ensures
        r@ == spec_encode(*s),
        r@.len() == 5,
{
    let b1: u8 = (if s.button_1 { 1u8 } else { 0u8 }) | (if s.button_2 { 2u8 } else { 0u8 });
    let code: u8 = s.stick_position.to_u8();
    let b2: u8 = (if s.button_back { 1u8 } else { 0u8 })
        | (if s.button_menu { 2u8 } else { 0u8 })
        | (if s.button_fuji { 4u8 } else { 0u8 })
        | (code << 4);
    let lo: u8 = (s.roll & 0xFF) as u8;
    let hi: u8 = (s.roll >> 8) as u8;
    let r: Vec<u8> = vec![1, b1, b2, lo, hi];
    assert(r@ =~= spec_encode(*s));
    r
}

impl State {
    /// Obtain the controller's state from a full report packet: the
    /// report identifier followed by the five-byte message body.
    pub fn from_report(data: &[u8]) -> (s: State)
        requires
            data@.len() >= 6,
            data@[0] == 1,
        ensures
            s == spec_decode(data@.subrange(1, 6)),
            s.valid(),
    {
        let mut msg: Vec<u8> = Vec::new();
        let mut k: usize = 1;
        while k < 6
            invariant
                1 <= k <= 6,
                data@.len() >= 6,
                msg@.len() == k - 1,
                forall|j: int| 0 <= j < k - 1 ==> msg@[j] == data@[1 + j],
            decreases 6 - k,
        {
            msg.push(data[k]);
            k = k + 1;
        }
        proof {
            assert(msg@ =~= data@.subrange(1, 6));
        }
        msg_to_state(msg.as_slice())
    }

    /// Obtain the controller's state by reading the next report alone.
    ///
    /// This is not fully recommended: if more reports are on queue, the
    /// obtained state may be stale; prefer draining the queue with
    /// [`process_input`]. A report that does not carry the input report
    /// identifier yields `None`.
    pub fn from_device<D: Device>(device: &mut D) -> (r: Result<Option<State>, DeviceError>)
        ensures
            final(device).reliable() == old(device).reliable(),
            final(device).sent() == old(device).sent(),
            old(device).reliable() ==> r is Ok,
            r matches Ok(got) ==> got == single_read_state(old(device).pending()),
            r matches Ok(Some(s)) ==> s.valid(),
    {
        let data = match device.read() {
            Ok(data) => data,
            Err(e) => {
                return Err(e);
            },
        };
        let mut buf: Vec<u8> = vec![1, 0, 0, 0, 0, 0];
        let mut k: usize = 0;
        while k < 6 && k < data.len()
            invariant
                k <= 6,
                buf@.len() == 6,
                forall|j: int| 0 <= j < k && j < data@.len() ==> buf@[j] == data@[j],
                forall|j: int|
                    0 <= j < 6 && !(j < k && j < data@.len()) ==> buf@[j] == (if j == 0 {
                        1u8
                    } else {
                        0u8
                    }),
            decreases 6 - k,
        {
            buf[k] = data[k];
            k = k + 1;
        }
        proof {
            assert(buf@ =~= read_buffer(data@));
        }
        if buf[0] != 1 {
            // not an input report: nothing usable was read
            return Ok(None);
        }
        Ok(Some(Self::from_report(buf.as_slice())))
    }
}

/// Decoding the encoding of any valid input state recovers the state:
/// the nine stick codes decode bijectively, every button travels through
/// its own bit, and a roll on the 10-bit track is carried exactly.
pub proof fn lemma_decode_encode_roundtrip(s: State)
    requires
        s.valid(),
    ensures
        spec_decode(spec_encode(s)) == s,
{
    let m = spec_encode(s);
    let b1 = m[1];
    let b2 = m[2];
    let code = spec_stick_code(s.stick_position);
    assert(code <= 8);
    let c1: u8 = if s.button_1 { 1u8 } else { 0u8 };
    let c2: u8 = if s.button_2 { 2u8 } else { 0u8 };
    let d1: u8 = if s.button_back { 1u8 } else { 0u8 };
    let d2: u8 = if s.button_menu { 2u8 } else { 0u8 };
    let d3: u8 = if s.button_fuji { 4u8 } else { 0u8 };
    assert((c1 | c2) & 1 == c1 && (((c1 | c2) >> 1) & 1 == 1 <==> c2 == 2)) by (bit_vector)
        requires
            c1 == 0 || c1 == 1,
            c2 == 0 || c2 == 2,
    ;
    assert({
        &&& (d1 | d2 | d3 | ((code << 4) as u8)) & 1 == d1
        &&& (((d1 | d2 | d3 | ((code << 4) as u8)) >> 1) & 1 == 1 <==> d2 == 2)
        &&& (((d1 | d2 | d3 | ((code << 4) as u8)) >> 2) & 1 == 1 <==> d3 == 4)
        &&& (d1 | d2 | d3 | ((code << 4) as u8)) >> 4 == code
    }) by (bit_vector)
        requires
            d1 == 0 || d1 == 1,
            d2 == 0 || d2 == 2,
            d3 == 0 || d3 == 4,
            code <= 8,
    ;
    let roll = s.roll;
    assert((((roll & 0xFF) as u8 as u16) | ((((roll >> 8) as u8 as u16) << 8) as u16)) & 0x3FF
        == roll) by (bit_vector)
        requires
            roll < 1024,
    ;
    assert(spec_stick_of_code(code) == s.stick_position);
}

/// The input state that draining a queue of pending reports yields: the
/// newest report decoded, provided there is one and it has the standard
/// input-report length.
pub open spec fn drained_state(pending: Seq<Seq<u8>>) -> Option<State> {
    if pending.len() > 0 && pending.last().len() == 5 {
        Some(spec_decode(pending.last()))
    } else {
        None
    }
}

/// Process input reports in queue from the device and return its current
/// state, never blocking.
///
/// The transport queue can silently accumulate stale reports between ticks;
/// every pending report is drained and only the newest one is decoded, so
/// the caller never acts on stale input. A newest report of non-standard
/// length is discarded as a benign out-of-band message, yielding `None`
/// rather than an error; an empty queue also yields `None`.
pub fn process_input<D: Device>(device: &mut D) -> (r: Result<Option<State>, DeviceError>)
    ensures
        old(device).reliable() ==> r is Ok,
        final(device).reliable() == old(device).reliable(),
        final(device).sent() == old(device).sent(),
        r is Ok ==> final(device).pending().len() == 0,
        r matches Ok(Some(s)) ==> {
            &&& old(device).pending().len() > 0
            &&& old(device).pending().last().len() == 5
            &&& s == spec_decode(old(device).pending().last())
            &&& s.valid()
        },
        r matches Ok(None) ==> (old(device).pending().len() == 0
            || old(device).pending().last().len() != 5),
        r matches Ok(got) ==> got == drained_state(old(device).pending()),
{
    device.set_blocking(false)?;

    let mut msg: Vec<u8> = Vec::new();
    let mut has_msg = false;
    loop
        invariant
            device.reliable() == old(device).reliable(),
            device.sent() == old(device).sent(),
            old(device).pending().len() == 0 ==> !has_msg && device.pending().len() == 0,
            old(device).pending().len() > 0 ==> {
                &&& device.pending().len() <= old(device).pending().len()
                &&& device.pending() == old(device).pending().skip(
                    old(device).pending().len() - device.pending().len(),
                )
                &&& has_msg <==> device.pending().len() < old(device).pending().len()
                &&& has_msg && device.pending().len() == 0 ==> msg@ == old(
                    device,
                ).pending().last()
                &&& has_msg && device.pending().len() > 0 ==> msg@ == old(device).pending()[
                    old(device).pending().len() - device.pending().len() - 1
                ]
            },
        ensures
            device.reliable() == old(device).reliable(),
            device.sent() == old(device).sent(),
            device.pending().len() == 0,
            has_msg <==> old(device).pending().len() > 0,
            has_msg ==> msg@ == old(device).pending().last(),
        decreases device.pending().len() + 1,
    {
        let data = match device.read() {
            Ok(data) => data,
            Err(e) => {
                return Err(e);
            },
        };
        if data.len() == 0 {
            break;
        }
        msg = data;
        has_msg = true;
    }

    if has_msg {
        if msg.len() != 5 {
            // a special out-of-band report: discarded, never surfaced
            Ok(None)
        } else {
            Ok(Some(msg_to_state(msg.as_slice())))
        }
    } else {
        Ok(None)
    }
}

} // verus!
