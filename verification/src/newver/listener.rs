//! The listener of the first prototype: it follows the bus as device 5 and
//! collects the data bytes sent to it between its listen address and the next
//! unlisten or talk address.
use vstd::prelude::*;

verus! {

pub const ADDRESS: u8 = 5; // 4 for HDD 10MB, 5 is ???, 6 for Floppy 5.25.

#[derive(Clone, Copy, Debug, PartialEq, Eq, Structural)]
pub enum ListenerState {
    Idle,
    Addressed,
    Active,
}

pub struct ListenerStateMachine {
    current_state: ListenerState,
    buffer: Vec<u8>,
}

/// Whether a command byte is the listen address of device 5.
pub open spec fn is_my_listen_address(byte: u8) -> bool {
    byte % 128 == 0x20 + ADDRESS
}

/// Whether a command byte is UNL.
pub open spec fn is_unlisten(byte: u8) -> bool {
    byte % 128 == 0x3f
}

/// Whether a command byte is the talk address of device 5.
pub open spec fn is_my_talk_address(byte: u8) -> bool {
    byte % 128 == 0x40 + ADDRESS
}

/// The state and collected bytes after a byte, and the bytes handed out.
pub open spec fn listener_step(state: ListenerState, buffer: Seq<u8>, byte: u8, is_command: bool) -> (
    ListenerState,
    Seq<u8>,
    Option<Seq<u8>>,
) {
    match state {
        ListenerState::Idle => if is_command && is_my_listen_address(byte) {
            (ListenerState::Addressed, buffer, None)
        } else {
            (state, buffer, None)
        },
        ListenerState::Addressed => if is_command {
            if is_unlisten(byte) || is_my_talk_address(byte) {
                (ListenerState::Idle, buffer, None)
            } else {
                (state, buffer, None)
            }
        } else {
            (ListenerState::Active, buffer.push(byte), None)
        },
        ListenerState::Active => if is_command {
            if is_unlisten(byte) || is_my_talk_address(byte) {
                (ListenerState::Idle, Seq::empty(), Some(buffer))
            } else {
                (state, buffer, None)
            }
        } else {
            (state, buffer.push(byte), None)
        },
    }
}

impl View for ListenerStateMachine {
    type V = (ListenerState, Seq<u8>);

    closed spec fn view(&self) -> (ListenerState, Seq<u8>) {
        (self.current_state, self.buffer@)
    }
}

proof fn lemma_low_seven_bits(byte: u8)
    ensures
        byte & 0x7f == byte % 128,
        0x20u8 | ADDRESS == 0x20 + ADDRESS,
        0x40u8 | ADDRESS == 0x40 + ADDRESS,
{
    assert(byte & 0x7f == byte % 128) by (bit_vector);
    assert(0x20u8 | 5u8 == 0x25u8) by (bit_vector);
    assert(0x40u8 | 5u8 == 0x45u8) by (bit_vector);
}

impl ListenerStateMachine {
    pub fn idle() -> (machine: Self)
        ensures
            machine@ == (ListenerState::Idle, Seq::<u8>::empty()),
    {
        Self { current_state: ListenerState::Idle, buffer: Vec::with_capacity(16) }
    }

    /// Return bytes on unlisten.
    pub fn process(&mut self, byte: u8, is_command: bool) -> (read: Option<Vec<u8>>)
        ensures
            ({
                let (state, buffer, out) = listener_step(old(self)@.0, old(self)@.1, byte, is_command);
                &&& final(self)@ == (state, buffer)
                &&& match out {
                    Some(bytes) => read matches Some(r) && r@ == bytes,
                    None => read is None,
                }
            }),
    {
        match self.current_state {
            ListenerState::Idle => {
                if is_command && Self::is_mla(byte) {
                    self.current_state = ListenerState::Addressed;
                }
            },
            ListenerState::Addressed => {
                if is_command {
                    if Self::is_unlisten_command(byte) || Self::is_mta_command(byte) {
                        self.current_state = ListenerState::Idle;
                    }
                } else {
                    self.current_state = ListenerState::Active;
                    self.buffer.push(byte);
                }
            },
            ListenerState::Active => {
                if is_command {
                    if Self::is_unlisten_command(byte) || Self::is_mta_command(byte) {
                        self.current_state = ListenerState::Idle;

                        let read = self.buffer.clone();
                        self.buffer.clear();

                        return Some(read);
                    }
                } else {
                    self.buffer.push(byte);
                }
            },
        };

        None
    }

    fn is_mla(byte: u8) -> (res: bool)
        ensures
            res == is_my_listen_address(byte),
    {
        proof {
            lemma_low_seven_bits(byte);
        }
        (byte & 0b0111_1111) == (0b0010_0000 | ADDRESS)
    }

    fn is_unlisten_command(byte: u8) -> (res: bool)
        ensures
            res == is_unlisten(byte),
    {
        proof {
            lemma_low_seven_bits(byte);
        }
        (byte & 0b0111_1111) == 0b0011_1111
    }

    fn is_mta_command(byte: u8) -> (res: bool)
        ensures
            res == is_my_talk_address(byte),
    {
        proof {
            lemma_low_seven_bits(byte);
        }
        (byte & 0b0111_1111) == (0b0100_0000 | ADDRESS)
    }
}

/// The state and bytes after a run of bytes, with the runs of data handed out.
pub open spec fn run(state: ListenerState, buffer: Seq<u8>, bytes: Seq<(u8, bool)>) -> (ListenerState, Seq<u8>, Seq<Seq<u8>>)
    decreases bytes.len(),
{
    if bytes.len() == 0 {
        (state, buffer, Seq::empty())
    } else {
        let (s1, b1, out) = listener_step(state, buffer, bytes[0].0, bytes[0].1);
        let (s2, b2, outs) = run(s1, b1, bytes.drop_first());
        (s2, b2, match out {
            Some(o) => seq![o] + outs,
            None => outs,
        })
    }
}

/// The data bytes sent to the device between its listen address and an
/// unlisten come out at the unlisten, exactly and in order.
pub proof fn lemma_transfer_delivered(data: Seq<u8>)
    requires
        data.len() > 0,
    ensures
        run(
            ListenerState::Idle,
            Seq::empty(),
            seq![(0x25u8, true)] + data.map_values(|b: u8| (b, false)) + seq![(0x3fu8, true)],
        ) == (ListenerState::Idle, Seq::<u8>::empty(), seq![data]),
{
    let tail = data.drop_first().map_values(|b: u8| (b, false)) + seq![(0x3fu8, true)];
    let rest = data.map_values(|b: u8| (b, false)) + seq![(0x3fu8, true)];
    let bytes = seq![(0x25u8, true)] + rest;
    assert(bytes.drop_first() =~= rest);
    assert(rest[0] == (data[0], false));
    assert(rest.drop_first() =~= tail);
    lemma_run_data(data.drop_first(), seq![data[0]]);
    assert(seq![data[0]] + data.drop_first() =~= data);
    assert(run(ListenerState::Active, seq![data[0]], tail) == (ListenerState::Idle, Seq::<u8>::empty(), seq![data]));
    assert(Seq::<u8>::empty().push(data[0]) =~= seq![data[0]]);
    assert(listener_step(ListenerState::Addressed, Seq::empty(), data[0], false) == (
        ListenerState::Active,
        seq![data[0]],
        Option::<Seq<u8>>::None,
    ));
    assert(run(ListenerState::Addressed, Seq::empty(), rest) == run(ListenerState::Active, seq![data[0]], tail));
    assert(listener_step(ListenerState::Idle, Seq::empty(), 0x25u8, true) == (
        ListenerState::Addressed,
        Seq::<u8>::empty(),
        Option::<Seq<u8>>::None,
    ));
    assert(bytes[0] == (0x25u8, true));
    assert(run(ListenerState::Idle, Seq::empty(), bytes) == run(ListenerState::Addressed, Seq::empty(), rest));
    assert(seq![(0x25u8, true)] + data.map_values(|b: u8| (b, false)) + seq![(0x3fu8, true)] =~= bytes);
}

proof fn lemma_run_data(data: Seq<u8>, buffer: Seq<u8>)
    ensures
        run(ListenerState::Active, buffer, data.map_values(|b: u8| (b, false)) + seq![(0x3fu8, true)]) == (
            ListenerState::Idle,
            Seq::<u8>::empty(),
            seq![buffer + data],
        ),
    decreases data.len(),
{
    let bytes = data.map_values(|b: u8| (b, false)) + seq![(0x3fu8, true)];
    if data.len() == 0 {
        assert(bytes =~= seq![(0x3fu8, true)]);
        assert(bytes.drop_first() =~= Seq::<(u8, bool)>::empty());
        assert(buffer + data =~= buffer);
        assert(run(ListenerState::Idle, Seq::<u8>::empty(), bytes.drop_first()) == (
            ListenerState::Idle,
            Seq::<u8>::empty(),
            Seq::<Seq<u8>>::empty(),
        ));
        assert(seq![buffer] + Seq::<Seq<u8>>::empty() =~= seq![buffer]);
    } else {
        assert(bytes[0] == (data[0], false));
        assert(bytes.drop_first() =~= data.drop_first().map_values(|b: u8| (b, false)) + seq![(0x3fu8, true)]);
        lemma_run_data(data.drop_first(), buffer.push(data[0]));
        assert(buffer.push(data[0]) + data.drop_first() =~= buffer + data);
    }
}

} // verus!
