//! The operating states of the radio and the way from one to another.

use vstd::prelude::*;

use crate::error::Error;

verus! {

/// Possible states in basic operating mode
#[allow(non_camel_case_types)]
#[derive(Clone, Copy, Debug, PartialEq, Eq, Structural)]
pub enum State {
    P_ON,
    BUSY_RX,
    BUSY_TX,
    RX_ON,
    TRX_OFF,
    PLL_ON,
    SLEEP,
    RX_ON_NOCLK,
    STATE_TRANSITION_IN_PROGRESS,
}

/// What the driver does next on the way to a state.
#[derive(Clone, Copy, Debug, PartialEq, Eq, Structural)]
pub enum Step {
    /// The radio is in the wanted state: nothing is left to do
    Done,
    /// The radio is busy or between two states: ask again
    Wait,
    /// The radio sleeps: take the control signal low, then ask again
    Wake,
    /// Write this state to the state control register, then ask again
    Write(State),
}

impl State {
    /// The 5-bit code of this state in the status and state control registers.
    pub open spec fn spec_as_byte(&self) -> u8 {
        match *self {
            State::P_ON => 0x00,
            State::BUSY_RX => 0x01,
            State::BUSY_TX => 0x02,
            State::RX_ON => 0x06,
            State::TRX_OFF => 0x08,
            State::PLL_ON => 0x09,
            State::SLEEP => 0x0F,
            State::RX_ON_NOCLK => 0x1C,
            State::STATE_TRANSITION_IN_PROGRESS => 0x1F,
        }
    }

    /// Converts a State into a u8 value as used by the hardware in the TRX_STATE register
    #[verifier::when_used_as_spec(spec_as_byte)]
    pub fn as_byte(&self) -> (code: u8)
        ensures
            code == self.spec_as_byte(),
            code < 0x20,
    {
        match *self {
            State::P_ON => 0x00,
            State::BUSY_RX => 0x01,
            State::BUSY_TX => 0x02,
            State::RX_ON => 0x06,
            State::TRX_OFF => 0x08,
            State::PLL_ON => 0x09,
            State::SLEEP => 0x0F,
            State::RX_ON_NOCLK => 0x1C,
            State::STATE_TRANSITION_IN_PROGRESS => 0x1F,
        }
    }

    /// The state that a value of the status register reports in its five low bits, or
    /// `Error::UnrecognizedHardwareState` if the chip defines no state of that code.
    pub open spec fn spec_from_status(status: u8) -> Result<State, Error> {
        let code = status % 0x20;
        if code == 0x00 {
            Ok(State::P_ON)
        } else if code == 0x01 {
            Ok(State::BUSY_RX)
        } else if code == 0x02 {
            Ok(State::BUSY_TX)
        } else if code == 0x06 {
            Ok(State::RX_ON)
        } else if code == 0x08 {
            Ok(State::TRX_OFF)
        } else if code == 0x09 {
            Ok(State::PLL_ON)
        } else if code == 0x0F {
            Ok(State::SLEEP)
        } else if code == 0x1C {
            Ok(State::RX_ON_NOCLK)
        } else if code == 0x1F {
            Ok(State::STATE_TRANSITION_IN_PROGRESS)
        } else {
            Err(Error::UnrecognizedHardwareState)
        }
    }

    /// Returns the state that a value of the status register reports
    #[verifier::when_used_as_spec(spec_from_status)]
    pub fn from_status(status: u8) -> (result: Result<State, Error>)
        ensures
            result == State::spec_from_status(status),
    {
        assert(status & 0x1F == status % 0x20) by (bit_vector);
        match status & 0x1F {
            0x00 => Ok(State::P_ON),
            0x01 => Ok(State::BUSY_RX),
            0x02 => Ok(State::BUSY_TX),
            0x06 => Ok(State::RX_ON),
            0x08 => Ok(State::TRX_OFF),
            0x09 => Ok(State::PLL_ON),
            0x0F => Ok(State::SLEEP),
            0x1C => Ok(State::RX_ON_NOCLK),
            0x1F => Ok(State::STATE_TRANSITION_IN_PROGRESS),
            _ => Err(Error::UnrecognizedHardwareState),
        }
    }

    /// Whether the driver can be asked to bring the radio to this state.
    pub open spec fn spec_is_target(&self) -> bool {
        *self is RX_ON || *self is PLL_ON || *self is TRX_OFF
    }

    /// Returns true if the driver can be asked to bring the radio to this state
    #[verifier::when_used_as_spec(spec_is_target)]
    pub fn is_target(&self) -> (target: bool)
        ensures
            target == self.spec_is_target(),
    {
        match *self {
            State::RX_ON => true,
            State::PLL_ON => true,
            State::TRX_OFF => true,
            _ => false,
        }
    }

    /// The next step from this state toward `target`.
    pub open spec fn spec_step_toward(&self, target: State) -> Step {
        if *self == target {
            Step::Done
        } else {
            match *self {
                State::BUSY_RX | State::BUSY_TX | State::STATE_TRANSITION_IN_PROGRESS => Step::Wait,
                State::SLEEP | State::RX_ON_NOCLK => Step::Wake,
                State::P_ON => Step::Write(State::TRX_OFF),
                State::TRX_OFF | State::PLL_ON | State::RX_ON => Step::Write(target),
            }
        }
    }

    /// Returns the next step from this state toward `target`: nothing when the radio is
    /// there; waiting while it is busy or between two states; waking it when it sleeps;
    /// else the one state to write, which is `TRX_OFF` after power-on and `target` from the
    /// three states from which the radio can go there directly.
    #[verifier::when_used_as_spec(spec_step_toward)]
    pub fn step_toward(&self, target: State) -> (step: Step)
        ensures
            step == self.spec_step_toward(target),
            target.is_target() && step is Write ==> step->Write_0.is_target(),
    {
        if *self == target {
            return Step::Done;
        }
        match *self {
            State::BUSY_RX => Step::Wait,
            State::BUSY_TX => Step::Wait,
            State::STATE_TRANSITION_IN_PROGRESS => Step::Wait,
            State::SLEEP => Step::Wake,
            State::RX_ON_NOCLK => Step::Wake,
            State::P_ON => Step::Write(State::TRX_OFF),
            State::TRX_OFF => Step::Write(target),
            State::PLL_ON => Step::Write(target),
            State::RX_ON => Step::Write(target),
        }
    }

    /// Whether the radio may be found in `next` at the poll after the driver has taken `step`
    /// from this state, if it follows its state diagram and is left alone otherwise. After a
    /// state has been written from a state from which the radio can go there, it is in that
    /// state. Woken, it is in `TRX_OFF` after `SLEEP` and in `RX_ON` after `RX_ON_NOCLK`.
    /// Waited for, it is in `RX_ON` after a reception and in `PLL_ON` after a transmission;
    /// between two states it may come to rest in any state but this one.
    pub open spec fn may_follow(&self, step: Step, next: State) -> bool {
        match step {
            Step::Done => next == *self,
            Step::Write(written) => next == written,
            Step::Wake => if *self is SLEEP {
                next is TRX_OFF
            } else {
                next is RX_ON
            },
            Step::Wait => if *self is BUSY_RX {
                next is RX_ON
            } else if *self is BUSY_TX {
                next is PLL_ON
            } else {
                !(next is STATE_TRANSITION_IN_PROGRESS)
            },
        }
    }

    /// The most steps that are left from this state to `target` if the radio follows its
    /// state diagram: none from `target` itself, one from the other two states that the
    /// driver can ask for, three from between two states, and two from any other.
    pub open spec fn steps_to(&self, target: State) -> nat {
        if *self == target {
            0
        } else if self.is_target() {
            1
        } else if *self is STATE_TRANSITION_IN_PROGRESS {
            3
        } else {
            2
        }
    }

    /// From each of the nine states, each step toward a state that the driver can ask for
    /// brings the radio nearer to it, if the radio follows its state diagram: the radio is
    /// there after three steps at most, which is at the fourth poll at the latest.
    pub proof fn lemma_steps_lead_to_target(self, target: State, next: State)
        requires
            target.is_target(),
            self != target,
            self.may_follow(self.step_toward(target), next),
        ensures
            next.steps_to(target) < self.steps_to(target),
            self.steps_to(target) <= 3,
    {
    }

    /// Every state is read back from its own code.
    pub proof fn lemma_from_status_of_as_byte(self)
        ensures
            State::from_status(self.as_byte()) == Ok::<State, Error>(self),
    {
    }

    /// A status that is recognized carries the code of the state that it is read as, whatever
    /// its three high bits hold.
    pub proof fn lemma_as_byte_of_from_status(status: u8)
        requires
            State::from_status(status) is Ok,
        ensures
            State::from_status(status)->Ok_0.as_byte() == status % 0x20,
    {
    }
}

/// What the driver does on the way to a state, for the bytes that the radio answers: the
/// transactions it makes, how often it wakes the radio, and how it ends.
pub struct Run {
    /// The bytes sent in each transaction, in order
    pub exchanges: Seq<Seq<u8>>,
    /// How often the control signal is taken low to wake the radio
    pub wakes: nat,
    /// `Ok` if the radio reported the wanted state; else why the driver gave up
    pub result: Result<(), Error>,
}

impl Run {
    /// This run after a stretch in which the transactions `exchanges` were made and the
    /// radio was woken `wakes` times.
    pub open spec fn after(self, exchanges: Seq<Seq<u8>>, wakes: nat) -> Run {
        Run { exchanges: exchanges + self.exchanges, wakes: wakes + self.wakes, result: self.result }
    }

    /// The number of bytes sent in this run, and received: two in each transaction.
    pub open spec fn bytes(self) -> nat {
        2 * self.exchanges.len()
    }
}

/// The bytes that read the status register: the read command for its address, then a zero
/// byte while the status is received.
pub open spec fn status_poll() -> Seq<u8> {
    seq![0x81u8, 0u8]
}

/// The bytes that write `state` to the state control register.
pub open spec fn state_command(state: State) -> Seq<u8> {
    seq![0xC2u8, state.as_byte()]
}

/// The way to `target` in at most `polls` polls of the status register, where `received`
/// holds the bytes that the radio answers, one for each byte sent.
///
/// Each poll is a transaction of two bytes, and finds the status in the second byte
/// received. The run ends with `Ok` at the first poll that reports `target`, with
/// `Error::UnrecognizedHardwareState` at the first poll that reports no state, and with
/// `Error::TransitionTimeout` after `polls` polls that report other states. After a poll
/// that reports another state, the driver takes the step from that state toward `target`:
/// it waits, wakes the radio, or writes a state, which is one more transaction of two
/// bytes.
pub open spec fn run_toward(target: State, polls: nat, received: Seq<u8>) -> Run
    decreases polls,
{
    if polls == 0 {
        Run { exchanges: Seq::empty(), wakes: 0, result: Err(Error::TransitionTimeout) }
    } else {
        match State::from_status(received[1]) {
            Err(error) => Run { exchanges: seq![status_poll()], wakes: 0, result: Err(error) },
            Ok(state) => match state.step_toward(target) {
                Step::Done => Run { exchanges: seq![status_poll()], wakes: 0, result: Ok(()) },
                Step::Wait => run_toward(target, (polls - 1) as nat, received.skip(2)).after(
                    seq![status_poll()],
                    0,
                ),
                Step::Wake => run_toward(target, (polls - 1) as nat, received.skip(2)).after(
                    seq![status_poll()],
                    1,
                ),
                Step::Write(next) => run_toward(
                    target,
                    (polls - 1) as nat,
                    received.skip(4),
                ).after(seq![status_poll(), state_command(next)], 0),
            },
        }
    }
}

/// A run makes at most two transactions for each poll that it is allowed, each of two
/// bytes, and wakes the radio at most once for each.
pub proof fn lemma_run_is_bounded(target: State, polls: nat, received: Seq<u8>)
    ensures
        run_toward(target, polls, received).exchanges.len() <= 2 * polls,
        run_toward(target, polls, received).wakes <= polls,
        forall|i: int|
            0 <= i < run_toward(target, polls, received).exchanges.len() ==> (
            #[trigger] run_toward(target, polls, received).exchanges[i]).len() == 2,
    decreases polls,
{
    if polls > 0 {
        lemma_run_is_bounded(target, (polls - 1) as nat, received.skip(2));
        lemma_run_is_bounded(target, (polls - 1) as nat, received.skip(4));
    }
}

/// A run ends with `Ok` at its first poll, after one transaction, if the radio reports the
/// wanted state then: from whichever state the radio starts, no more is sent once it says
/// that it is there.
pub proof fn lemma_run_ends_when_target_is_reported(target: State, polls: nat, received: Seq<u8>)
    requires
        polls > 0,
        State::from_status(received[1]) == Ok::<State, Error>(target),
    ensures
        run_toward(target, polls, received) == (Run {
            exchanges: seq![status_poll()],
            wakes: 0,
            result: Ok(()),
        }),
{
}

/// A run that ends with `Ok` has the wanted state in the last status that it reads, which
/// is the last byte that it receives.
pub proof fn lemma_run_ok_means_target(target: State, polls: nat, received: Seq<u8>)
    requires
        run_toward(target, polls, received).result is Ok,
        received.len() == run_toward(target, polls, received).bytes(),
    ensures
        received.len() >= 2,
        State::from_status(received.last()) == Ok::<State, Error>(target),
    decreases polls,
{
    if polls > 0 {
        match State::from_status(received[1]) {
            Err(error) => {},
            Ok(state) => match state.step_toward(target) {
                Step::Done => {},
                Step::Wait | Step::Wake => {
                    lemma_run_ok_means_target(target, (polls - 1) as nat, received.skip(2));
                },
                Step::Write(next) => {
                    lemma_run_ok_means_target(target, (polls - 1) as nat, received.skip(4));
                },
            },
        }
    }
}

/// A run that has ended, other than by using up its polls, has ended for good: whatever the
/// radio would answer afterwards, no more is sent, and the result stands.
pub proof fn lemma_run_ends_for_good(target: State, polls: nat, received: Seq<u8>, later: Seq<u8>)
    requires
        run_toward(target, polls, received).result != Err::<(), Error>(Error::TransitionTimeout),
        received.len() == run_toward(target, polls, received).bytes(),
    ensures
        run_toward(target, polls, received + later) == run_toward(target, polls, received),
    decreases polls,
{
    if polls > 0 {
        lemma_run_is_bounded(target, polls, received);
        assert((received + later)[1] == received[1]);
        match State::from_status(received[1]) {
            Err(error) => {},
            Ok(state) => match state.step_toward(target) {
                Step::Done => {},
                Step::Wait | Step::Wake => {
                    assert((received + later).skip(2) =~= received.skip(2) + later);
                    lemma_run_ends_for_good(target, (polls - 1) as nat, received.skip(2), later);
                },
                Step::Write(next) => {
                    assert((received + later).skip(4) =~= received.skip(4) + later);
                    lemma_run_ends_for_good(target, (polls - 1) as nat, received.skip(4), later);
                },
            },
        }
    }
}

} // verus!
