//! What the interrupt status register of the radio reports.

use vstd::prelude::*;

verus! {

/// The causes for which the radio raises its interrupt, highest priority first.
#[derive(Clone, Copy, Debug, PartialEq, Eq, Structural)]
pub enum InterruptEvent {
    /// The supply voltage is low (bit 7)
    SupplyVoltageLow,
    /// The frame buffer was accessed in a way that the radio forbids (bit 6)
    FrameBufferViolation,
    /// A frame was sent or received completely (bit 3)
    TransferComplete,
    /// The reception of a frame has started (bit 2)
    ReceiveStarted,
    /// The PLL lost its lock (bit 1)
    PllUnlock,
    /// The PLL has locked (bit 0)
    PllLock,
}

/// Whether bit `bit` of `value` is set, for `bit` from 0 to 7.
pub open spec fn bit_is_set(value: u8, bit: nat) -> bool {
    if bit == 0 {
        value % 2 == 1
    } else if bit == 1 {
        value / 2 % 2 == 1
    } else if bit == 2 {
        value / 4 % 2 == 1
    } else if bit == 3 {
        value / 8 % 2 == 1
    } else if bit == 4 {
        value / 16 % 2 == 1
    } else if bit == 5 {
        value / 32 % 2 == 1
    } else if bit == 6 {
        value / 64 % 2 == 1
    } else {
        value / 128 % 2 == 1
    }
}

impl InterruptEvent {
    /// The bit of the interrupt status register that reports this cause.
    pub open spec fn spec_status_bit(&self) -> nat {
        match *self {
            InterruptEvent::SupplyVoltageLow => 7,
            InterruptEvent::FrameBufferViolation => 6,
            InterruptEvent::TransferComplete => 3,
            InterruptEvent::ReceiveStarted => 2,
            InterruptEvent::PllUnlock => 1,
            InterruptEvent::PllLock => 0,
        }
    }

    /// The one cause that a value of the interrupt status register is serviced for: the
    /// first, in the order of priority, whose bit is set. None if no such bit is set.
    pub open spec fn spec_first_pending(status: u8) -> Option<InterruptEvent> {
        if bit_is_set(status, 7) {
            Some(InterruptEvent::SupplyVoltageLow)
        } else if bit_is_set(status, 6) {
            Some(InterruptEvent::FrameBufferViolation)
        } else if bit_is_set(status, 3) {
            Some(InterruptEvent::TransferComplete)
        } else if bit_is_set(status, 2) {
            Some(InterruptEvent::ReceiveStarted)
        } else if bit_is_set(status, 1) {
            Some(InterruptEvent::PllUnlock)
        } else if bit_is_set(status, 0) {
            Some(InterruptEvent::PllLock)
        } else {
            None
        }
    }

    /// Returns the one cause that a value of the interrupt status register is serviced for
    #[verifier::when_used_as_spec(spec_first_pending)]
    pub fn first_pending(status: u8) -> (event: Option<InterruptEvent>)
        ensures
            event == InterruptEvent::spec_first_pending(status),
    {
        assert(((status >> 7) & 1) == status / 128 % 2 && ((status >> 6) & 1) == status / 64 % 2
            && ((status >> 3) & 1) == status / 8 % 2 && ((status >> 2) & 1) == status / 4 % 2 && (
        (status >> 1) & 1) == status / 2 % 2 && (status & 1) == status % 2) by (bit_vector);
        if ((status >> 7) & 1) == 1 {
            Some(InterruptEvent::SupplyVoltageLow)
        } else if ((status >> 6) & 1) == 1 {
            Some(InterruptEvent::FrameBufferViolation)
        } else if ((status >> 3) & 1) == 1 {
            Some(InterruptEvent::TransferComplete)
        } else if ((status >> 2) & 1) == 1 {
            Some(InterruptEvent::ReceiveStarted)
        } else if ((status >> 1) & 1) == 1 {
            Some(InterruptEvent::PllUnlock)
        } else if (status & 1) == 1 {
            Some(InterruptEvent::PllLock)
        } else {
            None
        }
    }

    /// A status is serviced for a cause only if the bit of that cause is set and the bit of
    /// no cause of higher priority is, whatever the bits of lower priority hold.
    pub proof fn lemma_first_pending_is_highest(status: u8, event: InterruptEvent)
        ensures
            InterruptEvent::first_pending(status) == Some(event) <==> (bit_is_set(
                status,
                event.spec_status_bit(),
            ) && forall|other: InterruptEvent|
                other.spec_status_bit() > event.spec_status_bit() ==> !bit_is_set(
                    status,
                    #[trigger] other.spec_status_bit(),
                )),
    {
        let higher = |other: InterruptEvent|
            other.spec_status_bit() > event.spec_status_bit() ==> !bit_is_set(
                status,
                other.spec_status_bit(),
            );
        if forall|other: InterruptEvent| #[trigger] higher(other) {
            assert(higher(InterruptEvent::SupplyVoltageLow));
            assert(higher(InterruptEvent::FrameBufferViolation));
            assert(higher(InterruptEvent::TransferComplete));
            assert(higher(InterruptEvent::ReceiveStarted));
            assert(higher(InterruptEvent::PllUnlock));
        }
    }
}

} // verus!
