//! What the board decides: which driver a number stands for, and how a byte is shown.

use vstd::prelude::*;

use crate::interrupt::bit_is_set;

verus! {

/// The drivers that processes can reach
#[derive(Clone, Copy, Debug, PartialEq, Eq, Structural)]
pub enum DriverSlot {
    /// The console, driver 0
    Console,
    /// The general purpose pins, driver 1
    Gpio,
    /// The TMP006 temperature sensor, driver 2
    Tmp006,
}

/// Returns the driver that `driver_num` stands for, if it stands for one
pub fn with_driver(driver_num: usize) -> (slot: Option<DriverSlot>)
    ensures
        driver_num == 0 ==> slot == Some(DriverSlot::Console),
        driver_num == 1 ==> slot == Some(DriverSlot::Gpio),
        driver_num == 2 ==> slot == Some(DriverSlot::Tmp006),
        driver_num > 2 ==> slot is None,
{
    match driver_num {
        0 => Some(DriverSlot::Console),
        1 => Some(DriverSlot::Gpio),
        2 => Some(DriverSlot::Tmp006),
        _ => None,
    }
}

/// Returns the eight binary digits of `value` as characters, the most significant first
pub fn format_u8(value: u8) -> (chars: [u8; 8])
    ensures
        forall|bit: nat|
            bit < 8 ==> #[trigger] chars@[7 - bit] == (if bit_is_set(value, bit) {
                0x31u8
            } else {
                0x30u8
            }),
{
    let mut chars: [u8; 8] = [0x3F; 8];
    let mut i: u8 = 0;
    while i < 8
        invariant
            i <= 8,
            forall|bit: nat|
                bit < i ==> #[trigger] chars@[7 - bit] == (if bit_is_set(value, bit) {
                    0x31u8
                } else {
                    0x30u8
                }),
        decreases 8 - i,
    {
        assert(i < 8 ==> (((value >> i) & 1 == 1) == (i == 0 && value % 2 == 1 || i == 1 && value
            / 2 % 2 == 1 || i == 2 && value / 4 % 2 == 1 || i == 3 && value / 8 % 2 == 1 || i == 4
            && value / 16 % 2 == 1 || i == 5 && value / 32 % 2 == 1 || i == 6 && value / 64 % 2
            == 1 || i == 7 && value / 128 % 2 == 1))) by (bit_vector);
        let digit: u8 = if ((value >> i) & 1) == 1 {
            0x31
        } else {
            0x30
        };
        let ghost before = chars@;
        chars[7 - i as usize] = digit;
        proof {
            assert forall|bit: nat| bit < i + 1 implies #[trigger] chars@[7 - bit] == (if bit_is_set(
                value,
                bit,
            ) {
                0x31u8
            } else {
                0x30u8
            }) by {
                if bit < i {
                    assert(chars@[7 - bit] == before[7 - bit]);
                }
            }
        }
        i += 1;
    }
    chars
}

} // verus!
