//! The system calls of a process that writes to the console. The calls are made up here;
//! to make them is the caller's part.

use vstd::prelude::*;

verus! {

/// The number of the console driver
pub const CONSOLE: usize = 0;

/// A call from a process into the kernel.
#[derive(Clone, Copy, Debug, PartialEq, Eq, Structural)]
pub enum Syscall {
    /// Asks the driver `driver_num` to carry out its command `cmdnum` on `arg1`
    Command { driver_num: usize, cmdnum: usize, arg1: usize },
    /// Registers the function at the address `callback` with the driver `driver_num` for its
    /// event `subnum`
    Subscribe { driver_num: usize, subnum: usize, callback: usize },
    /// Waits for an event
    Wait,
}

/// The call that writes the character `c` to the console.
pub open spec fn spec_putc(c: char) -> Syscall {
    Syscall::Command { driver_num: CONSOLE, cmdnum: 0, arg1: c as usize }
}

/// Returns the call that writes the character `c` to the console
#[verifier::when_used_as_spec(spec_putc)]
pub fn putc(c: char) -> (call: Syscall)
    ensures
        call == spec_putc(c),
{
    Syscall::Command { driver_num: CONSOLE, cmdnum: 0, arg1: c as usize }
}

/// Returns the calls that write `string` to the console: one for each of its characters,
/// in order
pub fn puts(string: &str) -> (calls: Vec<Syscall>)
    ensures
        calls@ == string@.map_values(|c: char| spec_putc(c)),
{
    let mut calls: Vec<Syscall> = Vec::new();
    let length = string.unicode_len();
    let mut index: usize = 0;
    while index < length
        invariant
            length == string@.len(),
            index <= length,
            calls@ == string@.take(index as int).map_values(|c: char| spec_putc(c)),
        decreases length - index,
    {
        calls.push(putc(string.get_char(index)));
        index += 1;
        proof {
            assert(calls@ =~= string@.take(index as int).map_values(|c: char| spec_putc(c)));
        }
    }
    proof {
        assert(string@.take(index as int) =~= string@);
    }
    calls
}

/// Returns the call that registers the function at the address `callback` to be called
/// with each character read from the console
pub fn subscribe_read(callback: usize) -> (call: Syscall)
    ensures
        call == (Syscall::Subscribe { driver_num: CONSOLE, subnum: 0, callback }),
{
    Syscall::Subscribe { driver_num: CONSOLE, subnum: 0, callback }
}

} // verus!
