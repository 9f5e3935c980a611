use rf230::console::{putc, puts, subscribe_read, Syscall, CONSOLE};

#[test]
fn putc_is_command_zero_of_the_console_on_the_character() {
    assert_eq!(putc('A'), Syscall::Command { driver_num: 0, cmdnum: 0, arg1: 65 });
    assert_eq!(putc('\u{20AC}'), Syscall::Command { driver_num: CONSOLE, cmdnum: 0, arg1: 0x20AC });
}

#[test]
fn puts_writes_each_character_in_order() {
    assert_eq!(puts(""), vec![]);
    let calls = puts("It works!");
    assert_eq!(calls.len(), 9);
    for (call, c) in calls.iter().zip("It works!".chars()) {
        assert_eq!(*call, putc(c));
    }
    assert_eq!(calls[0], Syscall::Command { driver_num: 0, cmdnum: 0, arg1: 'I' as usize });
    assert_eq!(calls[8], Syscall::Command { driver_num: 0, cmdnum: 0, arg1: '!' as usize });
    assert_eq!(puts("\u{E9}\u{1F600}").len(), 2);
}

#[test]
fn subscribe_read_registers_with_the_console() {
    assert_eq!(
        subscribe_read(0x2000_0100),
        Syscall::Subscribe { driver_num: 0, subnum: 0, callback: 0x2000_0100 }
    );
}
