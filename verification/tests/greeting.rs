use yargizeka::bootstrap::startup_failure_message;
use yargizeka::greeting::merhaba;

#[test]
fn greets_a_name() {
    assert_eq!(merhaba("World"), "Hello, World! Greetings from the bridge!");
}

#[test]
fn greets_the_empty_name() {
    assert_eq!(merhaba(""), "Hello, ! Greetings from the bridge!");
}

#[test]
fn keeps_whitespace_and_case_untouched() {
    assert_eq!(
        merhaba("  aTaTuRk  "),
        "Hello,   aTaTuRk  ! Greetings from the bridge!"
    );
}

#[test]
fn passes_non_ascii_through_byte_for_byte() {
    let out = merhaba("Zek\u{e2}");
    assert_eq!(out, "Hello, Zek\u{e2}! Greetings from the bridge!");
    assert_eq!(
        out.as_bytes(),
        "Hello, Zek\u{e2}! Greetings from the bridge!".as_bytes()
    );
}

#[test]
fn same_input_gives_identical_output() {
    let first = merhaba("Ay\u{15f}e");
    let second = merhaba("Ay\u{15f}e");
    assert_eq!(first, second);
}

#[test]
fn startup_failure_diagnostic_is_fixed() {
    assert_eq!(
        startup_failure_message(),
        "Tauri uygulamas\u{131} \u{e7}al\u{131}\u{15f}t\u{131}r\u{131}lamad\u{131}"
    );
}
