use freshfetch::errors::{handle, FetchError, HEADER, LUA};

#[test]
fn handle_puts_the_red_header_before_the_message() {
    assert_eq!(handle("boom"), "\u{1b}[38;5;1mError.\u{1b}[0m\nboom");
    assert_eq!(handle(""), HEADER);
}

#[test]
fn script_failure_message() {
    let e = FetchError::Script { diagnostic: "syntax error: x".to_string() };
    assert_eq!(e.message(), "A Lua error occurred. Details:\nsyntax error: x");
    assert_eq!(e.message(), format!("{}{}", LUA, "syntax error: x"));
}

#[test]
fn missing_output_message() {
    let e = FetchError::OutputMissing { diagnostic: "nil".to_string() };
    assert_eq!(e.message(), "A Lua error occurred. Details:\nnil");
}

#[test]
fn read_failure_names_the_path() {
    let e = FetchError::Read {
        path: "/home/u/.config/freshfetch/info.lua".to_string(),
        diagnostic: "permission denied".to_string(),
    };
    assert_eq!(
        e.message(),
        "An I/O error occurred while trying to read from \"/home/u/.config/freshfetch/info.lua\". Details:\npermission denied"
    );
}

#[test]
fn command_failure_names_the_command() {
    let e = FetchError::Command { command: "zsh -c x".to_string(), diagnostic: "d".to_string() };
    assert_eq!(e.message(), "An error occurred while executing \"zsh -c x\". Details:\nd");
}

#[test]
fn environment_failure_names_the_variable() {
    let e =
        FetchError::Environment { variable: "SHELL".to_string(), diagnostic: "unset".to_string() };
    assert_eq!(e.message(), "Failed to get $SHELL. Details:\nunset");
}

#[test]
fn report_is_the_header_and_the_message() {
    let e = FetchError::Script { diagnostic: "d".to_string() };
    assert_eq!(e.report(), format!("{}{}", HEADER, e.message()));
    assert_eq!(freshfetch::metrics::strip(&e.report()), "Error.\nA Lua error occurred. Details:\nd");
}
