use tray_app::protocol::classify_read;
use tray_app::protocol::parse_command;
use tray_app::protocol::response_line;
use tray_app::protocol::token_bytes;
use tray_app::protocol::Command;
use tray_app::protocol::ReadStep;
use tray_app::protocol::Response;

fn line(s: &str) -> Vec<u8> {
    s.as_bytes().to_vec()
}

#[test]
fn parses_each_exact_token() {
    assert_eq!(parse_command(&line("status\n")), Command::Status);
    assert_eq!(parse_command(&line("start\n")), Command::Start);
    assert_eq!(parse_command(&line("toggle\n")), Command::Toggle);
    assert_eq!(parse_command(&line("quit\n")), Command::Quit);
}

#[test]
fn parses_without_trailing_newline() {
    assert_eq!(parse_command(&line("status")), Command::Status);
    assert_eq!(parse_command(&line("quit")), Command::Quit);
}

#[test]
fn trims_surrounding_whitespace() {
    assert_eq!(parse_command(&line("  status \r\n")), Command::Status);
    assert_eq!(parse_command(&line("\ttoggle\t\n")), Command::Toggle);
    assert_eq!(parse_command(&line(" \t start\n")), Command::Start);
}

#[test]
fn rejects_tokens_outside_the_vocabulary() {
    assert_eq!(parse_command(&line("export\n")), Command::Unrecognized);
    assert_eq!(parse_command(&line("restart\n")), Command::Unrecognized);
    assert_eq!(parse_command(&line("statuses\n")), Command::Unrecognized);
    assert_eq!(parse_command(&line("stat\n")), Command::Unrecognized);
}

#[test]
fn matching_is_case_sensitive() {
    assert_eq!(parse_command(&line("Status\n")), Command::Unrecognized);
    assert_eq!(parse_command(&line("QUIT\n")), Command::Unrecognized);
}

#[test]
fn rejects_interior_whitespace() {
    assert_eq!(parse_command(&line("sta tus\n")), Command::Unrecognized);
}

#[test]
fn blank_line_is_unrecognized() {
    assert_eq!(parse_command(&line("\n")), Command::Unrecognized);
    assert_eq!(parse_command(&line("   \n")), Command::Unrecognized);
    assert_eq!(parse_command(&line("")), Command::Unrecognized);
}

#[test]
fn response_lines_are_exact() {
    assert_eq!(response_line(Response::Running), b"running\n".to_vec());
    assert_eq!(response_line(Response::Stopped), b"stopped\n".to_vec());
    assert_eq!(response_line(Response::Error), b"error\n".to_vec());
}

#[test]
fn token_bytes_are_exact() {
    assert_eq!(token_bytes(Command::Status), b"status".to_vec());
    assert_eq!(token_bytes(Command::Start), b"start".to_vec());
    assert_eq!(token_bytes(Command::Toggle), b"toggle".to_vec());
    assert_eq!(token_bytes(Command::Quit), b"quit".to_vec());
    assert_eq!(token_bytes(Command::Unrecognized), Vec::<u8>::new());
}

#[test]
fn empty_read_is_skipped() {
    assert_eq!(classify_read(0, &line("")), ReadStep::Skip);
}

#[test]
fn nonempty_read_is_handled() {
    let l = line("toggle\n");
    assert_eq!(classify_read(l.len(), &l), ReadStep::Handle(Command::Toggle));
    let junk = line("export\n");
    assert_eq!(
        classify_read(junk.len(), &junk),
        ReadStep::Handle(Command::Unrecognized)
    );
}
