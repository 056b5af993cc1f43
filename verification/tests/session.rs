use parterm::session::initial_message;
use parterm::session::session_step;
use parterm::session::startup_step;
use parterm::session::Action;
use parterm::session::Event;
use parterm::session::PtyError;
use parterm::session::StartupAction;
use parterm::util::choose_shell;
use parterm::util::FromLibcResult;
use parterm::util::LibcError;
use parterm::Size;

#[test]
fn remote_command_bytes_are_forwarded_to_the_pty_unchanged() {
    let chunk = b"ls\n".to_vec();
    match session_step(Event::RemoteCommand(chunk)) {
        Action::WritePty(bytes) => assert_eq!(bytes, b"ls\n".to_vec()),
        other => panic!("unexpected action: {:?}", other),
    }
}

#[test]
fn local_input_bytes_are_forwarded_to_the_pty_unchanged() {
    let chunk = b"echo hi\n".to_vec();
    match session_step(Event::LocalInput(chunk)) {
        Action::WritePty(bytes) => assert_eq!(bytes, b"echo hi\n".to_vec()),
        other => panic!("unexpected action: {:?}", other),
    }
}

#[test]
fn pty_output_bytes_go_to_the_terminal_unchanged() {
    let chunk = b"hi\r\n$ ".to_vec();
    match session_step(Event::PtyOutput(chunk)) {
        Action::WriteTerminal(bytes) => assert_eq!(bytes, b"hi\r\n$ ".to_vec()),
        other => panic!("unexpected action: {:?}", other),
    }
}

#[test]
fn empty_pty_output_ends_the_session() {
    assert_eq!(session_step(Event::PtyOutput(Vec::new())), Action::EndSession);
}

#[test]
fn empty_local_input_stops_only_that_path() {
    assert_eq!(
        session_step(Event::LocalInput(Vec::new())),
        Action::StopLocalInput
    );
}

#[test]
fn empty_remote_read_backs_off_briefly() {
    assert_eq!(
        session_step(Event::RemoteCommand(Vec::new())),
        Action::SleepBriefly
    );
}

#[test]
fn window_change_resizes_the_pty_to_the_new_size() {
    let size = Size {
        width: 314,
        height: 42,
    };
    match session_step(Event::WindowChanged(size)) {
        Action::ResizePty(w) => {
            assert_eq!(w.ws_col, 314);
            assert_eq!(w.ws_row, 42);
            assert_eq!(w.ws_xpixel, 0);
            assert_eq!(w.ws_ypixel, 0);
        }
        other => panic!("unexpected action: {:?}", other),
    }
}

#[test]
fn window_change_twice_with_the_same_size_gives_the_same_action() {
    let size = Size {
        width: 100,
        height: 50,
    };
    let first = session_step(Event::WindowChanged(size));
    let second = session_step(Event::WindowChanged(size));
    assert_eq!(first, second);
}

#[test]
fn termination_request_cleans_up_and_exits() {
    assert_eq!(
        session_step(Event::TerminateRequested),
        Action::CleanupAndExit
    );
}

#[test]
fn a_failed_shell_spawn_aborts_before_any_pipe_exists() {
    assert_eq!(
        startup_step(Err(PtyError::SpawnShell)),
        StartupAction::AbortNoPipe(PtyError::SpawnShell)
    );
}

#[test]
fn a_successful_spawn_opens_the_command_channel() {
    assert_eq!(
        startup_step(Ok(7)),
        StartupAction::OpenCommandChannel(7)
    );
}

#[test]
fn the_initial_command_gets_a_trailing_newline() {
    assert_eq!(initial_message("echo hi"), b"echo hi\n".to_vec());
}

#[test]
fn the_shell_comes_from_the_environment_first() {
    let shell = choose_shell(Some(String::from("/bin/zsh")), Some(String::from("/bin/bash")));
    assert_eq!(shell, "/bin/zsh");
}

#[test]
fn the_shell_falls_back_to_the_passwd_entry() {
    let shell = choose_shell(None, Some(String::from("/bin/bash")));
    assert_eq!(shell, "/bin/bash");
}

#[test]
fn the_shell_defaults_to_bin_sh() {
    let shell = choose_shell(None, None);
    assert_eq!(shell, "/bin/sh");
}

#[test]
fn minus_one_converts_to_a_libc_failure() {
    assert_eq!((-1i32).to_result(), Err(LibcError::Failed));
}

#[test]
fn other_values_convert_to_success_unchanged() {
    assert_eq!(0i32.to_result(), Ok(0));
    assert_eq!(17i32.to_result(), Ok(17));
}
