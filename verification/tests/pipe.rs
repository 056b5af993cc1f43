use parterm::fifo::create_pipe;
use parterm::fifo::delete_pipe;
use parterm::fifo::pipe_exists;
use parterm::fifo::pipe_file_name;
use parterm::fifo::pipe_path;
use parterm::PipeError;

#[test]
fn the_pipe_file_name_derives_from_the_session_name() {
    assert_eq!(pipe_file_name("default"), "parterm_default.pipe");
    assert_eq!(pipe_file_name("test"), "parterm_test.pipe");
}

#[test]
fn client_with_no_pipe_fails_with_no_server_and_creates_nothing() {
    let name = "parterm_absent.pipe";
    let _ = delete_pipe(name);
    let result = parterm::client(String::from("ls\n"), name);
    assert!(matches!(result, Err(PipeError::NoServer)));
    assert!(!pipe_exists(name));
}

#[test]
fn the_pipe_file_exists_after_creation_and_not_after_deletion() {
    let name = "parterm_life.pipe";
    let _ = delete_pipe(name);
    assert!(!pipe_exists(name));
    let path = pipe_path(name);
    create_pipe(&path).unwrap();
    assert!(pipe_exists(name));
    delete_pipe(name).unwrap();
    assert!(!pipe_exists(name));
}

#[test]
fn deleting_a_missing_pipe_reports_an_io_error() {
    let name = "parterm_gone.pipe";
    let _ = delete_pipe(name);
    let result = delete_pipe(name);
    assert!(matches!(result, Err(PipeError::Io(_))));
}
