//! The session's decisions: what each arriving chunk, signal or startup
//! outcome makes the session do.
//!
//! The running session is a set of concurrent paths — an output pump from
//! the PTY to the terminal, two input readers feeding the PTY, and a signal
//! bridge. Each path hands every unit it receives to `session_step` and
//! performs the returned action; the decisions themselves are all here.

use crate::fifo::Fd;
use crate::size::Size;
use crate::size::Winsize;
use vstd::prelude::*;
use vstd::string::StrSliceExecFns;
use vstd::utf8::encode_utf8;

verus! {

/// How many bytes one read from the PTY or the terminal takes at most:
/// each such read is forwarded as one message.
pub const PTY_CHUNK: usize = 4096;

/// How many bytes one read from the command pipe takes at most.
pub const PIPE_CHUNK: usize = 256;

/// Errors that might happen during operations on the PTY.
#[derive(Clone, Copy, Debug, PartialEq, Eq, Structural)]
pub enum PtyError {
    /// Failed to open the PTY
    OpenPty,
    /// Failed to spawn the shell
    SpawnShell,
    /// Failed to resize the PTY
    Resize,
}

/// One unit of input to the session: a chunk read by one of its paths, or
/// a signal delivered by the bridge.
#[derive(Debug, PartialEq, Eq)]
pub enum Event {
    /// A chunk the output pump read from the PTY master.
    PtyOutput(Vec<u8>),
    /// A chunk read from the controlling terminal's keyboard.
    LocalInput(Vec<u8>),
    /// A chunk read from the command pipe.
    RemoteCommand(Vec<u8>),
    /// The window-changed signal arrived; the terminal now has this size.
    WindowChanged(Size),
    /// The termination signal arrived.
    TerminateRequested,
}

/// What the path that received an event must do with it.
#[derive(Debug, PartialEq, Eq)]
pub enum Action {
    /// Write these bytes to the controlling terminal, fully flushed.
    WriteTerminal(Vec<u8>),
    /// Write these bytes to the PTY input, fully flushed.
    WritePty(Vec<u8>),
    /// Set the PTY's kernel-visible window size to this record.
    ResizePty(Winsize),
    /// Nothing to read right now: back off briefly before retrying.
    SleepBriefly,
    /// The keyboard stream ended: stop this input path, session goes on.
    StopLocalInput,
    /// The shell's output ended: the session is over.
    EndSession,
    /// Remove the pipe file and end the process at once.
    CleanupAndExit,
}

/// The session's whole per-event decision table.
///
/// A non-empty chunk is forwarded as one message, unchanged, to the PTY
/// input (both input sources) or to the terminal (the output pump). An
/// empty read means end-of-stream — fatal for the output pump, final for
/// the keyboard path — except on the pipe, where it only means no writer
/// is connected and the reader backs off. A window change sets the PTY's
/// size to the terminal's current one; a termination request cleans up the
/// pipe and exits.
pub open spec fn step_spec(ev: Event) -> Action {
    match ev {
        Event::PtyOutput(b) => if b@.len() == 0 {
            Action::EndSession
        } else {
            Action::WriteTerminal(b)
        },
        Event::LocalInput(b) => if b@.len() == 0 {
            Action::StopLocalInput
        } else {
            Action::WritePty(b)
        },
        Event::RemoteCommand(b) => if b@.len() == 0 {
            Action::SleepBriefly
        } else {
            Action::WritePty(b)
        },
        Event::WindowChanged(s) => Action::ResizePty(s.winsize_spec()),
        Event::TerminateRequested => Action::CleanupAndExit,
    }
}

/// Decides what the receiving path does with one event.
pub fn session_step(ev: Event) -> (a: Action)
    ensures
        a == step_spec(ev),
{
    match ev {
        Event::PtyOutput(b) => {
            if b.len() == 0 {
                Action::EndSession
            } else {
                Action::WriteTerminal(b)
            }
        }
        Event::LocalInput(b) => {
            if b.len() == 0 {
                Action::StopLocalInput
            } else {
                Action::WritePty(b)
            }
        }
        Event::RemoteCommand(b) => {
            if b.len() == 0 {
                Action::SleepBriefly
            } else {
                Action::WritePty(b)
            }
        }
        Event::WindowChanged(s) => Action::ResizePty(s.to_c_winsize()),
        Event::TerminateRequested => Action::CleanupAndExit,
    }
}

/// Law: a non-empty chunk of command bytes arriving from the pipe goes to
/// the PTY input exactly as it arrived — same bytes, same order, one
/// undivided message.
pub proof fn lemma_remote_chunk_forwarded(b: Vec<u8>)
    requires
        b@.len() > 0,
    ensures
        step_spec(Event::RemoteCommand(b)) matches Action::WritePty(w) && w@ == b@,
{
}

/// Law: a non-empty chunk of shell output goes to the controlling terminal
/// exactly as it arrived, and only an empty read ends the session.
pub proof fn lemma_output_chunk_forwarded(b: Vec<u8>)
    ensures
        b@.len() > 0 ==> (step_spec(Event::PtyOutput(b)) matches Action::WriteTerminal(w) && w@
            == b@),
        b@.len() == 0 ==> step_spec(Event::PtyOutput(b)) == Action::EndSession,
{
}

/// What the supervisor does once the attempt to spawn the shell in its PTY
/// has returned.
#[derive(Debug, PartialEq, Eq, Structural)]
pub enum StartupAction {
    /// The shell is running on this PTY master descriptor: open the
    /// command channel and start the session's paths.
    OpenCommandChannel(i32),
    /// The spawn failed: abort the whole session with this error, before
    /// any pipe file exists.
    AbortNoPipe(PtyError),
}

/// Decides how startup proceeds after the PTY spawn attempt: the command
/// channel is opened only for a running shell, so a server that cannot
/// spawn its shell exits without ever creating its pipe file.
pub fn startup_step(spawn_result: Result<i32, PtyError>) -> (a: StartupAction)
    ensures
        spawn_result matches Ok(fd) ==> a == StartupAction::OpenCommandChannel(fd),
        spawn_result matches Err(e) ==> a == StartupAction::AbortNoPipe(e),
{
    match spawn_result {
        Ok(fd) => StartupAction::OpenCommandChannel(fd),
        Err(e) => StartupAction::AbortNoPipe(e),
    }
}

/// What one turn of the output pump did.
#[derive(Clone, Copy, Debug, PartialEq, Eq, Structural)]
pub enum PumpStatus {
    /// One non-empty chunk went through; the pump should run again.
    Continue,
    /// The PTY yielded an empty read: the shell's output ended and the
    /// session is over.
    EndOfStream,
    /// Reading the PTY failed: the session is over.
    ReadError(i32),
    /// Writing the terminal failed, possibly cutting the chunk short:
    /// the session is over.
    WriteError(i32),
}

/// One turn of the output pump, the session's authoritative path: reads
/// one chunk of shell output from the PTY master and hands it, unchanged
/// and whole, to the controlling terminal. Anything but `Continue` is the
/// session-over signal; the chunk that went through is exactly the chunk
/// that was read.
pub fn pump_once(pty_out: &mut Fd, tty_out: &mut Fd) -> (r: PumpStatus)
    ensures
        final(pty_out).written() == old(pty_out).written(),
        final(tty_out).consumed() == old(tty_out).consumed(),
        r == PumpStatus::Continue ==> exists|c: Seq<u8>|
            c.len() > 0 && c.len() <= PTY_CHUNK && final(pty_out).consumed() == old(
                pty_out,
            ).consumed() + c && final(tty_out).written() == old(tty_out).written() + c,
        r == PumpStatus::EndOfStream ==> final(pty_out).consumed() == old(pty_out).consumed()
            && final(tty_out).written() == old(tty_out).written(),
        r matches PumpStatus::ReadError(_) ==> final(pty_out).consumed() == old(
            pty_out,
        ).consumed() && final(tty_out).written() == old(tty_out).written(),
        r matches PumpStatus::WriteError(_) ==> exists|c: Seq<u8>, k: int|
            final(pty_out).consumed() == old(pty_out).consumed() + c && 0 <= k <= c.len()
                && final(tty_out).written() == old(tty_out).written() + c.subrange(0, k),
{
    let chunk = match pty_out.read_chunk(PTY_CHUNK) {
        Ok(chunk) => chunk,
        Err(e) => {
            return PumpStatus::ReadError(e);
        }
    };
    let ghost c = chunk@;
    match session_step(Event::PtyOutput(chunk)) {
        Action::WriteTerminal(bytes) => {
            match tty_out.write_all(&bytes) {
                Ok(()) => PumpStatus::Continue,
                Err(e) => PumpStatus::WriteError(e),
            }
        }
        _ => {
            proof {
                assert(old(pty_out).consumed() + c =~= old(pty_out).consumed());
            }
            PumpStatus::EndOfStream
        }
    }
}

/// One turn of the remote-command reader: reads one chunk from the pipe
/// and decides what to do with it. A forwarding action carries exactly
/// the bytes read, in order, as one undivided message; an empty read
/// asks for a brief backoff.
pub fn remote_once(pipe: &mut Fd) -> (r: Result<Action, i32>)
    ensures
        final(pipe).written() == old(pipe).written(),
        r matches Ok(a) ==> exists|c: Seq<u8>|
            c.len() <= PIPE_CHUNK && final(pipe).consumed() == old(pipe).consumed() + c && ((
            c.len() > 0 && (a matches Action::WritePty(w) && w@ == c)) || (c.len() == 0 && a
                == Action::SleepBriefly)),
        r matches Err(_) ==> final(pipe).consumed() == old(pipe).consumed(),
{
    let chunk = match pipe.read_chunk(PIPE_CHUNK) {
        Ok(chunk) => chunk,
        Err(e) => {
            return Err(e);
        }
    };
    let a = session_step(Event::RemoteCommand(chunk));
    Ok(a)
}

/// One turn of the keyboard reader: reads one chunk from the controlling
/// terminal and decides what to do with it. A forwarding action carries
/// exactly the bytes read; an empty read ends this path.
pub fn local_once(tty_in: &mut Fd) -> (r: Result<Action, i32>)
    ensures
        final(tty_in).written() == old(tty_in).written(),
        r matches Ok(a) ==> exists|c: Seq<u8>|
            c.len() <= PTY_CHUNK && final(tty_in).consumed() == old(tty_in).consumed() + c && ((
            c.len() > 0 && (a matches Action::WritePty(w) && w@ == c)) || (c.len() == 0 && a
                == Action::StopLocalInput)),
        r matches Err(_) ==> final(tty_in).consumed() == old(tty_in).consumed(),
{
    let chunk = match tty_in.read_chunk(PTY_CHUNK) {
        Ok(chunk) => chunk,
        Err(e) => {
            return Err(e);
        }
    };
    let a = session_step(Event::LocalInput(chunk));
    Ok(a)
}

/// The newline byte that terminates every command message.
pub const NEWLINE: u8 = 10;

/// The first message of a session started with an initial command: the
/// command's UTF-8 bytes with a newline appended, delivered into the
/// shell's input before any remote command.
pub fn initial_message(program: &str) -> (r: Vec<u8>)
    ensures
        r@ == encode_utf8(program@).push(NEWLINE),
{
    let mut v = program.as_bytes_vec();
    v.push(NEWLINE);
    v
}

} // verus!
