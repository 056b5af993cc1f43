//! The command channel: a named pipe at a well-known path.
//!
//! The server is the sole creator of the pipe; its presence on the
//! filesystem is the externally visible sign that a server is listening for
//! that name. A client opens the pipe write-only and fails at once when it
//! is absent, rather than creating it.

use vstd::prelude::*;
use vstd::string::StrSliceExecFns;
use vstd::string::StringExecFns;
use vstd::utf8::encode_utf8;

verus! {

/// Failures of the command channel.
#[derive(Clone, Copy, Debug, PartialEq, Eq, Structural)]
pub enum PipeError {
    /// The client addressed a name with no pipe: no server is listening.
    NoServer,
    /// A descriptor-level failure, carrying the OS error number.
    Io(i32),
}

/// An open file descriptor treated as a byte stream, together with the
/// history of the bytes this handle has passed through it. The histories
/// are the model that the channel's contracts speak of: what was handed to
/// the descriptor, and what the descriptor yielded, each in order.
pub struct Fd {
    fd: i32,
    written: Ghost<Seq<u8>>,
    consumed: Ghost<Seq<u8>>,
}

impl Fd {
    /// All bytes handed to the descriptor through this handle, in order.
    pub closed spec fn written(&self) -> Seq<u8> {
        self.written@
    }

    /// All bytes the descriptor has yielded to this handle, in order.
    pub closed spec fn consumed(&self) -> Seq<u8> {
        self.consumed@
    }

    /// Wraps an already-open descriptor; its histories start empty.
    pub fn from_raw(fd: i32) -> (r: Fd)
        ensures
            r.written() == Seq::<u8>::empty(),
            r.consumed() == Seq::<u8>::empty(),
    {
        Fd { fd, written: Ghost(Seq::empty()), consumed: Ghost(Seq::empty()) }
    }

    /// Writes all of `buf` to the descriptor, in order, retrying partial
    /// writes until every byte is delivered. On failure, some prefix of
    /// `buf` has been delivered.
    pub fn write_all(&mut self, buf: &Vec<u8>) -> (r: Result<(), i32>)
        ensures
            r matches Ok(_) ==> final(self).written() == old(self).written() + buf@,
            r matches Err(_) ==> exists|k: int|
                0 <= k <= buf@.len() && final(self).written() == old(self).written()
                    + buf@.subrange(0, k),
            final(self).consumed() == old(self).consumed(),
    {
        let mut off: usize = 0;
        while off < buf.len()
            invariant
                off <= buf.len(),
                self.written() == old(self).written() + buf@.subrange(0, off as int),
                self.consumed() == old(self).consumed(),
            decreases buf.len() - off,
        {
            let ghost prev = off as int;
            match write_fd(self, buf, off) {
                Ok(n) => {
                    off = off + n;
                    proof {
                        assert(buf@.subrange(0, off as int) =~= buf@.subrange(0, prev)
                            + buf@.subrange(prev, off as int));
                    }
                }
                Err(e) => {
                    proof {
                        assert(0 <= off as int <= buf@.len() && self.written()
                            == old(self).written() + buf@.subrange(0, off as int));
                    }
                    return Err(e);
                }
            }
        }
        proof {
            assert(buf@.subrange(0, buf@.len() as int) =~= buf@);
        }
        Ok(())
    }

    /// Reads up to `cap` bytes from the descriptor. An empty result means
    /// end-of-stream, or that no writer is currently connected.
    pub fn read_chunk(&mut self, cap: usize) -> (r: Result<Vec<u8>, i32>)
        requires
            1 <= cap,
        ensures
            r matches Ok(v) ==> v@.len() <= cap && final(self).consumed() == old(self).consumed()
                + v@,
            r matches Err(_) ==> final(self).consumed() == old(self).consumed(),
            final(self).written() == old(self).written(),
    {
        read_fd(self, cap)
    }

    /// Closes the descriptor, consuming the handle.
    pub fn close(self) -> Result<(), i32> {
        close_fd(self)
    }
}

/// Relies on nix::unistd::write: delivers some non-empty prefix of the
/// given bytes to the descriptor and returns how many were taken.
#[verifier::external_body]
fn write_fd(f: &mut Fd, buf: &Vec<u8>, offset: usize) -> (r: Result<usize, i32>)
    requires
        offset < buf.len(),
    ensures
        r matches Ok(n) ==> 1 <= n <= buf@.len() - offset && final(f).written()
            == old(f).written() + buf@.subrange(offset as int, offset as int + n as int),
        r matches Err(_) ==> final(f).written() == old(f).written(),
        final(f).consumed() == old(f).consumed(),
{
    match nix::unistd::write(f.fd, &buf[offset..]) {
        Ok(n) => Ok(n),
        Err(e) => Err(e as i32),
    }
}

/// Relies on nix::unistd::read: yields up to `cap` bytes from the
/// descriptor; zero bytes means end-of-stream or no connected writer.
#[verifier::external_body]
fn read_fd(f: &mut Fd, cap: usize) -> (r: Result<Vec<u8>, i32>)
    requires
        1 <= cap,
    ensures
        r matches Ok(v) ==> v@.len() <= cap && final(f).consumed() == old(f).consumed() + v@,
        r matches Err(_) ==> final(f).consumed() == old(f).consumed(),
        final(f).written() == old(f).written(),
{
    let mut buf = vec![0u8; cap];
    match nix::unistd::read(f.fd, &mut buf) {
        Ok(n) => {
            buf.truncate(n);
            Ok(buf)
        }
        Err(e) => Err(e as i32),
    }
}

/// Relies on nix::unistd::close.
#[verifier::external_body]
fn close_fd(f: Fd) -> Result<(), i32> {
    match nix::unistd::close(f.fd) {
        Ok(()) => Ok(()),
        Err(e) => Err(e as i32),
    }
}

/// Relies on nix::sys::stat::stat: tells whether a path currently exists.
#[verifier::external_body]
fn path_exists(path: &str) -> bool {
    nix::sys::stat::stat(path).is_ok()
}

/// Relies on nix::unistd::mkfifo: creates a FIFO with owner
/// read/write/execute permission.
#[verifier::external_body]
fn mkfifo_at(path: &str) -> Result<(), i32> {
    match nix::unistd::mkfifo(path, nix::sys::stat::Mode::S_IRWXU) {
        Ok(()) => Ok(()),
        Err(e) => Err(e as i32),
    }
}

/// Relies on nix::fcntl::open with read-only flags and no creation flag:
/// on success the returned descriptor is valid and non-negative.
#[verifier::external_body]
fn open_read(path: &str) -> (r: Result<i32, i32>)
    ensures
        r matches Ok(fd) ==> fd >= 0,
{
    match nix::fcntl::open(path, nix::fcntl::OFlag::O_RDONLY, nix::sys::stat::Mode::empty()) {
        Ok(fd) => Ok(fd),
        Err(e) => Err(e as i32),
    }
}

/// Relies on nix::fcntl::open with write-only flags and no creation flag:
/// it never creates the path; on success the descriptor is non-negative.
#[verifier::external_body]
fn open_write(path: &str) -> (r: Result<i32, i32>)
    ensures
        r matches Ok(fd) ==> fd >= 0,
{
    match nix::fcntl::open(path, nix::fcntl::OFlag::O_WRONLY, nix::sys::stat::Mode::empty()) {
        Ok(fd) => Ok(fd),
        Err(e) => Err(e as i32),
    }
}

/// Relies on nix::unistd::unlink: removes a filesystem name.
#[verifier::external_body]
fn unlink_path(path: &str) -> Result<(), i32> {
    match nix::unistd::unlink(path) {
        Ok(()) => Ok(()),
        Err(e) => Err(e as i32),
    }
}

/// The file name of the pipe serving a session name: `parterm_<name>.pipe`.
pub fn pipe_file_name(name: &str) -> (r: String)
    ensures
        r@ == "parterm_"@ + name@ + ".pipe"@,
{
    let mut p = "parterm_".to_owned();
    p.append(name);
    p.append(".pipe");
    p
}

/// The full path of a pipe file: it lives in the system temporary
/// directory.
pub fn pipe_path(name: &str) -> (r: String)
    ensures
        r@ == "/tmp/"@ + name@,
{
    let mut p = "/tmp/".to_owned();
    p.append(name);
    p
}

/// How an open request is to proceed, given whether the pipe file exists
/// and which side asks.
#[derive(Clone, Copy, Debug, PartialEq, Eq, Structural)]
pub enum OpenPlan {
    /// Writer side, no pipe: refuse at once, creating nothing.
    RefuseNoServer,
    /// Reader side, no pipe: the reader owns the file and creates it first.
    CreateThenOpen,
    /// The pipe already exists: open it as asked.
    OpenExisting,
}

/// The two-phase lifecycle of the pipe file: the reader creates it when
/// missing; a writer finding it missing is refused and never creates it.
pub open spec fn open_plan_spec(exists: bool, write: bool) -> OpenPlan {
    if exists {
        OpenPlan::OpenExisting
    } else if write {
        OpenPlan::RefuseNoServer
    } else {
        OpenPlan::CreateThenOpen
    }
}

/// Decides how to open the pipe file for one side of the channel.
pub fn open_plan(exists: bool, write: bool) -> (p: OpenPlan)
    ensures
        p == open_plan_spec(exists, write),
        p == OpenPlan::RefuseNoServer <==> !exists && write,
        p == OpenPlan::CreateThenOpen <==> !exists && !write,
        p == OpenPlan::OpenExisting <==> exists,
{
    if exists {
        OpenPlan::OpenExisting
    } else if write {
        OpenPlan::RefuseNoServer
    } else {
        OpenPlan::CreateThenOpen
    }
}

/// Law: a writer that finds no pipe file is always refused with no server,
/// and only a reader's plan ever creates the file.
pub proof fn lemma_absent_pipe_refuses_writer(write: bool)
    ensures
        write ==> open_plan_spec(false, write) == OpenPlan::RefuseNoServer,
        !write ==> open_plan_spec(false, write) == OpenPlan::CreateThenOpen,
        forall|exists_now: bool|
            open_plan_spec(exists_now, true) != OpenPlan::CreateThenOpen,
{
}

/// Creates the pipe file at the given path.
pub fn create_pipe(path: &str) -> (r: Result<(), PipeError>)
    ensures
        r matches Err(e) ==> e matches PipeError::Io(_),
{
    match mkfifo_at(path) {
        Ok(()) => Ok(()),
        Err(e) => Err(PipeError::Io(e)),
    }
}

/// Opens the pipe file serving `name`, creating it first when this is the
/// reader side and it is missing. Only a writer is ever refused with
/// `NoServer`; a fresh handle has empty histories.
pub fn get_pipe(name: &str, write: bool) -> (r: Result<Fd, PipeError>)
    ensures
        r matches Ok(f) ==> f.written() == Seq::<u8>::empty() && f.consumed()
            == Seq::<u8>::empty(),
        r == Result::<Fd, PipeError>::Err(PipeError::NoServer) ==> write,
{
    let path = pipe_path(name);
    let exists = path_exists(path.as_str());
    match open_plan(exists, write) {
        OpenPlan::RefuseNoServer => Err(PipeError::NoServer),
        OpenPlan::CreateThenOpen => {
            match create_pipe(path.as_str()) {
                Ok(()) => open_pipe(path.as_str(), write),
                Err(e) => Err(e),
            }
        }
        OpenPlan::OpenExisting => open_pipe(path.as_str(), write),
    }
}

/// Opens an existing pipe file for one side; never refused as `NoServer`.
fn open_pipe(path: &str, write: bool) -> (r: Result<Fd, PipeError>)
    ensures
        r matches Ok(f) ==> f.written() == Seq::<u8>::empty() && f.consumed()
            == Seq::<u8>::empty(),
        r matches Err(e) ==> e matches PipeError::Io(_),
{
    let res = if write {
        open_write(path)
    } else {
        open_read(path)
    };
    match res {
        Ok(fd) => Ok(Fd::from_raw(fd)),
        Err(e) => Err(PipeError::Io(e)),
    }
}

/// Tells whether the pipe file serving `name` currently exists.
pub fn pipe_exists(name: &str) -> bool {
    let path = pipe_path(name);
    path_exists(path.as_str())
}

/// Removes the pipe file serving `name`. Deletion is idempotent at the
/// session level: a failure is reported, never escalated by callers.
pub fn delete_pipe(name: &str) -> (r: Result<(), PipeError>)
    ensures
        r matches Err(e) ==> e matches PipeError::Io(_),
{
    let path = pipe_path(name);
    match unlink_path(path.as_str()) {
        Ok(()) => Ok(()),
        Err(e) => Err(PipeError::Io(e)),
    }
}

/// Writes one command to an already-open pipe: on success exactly the
/// UTF-8 bytes of `value`, in order, undivided, have been handed to the
/// pipe; on failure some prefix of them has.
pub fn submit(pipe: &mut Fd, value: &String) -> (r: Result<(), PipeError>)
    ensures
        r matches Ok(_) ==> final(pipe).written() == old(pipe).written() + encode_utf8(value@),
        r matches Err(e) ==> (e matches PipeError::Io(_)) && exists|k: int|
            0 <= k <= encode_utf8(value@).len() && final(pipe).written() == old(pipe).written()
                + encode_utf8(value@).subrange(0, k),
        final(pipe).consumed() == old(pipe).consumed(),
{
    let bytes = value.as_str().as_bytes_vec();
    match pipe.write_all(&bytes) {
        Ok(()) => Ok(()),
        Err(e) => Err(PipeError::Io(e)),
    }
}

/// Delivers one command to the server listening under the pipe file
/// `name`: opens the pipe write-only — failing with `NoServer` when it
/// does not exist, without creating it — and writes the full text. The
/// descriptor is unbuffered, so the bytes are with the OS when this
/// returns; an error while releasing the descriptor afterwards cannot
/// undo delivery and is ignored.
pub fn client(value: String, name: &str) -> (r: Result<(), PipeError>)
    ensures
        r matches Err(e) ==> e == PipeError::NoServer || (e matches PipeError::Io(_)),
{
    let mut pipe = get_pipe(name, true)?;
    submit(&mut pipe, &value)?;
    let _ = pipe.close();
    Ok(())
}

} // verus!
