use vstd::prelude::*;
use crate::AccessError;

verus! {

// The operating-system boundary of the library: thin trusted wrappers around
// nix's file-descriptor calls, and verified helpers that read or write a
// whole small file (a sysfs attribute) through them.
/// `open(2)` flag: read only.
pub const O_RDONLY: i32 = 0;

/// `open(2)` flag: write only.
pub const O_WRONLY: i32 = 1;

/// `open(2)` flag: synchronous, uncached I/O.
pub const O_SYNC: i32 = 0x101000;

/// Relies on alloc's Arc::clone: the clone refers to the same shared value
/// and keeps it alive.
#[verifier::external_body]
pub(crate) fn arc_clone<T>(a: &std::sync::Arc<T>) -> (r: std::sync::Arc<T>)
    ensures
        r == *a,
{
    std::sync::Arc::clone(a)
}

/// Relies on nix::fcntl::open: a successful open returns a non-negative
/// descriptor; the error is the errno value.
#[verifier::external_body]
pub(crate) fn fd_open(path: &str, flags: i32) -> (r: Result<i32, i32>)
    ensures
        r is Ok ==> r->Ok_0 >= 0,
{
    match nix::fcntl::open(
        path,
        nix::fcntl::OFlag::from_bits_truncate(flags),
        nix::sys::stat::Mode::empty(),
    ) {
        Ok(fd) => Ok(fd),
        Err(e) => Err(e as i32),
    }
}

/// Relies on nix::unistd::close; close(2) does not unwind.
#[verifier::external_body]
pub(crate) fn fd_close(fd: i32)
    opens_invariants none
    no_unwind
{
    let _ = nix::unistd::close(fd);
}

/// Relies on nix::unistd::read: a successful read hands back at most `n`
/// bytes; what they hold depends on the file.
#[verifier::external_body]
pub(crate) fn fd_read_chunk(fd: i32, n: usize) -> (r: Result<Vec<u8>, i32>)
    ensures
        r is Ok ==> r->Ok_0@.len() <= n,
{
    let mut buf = vec![0u8; n];
    match nix::unistd::read(fd, &mut buf) {
        Ok(cnt) => {
            buf.truncate(cnt);
            Ok(buf)
        },
        Err(e) => Err(e as i32),
    }
}

/// Relies on nix::unistd::write: a successful write consumes at most
/// `data.len()` bytes and reports how many.
#[verifier::external_body]
pub(crate) fn fd_write(fd: i32, data: &[u8]) -> (r: Result<usize, i32>)
    ensures
        r is Ok ==> r->Ok_0 <= data@.len(),
{
    match nix::unistd::write(fd, data) {
        Ok(n) => Ok(n),
        Err(e) => Err(e as i32),
    }
}

/// Relies on nix::poll::poll over one descriptor watched for input: the
/// result counts the ready descriptors, so it is zero or one.
#[verifier::external_body]
pub(crate) fn fd_poll_in(fd: i32, timeout_ms: i32) -> (r: Result<i32, i32>)
    ensures
        r is Ok ==> 0 <= r->Ok_0 <= 1,
{
    let mut fds = [nix::poll::PollFd::new(fd, nix::poll::PollFlags::POLLIN)];
    match nix::poll::poll(&mut fds, timeout_ms) {
        Ok(n) => Ok(n),
        Err(e) => Err(e as i32),
    }
}

/// Relies on nix::dir::Dir: the file names of the directory's entries — the
/// `.` and `..` entries among them — in whatever order the kernel hands
/// them out.
#[verifier::external_body]
pub(crate) fn list_dir_names(path: &str) -> (r: Result<Vec<String>, i32>) {
    let flags = nix::fcntl::OFlag::O_RDONLY | nix::fcntl::OFlag::O_DIRECTORY;
    let mut dir = match nix::dir::Dir::open(path, flags, nix::sys::stat::Mode::empty()) {
        Ok(d) => d,
        Err(e) => return Err(e as i32),
    };
    let mut names: Vec<String> = Vec::new();
    for entry in dir.iter() {
        match entry {
            Ok(e) => names.push(e.file_name().to_string_lossy().into_owned()),
            Err(e) => return Err(e as i32),
        }
    }
    Ok(names)
}

/// How many bytes a sysfs attribute is read in at once.
pub(crate) const READ_CHUNK: usize = 256;

/// How many chunks a file read accepts before giving up; sysfs attributes
/// are far smaller than this bound.
pub(crate) const READ_ROUNDS: usize = 64;

/// Read the whole contents of a small file, such as a sysfs attribute. A
/// file still going after `READ_ROUNDS` chunks does not fit any attribute
/// this library reads and is reported as malformed.
pub(crate) fn read_file_bytes(path: &str) -> (r: Result<Vec<u8>, AccessError>)
    ensures
        r is Err ==> r->Err_0 is Os || r->Err_0 == AccessError::Parse,
{
    let fd = match fd_open(path, O_RDONLY) {
        Ok(fd) => fd,
        Err(e) => {
            return Err(AccessError::Os(e));
        },
    };
    let mut out: Vec<u8> = Vec::new();
    let mut rounds: usize = 0;
    let mut done = false;
    while !done && rounds < READ_ROUNDS
        invariant
            rounds <= READ_ROUNDS,
        decreases READ_ROUNDS - rounds,
    {
        match fd_read_chunk(fd, READ_CHUNK) {
            Ok(mut chunk) => {
                if chunk.len() == 0 {
                    done = true;
                } else {
                    out.append(&mut chunk);
                }
            },
            Err(e) => {
                fd_close(fd);
                return Err(AccessError::Os(e));
            },
        }
        rounds = rounds + 1;
    }
    fd_close(fd);
    if done {
        Ok(out)
    } else {
        Err(AccessError::Parse)
    }
}

/// Write `data` to an existing file, whole; a write that makes no progress is
/// reported as an operating-system error with errno zero.
pub(crate) fn write_file_bytes(path: &str, data: &[u8]) -> (r: Result<(), AccessError>)
    ensures
        r is Err ==> r->Err_0 is Os,
{
    let fd = match fd_open(path, O_WRONLY) {
        Ok(fd) => fd,
        Err(e) => {
            return Err(AccessError::Os(e));
        },
    };
    let len = data.len();
    let mut pos: usize = 0;
    while pos < len
        invariant
            len == data@.len(),
            pos <= len,
        decreases len - pos,
    {
        let rest = vstd::slice::slice_subrange(data, pos, len);
        match fd_write(fd, rest) {
            Ok(n) => {
                if n == 0 {
                    fd_close(fd);
                    return Err(AccessError::Os(0));
                }
                pos = pos + n;
            },
            Err(e) => {
                fd_close(fd);
                return Err(AccessError::Os(e));
            },
        }
    }
    fd_close(fd);
    Ok(())
}

} // verus!
