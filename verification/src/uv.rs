//! The enumerations of the libuv C interface.
//!
//! Each member stands for the number that the C library gives it; `code`
//! returns that number, for use wherever a value crosses into C.

use vstd::prelude::*;

verus! {

/// The kinds of handle.
#[allow(non_camel_case_types)]
#[derive(Debug, Clone, Copy, PartialEq, Eq, Structural)]
pub enum uv_handle_type {
    UV_UNKNOWN_HANDLE,
    UV_ASYNC,
    UV_CHECK,
    UV_FS_EVENT,
    UV_FS_POLL,
    UV_HANDLE,
    UV_IDLE,
    UV_NAMED_PIPE,
    UV_POLL,
    UV_PREPARE,
    UV_PROCESS,
    UV_STREAM,
    UV_TCP,
    UV_TIMER,
    UV_TTY,
    UV_UDP,
    UV_SIGNAL,
    UV_FILE,
    UV_HANDLE_TYPE_MAX,
}

impl uv_handle_type {
    /// The number that the C library gives this member.
    pub open spec fn abi(self) -> int {
        match self {
            uv_handle_type::UV_UNKNOWN_HANDLE => 0,
            uv_handle_type::UV_ASYNC => 1,
            uv_handle_type::UV_CHECK => 2,
            uv_handle_type::UV_FS_EVENT => 3,
            uv_handle_type::UV_FS_POLL => 4,
            uv_handle_type::UV_HANDLE => 5,
            uv_handle_type::UV_IDLE => 6,
            uv_handle_type::UV_NAMED_PIPE => 7,
            uv_handle_type::UV_POLL => 8,
            uv_handle_type::UV_PREPARE => 9,
            uv_handle_type::UV_PROCESS => 10,
            uv_handle_type::UV_STREAM => 11,
            uv_handle_type::UV_TCP => 12,
            uv_handle_type::UV_TIMER => 13,
            uv_handle_type::UV_TTY => 14,
            uv_handle_type::UV_UDP => 15,
            uv_handle_type::UV_SIGNAL => 16,
            uv_handle_type::UV_FILE => 17,
            uv_handle_type::UV_HANDLE_TYPE_MAX => 18,
        }
    }

    /// The number that the C library gives this member.
    pub fn code(&self) -> (c: i32)
        ensures
            c == self.abi(),
    {
        match self {
            uv_handle_type::UV_UNKNOWN_HANDLE => 0,
            uv_handle_type::UV_ASYNC => 1,
            uv_handle_type::UV_CHECK => 2,
            uv_handle_type::UV_FS_EVENT => 3,
            uv_handle_type::UV_FS_POLL => 4,
            uv_handle_type::UV_HANDLE => 5,
            uv_handle_type::UV_IDLE => 6,
            uv_handle_type::UV_NAMED_PIPE => 7,
            uv_handle_type::UV_POLL => 8,
            uv_handle_type::UV_PREPARE => 9,
            uv_handle_type::UV_PROCESS => 10,
            uv_handle_type::UV_STREAM => 11,
            uv_handle_type::UV_TCP => 12,
            uv_handle_type::UV_TIMER => 13,
            uv_handle_type::UV_TTY => 14,
            uv_handle_type::UV_UDP => 15,
            uv_handle_type::UV_SIGNAL => 16,
            uv_handle_type::UV_FILE => 17,
            uv_handle_type::UV_HANDLE_TYPE_MAX => 18,
        }
    }
}

/// How the event loop is run.
#[allow(non_camel_case_types)]
#[derive(Debug, Clone, Copy, PartialEq, Eq, Structural)]
pub enum uv_run_mode {
    UV_RUN_DEFAULT,
    UV_RUN_ONCE,
    UV_RUN_NOWAIT,
}

impl uv_run_mode {
    /// The number that the C library gives this member.
    pub open spec fn abi(self) -> int {
        match self {
            uv_run_mode::UV_RUN_DEFAULT => 0,
            uv_run_mode::UV_RUN_ONCE => 1,
            uv_run_mode::UV_RUN_NOWAIT => 2,
        }
    }

    /// The number that the C library gives this member.
    pub fn code(&self) -> (c: i32)
        ensures
            c == self.abi(),
    {
        match self {
            uv_run_mode::UV_RUN_DEFAULT => 0,
            uv_run_mode::UV_RUN_ONCE => 1,
            uv_run_mode::UV_RUN_NOWAIT => 2,
        }
    }
}

/// Options that configure an event loop.
#[allow(non_camel_case_types)]
#[derive(Debug, Clone, Copy, PartialEq, Eq, Structural)]
pub enum uv_loop_option {
    UV_LOOP_BLOCK_SIGNAL,
    dummy,
}

impl uv_loop_option {
    /// The number that the C library gives this member.
    pub open spec fn abi(self) -> int {
        match self {
            uv_loop_option::UV_LOOP_BLOCK_SIGNAL => 0,
            uv_loop_option::dummy => 99,
        }
    }

    /// The number that the C library gives this member.
    pub fn code(&self) -> (c: i32)
        ensures
            c == self.abi(),
    {
        match self {
            uv_loop_option::UV_LOOP_BLOCK_SIGNAL => 0,
            uv_loop_option::dummy => 99,
        }
    }
}

/// The kinds of request.
#[allow(non_camel_case_types)]
#[derive(Debug, Clone, Copy, PartialEq, Eq, Structural)]
pub enum uv_req_type {
    UV_UNKNOWN_REQ,
    UV_REQ,
    UV_CONNECT,
    UV_WRITE,
    UV_SHUTDOWN,
    UV_UDP_SEND,
    UV_FS,
    UV_WORK,
    UV_GETADDRINFO,
    UV_GETNAMEINFO,
}

impl uv_req_type {
    /// The number that the C library gives this member.
    pub open spec fn abi(self) -> int {
        match self {
            uv_req_type::UV_UNKNOWN_REQ => 0,
            uv_req_type::UV_REQ => 1,
            uv_req_type::UV_CONNECT => 2,
            uv_req_type::UV_WRITE => 3,
            uv_req_type::UV_SHUTDOWN => 4,
            uv_req_type::UV_UDP_SEND => 5,
            uv_req_type::UV_FS => 6,
            uv_req_type::UV_WORK => 7,
            uv_req_type::UV_GETADDRINFO => 8,
            uv_req_type::UV_GETNAMEINFO => 9,
        }
    }

    /// The number that the C library gives this member.
    pub fn code(&self) -> (c: i32)
        ensures
            c == self.abi(),
    {
        match self {
            uv_req_type::UV_UNKNOWN_REQ => 0,
            uv_req_type::UV_REQ => 1,
            uv_req_type::UV_CONNECT => 2,
            uv_req_type::UV_WRITE => 3,
            uv_req_type::UV_SHUTDOWN => 4,
            uv_req_type::UV_UDP_SEND => 5,
            uv_req_type::UV_FS => 6,
            uv_req_type::UV_WORK => 7,
            uv_req_type::UV_GETADDRINFO => 8,
            uv_req_type::UV_GETNAMEINFO => 9,
        }
    }
}

/// The events that a poll handle watches for.
#[allow(non_camel_case_types)]
pub enum uv_poll_event {
    UV_READABLE,
    UV_WRITABLE,
}

impl uv_poll_event {
    /// The number that the C library gives this member.
    pub open spec fn abi(self) -> int {
        match self {
            uv_poll_event::UV_READABLE => 1,
            uv_poll_event::UV_WRITABLE => 2,
        }
    }

    /// The number that the C library gives this member.
    pub fn code(&self) -> (c: i32)
        ensures
            c == self.abi(),
    {
        match self {
            uv_poll_event::UV_READABLE => 1,
            uv_poll_event::UV_WRITABLE => 2,
        }
    }
}

/// Flags that govern how a child process is started.
#[allow(non_camel_case_types)]
#[derive(Debug, Clone, Copy, PartialEq, Eq, Structural)]
pub enum uv_process_flags {
    UV_PROCESS_SETUID,
    UV_PROCESS_SETGID,
    UV_PROCESS_WINDOWS_VERBATIM_ARGUMENTS,
    UV_PROCESS_DETACHED,
    UV_PROCESS_WINDOWS_HIDE,
}

impl uv_process_flags {
    /// The number that the C library gives this member.
    pub open spec fn abi(self) -> int {
        match self {
            uv_process_flags::UV_PROCESS_SETUID => 1,
            uv_process_flags::UV_PROCESS_SETGID => 2,
            uv_process_flags::UV_PROCESS_WINDOWS_VERBATIM_ARGUMENTS => 4,
            uv_process_flags::UV_PROCESS_DETACHED => 8,
            uv_process_flags::UV_PROCESS_WINDOWS_HIDE => 16,
        }
    }

    /// The number that the C library gives this member.
    pub fn code(&self) -> (c: i32)
        ensures
            c == self.abi(),
    {
        match self {
            uv_process_flags::UV_PROCESS_SETUID => 1,
            uv_process_flags::UV_PROCESS_SETGID => 2,
            uv_process_flags::UV_PROCESS_WINDOWS_VERBATIM_ARGUMENTS => 4,
            uv_process_flags::UV_PROCESS_DETACHED => 8,
            uv_process_flags::UV_PROCESS_WINDOWS_HIDE => 16,
        }
    }
}

/// What a child process gets for one of its standard streams.
#[allow(non_camel_case_types)]
#[derive(Debug, Clone, Copy, PartialEq, Eq, Structural)]
pub enum uv_stdio_flags {
    UV_IGNORE,
    UV_CREATE_PIPE,
    UV_INHERIT_FD,
    UV_INHERIT_STREAM,
    UV_READABLE_PIPE,
    UV_WRITABLE_PIPE,
}

impl uv_stdio_flags {
    /// The number that the C library gives this member.
    pub open spec fn abi(self) -> int {
        match self {
            uv_stdio_flags::UV_IGNORE => 0,
            uv_stdio_flags::UV_CREATE_PIPE => 1,
            uv_stdio_flags::UV_INHERIT_FD => 2,
            uv_stdio_flags::UV_INHERIT_STREAM => 4,
            uv_stdio_flags::UV_READABLE_PIPE => 16,
            uv_stdio_flags::UV_WRITABLE_PIPE => 32,
        }
    }

    /// The number that the C library gives this member.
    pub fn code(&self) -> (c: i32)
        ensures
            c == self.abi(),
    {
        match self {
            uv_stdio_flags::UV_IGNORE => 0,
            uv_stdio_flags::UV_CREATE_PIPE => 1,
            uv_stdio_flags::UV_INHERIT_FD => 2,
            uv_stdio_flags::UV_INHERIT_STREAM => 4,
            uv_stdio_flags::UV_READABLE_PIPE => 16,
            uv_stdio_flags::UV_WRITABLE_PIPE => 32,
        }
    }
}

/// The modes of a terminal.
#[allow(non_camel_case_types)]
#[derive(Debug, Clone, Copy, PartialEq, Eq, Structural)]
pub enum uv_tty_mode_t {
    UV_TTY_MODE_NORMAL,
    UV_TTY_MODE_RAW,
    UV_TTY_MODE_IO,
}

impl uv_tty_mode_t {
    /// The number that the C library gives this member.
    pub open spec fn abi(self) -> int {
        match self {
            uv_tty_mode_t::UV_TTY_MODE_NORMAL => 0,
            uv_tty_mode_t::UV_TTY_MODE_RAW => 1,
            uv_tty_mode_t::UV_TTY_MODE_IO => 2,
        }
    }

    /// The number that the C library gives this member.
    pub fn code(&self) -> (c: i32)
        ensures
            c == self.abi(),
    {
        match self {
            uv_tty_mode_t::UV_TTY_MODE_NORMAL => 0,
            uv_tty_mode_t::UV_TTY_MODE_RAW => 1,
            uv_tty_mode_t::UV_TTY_MODE_IO => 2,
        }
    }
}

/// Flags of a UDP socket or of a datagram received on it.
#[allow(non_camel_case_types)]
#[derive(Debug, Clone, Copy, PartialEq, Eq, Structural)]
pub enum uv_udp_flags {
    UV_UDP_IPV6ONLY,
    UV_UDP_PARTIAL,
    UV_UDP_REUSEADDR,
}

impl uv_udp_flags {
    /// The number that the C library gives this member.
    pub open spec fn abi(self) -> int {
        match self {
            uv_udp_flags::UV_UDP_IPV6ONLY => 1,
            uv_udp_flags::UV_UDP_PARTIAL => 2,
            uv_udp_flags::UV_UDP_REUSEADDR => 4,
        }
    }

    /// The number that the C library gives this member.
    pub fn code(&self) -> (c: i32)
        ensures
            c == self.abi(),
    {
        match self {
            uv_udp_flags::UV_UDP_IPV6ONLY => 1,
            uv_udp_flags::UV_UDP_PARTIAL => 2,
            uv_udp_flags::UV_UDP_REUSEADDR => 4,
        }
    }
}

/// Whether a multicast group is joined or left.
#[allow(non_camel_case_types)]
#[derive(Debug, Clone, Copy, PartialEq, Eq, Structural)]
pub enum uv_membership {
    UV_LEAVE_GROUP,
    UV_JOIN_GROUP,
}

impl uv_membership {
    /// The number that the C library gives this member.
    pub open spec fn abi(self) -> int {
        match self {
            uv_membership::UV_LEAVE_GROUP => 0,
            uv_membership::UV_JOIN_GROUP => 1,
        }
    }

    /// The number that the C library gives this member.
    pub fn code(&self) -> (c: i32)
        ensures
            c == self.abi(),
    {
        match self {
            uv_membership::UV_LEAVE_GROUP => 0,
            uv_membership::UV_JOIN_GROUP => 1,
        }
    }
}

/// What happened to a watched path.
#[allow(non_camel_case_types)]
#[derive(Debug, Clone, Copy, PartialEq, Eq, Structural)]
pub enum uv_fs_event {
    UV_RENAME,
    UV_CHANGE,
}

impl uv_fs_event {
    /// The number that the C library gives this member.
    pub open spec fn abi(self) -> int {
        match self {
            uv_fs_event::UV_RENAME => 1,
            uv_fs_event::UV_CHANGE => 2,
        }
    }

    /// The number that the C library gives this member.
    pub fn code(&self) -> (c: i32)
        ensures
            c == self.abi(),
    {
        match self {
            uv_fs_event::UV_RENAME => 1,
            uv_fs_event::UV_CHANGE => 2,
        }
    }
}

/// Flags that govern how a path is watched.
#[allow(non_camel_case_types)]
#[derive(Debug, Clone, Copy, PartialEq, Eq, Structural)]
pub enum uv_fs_event_flags {
    UV_FS_EVENT_WATCH_ENTRY,
    UV_FS_EVENT_STAT,
    UV_FS_EVENT_RECURSIVE,
}

impl uv_fs_event_flags {
    /// The number that the C library gives this member.
    pub open spec fn abi(self) -> int {
        match self {
            uv_fs_event_flags::UV_FS_EVENT_WATCH_ENTRY => 1,
            uv_fs_event_flags::UV_FS_EVENT_STAT => 2,
            uv_fs_event_flags::UV_FS_EVENT_RECURSIVE => 4,
        }
    }

    /// The number that the C library gives this member.
    pub fn code(&self) -> (c: i32)
        ensures
            c == self.abi(),
    {
        match self {
            uv_fs_event_flags::UV_FS_EVENT_WATCH_ENTRY => 1,
            uv_fs_event_flags::UV_FS_EVENT_STAT => 2,
            uv_fs_event_flags::UV_FS_EVENT_RECURSIVE => 4,
        }
    }
}

/// The kinds of file system request.
#[allow(non_camel_case_types)]
#[derive(Debug, Clone, Copy, PartialEq, Eq, Structural)]
pub enum uv_fs_type {
    UV_FS_UNKNOWN,
    UV_FS_CUSTOM,
    UV_FS_OPEN,
    UV_FS_CLOSE,
    UV_FS_READ,
    UV_FS_WRITE,
    UV_FS_SENDFILE,
    UV_FS_STAT,
    UV_FS_LSTAT,
    UV_FS_FSTAT,
    UV_FS_FTRUNCATE,
    UV_FS_UTIME,
    UV_FS_FUTIME,
    UV_FS_ACCESS,
    UV_FS_CHMOD,
    UV_FS_FCHMOD,
    UV_FS_FSYNC,
    UV_FS_FDATASYNC,
    UV_FS_UNLINK,
    UV_FS_RMDIR,
    UV_FS_MKDIR,
    UV_FS_MKDTEMP,
    UV_FS_RENAME,
    UV_FS_SCANDIR,
    UV_FS_LINK,
    UV_FS_SYMLINK,
    UV_FS_READLINK,
    UV_FS_CHOWN,
    UV_FS_FCHOWN,
}

impl uv_fs_type {
    /// The number that the C library gives this member.
    pub open spec fn abi(self) -> int {
        match self {
            uv_fs_type::UV_FS_UNKNOWN => -1,
            uv_fs_type::UV_FS_CUSTOM => 0,
            uv_fs_type::UV_FS_OPEN => 1,
            uv_fs_type::UV_FS_CLOSE => 2,
            uv_fs_type::UV_FS_READ => 3,
            uv_fs_type::UV_FS_WRITE => 4,
            uv_fs_type::UV_FS_SENDFILE => 5,
            uv_fs_type::UV_FS_STAT => 6,
            uv_fs_type::UV_FS_LSTAT => 7,
            uv_fs_type::UV_FS_FSTAT => 8,
            uv_fs_type::UV_FS_FTRUNCATE => 9,
            uv_fs_type::UV_FS_UTIME => 10,
            uv_fs_type::UV_FS_FUTIME => 11,
            uv_fs_type::UV_FS_ACCESS => 12,
            uv_fs_type::UV_FS_CHMOD => 13,
            uv_fs_type::UV_FS_FCHMOD => 14,
            uv_fs_type::UV_FS_FSYNC => 15,
            uv_fs_type::UV_FS_FDATASYNC => 16,
            uv_fs_type::UV_FS_UNLINK => 17,
            uv_fs_type::UV_FS_RMDIR => 18,
            uv_fs_type::UV_FS_MKDIR => 19,
            uv_fs_type::UV_FS_MKDTEMP => 20,
            uv_fs_type::UV_FS_RENAME => 21,
            uv_fs_type::UV_FS_SCANDIR => 22,
            uv_fs_type::UV_FS_LINK => 23,
            uv_fs_type::UV_FS_SYMLINK => 24,
            uv_fs_type::UV_FS_READLINK => 25,
            uv_fs_type::UV_FS_CHOWN => 26,
            uv_fs_type::UV_FS_FCHOWN => 27,
        }
    }

    /// The number that the C library gives this member.
    pub fn code(&self) -> (c: i32)
        ensures
            c == self.abi(),
    {
        match self {
            uv_fs_type::UV_FS_UNKNOWN => -1,
            uv_fs_type::UV_FS_CUSTOM => 0,
            uv_fs_type::UV_FS_OPEN => 1,
            uv_fs_type::UV_FS_CLOSE => 2,
            uv_fs_type::UV_FS_READ => 3,
            uv_fs_type::UV_FS_WRITE => 4,
            uv_fs_type::UV_FS_SENDFILE => 5,
            uv_fs_type::UV_FS_STAT => 6,
            uv_fs_type::UV_FS_LSTAT => 7,
            uv_fs_type::UV_FS_FSTAT => 8,
            uv_fs_type::UV_FS_FTRUNCATE => 9,
            uv_fs_type::UV_FS_UTIME => 10,
            uv_fs_type::UV_FS_FUTIME => 11,
            uv_fs_type::UV_FS_ACCESS => 12,
            uv_fs_type::UV_FS_CHMOD => 13,
            uv_fs_type::UV_FS_FCHMOD => 14,
            uv_fs_type::UV_FS_FSYNC => 15,
            uv_fs_type::UV_FS_FDATASYNC => 16,
            uv_fs_type::UV_FS_UNLINK => 17,
            uv_fs_type::UV_FS_RMDIR => 18,
            uv_fs_type::UV_FS_MKDIR => 19,
            uv_fs_type::UV_FS_MKDTEMP => 20,
            uv_fs_type::UV_FS_RENAME => 21,
            uv_fs_type::UV_FS_SCANDIR => 22,
            uv_fs_type::UV_FS_LINK => 23,
            uv_fs_type::UV_FS_SYMLINK => 24,
            uv_fs_type::UV_FS_READLINK => 25,
            uv_fs_type::UV_FS_CHOWN => 26,
            uv_fs_type::UV_FS_FCHOWN => 27,
        }
    }
}

/// The kinds of directory entry.
#[allow(non_camel_case_types)]
#[derive(Debug, Clone, Copy, PartialEq, Eq, Structural)]
pub enum uv_dirent_type_t {
    UV_DIRENT_UNKNOWN,
    UV_DIRENT_FILE,
    UV_DIRENT_DIR,
    UV_DIRENT_LINK,
    UV_DIRENT_FIFO,
    UV_DIRENT_SOCKET,
    UV_DIRENT_CHAR,
    UV_DIRENT_BLOCK,
}

impl uv_dirent_type_t {
    /// The number that the C library gives this member.
    pub open spec fn abi(self) -> int {
        match self {
            uv_dirent_type_t::UV_DIRENT_UNKNOWN => 0,
            uv_dirent_type_t::UV_DIRENT_FILE => 1,
            uv_dirent_type_t::UV_DIRENT_DIR => 2,
            uv_dirent_type_t::UV_DIRENT_LINK => 3,
            uv_dirent_type_t::UV_DIRENT_FIFO => 4,
            uv_dirent_type_t::UV_DIRENT_SOCKET => 5,
            uv_dirent_type_t::UV_DIRENT_CHAR => 6,
            uv_dirent_type_t::UV_DIRENT_BLOCK => 7,
        }
    }

    /// The number that the C library gives this member.
    pub fn code(&self) -> (c: i32)
        ensures
            c == self.abi(),
    {
        match self {
            uv_dirent_type_t::UV_DIRENT_UNKNOWN => 0,
            uv_dirent_type_t::UV_DIRENT_FILE => 1,
            uv_dirent_type_t::UV_DIRENT_DIR => 2,
            uv_dirent_type_t::UV_DIRENT_LINK => 3,
            uv_dirent_type_t::UV_DIRENT_FIFO => 4,
            uv_dirent_type_t::UV_DIRENT_SOCKET => 5,
            uv_dirent_type_t::UV_DIRENT_CHAR => 6,
            uv_dirent_type_t::UV_DIRENT_BLOCK => 7,
        }
    }
}

} // verus!
