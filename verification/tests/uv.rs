use thread_bound::{
    uv_dirent_type_t, uv_fs_event, uv_fs_event_flags, uv_fs_type, uv_handle_type, uv_loop_option,
    uv_membership, uv_poll_event, uv_process_flags, uv_req_type, uv_run_mode, uv_stdio_flags,
    uv_tty_mode_t, uv_udp_flags,
};

#[test]
fn handle_types_count_from_zero() {
    assert_eq!(uv_handle_type::UV_UNKNOWN_HANDLE.code(), 0);
    assert_eq!(uv_handle_type::UV_ASYNC.code(), 1);
    assert_eq!(uv_handle_type::UV_NAMED_PIPE.code(), 7);
    assert_eq!(uv_handle_type::UV_TCP.code(), 12);
    assert_eq!(uv_handle_type::UV_FILE.code(), 17);
    assert_eq!(uv_handle_type::UV_HANDLE_TYPE_MAX.code(), 18);
}

#[test]
fn request_types_count_from_zero() {
    assert_eq!(uv_req_type::UV_UNKNOWN_REQ.code(), 0);
    assert_eq!(uv_req_type::UV_CONNECT.code(), 2);
    assert_eq!(uv_req_type::UV_WORK.code(), 7);
    assert_eq!(uv_req_type::UV_GETNAMEINFO.code(), 9);
}

#[test]
fn run_modes_and_tty_modes() {
    assert_eq!(uv_run_mode::UV_RUN_DEFAULT.code(), 0);
    assert_eq!(uv_run_mode::UV_RUN_ONCE.code(), 1);
    assert_eq!(uv_run_mode::UV_RUN_NOWAIT.code(), 2);
    assert_eq!(uv_tty_mode_t::UV_TTY_MODE_NORMAL.code(), 0);
    assert_eq!(uv_tty_mode_t::UV_TTY_MODE_RAW.code(), 1);
    assert_eq!(uv_tty_mode_t::UV_TTY_MODE_IO.code(), 2);
}

#[test]
fn loop_options() {
    assert_eq!(uv_loop_option::UV_LOOP_BLOCK_SIGNAL.code(), 0);
    assert_eq!(uv_loop_option::dummy.code(), 99);
}

#[test]
fn process_flags_are_single_bits() {
    let flags = [
        uv_process_flags::UV_PROCESS_SETUID,
        uv_process_flags::UV_PROCESS_SETGID,
        uv_process_flags::UV_PROCESS_WINDOWS_VERBATIM_ARGUMENTS,
        uv_process_flags::UV_PROCESS_DETACHED,
        uv_process_flags::UV_PROCESS_WINDOWS_HIDE,
    ];
    for (bit, flag) in flags.iter().enumerate() {
        assert_eq!(flag.code(), 1 << bit);
    }
}

#[test]
fn stdio_flags() {
    assert_eq!(uv_stdio_flags::UV_IGNORE.code(), 0x00);
    assert_eq!(uv_stdio_flags::UV_CREATE_PIPE.code(), 0x01);
    assert_eq!(uv_stdio_flags::UV_INHERIT_FD.code(), 0x02);
    assert_eq!(uv_stdio_flags::UV_INHERIT_STREAM.code(), 0x04);
    assert_eq!(uv_stdio_flags::UV_READABLE_PIPE.code(), 0x10);
    assert_eq!(uv_stdio_flags::UV_WRITABLE_PIPE.code(), 0x20);
}

#[test]
fn poll_and_fs_events() {
    assert_eq!(uv_poll_event::UV_READABLE.code(), 1);
    assert_eq!(uv_poll_event::UV_WRITABLE.code(), 2);
    assert_eq!(uv_fs_event::UV_RENAME.code(), 1);
    assert_eq!(uv_fs_event::UV_CHANGE.code(), 2);
    assert_eq!(uv_fs_event_flags::UV_FS_EVENT_WATCH_ENTRY.code(), 1);
    assert_eq!(uv_fs_event_flags::UV_FS_EVENT_STAT.code(), 2);
    assert_eq!(uv_fs_event_flags::UV_FS_EVENT_RECURSIVE.code(), 4);
}

#[test]
fn udp_flags_and_membership() {
    assert_eq!(uv_udp_flags::UV_UDP_IPV6ONLY.code(), 1);
    assert_eq!(uv_udp_flags::UV_UDP_PARTIAL.code(), 2);
    assert_eq!(uv_udp_flags::UV_UDP_REUSEADDR.code(), 4);
    assert_eq!(uv_membership::UV_LEAVE_GROUP.code(), 0);
    assert_eq!(uv_membership::UV_JOIN_GROUP.code(), 1);
}

#[test]
fn fs_types_start_below_zero() {
    assert_eq!(uv_fs_type::UV_FS_UNKNOWN.code(), -1);
    assert_eq!(uv_fs_type::UV_FS_CUSTOM.code(), 0);
    assert_eq!(uv_fs_type::UV_FS_OPEN.code(), 1);
    assert_eq!(uv_fs_type::UV_FS_FSYNC.code(), 15);
    assert_eq!(uv_fs_type::UV_FS_READLINK.code(), 25);
    assert_eq!(uv_fs_type::UV_FS_FCHOWN.code(), 27);
}

#[test]
fn dirent_types() {
    assert_eq!(uv_dirent_type_t::UV_DIRENT_UNKNOWN.code(), 0);
    assert_eq!(uv_dirent_type_t::UV_DIRENT_FILE.code(), 1);
    assert_eq!(uv_dirent_type_t::UV_DIRENT_DIR.code(), 2);
    assert_eq!(uv_dirent_type_t::UV_DIRENT_LINK.code(), 3);
    assert_eq!(uv_dirent_type_t::UV_DIRENT_FIFO.code(), 4);
    assert_eq!(uv_dirent_type_t::UV_DIRENT_SOCKET.code(), 5);
    assert_eq!(uv_dirent_type_t::UV_DIRENT_CHAR.code(), 6);
    assert_eq!(uv_dirent_type_t::UV_DIRENT_BLOCK.code(), 7);
}

#[test]
fn members_compare_by_identity() {
    assert_eq!(uv_handle_type::UV_TCP, uv_handle_type::UV_TCP);
    assert!(uv_handle_type::UV_TCP != uv_handle_type::UV_UDP);
    let copy = uv_run_mode::UV_RUN_ONCE;
    assert_eq!(copy.clone(), uv_run_mode::UV_RUN_ONCE);
}
