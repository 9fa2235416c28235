use wasm_bpf::attach::{decide_attach, record_cgroup_attach, record_generic_attach, AttachStrategy};
use wasm_bpf::bridge::{
    wasm_attach_bpf_program, wasm_bpf_buffer_poll, wasm_bpf_map_fd_by_name, wasm_close_bpf_object,
    wasm_load_bpf_object,
};
use wasm_bpf::errors::BridgeError;
use wasm_bpf::poll::copy_len;
use wasm_bpf::state::AppState;

type Table = AppState<Vec<u8>, &'static str, &'static str>;

#[test]
fn load_rejects_out_of_range_buffer() {
    let mut state: Table = AppState::new();
    let mem = vec![0u8; 8];
    // Claimed range sticks one byte past the end of memory.
    let h = wasm_load_bpf_object(&mut state, &mem, 4, 5, Some(vec![1]));
    assert_eq!(h, 0);
    assert_eq!(state.next_handle(), 1);
}

#[test]
fn load_failure_keeps_handle_counter() {
    let mut state: Table = AppState::new();
    let mem = vec![0u8; 8];
    // The kernel rejected the image: status 0 and no handle burned.
    let h = wasm_load_bpf_object(&mut state, &mem, 0, 8, None);
    assert_eq!(h, 0);
    // The next successful load still yields handle 1, not 2.
    let h = wasm_load_bpf_object(&mut state, &mem, 0, 8, Some(vec![1]));
    assert_eq!(h, 1);
}

#[test]
fn lifecycle_load_attach_close_close() {
    let mut state: Table = AppState::new();
    let mut mem = vec![0u8; 32];
    mem[8..16].copy_from_slice(b"handler\0");

    let h = wasm_load_bpf_object(&mut state, &mem, 0, 4, Some(vec![0xB, 0xF]));
    assert_eq!(h, 1);

    // Attach its only program with no target: validation succeeds, the
    // dispatcher picks the generic path, one link is recorded.
    let req = wasm_attach_bpf_program(&state, &mem, h, 8, 0).unwrap();
    assert_eq!(req.name, "handler");
    assert_eq!(req.target, None);
    let strategy = decide_attach(b"kprobe", req.target.is_some());
    assert_eq!(strategy, AttachStrategy::Generic);
    record_generic_attach(&mut state, "link-0");
    assert_eq!(state.link_count(), 1);
    assert_eq!(state.file_count(), 0);

    assert_eq!(wasm_close_bpf_object(&mut state, h), 0);
    assert_eq!(wasm_close_bpf_object(&mut state, h), -1);
}

#[test]
fn attach_validation_errors() {
    let mut state: Table = AppState::new();
    let mut mem = vec![0u8; 16];
    mem[0..5].copy_from_slice(b"prog\0");
    let h = wasm_load_bpf_object(&mut state, &mem, 0, 1, Some(vec![1]));

    // Name pointer with no terminator in range.
    assert_eq!(
        wasm_attach_bpf_program(&state, &vec![7u8; 4], h, 0, 0),
        Err(BridgeError::OutOfBounds)
    );
    // Dead handle.
    assert_eq!(
        wasm_attach_bpf_program(&state, &mem, 99, 0, 0),
        Err(BridgeError::InvalidHandle)
    );
    // Non-zero target pointer that does not read as a string.
    assert_eq!(
        wasm_attach_bpf_program(&state, &mem, h, 0, 16),
        Err(BridgeError::OutOfBounds)
    );
}

#[test]
fn attach_with_target_reads_both_strings() {
    let mut state: Table = AppState::new();
    let mut mem = vec![0u8; 32];
    mem[0..8].copy_from_slice(b"sockmon\0");
    mem[8..25].copy_from_slice(b"/sys/fs/cgroup/x\0");
    let h = wasm_load_bpf_object(&mut state, &mem, 0, 1, Some(vec![1]));

    let req = wasm_attach_bpf_program(&state, &mem, h, 0, 8).unwrap();
    assert_eq!(req.name, "sockmon");
    assert_eq!(req.target.as_deref(), Some("/sys/fs/cgroup/x"));
}

#[test]
fn cgroup_attach_only_with_target_and_sockops_section() {
    // A zero attach-target never opens a file: the path is generic.
    assert_eq!(decide_attach(b"sockops", false), AttachStrategy::Generic);
    // A target on a sockops program takes the cgroup-fd path.
    assert_eq!(decide_attach(b"sockops", true), AttachStrategy::CgroupFd);
    // A target on any other section is still generic.
    assert_eq!(decide_attach(b"kprobe", true), AttachStrategy::Generic);
    assert_eq!(decide_attach(b"sockops2", true), AttachStrategy::Generic);
    assert_eq!(decide_attach(b"", true), AttachStrategy::Generic);
}

#[test]
fn cgroup_attach_records_one_file_and_one_link() {
    let mut state: Table = AppState::new();
    record_cgroup_attach(&mut state, "cgroup-file", "cgroup-link");
    assert_eq!(state.file_count(), 1);
    assert_eq!(state.link_count(), 1);
}

#[test]
fn buffer_poll_validates_handle_and_returns_zero_when_idle() {
    let mut state: Table = AppState::new();
    assert!(wasm_bpf_buffer_poll(&state, 1).is_none());
    let h = wasm_load_bpf_object(&mut state, &vec![0u8; 4], 0, 1, Some(vec![1]));
    // Timeout expires with no pending events: no callback ran, count is 0.
    let session = wasm_bpf_buffer_poll(&state, h).unwrap();
    assert!(!session.should_stop());
    assert_eq!(session.result(), 0);
}

#[test]
fn buffer_poll_counts_events_and_honors_early_stop() {
    let mut state: Table = AppState::new();
    let h = wasm_load_bpf_object(&mut state, &vec![0u8; 4], 0, 1, Some(vec![1]));
    let mut session = wasm_bpf_buffer_poll(&state, h).unwrap();
    session.on_sample(0);
    assert!(!session.should_stop());
    session.on_sample(1);
    assert!(!session.should_stop());
    // A negative callback return stops polling; the count stands at 3.
    session.on_sample(-1);
    assert!(session.should_stop());
    assert_eq!(session.result(), 3);
}

#[test]
fn copy_len_truncates_to_scratch_size() {
    assert_eq!(copy_len(10, 4), 4);
    assert_eq!(copy_len(3, 8), 3);
    assert_eq!(copy_len(4, 4), 4);
    assert_eq!(copy_len(5, 0), 0);
    assert_eq!(copy_len(5, -2), 0);
}

#[test]
fn map_fd_by_name_flattens_every_failure_to_minus_one() {
    let mut state: Table = AppState::new();
    let mut mem = vec![0u8; 16];
    mem[0..7].copy_from_slice(b"events\0");
    let h = wasm_load_bpf_object(&mut state, &mem, 0, 1, Some(vec![1]));

    assert_eq!(wasm_bpf_map_fd_by_name(&state, &mem, h, 0, Some(5)), 5);
    assert_eq!(wasm_bpf_map_fd_by_name(&state, &mem, h, 0, None), -1);
    assert_eq!(wasm_bpf_map_fd_by_name(&state, &mem, 42, 0, Some(5)), -1);
    // Name pointer past the end of memory.
    assert_eq!(wasm_bpf_map_fd_by_name(&state, &mem, h, 16, Some(5)), -1);
}
