use wasm_bpf::mapops::{parse_map_cmd, wasm_bpf_map_operate, MapCmd, MapOpOutcome};

#[test]
fn command_values_mirror_kernel_numbering() {
    assert_eq!(parse_map_cmd(1), Some(MapCmd::LookupElem));
    assert_eq!(parse_map_cmd(2), Some(MapCmd::UpdateElem));
    assert_eq!(parse_map_cmd(3), Some(MapCmd::DeleteElem));
    assert_eq!(parse_map_cmd(4), Some(MapCmd::GetNextKey));
    assert_eq!(parse_map_cmd(0), None);
    assert_eq!(parse_map_cmd(5), None);
    assert_eq!(parse_map_cmd(-1), None);
}

#[test]
fn lookup_writes_value_bytes_into_guest_memory() {
    let mut mem = vec![0u8; 8];
    let r = wasm_bpf_map_operate(
        &mut mem,
        1,
        0,
        3,
        0,
        2,
        3,
        MapOpOutcome::DoneData(vec![7, 8, 9]),
    );
    assert_eq!(r, 0);
    assert_eq!(mem, vec![0, 0, 0, 7, 8, 9, 0, 0]);
}

#[test]
fn get_next_key_writes_at_next_key_pointer() {
    let mut mem = vec![0xAAu8; 8];
    let r = wasm_bpf_map_operate(&mut mem, 4, 0, 0, 4, 2, 0, MapOpOutcome::DoneData(vec![1, 2]));
    assert_eq!(r, 0);
    assert_eq!(mem, vec![0xAA, 0xAA, 0xAA, 0xAA, 1, 2, 0xAA, 0xAA]);
}

#[test]
fn exhausted_iteration_leaves_next_key_untouched() {
    // Get-next-key on the last key: the kernel reports no next key, the
    // call returns -1 and writes nothing into guest memory.
    let mut mem = vec![5u8; 8];
    let r = wasm_bpf_map_operate(&mut mem, 4, 0, 0, 4, 2, 0, MapOpOutcome::Failed);
    assert_eq!(r, -1);
    assert_eq!(mem, vec![5u8; 8]);
}

#[test]
fn update_and_delete_touch_no_guest_memory() {
    let mut mem = vec![3u8; 8];
    assert_eq!(wasm_bpf_map_operate(&mut mem, 2, 0, 4, 0, 4, 4, MapOpOutcome::Done), 0);
    assert_eq!(mem, vec![3u8; 8]);
    assert_eq!(wasm_bpf_map_operate(&mut mem, 3, 0, 0, 0, 4, 0, MapOpOutcome::Done), 0);
    assert_eq!(mem, vec![3u8; 8]);
}

#[test]
fn unknown_command_fails() {
    let mut mem = vec![0u8; 8];
    assert_eq!(wasm_bpf_map_operate(&mut mem, 9, 0, 0, 0, 1, 1, MapOpOutcome::Done), -1);
    assert_eq!(mem, vec![0u8; 8]);
}

#[test]
fn out_of_bounds_ranges_fail_before_any_copy() {
    let mut mem = vec![1u8; 4];
    // Key range reaches past the end of memory.
    assert_eq!(
        wasm_bpf_map_operate(&mut mem, 3, 2, 0, 0, 3, 0, MapOpOutcome::Done),
        -1
    );
    // Value range out of bounds on lookup.
    assert_eq!(
        wasm_bpf_map_operate(&mut mem, 1, 0, 3, 0, 1, 2, MapOpOutcome::DoneData(vec![6, 6])),
        -1
    );
    assert_eq!(mem, vec![1u8; 4]);
}

#[test]
fn outcome_shape_must_fit_the_command() {
    let mut mem = vec![0u8; 8];
    // Lookup expects exactly a value's worth of bytes.
    assert_eq!(
        wasm_bpf_map_operate(&mut mem, 1, 0, 0, 0, 2, 3, MapOpOutcome::DoneData(vec![1])),
        -1
    );
    assert_eq!(
        wasm_bpf_map_operate(&mut mem, 1, 0, 0, 0, 2, 3, MapOpOutcome::Done),
        -1
    );
    // Update succeeds without data; data means a protocol mismatch.
    assert_eq!(
        wasm_bpf_map_operate(&mut mem, 2, 0, 0, 0, 2, 3, MapOpOutcome::DoneData(vec![1, 2, 3])),
        -1
    );
    assert_eq!(mem, vec![0u8; 8]);
}
