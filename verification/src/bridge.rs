//! The host function bridge: the guest-callable entry points.
//!
//! Each entry point validates every guest-supplied pointer and handle
//! before anything else happens, and signals failure to the guest only
//! through its status value — never through a fault.  The kernel-object
//! library and the execution engine are collaborators at the edge: the
//! embedding makes those calls and hands their outcomes in as plain
//! values, so every decision taken on them is verified here for every
//! possible outcome.

use vstd::prelude::*;

verus! {

use crate::errors::BridgeError;
use crate::memory::{range_ok, read_zero_terminated_str, str_error, str_readable, str_value};
use crate::poll::PollSession;
use crate::state::AppState;

/// The validated arguments of an `AttachProgram` call: the program name
/// and, when the guest supplied one, the attach target path.
#[derive(Debug, PartialEq, Eq)]
pub struct AttachRequest {
    /// Name of the program inside the object.
    pub name: String,
    /// Target path, present exactly when the guest passed a non-zero
    /// target pointer.
    pub target: Option<String>,
}

/// LoadObject entry point: validates the guest buffer range, then commits
/// the kernel's load outcome.
///
/// The embedding parses and loads the claimed bytes only after the range
/// check passes, and hands the result in as `loaded`.  Returns 0 — never a
/// valid handle — when the range reaches past guest memory or the kernel
/// rejected the image, and then the session is left entirely unchanged, so
/// the next successful load still gets the same fresh handle.  On success
/// the new object is stored under the session's next handle, which is
/// returned.
pub fn wasm_load_bpf_object<T, L, F>(
    state: &mut AppState<T, L, F>,
    mem: &[u8],
    obj_buf: u32,
    obj_buf_size: u32,
    loaded: Option<T>,
) -> (h: u64)
    requires
        old(state).objects_seq().len() < u64::MAX,
    ensures
        h == 0 || h as int == old(state).next_object_id(),
        h == 0 ==> *final(state) == *old(state),
        h == 0 <==> !range_ok(mem@.len() as int, obj_buf as int, obj_buf_size as int) || loaded
            is None,
        loaded matches Some(obj) ==> (range_ok(
            mem@.len() as int,
            obj_buf as int,
            obj_buf_size as int,
        ) ==> h >= 1 && h as int == old(state).next_object_id() && final(state).objects_seq()
            == old(state).objects_seq().push(Some(obj)) && final(state).links_seq() == old(
            state,
        ).links_seq() && final(state).files_seq() == old(state).files_seq()),
{
    let size = obj_buf_size as usize;
    if size > mem.len() || obj_buf as usize > mem.len() - size {
        return 0;
    }
    match loaded {
        Some(obj) => state.insert_object(obj),
        None => 0,
    }
}

/// CloseObject entry point.
///
/// Removes and drops the object behind `program`, releasing every kernel
/// resource it owns; returns 0.  On an unknown or already-closed handle
/// returns -1 and leaves the session entirely unchanged — no other
/// handle's mapping is affected, and the handle counter does not move.
pub fn wasm_close_bpf_object<T, L, F>(state: &mut AppState<T, L, F>, program: u64) -> (r: i32)
    ensures
        r == 0 || r == -1,
        r == 0 <==> old(state).object_live(program),
        r == -1 ==> *final(state) == *old(state),
        r == 0 ==> final(state).objects_seq() == old(state).objects_seq().update(
            program - 1,
            None::<T>,
        ),
        final(state).next_object_id() == old(state).next_object_id(),
        !final(state).object_live(program),
        forall|h2: u64|
            h2 != program ==> final(state).object_live(h2) == old(state).object_live(h2),
        final(state).links_seq() == old(state).links_seq(),
        final(state).files_seq() == old(state).files_seq(),
{
    match state.remove_object(program) {
        Some(_) => 0,
        None => -1,
    }
}

/// AttachProgram entry point, validation half: reads the program name and
/// the optional attach target from guest memory and checks the handle.
///
/// Returns the validated request exactly when the name reads as a
/// zero-terminated UTF-8 string, the target pointer is zero or reads the
/// same way, and the handle is live.  The embedding then looks the program
/// up, decides the path with `decide_attach`, performs the kernel
/// attachment, and commits with `record_cgroup_attach` or
/// `record_generic_attach`.
pub fn wasm_attach_bpf_program<T, L, F>(
    state: &AppState<T, L, F>,
    mem: &[u8],
    program: u64,
    name: u32,
    attach_target: u32,
) -> (r: Result<AttachRequest, BridgeError>)
    ensures
        r is Ok <==> str_readable(mem@, name as int) && (attach_target == 0 || str_readable(
            mem@,
            attach_target as int,
        )) && state.object_live(program),
        r matches Ok(req) ==> req.name@ == str_value(mem@, name as int),
        r matches Ok(req) ==> (req.target is Some <==> attach_target != 0),
        r matches Ok(req) ==> (req.target matches Some(t) ==> t@ == str_value(
            mem@,
            attach_target as int,
        )),
        !str_readable(mem@, name as int) ==> r == Err::<AttachRequest, BridgeError>(
            str_error(mem@, name as int),
        ),
        str_readable(mem@, name as int) && attach_target != 0 && !str_readable(
            mem@,
            attach_target as int,
        ) ==> r == Err::<AttachRequest, BridgeError>(str_error(mem@, attach_target as int)),
        str_readable(mem@, name as int) && (attach_target == 0 || str_readable(
            mem@,
            attach_target as int,
        )) && !state.object_live(program) ==> r == Err::<AttachRequest, BridgeError>(
            BridgeError::InvalidHandle,
        ),
{
    let name_str = match read_zero_terminated_str(mem, name) {
        Ok(s) => s,
        Err(e) => {
            return Err(e);
        },
    };
    let target_str = if attach_target == 0 {
        None
    } else {
        match read_zero_terminated_str(mem, attach_target) {
            Ok(s) => Some(s),
            Err(e) => {
                return Err(e);
            },
        }
    };
    if !state.contains_object(program) {
        return Err(BridgeError::InvalidHandle);
    }
    Ok(AttachRequest { name: name_str, target: target_str })
}

/// BufferPoll entry point, validation half: checks the handle and opens a
/// fresh relay session.
///
/// Returns a session exactly when the handle is live; the embedding then
/// runs the blocking poll loop against the kernel buffer, feeding each
/// delivered event through `PollSession::on_sample` until the timeout
/// elapses or the session stops, and returns `result()` — or -1 when the
/// handle was dead or the buffer could not be polled at all.
pub fn wasm_bpf_buffer_poll<T, L, F>(state: &AppState<T, L, F>, program: u64) -> (r: Option<
    PollSession,
>)
    ensures
        r is Some <==> state.object_live(program),
        r matches Some(s) ==> s.delivered_count() == 0 && !s.is_stopped(),
{
    if state.contains_object(program) {
        Some(PollSession::new())
    } else {
        None
    }
}

/// MapFdByName entry point: reads the map name from guest memory, checks
/// the handle, and flattens the embedding's lookup outcome to the ABI
/// status.
///
/// Returns -1 when the name does not read as a zero-terminated UTF-8
/// string, when the handle is dead, or when the object has no map of that
/// name (`map_fd` is `None`); otherwise the map's file descriptor.
pub fn wasm_bpf_map_fd_by_name<T, L, F>(
    state: &AppState<T, L, F>,
    mem: &[u8],
    program: u64,
    name: u32,
    map_fd: Option<i32>,
) -> (r: i32)
    ensures
        !str_readable(mem@, name as int) ==> r == -1,
        str_readable(mem@, name as int) && !state.object_live(program) ==> r == -1,
        str_readable(mem@, name as int) && state.object_live(program) && map_fd is None ==> r
            == -1,
        map_fd matches Some(fd) ==> (str_readable(mem@, name as int) && state.object_live(
            program,
        ) ==> r == fd),
{
    // The name is validated here; the embedding reads it the same way to
    // perform the lookup whose outcome arrives as `map_fd`.
    match read_zero_terminated_str(mem, name) {
        Ok(_) => (),
        Err(_) => {
            return -1;
        },
    };
    if !state.contains_object(program) {
        return -1;
    }
    match map_fd {
        Some(fd) => fd,
        None => -1,
    }
}

} // verus!
