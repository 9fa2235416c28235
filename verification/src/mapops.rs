//! The generic map operation dispatcher.
//!
//! A map operation is keyed only by a file descriptor; the host does not
//! know the map's key/value byte sizes from the call signature, so they are
//! retrieved from the map's own metadata by the embedding and handed in
//! here.  This module decides which guest byte ranges an operation may
//! touch, validates every one of them against the memory bounds before any
//! copy, and commits the kernel's outcome back into guest memory — or
//! reports `-1` with guest memory untouched.

use vstd::prelude::*;

verus! {

use crate::memory::{range_ok, write_bytes};

/// A map operation selected by the guest's command value.
#[derive(Clone, Copy, Debug, PartialEq, Eq, Structural)]
pub enum MapCmd {
    /// Read the value stored under a key into guest memory.
    LookupElem,
    /// Store a guest-supplied key/value pair, honoring the call's flags.
    UpdateElem,
    /// Remove the entry for a guest-supplied key.
    DeleteElem,
    /// Write the key following the guest-supplied key, for iteration.
    GetNextKey,
}

/// The command encoding of the guest ABI, mirroring the kernel's map
/// command numbering: 1 lookup, 2 update, 3 delete, 4 get-next-key.
pub open spec fn cmd_of(cmd: i32) -> Option<MapCmd> {
    if cmd == 1 {
        Some(MapCmd::LookupElem)
    } else if cmd == 2 {
        Some(MapCmd::UpdateElem)
    } else if cmd == 3 {
        Some(MapCmd::DeleteElem)
    } else if cmd == 4 {
        Some(MapCmd::GetNextKey)
    } else {
        None
    }
}

/// Decodes the guest's command value.
pub fn parse_map_cmd(cmd: i32) -> (r: Option<MapCmd>)
    ensures
        r == cmd_of(cmd),
{
    if cmd == 1 {
        Some(MapCmd::LookupElem)
    } else if cmd == 2 {
        Some(MapCmd::UpdateElem)
    } else if cmd == 3 {
        Some(MapCmd::DeleteElem)
    } else if cmd == 4 {
        Some(MapCmd::GetNextKey)
    } else {
        None
    }
}

/// Every guest byte range the command touches lies inside guest memory:
/// the key for every command, the value range for lookup and update, and
/// the next-key range for iteration.
pub open spec fn ranges_ok(
    cmd: MapCmd,
    mem_len: int,
    key: u32,
    value: u32,
    next_key: u32,
    key_size: u32,
    value_size: u32,
) -> bool {
    match cmd {
        MapCmd::LookupElem => range_ok(mem_len, key as int, key_size as int) && range_ok(
            mem_len,
            value as int,
            value_size as int,
        ),
        MapCmd::UpdateElem => range_ok(mem_len, key as int, key_size as int) && range_ok(
            mem_len,
            value as int,
            value_size as int,
        ),
        MapCmd::DeleteElem => range_ok(mem_len, key as int, key_size as int),
        MapCmd::GetNextKey => range_ok(mem_len, key as int, key_size as int) && range_ok(
            mem_len,
            next_key as int,
            key_size as int,
        ),
    }
}

/// Checks `ranges_ok` executably, without overflow on any guest-supplied
/// offset.
pub fn check_map_op_ranges(
    cmd: MapCmd,
    mem_len: usize,
    key: u32,
    value: u32,
    next_key: u32,
    key_size: u32,
    value_size: u32,
) -> (b: bool)
    ensures
        b == ranges_ok(cmd, mem_len as int, key, value, next_key, key_size, value_size),
{
    let key_ok = key as u64 + key_size as u64 <= mem_len as u64;
    let value_ok = value as u64 + value_size as u64 <= mem_len as u64;
    let next_ok = next_key as u64 + key_size as u64 <= mem_len as u64;
    match cmd {
        MapCmd::LookupElem => key_ok && value_ok,
        MapCmd::UpdateElem => key_ok && value_ok,
        MapCmd::DeleteElem => key_ok,
        MapCmd::GetNextKey => key_ok && next_ok,
    }
}

/// What the kernel returned for a map operation.  Lookup and get-next-key
/// hand bytes back to be copied into guest memory; update and delete
/// succeed without data.
pub enum MapOpOutcome {
    /// The operation succeeded and produced no bytes.
    Done,
    /// The operation succeeded and produced these bytes.
    DoneData(Vec<u8>),
    /// The kernel rejected the operation — including "key not found" for
    /// lookup and "no next key" when iteration is exhausted.
    Failed,
}

/// The outcome has the shape the command calls for: lookup must produce
/// exactly a value's worth of bytes, get-next-key exactly a key's worth,
/// and update/delete nothing.
pub open spec fn outcome_matches(
    cmd: MapCmd,
    outcome: MapOpOutcome,
    key_size: u32,
    value_size: u32,
) -> bool {
    match cmd {
        MapCmd::LookupElem => outcome matches MapOpOutcome::DoneData(d) && d@.len()
            == value_size,
        MapCmd::UpdateElem => outcome is Done,
        MapCmd::DeleteElem => outcome is Done,
        MapCmd::GetNextKey => outcome matches MapOpOutcome::DoneData(d) && d@.len() == key_size,
    }
}

/// MapOperate entry point: validates the command and every guest range it
/// touches, then commits the kernel's outcome.
///
/// Returns 0 exactly when the command is recognized, all its guest ranges
/// are in bounds, and the kernel outcome fits the command; otherwise -1.
/// On -1 guest memory is untouched — in particular, a failed get-next-key
/// (iteration exhausted) writes nothing at `next_key`.  On a successful
/// lookup or get-next-key the produced bytes are written at exactly the
/// value/next-key range and nothing else moves.
pub fn wasm_bpf_map_operate(
    mem: &mut Vec<u8>,
    cmd: i32,
    key: u32,
    value: u32,
    next_key: u32,
    key_size: u32,
    value_size: u32,
    outcome: MapOpOutcome,
) -> (r: i32)
    ensures
        r == 0 || r == -1,
        r == 0 <==> (cmd_of(cmd) matches Some(c) && ranges_ok(
            c,
            old(mem)@.len() as int,
            key,
            value,
            next_key,
            key_size,
            value_size,
        ) && outcome_matches(c, outcome, key_size, value_size)),
        r == -1 ==> final(mem)@ == old(mem)@,
        r == 0 && (cmd_of(cmd) == Some(MapCmd::UpdateElem) || cmd_of(cmd) == Some(
            MapCmd::DeleteElem,
        )) ==> final(mem)@ == old(mem)@,
        r == 0 && cmd_of(cmd) == Some(MapCmd::LookupElem) ==> (outcome matches
            MapOpOutcome::DoneData(d) && final(mem)@ == old(mem)@.subrange(0, value as int) + d@
            + old(mem)@.subrange(value as int + value_size as int, old(mem)@.len() as int)),
        r == 0 && cmd_of(cmd) == Some(MapCmd::GetNextKey) ==> (outcome matches
            MapOpOutcome::DoneData(d) && final(mem)@ == old(mem)@.subrange(0, next_key as int)
            + d@ + old(mem)@.subrange(next_key as int + key_size as int, old(mem)@.len() as int)),
        final(mem)@.len() == old(mem)@.len(),
{
    let c = match parse_map_cmd(cmd) {
        Some(c) => c,
        None => {
            return -1;
        },
    };
    if !check_map_op_ranges(c, mem.len(), key, value, next_key, key_size, value_size) {
        return -1;
    }
    match c {
        MapCmd::UpdateElem => match outcome {
            MapOpOutcome::Done => 0,
            _ => -1,
        },
        MapCmd::DeleteElem => match outcome {
            MapOpOutcome::Done => 0,
            _ => -1,
        },
        MapCmd::LookupElem => match outcome {
            MapOpOutcome::DoneData(d) => {
                if d.len() == value_size as usize {
                    match write_bytes(mem, value, d.as_slice()) {
                        Ok(_) => 0,
                        Err(_) => {
                            proof {
                                assert(false);
                            }
                            -1
                        },
                    }
                } else {
                    -1
                }
            },
            _ => -1,
        },
        MapCmd::GetNextKey => match outcome {
            MapOpOutcome::DoneData(d) => {
                if d.len() == key_size as usize {
                    match write_bytes(mem, next_key, d.as_slice()) {
                        Ok(_) => 0,
                        Err(_) => {
                            proof {
                                assert(false);
                            }
                            -1
                        },
                    }
                } else {
                    -1
                }
            },
            _ => -1,
        },
    }
}

} // verus!
