//! The attachment dispatcher.
//!
//! Per program, the bridge decides between generic attachment and the
//! specialized cgroup-fd path.  The cgroup path is taken exactly when the
//! guest supplied an attach target and the program's section is the
//! cgroup-socket-options kind (`sockops`); in every other case — no target,
//! or a section that does not need one — the program's default attachment
//! is used and no file is ever opened.

use vstd::prelude::*;

verus! {

use crate::state::AppState;

/// The section name bytes that select the cgroup-fd path (`sockops`).
pub open spec fn is_sockops_section(s: Seq<u8>) -> bool {
    s == seq![115u8, 111u8, 99u8, 107u8, 111u8, 112u8, 115u8]
}

/// How a program is to be attached.
#[derive(Clone, Copy, Debug, PartialEq, Eq, Structural)]
pub enum AttachStrategy {
    /// Open the target path and attach the program to the resulting
    /// cgroup file descriptor.
    CgroupFd,
    /// The program's default attachment; no file is opened.
    Generic,
}

/// Decides the attachment path from the program's section name and whether
/// the guest supplied an attach target.
///
/// The cgroup path is chosen exactly when a target was supplied and the
/// section is the cgroup-socket-options kind; without a target no file is
/// ever opened.
pub fn decide_attach(section: &[u8], has_target: bool) -> (r: AttachStrategy)
    ensures
        r == AttachStrategy::CgroupFd <==> has_target && is_sockops_section(section@),
        !has_target ==> r == AttachStrategy::Generic,
{
    if has_target && section_is_sockops(section) {
        AttachStrategy::CgroupFd
    } else {
        AttachStrategy::Generic
    }
}

/// Compares a section name against `sockops`.
fn section_is_sockops(s: &[u8]) -> (r: bool)
    ensures
        r == is_sockops_section(s@),
{
    if s.len() != 7 {
        proof {
            assert(!is_sockops_section(s@)) by {
                if s@ == seq![115u8, 111u8, 99u8, 107u8, 111u8, 112u8, 115u8] {
                    assert(s@.len() == 7);
                }
            }
        }
        return false;
    }
    let r = s[0] == 115 && s[1] == 111 && s[2] == 99 && s[3] == 107 && s[4] == 111 && s[5] == 112
        && s[6] == 115;
    proof {
        let w = seq![115u8, 111u8, 99u8, 107u8, 111u8, 112u8, 115u8];
        if r {
            assert(s@ =~= w);
        } else {
            assert(!is_sockops_section(s@)) by {
                if s@ == w {
                    assert(s@[0] == 115 && s@[1] == 111 && s@[2] == 99 && s@[3] == 107 && s@[4] == 111
                        && s@[5] == 112 && s@[6] == 115);
                }
            }
        }
    }
    r
}

/// Commits a successful cgroup attachment: the opened cgroup file and the
/// new link are both retained by the session, exactly one of each, and no
/// object mapping moves.
pub fn record_cgroup_attach<T, L, F>(state: &mut AppState<T, L, F>, file: F, link: L)
    ensures
        final(state).files_seq() == old(state).files_seq().push(file),
        final(state).links_seq() == old(state).links_seq().push(link),
        final(state).objects_seq() == old(state).objects_seq(),
{
    state.push_opened_file(file);
    state.push_link(link);
}

/// Commits a successful generic attachment: exactly one link is retained,
/// no file is opened, and no object mapping moves.
pub fn record_generic_attach<T, L, F>(state: &mut AppState<T, L, F>, link: L)
    ensures
        final(state).links_seq() == old(state).links_seq().push(link),
        final(state).files_seq() == old(state).files_seq(),
        final(state).objects_seq() == old(state).objects_seq(),
{
    state.push_link(link);
}

} // verus!
