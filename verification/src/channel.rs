//! Rules of the channel's rendezvous point.
//!
//! The daemon and its clients meet at one filesystem entry per user.
//! This module states where that entry lies and how its lifecycle goes:
//! creating it is refused while an entry — live or stale — occupies the
//! path (never silently removed, which would race a still-live daemon),
//! and removing it is idempotent, so a shutdown path and a signal handler
//! may both clean up.  The surrounding process performs the filesystem
//! calls and feeds their outcomes through [`ChannelEntry`].

use vstd::prelude::*;

verus! {

/// The decimal digits of `n`, most significant first.
pub open spec fn spec_decimal(n: nat) -> Seq<u8>
    decreases n,
{
    if n < 10 {
        seq![(48 + n) as u8]
    } else {
        spec_decimal(n / 10).push((48 + n % 10) as u8)
    }
}

/// The bytes of `/run/user/`.
pub open spec fn spec_run_user_prefix() -> Seq<u8> {
    seq![47u8, 114u8, 117u8, 110u8, 47u8, 117u8, 115u8, 101u8, 114u8, 47u8]
}

/// The bytes of `/sowm.fifo`.
pub open spec fn spec_socket_file_name() -> Seq<u8> {
    seq![47u8, 115u8, 111u8, 119u8, 109u8, 46u8, 102u8, 105u8, 102u8, 111u8]
}

/// The rendezvous path for one user: `/run/user/<uid>/sowm.fifo`.
pub open spec fn spec_socket_path(uid: u32) -> Seq<u8> {
    spec_run_user_prefix() + spec_decimal(uid as nat) + spec_socket_file_name()
}

/// Appends the decimal digits of `n`.
fn push_decimal(out: &mut Vec<u8>, n: u32)
    ensures
        final(out)@ == old(out)@ + spec_decimal(n as nat),
    decreases n,
{
    if n < 10 {
        out.push(48 + n as u8);
        proof {
            assert(out@ =~= old(out)@ + spec_decimal(n as nat));
        }
    } else {
        push_decimal(out, n / 10);
        out.push(48 + (n % 10) as u8);
        proof {
            assert(out@ =~= old(out)@ + spec_decimal(n as nat));
        }
    }
}

/// Builds the rendezvous path for the given user id.
pub fn socket_path_for_uid(uid: u32) -> (r: Vec<u8>)
    ensures
        r@ == spec_socket_path(uid),
{
    let mut p: Vec<u8> = vec![47, 114, 117, 110, 47, 117, 115, 101, 114, 47];
    proof {
        assert(p@ =~= spec_run_user_prefix());
    }
    push_decimal(&mut p, uid);
    let mut name: Vec<u8> = vec![47, 115, 111, 119, 109, 46, 102, 105, 102, 111];
    proof {
        assert(name@ =~= spec_socket_file_name());
    }
    p.append(&mut name);
    proof {
        assert(p@ =~= spec_socket_path(uid));
    }
    p
}

/// Relies on `users::get_current_uid`, which returns the id of the
/// invoking user (libc `getuid`).  Nothing is assumed of the value.
#[verifier::external_body]
fn current_uid() -> u32 {
    users::get_current_uid()
}

/// The rendezvous path of the invoking user.
pub fn socket_file_path() -> (r: Vec<u8>)
    ensures
        exists|uid: u32| r@ == spec_socket_path(uid),
{
    let uid = current_uid();
    let r = socket_path_for_uid(uid);
    proof {
        assert(r@ == spec_socket_path(uid));
    }
    r
}

/// Why the rendezvous point could not change as asked.
#[derive(Debug, Clone, Copy, PartialEq, Eq, Structural)]
pub enum ChannelError {
    /// An entry already occupies the path; a previous daemon may still
    /// live, so it is not removed.
    AddrInUse,
    /// The filesystem refused to remove the entry.
    RemoveFailed,
}

/// What one removal attempt leaves behind and whether it succeeds: an
/// absent entry needs no filesystem call and cannot fail; a present one
/// goes away exactly when the filesystem's removal does its part.
pub open spec fn spec_remove(present: bool, fs_remove_ok: bool) -> (bool, bool) {
    if !present {
        (false, true)
    } else if fs_remove_ok {
        (false, true)
    } else {
        (true, false)
    }
}

/// Idempotent shutdown: once a removal has succeeded, removing again
/// cannot fail, whatever the filesystem would then answer.
pub proof fn lemma_remove_idempotent(present: bool, fs_first: bool, fs_second: bool)
    requires
        spec_remove(present, fs_first).1,
    ensures
        spec_remove(spec_remove(present, fs_first).0, fs_second).1,
        !spec_remove(spec_remove(present, fs_first).0, fs_second).0,
{
}

/// The rendezvous entry's lifecycle, as the library tracks it.  The
/// surrounding process mirrors every filesystem step through this value,
/// so the rules below are checked for every order of steps.
pub struct ChannelEntry {
    present: bool,
}

impl View for ChannelEntry {
    type V = bool;

    closed spec fn view(&self) -> bool {
        self.present
    }
}

impl ChannelEntry {
    /// Starts tracking a path on which an entry is present or not.
    pub fn new(present: bool) -> (r: ChannelEntry)
        ensures
            r@ == present,
    {
        ChannelEntry { present }
    }

    /// Whether an entry occupies the path.
    pub fn is_present(&self) -> (r: bool)
        ensures
            r == self@,
    {
        self.present
    }

    /// Claims the path for a new rendezvous point.  While any entry
    /// occupies it — a stale one from an unclean shutdown included — this
    /// is refused as fatal, and the entry is left untouched.
    pub fn create(&mut self) -> (r: Result<(), ChannelError>)
        ensures
            old(self)@ ==> r == Err::<(), ChannelError>(ChannelError::AddrInUse) && final(self)@,
            !old(self)@ ==> r == Ok::<(), ChannelError>(()) && final(self)@,
    {
        if self.present {
            Err(ChannelError::AddrInUse)
        } else {
            self.present = true;
            Ok(())
        }
    }

    /// Removes the entry, `fs_remove_ok` being the filesystem's answer
    /// where one is needed.  Removing an already-absent entry asks the
    /// filesystem nothing and is no error.
    pub fn remove(&mut self, fs_remove_ok: bool) -> (r: Result<(), ChannelError>)
        ensures
            final(self)@ == spec_remove(old(self)@, fs_remove_ok).0,
            r is Ok == spec_remove(old(self)@, fs_remove_ok).1,
            r is Err ==> r == Err::<(), ChannelError>(ChannelError::RemoveFailed),
    {
        if !self.present {
            Ok(())
        } else if fs_remove_ok {
            self.present = false;
            Ok(())
        } else {
            Err(ChannelError::RemoveFailed)
        }
    }
}

} // verus!
