//! The credential that a handle-based interface (`getpeerucred`) reports:
//! the effective, real and saved uid and gid, the full supplementary group
//! list and the pid, each read through an accessor of the kernel's object.
//! A `Ucred` holds what the accessors returned, read once each.
use vstd::prelude::*;
use vstd::std_specs::cmp::PartialEqSpec;

use crate::util::{copy_groups, same_groups};

verus! {

/// What a handle-based credential exposes.
pub ghost struct UcredView {
    pub pid: i32,
    pub euid: u32,
    pub ruid: u32,
    pub suid: u32,
    pub egid: u32,
    pub rgid: u32,
    pub sgid: u32,
    pub groups: Seq<u32>,
}

/// Represents the credentials of a Unix socket's peer.
#[derive(Debug, Hash)]
pub struct Ucred {
    pid: i32,
    euid: u32,
    ruid: u32,
    suid: u32,
    egid: u32,
    rgid: u32,
    sgid: u32,
    groups: Vec<u32>,
}

impl View for Ucred {
    type V = UcredView;

    closed spec fn view(&self) -> UcredView {
        UcredView {
            pid: self.pid,
            euid: self.euid,
            ruid: self.ruid,
            suid: self.suid,
            egid: self.egid,
            rgid: self.rgid,
            sgid: self.sgid,
            groups: self.groups@,
        }
    }
}

/// The length of the group list that the groups accessor reported, given
/// its count and whether it handed out a list at all: a missing list must
/// come with a count of 0, and a count is never negative. `None` where the
/// accessor contradicted itself.
pub fn group_count(ngroups: i32, has_list: bool) -> (r: Option<usize>)
    ensures
        r == (if ngroups == 0 || (has_list && ngroups > 0) {
            Some(ngroups as usize)
        } else {
            None::<usize>
        }),
{
    if ngroups < 0 || (!has_list && ngroups != 0) {
        None
    } else {
        Some(ngroups as usize)
    }
}

impl Ucred {
    /// The credential whose accessors returned these values.
    pub fn new(
        pid: i32,
        euid: u32,
        ruid: u32,
        suid: u32,
        egid: u32,
        rgid: u32,
        sgid: u32,
        groups: Vec<u32>,
    ) -> (r: Ucred)
        ensures
            r@ == (UcredView { pid, euid, ruid, suid, egid, rgid, sgid, groups: groups@ }),
    {
        Ucred { pid, euid, ruid, suid, egid, rgid, sgid, groups }
    }

    pub fn euid(&self) -> (r: u32)
        ensures
            r == self@.euid,
    {
        self.euid
    }

    pub fn ruid(&self) -> (r: u32)
        ensures
            r == self@.ruid,
    {
        self.ruid
    }

    pub fn suid(&self) -> (r: u32)
        ensures
            r == self@.suid,
    {
        self.suid
    }

    pub fn egid(&self) -> (r: u32)
        ensures
            r == self@.egid,
    {
        self.egid
    }

    pub fn rgid(&self) -> (r: u32)
        ensures
            r == self@.rgid,
    {
        self.rgid
    }

    pub fn sgid(&self) -> (r: u32)
        ensures
            r == self@.sgid,
    {
        self.sgid
    }

    pub fn groups(&self) -> (r: &[u32])
        ensures
            r@ == self@.groups,
    {
        self.groups.as_slice()
    }

    pub fn pid(&self) -> (r: i32)
        ensures
            r == self@.pid,
    {
        self.pid
    }
}

impl PartialEq for Ucred {
    fn eq(&self, other: &Ucred) -> (r: bool) {
        self.pid == other.pid && self.euid == other.euid && self.ruid == other.ruid && self.suid
            == other.suid && self.egid == other.egid && self.rgid == other.rgid && self.sgid
            == other.sgid && same_groups(self.groups.as_slice(), other.groups.as_slice())
    }
}

impl vstd::std_specs::cmp::PartialEqSpecImpl for Ucred {
    open spec fn obeys_eq_spec() -> bool {
        true
    }

    /// Two credentials are equal when every accessor agrees.
    open spec fn eq_spec(&self, other: &Ucred) -> bool {
        self@ == other@
    }
}

impl Eq for Ucred {}

impl Clone for Ucred {
    /// A deep copy, owning a group list of its own.
    fn clone(&self) -> (r: Ucred)
        ensures
            r@ == self@,
    {
        Ucred {
            pid: self.pid,
            euid: self.euid,
            ruid: self.ruid,
            suid: self.suid,
            egid: self.egid,
            rgid: self.rgid,
            sgid: self.sgid,
            groups: copy_groups(self.groups.as_slice()),
        }
    }
}

/// A clone compares equal to its original, both ways round; it owns its
/// own group list, so either may be dropped first.
pub proof fn lemma_clone_equal(original: Ucred, copy: Ucred)
    requires
        copy@ == original@,
    ensures
        original.eq_spec(&copy),
        copy.eq_spec(&original),
{
}

} // verus!
