use vstd::prelude::*;
use crate::model::DeployPermissions;
use crate::paths::{count_files, entries_view, file_count, FileEntry, EntryKind};

verus! {

/// Above this many files a deploy asks the user to confirm before packaging.
pub const LARGE_PROJECT_FILE_COUNT: u64 = 5000;

/// The project holds more files than the server's policy allows.
#[derive(Debug, Clone, Copy, PartialEq, Eq, Structural)]
pub struct QuotaExceeded {
    pub observed: u64,
    pub limit: u64,
    pub overage: u64,
}

/// Permission to package a project's entries under a given file limit.
pub struct Clearance {
    entries: Vec<FileEntry>,
    file_count: u64,
    limit: u64,
}

/// The decision taken before any archive work.
pub enum GateOutcome {
    Cleared(Clearance),
    Exceeded(QuotaExceeded),
    PolicyUnavailable,
}

impl Clearance {
    pub closed spec fn entries_spec(&self) -> Seq<(Seq<char>, EntryKind)> {
        entries_view(self.entries@)
    }

    pub closed spec fn file_count_spec(&self) -> nat {
        self.file_count as nat
    }

    pub closed spec fn limit_spec(&self) -> nat {
        self.limit as nat
    }

    #[verifier::type_invariant]
    spec fn inv(&self) -> bool {
        &&& self.file_count == file_count(entries_view(self.entries@))
        &&& self.file_count <= self.limit
    }

    pub fn file_count(&self) -> (r: u64)
        ensures
            r == self.file_count_spec(),
            r == file_count(self.entries_spec()),
            r <= self.limit_spec(),
    {
        proof {
            use_type_invariant(self);
        }
        self.file_count
    }

    pub fn limit(&self) -> (r: u64)
        ensures
            r == self.limit_spec(),
    {
        self.limit
    }

    /// Whether the project is large enough that the user must confirm the deploy.
    pub fn needs_confirmation(&self) -> (r: bool)
        ensures
            r == (self.file_count_spec() > LARGE_PROJECT_FILE_COUNT),
    {
        self.file_count > LARGE_PROJECT_FILE_COUNT
    }

    /// Gives up the clearance for the entries it covers.
    pub fn into_entries(self) -> (r: (Vec<FileEntry>, u64))
        ensures
            entries_view(r.0@) == self.entries_spec(),
            file_count(self.entries_spec()) == self.file_count_spec(),
            r.1 == self.limit_spec(),
            self.file_count_spec() <= self.limit_spec(),
    {
        proof {
            use_type_invariant(&self);
        }
        (self.entries, self.limit)
    }
}

/// Files beyond the limit, when there are more files than it allows.
pub open spec fn overage(observed: nat, limit: nat) -> Option<nat> {
    if observed > limit {
        Some((observed - limit) as nat)
    } else {
        None
    }
}

/// Compares the project's file count with the server's policy. Without a
/// policy nothing is packaged; over the limit the overage is reported exactly.
pub fn quota_gate(entries: Vec<FileEntry>, policy: Option<DeployPermissions>) -> (r: GateOutcome)
    ensures
        policy is None ==> r is PolicyUnavailable,
        policy matches Some(p) ==> match overage(file_count(entries_view(entries@)), p.max_file_count as nat) {
            Some(over) => r matches GateOutcome::Exceeded(q) && q.observed == file_count(entries_view(entries@))
                && q.limit == p.max_file_count && q.overage == over,
            None => r matches GateOutcome::Cleared(c) && c.entries_spec() == entries_view(entries@)
                && c.file_count_spec() == file_count(entries_view(entries@))
                && c.limit_spec() == p.max_file_count,
        },
{
    match policy {
        None => GateOutcome::PolicyUnavailable,
        Some(p) => {
            let n = count_files(&entries);
            if n > p.max_file_count {
                GateOutcome::Exceeded(QuotaExceeded { observed: n, limit: p.max_file_count, overage: n - p.max_file_count })
            } else {
                GateOutcome::Cleared(Clearance { entries, file_count: n, limit: p.max_file_count })
            }
        },
    }
}

} // verus!
