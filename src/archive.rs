use vstd::prelude::*;
use crate::transfer::sum_of;

verus! {

/// Why an archive job failed.
#[derive(Clone, Copy, Debug, PartialEq, Eq, Structural)]
pub enum ArchiveError {
    /// The files streamed so far add up to more than the cap.
    SizeLimitExceeded { limit: u64 },
}

/// The bytes archived after each file in turn, or `None` from the first file
/// that takes the running total past `limit`.
pub open spec fn archive_run(limit: nat, sizes: Seq<nat>) -> Option<nat>
    decreases sizes.len(),
{
    if sizes.len() == 0 {
        Some(0)
    } else {
        match archive_run(limit, sizes.drop_last()) {
            None => None,
            Some(w) => if w + sizes.last() > limit {
                None
            } else {
                Some(w + sizes.last())
            },
        }
    }
}

/// Length of the prefix that `base` and its separator take in a path below it.
pub open spec fn prefix_len(base: Seq<char>) -> int {
    if base.len() > 0 && base.last() == '/' {
        base.len() as int
    } else {
        base.len() as int + 1
    }
}

/// The name of `path` inside a directory `base`: what follows `base` and a
/// separator. `None` when `path` does not lie strictly below `base`.
pub open spec fn relative_to(base: Seq<char>, path: Seq<char>) -> Option<Seq<char>> {
    if path.len() > prefix_len(base) && path.subrange(0, base.len() as int) == base && (
    prefix_len(base) == base.len() || path[base.len() as int] == '/') {
        Some(path.subrange(prefix_len(base), path.len() as int))
    } else {
        None
    }
}

/// The archive entry name of a file found at `path` while walking `base`.
pub fn entry_name(base: &str, path: &str) -> (r: Option<String>)
    ensures
        match relative_to(base@, path@) {
            Some(n) => r is Some && r->0@ == n,
            None => r is None,
        },
{
    let blen = base.unicode_len();
    let plen = path.unicode_len();
    if plen <= blen {
        return None;
    }
    let ends_with_sep = blen > 0 && base.get_char(blen - 1) == '/';
    let start = if ends_with_sep { blen } else { blen + 1 };
    if plen <= start {
        return None;
    }
    let mut i: usize = 0;
    while i < blen
        invariant
            i <= blen,
            blen == base@.len(),
            plen == path@.len(),
            blen < plen,
            forall|k: int| 0 <= k < i ==> path@[k] == base@[k],
        decreases blen - i,
    {
        if path.get_char(i) != base.get_char(i) {
            assert(path@.subrange(0, blen as int)[i as int] != base@[i as int]);
            return None;
        }
        i = i + 1;
    }
    assert(path@.subrange(0, blen as int) =~= base@);
    if !ends_with_sep && path.get_char(blen) != '/' {
        return None;
    }
    let rest = path.substring_char(start, plen);
    Some(rest.to_owned())
}

/// A size-capped archive being filled, file by file, as a walk of the source
/// directory finds them.
pub struct ArchiveJob {
    pub size_limit: u64,
    /// Bytes archived so far.
    pub written: u64,
    /// Entry names, in the order the files were added.
    pub entries: Vec<String>,
    /// Set once the cap has been passed; the archive is then unusable.
    pub failed: bool,
    /// Names and sizes of all files offered, the one that broke the cap included.
    pub offered_names: Ghost<Seq<Seq<char>>>,
    pub offered_sizes: Ghost<Seq<nat>>,
}

impl ArchiveJob {
    pub open spec fn entry_names(&self) -> Seq<Seq<char>> {
        self.entries@.map_values(|e: String| e@)
    }

    pub open spec fn wf(&self) -> bool {
        &&& self.offered_names@.len() == self.offered_sizes@.len()
        &&& self.failed <==> archive_run(self.size_limit as nat, self.offered_sizes@) is None
        &&& !self.failed ==> {
            &&& archive_run(self.size_limit as nat, self.offered_sizes@) == Some(self.written as nat)
            &&& self.entry_names() == self.offered_names@
        }
    }

    /// An empty archive capped at `size_limit` bytes.
    pub fn new(size_limit: u64) -> (r: ArchiveJob)
        ensures
            r.wf(),
            r.size_limit == size_limit,
            r.written == 0,
            !r.failed,
            r.entries@.len() == 0,
            r.offered_sizes@.len() == 0,
    {
        let r = ArchiveJob {
            size_limit,
            written: 0,
            entries: Vec::new(),
            failed: false,
            offered_names: Ghost(Seq::empty()),
            offered_sizes: Ghost(Seq::empty()),
        };
        assert(r.entry_names() =~= Seq::<Seq<char>>::empty());
        r
    }

    /// Accounts for a file of `size` bytes that has just been streamed into
    /// the archive under `name`. Fails, for good, once the running total
    /// passes the cap.
    pub fn add_file(&mut self, name: String, size: u64) -> (r: Result<(), ArchiveError>)
        requires
            old(self).wf(),
            !old(self).failed,
        ensures
            final(self).wf(),
            final(self).size_limit == old(self).size_limit,
            final(self).offered_names@ == old(self).offered_names@.push(name@),
            final(self).offered_sizes@ == old(self).offered_sizes@.push(size as nat),
            old(self).written + size > old(self).size_limit ==> {
                &&& r == Err::<(), ArchiveError>(ArchiveError::SizeLimitExceeded { limit: old(self).size_limit })
                &&& final(self).failed
                &&& final(self).written == old(self).written
                &&& final(self).entries == old(self).entries
            },
            old(self).written + size <= old(self).size_limit ==> {
                &&& r is Ok
                &&& !final(self).failed
                &&& final(self).written == old(self).written + size
                &&& final(self).entries@ == old(self).entries@.push(name)
            },
    {
        proof {
            let s2 = self.offered_sizes@.push(size as nat);
            assert(s2.drop_last() =~= self.offered_sizes@);
        }
        self.offered_names = Ghost(self.offered_names@.push(name@));
        self.offered_sizes = Ghost(self.offered_sizes@.push(size as nat));
        if size > self.size_limit - self.written {
            self.failed = true;
            return Err(ArchiveError::SizeLimitExceeded { limit: self.size_limit });
        }
        self.written = self.written + size;
        self.entries.push(name);
        assert(self.entry_names() =~= self.offered_names@);
        Ok(())
    }
}

/// The cap decides an archive exactly: a run of files fails if and only if
/// their sizes add up to more than the cap, and otherwise archives all of
/// their bytes.
pub proof fn lemma_archive_cap(limit: nat, sizes: Seq<nat>)
    ensures
        archive_run(limit, sizes) == if sum_of(sizes) > limit {
            None::<nat>
        } else {
            Some(sum_of(sizes))
        },
    decreases sizes.len(),
{
    if sizes.len() > 0 {
        lemma_archive_cap(limit, sizes.drop_last());
    }
}

/// Once a walk has passed the cap, no further file can rescue it.
pub proof fn lemma_archive_failure_is_final(limit: nat, sizes: Seq<nat>, more: Seq<nat>)
    requires
        archive_run(limit, sizes) is None,
    ensures
        archive_run(limit, sizes + more) is None,
    decreases more.len(),
{
    if more.len() == 0 {
        assert(sizes + more =~= sizes);
    } else {
        lemma_archive_failure_is_final(limit, sizes, more.drop_last());
        assert((sizes + more).drop_last() =~= sizes + more.drop_last());
    }
}

/// A job that did not fail holds exactly the files offered to it, in order,
/// and their sizes add up to no more than the cap; a failed one was offered
/// files that add up to more.
pub proof fn lemma_archive_job_contents(job: ArchiveJob)
    requires
        job.wf(),
    ensures
        job.failed <==> sum_of(job.offered_sizes@) > job.size_limit,
        !job.failed ==> job.entry_names() == job.offered_names@ && job.written == sum_of(
            job.offered_sizes@,
        ),
{
    lemma_archive_cap(job.size_limit as nat, job.offered_sizes@);
}

} // verus!
