//! Cloning the repositories: where each one goes, the `git` command that
//! clones it, the batches they are cloned in and the tally of outcomes.

use vstd::prelude::*;
use crate::batch::{plan, next_batch, batch_count, Batch};
use crate::text::{decimal, append_usize};

verus! {

/// How many repositories are cloned at once.
pub const BATCH_SIZE: usize = 8;

/// How the clone of one repository ended.
#[derive(Debug, PartialEq, Eq)]
pub enum CloneOutcome {
    /// The target directory was already there; nothing was run.
    AlreadyPresent,
    /// `git clone` ran and succeeded.
    Cloned,
    /// `git clone` ran and failed.
    GitFailed,
    /// `git` could not be run; the text of the error.
    SpawnFailed(String),
}

/// Whether an outcome counts as a success.
pub open spec fn outcome_ok(o: CloneOutcome) -> bool {
    o is AlreadyPresent || o is Cloned
}

/// The number of successful outcomes in `os`.
pub open spec fn count_ok(os: Seq<CloneOutcome>) -> nat
    decreases os.len(),
{
    if os.len() == 0 {
        0
    } else {
        count_ok(os.drop_last()) + if outcome_ok(os.last()) { 1nat } else { 0nat }
    }
}

impl CloneOutcome {
    /// Whether the repository is there after the attempt.
    pub fn succeeded(&self) -> (res: bool)
        ensures
            res == outcome_ok(*self),
    {
        match self {
            CloneOutcome::AlreadyPresent => true,
            CloneOutcome::Cloned => true,
            _ => false,
        }
    }

    /// The outcome of running `git clone`: whether it could be run and, if
    /// so, whether it exited with success.
    pub fn from_git_run(run: Result<bool, String>) -> (res: Self)
        ensures
            match run {
                Ok(true) => res is Cloned,
                Ok(false) => res is GitFailed,
                Err(e) => res == CloneOutcome::SpawnFailed(e),
            },
    {
        match run {
            Ok(true) => CloneOutcome::Cloned,
            Ok(false) => CloneOutcome::GitFailed,
            Err(e) => CloneOutcome::SpawnFailed(e),
        }
    }
}

/// The directory a repository is cloned into: `target_dir/name`.
pub fn clone_target(target_dir: &str, name: &str) -> (res: String)
    ensures
        res@ == target_dir@ + "/"@ + name@,
{
    let mut s = String::from_str(target_dir);
    s.append("/");
    s.append(name);
    s
}

/// Target law: within one download folder, repositories with different
/// names are cloned into different directories.
pub proof fn lemma_clone_target_distinct(target_dir: Seq<char>, a: Seq<char>, b: Seq<char>)
    requires
        a != b,
    ensures
        target_dir + "/"@ + a != target_dir + "/"@ + b,
{
    let p = target_dir + "/"@;
    if p + a == p + b {
        assert(a =~= (p + a).skip(p.len() as int));
        assert(b =~= (p + b).skip(p.len() as int));
    }
}

/// The arguments given to `git`: clone every branch of `url` into `path`.
pub fn git_clone_args(url: &str, path: &str) -> (res: Vec<String>)
    ensures
        res@.len() == 4,
        res@[0]@ == "clone"@,
        res@[1]@ == "--no-single-branch"@,
        res@[2]@ == url@,
        res@[3]@ == path@,
{
    let mut v: Vec<String> = Vec::new();
    v.push(String::from_str("clone"));
    v.push(String::from_str("--no-single-branch"));
    v.push(String::from_str(url));
    v.push(String::from_str(path));
    v
}

/// The line shown for one clone: its place in the batch, the repository's
/// directory name and how it ended.
pub fn outcome_line(repo_num: usize, batch_size: usize, name: &str, outcome: &CloneOutcome) -> (res: String)
    ensures
        res@ == "      "@ + match outcome {
            CloneOutcome::AlreadyPresent => "⏭️  "@,
            CloneOutcome::Cloned => "✅ "@,
            _ => "❌ "@,
        } + decimal(repo_num as nat) + "/"@ + decimal(batch_size as nat) + " "@ + name@
            + match outcome {
            CloneOutcome::AlreadyPresent => " (déjà présent)"@,
            CloneOutcome::Cloned => " (toutes branches)"@,
            CloneOutcome::GitFailed => " (échec git clone)"@,
            CloneOutcome::SpawnFailed(e) => " (erreur: "@ + e@ + ")"@,
        },
{
    let mut s = String::from_str("      ");
    match outcome {
        CloneOutcome::AlreadyPresent => s.append("⏭️  "),
        CloneOutcome::Cloned => s.append("✅ "),
        _ => s.append("❌ "),
    }
    append_usize(&mut s, repo_num);
    s.append("/");
    append_usize(&mut s, batch_size);
    s.append(" ");
    s.append(name);
    match outcome {
        CloneOutcome::AlreadyPresent => s.append(" (déjà présent)"),
        CloneOutcome::Cloned => s.append(" (toutes branches)"),
        CloneOutcome::GitFailed => s.append(" (échec git clone)"),
        CloneOutcome::SpawnFailed(e) => {
            s.append(" (erreur: ");
            s.append(e.as_str());
            s.append(")");
        },
    }
    s
}

/// The line that opens batch `number` of `batch_total`, of `size`
/// repositories.
pub fn batch_header(number: usize, batch_total: usize, size: usize) -> (res: String)
    ensures
        res@ == "\n   📦 Batch "@ + decimal(number as nat) + "/"@ + decimal(batch_total as nat)
            + " - "@ + decimal(size as nat) + " repos..."@,
{
    let mut s = String::from_str("\n   📦 Batch ");
    append_usize(&mut s, number);
    s.append("/");
    append_usize(&mut s, batch_total);
    s.append(" - ");
    append_usize(&mut s, size);
    s.append(" repos...");
    s
}

/// The cloning of `total` repositories, batch after batch, with the count
/// of successes and failures.
pub struct DownloadRun {
    total: usize,
    next: usize,
    batch_number: usize,
    succeeded: usize,
    failed: usize,
}

impl DownloadRun {
    #[verifier::type_invariant]
    spec fn inv(self) -> bool {
        &&& self.next <= self.total
        &&& self.succeeded + self.failed == self.next
        &&& self.batch_number <= self.next
    }

    /// The number of repositories to clone.
    pub closed spec fn spec_total(self) -> nat {
        self.total as nat
    }

    /// The number of repositories whose clone has ended.
    pub closed spec fn spec_done(self) -> nat {
        self.next as nat
    }

    /// The number of batches started so far.
    pub closed spec fn spec_batch_number(self) -> nat {
        self.batch_number as nat
    }

    /// The number of successful clones so far.
    pub closed spec fn spec_succeeded(self) -> nat {
        self.succeeded as nat
    }

    /// The number of failed clones so far.
    pub closed spec fn spec_failed(self) -> nat {
        self.failed as nat
    }

    /// The batches still to come, as ranges of repository positions.
    pub open spec fn remaining_plan(self) -> Seq<(int, int)> {
        plan(self.spec_done() as int, self.spec_total() as int, BATCH_SIZE as int)
    }

    /// A run over `total` repositories with nothing cloned yet.
    pub fn new(total: usize) -> (res: Self)
        ensures
            res.spec_total() == total,
            res.spec_done() == 0,
            res.spec_batch_number() == 0,
            res.spec_succeeded() == 0,
            res.spec_failed() == 0,
    {
        DownloadRun { total, next: 0, batch_number: 0, succeeded: 0, failed: 0 }
    }

    /// The number of batches the run takes in all.
    pub fn batch_total(&self) -> (res: usize)
        ensures
            res as int == (self.spec_total() + BATCH_SIZE - 1) / (BATCH_SIZE as int),
    {
        batch_count(self.total, BATCH_SIZE)
    }

    /// The positions of the repositories of the next batch, or `None` when
    /// every repository has been handled.
    pub fn next_chunk(&self) -> (res: Option<Batch>)
        ensures
            self.spec_done() >= self.spec_total() ==> res is None,
            self.spec_done() < self.spec_total() ==> (res matches Some(b) && {
                &&& self.remaining_plan().len() > 0
                &&& (b.first as int, b.count as int) == self.remaining_plan()[0]
                &&& b.first == self.spec_done()
                &&& 0 < b.count <= BATCH_SIZE
                &&& b.first + b.count <= self.spec_total()
            }),
    {
        proof {
            use_type_invariant(self);
        }
        next_batch(self.next, self.total, BATCH_SIZE)
    }

    /// Records how the clones of the batch `next_chunk` gave ended, in
    /// order.  Returns the number of the batch.
    pub fn on_chunk(&mut self, outcomes: &Vec<CloneOutcome>) -> (number: usize)
        requires
            old(self).spec_done() < old(self).spec_total(),
            outcomes@.len() == old(self).remaining_plan()[0].1,
        ensures
            number == old(self).spec_batch_number() + 1,
            final(self).spec_batch_number() == number,
            final(self).spec_total() == old(self).spec_total(),
            final(self).spec_done() == old(self).spec_done() + outcomes@.len(),
            final(self).spec_succeeded() == old(self).spec_succeeded() + count_ok(outcomes@),
            final(self).spec_failed() == old(self).spec_failed() + outcomes@.len() - count_ok(outcomes@),
            final(self).remaining_plan() == old(self).remaining_plan().drop_first(),
            final(self).spec_succeeded() + final(self).spec_failed() == final(self).spec_done(),
            final(self).spec_done() <= final(self).spec_total(),
    {
        proof {
            use_type_invariant(&*self);
        }
        let b = next_batch(self.next, self.total, BATCH_SIZE);
        let n = outcomes.len();
        let mut ok: usize = 0;
        let mut i: usize = 0;
        while i < n
            invariant
                n == outcomes@.len(),
                n <= BATCH_SIZE,
                i <= n,
                ok == count_ok(outcomes@.take(i as int)),
                ok <= i,
            decreases n - i,
        {
            proof {
                assert(outcomes@.take(i + 1).drop_last() =~= outcomes@.take(i as int));
            }
            if outcomes[i].succeeded() {
                ok = ok + 1;
            }
            i = i + 1;
        }
        proof {
            assert(outcomes@.take(n as int) =~= outcomes@);
            assert(b is Some);
        }
        let number = self.batch_number + 1;
        *self = DownloadRun {
            total: self.total,
            next: self.next + n,
            batch_number: number,
            succeeded: self.succeeded + ok,
            failed: self.failed + (n - ok),
        };
        number
    }

    /// Tally law: every repository whose clone has ended is counted once,
    /// as a success or as a failure, and no more have ended than there are.
    pub fn tally(&self) -> (res: (usize, usize))
        ensures
            res.0 == self.spec_succeeded(),
            res.1 == self.spec_failed(),
            res.0 + res.1 == self.spec_done(),
            self.spec_done() <= self.spec_total(),
    {
        proof {
            use_type_invariant(self);
        }
        (self.succeeded, self.failed)
    }

    /// The number of repositories to clone.
    pub fn total(&self) -> (res: usize)
        ensures
            res == self.spec_total(),
    {
        self.total
    }

    /// The number of successful clones so far.
    pub fn succeeded(&self) -> (res: usize)
        ensures
            res == self.spec_succeeded(),
    {
        self.succeeded
    }

    /// The number of failed clones so far.
    pub fn failed(&self) -> (res: usize)
        ensures
            res == self.spec_failed(),
    {
        self.failed
    }
}

} // verus!
