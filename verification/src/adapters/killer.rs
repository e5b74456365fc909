//! Process killers: which processes a cleanup sweep terminates.
//!
//! A sweep terminates the processes whose image name matches the configured
//! cleanup list (case-insensitive, `.exe`-tolerant), and never the agent itself.

use vstd::prelude::*;

use crate::collections::{capped, TextSet};
use crate::domain::marker::{bare_name, dot_exe, strip_exe};
use crate::plugins::session_manager::copied;
use crate::ports::KillOutcome;
use crate::text::{lower_ascii, lowercase, to_lowercase, views};

verus! {

/// Killer over a snapshot of the running processes.
#[derive(Debug, Clone, Copy, PartialEq, Eq, Structural)]
pub struct WindowsProcessKiller;

/// An image name as the cleanup list means it: without `.exe`, lowercased.
pub open spec fn normalized(image: Seq<char>) -> Seq<char> {
    lowercase(bare_name(image))
}

/// An image name as the cleanup list means it: without `.exe`, lowercased.
pub fn normalize(image: &str) -> (name: String)
    ensures
        name@ == normalized(image@),
{
    to_lowercase(strip_exe(image))
}

/// A name means the same with `.exe` appended, in whatever case, unless it already
/// ends so: the extension is stripped once.
pub proof fn law_the_extension_is_optional(name: Seq<char>, extension: Seq<char>)
    requires
        bare_name(name) == name,
        lower_ascii(extension) == dot_exe(),
    ensures
        normalized(name + extension) == normalized(name),
{
    let long = name + extension;
    assert(extension.len() == lower_ascii(extension).len());
    assert(long.skip(long.len() - 4) =~= extension);
    assert(long.take(long.len() - 4) =~= name);
}

/// Does the cleanup list name this image?
pub open spec fn is_wanted(names: Seq<Seq<char>>, image: Seq<char>) -> bool {
    exists|i: int| 0 <= i < names.len() && normalized(#[trigger] names[i]) == normalized(image)
}

/// The pids to terminate, in the order of the snapshot.
pub open spec fn victims(
    names: Seq<Seq<char>>,
    processes: Seq<(u32, String)>,
    own_pid: u32,
) -> Seq<u32>
    decreases processes.len(),
{
    if processes.len() == 0 {
        Seq::empty()
    } else {
        let earlier = victims(names, processes.drop_last(), own_pid);
        let (pid, image) = processes.last();
        if pid != own_pid && is_wanted(names, image@) {
            earlier.push(pid)
        } else {
            earlier
        }
    }
}

/// How many of the results are this one.
pub open spec fn times(results: Seq<bool>, value: bool) -> nat
    decreases results.len(),
{
    if results.len() == 0 {
        0
    } else {
        times(results.drop_last(), value) + if results.last() == value {
            1nat
        } else {
            0
        }
    }
}

impl WindowsProcessKiller {
    /// Assemble the adapter.
    pub fn new() -> (killer: Self)
        ensures
            killer == WindowsProcessKiller,
    {
        WindowsProcessKiller
    }

    /// The pids that a sweep terminates, of all processes that run.
    pub fn sweep(&self, names: &Vec<String>, processes: &Vec<(u32, String)>, own_pid: u32) -> (pids: Vec<
        u32,
    >)
        ensures
            pids@ == victims(views(names@), processes@, own_pid),
    {
        let wanted = wanted_names(names);
        let ghost list = views(names@);
        let mut pids: Vec<u32> = Vec::new();
        let mut at: usize = 0;
        proof {
            assert(processes@.take(0) =~= Seq::<(u32, String)>::empty());
        }
        while at < processes.len()
            invariant
                at <= processes@.len(),
                wanted.wf(),
                forall|name: Seq<char>| #[trigger]
                    wanted@.contains(name) <==> exists|i: int|
                        0 <= i < list.len() && normalized(#[trigger] list[i]) == name,
                pids@ == victims(list, processes@.take(at as int), own_pid),
            decreases processes@.len() - at,
        {
            let pid: u32 = processes[at].0;
            let name = normalize(processes[at].1.as_str());
            let matches_list = wanted.contains(name.as_str());
            proof {
                assert(processes@.take(at + 1).drop_last() =~= processes@.take(at as int));
                assert(matches_list == is_wanted(list, processes@[at as int].1@));
            }
            if pid != own_pid && matches_list {
                pids.push(pid);
            }
            at = at + 1;
        }
        proof {
            assert(processes@.take(at as int) =~= processes@);
        }
        pids
    }

    /// What a sweep reports, from how each termination went.
    pub fn outcome(&self, terminated: &Vec<bool>) -> (outcome: KillOutcome)
        ensures
            outcome.killed == capped(times(terminated@, true)),
            outcome.failed == capped(times(terminated@, false)),
    {
        let mut outcome = KillOutcome { killed: 0, failed: 0 };
        let mut at: usize = 0;
        while at < terminated.len()
            invariant
                at <= terminated@.len(),
                outcome.killed == capped(times(terminated@.take(at as int), true)),
                outcome.failed == capped(times(terminated@.take(at as int), false)),
            decreases terminated@.len() - at,
        {
            proof {
                assert(terminated@.take(at + 1).drop_last() =~= terminated@.take(at as int));
            }
            if terminated[at] {
                outcome.killed = outcome.killed.saturating_add(1);
            } else {
                outcome.failed = outcome.failed.saturating_add(1);
            }
            at = at + 1;
        }
        proof {
            assert(terminated@.take(at as int) =~= terminated@);
        }
        outcome
    }
}

/// The names of the cleanup list as it means them.
fn wanted_names(names: &Vec<String>) -> (wanted: TextSet)
    ensures
        wanted.wf(),
        forall|name: Seq<char>| #[trigger]
            wanted@.contains(name) <==> exists|i: int|
                0 <= i < views(names@).len() && normalized(#[trigger] views(names@)[i]) == name,
{
    let ghost list = views(names@);
    let mut wanted = TextSet::new();
    let mut at: usize = 0;
    while at < names.len()
        invariant
            at <= names@.len(),
            list == views(names@),
            wanted.wf(),
            forall|name: Seq<char>| #[trigger]
                wanted@.contains(name) <==> exists|i: int|
                    0 <= i < at && normalized(#[trigger] list[i]) == name,
        decreases names@.len() - at,
    {
        let ghost prior = wanted@;
        let name = normalize(names[at].as_str());
        let ghost added = name@;
        wanted.insert(name);
        proof {
            assert(added == normalized(list[at as int]));
            assert forall|name: Seq<char>| #[trigger] wanted@.contains(name) <==> exists|i: int|
                0 <= i < at + 1 && normalized(#[trigger] list[i]) == name by {
                if name == added {
                    assert(normalized(list[at as int]) == name);
                }
                if prior.contains(name) {
                    let i = choose|i: int| 0 <= i < at && normalized(#[trigger] list[i]) == name;
                    assert(0 <= i < at + 1);
                }
            }
        }
        at = at + 1;
    }
    wanted
}

/// The agent never terminates itself, whatever the cleanup list says.
pub proof fn law_the_agent_survives(names: Seq<Seq<char>>, processes: Seq<(u32, String)>, own_pid: u32)
    ensures
        !victims(names, processes, own_pid).contains(own_pid),
    decreases processes.len(),
{
    if processes.len() > 0 {
        let earlier = victims(names, processes.drop_last(), own_pid);
        law_the_agent_survives(names, processes.drop_last(), own_pid);
        let all = victims(names, processes, own_pid);
        if all.contains(own_pid) {
            let i = choose|i: int| 0 <= i < all.len() && all[i] == own_pid;
            assert(i < earlier.len() ==> earlier[i] == own_pid);
        }
    }
}

/// A sweep terminates exactly the processes, other than the agent, that the
/// cleanup list names.
pub proof fn law_sweeps_are_exact(
    names: Seq<Seq<char>>,
    processes: Seq<(u32, String)>,
    own_pid: u32,
    pid: u32,
)
    ensures
        victims(names, processes, own_pid).contains(pid) <==> pid != own_pid && exists|i: int|
            0 <= i < processes.len() && (#[trigger] processes[i]).0 == pid && is_wanted(
                names,
                processes[i].1@,
            ),
    decreases processes.len(),
{
    if processes.len() > 0 {
        let rest = processes.drop_last();
        let earlier = victims(names, rest, own_pid);
        let all = victims(names, processes, own_pid);
        law_sweeps_are_exact(names, rest, own_pid, pid);
        let last = processes.last();
        if all.contains(pid) {
            let i = choose|i: int| 0 <= i < all.len() && all[i] == pid;
            if i < earlier.len() {
                assert(earlier[i] == pid);
                assert(earlier.contains(pid));
                let j = choose|j: int|
                    0 <= j < rest.len() && (#[trigger] rest[j]).0 == pid && is_wanted(names, rest[j].1@);
                assert(processes[j] == rest[j]);
            } else {
                assert(processes[processes.len() - 1] == last);
            }
        }
        if pid != own_pid && exists|i: int|
            0 <= i < processes.len() && (#[trigger] processes[i]).0 == pid && is_wanted(
                names,
                processes[i].1@,
            ) {
            let j = choose|j: int|
                0 <= j < processes.len() && (#[trigger] processes[j]).0 == pid && is_wanted(
                    names,
                    processes[j].1@,
                );
            if j < rest.len() {
                assert(rest[j] == processes[j]);
                assert(earlier.contains(pid));
                let i = choose|i: int| 0 <= i < earlier.len() && earlier[i] == pid;
                assert(all[i] == pid);
            } else {
                assert(all.last() == pid);
                assert(all[all.len() - 1] == pid);
            }
        }
    }
}

/// Records every sweep and simulates the given outcome.
#[derive(Debug)]
pub struct FakeProcessKiller {
    /// Every sweep, in order (each sweep is the requested name list).
    pub sweeps: Vec<Vec<String>>,
    /// Processes that each requested name is said to have had.
    pub killed_per_name: u32,
}

impl FakeProcessKiller {
    /// Killer that reports `killed` per matching name.
    pub fn with_killed_per_name(killed: u32) -> (killer: Self)
        ensures
            killer.sweeps@.len() == 0,
            killer.killed_per_name == killed,
    {
        FakeProcessKiller { sweeps: Vec::new(), killed_per_name: killed }
    }

    /// Every sweep, in order.
    pub fn sweeps(&self) -> (sweeps: &Vec<Vec<String>>)
        ensures
            *sweeps == self.sweeps,
    {
        &self.sweeps
    }

    /// Record a sweep; its outcome is the simulated one.
    pub fn kill_by_image_names(&mut self, image_names: &Vec<String>) -> (outcome: KillOutcome)
        ensures
            final(self).killed_per_name == old(self).killed_per_name,
            final(self).sweeps@.len() == old(self).sweeps@.len() + 1,
            final(self).sweeps@.drop_last() == old(self).sweeps@,
            views(final(self).sweeps@.last()@) == views(image_names@),
            outcome.failed == 0,
            outcome.killed == capped((image_names@.len() * old(self).killed_per_name) as nat),
    {
        let ghost before = self.sweeps@;
        self.sweeps.push(copied(image_names));
        let names: u32 = if image_names.len() <= u32::MAX as usize {
            image_names.len() as u32
        } else {
            u32::MAX
        };
        let product: u64 = mul_counts(names, self.killed_per_name);
        let killed: u32 = if product <= u32::MAX as u64 {
            product as u32
        } else {
            u32::MAX
        };
        proof {
            assert(self.sweeps@.drop_last() =~= before);
            let count = image_names@.len() as int;
            let per = self.killed_per_name as int;
            assert(count * per >= 0) by (nonlinear_arith)
                requires
                    count >= 0,
                    per >= 0,
            ;
            assert(product == names as int * per);
            if count > u32::MAX && per == 0 {
                assert(count * per == 0) by (nonlinear_arith)
                    requires
                        per == 0,
                ;
                assert(names as int * per == 0) by (nonlinear_arith)
                    requires
                        per == 0,
                ;
            }
            if count > u32::MAX && per > 0 {
                assert(count * per >= count) by (nonlinear_arith)
                    requires
                        per >= 1,
                        count >= 0,
                ;
                assert(u32::MAX * per >= u32::MAX) by (nonlinear_arith)
                    requires
                        per >= 1,
                ;
            }
        }
        KillOutcome { killed, failed: 0 }
    }
}

/// The product of two counts, which 64 bits always hold.
fn mul_counts(left: u32, right: u32) -> (product: u64)
    ensures
        product == left * right,
{
    proof {
        assert(left * right <= 0xFFFF_FFFF * 0xFFFF_FFFF) by (nonlinear_arith)
            requires
                0 <= left <= 0xFFFF_FFFF,
                0 <= right <= 0xFFFF_FFFF,
        ;
    }
    (left as u64) * (right as u64)
}

impl Default for FakeProcessKiller {
    fn default() -> (killer: Self)
        ensures
            killer.sweeps@.len() == 0,
            killer.killed_per_name == 0,
    {
        FakeProcessKiller::with_killed_per_name(0)
    }
}

/// Stand-in when the killer is not compiled in: every sweep fails, so that the
/// finalizer's log says that cleanup did not happen.
#[derive(Debug, Clone, Copy, PartialEq, Eq, Structural)]
pub struct UnavailableProcessKiller;

impl UnavailableProcessKiller {
    /// Always refuses.
    pub fn kill_by_image_names(&self, image_names: &Vec<String>) -> (outcome: Result<KillOutcome, String>)
        ensures
            outcome matches Err(reason) && reason@
                == "process killer unavailable (build with --features killer on Windows)"@,
    {
        Err("process killer unavailable (build with --features killer on Windows)".to_owned())
    }
}

} // verus!
