//! Memory use of the browser: its own process and the processes it started (the web views).

use vstd::prelude::*;

verus! {

/// One process as the system reports it: its id, its parent's id, its resident memory in bytes.
#[derive(Debug, Clone, PartialEq, Eq)]
pub struct ProcessSample {
    pub pid: u32,
    pub parent: Option<u32>,
    pub memory: u64,
}

/// `p` is the browser process `current` or one of its children.
pub open spec fn in_tree(p: ProcessSample, current: u32) -> bool {
    p.pid == current || p.parent == Some(current)
}

/// The memory of the processes of `procs` that are `current` or its children.
pub open spec fn tree_memory(procs: Seq<ProcessSample>, current: u32) -> nat
    decreases procs.len(),
{
    if procs.len() == 0 {
        0
    } else {
        tree_memory(procs.drop_last(), current) + if in_tree(procs.last(), current) {
            procs.last().memory as nat
        } else {
            0
        }
    }
}

proof fn lemma_tree_memory_monotone(procs: Seq<ProcessSample>, current: u32, k: int)
    requires
        0 <= k <= procs.len(),
    ensures
        tree_memory(procs.take(k), current) <= tree_memory(procs, current),
    decreases procs.len() - k,
{
    if k < procs.len() {
        lemma_tree_memory_monotone(procs, current, k + 1);
        assert(procs.take(k + 1).drop_last() =~= procs.take(k));
    } else {
        assert(procs.take(k) =~= procs);
    }
}

/// Bytes used by the browser process `current_pid` and its child processes; `None` when the
/// total does not fit in 64 bits.
pub fn process_tree_bytes(current_pid: u32, procs: &Vec<ProcessSample>) -> (r: Option<u64>)
    ensures
        r == if tree_memory(procs@, current_pid) <= u64::MAX {
            Some(tree_memory(procs@, current_pid) as u64)
        } else {
            None::<u64>
        },
{
    let n = procs.len();
    let mut total: u64 = 0;
    let mut i: usize = 0;
    while i < n
        invariant
            n == procs@.len(),
            i <= n,
            total == tree_memory(procs@.take(i as int), current_pid),
        decreases n - i,
    {
        let p = &procs[i];
        assert(procs@.take(i + 1).drop_last() =~= procs@.take(i as int));
        if p.pid == current_pid || p.parent == Some(current_pid) {
            match total.checked_add(p.memory) {
                Some(t) => {
                    total = t;
                },
                None => {
                    proof {
                        lemma_tree_memory_monotone(procs@, current_pid, i + 1);
                    }
                    return None;
                },
            }
        }
        i = i + 1;
    }
    assert(procs@.take(n as int) =~= procs@);
    Some(total)
}

} // verus!
