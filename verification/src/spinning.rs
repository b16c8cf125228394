//! The spinning description: a schedule of nodes to take up or down as a
//! run progresses, and the decisions it yields step by step. Driving real
//! node handles up or down is the shell's work; the library computes which
//! indices each step acts on.

use vstd::prelude::*;

verus! {

/// Error of the spinning schedule.
#[derive(Clone, Copy, Debug, PartialEq, Eq, Structural)]
pub struct SpinningTaskErr {}

/// Spin a node up or down.
#[derive(Clone, Copy, Debug, PartialEq, Eq, Structural)]
pub enum UpDown {
    /// Spin the node up.
    Up,
    /// Spin the node down.
    Down,
}

/// A change of one node's state.
#[derive(Clone, Copy, Debug, PartialEq, Eq, Structural)]
pub struct ChangeNode {
    /// Index of the node.
    pub idx: usize,
    /// View on which to take the action.
    pub view: usize,
    /// Whether to spin the node up or down.
    pub updown: UpDown,
}

/// The schedule: for each step, a delay in milliseconds and the changes to
/// apply after it.
#[derive(Clone, Debug, PartialEq, Eq)]
pub struct SpinningTaskDescription {
    pub node_changes: Vec<(u64, Vec<ChangeNode>)>,
}

/// The node indices a batch of changes takes down.
pub open spec fn spec_down_indices(changes: Seq<ChangeNode>) -> Seq<usize>
    decreases changes.len(),
{
    if changes.len() == 0 {
        Seq::empty()
    } else {
        let rest = spec_down_indices(changes.drop_last());
        if changes.last().updown is Down {
            rest.push(changes.last().idx)
        } else {
            rest
        }
    }
}

impl SpinningTaskDescription {
    /// The delays of the schedule's steps, in order.
    pub fn sleep_durations(&self) -> (r: Vec<u64>)
        ensures
            r@.len() == self.node_changes@.len(),
            forall|i: int| 0 <= i < r@.len() ==> r@[i] == self.node_changes@[i].0,
    {
        let mut r: Vec<u64> = Vec::new();
        let mut i: usize = 0;
        while i < self.node_changes.len()
            invariant
                0 <= i <= self.node_changes@.len(),
                r@.len() == i,
                forall|j: int| 0 <= j < i ==> r@[j] == self.node_changes@[j].0,
            decreases self.node_changes@.len() - i,
        {
            r.push(self.node_changes[i].0);
            i = i + 1;
        }
        r
    }
}

/// The indices of the nodes a batch of changes shuts down, in order.
pub fn down_indices(changes: &Vec<ChangeNode>) -> (r: Vec<usize>)
    ensures
        r@ == spec_down_indices(changes@),
{
    let mut r: Vec<usize> = Vec::new();
    let mut i: usize = 0;
    while i < changes.len()
        invariant
            0 <= i <= changes@.len(),
            r@ == spec_down_indices(changes@.subrange(0, i as int)),
        decreases changes@.len() - i,
    {
        let c = changes[i];
        proof {
            assert(changes@.subrange(0, i as int + 1).drop_last() =~= changes@.subrange(
                0,
                i as int,
            ));
            assert(changes@.subrange(0, i as int + 1).last() == c);
        }
        match c.updown {
            UpDown::Down => {
                r.push(c.idx);
            },
            UpDown::Up => {},
        }
        i = i + 1;
    }
    proof {
        assert(changes@.subrange(0, changes@.len() as int) =~= changes@);
    }
    r
}

} // verus!
