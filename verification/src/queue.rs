use vstd::prelude::*;

use crate::types::{opvs, FileOp, Priority};

verus! {

/// The priority dispatch queue: two first-in-first-out tiers of leaf
/// operations. The `Normal` tier is always drained before the `Low` tier;
/// within a tier, arrival order is kept. Producers are never blocked.
pub struct DispatchQueue {
    pub normal: Vec<FileOp>,
    pub low: Vec<FileOp>,
}

impl DispatchQueue {
    /// The mathematical contents of the elevated tier, front first.
    pub open spec fn normal_v(self) -> Seq<crate::types::OpV> {
        opvs(self.normal@)
    }

    /// The mathematical contents of the low tier, front first.
    pub open spec fn low_v(self) -> Seq<crate::types::OpV> {
        opvs(self.low@)
    }

    pub fn new() -> (q: DispatchQueue)
        ensures
            q.normal@.len() == 0,
            q.low@.len() == 0,
    {
        DispatchQueue { normal: Vec::new(), low: Vec::new() }
    }

    /// Appends one operation at the back of the given tier; the other tier is
    /// untouched.
    pub fn send(&mut self, op: FileOp, pri: Priority)
        ensures
            pri == Priority::Normal ==> final(self).normal@ == old(self).normal@.push(op)
                && final(self).low@ == old(self).low@,
            pri == Priority::Low ==> final(self).low@ == old(self).low@.push(op)
                && final(self).normal@ == old(self).normal@,
    {
        match pri {
            Priority::Normal => self.normal.push(op),
            Priority::Low => self.low.push(op),
        }
    }

    /// Takes the next operation: the front of the elevated tier when it is
    /// non-empty, else the front of the low tier, else nothing.
    pub fn recv(&mut self) -> (r: Option<FileOp>)
        ensures
            old(self).normal@.len() > 0 ==> r == Some(old(self).normal@[0])
                && final(self).normal@ == old(self).normal@.skip(1)
                && final(self).low@ == old(self).low@,
            old(self).normal@.len() == 0 && old(self).low@.len() > 0 ==> r == Some(old(self).low@[0])
                && final(self).low@ == old(self).low@.skip(1)
                && final(self).normal@ == old(self).normal@,
            old(self).normal@.len() == 0 && old(self).low@.len() == 0 ==> r is None
                && *final(self) == *old(self),
    {
        if self.normal.len() > 0 {
            let op = self.normal.remove(0);
            proof {
                assert(self.normal@ =~= old(self).normal@.skip(1));
            }
            Some(op)
        } else if self.low.len() > 0 {
            let op = self.low.remove(0);
            proof {
                assert(self.low@ =~= old(self).low@.skip(1));
            }
            Some(op)
        } else {
            None
        }
    }

    /// How many operations wait, over both tiers.
    pub fn len(&self) -> (n: usize)
        requires
            self.normal@.len() + self.low@.len() <= usize::MAX,
        ensures
            n == self.normal@.len() + self.low@.len(),
    {
        self.normal.len() + self.low.len()
    }

    pub fn is_empty(&self) -> (r: bool)
        ensures
            r == (self.normal@.len() == 0 && self.low@.len() == 0),
    {
        self.normal.len() == 0 && self.low.len() == 0
    }
}

} // verus!
