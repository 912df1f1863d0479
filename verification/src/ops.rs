use vstd::prelude::*;

verus! {

/// The fixed set of reducer operations a task can ask for.
///
/// Each operation is a pure function over a non-empty sequence of
/// small integers; `spec_apply` is its mathematical meaning and
/// `apply` the executable form, proved equal to it.
#[derive(Debug, Clone, Copy, PartialEq, Eq, Structural)]
pub enum TaskOp {
    Max,
    Min,
}

/// Largest element of a non-empty sequence.
pub open spec fn seq_max(s: Seq<i8>) -> i8
    recommends
        s.len() > 0,
    decreases s.len(),
{
    if s.len() <= 1 {
        s[0]
    } else if s.last() >= seq_max(s.drop_last()) {
        s.last()
    } else {
        seq_max(s.drop_last())
    }
}

/// Smallest element of a non-empty sequence.
pub open spec fn seq_min(s: Seq<i8>) -> i8
    recommends
        s.len() > 0,
    decreases s.len(),
{
    if s.len() <= 1 {
        s[0]
    } else if s.last() <= seq_min(s.drop_last()) {
        s.last()
    } else {
        seq_min(s.drop_last())
    }
}

impl TaskOp {
    /// Mathematical meaning of the operation on a non-empty operand sequence.
    pub open spec fn spec_apply(self, s: Seq<i8>) -> i8
        recommends
            s.len() > 0,
    {
        match self {
            TaskOp::Max => seq_max(s),
            TaskOp::Min => seq_min(s),
        }
    }

    /// Reduce a non-empty operand list to the operation's result.
    pub fn apply(&self, args: &Vec<i8>) -> (r: i8)
        requires
            args@.len() > 0,
        ensures
            r == self.spec_apply(args@),
    {
        let mut best: i8 = args[0];
        let mut i: usize = 1;
        while i < args.len()
            invariant
                1 <= i <= args@.len(),
                best == self.spec_apply(args@.take(i as int)),
            decreases args@.len() - i,
        {
            let x = args[i];
            match self {
                TaskOp::Max => {
                    if x > best {
                        best = x;
                    }
                },
                TaskOp::Min => {
                    if x < best {
                        best = x;
                    }
                },
            }
            proof {
                assert(args@.take(i + 1).drop_last() =~= args@.take(i as int));
                assert(args@.take(i + 1).last() == args@[i as int]);
            }
            i = i + 1;
        }
        proof {
            assert(args@.take(args@.len() as int) =~= args@);
        }
        best
    }
}

} // verus!
