//! Shared ownership of a native resource: a count of its holders, and the
//! one moment at which the resource is to be torn down.

use vstd::prelude::*;

verus! {

/// What a share count holds.
pub struct SharedView {
    /// The address of the native resource; zero stands for the process-wide
    /// one, which is never torn down.
    pub raw: usize,
    /// How many holders the resource has.
    pub holders: nat,
}

/// A step in the life of a shared resource.
#[derive(Debug, Clone, Copy, PartialEq, Eq, Structural)]
pub enum ShareStep {
    /// A holder hands the resource to one more holder.
    Retain,
    /// A holder lets go of the resource.
    Release,
}

impl SharedView {
    /// The count after one more holder has joined: a resource without
    /// holders is gone and takes none, and the count does not pass the
    /// largest that fits.
    pub open spec fn retained(self) -> SharedView {
        if 0 < self.holders < usize::MAX {
            SharedView { holders: self.holders + 1, ..self }
        } else {
            self
        }
    }

    /// The count after a holder has let go.
    pub open spec fn released(self) -> SharedView {
        if self.holders > 0 {
            SharedView { holders: (self.holders - 1) as nat, ..self }
        } else {
            self
        }
    }

    /// Whether the resource is to be torn down when a holder lets go now:
    /// when that holder is the last, and the resource is not the
    /// process-wide one.
    pub open spec fn tears_down(self) -> bool {
        self.holders == 1 && self.raw != 0
    }

    /// The count after a step.
    pub open spec fn after(self, step: ShareStep) -> SharedView {
        match step {
            ShareStep::Retain => self.retained(),
            ShareStep::Release => self.released(),
        }
    }

    /// The count after a sequence of steps.
    pub open spec fn after_all(self, steps: Seq<ShareStep>) -> SharedView
        decreases steps.len(),
    {
        if steps.len() == 0 {
            self
        } else {
            self.after_all(steps.drop_last()).after(steps.last())
        }
    }

    /// How often a sequence of steps had the resource torn down.
    pub open spec fn teardowns(self, steps: Seq<ShareStep>) -> nat
        decreases steps.len(),
    {
        if steps.len() == 0 {
            0
        } else {
            let before = self.after_all(steps.drop_last());
            let now: nat = if steps.last() == ShareStep::Release && before.tears_down() {
                1
            } else {
                0
            };
            self.teardowns(steps.drop_last()) + now
        }
    }
}

/// The count of the holders of one native resource.
#[derive(Debug, PartialEq, Eq)]
pub struct Shared {
    raw: usize,
    holders: usize,
}

impl View for Shared {
    type V = SharedView;

    closed spec fn view(&self) -> SharedView {
        SharedView { raw: self.raw, holders: self.holders as nat }
    }
}

impl Shared {
    /// Starts the count of a resource with its first holder.
    pub fn new(raw: usize) -> (s: Shared)
        ensures
            s@ == (SharedView { raw, holders: 1 }),
    {
        Shared { raw, holders: 1 }
    }

    /// Gets the address of the resource.
    pub fn as_raw(&self) -> (raw: usize)
        ensures
            raw == self@.raw,
    {
        self.raw
    }

    /// Gets the number of holders.
    pub fn holders(&self) -> (n: usize)
        ensures
            n == self@.holders,
    {
        self.holders
    }

    /// Tells whether the resource still has a holder.
    pub fn is_alive(&self) -> (r: bool)
        ensures
            r <==> self@.holders > 0,
    {
        self.holders > 0
    }

    /// Counts one more holder. The result tells whether the holder was
    /// counted: a resource without holders takes none, nor does one whose
    /// count is the largest that fits.
    pub fn retain(&mut self) -> (counted: bool)
        ensures
            counted <==> 0 < old(self)@.holders < usize::MAX,
            final(self)@ == old(self)@.retained(),
    {
        if self.holders > 0 && self.holders < usize::MAX {
            self.holders = self.holders + 1;
            true
        } else {
            false
        }
    }

    /// Counts one holder less. The result is the address of the resource
    /// where it is to be torn down now: when the last holder has let go of a
    /// resource other than the process-wide one. Letting go of a resource
    /// without holders changes nothing.
    pub fn release(&mut self) -> (teardown: Option<usize>)
        ensures
            final(self)@ == old(self)@.released(),
            old(self)@.tears_down() ==> teardown == Some(old(self)@.raw),
            !old(self)@.tears_down() ==> teardown is None,
    {
        if self.holders == 0 {
            None
        } else {
            self.holders = self.holders - 1;
            if self.holders == 0 && self.raw != 0 {
                Some(self.raw)
            } else {
                None
            }
        }
    }
}

/// Whatever the holders of a resource do, in whatever order: the resource
/// is torn down at most once; it is torn down exactly when it has lost its
/// last holder and is not the process-wide one; while it has a holder it has
/// not been torn down; and once it has none it never has one again.
pub proof fn lemma_torn_down_exactly_once(start: SharedView, steps: Seq<ShareStep>)
    ensures
        start.teardowns(steps) <= 1,
        start.after_all(steps).raw == start.raw,
        start.holders > 0 ==> (start.teardowns(steps) == 1 <==> start.after_all(steps).holders == 0
            && start.raw != 0),
        start.holders == 0 ==> start.teardowns(steps) == 0 && start.after_all(steps) == start,
        start.raw == 0 ==> start.teardowns(steps) == 0,
        start.after_all(steps).holders > 0 ==> start.teardowns(steps) == 0,
    decreases steps.len(),
{
    if steps.len() > 0 {
        lemma_torn_down_exactly_once(start, steps.drop_last());
    }
}

/// A holder keeps the resource alive: while more holders have joined than
/// have let go, counted from any moment at which the resource was alive, it
/// still has a holder. So a device that was taken from a list stays valid
/// when the list lets go of it.
pub proof fn lemma_holder_keeps_alive(start: SharedView)
    requires
        0 < start.holders < usize::MAX,
    ensures
        start.retained().released() == start,
        start.retained().released().holders > 0,
        !start.retained().tears_down(),
{
}

} // verus!
