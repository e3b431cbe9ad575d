//! The long-lived device objects, released in the reverse of the order in
//! which they were created.
use vstd::prelude::*;

verus! {

/// The kinds of long-lived objects the presentation loop depends on.
#[derive(Clone, Copy, Debug, PartialEq, Eq, Structural)]
pub enum ResourceKind {
    Instance,
    DebugMessenger,
    Surface,
    Device,
    RenderPass,
    PipelineLayout,
    ShaderModule,
    Pipeline,
    CommandPool,
    Fence,
    Semaphore,
}

/// One object, by kind and raw handle.
#[derive(Clone, Copy, Debug, PartialEq, Eq, Structural)]
pub struct OwnedResource {
    pub kind: ResourceKind,
    pub handle: u64,
}

/// The objects in the order they were created.
#[derive(Debug)]
pub struct OwnershipStack {
    entries: Vec<OwnedResource>,
}

/// `s` last to first.
pub open spec fn reversed(s: Seq<OwnedResource>) -> Seq<OwnedResource> {
    Seq::new(s.len(), |i: int| s[s.len() - 1 - i])
}

impl View for OwnershipStack {
    type V = Seq<OwnedResource>;

    closed spec fn view(&self) -> Seq<OwnedResource> {
        self.entries@
    }
}

impl OwnershipStack {
    pub fn new() -> (r: OwnershipStack)
        ensures
            r@ == Seq::<OwnedResource>::empty(),
    {
        OwnershipStack { entries: Vec::new() }
    }

    /// Records an object just created.
    pub fn push(&mut self, kind: ResourceKind, handle: u64)
        ensures
            final(self)@ == old(self)@.push(OwnedResource { kind, handle }),
    {
        self.entries.push(OwnedResource { kind, handle });
    }

    pub fn len(&self) -> (r: usize)
        ensures
            r == self@.len(),
    {
        self.entries.len()
    }

    /// Gives the stack up, and lists its objects in the order to release
    /// them: the last created first.
    pub fn release_order(self) -> (r: Vec<OwnedResource>)
        ensures
            r@ == reversed(self@),
    {
        let mut out: Vec<OwnedResource> = Vec::new();
        let n = self.entries.len();
        let mut i: usize = n;
        while i > 0
            invariant
                i <= n,
                n == self@.len(),
                out@.len() == n - i,
                forall|j: int| 0 <= j < n - i ==> out@[j] == self@[n - 1 - j],
            decreases i,
        {
            i = i - 1;
            out.push(self.entries[i]);
        }
        assert(out@ =~= reversed(self@));
        out
    }
}

} // verus!
