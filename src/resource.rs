use vstd::prelude::*;

use crate::error::{fails_with, CaptureError, CaptureErrorKind};

verus! {

/// The kind of an OS graphics handle held during one capture.
#[derive(Debug, Clone, Copy, PartialEq, Eq, Structural)]
pub enum ResourceKind {
    /// A device context of a window or of the screen, given back with its window.
    WindowDc,
    /// A memory device context, deleted.
    MemoryDc,
    /// A compatible bitmap, deleted.
    Bitmap,
}

/// An acquired handle: its kind and its raw value (never zero).
#[derive(Debug, Clone, Copy, PartialEq, Eq, Structural)]
pub struct Resource {
    pub kind: ResourceKind,
    pub handle: usize,
}

/// The handles acquired so far in one capture, in order of acquisition.
/// They are handed back for release in the reverse order, each once.
#[derive(Debug)]
pub struct ReleaseStack {
    held: Vec<Resource>,
}

impl View for ReleaseStack {
    type V = Seq<Resource>;

    closed spec fn view(&self) -> Seq<Resource> {
        self.held@
    }
}

impl ReleaseStack {
    /// A stack that holds nothing.
    pub fn new() -> (r: ReleaseStack)
        ensures
            r@ == Seq::<Resource>::empty(),
    {
        ReleaseStack { held: Vec::new() }
    }

    /// The number of handles held.
    pub fn len(&self) -> (r: usize)
        ensures
            r == self@.len(),
    {
        self.held.len()
    }

    /// Records a handle that an acquisition returned. A zero handle is a
    /// failed acquisition: nothing is recorded and the result is
    /// `ResourceAcquisitionFailed`, carrying `os_code`.
    pub fn acquire(&mut self, kind: ResourceKind, handle: usize, os_code: u32) -> (r: Result<(), CaptureError>)
        ensures
            r is Ok <==> handle != 0,
            r is Ok ==> final(self)@ == old(self)@.push(Resource { kind, handle }),
            r is Err ==> final(self)@ == old(self)@ && fails_with(r, CaptureErrorKind::ResourceAcquisitionFailed)
                && r->Err_0.os_code == os_code,
    {
        if handle == 0 {
            Err(CaptureError::with_os_code(CaptureErrorKind::ResourceAcquisitionFailed, os_code))
        } else {
            self.held.push(Resource { kind, handle });
            Ok(())
        }
    }

    /// Takes the most recently acquired handle off the stack.
    pub fn pop(&mut self) -> (r: Option<Resource>)
        ensures
            old(self)@.len() == 0 ==> r is None && final(self)@ == old(self)@,
            old(self)@.len() > 0 ==> r == Some(old(self)@.last()) && final(self)@ == old(self)@.drop_last(),
    {
        self.held.pop()
    }

    /// Every held handle, the last acquired first: the order in which they
    /// are to be released.
    pub fn release_order(self) -> (r: Vec<Resource>)
        ensures
            r@ == self@.reverse(),
    {
        let mut held = self.held;
        let ghost orig = held@;
        let mut out: Vec<Resource> = Vec::new();
        while held.len() > 0
            invariant
                held@.len() + out@.len() == orig.len(),
                held@ == orig.subrange(0, held@.len() as int),
                forall|i: int| 0 <= i < out@.len() ==> out@[i] == orig[orig.len() - 1 - i],
            decreases held@.len(),
        {
            let r = held.pop().unwrap();
            out.push(r);
        }
        assert(out@ =~= orig.reverse());
        out
    }
}

/// Releasing in the order `release_order` gives hands back every acquired
/// handle exactly as often as it was acquired, none left over.
pub proof fn lemma_release_all_once(held: Seq<Resource>)
    ensures
        held.reverse().len() == held.len(),
        held.reverse().to_multiset() == held.to_multiset(),
        forall|i: int| 0 <= i < held.len() ==> held.reverse()[i] == held[held.len() - 1 - i],
{
    held.lemma_reverse_to_multiset();
}

} // verus!
