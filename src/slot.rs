use crate::source::{read_step, LineRead, LineSource, SourceView};
use vstd::prelude::*;

verus! {

/// Holds at most one active line source. Installing a source replaces and
/// drops the one held before.
pub struct ReaderSlot {
    active: Option<LineSource>,
}

impl View for ReaderSlot {
    type V = Option<SourceView>;

    closed spec fn view(&self) -> Option<SourceView> {
        match self.active {
            Some(s) => Some(s@),
            None => None,
        }
    }
}

/// The slot's state after `c` is installed over `prev`.
pub open spec fn installed(prev: Option<SourceView>, c: SourceView) -> Option<SourceView> {
    Some(c)
}

impl ReaderSlot {
    /// An empty slot: nothing is installed yet.
    pub fn new() -> (r: ReaderSlot)
        ensures
            r@ is None,
    {
        ReaderSlot { active: None }
    }

    pub fn is_installed(&self) -> (r: bool)
        ensures
            r == self@ is Some,
    {
        self.active.is_some()
    }

    /// Reads one line from the active source.
    pub fn read_line(&mut self) -> (r: LineRead)
        requires
            old(self)@ is Some,
        ensures
            final(self)@ is Some,
            (r@, final(self)@->0) == read_step(old(self)@->0),
    {
        let mut s = self.active.take().unwrap();
        let r = s.read_line();
        self.active = Some(s);
        r
    }

    /// Hands characters delivered by the active source's backend to it.
    pub fn feed(&mut self, chunk: &str)
        requires
            old(self)@ is Some,
        ensures
            final(self)@ is Some,
            final(self)@->0.kind == old(self)@->0.kind,
            final(self)@->0.ended == old(self)@->0.ended,
            final(self)@->0.pending == if old(self)@->0.ended {
                old(self)@->0.pending
            } else {
                old(self)@->0.pending + chunk@
            },
    {
        let mut s = self.active.take().unwrap();
        s.feed(chunk);
        self.active = Some(s);
    }

    /// Records that the active source's backend has reached its end.
    pub fn finish(&mut self)
        requires
            old(self)@ is Some,
        ensures
            final(self)@ == Some(SourceView { ended: true, ..old(self)@->0 }),
    {
        let mut s = self.active.take().unwrap();
        s.finish();
        self.active = Some(s);
    }
}

/// Installs `reader` as the active source, dropping whatever was installed.
pub fn init_reader(slot: &mut ReaderSlot, reader: LineSource)
    ensures
        final(slot)@ == installed(old(slot)@, reader@),
        final(slot)@ == Some(reader@),
{
    slot.active = Some(reader);
}

/// The active source. Asking before anything was installed is not allowed:
/// there is no default source.
pub fn get_reader(slot: &ReaderSlot) -> (r: &LineSource)
    requires
        slot@ is Some,
    ensures
        Some(r@) == slot@,
{
    slot.active.as_ref().unwrap()
}

/// Right after `c` is installed, the active source is `c`, whatever was
/// installed before.
pub proof fn law_current_after_install(prev: Option<SourceView>, c: SourceView)
    ensures
        installed(prev, c) == Some(c),
{
}

/// Installing `c` discards the previous source entirely: two slots that held
/// different sources agree after `c` is installed, and so every read after
/// it gives the same lines as a read from `c`.
pub proof fn law_install_discards_previous(
    prev_a: Option<SourceView>,
    prev_b: Option<SourceView>,
    c: SourceView,
)
    ensures
        installed(prev_a, c) == installed(prev_b, c),
        read_step(installed(prev_a, c)->0) == read_step(c),
{
}

} // verus!
