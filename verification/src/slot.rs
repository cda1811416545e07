//! The outbound slot: the one text that the PC currently offers to the phone.

use vstd::prelude::*;

verus! {

/// The slot after the writes `writes`, given in their order: the last text
/// written, or what the slot held where nothing was written.
pub open spec fn slot_after(held: Seq<char>, writes: Seq<Seq<char>>) -> Seq<char> {
    if writes.len() == 0 {
        held
    } else {
        writes.last()
    }
}

/// A cell that holds one text. A write replaces the text whole; a read copies
/// it. Whoever shares the cell between threads keeps it behind a lock and
/// holds the lock for the length of one call.
pub struct OutboundSlot {
    text: String,
}

impl View for OutboundSlot {
    type V = Seq<char>;

    closed spec fn view(&self) -> Seq<char> {
        self.text@
    }
}

impl OutboundSlot {
    /// The slot at startup: it holds the empty text.
    pub fn new() -> (slot: OutboundSlot)
        ensures
            slot@ == Seq::<char>::empty(),
    {
        OutboundSlot { text: String::new() }
    }

    /// Replaces what the slot holds by `text`.
    pub fn write(&mut self, text: String)
        ensures
            final(self)@ == text@,
            final(self)@ == slot_after(old(self)@, seq![text@]),
    {
        self.text = text;
    }

    /// A copy of what the slot holds.
    pub fn read(&self) -> (text: String)
        ensures
            text@ == self@,
    {
        self.text.clone()
    }
}

/// Of two writes with no read between them, a later read sees the second.
pub proof fn lemma_last_write_wins(held: Seq<char>, a: Seq<char>, b: Seq<char>)
    ensures
        slot_after(slot_after(held, seq![a]), seq![b]) == b,
        slot_after(held, seq![a, b]) == b,
{
}

/// A read sees the last of any run of writes, whatever was written before
/// it.
pub proof fn lemma_read_sees_last_write(held: Seq<char>, writes: Seq<Seq<char>>, last: Seq<char>)
    ensures
        slot_after(held, writes.push(last)) == last,
        slot_after(slot_after(held, writes), seq![last]) == last,
{
}

} // verus!
