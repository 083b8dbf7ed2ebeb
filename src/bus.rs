//! The transport that a controller drives, and the record of what it carried.
use vstd::prelude::*;
use vstd::std_specs::iter::IteratorSpec;

verus! {

/// One transaction carried out by a bus, as seen from the controller's side.
pub enum BusEvent {
    /// A command opcode followed by the given parameter bytes.
    Write(u8, Seq<u8>),
    /// A command opcode with the buffer handed to the bus (first), and the
    /// bytes that were clocked back into it (second).
    Read(u8, Seq<u8>, Seq<u8>),
    /// Pixel words streamed to graphics memory, with no command framing.
    WriteMemory(Seq<u32>),
    /// Pixel words read back from graphics memory, with no command framing.
    ReadMemory(Seq<u32>),
}

/// The hardware interface (SPI, 8/9/16/18-bit parallel, memory mapped, ...)
/// that carries commands and pixel data to the panel controller.
///
/// An implementation keeps, as its specification, the sequence of
/// transactions it has carried out; every operation appends exactly one.
pub trait Interface {
    /// The transactions carried out so far, oldest first.
    ///
    /// An implementation that is verified defines it; one that is not
    /// leaves it unspecified.
    closed spec fn history(&self) -> Seq<BusEvent> {
        arbitrary()
    }

    /// Sends `command` followed by `data` (possibly empty) as one transaction.
    fn write_parameters(&mut self, command: u8, data: &[u8])
        ensures
            final(self).history() == old(self).history().push(BusEvent::Write(command, data@)),
    ;

    /// Streams pixel words to graphics memory.
    fn write_memory<I>(&mut self, iterable: I) where I: Iterator<Item = u32>
        ensures
            final(self).history().len() == old(self).history().len() + 1,
            final(self).history().drop_last() == old(self).history(),
            final(self).history().last() is WriteMemory,
            iterable.obeys_prophetic_iter_laws() ==> final(self).history().last()
                == BusEvent::WriteMemory(iterable.remaining()),
    ;

    /// Sends `command`, then fills `data` with the bytes clocked back.
    fn read_parameters(&mut self, command: u8, data: &mut [u8])
        ensures
            final(data)@.len() == old(data)@.len(),
            final(self).history() == old(self).history().push(
                BusEvent::Read(command, old(data)@, final(data)@),
            ),
    ;

    /// Fills `data` with pixel words read back from graphics memory.
    fn read_memory(&mut self, data: &mut [u32])
        ensures
            final(data)@.len() == old(data)@.len(),
            final(self).history() == old(self).history().push(BusEvent::ReadMemory(final(data)@)),
    ;
}

} // verus!
