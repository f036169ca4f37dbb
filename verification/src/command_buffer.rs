//! Bounded FIFO that assembles the parameters of one GP0 packet.

use vstd::prelude::*;

verus! {

broadcast use vstd::array::group_array_axioms;

/// Capacity of the buffer: the longest supported GP0 packet is 12 words.
pub const COMMAND_BUFFER_CAPACITY: usize = 12;

/// Fixed-capacity buffer holding the words of the GP0 command being
/// collected; its view is the sequence of queued words.
pub struct CommandBuffer {
    buffer: [u32; 12],
    len: u8,
}

impl View for CommandBuffer {
    type V = Seq<u32>;

    closed spec fn view(&self) -> Seq<u32> {
        self.buffer@.take(self.len as int)
    }
}

impl CommandBuffer {
    /// The queued length never exceeds the backing storage.
    #[verifier::type_invariant]
    closed spec fn capacity_inv(self) -> bool {
        self.len <= 12
    }

    /// Creates an empty buffer.
    pub fn new() -> (r: CommandBuffer)
        ensures
            r@ == Seq::<u32>::empty(),
    {
        let r = CommandBuffer { buffer: [0; 12], len: 0 };
        proof {
            assert(r@ =~= Seq::<u32>::empty());
        }
        r
    }

    /// Drops every queued word.
    pub fn clear(&mut self)
        ensures
            final(self)@ == Seq::<u32>::empty(),
    {
        proof {
            use_type_invariant(&*self);
        }
        self.len = 0;
        proof {
            assert(self@ =~= Seq::<u32>::empty());
        }
    }

    /// Appends one word; the capacity bounds every supported packet length.
    pub fn push_word(&mut self, word: u32)
        requires
            old(self)@.len() < COMMAND_BUFFER_CAPACITY,
        ensures
            final(self)@ == old(self)@.push(word),
    {
        proof {
            use_type_invariant(&*self);
        }
        self.buffer[self.len as usize] = word;
        self.len = self.len + 1;
        proof {
            assert(self@ =~= old(self)@.push(word));
        }
    }

    /// Number of queued words.
    pub fn len(&self) -> (r: usize)
        ensures
            r == self@.len(),
    {
        proof {
            use_type_invariant(self);
        }
        self.len as usize
    }

    /// The `index`-th queued word. Indexing at or past the length would be
    /// a miscount in the opcode-length table, so it is ruled out.
    pub fn index(&self, index: usize) -> (r: u32)
        requires
            index < self@.len(),
        ensures
            r == self@[index as int],
    {
        proof {
            use_type_invariant(self);
        }
        self.buffer[index]
    }
}

} // verus!
