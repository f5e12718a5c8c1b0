use vstd::prelude::*;
use crate::fault::Fault;

verus! {

/// Number of return addresses the call stack can hold.
pub const STACK_COUNT: usize = 16;

/// Fixed-capacity stack of return addresses.
pub struct Stack {
    stack: [u16; STACK_COUNT],
    stack_pointer: usize,
}

/// What was pushed last comes off first, and leaves the stack as it was.
pub proof fn lemma_push_then_pop(s: Seq<u16>, address: u16)
    ensures
        s.push(address).last() == address,
        s.push(address).drop_last() == s,
{
    assert(s.push(address).drop_last() =~= s);
}

impl Stack {
    /// The live entries, oldest first.
    pub closed spec fn view(&self) -> Seq<u16> {
        self.stack@.subrange(0, self.stack_pointer as int)
    }

    /// The stack pointer stays within the backing array.
    pub closed spec fn wf(&self) -> bool {
        self.stack_pointer <= STACK_COUNT
    }

    /// A well-formed stack never holds more than `STACK_COUNT` entries.
    pub proof fn lemma_depth_bounded(&self)
        requires
            self.wf(),
        ensures
            self@.len() <= STACK_COUNT,
    {
    }

    pub fn new() -> (s: Self)
        ensures
            s.wf(),
            s@ == Seq::<u16>::empty(),
    {
        Stack { stack: [0; STACK_COUNT], stack_pointer: 0 }
    }

    /// Whether no return address is on the stack.
    pub fn is_empty(&self) -> (empty: bool)
        requires
            self.wf(),
        ensures
            empty == (self@.len() == 0),
    {
        self.stack_pointer == 0
    }

    /// Whether the stack holds as many return addresses as it can.
    pub fn is_full(&self) -> (full: bool)
        requires
            self.wf(),
        ensures
            full == (self@.len() >= STACK_COUNT),
    {
        self.stack_pointer >= STACK_COUNT
    }

    /// Puts `address` on top, unless the stack is full.
    pub fn push(&mut self, address: u16) -> (r: Result<(), Fault>)
        requires
            old(self).wf(),
        ensures
            final(self).wf(),
            old(self)@.len() < STACK_COUNT ==> r == Ok::<(), Fault>(()) && final(self)@
                == old(self)@.push(address),
            old(self)@.len() >= STACK_COUNT ==> r == Err::<(), Fault>(Fault::StackOverflow)
                && final(self)@ == old(self)@,
    {
        if self.stack_pointer >= STACK_COUNT {
            return Err(Fault::StackOverflow);
        }
        self.stack[self.stack_pointer] = address;
        self.stack_pointer += 1;
        assert(self@ =~= old(self)@.push(address));
        Ok(())
    }

    /// Takes the top address off, unless the stack is empty.
    pub fn pop(&mut self) -> (r: Result<u16, Fault>)
        requires
            old(self).wf(),
        ensures
            final(self).wf(),
            old(self)@.len() > 0 ==> r == Ok::<u16, Fault>(old(self)@.last()) && final(self)@
                == old(self)@.drop_last(),
            old(self)@.len() == 0 ==> r == Err::<u16, Fault>(Fault::StackUnderflow) && final(self)@
                == old(self)@,
    {
        if self.stack_pointer == 0 {
            return Err(Fault::StackUnderflow);
        }
        self.stack_pointer -= 1;
        assert(self@ =~= old(self)@.drop_last());
        Ok(self.stack[self.stack_pointer])
    }
}

} // verus!
