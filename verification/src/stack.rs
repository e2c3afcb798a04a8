use vstd::prelude::*;

use crate::error::Chip8Error;
use crate::fill::filled;

verus! {

/// How many return addresses the call stack can hold.
pub const STACK_SIZE: usize = 16;

/// The fixed-depth return-address stack. Only subroutine calls push onto
/// it and only returns pop from it; running past either end is fatal for
/// the session rather than a recoverable condition.
pub struct Stack {
    pub data: Vec<u16>,
    pub sp: usize,
}

impl View for Stack {
    type V = Seq<u16>;

    open spec fn view(&self) -> Seq<u16> {
        self.data@.take(self.sp as int)
    }
}

impl Stack {
    pub open spec fn wf(&self) -> bool {
        &&& self.data@.len() == 16
        &&& self.sp <= 16
    }

    pub fn new() -> (r: Self)
        ensures
            r.wf(),
            r@ == Seq::<u16>::empty(),
            r.sp == 0,
    {
        let r = Stack { data: filled(0, STACK_SIZE), sp: 0 };
        proof {
            assert(r@ =~= Seq::<u16>::empty());
        }
        r
    }

    /// Push a return address; a push onto a full stack reports overflow
    /// and leaves the stack as it was.
    pub fn push(&mut self, value: u16) -> (r: Result<(), Chip8Error>)
        requires
            old(self).wf(),
        ensures
            final(self).wf(),
            old(self)@.len() < 16 ==> r is Ok && final(self)@ == old(self)@.push(value),
            old(self)@.len() >= 16 ==> r == Err::<(), Chip8Error>(Chip8Error::StackOverflow)
                && final(self)@ == old(self)@,
    {
        if self.sp >= STACK_SIZE {
            return Err(Chip8Error::StackOverflow);
        }
        self.data.set(self.sp, value);
        self.sp = self.sp + 1;
        proof {
            assert(self@ =~= old(self)@.push(value));
        }
        Ok(())
    }

    /// Pop the most recent return address; a pop from an empty stack
    /// reports underflow and leaves the stack as it was.
    pub fn pop(&mut self) -> (r: Result<u16, Chip8Error>)
        requires
            old(self).wf(),
        ensures
            final(self).wf(),
            old(self)@.len() > 0 ==> r == Ok::<u16, Chip8Error>(old(self)@.last())
                && final(self)@ == old(self)@.drop_last(),
            old(self)@.len() == 0 ==> r == Err::<u16, Chip8Error>(Chip8Error::StackUnderflow)
                && final(self)@ == old(self)@,
    {
        if self.sp == 0 {
            return Err(Chip8Error::StackUnderflow);
        }
        self.sp = self.sp - 1;
        let value = self.data[self.sp];
        proof {
            assert(self@ =~= old(self)@.drop_last());
        }
        Ok(value)
    }
}

} // verus!
