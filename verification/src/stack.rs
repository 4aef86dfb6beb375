//! The call stack: return addresses, pushed by a call and popped by a return.

use vstd::prelude::*;

verus! {

/// The number of return addresses that the stack holds at most.
pub const STACK_DEPTH: usize = 50;

/// A stack of return addresses of fixed capacity.
///
/// The stack pointer counts two for each address held, and the address in
/// slot `k` lies at index `2 * k` of the backing array.
#[derive(Debug, Clone, Copy, PartialEq, Eq)]
pub struct Stack {
    memory: [u16; 100],
    sp: u8,
}

impl View for Stack {
    type V = Seq<u16>;

    /// The return addresses held, the oldest first.
    closed spec fn view(&self) -> Seq<u16> {
        Seq::new((self.sp / 2) as nat, |k: int| self.memory@[2 * k])
    }
}

impl Stack {
    #[verifier::type_invariant]
    spec fn inv(self) -> bool {
        self.sp % 2 == 0 && self.sp <= 100
    }

    /// An empty stack.
    pub fn new() -> (out: Stack)
        ensures
            out@ == Seq::<u16>::empty(),
    {
        Stack { memory: [0u16; 100], sp: 0 }
    }

    /// The number of return addresses held.
    pub fn depth(&self) -> (out: usize)
        ensures
            out == self@.len(),
            out <= STACK_DEPTH,
    {
        proof {
            use_type_invariant(self);
        }
        (self.sp / 2) as usize
    }

    /// Whether nothing is held: a return would underflow.
    pub fn is_empty(&self) -> (out: bool)
        ensures
            out == (self@.len() == 0),
    {
        proof {
            use_type_invariant(self);
        }
        self.sp == 0
    }

    /// Whether the stack is at capacity: a call would overflow.
    pub fn is_full(&self) -> (out: bool)
        ensures
            out == (self@.len() == STACK_DEPTH),
            self@.len() <= STACK_DEPTH,
    {
        proof {
            use_type_invariant(self);
        }
        self.sp >= 100
    }

    /// The address that the next return goes to, if there is one.
    pub fn top(&self) -> (out: Option<u16>)
        ensures
            out == (if self@.len() > 0 { Some(self@.last()) } else { None }),
    {
        proof {
            use_type_invariant(self);
        }
        if self.sp == 0 {
            None
        } else {
            Some(self.memory[(self.sp - 2) as usize])
        }
    }

    /// Pushes a return address. The stack must not be at capacity.
    pub fn push(&mut self, val: u16)
        requires
            old(self)@.len() < STACK_DEPTH,
        ensures
            final(self)@ == old(self)@.push(val),
    {
        proof {
            use_type_invariant(&*self);
        }
        self.memory[self.sp as usize] = val;
        self.sp += 2;
    }

    /// Pops the return address pushed last. The stack must not be empty.
    pub fn pop(&mut self) -> (out: u16)
        requires
            old(self)@.len() > 0,
        ensures
            out == old(self)@.last(),
            final(self)@ == old(self)@.drop_last(),
    {
        proof {
            use_type_invariant(&*self);
        }
        self.sp -= 2;
        self.memory[self.sp as usize]
    }
}

impl Default for Stack {
    /// An empty stack.
    fn default() -> (out: Stack)
        ensures
            out@ == Seq::<u16>::empty(),
    {
        Stack::new()
    }
}

} // verus!
