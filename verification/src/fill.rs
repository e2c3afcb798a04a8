use vstd::prelude::*;

verus! {

/// A vector holding `count` copies of `value`: the machine's fixed-size
/// buffers (memory, framebuffer, key latch, register file) all start this way.
pub fn filled<T: Copy>(value: T, count: usize) -> (v: Vec<T>)
    ensures
        v@ == Seq::new(count as nat, |i: int| value),
{
    let mut v: Vec<T> = Vec::new();
    while v.len() < count
        invariant
            v@.len() <= count,
            forall|i: int| 0 <= i < v@.len() ==> v@[i] == value,
        decreases count - v.len(),
    {
        v.push(value);
    }
    proof {
        assert(v@ =~= Seq::new(count as nat, |i: int| value));
    }
    v
}

} // verus!
