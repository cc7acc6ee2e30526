//! A cell for values that the hardware may observe: every access goes through
//! an explicit read or write operation, never through a plain reference.
use vstd::prelude::*;

verus! {

/// A wrapper type around a variable that confines access to explicit
/// `read` and `write` operations on the contained value. The stored type
/// needs to be `Copy`, as reads and writes take and return copies.
#[derive(Debug, Clone, Copy)]
pub struct Volatile<T: Copy>(pub T);

impl<T: Copy> Volatile<T> {
    /// Construct a new volatile instance wrapping the given value.
    pub fn new(value: T) -> (r: Volatile<T>)
        ensures
            r.0 == value,
    {
        Volatile(value)
    }

    /// Reads the contained value, returning a copy.
    pub fn read(&self) -> (r: T)
        ensures
            r == self.0,
    {
        self.0
    }

    /// Writes the given value into the cell.
    pub fn write(&mut self, value: T)
        ensures
            final(self).0 == value,
    {
        self.0 = value;
    }

    /// Reads the contained value, applies the given function to it, and
    /// writes the result back into the cell.
    pub fn update<F: FnOnce(T) -> T>(&mut self, f: F)
        requires
            call_requires(f, (old(self).0,)),
        ensures
            call_ensures(f, (old(self).0,), final(self).0),
    {
        let value = self.read();
        let new_value = f(value);
        self.write(new_value);
    }
}

} // verus!
