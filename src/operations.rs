use vstd::prelude::*;

verus! {

/// The two arithmetic operations that can be applied to a pair of numbers.
#[derive(Clone, Copy, Debug, PartialEq, Eq, Structural)]
pub enum VeryVerboseEnumOfThingsToDoWithNumbers {
    Add,
    Subtract,
}

/// A shorter name for the operation tags.
pub type Operations = VeryVerboseEnumOfThingsToDoWithNumbers;

impl VeryVerboseEnumOfThingsToDoWithNumbers {
    /// The mathematical result of applying the operation to `x` and `y`.
    pub open spec fn apply(self, x: int, y: int) -> int {
        match self {
            Self::Add => x + y,
            Self::Subtract => x - y,
        }
    }

    /// Applies the operation to `x` and `y`.
    pub fn run(&self, x: i32, y: i32) -> (r: i32)
        requires
            i32::MIN <= self.apply(x as int, y as int) <= i32::MAX,
        ensures
            r == self.apply(x as int, y as int),
    {
        match self {
            Self::Add => x + y,
            Self::Subtract => x - y,
        }
    }

    /// Applies the operation to `x` and `y`, then adds one.
    pub fn sp(&self, x: i32, y: i32) -> (r: i32)
        requires
            i32::MIN <= self.apply(x as int, y as int) + 1 <= i32::MAX,
        ensures
            r == self.apply(x as int, y as int) + 1,
    {
        let (a, b) = (x as i64, y as i64);
        let r = match self {
            Self::Add => 1 + a + b,
            Self::Subtract => 1 + a - b,
        };
        r as i32
    }
}

} // verus!
