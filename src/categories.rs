use vstd::prelude::*;

verus! {

/// How much money someone has.
#[derive(Clone, Copy, Debug, PartialEq, Eq, Structural)]
pub enum Status {
    Rich,
    Poor,
}

/// What someone does for a living.
#[derive(Clone, Copy, Debug, PartialEq, Eq, Structural)]
pub enum Work {
    Civilian,
    Soldier,
}

/// Small numbers, valued by their position: the first is zero.
#[derive(Clone, Copy, Debug, PartialEq, Eq, Structural)]
pub enum Number {
    Zero,
    One,
    Two,
}

/// Colors, valued by their RGB code.
#[derive(Clone, Copy, Debug, PartialEq, Eq, Structural)]
pub enum Color {
    Red,
    Green,
    Blue,
}

impl Status {
    /// The sentence said of people of this status.
    pub open spec fn spec_motto(self) -> Seq<char> {
        match self {
            Status::Rich => "The rich have lots of money!"@,
            Status::Poor => "The poor have no money..."@,
        }
    }

    /// Returns the sentence said of people of this status.
    pub fn motto(&self) -> (r: &'static str)
        ensures
            r@ == self.spec_motto(),
    {
        match self {
            Status::Rich => "The rich have lots of money!",
            Status::Poor => "The poor have no money...",
        }
    }
}

impl Work {
    /// The sentence said of people doing this work.
    pub open spec fn spec_motto(self) -> Seq<char> {
        match self {
            Work::Civilian => "Civilians work!"@,
            Work::Soldier => "Soldiers fight!"@,
        }
    }

    /// Returns the sentence said of people doing this work.
    pub fn motto(&self) -> (r: &'static str)
        ensures
            r@ == self.spec_motto(),
    {
        match self {
            Work::Civilian => "Civilians work!",
            Work::Soldier => "Soldiers fight!",
        }
    }
}

impl Number {
    /// The position of the variant, counted from zero.
    pub open spec fn value(self) -> int {
        match self {
            Number::Zero => 0,
            Number::One => 1,
            Number::Two => 2,
        }
    }

    /// Returns the numeric value of the variant.
    pub fn as_i32(&self) -> (r: i32)
        ensures
            r == self.value(),
    {
        match self {
            Number::Zero => 0,
            Number::One => 1,
            Number::Two => 2,
        }
    }
}

impl Color {
    /// The RGB code of the color: red, green and blue bytes, red the most significant.
    pub open spec fn value(self) -> int {
        match self {
            Color::Red => 0xff0000,
            Color::Green => 0x00ff00,
            Color::Blue => 0x0000ff,
        }
    }

    /// Returns the RGB code of the color.
    pub fn as_i32(&self) -> (r: i32)
        ensures
            r == self.value(),
    {
        match self {
            Color::Red => 0xff0000,
            Color::Green => 0x00ff00,
            Color::Blue => 0x0000ff,
        }
    }
}

} // verus!
