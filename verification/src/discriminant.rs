//! Field-less enums seen through their backing integers.

use vstd::prelude::*;

verus! {

/// A field-less enum whose variants are numbered by distinct backing values.
pub trait Enum: Sized {
    /// The integer type that backs the enum.
    type Discriminant;

    /// A backing value as a mathematical integer.
    spec fn value_of(d: Self::Discriminant) -> int;

    /// The backing value of a variant.
    spec fn discriminant(self) -> int;

    /// The smallest backing value of any variant.
    fn min() -> (d: Self::Discriminant)
        ensures
            forall|v: Self| Self::value_of(d) <= #[trigger] v.discriminant(),
            exists|v: Self| Self::value_of(d) == #[trigger] v.discriminant(),
    ;

    /// The largest backing value of any variant.
    fn max() -> (d: Self::Discriminant)
        ensures
            forall|v: Self| #[trigger] v.discriminant() <= Self::value_of(d),
            exists|v: Self| Self::value_of(d) == #[trigger] v.discriminant(),
    ;

    /// No two variants share a backing value.
    proof fn variants_are_distinct(a: Self, b: Self)
        requires
            a.discriminant() == b.discriminant(),
        ensures
            a == b,
    ;
}

/// Moving between the variants of an [`Enum`] by backing value.
pub trait FromDiscriminant: Enum {
    /// The variant whose backing value is `d`, or `None` where no variant has
    /// that value.
    fn from_discriminant(d: Self::Discriminant) -> (v: Option<Self>)
        ensures
            match v {
                Some(x) => x.discriminant() == Self::value_of(d),
                None => forall|x: Self| #[trigger] x.discriminant() != Self::value_of(d),
            },
    ;

    /// The variant whose backing value is one more than that of `self`, or
    /// `None` where there is none.
    fn next(self) -> (v: Option<Self>)
        ensures
            match v {
                Some(x) => x.discriminant() == self.discriminant() + 1,
                None => forall|x: Self| #[trigger] x.discriminant() != self.discriminant() + 1,
            },
    ;

    /// The variant whose backing value is one less than that of `self`, or
    /// `None` where there is none.
    fn previous(self) -> (v: Option<Self>)
        ensures
            match v {
                Some(x) => x.discriminant() == self.discriminant() - 1,
                None => forall|x: Self| #[trigger] x.discriminant() != self.discriminant() - 1,
            },
    ;
}

} // verus!
