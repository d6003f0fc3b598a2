use vstd::prelude::*;

verus! {

/// A source location inside the annotation text, as a half-open offset range.
/// Every directive a resolver consumes carries one, so that each diagnostic
/// can point at the directive(s) responsible.
#[derive(Clone, Copy, Debug, PartialEq, Eq, Structural)]
pub struct Span {
    pub lo: u32,
    pub hi: u32,
}

pub open spec fn spec_join(a: Span, b: Span) -> Span {
    Span {
        lo: if a.lo <= b.lo {
            a.lo
        } else {
            b.lo
        },
        hi: if a.hi >= b.hi {
            a.hi
        } else {
            b.hi
        },
    }
}

impl Span {
    /// The smallest span covering both `self` and `other`; used when two
    /// directives jointly cause one violation.
    pub fn join(self, other: Span) -> (r: Span)
        ensures
            r == spec_join(self, other),
    {
        Span {
            lo: if self.lo <= other.lo {
                self.lo
            } else {
                other.lo
            },
            hi: if self.hi >= other.hi {
                self.hi
            } else {
                other.hi
            },
        }
    }
}

} // verus!
