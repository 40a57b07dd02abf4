//! Failures and the rule that merges the failures of two alternatives.
use vstd::prelude::*;

verus! {

/// Why a filter did not produce values.
#[derive(Clone, Debug, PartialEq, Eq)]
pub enum Cause {
    /// Nothing matched; the least specific failure.
    NotFound,
    MethodNotAllowed,
    MissingHeader(String),
    InvalidHeader(String),
    InvalidQuery,
    InvalidBody,
    Custom(u64),
}

/// How specific a cause is: a mismatch of the request's shape outranks a plain
/// "not found", and malformed content outranks a mismatch.
pub open spec fn cause_rank(c: Cause) -> nat {
    match c {
        Cause::NotFound => 0,
        Cause::MethodNotAllowed => 1,
        Cause::MissingHeader(_) => 1,
        Cause::Custom(_) => 1,
        Cause::InvalidHeader(_) => 2,
        Cause::InvalidQuery => 2,
        Cause::InvalidBody => 2,
    }
}

impl Cause {
    /// A copy of this cause.
    pub fn duplicate(&self) -> (r: Cause)
        ensures
            r == *self,
    {
        match self {
            Cause::NotFound => Cause::NotFound,
            Cause::MethodNotAllowed => Cause::MethodNotAllowed,
            Cause::MissingHeader(h) => Cause::MissingHeader(h.clone()),
            Cause::InvalidHeader(h) => Cause::InvalidHeader(h.clone()),
            Cause::InvalidQuery => Cause::InvalidQuery,
            Cause::InvalidBody => Cause::InvalidBody,
            Cause::Custom(n) => Cause::Custom(*n),
        }
    }

    pub fn rank(&self) -> (r: u8)
        ensures
            r as nat == cause_rank(*self),
    {
        match self {
            Cause::NotFound => 0,
            Cause::MethodNotAllowed => 1,
            Cause::MissingHeader(_) => 1,
            Cause::Custom(_) => 1,
            Cause::InvalidHeader(_) => 2,
            Cause::InvalidQuery => 2,
            Cause::InvalidBody => 2,
        }
    }
}

/// A failure: the causes it can report, all of one rank.
#[derive(Clone, Debug, PartialEq, Eq)]
pub struct Rejection {
    pub causes: Vec<Cause>,
}

impl View for Rejection {
    type V = Seq<Cause>;

    open spec fn view(&self) -> Seq<Cause> {
        self.causes@
    }
}

/// The rank of a failure is the highest rank among its causes.
pub open spec fn rejection_rank(e: Seq<Cause>) -> nat
    decreases e.len(),
{
    if e.len() == 0 {
        0
    } else {
        let rest = rejection_rank(e.drop_last());
        if cause_rank(e.last()) > rest {
            cause_rank(e.last())
        } else {
            rest
        }
    }
}

/// A failure holds at least one cause, and all its causes share one rank.
pub open spec fn well_formed(e: Seq<Cause>) -> bool {
    &&& e.len() > 0
    &&& forall|i: int| 0 <= i < e.len() ==> #[trigger] cause_rank(e[i]) == rejection_rank(e)
}

/// The failure reported when two alternatives both fail: the more specific
/// one wins; of equal rank, both are kept, the first's causes first (two
/// plain "not found" failures stay one).
pub open spec fn combined(first: Seq<Cause>, second: Seq<Cause>) -> Seq<Cause> {
    let r1 = rejection_rank(first);
    let r2 = rejection_rank(second);
    if r1 > r2 {
        first
    } else if r2 > r1 {
        second
    } else if r1 == 0 {
        first
    } else {
        first + second
    }
}

impl Rejection {
    pub fn new(cause: Cause) -> (r: Rejection)
        ensures
            r@ == seq![cause],
            well_formed(r@),
    {
        let mut causes: Vec<Cause> = Vec::new();
        causes.push(cause);
        assert(causes@.drop_last() =~= Seq::<Cause>::empty());
        assert(rejection_rank(causes@.drop_last()) == 0);
        assert(causes@.last() == cause);
        assert(rejection_rank(causes@) == cause_rank(cause));
        assert(forall|i: int| 0 <= i < causes@.len() ==> causes@[i] == cause);
        Rejection { causes }
    }

    pub fn not_found() -> (r: Rejection)
        ensures
            r@ == seq![Cause::NotFound],
    {
        Rejection::new(Cause::NotFound)
    }

    pub fn rank(&self) -> (r: u8)
        ensures
            r as nat == rejection_rank(self@),
    {
        let mut best: u8 = 0;
        let mut i: usize = 0;
        while i < self.causes.len()
            invariant
                i <= self.causes@.len(),
                best as nat == rejection_rank(self.causes@.subrange(0, i as int)),
            decreases self.causes@.len() - i,
        {
            let ghost upto = self.causes@.subrange(0, i as int + 1);
            assert(upto.drop_last() =~= self.causes@.subrange(0, i as int));
            let c = self.causes[i].rank();
            if c > best {
                best = c;
            }
            i = i + 1;
        }
        assert(self.causes@.subrange(0, i as int) =~= self.causes@);
        best
    }

    /// Merges the failure of a first alternative with that of a second.
    pub fn combine(self, second: Rejection) -> (r: Rejection)
        ensures
            r@ == combined(self@, second@),
    {
        let r1 = self.rank();
        let r2 = second.rank();
        if r1 > r2 {
            self
        } else if r2 > r1 {
            second
        } else if r1 == 0 {
            self
        } else {
            let mut first = self;
            let mut second = second;
            first.causes.append(&mut second.causes);
            first
        }
    }
}

} // verus!
