//! Progress of the operation in flight: unknown, or a fraction of a known total.

use vstd::prelude::*;

verus! {

/// A fraction between zero and one, kept as two byte counts.
#[derive(Debug, Clone, Copy, PartialEq, Eq)]
pub struct Fraction {
    numerator: u64,
    denominator: u64,
}

/// What the display shows while an operation runs.
#[derive(Debug, Clone, Copy, PartialEq, Eq)]
pub enum Progress {
    /// The total is not known yet.
    Indeterminate,
    /// A measurable step: the part of the total that is done.
    Determinate(Fraction),
}

/// The part of `total` that `received` covers, never more than the whole.
pub open spec fn clamped(received: nat, total: nat) -> nat {
    if received <= total {
        received
    } else {
        total
    }
}

impl Fraction {
    /// Bytes done, at most `den()`.
    pub closed spec fn num(self) -> nat {
        self.numerator as nat
    }

    /// Bytes in all.
    pub closed spec fn den(self) -> nat {
        self.denominator as nat
    }

    /// The fraction lies in `[0, 1]` and its total is not zero.
    pub open spec fn wf(self) -> bool {
        0 < self.den() && self.num() <= self.den()
    }

    #[verifier::type_invariant]
    closed spec fn inv(self) -> bool {
        self.wf()
    }

    /// `received / total`, clamped to one. There is no fraction of an empty total.
    pub fn new(received: u64, total: u64) -> (r: Option<Fraction>)
        ensures
            r is Some <==> total > 0,
            r matches Some(f) ==> f.wf() && f.den() == total && f.num() == clamped(
                received as nat,
                total as nat,
            ),
    {
        if total == 0 {
            None
        } else if received <= total {
            Some(Fraction { numerator: received, denominator: total })
        } else {
            Some(Fraction { numerator: total, denominator: total })
        }
    }

    pub fn numerator(&self) -> (r: u64)
        ensures
            r == self.num(),
            self.wf(),
    {
        proof {
            use_type_invariant(self);
        }
        self.numerator
    }

    pub fn denominator(&self) -> (r: u64)
        ensures
            r == self.den(),
            self.wf(),
    {
        proof {
            use_type_invariant(self);
        }
        self.denominator
    }

    /// Whole percent done, rounded down.
    pub fn percent(&self) -> (r: u8)
        ensures
            r == (100 * self.num()) / self.den(),
            r <= 100,
    {
        proof {
            use_type_invariant(self);
        }
        let scaled: u128 = (self.numerator as u128) * 100;
        let whole: u128 = scaled / (self.denominator as u128);
        assert(whole <= 100) by (nonlinear_arith)
            requires
                whole == scaled / (self.denominator as u128),
                scaled == self.numerator * 100,
                self.numerator <= self.denominator,
                self.denominator > 0,
        ;
        whole as u8
    }

    /// Whether more than a tenth is done.
    pub fn exceeds_tenth(&self) -> (r: bool)
        ensures
            r == (10 * self.num() > self.den()),
    {
        (self.numerator as u128) * 10 > (self.denominator as u128)
    }
}

impl Progress {
    /// Progress of a transfer: indeterminate until the total is known and not
    /// zero, then the received part of it, never more than the whole.
    pub fn from_bytes(received: u64, total: Option<u64>) -> (r: Progress)
        ensures
            r == progress_of(received, total),
            r matches Progress::Determinate(f) ==> f.wf(),
    {
        match total {
            Some(t) => match Fraction::new(received, t) {
                Some(f) => {
                    proof {
                        lemma_fraction_determined(f, fraction_of(received, t));
                    }
                    Progress::Determinate(f)
                },
                None => Progress::Indeterminate,
            },
            None => Progress::Indeterminate,
        }
    }

    /// The bar carries its percentage only past a tenth, where the text fits.
    pub fn shows_percentage(&self) -> (r: bool)
        ensures
            r == match *self {
                Progress::Indeterminate => false,
                Progress::Determinate(f) => 10 * f.num() > f.den(),
            },
    {
        match self {
            Progress::Indeterminate => false,
            Progress::Determinate(f) => f.exceeds_tenth(),
        }
    }
}

/// The fraction with clamped numerator over a non-zero `total`.
pub closed spec fn fraction_of(received: u64, total: u64) -> Fraction {
    Fraction {
        numerator: if received <= total {
            received
        } else {
            total
        },
        denominator: total,
    }
}

/// What [`Progress::from_bytes`] returns.
pub open spec fn progress_of(received: u64, total: Option<u64>) -> Progress {
    match total {
        Some(t) => if t > 0 {
            Progress::Determinate(fraction_of(received, t))
        } else {
            Progress::Indeterminate
        },
        None => Progress::Indeterminate,
    }
}

/// `fraction_of` is the received part of the total, at most the whole.
pub proof fn lemma_fraction_of(received: u64, total: u64)
    requires
        total > 0,
    ensures
        fraction_of(received, total).wf(),
        fraction_of(received, total).den() == total,
        fraction_of(received, total).num() == clamped(received as nat, total as nat),
{
}

/// Two fractions of the same counts are the same fraction.
pub proof fn lemma_fraction_determined(a: Fraction, b: Fraction)
    requires
        a.num() == b.num(),
        a.den() == b.den(),
    ensures
        a == b,
{
}

} // verus!
