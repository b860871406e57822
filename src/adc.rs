//! Blocking analog-digital conversion traits.

use vstd::prelude::*;

verus! {

/// Integer division of `a` by `d` that truncates toward zero, as Rust's `/` does.
pub open spec fn div_trunc(a: int, d: int) -> int {
    if a >= 0 {
        a / d
    } else {
        -((-a) / d)
    }
}

/// Microvolts from nanovolts: divide by 1000 toward zero, then narrow to 32 bits.
pub open spec fn uv_of_nv(n: i64) -> i32 {
    div_trunc(n as int, 1000) as i32
}

/// Millivolts from microvolts: divide by 1000 toward zero.
pub open spec fn mv_of_uv(u: i32) -> i32 {
    div_trunc(u as int, 1000) as i32
}

/// A nanovolt reading, or its failure, converted to microvolts.
pub open spec fn uv_result<E>(r: Result<i64, E>) -> Result<i32, E> {
    match r {
        Ok(n) => Ok(uv_of_nv(n)),
        Err(e) => Err(e),
    }
}

/// A microvolt reading, or its failure, converted to millivolts.
pub open spec fn mv_result<E>(r: Result<i32, E>) -> Result<i32, E> {
    match r {
        Ok(u) => Ok(mv_of_uv(u)),
        Err(e) => Err(e),
    }
}

/// ADC error kind.
///
/// A common set of ADC operation errors. HAL implementations are free to
/// define more specific or additional error types; by mapping them onto these
/// kinds, generic code can still react to them. More kinds may be added
/// later, so a `match` on a kind needs a wildcard arm.
#[derive(Debug, Copy, Clone, PartialEq, Eq, Structural, PartialOrd, Ord, Hash)]
#[non_exhaustive]
pub enum ErrorKind {
    /// A different error occurred. The original error may contain more information.
    Other,
}

/// ADC error.
pub trait Error: core::fmt::Debug {
    /// Convert error to a generic ADC error kind.
    ///
    /// By using this method, ADC errors freely defined by HAL implementations
    /// can be converted to a set of generic ADC errors upon which generic
    /// code can act.
    fn kind(&self) -> ErrorKind;
}

/// The text that describes each kind.
pub open spec fn kind_text(k: ErrorKind) -> Seq<char> {
    match k {
        ErrorKind::Other => "A different error occurred. The original error may contain more information"@,
    }
}

impl ErrorKind {
    /// A human-readable description of this kind.
    pub fn to_string(&self) -> (r: String)
        ensures
            r@ == kind_text(*self),
    {
        match self {
            ErrorKind::Other => String::from_str(
                "A different error occurred. The original error may contain more information",
            ),
        }
    }
}

impl Error for ErrorKind {
    fn kind(&self) -> (r: ErrorKind)
        ensures
            r == *self,
    {
        *self
    }
}

impl Error for core::convert::Infallible {
    /// `Infallible` has no values, so this body is never reached.
    fn kind(&self) -> (r: ErrorKind) {
        ErrorKind::Other
    }
}

/// ADC error type trait.
pub trait ErrorType {
    /// Error type.
    type Error: Error;
}

impl<T: ErrorType + ?Sized> ErrorType for &mut T {
    type Error = T::Error;
}

/// Read data from an ADC.
///
/// Implementers should wait until data is ready and then read it.
pub trait AdcChannel: ErrorType {
    /// Whether a nanovolt measurement may take the channel from `before` to
    /// `after` and yield `r`.
    ///
    /// A driver that does not say more admits every outcome.
    open spec fn nv_outcome(before: &Self, after: &Self, r: Result<i64, Self::Error>) -> bool {
        true
    }

    /// Take a measurement in nV (nanovolts).
    fn measure_nv(&mut self) -> (r: Result<i64, Self::Error>)
        ensures
            Self::nv_outcome(&*old(self), &*final(self), r),
    ;

    /// Take a measurement in uV (microvolts).
    ///
    /// The reading is one nanovolt measurement divided by 1000 toward zero and
    /// narrowed to 32 bits; a failure is returned as it came. An override
    /// must keep this relation.
    fn measure_uv(&mut self) -> (r: Result<i32, Self::Error>)
        ensures
            exists|n: Result<i64, Self::Error>|
                #[trigger] Self::nv_outcome(&*old(self), &*final(self), n) && r == uv_result(n),
    {
        let n = self.measure_nv();
        match n {
            Ok(v) => Ok(nv_to_uv(v)),
            Err(e) => Err(e),
        }
    }

    /// Take a measurement in mV (millivolts).
    ///
    /// The reading is the microvolt reading of one nanovolt measurement,
    /// divided by 1000 toward zero; a failure is returned as it came. An
    /// override must keep this relation.
    fn measure_mv(&mut self) -> (r: Result<i32, Self::Error>)
        ensures
            exists|n: Result<i64, Self::Error>|
                #[trigger] Self::nv_outcome(&*old(self), &*final(self), n) && r == mv_result(uv_result(n)),
    {
        let u = self.measure_uv();
        match u {
            Ok(v) => Ok(uv_to_mv(v)),
            Err(e) => Err(e),
        }
    }
}

impl<T: AdcChannel + ?Sized> AdcChannel for &mut T {
    open spec fn nv_outcome(before: &Self, after: &Self, r: Result<i64, Self::Error>) -> bool {
        T::nv_outcome(&**before, &**after, r)
    }

    fn measure_nv(&mut self) -> (r: Result<i64, Self::Error>)
        ensures
            T::nv_outcome(&**old(self), &**final(self), r),
    {
        (*self).measure_nv()
    }

    fn measure_uv(&mut self) -> (r: Result<i32, Self::Error>)
        ensures
            exists|n: Result<i64, T::Error>|
                #[trigger] T::nv_outcome(&**old(self), &**final(self), n) && r == uv_result(n),
    {
        let r = (*self).measure_uv();
        proof {
            let n = choose|n: Result<i64, T::Error>|
                #[trigger] T::nv_outcome(&**old(self), &**final(self), n) && r == uv_result(n);
            assert(Self::nv_outcome(&*old(self), &*final(self), n));
        }
        r
    }

    fn measure_mv(&mut self) -> (r: Result<i32, Self::Error>)
        ensures
            exists|n: Result<i64, T::Error>|
                #[trigger] T::nv_outcome(&**old(self), &**final(self), n) && r == mv_result(
                    uv_result(n),
                ),
    {
        let r = (*self).measure_mv();
        proof {
            let n = choose|n: Result<i64, T::Error>|
                #[trigger] T::nv_outcome(&**old(self), &**final(self), n) && r == mv_result(
                    uv_result(n),
                );
            assert(Self::nv_outcome(&*old(self), &*final(self), n));
        }
        r
    }
}

/// A failed reading stays the same failure through both conversions.
pub proof fn lemma_failure_passes_through<E>(e: E)
    ensures
        uv_result::<E>(Err(e)) == Err::<i32, E>(e),
        mv_result::<E>(uv_result::<E>(Err(e))) == Err::<i32, E>(e),
{
}

/// Millivolts from microvolts.
pub fn uv_to_mv(u: i32) -> (r: i32)
    ensures
        r == mv_of_uv(u),
        r == div_trunc(u as int, 1000),
{
    u / 1000
}

/// Microvolts from a nanovolt reading.
pub fn nv_to_uv(n: i64) -> (r: i32)
    ensures
        r == uv_of_nv(n),
        i32::MIN <= div_trunc(n as int, 1000) <= i32::MAX ==> r == div_trunc(n as int, 1000),
{
    let q: i64 = n / 1000;
    #[verifier::truncate] (q as i32)
}

} // verus!
