//! Solve methods: their names, and which of them each solver accepts.

use vstd::prelude::*;
use vstd::string::*;

verus! {

/// A strategy for solving a least-squares problem.
#[derive(PartialEq, Eq, Structural, Clone, Copy, Debug)]
pub enum SolveMethod {
    QR,
    SVD,
    Cholesky,
    LU,
    /// Cyclic coordinate descent, for the elastic-net problem.
    CD,
}

/// The method that a name stands for: "qr", "svd", "chol", "lu" or "cd".
pub open spec fn method_named(s: Seq<char>) -> Option<SolveMethod> {
    if s == "qr"@ {
        Some(SolveMethod::QR)
    } else if s == "svd"@ {
        Some(SolveMethod::SVD)
    } else if s == "chol"@ {
        Some(SolveMethod::Cholesky)
    } else if s == "lu"@ {
        Some(SolveMethod::LU)
    } else if s == "cd"@ {
        Some(SolveMethod::CD)
    } else {
        None
    }
}

fn same_chars(s: &str, t: &str) -> (r: bool)
    ensures
        r == (s@ == t@),
{
    let n = s.unicode_len();
    if n != t.unicode_len() {
        return false;
    }
    let mut i: usize = 0;
    while i < n
        invariant
            n == s@.len(),
            n == t@.len(),
            i <= n,
            forall|j: int| 0 <= j < i ==> s@[j] == t@[j],
        decreases n - i,
    {
        if s.get_char(i) != t.get_char(i) {
            return false;
        }
        i += 1;
    }
    assert(s@ =~= t@);
    true
}

/// Reads a method name; `None` for a name that is not one of the five.
pub fn parse_method(s: &str) -> (r: Option<SolveMethod>)
    ensures
        r == method_named(s@),
{
    if same_chars(s, "qr") {
        Some(SolveMethod::QR)
    } else if same_chars(s, "svd") {
        Some(SolveMethod::SVD)
    } else if same_chars(s, "chol") {
        Some(SolveMethod::Cholesky)
    } else if same_chars(s, "lu") {
        Some(SolveMethod::LU)
    } else if same_chars(s, "cd") {
        Some(SolveMethod::CD)
    } else {
        None
    }
}

impl std::str::FromStr for SolveMethod {
    type Err = ();

    fn from_str(s: &str) -> (r: Result<SolveMethod, ()>)
        ensures
            r == (match method_named(s@) {
                Some(m) => Ok(m),
                None => Err(()),
            }),
    {
        match parse_method(s) {
            Some(m) => Ok(m),
            None => Err(()),
        }
    }
}

/// The solvers that take a requested method.
#[derive(PartialEq, Eq, Structural, Clone, Copy, Debug)]
pub enum Solver {
    Ols,
    Ridge,
    ElasticNet,
}

/// A method that the solver does not support was requested.
#[derive(PartialEq, Eq, Structural, Clone, Copy, Debug)]
pub struct UnsupportedMethod {
    pub solver: Solver,
    pub method: SolveMethod,
}

/// OLS takes QR or SVD. Unrequested, QR goes to over-determined problems
/// (more samples than features) and SVD to the others.
pub open spec fn ols_method(requested: Option<SolveMethod>, n_samples: nat, n_features: nat) -> Result<
    SolveMethod,
    UnsupportedMethod,
> {
    match requested {
        Some(SolveMethod::QR) => Ok(SolveMethod::QR),
        Some(SolveMethod::SVD) => Ok(SolveMethod::SVD),
        None => if n_samples > n_features {
            Ok(SolveMethod::QR)
        } else {
            Ok(SolveMethod::SVD)
        },
        Some(m) => Err(UnsupportedMethod { solver: Solver::Ols, method: m }),
    }
}

/// Picks the method of an OLS solve of an `n_samples` by `n_features` design.
pub fn select_ols_method(requested: Option<SolveMethod>, n_samples: usize, n_features: usize) -> (r:
    Result<SolveMethod, UnsupportedMethod>)
    ensures
        r == ols_method(requested, n_samples as nat, n_features as nat),
{
    match requested {
        Some(SolveMethod::QR) => Ok(SolveMethod::QR),
        Some(SolveMethod::SVD) => Ok(SolveMethod::SVD),
        None => if n_samples > n_features {
            Ok(SolveMethod::QR)
        } else {
            Ok(SolveMethod::SVD)
        },
        Some(m) => Err(UnsupportedMethod { solver: Solver::Ols, method: m }),
    }
}

/// How a ridge problem is solved.
#[derive(PartialEq, Eq, Structural, Clone, Copy, Debug)]
pub enum RidgeStrategy {
    /// Solve the regularized normal equations, by Cholesky or else by LU.
    NormalEquations { use_cholesky: bool },
    /// The shrunk pseudo-inverse of a thin SVD of the design.
    Svd,
}

/// Ridge takes Cholesky, LU (the default) or SVD.
pub open spec fn ridge_strategy(requested: Option<SolveMethod>) -> Result<
    RidgeStrategy,
    UnsupportedMethod,
> {
    match requested {
        Some(SolveMethod::Cholesky) => Ok(RidgeStrategy::NormalEquations { use_cholesky: true }),
        Some(SolveMethod::LU) | None => Ok(RidgeStrategy::NormalEquations { use_cholesky: false }),
        Some(SolveMethod::SVD) => Ok(RidgeStrategy::Svd),
        Some(m) => Err(UnsupportedMethod { solver: Solver::Ridge, method: m }),
    }
}

/// Picks the strategy of a ridge solve.
pub fn select_ridge_strategy(requested: Option<SolveMethod>) -> (r: Result<
    RidgeStrategy,
    UnsupportedMethod,
>)
    ensures
        r == ridge_strategy(requested),
{
    match requested {
        Some(SolveMethod::Cholesky) => Ok(RidgeStrategy::NormalEquations { use_cholesky: true }),
        Some(SolveMethod::LU) | None => Ok(RidgeStrategy::NormalEquations { use_cholesky: false }),
        Some(SolveMethod::SVD) => Ok(RidgeStrategy::Svd),
        Some(m) => Err(UnsupportedMethod { solver: Solver::Ridge, method: m }),
    }
}

/// The elastic net is solved by coordinate descent only.
pub open spec fn elastic_net_method(requested: Option<SolveMethod>) -> Result<
    SolveMethod,
    UnsupportedMethod,
> {
    match requested {
        Some(SolveMethod::CD) | None => Ok(SolveMethod::CD),
        Some(m) => Err(UnsupportedMethod { solver: Solver::ElasticNet, method: m }),
    }
}

/// Checks the method requested of an elastic-net solve.
pub fn select_elastic_net_method(requested: Option<SolveMethod>) -> (r: Result<
    SolveMethod,
    UnsupportedMethod,
>)
    ensures
        r == elastic_net_method(requested),
{
    match requested {
        Some(SolveMethod::CD) | None => Ok(SolveMethod::CD),
        Some(m) => Err(UnsupportedMethod { solver: Solver::ElasticNet, method: m }),
    }
}

/// A factorization that inverts a square matrix or solves a system with it.
#[derive(PartialEq, Eq, Structural, Clone, Copy, Debug)]
pub enum Factorization {
    /// Cholesky; fails on a matrix that is not positive definite.
    Cholesky,
    /// LU with partial pivoting; always yields a result.
    PartialPivotLu,
}

/// Cholesky is tried first only where it is preferred.
pub fn first_factorization(prefer_cholesky: bool) -> (r: Factorization)
    ensures
        r == (if prefer_cholesky {
            Factorization::Cholesky
        } else {
            Factorization::PartialPivotLu
        }),
{
    if prefer_cholesky {
        Factorization::Cholesky
    } else {
        Factorization::PartialPivotLu
    }
}

/// What is tried after `failed` did not factor the matrix: LU after Cholesky,
/// and nothing after LU.
pub fn fallback(failed: Factorization) -> (r: Option<Factorization>)
    ensures
        failed == Factorization::Cholesky ==> r == Some(Factorization::PartialPivotLu),
        failed == Factorization::PartialPivotLu ==> r is None,
{
    match failed {
        Factorization::Cholesky => Some(Factorization::PartialPivotLu),
        Factorization::PartialPivotLu => None,
    }
}

} // verus!
