use least_squares::method::{
    fallback, first_factorization, parse_method, select_elastic_net_method, select_ols_method,
    select_ridge_strategy, Factorization, RidgeStrategy, SolveMethod, Solver, UnsupportedMethod,
};
use std::str::FromStr;

#[test]
fn parse_known_names() {
    assert_eq!(parse_method("qr"), Some(SolveMethod::QR));
    assert_eq!(parse_method("svd"), Some(SolveMethod::SVD));
    assert_eq!(parse_method("chol"), Some(SolveMethod::Cholesky));
    assert_eq!(parse_method("lu"), Some(SolveMethod::LU));
    assert_eq!(parse_method("cd"), Some(SolveMethod::CD));
}

#[test]
fn parse_unknown_names() {
    assert_eq!(parse_method(""), None);
    assert_eq!(parse_method("QR"), None);
    assert_eq!(parse_method("cholesky"), None);
    assert_eq!(parse_method("q"), None);
    assert_eq!(parse_method("lu "), None);
}

#[test]
fn from_str_maps_names() {
    assert_eq!(SolveMethod::from_str("svd"), Ok(SolveMethod::SVD));
    assert_eq!("cd".parse::<SolveMethod>(), Ok(SolveMethod::CD));
    assert_eq!(SolveMethod::from_str("ridge"), Err(()));
    assert_eq!(SolveMethod::from_str("QR"), Err(()));
    assert_eq!(SolveMethod::from_str(""), Err(()));
    assert_eq!(SolveMethod::from_str("chol"), Ok(SolveMethod::Cholesky));
}

#[test]
fn ols_default_by_shape() {
    assert_eq!(select_ols_method(None, 4, 1), Ok(SolveMethod::QR));
    assert_eq!(select_ols_method(None, 3, 3), Ok(SolveMethod::SVD));
    assert_eq!(select_ols_method(None, 2, 5), Ok(SolveMethod::SVD));
}

#[test]
fn ols_requested_methods() {
    assert_eq!(select_ols_method(Some(SolveMethod::SVD), 100, 2), Ok(SolveMethod::SVD));
    assert_eq!(select_ols_method(Some(SolveMethod::QR), 2, 100), Ok(SolveMethod::QR));
    assert_eq!(
        select_ols_method(Some(SolveMethod::Cholesky), 10, 2),
        Err(UnsupportedMethod { solver: Solver::Ols, method: SolveMethod::Cholesky })
    );
    assert_eq!(
        select_ols_method(Some(SolveMethod::CD), 10, 2),
        Err(UnsupportedMethod { solver: Solver::Ols, method: SolveMethod::CD })
    );
}

#[test]
fn ridge_strategies() {
    assert_eq!(
        select_ridge_strategy(None),
        Ok(RidgeStrategy::NormalEquations { use_cholesky: false })
    );
    assert_eq!(
        select_ridge_strategy(Some(SolveMethod::LU)),
        Ok(RidgeStrategy::NormalEquations { use_cholesky: false })
    );
    assert_eq!(
        select_ridge_strategy(Some(SolveMethod::Cholesky)),
        Ok(RidgeStrategy::NormalEquations { use_cholesky: true })
    );
    assert_eq!(select_ridge_strategy(Some(SolveMethod::SVD)), Ok(RidgeStrategy::Svd));
    assert_eq!(
        select_ridge_strategy(Some(SolveMethod::QR)),
        Err(UnsupportedMethod { solver: Solver::Ridge, method: SolveMethod::QR })
    );
}

#[test]
fn elastic_net_takes_coordinate_descent_only() {
    assert_eq!(select_elastic_net_method(None), Ok(SolveMethod::CD));
    assert_eq!(select_elastic_net_method(Some(SolveMethod::CD)), Ok(SolveMethod::CD));
    assert_eq!(
        select_elastic_net_method(Some(SolveMethod::LU)),
        Err(UnsupportedMethod { solver: Solver::ElasticNet, method: SolveMethod::LU })
    );
}

#[test]
fn factorization_fallback_chain() {
    assert_eq!(first_factorization(true), Factorization::Cholesky);
    assert_eq!(first_factorization(false), Factorization::PartialPivotLu);
    assert_eq!(fallback(Factorization::Cholesky), Some(Factorization::PartialPivotLu));
    assert_eq!(fallback(Factorization::PartialPivotLu), None);
}
