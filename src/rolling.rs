//! The schedule of the rolling-window OLS engine: which rows enter and leave
//! the window of cached cross-products at each time step.

use vstd::prelude::*;
use vstd::set_lib::*;

verus! {

/// Above this many features the engine maintains the inverse of the
/// cross-product matrix by Woodbury updates unless told otherwise.
pub const WOODBURY_MIN_FEATURES: usize = 60;

/// The settings of one rolling run once the defaults are filled in.
#[derive(PartialEq, Eq, Structural, Clone, Copy, Debug)]
pub struct RollingSetup {
    /// Samples needed before the first estimate.
    pub min_periods: usize,
    /// Maintain the inverse by Woodbury updates rather than re-solving.
    pub use_woodbury: bool,
    /// `min_periods` lies in `[n_features, window_size]`; estimates of a
    /// warm-up outside it may be unstable.
    pub stable_warm_up: bool,
}

/// Fills in the defaults: `min_periods` is the smaller of the feature count
/// and the window size, and Woodbury updates are used for more than
/// `WOODBURY_MIN_FEATURES` features.
pub fn rolling_setup(
    n_features: usize,
    window_size: usize,
    min_periods: Option<usize>,
    use_woodbury: Option<bool>,
) -> (r: RollingSetup)
    ensures
        r.min_periods == (match min_periods {
            Some(m) => m,
            None => if n_features <= window_size {
                n_features
            } else {
                window_size
            },
        }),
        r.use_woodbury == (match use_woodbury {
            Some(b) => b,
            None => n_features > WOODBURY_MIN_FEATURES,
        }),
        r.stable_warm_up == (n_features <= r.min_periods && r.min_periods <= window_size),
{
    let min_periods = match min_periods {
        Some(m) => m,
        None => if n_features <= window_size {
            n_features
        } else {
            window_size
        },
    };
    let use_woodbury = match use_woodbury {
        Some(b) => b,
        None => n_features > WOODBURY_MIN_FEATURES,
    };
    RollingSetup {
        min_periods,
        use_woodbury,
        stable_warm_up: n_features <= min_periods && min_periods <= window_size,
    }
}

/// What the engine does at one time step.
#[derive(PartialEq, Eq, Structural, Clone, Copy, Debug)]
pub enum Phase {
    /// Too few samples yet: no estimate.
    WarmUp,
    /// Build the cross-products of the first `min_periods` rows and solve.
    FirstEstimate,
    /// Row `add` enters the window and row `drop`, if any, leaves it.
    Slide { add: usize, drop: Option<usize> },
}

/// The phase of step `t` for a window of `ws` rows that first estimates
/// after `mp` samples. The window is full once `t >= ws`; from then on each
/// step also drops the row `ws` places back.
pub open spec fn phase_spec(t: int, mp: int, ws: int) -> Phase {
    if t < mp - 1 {
        Phase::WarmUp
    } else if t == mp - 1 {
        Phase::FirstEstimate
    } else if t >= ws {
        Phase::Slide { add: t as usize, drop: Some((t - ws) as usize) }
    } else {
        Phase::Slide { add: t as usize, drop: None }
    }
}

/// The phases of steps `0..n`.
pub open spec fn schedule_spec(n: int, mp: int, ws: int) -> Seq<Phase> {
    Seq::new(n as nat, |t: int| phase_spec(t, mp, ws))
}

/// The phase of step `t`. An empty window is admitted only before any
/// slide, where its size plays no part.
pub fn phase_at(t: usize, min_periods: usize, window_size: usize) -> (r: Phase)
    requires
        min_periods >= 1,
        window_size >= 1 || t < min_periods,
    ensures
        r == phase_spec(t as int, min_periods as int, window_size as int),
{
    if t < min_periods - 1 {
        Phase::WarmUp
    } else if t == min_periods - 1 {
        Phase::FirstEstimate
    } else if t >= window_size {
        Phase::Slide { add: t, drop: Some(t - window_size) }
    } else {
        Phase::Slide { add: t, drop: None }
    }
}

/// The phases of all `n` steps of a run. The first estimate falls within the
/// run, so `min_periods` is at most `n`; an empty window is admitted only
/// where the first estimate is the last step.
pub fn rolling_schedule(n: usize, min_periods: usize, window_size: usize) -> (r: Vec<Phase>)
    requires
        1 <= min_periods <= n,
        window_size >= 1 || min_periods == n,
    ensures
        r@ == schedule_spec(n as int, min_periods as int, window_size as int),
{
    let mut r: Vec<Phase> = Vec::new();
    let mut t: usize = 0;
    while t < n
        invariant
            t <= n,
            1 <= min_periods <= n,
            window_size >= 1 || min_periods == n,
            r@.len() == t,
            forall|j: int|
                0 <= j < t ==> #[trigger] r@[j] == phase_spec(j, min_periods as int, window_size as int),
        decreases n - t,
    {
        r.push(phase_at(t, min_periods, window_size));
        t += 1;
    }
    assert(r@ =~= schedule_spec(n as int, min_periods as int, window_size as int));
    r
}

/// What one step does to the set of rows held in the window.
pub open spec fn apply_phase(rows: Set<int>, p: Phase) -> Set<int> {
    match p {
        Phase::Slide { add, drop } => match drop {
            Some(d) => rows.insert(add as int).remove(d as int),
            None => rows.insert(add as int),
        },
        _ => rows,
    }
}

/// The rows held after step `t` of `plan`, starting from the rows `0..mp`
/// of the first estimate at step `mp - 1`.
pub open spec fn rows_held(plan: Seq<Phase>, t: int, mp: int) -> Set<int>
    decreases t - (mp - 1),
{
    if t <= mp - 1 {
        set_int_range(0, mp)
    } else {
        apply_phase(rows_held(plan, t - 1, mp), plan[t])
    }
}

/// Along a schedule, the window after step `t` holds the rows up to `t`
/// that lie less than `window_size` places back, and besides them the first
/// `min_periods - window_size` rows, which a warm-up longer than the window
/// took in and no step drops.
pub proof fn lemma_rows_held(n: usize, min_periods: usize, window_size: usize, t: int)
    requires
        1 <= min_periods <= n,
        window_size >= 1,
        min_periods - 1 <= t < n,
    ensures
        rows_held(schedule_spec(n as int, min_periods as int, window_size as int), t, min_periods as int)
            == Set::new(
            |j: int| 0 <= j <= t && (j < min_periods - window_size || j > t - window_size),
        ),
    decreases t - (min_periods - 1),
{
    let plan = schedule_spec(n as int, min_periods as int, window_size as int);
    let mp = min_periods as int;
    let ws = window_size as int;
    let expect = Set::new(|j: int| 0 <= j <= t && (j < mp - ws || j > t - ws));
    if t <= mp - 1 {
        assert(rows_held(plan, t, mp) =~= expect);
    } else {
        lemma_rows_held(n, min_periods, window_size, t - 1);
        assert((t as usize) as int == t);
        assert(rows_held(plan, t, mp) =~= expect);
    }
}

/// With a warm-up no longer than the window, the window after step `t`
/// holds exactly the last `min(t + 1, window_size)` rows up to `t`.
pub proof fn lemma_window_is_last_rows(n: usize, min_periods: usize, window_size: usize, t: int)
    requires
        1 <= min_periods <= window_size,
        min_periods <= n,
        min_periods - 1 <= t < n,
    ensures
        ({
            let held = rows_held(
                schedule_spec(n as int, min_periods as int, window_size as int),
                t,
                min_periods as int,
            );
            let first = if t + 1 >= window_size {
                t + 1 - window_size
            } else {
                0
            };
            &&& held == set_int_range(first, t + 1)
            &&& held.finite()
            &&& held.len() == if t + 1 <= window_size {
                t + 1
            } else {
                window_size as int
            }
        }),
{
    lemma_rows_held(n, min_periods, window_size, t);
    let first = if t + 1 >= window_size {
        t + 1 - window_size
    } else {
        0
    };
    let held = rows_held(
        schedule_spec(n as int, min_periods as int, window_size as int),
        t,
        min_periods as int,
    );
    assert(held =~= set_int_range(first, t + 1));
    lemma_int_range(first, t + 1);
}

/// Each sliding step adds a row that the window does not hold yet and drops
/// one that it holds, so the cached cross-products only ever add in a new
/// row and take out a row that was added before.
pub proof fn lemma_slide_moves_rows(n: usize, min_periods: usize, window_size: usize, t: int)
    requires
        1 <= min_periods <= n,
        window_size >= 1,
        min_periods <= t < n,
    ensures
        ({
            let plan = schedule_spec(n as int, min_periods as int, window_size as int);
            let before = rows_held(plan, t - 1, min_periods as int);
            match plan[t] {
                Phase::Slide { add, drop } => {
                    &&& !before.contains(add as int)
                    &&& add as int == t
                    &&& (match drop {
                        Some(d) => before.contains(d as int) && d as int == t - window_size,
                        None => t < window_size,
                    })
                },
                _ => false,
            }
        }),
{
    lemma_rows_held(n, min_periods, window_size, t - 1);
    assert((t as usize) as int == t);
}

} // verus!
