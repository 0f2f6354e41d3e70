//! Choosing the nearest of several candidate hits.

use vstd::prelude::*;
use crate::math::scalar::Scalar;

verus! {

/// One candidate: a distance along the ray, and whether the surface that
/// it belongs to admits it.
#[derive(Clone, Copy, Debug, PartialEq, Eq, Structural)]
pub struct Trial {
    pub admitted: bool,
    pub t: Scalar,
}

/// Whether `t` is nearer than the best distance so far. With no best so
/// far, anything is.
pub open spec fn improves(t: Scalar, best: Option<Scalar>) -> bool {
    match best {
        None => true,
        Some(b) => t.less(b),
    }
}

/// The distance to beat after the first `n` trials have been looked at,
/// starting from `bound`.
pub open spec fn best_distance(trials: Seq<Trial>, bound: Option<Scalar>, n: int) -> Option<Scalar>
    decreases n,
{
    if n <= 0 {
        bound
    } else {
        let before = best_distance(trials, bound, n - 1);
        if trials[n - 1].admitted && improves(trials[n - 1].t, before) {
            Some(trials[n - 1].t)
        } else {
            before
        }
    }
}

/// The trial chosen among the first `n`, in the order of the list: each
/// admitted trial that is strictly nearer than everything before it takes
/// the place of the one chosen so far.
pub open spec fn nearest_upto(trials: Seq<Trial>, bound: Option<Scalar>, n: int) -> Option<int>
    decreases n,
{
    if n <= 0 {
        None
    } else {
        let before = best_distance(trials, bound, n - 1);
        if trials[n - 1].admitted && improves(trials[n - 1].t, before) {
            Some(n - 1)
        } else {
            nearest_upto(trials, bound, n - 1)
        }
    }
}

/// The index of the nearest admitted trial that beats `bound`, the first
/// of them where several are equally near; `None` where there is none.
pub fn nearest(trials: &Vec<Trial>, bound: Option<Scalar>) -> (chosen: Option<usize>)
    ensures
        chosen.is_some() == nearest_upto(trials@, bound, trials@.len() as int).is_some(),
        chosen.is_some() ==> chosen.unwrap() as int == nearest_upto(
            trials@,
            bound,
            trials@.len() as int,
        ).unwrap(),
        chosen.is_some() ==> chosen.unwrap() < trials@.len(),
{
    let mut chosen: Option<usize> = None;
    let mut best: Option<Scalar> = bound;
    let mut i: usize = 0;
    while i < trials.len()
        invariant
            i <= trials@.len(),
            best == best_distance(trials@, bound, i as int),
            chosen.is_some() == nearest_upto(trials@, bound, i as int).is_some(),
            chosen.is_some() ==> chosen.unwrap() as int == nearest_upto(
                trials@,
                bound,
                i as int,
            ).unwrap(),
            chosen.is_some() ==> chosen.unwrap() < i,
        decreases trials@.len() - i,
    {
        let trial = trials[i];
        let better = match best {
            None => true,
            Some(b) => trial.t.lt(b),
        };
        if trial.admitted && better {
            chosen = Some(i);
            best = Some(trial.t);
        }
        i = i + 1;
    }
    chosen
}

/// What the choice means where no distance is a NaN.
///
/// If a trial is chosen, it is admitted and beats the bound, no admitted
/// trial is strictly nearer, and every admitted trial before it is strictly
/// farther. If none is chosen, no admitted trial beats the bound.
pub proof fn lemma_nearest_is_first_minimum(trials: Seq<Trial>, bound: Option<Scalar>, n: int)
    requires
        0 <= n <= trials.len(),
        forall|k: int| 0 <= k < n ==> !(#[trigger] trials[k]).t.nan(),
        bound.is_some() ==> !bound.unwrap().nan(),
    ensures
        match nearest_upto(trials, bound, n) {
            Some(i) => {
                &&& 0 <= i < n
                &&& trials[i].admitted
                &&& improves(trials[i].t, bound)
                &&& best_distance(trials, bound, n) == Some(trials[i].t)
                &&& forall|k: int|
                    0 <= k < n && (#[trigger] trials[k]).admitted ==> !trials[k].t.less(
                        trials[i].t,
                    )
                &&& forall|k: int|
                    0 <= k < i && (#[trigger] trials[k]).admitted ==> trials[i].t.less(
                        trials[k].t,
                    )
            },
            None => {
                &&& best_distance(trials, bound, n) == bound
                &&& forall|k: int|
                    0 <= k < n && (#[trigger] trials[k]).admitted ==> !improves(
                        trials[k].t,
                        bound,
                    )
            },
        },
    decreases n,
{
    if n > 0 {
        lemma_nearest_is_first_minimum(trials, bound, n - 1);
    }
}

} // verus!
