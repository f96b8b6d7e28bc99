//! Choosing the detected object that the tracked region snaps to.
//!
//! A detection qualifies where some snap rule carries its label and asks
//! for no more than its probability. Of the qualifying detections the most
//! probable wins, the earliest of them where several tie.

use crate::config::SnapRule;
use crate::message::CameraDetectedObject;
use vstd::prelude::*;

verus! {

/// Whether `rule` lets `obj` capture the tracked region.
pub open spec fn rule_admits(rule: SnapRule, obj: CameraDetectedObject) -> bool {
    obj.prob >= rule.min_prob && obj.label@ == rule.label@
}

/// Whether some rule admits `obj`.
pub open spec fn qualifies(rules: Seq<SnapRule>, obj: CameraDetectedObject) -> bool {
    exists|k: int| 0 <= k < rules.len() && rule_admits(#[trigger] rules[k], obj)
}

/// Whether object `i` qualifies, no qualifying object is more probable, and
/// every qualifying object before it is less probable.
pub open spec fn is_best(objs: Seq<CameraDetectedObject>, rules: Seq<SnapRule>, i: int) -> bool {
    &&& 0 <= i < objs.len()
    &&& qualifies(rules, objs[i])
    &&& forall|j: int|
        0 <= j < objs.len() && qualifies(rules, #[trigger] objs[j]) ==> objs[j].prob
            <= objs[i].prob
    &&& forall|j: int|
        0 <= j < i && qualifies(rules, #[trigger] objs[j]) ==> objs[j].prob < objs[i].prob
}

/// The index of the object to snap to, if any object qualifies.
pub open spec fn best_snap(objs: Seq<CameraDetectedObject>, rules: Seq<SnapRule>) -> Option<int> {
    if exists|i: int| is_best(objs, rules, i) {
        Some(choose|i: int| is_best(objs, rules, i))
    } else {
        None
    }
}

/// At most one object is the best.
pub proof fn lemma_best_unique(
    objs: Seq<CameraDetectedObject>,
    rules: Seq<SnapRule>,
    i: int,
    j: int,
)
    requires
        is_best(objs, rules, i),
        is_best(objs, rules, j),
    ensures
        i == j,
{
    if i < j {
        assert(objs[i].prob < objs[j].prob);
        assert(objs[j].prob <= objs[i].prob);
    } else if j < i {
        assert(objs[j].prob < objs[i].prob);
        assert(objs[i].prob <= objs[j].prob);
    }
}

/// Whether some rule admits `obj`.
pub fn object_qualifies(rules: &Vec<SnapRule>, obj: &CameraDetectedObject) -> (b: bool)
    ensures
        b == qualifies(rules@, *obj),
{
    let mut k: usize = 0;
    while k < rules.len()
        invariant
            k <= rules.len(),
            forall|m: int| 0 <= m < k ==> !rule_admits(#[trigger] rules@[m], *obj),
        decreases rules.len() - k,
    {
        if obj.prob >= rules[k].min_prob && obj.label == rules[k].label {
            return true;
        }
        k += 1;
    }
    false
}

/// The index of the object to snap to: the most probable qualifying
/// object, the first of them on a tie; `None` where none qualifies.
pub fn best_snap_object(objs: &Vec<CameraDetectedObject>, rules: &Vec<SnapRule>) -> (r: Option<
    usize,
>)
    ensures
        match r {
            Some(i) => is_best(objs@, rules@, i as int),
            None => forall|j: int| 0 <= j < objs.len() ==> !qualifies(rules@, #[trigger] objs@[j]),
        },
        match r {
            Some(i) => best_snap(objs@, rules@) == Some(i as int),
            None => best_snap(objs@, rules@) is None,
        },
{
    let mut best: Option<usize> = None;
    let mut n: usize = 0;
    while n < objs.len()
        invariant
            n <= objs.len(),
            match best {
                Some(i) => is_best(objs@.take(n as int), rules@, i as int),
                None => forall|j: int| 0 <= j < n ==> !qualifies(rules@, #[trigger] objs@[j]),
            },
        decreases objs.len() - n,
    {
        let ghost prefix = objs@.take(n as int);
        let ghost next = objs@.take(n as int + 1);
        proof {
            assert forall|j: int| 0 <= j <= n implies #[trigger] next[j] == objs@[j] by {}
            assert forall|j: int| 0 <= j < n implies #[trigger] prefix[j] == objs@[j] by {}
        }
        if object_qualifies(rules, &objs[n]) {
            let better = match best {
                None => true,
                Some(i) => objs[n].prob > objs[i].prob,
            };
            if better {
                proof {
                    assert forall|j: int|
                        0 <= j < next.len() && qualifies(rules@, #[trigger] next[j]) implies next[j].prob
                        <= next[n as int].prob by {
                        if j < n {
                            assert(prefix[j] == next[j]);
                        }
                    }
                    assert forall|j: int|
                        0 <= j < n && qualifies(rules@, #[trigger] next[j]) implies next[j].prob
                        < next[n as int].prob by {
                        assert(prefix[j] == next[j]);
                    }
                }
                best = Some(n);
            } else {
                proof {
                    let i = best->Some_0 as int;
                    assert(prefix[i] == next[i]);
                    assert forall|j: int|
                        0 <= j < next.len() && qualifies(rules@, #[trigger] next[j]) implies next[j].prob
                        <= next[i].prob by {
                        if j < n {
                            assert(prefix[j] == next[j]);
                        }
                    }
                    assert forall|j: int|
                        0 <= j < i && qualifies(rules@, #[trigger] next[j]) implies next[j].prob
                        < next[i].prob by {
                        assert(prefix[j] == next[j]);
                    }
                }
            }
        } else {
            proof {
                match best {
                    Some(b) => {
                        let i = b as int;
                        assert(prefix[i] == next[i]);
                        assert forall|j: int|
                            0 <= j < next.len() && qualifies(rules@, #[trigger] next[j]) implies next[j].prob
                            <= next[i].prob by {
                            if j < n {
                                assert(prefix[j] == next[j]);
                            }
                        }
                        assert forall|j: int|
                            0 <= j < i && qualifies(rules@, #[trigger] next[j]) implies next[j].prob
                            < next[i].prob by {
                            assert(prefix[j] == next[j]);
                        }
                    },
                    None => {},
                }
            }
        }
        n += 1;
    }
    proof {
        assert(objs@.take(n as int) =~= objs@);
        match best {
            Some(i) => {
                let c = choose|c: int| is_best(objs@, rules@, c);
                lemma_best_unique(objs@, rules@, i as int, c);
            },
            None => {
                assert forall|i: int| !is_best(objs@, rules@, i) by {}
            },
        }
    }
    best
}

} // verus!
