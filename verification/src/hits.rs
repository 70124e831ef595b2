use vstd::prelude::*;

verus! {

// Hit distances are `f64` values in the driver, which the verifier does
// not model. The driver maps each distance to a `u64` key through an
// order-preserving encoding of finite doubles, so the selection rules
// below — the only decisions intersection makes — are verified once over
// totally ordered keys and hold for the distances themselves.

/// Whether a candidate root is accepted: no closer than the minimum
/// distance.
pub open spec fn accepted(root: u64, t_min: u64) -> bool {
    root >= t_min
}

/// Choose the reported root of the sphere quadratic. Both roots are
/// offered with the near one first; a root closer than `t_min` is
/// rejected, and of the accepted roots the smaller one is the hit.
pub fn select_root(near: u64, far: u64, t_min: u64) -> (r: Option<u64>)
    ensures
        r is None <==> !accepted(near, t_min) && !accepted(far, t_min),
        accepted(near, t_min) && !accepted(far, t_min) ==> r == Some(near),
        !accepted(near, t_min) && accepted(far, t_min) ==> r == Some(far),
        accepted(near, t_min) && accepted(far, t_min) ==> r == Some(
            if near <= far {
                near
            } else {
                far
            },
        ),
{
    if near < t_min && far < t_min {
        None
    } else if near < t_min {
        Some(far)
    } else if far < t_min {
        Some(near)
    } else if near <= far {
        Some(near)
    } else {
        Some(far)
    }
}

/// Pick the nearest hit out of one candidate per scene object: `None`
/// stands for a miss, `Some(key)` for a hit at that distance key. The
/// result is the index of the globally nearest hit — the last such index
/// when several candidates tie, which no caller should rely on since
/// real-valued ties have probability zero.
pub fn closest_hit(keys: &Vec<Option<u64>>) -> (r: Option<usize>)
    ensures
        r is None <==> (forall|m: int| 0 <= m < keys@.len() ==> keys@[m] is None),
        r matches Some(i) ==> {
            &&& 0 <= i < keys@.len()
            &&& keys@[i as int] is Some
            &&& forall|m: int|
                0 <= m < keys@.len() && keys@[m] is Some ==> keys@[i as int]->0 <= keys@[m]->0
            &&& forall|m: int| i < m < keys@.len() && keys@[m] is Some ==> keys@[i as int]->0
                < keys@[m]->0
        },
{
    let mut best: Option<usize> = None;
    let mut best_key: u64 = 0;
    let mut j: usize = 0;
    while j < keys.len()
        invariant
            j <= keys@.len(),
            best is None ==> (forall|m: int| 0 <= m < j ==> keys@[m] is None),
            best matches Some(i) ==> {
                &&& 0 <= i < j
                &&& keys@[i as int] is Some
                &&& best_key == keys@[i as int]->0
                &&& forall|m: int| 0 <= m < j && keys@[m] is Some ==> best_key <= keys@[m]->0
                &&& forall|m: int| i < m < j && keys@[m] is Some ==> best_key < keys@[m]->0
            },
        decreases keys@.len() - j,
    {
        match keys[j] {
            Some(k) => {
                match best {
                    None => {
                        best = Some(j);
                        best_key = k;
                    },
                    Some(_) => {
                        if k <= best_key {
                            best = Some(j);
                            best_key = k;
                        }
                    },
                }
            },
            None => {},
        }
        j = j + 1;
    }
    best
}

} // verus!
