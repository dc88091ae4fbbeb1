use vstd::prelude::*;

verus! {

/// `a` comes before `b` in the listing order.
pub open spec fn before(a: u64, b: u64, asc: bool) -> bool {
    if asc {
        a < b
    } else {
        a > b
    }
}

/// `k` lies after the cursor `start_after` in the listing order.
pub open spec fn in_window(k: u64, start_after: Option<u64>, asc: bool) -> bool {
    match start_after {
        None => true,
        Some(s) => before(s, k, asc),
    }
}

/// `r` is the page of `keys` after `start_after` of at most `limit` keys:
/// the first `limit` keys after the cursor in the listing order (all of
/// them when there are fewer), in that order.
pub open spec fn is_page(r: Seq<u64>, keys: Set<u64>, start_after: Option<u64>, limit: nat, asc: bool) -> bool {
    &&& r.len() <= limit
    &&& forall|i: int, j: int| 0 <= i < j < r.len() ==> before(#[trigger] r[i], #[trigger] r[j], asc)
    &&& forall|i: int| 0 <= i < r.len() ==> keys.contains(#[trigger] r[i]) && in_window(r[i], start_after, asc)
    &&& forall|k: u64|
        #[trigger] keys.contains(k) && in_window(k, start_after, asc) && !r.contains(k) ==> {
            &&& r.len() == limit
            &&& r.len() > 0 ==> before(r.last(), k, asc)
        }
}

/// The first of `keys` after `cursor` in the listing order.
fn next_key(keys: &Vec<u64>, cursor: Option<u64>, asc: bool) -> (r: Option<u64>)
    ensures
        r matches Some(b) ==> {
            &&& keys@.contains(b)
            &&& in_window(b, cursor, asc)
            &&& forall|k: u64| keys@.contains(k) && in_window(k, cursor, asc) ==> k == b || before(b, k, asc)
        },
        r is None ==> forall|k: u64| keys@.contains(k) ==> !in_window(k, cursor, asc),
{
    let mut best: Option<u64> = None;
    let mut i: usize = 0;
    while i < keys.len()
        invariant
            i <= keys@.len(),
            best matches Some(b) ==> {
                &&& keys@.contains(b)
                &&& in_window(b, cursor, asc)
                &&& forall|j: int| 0 <= j < i && in_window(keys@[j], cursor, asc) ==> keys@[j] == b || before(b, keys@[j], asc)
            },
            best is None ==> forall|j: int| 0 <= j < i ==> !in_window(keys@[j], cursor, asc),
        decreases keys@.len() - i,
    {
        let k = keys[i];
        let inside = match cursor {
            None => true,
            Some(c) => if asc { c < k } else { c > k },
        };
        if inside {
            match best {
                None => {
                    best = Some(k);
                },
                Some(b) => {
                    if (asc && k < b) || (!asc && k > b) {
                        best = Some(k);
                    }
                },
            }
        }
        i = i + 1;
    }
    proof {
        if best is None {
            assert forall|k: u64| keys@.contains(k) implies !in_window(k, cursor, asc) by {
                let j = choose|j: int| 0 <= j < keys@.len() && keys@[j] == k;
            }
        } else {
            let b = best->0;
            assert forall|k: u64| keys@.contains(k) && in_window(k, cursor, asc) implies k == b || before(b, k, asc) by {
                let j = choose|j: int| 0 <= j < keys@.len() && keys@[j] == k;
            }
        }
    }
    best
}

/// The page of `keys` after `start_after` of at most `limit` keys, in
/// ascending (`asc`) or descending order.
pub fn page_keys(keys: &Vec<u64>, start_after: Option<u64>, limit: usize, asc: bool) -> (r: Vec<u64>)
    ensures
        is_page(r@, keys@.to_set(), start_after, limit as nat, asc),
{
    let mut r: Vec<u64> = Vec::new();
    let mut cursor: Option<u64> = start_after;
    while r.len() < limit
        invariant_except_break
            r@.len() <= limit,
            forall|i: int, j: int| 0 <= i < j < r@.len() ==> before(#[trigger] r@[i], #[trigger] r@[j], asc),
            forall|i: int| 0 <= i < r@.len() ==> keys@.contains(#[trigger] r@[i]) && in_window(r@[i], start_after, asc),
            r@.len() == 0 ==> cursor == start_after,
            r@.len() > 0 ==> cursor == Some(r@.last()),
            forall|k: u64|
                keys@.contains(k) && in_window(k, start_after, asc) && !r@.contains(k) ==> in_window(k, cursor, asc),
        ensures
            is_page(r@, keys@.to_set(), start_after, limit as nat, asc),
        decreases limit - r@.len(),
    {
        match next_key(keys, cursor, asc) {
            None => {
                assert forall|k: u64|
                    #[trigger] keys@.to_set().contains(k) && in_window(k, start_after, asc) && !r@.contains(k) implies {
                        &&& r@.len() == limit
                        &&& r@.len() > 0 ==> before(r@.last(), k, asc)
                    } by {
                    assert(keys@.contains(k));
                }
                break;
            },
            Some(b) => {
                let ghost r0 = r@;
                proof {
                    if r0.len() > 0 {
                        assert(in_window(r0.last(), start_after, asc));
                        assert(before(r0.last(), b, asc));
                    }
                }
                r.push(b);
                cursor = Some(b);
                proof {
                    assert(r@.last() == b);
                    assert forall|i: int| 0 <= i < r@.len() implies keys@.contains(#[trigger] r@[i]) && in_window(r@[i], start_after, asc) by {
                        if i < r0.len() {
                            assert(r@[i] == r0[i]);
                        }
                    }
                    assert forall|i: int, j: int| 0 <= i < j < r@.len() implies before(#[trigger] r@[i], #[trigger] r@[j], asc) by {
                        if j < r0.len() {
                            assert(r@[i] == r0[i] && r@[j] == r0[j]);
                        } else if i < r0.len() - 1 {
                            assert(r@[i] == r0[i]);
                            assert(before(r0[i], r0.last(), asc));
                        } else {
                            assert(r@[i] == r0[i]);
                        }
                    }
                    assert forall|k: u64|
                        keys@.contains(k) && in_window(k, start_after, asc) && !r@.contains(k) implies in_window(k, cursor, asc) by {
                        assert(!r0.contains(k)) by {
                            if r0.contains(k) {
                                let w = choose|w: int| 0 <= w < r0.len() && r0[w] == k;
                                assert(r@[w] == k);
                            }
                        }
                        assert(k != b) by {
                            assert(r@[r@.len() - 1] == b);
                        }
                    }
                }
            },
        }
    }
    proof {
        if r@.len() == limit {
            assert forall|k: u64|
                #[trigger] keys@.to_set().contains(k) && in_window(k, start_after, asc) && !r@.contains(k) implies {
                    &&& r@.len() == limit
                    &&& r@.len() > 0 ==> before(r@.last(), k, asc)
                } by {
                assert(keys@.contains(k));
            }
        }
    }
    r
}

} // verus!
