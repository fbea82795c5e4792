//! What every table of the stores has in common: row ids that start at one
//! and grow with each row added, and rankings by a score.

use vstd::prelude::*;

verus! {

/// Row ids are in order when each fits a row id, is at least one, and is
/// larger than the one before it.
pub open spec fn ids_in_order(ids: Seq<int>) -> bool {
    &&& forall|i: int| 0 <= i < ids.len() ==> 1 <= #[trigger] ids[i] <= i64::MAX
    &&& forall|i: int, j: int| 0 <= i < j < ids.len() ==> ids[i] < ids[j]
}

/// The id of the next row: one more than the last, or one in an empty table.
pub open spec fn next_id(ids: Seq<int>) -> int {
    if ids.len() == 0 {
        1
    } else {
        ids.last() + 1
    }
}

/// Machine integers as mathematical ones.
pub open spec fn wide(ids: Seq<i64>) -> Seq<int> {
    Seq::new(ids.len(), |i: int| ids[i] as int)
}

/// A table stays in order when a row with the next id is added.
pub proof fn lemma_push_in_order(ids: Seq<int>)
    requires
        ids_in_order(ids),
        next_id(ids) <= i64::MAX,
    ensures
        ids_in_order(ids.push(next_id(ids))),
{
    let after = ids.push(next_id(ids));
    assert forall|i: int, j: int| 0 <= i < j < after.len() implies after[i] < after[j] by {
        if j < ids.len() {
            assert(ids[i] < ids[j]);
        } else if i < ids.len() - 1 {
            assert(ids[i] < ids[ids.len() - 1]);
        }
    }
    assert forall|i: int| 0 <= i < after.len() implies 1 <= #[trigger] after[i] <= i64::MAX by {
        if i < ids.len() {
            assert(1 <= ids[i]);
        }
    }
}

/// Whether `ids` are in order.
pub fn check_ids(ids: &Vec<i64>) -> (ok: bool)
    ensures
        ok == ids_in_order(wide(ids@)),
{
    let ghost all = wide(ids@);
    let mut i: usize = 0;
    let mut last: i64 = 0;
    while i < ids.len()
        invariant
            i <= ids.len(),
            all == wide(ids@),
            i == 0 ==> last == 0,
            i > 0 ==> last == all[i - 1],
            ids_in_order(all.take(i as int)),
        decreases ids.len() - i,
    {
        if ids[i] <= last {
            proof {
                assert(all[i as int] == ids@[i as int]);
                if ids_in_order(all) {
                    if i > 0 {
                        assert(all[i - 1] < all[i as int]);
                    } else {
                        assert(1 <= all[i as int]);
                    }
                    assert(false);
                }
            }
            return false;
        }
        last = ids[i];
        proof {
            let before = all.take(i as int);
            let after = all.take(i + 1);
            assert forall|a: int, b: int| 0 <= a < b < after.len() implies after[a] < after[b] by {
                if b < i {
                    assert(before[a] < before[b]);
                } else if a < i - 1 {
                    assert(before[a] < before[i - 1]);
                }
            }
            assert forall|a: int| 0 <= a < after.len() implies 1 <= #[trigger] after[a]
                <= i64::MAX by {
                if a < i {
                    assert(1 <= before[a]);
                }
            }
        }
        i += 1;
    }
    assert(all.take(ids.len() as int) =~= all);
    true
}

/// The id for a row added to a table whose last id is `last` (zero for an
/// empty table), or `None` where the ids are used up.
pub fn following_id(last: i64) -> (id: Option<i64>)
    ensures
        id == if last < i64::MAX {
            Some((last + 1) as i64)
        } else {
            None::<i64>
        },
{
    if last < i64::MAX {
        Some(last + 1)
    } else {
        None
    }
}

/// Among rows with a score (`Some`), row `i` comes before row `j` when its
/// score is higher, or equal and `i` is the earlier row.
pub open spec fn outranks(keys: Seq<Option<i64>>, i: int, j: int) -> bool {
    keys[i]->0 > keys[j]->0 || (keys[i]->0 == keys[j]->0 && i < j)
}

/// Whether row `j` takes part in a ranking.
pub open spec fn ranked(keys: Seq<Option<i64>>, j: int) -> bool {
    0 <= j < keys.len() && keys[j] is Some
}

/// `picks` is the ranking of `keys` up to `limit` rows: positions of rows
/// with a score, best first, none left out that would come before one taken,
/// and as many as the limit allows. A negative limit allows all.
pub open spec fn is_ranking(keys: Seq<Option<i64>>, limit: int, picks: Seq<int>) -> bool {
    &&& forall|k: int| 0 <= k < picks.len() ==> ranked(keys, #[trigger] picks[k])
    &&& forall|a: int, b: int|
        0 <= a < b < picks.len() ==> outranks(keys, #[trigger] picks[a], #[trigger] picks[b])
    &&& forall|j: int, k: int|
        #![trigger ranked(keys, j), picks[k]]
        ranked(keys, j) && !picks.contains(j) && 0 <= k < picks.len() ==> outranks(
            keys,
            picks[k],
            j,
        )
    &&& limit >= 0 ==> picks.len() <= limit
    &&& (limit < 0 || picks.len() < limit) ==> forall|j: int|
        ranked(keys, j) ==> #[trigger] picks.contains(j)
}

/// Positions as mathematical integers.
pub open spec fn positions(picks: Seq<usize>) -> Seq<int> {
    Seq::new(picks.len(), |i: int| picks[i] as int)
}

/// The ranking of `keys` up to `limit` rows.
pub fn rank(keys: &Vec<Option<i64>>, limit: i64) -> (picks: Vec<usize>)
    ensures
        is_ranking(keys@, limit as int, positions(picks@)),
{
    let n = keys.len();
    let mut taken: Vec<bool> = Vec::new();
    let mut t: usize = 0;
    while t < n
        invariant
            t <= n,
            taken.len() == t,
            forall|j: int| 0 <= j < t ==> !taken@[j],
        decreases n - t,
    {
        taken.push(false);
        t += 1;
    }
    let mut picks: Vec<usize> = Vec::new();
    let mut done = false;
    while !done && (limit < 0 || (picks.len() as u64) < (limit as u64))
        invariant
            n == keys.len(),
            taken.len() == n,
            picks.len() <= n,
            forall|j: int| 0 <= j < n ==> (taken@[j] <==> positions(picks@).contains(j)),
            forall|k: int| 0 <= k < picks.len() ==> ranked(keys@, #[trigger] positions(picks@)[k]),
            forall|a: int, b: int|
                0 <= a < b < picks.len() ==> outranks(
                    keys@,
                    #[trigger] positions(picks@)[a],
                    #[trigger] positions(picks@)[b],
                ),
            forall|j: int, k: int|
                #![trigger ranked(keys@, j), positions(picks@)[k]]
                ranked(keys@, j) && !positions(picks@).contains(j) && 0 <= k < picks.len()
                    ==> outranks(keys@, positions(picks@)[k], j),
            limit >= 0 ==> picks.len() <= limit,
            done ==> forall|j: int| ranked(keys@, j) ==> #[trigger] positions(picks@).contains(j),
            picks.len() == n ==> forall|j: int|
                ranked(keys@, j) ==> #[trigger] positions(picks@).contains(j),
        decreases (if done { 0int } else { 1int }), n - picks.len(),
    {
        let mut best: Option<usize> = None;
        let mut j: usize = 0;
        while j < n
            invariant
                j <= n,
                n == keys.len(),
                taken.len() == n,
                match best {
                    Some(b) => {
                        &&& b < j
                        &&& ranked(keys@, b as int)
                        &&& !taken@[b as int]
                        &&& forall|c: int|
                            0 <= c < j && ranked(keys@, c) && !taken@[c] && c != b ==> outranks(
                                keys@,
                                b as int,
                                c,
                            )
                    },
                    None => forall|c: int| 0 <= c < j && ranked(keys@, c) ==> taken@[c],
                },
            decreases n - j,
        {
            if !taken[j] {
                match keys[j] {
                    Some(score) => {
                        match best {
                            Some(b) => {
                                let held = match keys[b] {
                                    Some(s) => s,
                                    None => score,
                                };
                                if score > held {
                                    best = Some(j);
                                }
                            },
                            None => {
                                best = Some(j);
                            },
                        }
                    },
                    None => {},
                }
            }
            j += 1;
        }
        match best {
            Some(b) => {
                let ghost before = positions(picks@);
                proof {
                    // The rows taken are distinct, so fewer than `n` were taken.
                    assert(!before.contains(b as int));
                    lemma_room_left(before, n as int, b as int);
                }
                picks.push(b);
                taken.set(b, true);
                proof {
                    let after = positions(picks@);
                    assert(after =~= before.push(b as int));
                    assert forall|c: int| 0 <= c < n implies (taken@[c] <==> after.contains(
                        c,
                    )) by {
                        if c == b {
                            assert(after[before.len() as int] == c);
                        } else if before.contains(c) {
                            let k = choose|k: int| 0 <= k < before.len() && before[k] == c;
                            assert(after[k] == c);
                        } else if after.contains(c) {
                            let k = choose|k: int| 0 <= k < after.len() && after[k] == c;
                            assert(k < before.len());
                            assert(before[k] == c);
                        }
                    }
                    assert forall|a: int, c: int| 0 <= a < c < after.len() implies outranks(
                        keys@,
                        #[trigger] after[a],
                        #[trigger] after[c],
                    ) by {
                        if c < before.len() {
                            assert(outranks(keys@, before[a], before[c]));
                        } else {
                            assert(outranks(keys@, before[a], b as int));
                        }
                    }
                    assert forall|c: int, k: int|
                        #![trigger ranked(keys@, c), after[k]]
                        ranked(keys@, c) && !after.contains(c) && 0 <= k < after.len()
                            implies outranks(keys@, after[k], c) by {
                        assert(!taken@[c]);
                        assert(!before.contains(c));
                        if k < before.len() {
                            assert(outranks(keys@, before[k], c));
                        }
                    }
                    assert forall|k: int| 0 <= k < after.len() implies ranked(
                        keys@,
                        #[trigger] after[k],
                    ) by {
                        if k < before.len() {
                            assert(ranked(keys@, before[k]));
                        }
                    }
                    if picks.len() == n {
                        lemma_all_taken(after, n as int);
                    }
                }
            },
            None => {
                done = true;
            },
        }
    }
    picks
}

/// Distinct positions below `n` that miss one of them are fewer than `n`.
proof fn lemma_room_left(picks: Seq<int>, n: int, free: int)
    requires
        forall|k: int| 0 <= k < picks.len() ==> 0 <= #[trigger] picks[k] < n,
        forall|a: int, b: int| 0 <= a < b < picks.len() ==> picks[a] != picks[b],
        0 <= free < n,
        !picks.contains(free),
    ensures
        picks.len() < n,
{
    let present = picks.to_set();
    let below = Set::new(|j: int| 0 <= j < n);
    vstd::set_lib::lemma_int_range(0, n);
    assert(below =~= vstd::set_lib::set_int_range(0, n));
    picks.unique_seq_to_set();
    assert(picks.no_duplicates());
    assert(present.subset_of(below.remove(free))) by {
        assert forall|x: int| present.contains(x) implies below.remove(free).contains(x) by {
            let k = choose|k: int| 0 <= k < picks.len() && picks[k] == x;
            assert(0 <= picks[k] < n);
        }
    }
    vstd::set_lib::lemma_len_subset(present, below.remove(free));
}

/// Distinct positions below `n`, `n` of them, are all the positions below `n`.
proof fn lemma_all_taken(picks: Seq<int>, n: int)
    requires
        forall|k: int| 0 <= k < picks.len() ==> 0 <= #[trigger] picks[k] < n,
        forall|a: int, b: int| 0 <= a < b < picks.len() ==> picks[a] != picks[b],
        picks.len() == n,
    ensures
        forall|j: int| 0 <= j < n ==> #[trigger] picks.contains(j),
{
    assert forall|j: int| 0 <= j < n implies #[trigger] picks.contains(j) by {
        if !picks.contains(j) {
            lemma_room_left(picks, n, j);
        }
    }
}

} // verus!
