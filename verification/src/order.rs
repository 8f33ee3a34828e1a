//! Ordering texts as the standard library orders strings, and sorting by
//! such keys without disturbing the order of equal ones.

use vstd::prelude::*;

verus! {

/// Whether `a` stands before `b` in dictionary order by code point,
/// which is the order of strings.
pub open spec fn text_before(a: Seq<char>, b: Seq<char>) -> bool
    decreases a.len(),
{
    if b.len() == 0 {
        false
    } else if a.len() == 0 {
        true
    } else if a[0] != b[0] {
        (a[0] as u32) < (b[0] as u32)
    } else {
        text_before(a.drop_first(), b.drop_first())
    }
}

pub proof fn lemma_before_irreflexive(a: Seq<char>)
    ensures
        !text_before(a, a),
    decreases a.len(),
{
    if a.len() > 0 {
        lemma_before_irreflexive(a.drop_first());
    }
}

pub proof fn lemma_before_total(a: Seq<char>, b: Seq<char>)
    ensures
        text_before(a, b) || text_before(b, a) || a == b,
        !(text_before(a, b) && text_before(b, a)),
    decreases a.len(),
{
    if a.len() > 0 && b.len() > 0 {
        if a[0] != b[0] {
            assert(a[0] as u32 != b[0] as u32) by {
                vstd::utf8::char_u32_cast(a[0], a[0] as u32);
                vstd::utf8::char_u32_cast(b[0], b[0] as u32);
            }
        } else {
            lemma_before_total(a.drop_first(), b.drop_first());
            if a.drop_first() == b.drop_first() {
                assert(b =~= seq![b[0]] + b.drop_first());
            }
        }
    }
}

pub proof fn lemma_before_transitive(a: Seq<char>, b: Seq<char>, c: Seq<char>)
    requires
        text_before(a, b),
        text_before(b, c),
    ensures
        text_before(a, c),
    decreases a.len(),
{
    if a.len() > 0 && a[0] == b[0] && b[0] == c[0] {
        lemma_before_transitive(a.drop_first(), b.drop_first(), c.drop_first());
    }
}

/// Whether the key `a` comes before the key `b` in the chosen direction.
pub open spec fn key_before(a: Seq<char>, b: Seq<char>, descending: bool) -> bool {
    if descending {
        text_before(b, a)
    } else {
        text_before(a, b)
    }
}

/// Compares two keys from the index `from` on.
fn before_from(a: &Vec<char>, b: &Vec<char>, from: usize) -> (before: bool)
    requires
        from <= a@.len(),
        from <= b@.len(),
    ensures
        before == text_before(a@.skip(from as int), b@.skip(from as int)),
    decreases a@.len() - from,
{
    if from == b.len() {
        false
    } else if from == a.len() {
        true
    } else {
        assert(a@.skip(from as int).drop_first() =~= a@.skip(from + 1));
        assert(b@.skip(from as int).drop_first() =~= b@.skip(from + 1));
        if a[from] != b[from] {
            (a[from] as u32) < (b[from] as u32)
        } else {
            before_from(a, b, from + 1)
        }
    }
}

/// Whether the key `a` comes before the key `b`.
pub fn comes_before(a: &Vec<char>, b: &Vec<char>, descending: bool) -> (before: bool)
    ensures
        before == key_before(a@, b@, descending),
{
    assert(a@.skip(0) =~= a@);
    assert(b@.skip(0) =~= b@);
    if descending {
        before_from(b, a, 0)
    } else {
        before_from(a, b, 0)
    }
}

pub open spec fn keys_of(keys: Seq<Vec<char>>) -> Seq<Seq<char>> {
    Seq::new(keys.len(), |i: int| keys[i]@)
}

/// Whether `order` lists each index below `count` once, and nothing
/// else.
pub open spec fn is_arrangement(order: Seq<usize>, count: int) -> bool {
    &&& order.len() == count
    &&& forall|k: int| 0 <= k < order.len() ==> 0 <= #[trigger] order[k] < count
    &&& forall|j: int, k: int| 0 <= j < k < order.len() ==> order[j] != order[k]
}

/// Whether `order` lists the keys so that none comes before one that is
/// listed earlier, and equal keys stay in the order they had.
pub open spec fn is_stably_sorted(order: Seq<usize>, keys: Seq<Seq<char>>, descending: bool) -> bool {
    forall|j: int, k: int|
        0 <= j < k < order.len() ==> {
            &&& !key_before(
                #[trigger] keys[order[k] as int],
                #[trigger] keys[order[j] as int],
                descending,
            )
            &&& keys[order[j] as int] == keys[order[k] as int] ==> order[j] < order[k]
        }
}

/// The order in which to list items so that their keys are sorted. The
/// sort is stable: items with equal keys keep their order.
pub fn sort_order(keys: &Vec<Vec<char>>, descending: bool) -> (order: Vec<usize>)
    ensures
        is_arrangement(order@, keys@.len() as int),
        is_stably_sorted(order@, keys_of(keys@), descending),
{
    let ghost all = keys_of(keys@);
    let mut order: Vec<usize> = Vec::new();
    let mut i: usize = 0;
    while i < keys.len()
        invariant
            i <= keys@.len(),
            all == keys_of(keys@),
            is_arrangement(order@, i as int),
            is_stably_sorted(order@, all, descending),
        decreases keys@.len() - i,
    {
        // the first place whose key comes after the new key
        let mut at: usize = 0;
        let mut stop = false;
        while at < order.len() && !stop
            invariant
                at <= order@.len() == i < keys@.len(),
                all == keys_of(keys@),
                is_arrangement(order@, i as int),
                forall|j: int|
                    0 <= j < at ==> !key_before(
                        all[i as int],
                        #[trigger] all[order@[j] as int],
                        descending,
                    ),
                stop ==> at < order@.len() && key_before(
                    all[i as int],
                    all[order@[at as int] as int],
                    descending,
                ),
            decreases
                    order@.len() - at,
                    if stop {
                        0int
                    } else {
                        1int
                    },
        {
            if comes_before(&keys[i], &keys[order[at]], descending) {
                stop = true;
            } else {
                at = at + 1;
            }
        }
        let ghost before = order@;
        order.insert(at, i);
        proof {
            let after = order@;
            assert forall|j: int, k: int| 0 <= j < k < after.len() implies {
                &&& !key_before(
                    #[trigger] all[after[k] as int],
                    #[trigger] all[after[j] as int],
                    descending,
                )
                &&& all[after[j] as int] == all[after[k] as int] ==> after[j] < after[k]
            } by {
                if j == at {
                    // the new key against a later one
                    let new = all[i as int];
                    let first_after = all[before[at as int] as int];
                    let later = all[before[k - 1] as int];
                    lemma_before_total(first_after, later);
                    if descending {
                        if text_before(new, later) {
                            lemma_before_transitive(first_after, new, later);
                        }
                    } else {
                        if text_before(later, new) {
                            lemma_before_transitive(later, new, first_after);
                        }
                    }
                }
            }
        }
        i = i + 1;
    }
    order
}

proof fn lemma_same_place(
    first: Seq<usize>,
    second: Seq<usize>,
    keys: Seq<Seq<char>>,
    descending: bool,
    place: int,
)
    requires
        is_arrangement(first, keys.len() as int),
        is_arrangement(second, keys.len() as int),
        is_stably_sorted(first, keys, descending),
        is_stably_sorted(second, keys, descending),
        0 <= place < keys.len(),
    ensures
        first[place] == second[place],
    decreases place,
{
    assert forall|q: int| 0 <= q < place implies first[q] == second[q] by {
        lemma_same_place(first, second, keys, descending, q);
    }
    let x = first[place];
    let y = second[place];
    if x != y {
        lemma_arrangement_covers(first, keys.len() as int, y as int);
        lemma_arrangement_covers(second, keys.len() as int, x as int);
        lemma_before_total(keys[x as int], keys[y as int]);
    }
}

/// A stable sort has one result: two orders that list the same keys
/// sorted, with equal keys in the order they had, are the same order.
pub proof fn lemma_sorted_once(
    first: Seq<usize>,
    second: Seq<usize>,
    keys: Seq<Seq<char>>,
    descending: bool,
)
    requires
        is_arrangement(first, keys.len() as int),
        is_arrangement(second, keys.len() as int),
        is_stably_sorted(first, keys, descending),
        is_stably_sorted(second, keys, descending),
    ensures
        first == second,
{
    assert forall|place: int| 0 <= place < first.len() implies first[place] == second[place] by {
        lemma_same_place(first, second, keys, descending, place);
    }
}

/// An arrangement of `count` indices lists every index below `count`.
proof fn lemma_arrangement_covers(order: Seq<usize>, count: int, index: int)
    requires
        is_arrangement(order, count),
        0 <= index < count,
    ensures
        exists|k: int| 0 <= k < order.len() && order[k] == index,
{
    if !exists|k: int| 0 <= k < order.len() && order[k] == index {
        let ints = Seq::new(order.len(), |k: int| order[k] as int);
        let set = ints.to_set();
        ints.unique_seq_to_set();
        let full = Set::new(|v: int| 0 <= v < count);
        vstd::set_lib::lemma_int_range(0, count);
        assert(full =~= vstd::set_lib::set_int_range(0, count));
        let less = full.remove(index);
        vstd::set_lib::lemma_len_subset(set, less);
    }
}

} // verus!
