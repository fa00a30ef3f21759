use vstd::prelude::*;

verus! {

/// The texts of a list of ids.
pub open spec fn texts(ids: Seq<String>) -> Seq<Seq<char>> {
    ids.map_values(|s: String| s@)
}

/// No earlier id equals the one at `i`.
pub open spec fn is_first(ids: Seq<Seq<char>>, i: int) -> bool {
    forall|j: int| 0 <= j < i ==> ids[j] != ids[i]
}

/// The positions among the first `n` ids that hold an id's first occurrence,
/// in order.
pub open spec fn firsts(ids: Seq<Seq<char>>, n: nat) -> Seq<usize>
    decreases n,
{
    if n == 0 {
        Seq::empty()
    } else {
        let prev = firsts(ids, (n - 1) as nat);
        if is_first(ids, n - 1) {
            prev.push((n - 1) as usize)
        } else {
            prev
        }
    }
}

/// Where each distinct id first occurs; keeping only the items at these
/// positions drops the repeats and keeps the order.
pub fn first_occurrences(ids: &Vec<String>) -> (r: Vec<usize>)
    ensures
        r@ == firsts(texts(ids@), ids@.len()),
{
    let ghost t = texts(ids@);
    let mut out: Vec<usize> = Vec::new();
    let mut i: usize = 0;
    while i < ids.len()
        invariant
            i <= ids@.len(),
            t == texts(ids@),
            out@ == firsts(t, i as nat),
        decreases ids@.len() - i,
    {
        let mut j: usize = 0;
        let mut fresh = true;
        while j < i
            invariant
                i < ids@.len(),
                j <= i,
                t == texts(ids@),
                fresh == (forall|k: int| 0 <= k < j ==> t[k] != t[i as int]),
            decreases i - j,
        {
            let same = ids[j] == ids[i];
            assert(t[j as int] == ids@[j as int]@ && t[i as int] == ids@[i as int]@);
            if same {
                fresh = false;
            }
            j = j + 1;
        }
        if fresh {
            out.push(i);
        }
        i = i + 1;
    }
    out
}

} // verus!
