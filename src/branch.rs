use vstd::prelude::*;
use vstd::set_lib::set_int_range;

verus! {

/// The fixed start of every temporary branch name.
pub const BRANCH_PREFIX: &'static str = "temp_split_";

/// `k` underscores.
pub open spec fn underscores(k: nat) -> Seq<char>
    decreases k,
{
    if k == 0 {
        Seq::empty()
    } else {
        underscores((k - 1) as nat).push('_')
    }
}

/// The `k`-th name tried: the prefix followed by `k` more underscores.
pub open spec fn candidate(k: nat) -> Seq<char> {
    BRANCH_PREFIX@ + underscores(k)
}

/// The names of the given branches.
pub open spec fn names_of(existing: Seq<String>) -> Seq<Seq<char>> {
    existing.map_values(|s: String| s@)
}

/// The name chosen for the temporary branch among `existing` local branches:
/// the first candidate not already taken.
pub open spec fn is_first_free(existing: Seq<Seq<char>>, k: nat) -> bool {
    &&& !existing.contains(candidate(k))
    &&& forall|j: nat| j < k ==> existing.contains(#[trigger] candidate(j))
}

proof fn lemma_underscores_len(k: nat)
    ensures
        underscores(k).len() == k,
    decreases k,
{
    if k > 0 {
        lemma_underscores_len((k - 1) as nat);
    }
}

proof fn lemma_candidate_len(k: nat)
    ensures
        candidate(k).len() == BRANCH_PREFIX@.len() + k,
{
    lemma_underscores_len(k);
}

/// If the first `m` candidates are all taken, there are at least `m` names.
pub proof fn lemma_taken_bound(existing: Seq<Seq<char>>, m: nat)
    requires
        forall|j: nat| j < m ==> existing.contains(#[trigger] candidate(j)),
    ensures
        m <= existing.len(),
{
    let p = BRANCH_PREFIX@.len() as int;
    let lens = existing.map_values(|s: Seq<char>| s.len() as int).to_set();
    let wanted = set_int_range(p, p + m);
    assert forall|x: int| wanted.contains(x) implies lens.contains(x) by {
        let j = (x - p) as nat;
        assert(existing.contains(candidate(j)));
        let i = choose|i: int| 0 <= i < existing.len() && existing[i] == candidate(j);
        lemma_candidate_len(j);
        assert(existing.map_values(|s: Seq<char>| s.len() as int)[i] == x);
    }
    vstd::set_lib::lemma_int_range(p, p + m);
    existing.map_values(|s: Seq<char>| s.len() as int).lemma_cardinality_of_set();
    vstd::set_lib::lemma_len_subset(wanted, lens);
}

fn is_taken(existing: &Vec<String>, name: &String) -> (r: bool)
    ensures
        r == names_of(existing@).contains(name@),
{
    let mut i: usize = 0;
    while i < existing.len()
        invariant
            i <= existing@.len(),
            forall|k: int| 0 <= k < i ==> existing@[k]@ != name@,
        decreases existing.len() - i,
    {
        if existing[i] == *name {
            assert(names_of(existing@)[i as int] == name@);
            return true;
        }
        i = i + 1;
    }
    proof {
        if names_of(existing@).contains(name@) {
            let k = choose|k: int| 0 <= k < existing@.len() && names_of(existing@)[k] == name@;
            assert(existing@[k]@ == name@);
        }
    }
    false
}

/// Names the temporary branch: starts from the prefix and appends `_` while
/// the name is one of the `existing` local branches.
pub fn temp_branch_name(existing: &Vec<String>) -> (r: String)
    ensures
        exists|k: nat| r@ == candidate(k) && is_first_free(names_of(existing@), k),
        !names_of(existing@).contains(r@),
{
    let ghost names = names_of(existing@);
    let mut name = String::from_str(BRANCH_PREFIX);
    let ghost mut k: nat = 0;
    proof {
        reveal_strlit("_");
        assert(BRANCH_PREFIX@ + underscores(0) == BRANCH_PREFIX@);
    }
    while is_taken(existing, &name)
        invariant
            name@ == candidate(k),
            forall|j: nat| j < k ==> names.contains(#[trigger] candidate(j)),
            k <= names.len(),
            names == names_of(existing@),
        decreases names.len() - k,
    {
        proof {
            assert forall|j: nat| j < k + 1 implies names.contains(#[trigger] candidate(j)) by {
                if j == k {
                } else {
                }
            }
            lemma_taken_bound(names, k + 1);
        }
        name.append("_");
        proof {
            reveal_strlit("_");
            assert("_"@ =~= seq!['_']);
            assert(underscores(k + 1) == underscores(k).push('_'));
            assert(candidate(k) + "_"@ =~= candidate(k + 1));
            k = k + 1;
        }
    }
    name
}

} // verus!
