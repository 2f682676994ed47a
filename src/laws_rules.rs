use vstd::prelude::*;
use crate::rules::{merge_rules, added_patterns, normalized, RuleModel};

verus! {

/// Merging only ever appends: the list merged into is a prefix of the result.
pub proof fn lemma_merge_extends(l: Seq<RuleModel>, inc: Seq<RuleModel>)
    ensures
        merge_rules(l, inc).len() >= l.len(),
        merge_rules(l, inc).subrange(0, l.len() as int) == l,
    decreases inc.len(),
{
    if inc.len() > 0 {
        lemma_merge_extends(l, inc.drop_last());
        let p = merge_rules(l, inc.drop_last());
        assert(p.push(normalized(inc.last())).subrange(0, l.len() as int) =~= p.subrange(0, l.len() as int));
    }
}

/// A list without duplicates keeps none after a merge.
pub proof fn lemma_merge_no_duplicates(l: Seq<RuleModel>, inc: Seq<RuleModel>)
    requires
        l.no_duplicates(),
    ensures
        merge_rules(l, inc).no_duplicates(),
    decreases inc.len(),
{
    if inc.len() > 0 {
        lemma_merge_no_duplicates(l, inc.drop_last());
        let p = merge_rules(l, inc.drop_last());
        let r = normalized(inc.last());
        if !p.contains(r) {
            let q = p.push(r);
            assert forall|i: int, j: int| 0 <= i < q.len() && 0 <= j < q.len() && i != j implies q[i] != q[j] by {
                if i == p.len() {
                    assert(q[j] == p[j]);
                } else if j == p.len() {
                    assert(q[i] == p[i]);
                }
            }
        }
    }
}

/// After a merge the result holds every incoming rule, normalized.
pub proof fn lemma_merge_holds_incoming(l: Seq<RuleModel>, inc: Seq<RuleModel>)
    ensures
        forall|k: int| 0 <= k < inc.len() ==> merge_rules(l, inc).contains(#[trigger] normalized(inc[k])),
    decreases inc.len(),
{
    if inc.len() > 0 {
        let d = inc.drop_last();
        lemma_merge_holds_incoming(l, d);
        let p = merge_rules(l, d);
        let m = merge_rules(l, inc);
        lemma_merge_extends(p, seq![inc.last()]);
        assert forall|k: int| 0 <= k < inc.len() implies m.contains(#[trigger] normalized(inc[k])) by {
            if k < inc.len() - 1 {
                assert(d[k] == inc[k]);
                let x = normalized(inc[k]);
                let idx = choose|idx: int| 0 <= idx < p.len() && p[idx] == x;
                assert(m[idx] == p[idx]);
            } else {
                if !p.contains(normalized(inc.last())) {
                    assert(m[p.len() as int] == normalized(inc.last()));
                }
            }
        }
    }
}

/// Merging rules that are all present already changes nothing and adds no
/// pattern.
pub proof fn lemma_merge_present(m: Seq<RuleModel>, inc: Seq<RuleModel>)
    requires
        forall|k: int| 0 <= k < inc.len() ==> m.contains(#[trigger] normalized(inc[k])),
    ensures
        merge_rules(m, inc) == m,
        added_patterns(m, inc) == Seq::<Seq<char>>::empty(),
    decreases inc.len(),
{
    if inc.len() > 0 {
        let d = inc.drop_last();
        assert forall|k: int| 0 <= k < d.len() implies m.contains(#[trigger] normalized(d[k])) by {
            assert(d[k] == inc[k]);
        }
        lemma_merge_present(m, d);
        assert(m.contains(normalized(inc[inc.len() - 1])));
    }
}

/// Merging the same rule list a second time leaves the merged list as it was,
/// and adds no pattern to compile.
pub proof fn lemma_merge_idempotent(l: Seq<RuleModel>, inc: Seq<RuleModel>)
    ensures
        merge_rules(merge_rules(l, inc), inc) == merge_rules(l, inc),
        added_patterns(merge_rules(l, inc), inc) == Seq::<Seq<char>>::empty(),
{
    lemma_merge_holds_incoming(l, inc);
    lemma_merge_present(merge_rules(l, inc), inc);
}

} // verus!
