use vstd::prelude::*;

verus! {

/// Which property of a window a rule's identifier is compared with.
#[derive(Clone, Copy, Debug, PartialEq, Eq, Structural)]
pub enum ApplicationIdentifier {
    Exe,
    Class,
    Title,
    Path,
}

/// How a rule's identifier is compared with a window's property.
#[derive(Clone, Copy, Debug, PartialEq, Eq, Structural)]
pub enum MatchingStrategy {
    Legacy,
    Equals,
    StartsWith,
    EndsWith,
    Contains,
    Regex,
}

/// A window classification rule.
#[derive(Debug)]
pub struct IdWithIdentifier {
    pub kind: ApplicationIdentifier,
    pub id: String,
    pub matching_strategy: Option<MatchingStrategy>,
}

/// The mathematical value of a rule; two rules are the same rule when their
/// models are equal.
pub struct RuleModel {
    pub kind: ApplicationIdentifier,
    pub id: Seq<char>,
    pub matching_strategy: Option<MatchingStrategy>,
}

impl View for IdWithIdentifier {
    type V = RuleModel;

    open spec fn view(&self) -> RuleModel {
        RuleModel { kind: self.kind, id: self.id@, matching_strategy: self.matching_strategy }
    }
}

pub open spec fn rules_view(s: Seq<IdWithIdentifier>) -> Seq<RuleModel> {
    s.map_values(|r: IdWithIdentifier| r@)
}

pub open spec fn strings_view(s: Seq<String>) -> Seq<Seq<char>> {
    s.map_values(|x: String| x@)
}

/// A rule whose strategy is unset is taken to use the legacy strategy.
pub open spec fn normalized(r: RuleModel) -> RuleModel {
    if r.matching_strategy is None {
        RuleModel { kind: r.kind, id: r.id, matching_strategy: Some(MatchingStrategy::Legacy) }
    } else {
        r
    }
}

/// `list` after each rule of `incoming`, normalized, is appended unless an equal
/// rule is already there.
pub open spec fn merge_rules(list: Seq<RuleModel>, incoming: Seq<RuleModel>) -> Seq<RuleModel>
    decreases incoming.len(),
{
    if incoming.len() == 0 {
        list
    } else {
        let prefix = merge_rules(list, incoming.drop_last());
        let r = normalized(incoming.last());
        if prefix.contains(r) {
            prefix
        } else {
            prefix.push(r)
        }
    }
}

/// The identifiers of the regular-expression rules that merging `incoming` into
/// `list` appends, in order.
pub open spec fn added_patterns(list: Seq<RuleModel>, incoming: Seq<RuleModel>) -> Seq<Seq<char>>
    decreases incoming.len(),
{
    if incoming.len() == 0 {
        Seq::empty()
    } else {
        let prefix = merge_rules(list, incoming.drop_last());
        let r = normalized(incoming.last());
        let rest = added_patterns(list, incoming.drop_last());
        if !prefix.contains(r) && r.matching_strategy == Some(MatchingStrategy::Regex) {
            rest.push(r.id)
        } else {
            rest
        }
    }
}

impl IdWithIdentifier {
    pub fn new(kind: ApplicationIdentifier, id: String, matching_strategy: Option<MatchingStrategy>) -> (r: Self)
        ensures
            r@ == (RuleModel { kind, id: id@, matching_strategy }),
    {
        IdWithIdentifier { kind, id, matching_strategy }
    }

    /// A copy of this rule with its strategy defaulted to the legacy one.
    pub fn normalized(&self) -> (r: Self)
        ensures
            r@ == normalized(self@),
    {
        let matching_strategy = match self.matching_strategy {
            Some(s) => Some(s),
            None => Some(MatchingStrategy::Legacy),
        };
        IdWithIdentifier { kind: self.kind, id: self.id.clone(), matching_strategy }
    }

    pub fn same_as(&self, other: &Self) -> (b: bool)
        ensures
            b == (self@ == other@),
    {
        let same_strategy = match (self.matching_strategy, other.matching_strategy) {
            (Some(a), Some(b)) => a == b,
            (None, None) => true,
            _ => false,
        };
        self.kind == other.kind && same_strategy && self.id == other.id
    }
}

impl Clone for IdWithIdentifier {
    fn clone(&self) -> (r: Self)
        ensures
            r@ == self@,
    {
        IdWithIdentifier { kind: self.kind, id: self.id.clone(), matching_strategy: self.matching_strategy }
    }
}

pub fn contains_rule(list: &Vec<IdWithIdentifier>, r: &IdWithIdentifier) -> (b: bool)
    ensures
        b == rules_view(list@).contains(r@),
{
    let mut i: usize = 0;
    while i < list.len()
        invariant
            i <= list.len(),
            forall|j: int| 0 <= j < i ==> list@[j]@ != r@,
        decreases list.len() - i,
    {
        if list[i].same_as(r) {
            assert(rules_view(list@)[i as int] == r@);
            return true;
        }
        i = i + 1;
    }
    proof {
        if rules_view(list@).contains(r@) {
            let k = choose|k: int| 0 <= k < rules_view(list@).len() && rules_view(list@)[k] == r@;
            assert(list@[k]@ == r@);
        }
    }
    false
}

/// Merges `incoming` into `list`, appending to `pending` the identifiers of the
/// regular-expression rules that were added.
pub fn merge_list(list: &mut Vec<IdWithIdentifier>, incoming: &Vec<IdWithIdentifier>, pending: &mut Vec<String>)
    ensures
        rules_view(final(list)@) == merge_rules(rules_view(old(list)@), rules_view(incoming@)),
        strings_view(final(pending)@) == strings_view(old(pending)@) + added_patterns(
            rules_view(old(list)@),
            rules_view(incoming@),
        ),
{
    let ghost base = rules_view(list@);
    let ghost pending0 = strings_view(pending@);
    let ghost inc = rules_view(incoming@);
    let mut i: usize = 0;
    assert(inc.subrange(0, 0) =~= Seq::<RuleModel>::empty());
    assert(strings_view(pending@) =~= pending0 + Seq::<Seq<char>>::empty());
    while i < incoming.len()
        invariant
            i <= incoming.len(),
            inc == rules_view(incoming@),
            rules_view(list@) == merge_rules(base, inc.subrange(0, i as int)),
            strings_view(pending@) == pending0 + added_patterns(base, inc.subrange(0, i as int)),
        decreases incoming.len() - i,
    {
        let r = incoming[i].normalized();
        let ghost next = inc.subrange(0, i + 1);
        assert(next.drop_last() =~= inc.subrange(0, i as int));
        assert(next.last() == incoming@[i as int]@);
        let ghost prefix = rules_view(list@);
        if !contains_rule(list, &r) {
            let is_regex = match r.matching_strategy {
                Some(MatchingStrategy::Regex) => true,
                _ => false,
            };
            if is_regex {
                let ghost p = strings_view(pending@);
                pending.push(r.id.clone());
                assert(strings_view(pending@) =~= p.push(r.id@));
            }
            let ghost rv = r@;
            let ghost l = list@;
            list.push(r);
            assert(rules_view(list@) =~= prefix.push(rv)) by {
                assert(list@ == l.push(r));
            }
        }
        assert(strings_view(pending@) =~= pending0 + added_patterns(base, next));
        i = i + 1;
    }
    assert(inc.subrange(0, incoming@.len() as int) =~= inc);
}

} // verus!
