use vstd::prelude::*;
use crate::rules::{
    IdWithIdentifier, RuleModel, rules_view, strings_view, merge_rules, added_patterns, merge_list,
};
use crate::patterns::{PatternCache, keys_of, pattern_compiles};
use crate::patterns::compile_pattern;
use crate::laws_rules::{lemma_merge_extends, lemma_merge_no_duplicates};

verus! {

/// Why a configuration could not be applied.
#[derive(Debug)]
pub enum ConfigError {
    /// A rule with the regular-expression strategy holds this identifier, which
    /// does not compile.
    InvalidPattern(String),
}

/// Incoming rules, one list per registry list.
#[derive(Debug)]
pub struct RuleSets {
    pub float_rules: Vec<IdWithIdentifier>,
    pub manage_rules: Vec<IdWithIdentifier>,
    pub object_name_change_rules: Vec<IdWithIdentifier>,
    pub layered_rules: Vec<IdWithIdentifier>,
    pub border_overflow_rules: Vec<IdWithIdentifier>,
    pub tray_and_multi_window_rules: Vec<IdWithIdentifier>,
}

/// The window classification rules in force, and the compiled patterns of the
/// regular-expression ones.
#[derive(Debug)]
pub struct RuleRegistry {
    pub float_identifiers: Vec<IdWithIdentifier>,
    pub manage_identifiers: Vec<IdWithIdentifier>,
    pub object_name_change_identifiers: Vec<IdWithIdentifier>,
    pub layered_identifiers: Vec<IdWithIdentifier>,
    pub border_overflow_identifiers: Vec<IdWithIdentifier>,
    pub tray_and_multi_window_identifiers: Vec<IdWithIdentifier>,
    pub regex_identifiers: PatternCache,
}

pub struct RuleSetsModel {
    pub float: Seq<RuleModel>,
    pub manage: Seq<RuleModel>,
    pub object_name_change: Seq<RuleModel>,
    pub layered: Seq<RuleModel>,
    pub border_overflow: Seq<RuleModel>,
    pub tray_and_multi_window: Seq<RuleModel>,
}

#[verifier::ext_equal]
pub struct RegistryModel {
    pub float: Seq<RuleModel>,
    pub manage: Seq<RuleModel>,
    pub object_name_change: Seq<RuleModel>,
    pub layered: Seq<RuleModel>,
    pub border_overflow: Seq<RuleModel>,
    pub tray_and_multi_window: Seq<RuleModel>,
    /// The texts of the cached patterns.
    pub patterns: Set<Seq<char>>,
}

impl View for RuleSets {
    type V = RuleSetsModel;

    open spec fn view(&self) -> RuleSetsModel {
        RuleSetsModel {
            float: rules_view(self.float_rules@),
            manage: rules_view(self.manage_rules@),
            object_name_change: rules_view(self.object_name_change_rules@),
            layered: rules_view(self.layered_rules@),
            border_overflow: rules_view(self.border_overflow_rules@),
            tray_and_multi_window: rules_view(self.tray_and_multi_window_rules@),
        }
    }
}

impl View for RuleRegistry {
    type V = RegistryModel;

    open spec fn view(&self) -> RegistryModel {
        RegistryModel {
            float: rules_view(self.float_identifiers@),
            manage: rules_view(self.manage_identifiers@),
            object_name_change: rules_view(self.object_name_change_identifiers@),
            layered: rules_view(self.layered_identifiers@),
            border_overflow: rules_view(self.border_overflow_identifiers@),
            tray_and_multi_window: rules_view(self.tray_and_multi_window_identifiers@),
            patterns: self.regex_identifiers.keys(),
        }
    }
}

/// The pattern texts, in order, that merging `s` into `r` adds.
pub open spec fn all_added_patterns(r: RegistryModel, s: RuleSetsModel) -> Seq<Seq<char>> {
    added_patterns(r.float, s.float) + added_patterns(r.manage, s.manage) + added_patterns(
        r.object_name_change,
        s.object_name_change,
    ) + added_patterns(r.layered, s.layered) + added_patterns(r.border_overflow, s.border_overflow)
        + added_patterns(r.tray_and_multi_window, s.tray_and_multi_window)
}

/// Whether every pattern that merging `s` into `r` adds compiles.
pub open spec fn merge_succeeds(r: RegistryModel, s: RuleSetsModel) -> bool {
    forall|i: int|
        0 <= i < all_added_patterns(r, s).len() ==> pattern_compiles(
            #[trigger] all_added_patterns(r, s)[i],
        )
}

/// The registry after merging `s` into `r`.
pub open spec fn merged_registry(r: RegistryModel, s: RuleSetsModel) -> RegistryModel {
    RegistryModel {
        float: merge_rules(r.float, s.float),
        manage: merge_rules(r.manage, s.manage),
        object_name_change: merge_rules(r.object_name_change, s.object_name_change),
        layered: merge_rules(r.layered, s.layered),
        border_overflow: merge_rules(r.border_overflow, s.border_overflow),
        tray_and_multi_window: merge_rules(r.tray_and_multi_window, s.tray_and_multi_window),
        patterns: r.patterns + all_added_patterns(r, s).to_set(),
    }
}

pub open spec fn registry_model_wf(r: RegistryModel) -> bool {
    &&& r.float.no_duplicates()
    &&& r.manage.no_duplicates()
    &&& r.object_name_change.no_duplicates()
    &&& r.layered.no_duplicates()
    &&& r.border_overflow.no_duplicates()
    &&& r.tray_and_multi_window.no_duplicates()
}

fn rollback(list: &mut Vec<IdWithIdentifier>, len: usize, Ghost(orig): Ghost<Seq<RuleModel>>, Ghost(inc): Ghost<Seq<RuleModel>>)
    requires
        orig.len() == len,
        rules_view(old(list)@) == merge_rules(orig, inc),
    ensures
        rules_view(final(list)@) == orig,
{
    proof {
        lemma_merge_extends(orig, inc);
    }
    let ghost before = list@;
    list.truncate(len);
    assert(rules_view(list@) =~= rules_view(before).subrange(0, len as int));
}

impl RuleSets {
    pub fn new() -> (s: Self)
        ensures
            s@.float.len() == 0,
            s@.manage.len() == 0,
            s@.object_name_change.len() == 0,
            s@.layered.len() == 0,
            s@.border_overflow.len() == 0,
            s@.tray_and_multi_window.len() == 0,
    {
        RuleSets {
            float_rules: Vec::new(),
            manage_rules: Vec::new(),
            object_name_change_rules: Vec::new(),
            layered_rules: Vec::new(),
            border_overflow_rules: Vec::new(),
            tray_and_multi_window_rules: Vec::new(),
        }
    }
}

impl RuleRegistry {
    pub open spec fn wf(&self) -> bool {
        &&& registry_model_wf(self@)
        &&& self.regex_identifiers.wf()
    }

    /// An empty registry.
    pub fn new() -> (r: Self)
        ensures
            r.wf(),
            r@.float.len() == 0,
            r@.manage.len() == 0,
            r@.object_name_change.len() == 0,
            r@.layered.len() == 0,
            r@.border_overflow.len() == 0,
            r@.tray_and_multi_window.len() == 0,
            r@.patterns.len() == 0,
    {
        let r = RuleRegistry {
            float_identifiers: Vec::new(),
            manage_identifiers: Vec::new(),
            object_name_change_identifiers: Vec::new(),
            layered_identifiers: Vec::new(),
            border_overflow_identifiers: Vec::new(),
            tray_and_multi_window_identifiers: Vec::new(),
            regex_identifiers: PatternCache::new(),
        };
        assert(rules_view(r.float_identifiers@) =~= Seq::<RuleModel>::empty());
        assert(rules_view(r.manage_identifiers@) =~= Seq::<RuleModel>::empty());
        assert(rules_view(r.object_name_change_identifiers@) =~= Seq::<RuleModel>::empty());
        assert(rules_view(r.layered_identifiers@) =~= Seq::<RuleModel>::empty());
        assert(rules_view(r.border_overflow_identifiers@) =~= Seq::<RuleModel>::empty());
        assert(rules_view(r.tray_and_multi_window_identifiers@) =~= Seq::<RuleModel>::empty());
        r
    }

    /// Merges each incoming list into its registry list and compiles the
    /// pattern of each regular-expression rule added, once per pattern text.
    /// If a pattern does not compile the registry is left as it was.
    pub fn merge(&mut self, sets: &RuleSets) -> (res: Result<(), ConfigError>)
        requires
            old(self).wf(),
        ensures
            final(self).wf(),
            res is Ok <==> merge_succeeds(old(self)@, sets@),
            res is Ok ==> final(self)@ == merged_registry(old(self)@, sets@),
            res is Err ==> final(self)@ == old(self)@,
    {
        let ghost r0 = self@;
        let ghost s0 = sets@;
        let l_float = self.float_identifiers.len();
        let l_manage = self.manage_identifiers.len();
        let l_onc = self.object_name_change_identifiers.len();
        let l_layered = self.layered_identifiers.len();
        let l_overflow = self.border_overflow_identifiers.len();
        let l_tray = self.tray_and_multi_window_identifiers.len();
        let mut pending: Vec<String> = Vec::new();
        merge_list(&mut self.float_identifiers, &sets.float_rules, &mut pending);
        merge_list(&mut self.manage_identifiers, &sets.manage_rules, &mut pending);
        merge_list(&mut self.object_name_change_identifiers, &sets.object_name_change_rules, &mut pending);
        merge_list(&mut self.layered_identifiers, &sets.layered_rules, &mut pending);
        merge_list(&mut self.border_overflow_identifiers, &sets.border_overflow_rules, &mut pending);
        merge_list(&mut self.tray_and_multi_window_identifiers, &sets.tray_and_multi_window_rules, &mut pending);
        let ghost added = all_added_patterns(r0, s0);
        assert(strings_view(pending@) =~= added);
        let ghost cache_keys = self.regex_identifiers.keys();
        let mut new_ids: Vec<String> = Vec::new();
        let mut new_patterns: Vec<regex::Regex> = Vec::new();
        let mut i: usize = 0;
        while i < pending.len()
            invariant
                i <= pending.len(),
                strings_view(pending@) == added,
                self.regex_identifiers.wf(),
                self.regex_identifiers.keys() == cache_keys,
                cache_keys == r0.patterns,
                rules_view(self.float_identifiers@) == merge_rules(r0.float, s0.float),
                rules_view(self.manage_identifiers@) == merge_rules(r0.manage, s0.manage),
                rules_view(self.object_name_change_identifiers@) == merge_rules(r0.object_name_change, s0.object_name_change),
                rules_view(self.layered_identifiers@) == merge_rules(r0.layered, s0.layered),
                rules_view(self.border_overflow_identifiers@) == merge_rules(r0.border_overflow, s0.border_overflow),
                rules_view(self.tray_and_multi_window_identifiers@) == merge_rules(r0.tray_and_multi_window, s0.tray_and_multi_window),
                new_ids.len() == new_patterns.len(),
                registry_model_wf(r0),
                r0 == old(self)@,
                s0 == sets@,
                added == all_added_patterns(r0, s0),
                r0.float.len() == l_float,
                r0.manage.len() == l_manage,
                r0.object_name_change.len() == l_onc,
                r0.layered.len() == l_layered,
                r0.border_overflow.len() == l_overflow,
                r0.tray_and_multi_window.len() == l_tray,
                forall|a: int, b: int| 0 <= a < b < new_ids.len() ==> new_ids@[a]@ != new_ids@[b]@,
                forall|a: int| 0 <= a < new_ids.len() ==> pattern_compiles(#[trigger] new_ids@[a]@),
                forall|a: int| 0 <= a < new_ids.len() ==> !cache_keys.contains(#[trigger] new_ids@[a]@),
                cache_keys + keys_of(new_ids@) == cache_keys + added.subrange(0, i as int).to_set(),
                forall|a: int| 0 <= a < i ==> pattern_compiles(#[trigger] added[a]),
            decreases pending.len() - i,
        {
            let id = &pending[i];
            assert(id@ == added[i as int]);
            let ghost sub = added.subrange(0, i as int);
            assert(added.subrange(0, i + 1) =~= sub.push(id@));
            proof {
                sub.lemma_push_to_set_commute(id@);
            }
            let cached = self.regex_identifiers.contains(id);
            let fresh = !cached && !vec_contains(&new_ids, id);
            if cached {
                proof {
                    let v = self.regex_identifiers.ids@.map_values(|s: String| s@);
                    let k = choose|k: int| 0 <= k < v.len() && v[k] == id@;
                    assert(pattern_compiles(self.regex_identifiers.ids@[k]@));
                }
                assert(cache_keys + keys_of(new_ids@) =~= cache_keys + sub.push(id@).to_set());
            } else if !fresh {
                assert(keys_of(new_ids@).contains(id@));
                let ghost v = new_ids@.map_values(|s: String| s@);
                assert(exists|k: int| 0 <= k < v.len() && v[k] == id@);
                assert(cache_keys + keys_of(new_ids@) =~= cache_keys + sub.push(id@).to_set());
            } else {
                match compile_pattern(id.as_str()) {
                    Ok(re) => {
                        let ghost before = new_ids@;
                        new_ids.push(id.clone());
                        new_patterns.push(re);
                        assert(new_ids@ == before.push(*id));
                        assert(new_ids@.map_values(|s: String| s@) =~= before.map_values(|s: String| s@).push(id@));
                        proof {
                            before.map_values(|s: String| s@).lemma_push_to_set_commute(id@);
                            assert(keys_of(new_ids@) == keys_of(before).insert(id@));
                            assert(sub.push(id@).to_set() == sub.to_set().insert(id@));
                            assert(cache_keys + keys_of(before) == cache_keys + sub.to_set());
                            assert forall|y: Seq<char>| (cache_keys + keys_of(new_ids@)).contains(y) <==> (cache_keys + sub.push(id@).to_set()).contains(y) by {
                                assert((cache_keys + keys_of(before)).contains(y) == (cache_keys + sub.to_set()).contains(y));
                            }
                            assert forall|a: int, b: int| 0 <= a < b < new_ids.len() implies new_ids@[a]@ != new_ids@[b]@ by {
                                if b == new_ids.len() - 1 {
                                    assert(before.map_values(|s: String| s@)[a] == before[a]@);
                                }
                            }
                        }
                        assert(cache_keys + keys_of(new_ids@) =~= cache_keys + sub.push(id@).to_set());
                    },
                    Err(_) => {
                        let err = ConfigError::InvalidPattern(id.clone());
                        assert(!pattern_compiles(added[i as int]));
                        assert(!pattern_compiles(all_added_patterns(r0, s0)[i as int]));
                        assert(!merge_succeeds(r0, s0));
                        rollback(&mut self.float_identifiers, l_float, Ghost(r0.float), Ghost(s0.float));
                        rollback(&mut self.manage_identifiers, l_manage, Ghost(r0.manage), Ghost(s0.manage));
                        rollback(&mut self.object_name_change_identifiers, l_onc, Ghost(r0.object_name_change), Ghost(s0.object_name_change));
                        rollback(&mut self.layered_identifiers, l_layered, Ghost(r0.layered), Ghost(s0.layered));
                        rollback(&mut self.border_overflow_identifiers, l_overflow, Ghost(r0.border_overflow), Ghost(s0.border_overflow));
                        rollback(&mut self.tray_and_multi_window_identifiers, l_tray, Ghost(r0.tray_and_multi_window), Ghost(s0.tray_and_multi_window));
                        assert(self@ =~= r0);
                        return Err(err);
                    },
                }
            }
            i = i + 1;
        }
        assert(added.subrange(0, pending.len() as int) =~= added);
        self.append_patterns(new_ids, new_patterns);
        proof {
            lemma_merge_no_duplicates(r0.float, s0.float);
            lemma_merge_no_duplicates(r0.manage, s0.manage);
            lemma_merge_no_duplicates(r0.object_name_change, s0.object_name_change);
            lemma_merge_no_duplicates(r0.layered, s0.layered);
            lemma_merge_no_duplicates(r0.border_overflow, s0.border_overflow);
            lemma_merge_no_duplicates(r0.tray_and_multi_window, s0.tray_and_multi_window);
        }
        assert(self@ =~= merged_registry(r0, s0));
        Ok(())
    }

    fn append_patterns(&mut self, ids: Vec<String>, patterns: Vec<regex::Regex>)
        requires
            old(self).regex_identifiers.wf(),
            ids.len() == patterns.len(),
            forall|a: int, b: int| 0 <= a < b < ids.len() ==> ids@[a]@ != ids@[b]@,
            forall|a: int| 0 <= a < ids.len() ==> pattern_compiles(#[trigger] ids@[a]@),
            forall|a: int| 0 <= a < ids.len() ==> !old(self).regex_identifiers.keys().contains(#[trigger] ids@[a]@),
        ensures
            final(self).regex_identifiers.wf(),
            final(self).regex_identifiers.keys() == old(self).regex_identifiers.keys() + keys_of(ids@),
            final(self).float_identifiers == old(self).float_identifiers,
            final(self).manage_identifiers == old(self).manage_identifiers,
            final(self).object_name_change_identifiers == old(self).object_name_change_identifiers,
            final(self).layered_identifiers == old(self).layered_identifiers,
            final(self).border_overflow_identifiers == old(self).border_overflow_identifiers,
            final(self).tray_and_multi_window_identifiers == old(self).tray_and_multi_window_identifiers,
    {
        let ghost old_ids = self.regex_identifiers.ids@;
        let ghost ids_in = ids;
        let mut ids = ids;
        let mut patterns = patterns;
        self.regex_identifiers.ids.append(&mut ids);
        self.regex_identifiers.patterns.append(&mut patterns);
        let ghost n = self.regex_identifiers.ids@;
        proof {
            let ov = old_ids.map_values(|s: String| s@);
            let iv = ids_in@.map_values(|s: String| s@);
            assert(n.map_values(|s: String| s@) =~= ov + iv);
            vstd::seq_lib::seq_to_set_distributes_over_add(ov, iv);
            assert forall|a: int, b: int| 0 <= a < b < n.len() implies n[a]@ != n[b]@ by {
                if b >= old_ids.len() && a < old_ids.len() {
                    assert(ov[a] == n[a]@);
                    assert(ov.to_set().contains(n[a]@));
                    assert(ids_in@[b - old_ids.len()] == n[b]);
                } else if a >= old_ids.len() {
                    assert(ids_in@[a - old_ids.len()] == n[a]);
                    assert(ids_in@[b - old_ids.len()] == n[b]);
                }
            }
            assert forall|a: int| 0 <= a < n.len() implies pattern_compiles(#[trigger] n[a]@) by {
                if a >= old_ids.len() {
                    assert(ids_in@[a - old_ids.len()] == n[a]);
                }
            }
        }
    }
}

fn vec_contains(v: &Vec<String>, s: &String) -> (b: bool)
    ensures
        b == keys_of(v@).contains(s@),
{
    let mut i: usize = 0;
    while i < v.len()
        invariant
            i <= v.len(),
            forall|j: int| 0 <= j < i ==> v@[j]@ != s@,
        decreases v.len() - i,
    {
        if v[i] == *s {
            assert(v@.map_values(|x: String| x@)[i as int] == s@);
            return true;
        }
        i = i + 1;
    }
    proof {
        if keys_of(v@).contains(s@) {
            let w = v@.map_values(|x: String| x@);
            let k = choose|k: int| 0 <= k < w.len() && w[k] == s@;
            assert(v@[k]@ == s@);
        }
    }
    false
}


/// Merging the same rule sets a second time changes no list and compiles no
/// further pattern.
pub proof fn lemma_merge_twice(r: RegistryModel, s: RuleSetsModel)
    ensures
        merged_registry(merged_registry(r, s), s) == merged_registry(r, s),
        all_added_patterns(merged_registry(r, s), s).len() == 0,
{
    crate::laws_rules::lemma_merge_idempotent(r.float, s.float);
    crate::laws_rules::lemma_merge_idempotent(r.manage, s.manage);
    crate::laws_rules::lemma_merge_idempotent(r.object_name_change, s.object_name_change);
    crate::laws_rules::lemma_merge_idempotent(r.layered, s.layered);
    crate::laws_rules::lemma_merge_idempotent(r.border_overflow, s.border_overflow);
    crate::laws_rules::lemma_merge_idempotent(r.tray_and_multi_window, s.tray_and_multi_window);
    let m = merged_registry(r, s);
    assert(all_added_patterns(m, s) =~= Seq::<Seq<char>>::empty());
    assert(all_added_patterns(m, s).to_set() =~= Set::<Seq<char>>::empty());
    assert(merged_registry(m, s) =~= m);
}

} // verus!
