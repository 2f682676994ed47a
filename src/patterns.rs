use vstd::prelude::*;

verus! {

#[verifier::external_type_specification]
#[verifier::external_body]
pub struct ExRegex(regex::Regex);

#[verifier::external_type_specification]
#[verifier::external_body]
pub struct ExRegexError(regex::Error);

/// Whether `pattern` is accepted as a regular expression; this depends on the
/// pattern text alone.
pub uninterp spec fn pattern_compiles(pattern: Seq<char>) -> bool;

/// Relies on regex::Regex::new: it compiles the pattern, or refuses it when it is
/// invalid or would exceed the default size limit; either way the pattern text
/// alone decides.
#[verifier::external_body]
pub(crate) fn compile_pattern(pattern: &str) -> (r: Result<regex::Regex, regex::Error>)
    ensures
        r is Ok <==> pattern_compiles(pattern@),
{
    regex::Regex::new(pattern)
}

/// Compiled patterns keyed by their text; each text is held at most once.
#[derive(Debug)]
pub struct PatternCache {
    pub ids: Vec<String>,
    pub patterns: Vec<regex::Regex>,
}

pub open spec fn keys_of(ids: Seq<String>) -> Set<Seq<char>> {
    ids.map_values(|s: String| s@).to_set()
}

impl PatternCache {
    /// The texts of the cached patterns.
    pub open spec fn keys(&self) -> Set<Seq<char>> {
        keys_of(self.ids@)
    }

    pub open spec fn wf(&self) -> bool {
        &&& self.ids.len() == self.patterns.len()
        &&& forall|i: int, j: int|
            0 <= i < j < self.ids.len() ==> self.ids@[i]@ != self.ids@[j]@
        &&& forall|i: int| 0 <= i < self.ids.len() ==> pattern_compiles(#[trigger] self.ids@[i]@)
    }

    pub fn new() -> (c: Self)
        ensures
            c.wf(),
            c.keys() == Set::<Seq<char>>::empty(),
    {
        let c = PatternCache { ids: Vec::new(), patterns: Vec::new() };
        assert(c.keys() =~= Set::<Seq<char>>::empty());
        c
    }

    pub fn len(&self) -> (n: usize)
        requires
            self.wf(),
        ensures
            n == self.keys().len(),
    {
        proof {
            let v = self.ids@.map_values(|s: String| s@);
            assert(v.no_duplicates()) by {
                assert forall|i: int, j: int| 0 <= i < v.len() && 0 <= j < v.len() && i != j implies v[i] != v[j] by {
                    if i < j {
                        assert(self.ids@[i]@ != self.ids@[j]@);
                    } else {
                        assert(self.ids@[j]@ != self.ids@[i]@);
                    }
                }
            }
            v.unique_seq_to_set();
        }
        self.ids.len()
    }

    pub fn contains(&self, id: &String) -> (b: bool)
        ensures
            b == self.keys().contains(id@),
    {
        let mut i: usize = 0;
        while i < self.ids.len()
            invariant
                i <= self.ids.len(),
                forall|j: int| 0 <= j < i ==> self.ids@[j]@ != id@,
            decreases self.ids.len() - i,
        {
            if self.ids[i] == *id {
                assert(self.ids@.map_values(|s: String| s@)[i as int] == id@);
                return true;
            }
            i = i + 1;
        }
        proof {
            if self.keys().contains(id@) {
                let v = self.ids@.map_values(|s: String| s@);
                let k = choose|k: int| 0 <= k < v.len() && v[k] == id@;
                assert(self.ids@[k]@ == id@);
            }
        }
        false
    }
}

} // verus!
