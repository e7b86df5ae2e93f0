//! Selectors: the ordered predicates that filter the objects of a query.

use vstd::prelude::*;

verus! {

/// One predicate on an object's tags. `operator` and `value` are kept as the
/// query wrote them; `not` negates the whole test.
#[derive(Debug, PartialEq, Eq)]
pub struct Selector {
    pub not: bool,
    pub key: String,
    pub operator: Option<String>,
    pub value: Option<String>,
}

/// The mathematical value of a [`Selector`].
pub struct SelectorView {
    pub not: bool,
    pub key: Seq<char>,
    pub operator: Option<Seq<char>>,
    pub value: Option<Seq<char>>,
}

/// The view of an optional string.
pub open spec fn text_view(t: Option<String>) -> Option<Seq<char>> {
    match t {
        Some(s) => Some(s@),
        None => None,
    }
}

impl View for Selector {
    type V = SelectorView;

    open spec fn view(&self) -> SelectorView {
        SelectorView {
            not: self.not,
            key: self.key@,
            operator: text_view(self.operator),
            value: text_view(self.value),
        }
    }
}

fn copy_text(t: &Option<String>) -> (copy: Option<String>)
    ensures
        text_view(copy) == text_view(*t),
{
    match t {
        Some(s) => Some(s.clone()),
        None => None,
    }
}

impl Clone for Selector {
    fn clone(&self) -> (copy: Self)
        ensures
            copy@ == self@,
    {
        Selector {
            not: self.not,
            key: self.key.clone(),
            operator: copy_text(&self.operator),
            value: copy_text(&self.value),
        }
    }
}

/// An ordered list of predicates, independent of the request it came from.
#[derive(Debug, PartialEq, Eq)]
pub struct Selectors {
    pub selectors: Vec<Selector>,
}

impl View for Selectors {
    type V = Seq<SelectorView>;

    open spec fn view(&self) -> Seq<SelectorView> {
        self.selectors@.map_values(|s: Selector| s@)
    }
}

/// The views of a list of strings.
pub open spec fn texts(v: Seq<String>) -> Seq<Seq<char>> {
    v.map_values(|s: String| s@)
}

/// The keys of the predicates that are not negated, in the order of the list.
pub open spec fn positive_keys(s: Seq<SelectorView>) -> Seq<Seq<char>> {
    s.filter(|p: SelectorView| !p.not).map_values(|p: SelectorView| p.key)
}

impl Clone for Selectors {
    /// A structural copy that shares nothing with the list it was made from.
    fn clone(&self) -> (copy: Self)
        ensures
            copy@ == self@,
    {
        let mut items: Vec<Selector> = Vec::new();
        let mut i: usize = 0;
        while i < self.selectors.len()
            invariant
                i <= self.selectors.len(),
                items.len() == i,
                forall|k: int| 0 <= k < i ==> (#[trigger] items[k])@ == self.selectors[k]@,
            decreases self.selectors.len() - i,
        {
            items.push(self.selectors[i].clone());
            i += 1;
        }
        let copy = Selectors { selectors: items };
        assert(copy@ =~= self@);
        copy
    }
}

impl Selectors {
    /// How many predicates the list holds.
    pub fn len(&self) -> (n: usize)
        ensures
            n == self@.len(),
    {
        self.selectors.len()
    }

    /// Whether the list holds no predicate, and so constrains nothing.
    pub fn is_empty(&self) -> (b: bool)
        ensures
            b == (self@.len() == 0),
    {
        self.selectors.len() == 0
    }

    /// The keys that an object must carry: those of the predicates that are
    /// not negated, in definition order. An empty list constrains nothing and
    /// gives `None`.
    pub fn keys(&self) -> (keys: Option<Vec<String>>)
        ensures
            self@.len() == 0 ==> keys is None,
            self@.len() > 0 ==> keys is Some && texts(keys->Some_0@) == positive_keys(self@),
    {
        if self.selectors.len() == 0 {
            return None;
        }
        let mut out: Vec<String> = Vec::new();
        let mut i: usize = 0;
        while i < self.selectors.len()
            invariant
                i <= self.selectors.len(),
                texts(out@) == positive_keys(self@.take(i as int)),
            decreases self.selectors.len() - i,
        {
            proof {
                lemma_positive_keys_step(self@, i as int);
            }
            if !self.selectors[i].not {
                let ghost before = out@;
                out.push(self.selectors[i].key.clone());
                assert(texts(out@) =~= texts(before).push(self.selectors[i as int].key@));
            }
            i += 1;
        }
        assert(self@.take(i as int) =~= self@);
        Some(out)
    }

    /// The result of matching tags against this list, given the verdict of the
    /// predicate evaluation: `None` when every predicate is satisfied, else the
    /// failing keys. An empty list always matches, whatever the verdict.
    pub fn settle_match(&self, verdict: Option<Vec<String>>) -> (outcome: Option<Vec<String>>)
        ensures
            self@.len() == 0 ==> outcome is None,
            self@.len() > 0 ==> outcome == verdict,
    {
        if self.selectors.len() == 0 {
            None
        } else {
            verdict
        }
    }
}

/// Taking one more predicate into account appends its key exactly when it is
/// not negated.
pub proof fn lemma_positive_keys_step(s: Seq<SelectorView>, i: int)
    requires
        0 <= i < s.len(),
    ensures
        positive_keys(s.take(i + 1)) == if s[i].not {
            positive_keys(s.take(i))
        } else {
            positive_keys(s.take(i)).push(s[i].key)
        },
{
    let pred = |p: SelectorView| !p.not;
    reveal(Seq::filter);
    assert(s.take(i + 1).drop_last() =~= s.take(i));
    assert(s.take(i + 1).last() == s[i]);
    assert(s.take(i + 1).filter(pred) == if pred(s[i]) {
        s.take(i).filter(pred).push(s[i])
    } else {
        s.take(i).filter(pred)
    });
    if !s[i].not {
        assert(positive_keys(s.take(i + 1)) =~= positive_keys(s.take(i)).push(s[i].key));
    }
}

/// No key of a negated predicate is required, and every required key belongs
/// to some predicate of the list that is not negated.
pub proof fn lemma_positive_keys_sound(s: Seq<SelectorView>, k: int)
    requires
        0 <= k < positive_keys(s).len(),
    ensures
        exists|i: int| 0 <= i < s.len() && !(#[trigger] s[i]).not && s[i].key == positive_keys(s)[k],
{
    let pred = |p: SelectorView| !p.not;
    let kept = s.filter(pred);
    assert(positive_keys(s)[k] == kept[k].key);
    s.lemma_filter_pred(pred, k);
    assert(kept.contains(kept[k]));
    s.lemma_filter_contains_rev(pred, kept[k]);
    let i = choose|i: int| 0 <= i < s.len() && s[i] == kept[k];
    assert(!s[i].not && s[i].key == positive_keys(s)[k]);
}

} // verus!
