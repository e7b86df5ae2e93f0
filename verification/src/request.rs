//! A parsed request: the tree of queries from which selectors are extracted.

use crate::error::{BridgeError, BridgeErrorView, StructuralFault};
use crate::selectors::{SelectorView, Selectors};
use vstd::prelude::*;

verus! {

broadcast use vstd::std_specs::vec::group_vec_axioms;

/// One query of a request.
#[derive(Debug, PartialEq, Eq)]
pub enum Query {
    /// A plain object query with its selectors.
    Objects(Selectors),
    /// A union of queries, in source order.
    Union(Vec<Query>),
    /// A recursion step; it carries no selectors.
    Recurse,
}

/// One top-level statement of a request.
#[derive(Debug, PartialEq, Eq)]
pub enum Subrequest {
    /// A query.
    Query(Query),
    /// Any other statement, such as an output directive.
    Other,
}

/// The root of a parsed query text.
#[derive(Debug, PartialEq, Eq)]
pub struct Request {
    pub subrequests: Vec<Subrequest>,
}

/// The selectors lists of every object query under `q`, depth first and left
/// to right, unions flattened, recursions skipped.
pub open spec fn flatten(q: Query) -> Seq<Seq<SelectorView>>
    decreases q, 0nat,
{
    match q {
        Query::Objects(s) => seq![s@],
        Query::Union(qs) => flatten_first(qs@, qs@.len()),
        Query::Recurse => Seq::empty(),
    }
}

/// What [`flatten`] gives for the first `n` queries of `qs`, one after another.
pub open spec fn flatten_first(qs: Seq<Query>, n: nat) -> Seq<Seq<SelectorView>>
    decreases qs, n,
{
    if n == 0 || n > qs.len() {
        Seq::empty()
    } else {
        flatten_first(qs, (n - 1) as nat) + flatten(qs[n - 1])
    }
}

/// The selectors lists under one top-level statement.
pub open spec fn subrequest_lists(s: Subrequest) -> Seq<Seq<SelectorView>> {
    match s {
        Subrequest::Query(q) => flatten(q),
        Subrequest::Other => Seq::empty(),
    }
}

/// The selectors lists under the first `n` top-level statements.
pub open spec fn lists_of_first(subs: Seq<Subrequest>, n: nat) -> Seq<Seq<SelectorView>>
    decreases n,
{
    if n == 0 || n > subs.len() {
        Seq::empty()
    } else {
        lists_of_first(subs, (n - 1) as nat) + subrequest_lists(subs[n - 1])
    }
}

/// The lists of `all` that hold at least one predicate, in order.
pub open spec fn non_empty(all: Seq<Seq<SelectorView>>) -> Seq<Seq<SelectorView>> {
    all.filter(|l: Seq<SelectorView>| l.len() > 0)
}

/// Every non-empty selectors list of a request, in source order.
pub open spec fn all_selectors_of(r: Request) -> Seq<Seq<SelectorView>> {
    non_empty(lists_of_first(r.subrequests@, r.subrequests@.len()))
}

/// The views of a list of selectors lists.
pub open spec fn lists(v: Seq<Selectors>) -> Seq<Seq<SelectorView>> {
    v.map_values(|s: Selectors| s@)
}

/// Whether the first top-level statement is a plain object query.
pub open spec fn starts_with_objects(r: Request) -> bool {
    r.subrequests@.len() > 0 && r.subrequests@[0] is Query && r.subrequests@[0]->Query_0 is Objects
}

/// Filtering two runs of lists one after the other is filtering their
/// concatenation, and a single list stays exactly when it is not empty.
pub proof fn lemma_non_empty_parts(a: Seq<Seq<SelectorView>>, b: Seq<Seq<SelectorView>>)
    ensures
        non_empty(a + b) == non_empty(a) + non_empty(b),
        non_empty(Seq::empty()) == Seq::<Seq<SelectorView>>::empty(),
        b.len() == 1 ==> non_empty(b) == if b[0].len() > 0 {
            b
        } else {
            Seq::empty()
        },
{
    let pred = |l: Seq<SelectorView>| l.len() > 0;
    Seq::filter_distributes_over_add(a, b, pred);
    reveal(Seq::filter);
    assert(Seq::<Seq<SelectorView>>::empty().filter(pred) =~= Seq::empty());
    if b.len() == 1 {
        assert(b.drop_last() =~= Seq::empty());
        assert(b.filter(pred) =~= if b[0].len() > 0 {
            b
        } else {
            Seq::empty()
        });
    }
}

/// No list handed out by the extraction of all selectors is empty.
pub proof fn lemma_all_selectors_hold_predicates(r: Request, i: int)
    requires
        0 <= i < all_selectors_of(r).len(),
    ensures
        all_selectors_of(r)[i].len() > 0,
{
    let pred = |l: Seq<SelectorView>| l.len() > 0;
    lists_of_first(r.subrequests@, r.subrequests@.len()).lemma_filter_pred(pred, i);
}

/// A request whose first statement is a plain object query with at least one
/// predicate has those selectors first among all its selectors.
pub proof fn lemma_first_selectors_lead(r: Request)
    requires
        starts_with_objects(r),
        r.subrequests@[0]->Query_0->Objects_0@.len() > 0,
    ensures
        all_selectors_of(r).len() > 0,
        all_selectors_of(r)[0] == r.subrequests@[0]->Query_0->Objects_0@,
{
    let subs = r.subrequests@;
    let first = subs[0]->Query_0->Objects_0@;
    lemma_lists_start_with_first(subs, subs.len());
    let all = lists_of_first(subs, subs.len());
    let rest = all.skip(1);
    assert(subrequest_lists(subs[0]) =~= seq![first]);
    assert(all.take(1)[0] == first);
    assert(all =~= seq![first] + rest);
    lemma_non_empty_parts(seq![first], rest);
    lemma_non_empty_parts(Seq::empty(), seq![first]);
    assert(non_empty(all) == seq![first] + non_empty(rest));
}

/// The lists under the first `n` statements begin with those under the first one.
proof fn lemma_lists_start_with_first(subs: Seq<Subrequest>, n: nat)
    requires
        1 <= n <= subs.len(),
    ensures
        lists_of_first(subs, n).len() >= subrequest_lists(subs[0]).len(),
        lists_of_first(subs, n).take(subrequest_lists(subs[0]).len() as int) == subrequest_lists(
            subs[0],
        ),
    decreases n,
{
    let head = subrequest_lists(subs[0]);
    if n == 1 {
        assert(lists_of_first(subs, 0) =~= Seq::empty());
        assert(lists_of_first(subs, 1) =~= head);
        assert(lists_of_first(subs, 1).take(head.len() as int) =~= head);
    } else {
        lemma_lists_start_with_first(subs, (n - 1) as nat);
        let before = lists_of_first(subs, (n - 1) as nat);
        assert(lists_of_first(subs, n) == before + subrequest_lists(subs[n - 1]));
        assert(lists_of_first(subs, n).take(head.len() as int) =~= before.take(head.len() as int));
    }
}

impl Query {
    /// Appends to `out` a copy of each non-empty selectors list under this
    /// query, in source order.
    pub fn collect_into(&self, out: &mut Vec<Selectors>)
        ensures
            lists(final(out)@) == lists(old(out)@) + non_empty(flatten(*self)),
        decreases *self,
    {
        proof {
            lemma_non_empty_parts(Seq::empty(), Seq::empty());
            assert(lists(out@) + Seq::<Seq<SelectorView>>::empty() =~= lists(out@));
        }
        match self {
            Query::Objects(s) => {
                proof {
                    lemma_non_empty_parts(Seq::empty(), seq![s@]);
                }
                if !s.is_empty() {
                    let ghost before = out@;
                    out.push(s.clone());
                    assert(lists(out@) =~= lists(before) + seq![s@]);
                }
            },
            Query::Union(qs) => {
                let mut i: usize = 0;
                while i < qs.len()
                    invariant
                        i <= qs.len(),
                        *self == Query::Union(*qs),
                        lists(out@) == lists(old(out)@) + non_empty(flatten_first(qs@, i as nat)),
                    decreases qs.len() - i,
                {
                    proof {
                        lemma_non_empty_parts(flatten_first(qs@, i as nat), flatten(qs@[i as int]));
                        assert(self->Union_0 == *qs);
                        assert(decreases_to!(*self => self->Union_0));
                        assert(decreases_to!(*qs => qs[i as int]));
                    }
                    qs[i].collect_into(out);
                    assert(lists(out@) =~= lists(old(out)@) + (non_empty(
                        flatten_first(qs@, i as nat),
                    ) + non_empty(flatten(qs@[i as int]))));
                    i += 1;
                }
            },
            Query::Recurse => {},
        }
    }
}

impl Request {
    /// Turns the parser's answer into the bridge's: a request is handed on as
    /// it is, a diagnostic becomes a parsing error that carries it.
    pub fn from_parse_outcome(outcome: Result<Request, String>) -> (parsed: Result<
        Request,
        BridgeError,
    >)
        ensures
            match outcome {
                Ok(r) => parsed == Ok::<Request, BridgeError>(r),
                Err(d) => parsed is Err && parsed->Err_0@ == BridgeErrorView::Parsing(d@),
            },
    {
        match outcome {
            Ok(r) => Ok(r),
            Err(d) => Err(BridgeError::Parsing(d)),
        }
    }

    /// The selectors of the first top-level statement, copied out of the
    /// request. The statement must be a plain object query.
    pub fn extract_first_selectors(&self) -> (found: Result<Selectors, BridgeError>)
        ensures
            starts_with_objects(*self) ==> found is Ok && found->Ok_0@
                == self.subrequests@[0]->Query_0->Objects_0@,
            self.subrequests@.len() == 0 ==> found is Err && found->Err_0@
                == BridgeErrorView::Structure(StructuralFault::NoSubrequests),
            self.subrequests@.len() > 0 && !starts_with_objects(*self) ==> found is Err
                && found->Err_0@ == BridgeErrorView::Structure(
                StructuralFault::NotObjectQuery,
            ),
    {
        if self.subrequests.len() == 0 {
            return Err(BridgeError::Structure(StructuralFault::NoSubrequests));
        }
        match &self.subrequests[0] {
            Subrequest::Query(Query::Objects(s)) => Ok(s.clone()),
            _ => Err(BridgeError::Structure(StructuralFault::NotObjectQuery)),
        }
    }

    /// A copy of every non-empty selectors list of the request, depth first
    /// and left to right, as the queries stand in the source text.
    pub fn extract_all_selectors(&self) -> (found: Vec<Selectors>)
        ensures
            lists(found@) == all_selectors_of(*self),
    {
        let mut every: Vec<Selectors> = Vec::new();
        let mut i: usize = 0;
        proof {
            lemma_non_empty_parts(Seq::empty(), Seq::empty());
            assert(lists(every@) =~= Seq::<Seq<SelectorView>>::empty());
        }
        while i < self.subrequests.len()
            invariant
                i <= self.subrequests.len(),
                lists(every@) == non_empty(lists_of_first(self.subrequests@, i as nat)),
            decreases self.subrequests.len() - i,
        {
            proof {
                lemma_non_empty_parts(
                    lists_of_first(self.subrequests@, i as nat),
                    subrequest_lists(self.subrequests@[i as int]),
                );
                lemma_non_empty_parts(Seq::empty(), Seq::empty());
            }
            match &self.subrequests[i] {
                Subrequest::Query(q) => {
                    q.collect_into(&mut every);
                },
                Subrequest::Other => {
                    assert(lists(every@) + Seq::<Seq<SelectorView>>::empty() =~= lists(every@));
                },
            }
            i += 1;
        }
        every
    }
}

} // verus!
