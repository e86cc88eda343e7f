//! Queries to the oracle that resolves types.
//!
//! A query asks for the resolved form of a type, read in a generic context
//! and behind some imports. The oracle is handed the queries of a batch, each
//! under a number, and answers with items: the item named `item_N` carries
//! the answer to query `N`.

use crate::decimal::{decimal_text, to_decimal};
use crate::generate::{Ty, TyV};
use crate::krate::bisect::{Part, Verdict};
use crate::krate::{is_part, located_on, run_or_locate_error, search_of};
use crate::names::same_text;
use crate::syntax::{copy_type, GenericParam, Type};
use vstd::prelude::*;
use vstd::string::StringExecFns;

verus! {

/// A query to the oracle.
#[derive(Debug, PartialEq, Eq)]
pub enum HaxQuery {
    /// What is the type `typ`, read with the generic parameters `generics`
    /// in scope and behind the imports `use_statements`?
    Type { generics: Vec<GenericParam>, typ: Type, use_statements: Vec<String> },
}

/// The answer to a query.
#[derive(Debug, PartialEq, Eq)]
pub enum HaxQueryRes {
    /// The type asked for, resolved.
    Type(Ty),
}

/// A query under its number in a batch.
#[derive(Debug, PartialEq, Eq)]
pub struct HaxQueryWithId(pub HaxQuery, pub usize);

/// An item of the answer of the oracle: the name of a function, and the
/// resolved type of its one parameter.
#[derive(Debug, PartialEq, Eq)]
pub struct ResolvedItem {
    pub name: String,
    pub ty: Ty,
}

/// Why a batch of queries has no answer.
#[derive(Debug, PartialEq, Eq)]
pub enum HaxQueryError {
    /// The oracle failed on `queries`, with `stderr`.
    HaxError { queries: Vec<HaxQuery>, stderr: String },
    /// The oracle answered, without an item for query `index`.
    MissingItem { index: usize },
}

/// What a query asks: the type, the generic parameters in scope, and the
/// imports behind which it is read.
pub struct QueryV {
    pub generics: Seq<crate::syntax::GenericParamV>,
    pub typ: crate::syntax::TypeV,
    pub use_statements: Seq<Seq<char>>,
}

impl View for HaxQuery {
    type V = QueryV;

    open spec fn view(&self) -> QueryV {
        QueryV {
            generics: crate::syntax::params_view(self->generics@),
            typ: self->typ@,
            use_statements: crate::contract::strings_view(self->use_statements@),
        }
    }
}

/// The views of a sequence of queries, in order.
pub open spec fn queries_view(v: Seq<HaxQuery>) -> Seq<QueryV> {
    Seq::new(v.len(), |i: int| v[i]@)
}

/// Whether `numbered` holds the queries `queries`, each under its index.
pub open spec fn numbering(queries: Seq<QueryV>, numbered: Seq<HaxQueryWithId>) -> bool {
    &&& numbered.len() == queries.len()
    &&& forall|i: int|
        0 <= i < numbered.len() ==> (#[trigger] numbered[i]).1 == i && numbered[i].0@ == queries[i]
}

/// Whether the oracle `run`, put the queries `queries` as the batch
/// `numbered`, answered with `items`, which carry the answers `res`.
pub open spec fn resolved_by<F>(
    run: F,
    queries: Seq<QueryV>,
    res: Seq<TyV>,
    numbered: &[HaxQueryWithId],
    items: Vec<ResolvedItem>,
) -> bool where F: Fn(&[HaxQueryWithId]) -> Result<Vec<ResolvedItem>, String> {
    &&& numbering(queries, numbered@)
    &&& call_ensures(run, (numbered,), Ok::<Vec<ResolvedItem>, String>(items))
    &&& res == answers(items@, queries.len())
}

/// Whether `tried` holds the queries of the part `part` of `queries`, each
/// under its index among `queries`.
pub open spec fn numbered_part(queries: Seq<QueryV>, tried: Seq<HaxQueryWithId>, part: Part) -> bool {
    &&& part.within(queries.len() as int)
    &&& tried.len() == part.len()
    &&& forall|j: int|
        0 <= j < tried.len() ==> (#[trigger] tried[j]).1 == part.start + j && tried[j].0@
            == queries[part.start + j]
}

/// Whether the search for the queries that are responsible ended so: the
/// oracle `run` was put the queries `queries` as the batch `numbered`, and
/// parts of it; the outcomes `trace` of these tries lead the search to blame
/// the part `part`, which `tried` and `blamed` hold, and on which the oracle
/// failed with `stderr`.
pub open spec fn refused_by<F>(
    run: F,
    queries: Seq<QueryV>,
    blamed: Seq<QueryV>,
    stderr: String,
    numbered: &[HaxQueryWithId],
    trace: Seq<bool>,
    part: Part,
    tried: &[HaxQueryWithId],
) -> bool where F: Fn(&[HaxQueryWithId]) -> Result<Vec<ResolvedItem>, String> {
    &&& numbering(queries, numbered@)
    &&& search_of(run, numbered@, trace, Verdict::Blamed(part))
    &&& numbered_part(queries, tried@, part)
    &&& blamed == queries.subrange(part.start as int, part.end as int)
    &&& call_ensures(run, (tried,), Err::<Vec<ResolvedItem>, String>(stderr))
}

/// Whether the oracle `run`, put the queries `queries` as the batch
/// `numbered`, answered with `items`, and query `index` is the first that
/// none of them answers.
pub open spec fn unanswered_by<F>(
    run: F,
    queries: Seq<QueryV>,
    index: nat,
    numbered: &[HaxQueryWithId],
    items: Vec<ResolvedItem>,
) -> bool where F: Fn(&[HaxQueryWithId]) -> Result<Vec<ResolvedItem>, String> {
    &&& numbering(queries, numbered@)
    &&& call_ensures(run, (numbered,), Ok::<Vec<ResolvedItem>, String>(items))
    &&& index < queries.len()
    &&& index == first_unanswered(items@, queries.len(), 0)
    &&& answer(items@, item_name(index)).is_none()
}

/// Whether `e` says how the oracle `run` failed on the queries `queries`: it
/// names the queries of the part that the search blames, on which the
/// oracle failed, with what the oracle said; or the first query that the
/// answer of the oracle to the whole batch does not answer.
pub open spec fn failed_by<F>(run: F, queries: Seq<QueryV>, e: HaxQueryError) -> bool where
    F: Fn(&[HaxQueryWithId]) -> Result<Vec<ResolvedItem>, String>,
 {
    match e {
        HaxQueryError::HaxError { queries: blamed, stderr } => 0 < blamed@.len() <= queries.len()
            && exists|
            numbered: &[HaxQueryWithId],
            trace: Seq<bool>,
            part: Part,
            tried: &[HaxQueryWithId],
        | #[trigger]
            refused_by(run, queries, queries_view(blamed@), stderr, numbered, trace, part, tried),
        HaxQueryError::MissingItem { index } => exists|
            numbered: &[HaxQueryWithId],
            items: Vec<ResolvedItem>,
        | #[trigger] unanswered_by(run, queries, index as nat, numbered, items),
    }
}

impl Clone for HaxQuery {
    fn clone(&self) -> (r: Self)
        ensures
            r@ == self@,
    {
        match self {
            HaxQuery::Type { generics, typ, use_statements } => {
                let mut g: Vec<GenericParam> = Vec::new();
                let mut i: usize = 0;
                while i < generics.len()
                    invariant
                        i <= generics.len(),
                        g@.len() == i,
                        forall|j: int| 0 <= j < i ==> g@[j]@ == generics@[j]@,
                    decreases generics.len() - i,
                {
                    g.push(generics[i].clone());
                    i += 1;
                }
                assert(crate::syntax::params_view(g@) =~= crate::syntax::params_view(generics@));
                HaxQuery::Type {
                    generics: g,
                    typ: copy_type(typ),
                    use_statements: crate::contract::copy_strings(use_statements),
                }
            },
        }
    }
}

/// The name of the item that answers query `i`.
pub open spec fn item_name(i: nat) -> Seq<char> {
    "item_"@ + decimal_text(i)
}

/// The name of the item that answers query `i`.
pub fn item_name_of(i: usize) -> (r: String)
    ensures
        r@ == item_name(i as nat),
{
    let mut r = String::from_str("item_");
    r.append(to_decimal(i as u128).as_str());
    r
}

/// The type that the last of the items named `name` carries.
pub open spec fn answer(items: Seq<ResolvedItem>, name: Seq<char>) -> Option<TyV>
    decreases items.len(),
{
    if items.len() == 0 {
        None
    } else if items.last().name@ == name {
        Some(items.last().ty@)
    } else {
        answer(items.drop_last(), name)
    }
}

/// The answers that the items carry to the first `n` queries, in order.
pub open spec fn answers(items: Seq<ResolvedItem>, n: nat) -> Seq<TyV> {
    Seq::new(n, |i: int| answer(items, item_name(i as nat)).unwrap())
}

/// The types of a sequence of results, in order.
pub open spec fn results_view(v: Seq<HaxQueryRes>) -> Seq<TyV> {
    Seq::new(v.len(), |i: int| v[i]->Type_0@)
}

/// The type that the last of the items named `name` carries.
pub fn find_answer<'a>(items: &'a Vec<ResolvedItem>, name: &String) -> (r: Option<&'a Ty>)
    ensures
        match r {
            Some(ty) => answer(items@, name@) == Some(ty@),
            None => answer(items@, name@).is_none(),
        },
{
    let mut k: usize = items.len();
    assert(items@.take(k as int) =~= items@);
    while k > 0
        invariant
            k <= items.len(),
            answer(items@, name@) == answer(items@.take(k as int), name@),
        decreases k,
    {
        k -= 1;
        let ghost longer = items@.take(k + 1);
        assert(longer.last() == items@[k as int]);
        assert(longer.drop_last() =~= items@.take(k as int));
        if same_text(&items[k].name, name) {
            return Some(&items[k].ty);
        }
    }
    None
}

/// Whether the items answer each of the first `n` queries.
pub open spec fn answers_all(items: Seq<ResolvedItem>, n: nat) -> bool {
    forall|i: nat| i < n ==> (#[trigger] answer(items, item_name(i))).is_some()
}

/// The least query below `n` that the items do not answer.
pub open spec fn first_unanswered(items: Seq<ResolvedItem>, n: nat, from: nat) -> nat
    decreases n - from,
{
    if from >= n {
        n
    } else if answer(items, item_name(from)).is_none() {
        from
    } else {
        first_unanswered(items, n, from + 1)
    }
}

/// The answers to `n` queries that the items carry, in the order of the
/// queries. Fails on the first query without an item.
pub fn results_from_items(n: usize, items: &Vec<ResolvedItem>) -> (r: Result<
    Vec<HaxQueryRes>,
    HaxQueryError,
>)
    ensures
        match r {
            Ok(res) => answers_all(items@, n as nat) && res@.len() == n && results_view(res@)
                == answers(items@, n as nat),
            Err(HaxQueryError::MissingItem { index }) => index < n && index == first_unanswered(
                items@,
                n as nat,
                0,
            ) && answer(items@, item_name(index as nat)).is_none(),
            Err(HaxQueryError::HaxError { .. }) => false,
        },
{
    let mut res: Vec<HaxQueryRes> = Vec::new();
    let mut i: usize = 0;
    while i < n
        invariant
            i <= n,
            res@.len() == i,
            forall|j: nat| j < i ==> (#[trigger] answer(items@, item_name(j))).is_some(),
            forall|j: int|
                0 <= j < i ==> answer(items@, item_name(j as nat)).unwrap() == (
                #[trigger] res@[j])->Type_0@,
            first_unanswered(items@, n as nat, 0) == first_unanswered(items@, n as nat, i as nat),
        decreases n - i,
    {
        let name = item_name_of(i);
        match find_answer(items, &name) {
            Some(ty) => {
                res.push(HaxQueryRes::Type(ty.clone()));
            },
            None => {
                return Err(HaxQueryError::MissingItem { index: i });
            },
        }
        i += 1;
    }
    assert(results_view(res@) =~= answers(items@, n as nat));
    Ok(res)
}

/// The queries under their numbers, in order.
pub fn number_queries(queries: &Vec<HaxQuery>) -> (r: Vec<HaxQueryWithId>)
    ensures
        numbering(queries_view(queries@), r@),
{
    let mut r: Vec<HaxQueryWithId> = Vec::new();
    let mut i: usize = 0;
    while i < queries.len()
        invariant
            i <= queries.len(),
            r@.len() == i,
            forall|j: int| 0 <= j < i ==> (#[trigger] r@[j]).1 == j && r@[j].0@ == queries@[j]@,
        decreases queries.len() - i,
    {
        r.push(HaxQueryWithId(queries[i].clone(), i));
        i += 1;
    }
    r
}

/// Puts the queries to the oracle `run`, as one batch; where the oracle
/// fails on the batch, on parts of it, to find the queries that are
/// responsible. Without a query the oracle is not run.
///
/// Whatever the oracle does: an answer holds one result for each query, which
/// an item of the answer of the oracle to the whole batch carries; a failure
/// names the queries that the search blames, on which the oracle failed, or
/// the first query that its items do not answer.
pub fn execute_hax_queries<F>(queries: &Vec<HaxQuery>, run: F) -> (r: Result<
    Vec<HaxQueryRes>,
    HaxQueryError,
>) where F: Fn(&[HaxQueryWithId]) -> Result<Vec<ResolvedItem>, String>
    requires
        forall|part: &[HaxQueryWithId], p: Part|
            #![trigger numbered_part(queries_view(queries@), part@, p)]
            numbered_part(queries_view(queries@), part@, p) ==> call_requires(run, (part,)),
    ensures
        match r {
            Ok(res) => res@.len() == queries@.len() && (queries@.len() > 0 ==> exists|
                numbered: &[HaxQueryWithId],
                items: Vec<ResolvedItem>,
            | #[trigger]
                resolved_by(run, queries_view(queries@), results_view(res@), numbered, items)),
            Err(e) => queries@.len() > 0 && failed_by(run, queries_view(queries@), e),
        },
{
    if queries.len() == 0 {
        return Ok(Vec::new());
    }
    let numbered = number_queries(queries);
    let batch = numbered.as_slice();
    assert forall|part: &[HaxQueryWithId], p: Part| #[trigger]
        is_part(part@, batch@, p) implies call_requires(run, (part,)) by {
        assert(numbered_part(queries_view(queries@), part@, p)) by {
            assert forall|j: int| 0 <= j < part@.len() implies (#[trigger] part@[j]).1 == p.start
                + j && part@[j].0@ == queries_view(queries@)[p.start + j] by {
                assert(part@[j] == batch@[p.start + j]);
            }
        }
    }
    match run_or_locate_error(batch, run) {
        Ok(items) => {
            let r = results_from_items(queries.len(), &items);
            proof {
                if r.is_ok() {
                    assert(resolved_by(
                        run,
                        queries_view(queries@),
                        results_view(r->Ok_0@),
                        batch,
                        items,
                    ));
                } else {
                    assert(unanswered_by(
                        run,
                        queries_view(queries@),
                        r->Err_0->index as nat,
                        batch,
                        items,
                    ));
                }
            }
            r
        },
        Err((responsible, stderr)) => {
            let ghost (trace, part, tried) = choose|
                trace: Seq<bool>,
                part: Part,
                tried: &[HaxQueryWithId],
            | #[trigger] located_on(run, batch@, responsible@, stderr, trace, part, tried);
            let mut blamed: Vec<HaxQuery> = Vec::new();
            let mut i: usize = 0;
            while i < responsible.len()
                invariant
                    i <= responsible.len(),
                    blamed@.len() == i,
                    forall|j: int| 0 <= j < i ==> (#[trigger] blamed@[j])@ == responsible@[j].0@,
                decreases responsible.len() - i,
            {
                blamed.push(responsible[i].0.clone());
                i += 1;
            }
            proof {
                let qv = queries_view(queries@);
                assert(queries_view(blamed@) =~= qv.subrange(part.start as int, part.end as int)) by {
                    assert forall|j: int| 0 <= j < blamed@.len() implies queries_view(blamed@)[j]
                        == qv[part.start + j] by {
                        assert(*responsible@[j] == batch@[part.start + j]);
                    }
                }
                assert(numbered_part(qv, tried@, part)) by {
                    assert forall|j: int| 0 <= j < tried@.len() implies (#[trigger] tried@[j]).1
                        == part.start + j && tried@[j].0@ == qv[part.start + j] by {
                        assert(tried@[j] == batch@[part.start + j]);
                    }
                }
            }
            let r: Result<Vec<HaxQueryRes>, HaxQueryError> = Err(
                HaxQueryError::HaxError { queries: blamed, stderr },
            );
            assert(refused_by(
                run,
                queries_view(queries@),
                queries_view(r->Err_0->queries@),
                r->Err_0->stderr,
                batch,
                trace,
                part,
                tried,
            ));
            r
        },
    }
}

} // verus!
