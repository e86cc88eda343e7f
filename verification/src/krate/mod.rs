//! Running batches, and the crates in which they run.

pub mod bisect;
pub mod hax;
pub mod server;
pub mod tarpaulin;
pub mod workspace;

use crate::contract::{strings_view, Dependencies};
use crate::krate::bisect::{
    ceil_log2, ends_in, law_single_fault_trace, lemma_observe, lemma_state_after_prefix,
    potential, probes, single_fault, state_after, Locator, Part, Step, Verdict,
};
use crate::krate::workspace::{joined, krate_name, KrateId, Workspace};
use vstd::string::StringExecFns;
use vstd::prelude::*;
use vstd::slice::slice_subrange;

verus! {

/// Whether `responsible` holds the items of `part` of `items`, in order.
pub open spec fn are_items_of<Item>(responsible: Seq<&Item>, items: Seq<Item>, part: Part) -> bool {
    &&& part.within(items.len() as int)
    &&& responsible.len() == part.len()
    &&& forall|i: int| 0 <= i < responsible.len() ==> *(#[trigger] responsible[i]) == items[part.start + i]
}

/// Whether `responsible` holds the items of `part` of `items`, `tried` is that
/// part, and `f` failed on it with `error`.
pub open spec fn failed_on<'a, Item, Output, Error, F>(
    f: F,
    items: Seq<Item>,
    responsible: Seq<&Item>,
    error: Error,
    part: Part,
    tried: &'a [Item],
) -> bool where F: Fn(&'a [Item]) -> Result<Output, Error> {
    &&& are_items_of(responsible, items, part)
    &&& tried@ == items.subrange(part.start as int, part.end as int)
    &&& call_ensures(f, (tried,), Err::<Output, Error>(error))
}

/// Whether `f`, run on the part `part` of `items`, failed (`failed`) or
/// succeeded.
pub open spec fn probed<'a, Item: 'a, Output, Error, F>(
    f: F,
    items: Seq<Item>,
    part: Part,
    failed: bool,
) -> bool where F: Fn(&'a [Item]) -> Result<Output, Error> {
    exists|tried: &'a [Item], out: Result<Output, Error>|
        tried@ == items.subrange(part.start as int, part.end as int) && #[trigger] call_ensures(
            f,
            (tried,),
            out,
        ) && (out is Err) == failed
}

/// Whether the outcomes `trace` are those of a search over `items` with `f`:
/// each is the outcome of `f` on the part that the search tries at that
/// point.
pub open spec fn run_of<'a, Item: 'a, Output, Error, F>(f: F, items: Seq<Item>, trace: Seq<bool>) -> bool where
    F: Fn(&'a [Item]) -> Result<Output, Error>,
 {
    forall|t: int|
        0 <= t < trace.len() ==> (#[trigger] state_after(
            items.len() as usize,
            trace,
            t,
        )).is_some() && probed(
            f,
            items,
            state_after(items.len() as usize, trace, t).unwrap().queue.last(),
            trace[t],
        )
}

/// Whether the search over `items` with `f` that meets the outcomes `trace`
/// is over with the last of them, and ends in `verdict`.
pub open spec fn search_of<'a, Item: 'a, Output, Error, F>(
    f: F,
    items: Seq<Item>,
    trace: Seq<bool>,
    verdict: Verdict,
) -> bool where F: Fn(&'a [Item]) -> Result<Output, Error> {
    run_of(f, items, trace) && ends_in(items.len() as usize, trace, verdict)
}

/// The items of `part` of `items`, in order.
pub fn items_of<'a, Item>(items: &'a [Item], part: Part) -> (r: Vec<&'a Item>)
    requires
        part.within(items@.len() as int),
    ensures
        are_items_of(r@, items@, part),
{
    let mut r: Vec<&'a Item> = Vec::new();
    let mut i: usize = part.start;
    while i < part.end
        invariant
            part.start <= i <= part.end,
            part.end <= items@.len(),
            r@.len() == i - part.start,
            forall|j: int| 0 <= j < r@.len() ==> *(#[trigger] r@[j]) == items@[part.start + j],
        decreases part.end - i,
    {
        r.push(&items[i]);
        i += 1;
    }
    r
}

/// Whether `part` holds the items of the non-empty part `p` of `items`.
pub open spec fn is_part<Item>(part: Seq<Item>, items: Seq<Item>, p: Part) -> bool {
    p.within(items.len() as int) && part == items.subrange(p.start as int, p.end as int)
}

/// Whether the search over `items` with `f` that meets the outcomes `trace`
/// ends in blaming the part `part`, which `responsible` holds and `tried` is,
/// and on which `f` failed with `error`.
pub open spec fn located_on<'a, Item: 'a, Output, Error, F>(
    f: F,
    items: Seq<Item>,
    responsible: Seq<&Item>,
    error: Error,
    trace: Seq<bool>,
    part: Part,
    tried: &'a [Item],
) -> bool where F: Fn(&'a [Item]) -> Result<Output, Error> {
    search_of(f, items, trace, Verdict::Blamed(part)) && failed_on(
        f,
        items,
        responsible,
        error,
        part,
        tried,
    )
}

/// Whether `f` fails on exactly those parts of `items` that hold item `k`.
pub open spec fn fails_with_item<'a, Item: 'a, Output, Error, F>(
    f: F,
    items: Seq<Item>,
    k: int,
) -> bool where F: Fn(&'a [Item]) -> Result<Output, Error> {
    forall|part: Part, failed: bool| #[trigger]
        probed(f, items, part, failed) ==> failed == single_fault(k)(part)
}

/// Locating a single fault: where `f` fails on exactly the parts that hold
/// item `k`, every search over `items` with `f` blames item `k` alone, after
/// `probes(0, n, k)` tries of `f`, which is at most `2 * ceil_log2(n) + 1`;
/// and at most `ceil_log2(n) + 1` where the cuts fall so that `probes(0, n, k)`
/// is.
pub proof fn law_single_fault_search<'a, Item: 'a, Output, Error, F>(
    f: F,
    items: Seq<Item>,
    k: int,
    trace: Seq<bool>,
    verdict: Verdict,
) where F: Fn(&'a [Item]) -> Result<Output, Error>
    requires
        0 <= k < items.len() <= usize::MAX,
        fails_with_item(f, items, k),
        search_of(f, items, trace, verdict),
    ensures
        verdict == Verdict::Blamed(Part { start: k as usize, end: (k + 1) as usize }),
        trace.len() == probes(0, items.len() as int, k),
        trace.len() <= 2 * ceil_log2(items.len() as int) + 1,
        probes(0, items.len() as int, k) <= ceil_log2(items.len() as int) + 1 ==> trace.len()
            <= ceil_log2(items.len() as int) + 1,
{
    let n = items.len() as usize;
    assert forall|t: int| 0 <= t < trace.len() implies state_after(n, trace, t).is_some()
        && trace[t] == single_fault(k)((#[trigger] state_after(n, trace, t)).unwrap().queue.last()) by {
        assert(probed(f, items, state_after(n, trace, t).unwrap().queue.last(), trace[t]));
    }
    law_single_fault_trace(n, k, trace, verdict);
}

/// Runs `f` on `items`. Where `f` fails, runs `f` on parts of `items` to find
/// the items that are responsible: a failing part is cut in two halves, the
/// later half is tried first, and a failing half is cut again. A failing part
/// of one item is the answer at once; otherwise the answer is the shortest
/// failing part that was seen, the later one of two equally short.
///
/// Whatever `f` does: a success is a success of `f` on the whole list, and a
/// failure names a non-empty part of `items` on which `f` failed with the
/// error returned. The tries are those of a search that goes by `observe`:
/// there is a trace of outcomes of `f`, one for each try, that leads the
/// search to the verdict returned, and a failure names the part that the
/// search blames.
pub fn run_or_locate_error<'a, Item, Output, Error, F>(items: &'a [Item], f: F) -> (r: Result<
    Output,
    (Vec<&'a Item>, Error),
>) where F: Fn(&'a [Item]) -> Result<Output, Error>
    requires
        items@.len() > 0,
        forall|part: &'a [Item], p: Part|
            #![trigger is_part(part@, items@, p)]
            is_part(part@, items@, p) ==> call_requires(f, (part,)),
    ensures
        r is Ok ==> call_ensures(f, (items,), Ok::<Output, Error>(r->Ok_0)),
        r is Ok ==> exists|trace: Seq<bool>| #[trigger]
            search_of(f, items@, trace, Verdict::Passed),
        r is Err ==> exists|first: Error| #[trigger]
            call_ensures(f, (items,), Err::<Output, Error>(first)),
        r is Err ==> exists|trace: Seq<bool>, part: Part, tried: &'a [Item]| #[trigger]
            located_on(f, items@, r->Err_0.0@, r->Err_0.1, trace, part, tried),
{
    let mut locator: Locator<Error> = Locator::new(items.len());
    let ghost mut best_part: Part = Part { start: 0, end: 0 };
    let ghost mut best_tried: &'a [Item] = items;
    let ghost mut trace: Seq<bool> = Seq::empty();
    let ghost n = items@.len() as usize;
    loop
        invariant
            locator.live(),
            n == items@.len(),
            state_after(n, trace, trace.len() as int) == Some(locator@),
            run_of(f, items@, trace),
            locator.size() == items@.len(),
            items@.len() <= usize::MAX,
            forall|part: &'a [Item], p: Part|
                #![trigger is_part(part@, items@, p)]
                is_part(part@, items@, p) ==> call_requires(f, (part,)),
            locator@.best.is_none() ==> locator@.queue.len() == 1 && locator@.queue[0].start == 0
                && locator@.queue[0].end == items@.len(),
            locator@.best.is_some() ==> exists|first: Error| #[trigger]
                call_ensures(f, (items,), Err::<Output, Error>(first)),
            locator@.best.is_some() ==> locator.best_error().is_some() && locator@.best == Some(
                best_part,
            ) && best_tried@ == items@.subrange(best_part.start as int, best_part.end as int)
                && call_ensures(
                f,
                (best_tried,),
                Err::<Output, Error>(locator.best_error().unwrap()),
            ),
        decreases potential(locator@.queue),
    {
        let part = locator.current();
        let tried = slice_subrange(items, part.start, part.end);
        let ghost before = locator@;
        proof {
            lemma_observe(before, true, items@.len() as int);
            lemma_observe(before, false, items@.len() as int);
            if before.best.is_none() {
                assert(tried@ =~= items@);
                vstd::slice::axiom_slice_ext_equal(tried, items);
            }
        }
        assert(is_part(tried@, items@, part));
        let outcome = f(tried);
        let ghost failed = outcome is Err;
        let ghost longer = trace.push(failed);
        proof {
            assert(probed(f, items@, part, failed)) by {
                assert(tried@ == items@.subrange(part.start as int, part.end as int)
                    && call_ensures(f, (tried,), outcome) && (outcome is Err) == failed);
            }
            assert forall|t: int| 0 <= t < longer.len() implies (#[trigger] state_after(
                n,
                longer,
                t,
            )).is_some() && probed(
                f,
                items@,
                state_after(n, longer, t).unwrap().queue.last(),
                longer[t],
            ) by {
                lemma_state_after_prefix(n, trace, failed, t);
                if t < trace.len() {
                    assert(state_after(n, trace, t).is_some());
                }
            }
            lemma_state_after_prefix(n, trace, failed, trace.len() as int);
        }
        match outcome {
            Ok(v) => match locator.observe(None) {
                Step::Passed => {
                    assert(search_of(f, items@, longer, Verdict::Passed));
                    return Ok(v);
                },
                Step::Blamed { part: blamed, error } => {
                    let responsible = items_of(items, blamed);
                    assert(blamed == best_part);
                    assert(failed_on(f, items@, responsible@, error, blamed, best_tried));
                    let r: Result<Output, (Vec<&'a Item>, Error)> = Err((responsible, error));
                    assert(failed_on(f, items@, r->Err_0.0@, r->Err_0.1, blamed, best_tried));
                    assert(search_of(f, items@, longer, Verdict::Blamed(blamed)));
                    assert(located_on(
                        f,
                        items@,
                        r->Err_0.0@,
                        r->Err_0.1,
                        longer,
                        blamed,
                        best_tried,
                    ));
                    return r;
                },
                Step::Next(next) => {
                    proof {
                        trace = longer;
                    }
                    locator = next;
                },
            },
            Err(e) => match locator.observe(Some(e)) {
                Step::Passed => {
                    return vstd::pervasive::unreached();
                },
                Step::Blamed { part: blamed, error } => {
                    let responsible = items_of(items, blamed);
                    assert(blamed == part);
                    assert(failed_on(f, items@, responsible@, error, blamed, tried));
                    let r: Result<Output, (Vec<&'a Item>, Error)> = Err((responsible, error));
                    assert(failed_on(f, items@, r->Err_0.0@, r->Err_0.1, blamed, tried));
                    assert(search_of(f, items@, longer, Verdict::Blamed(blamed)));
                    assert(located_on(
                        f,
                        items@,
                        r->Err_0.0@,
                        r->Err_0.1,
                        longer,
                        blamed,
                        tried,
                    ));
                    return r;
                },
                Step::Next(next) => {
                    proof {
                        if next@.best == Some(part) {
                            best_part = part;
                            best_tried = tried;
                        }
                        trace = longer;
                    }
                    locator = next;
                },
            },
        }
    }
}

/// A crate of the workspace, with the lines of its manifest that name what
/// it depends on.
#[derive(Debug)]
pub struct Krate {
    id: KrateId,
    dependencies: Vec<String>,
}

/// The lines `lines`, each closed by a line feed.
pub open spec fn lines_text(lines: Seq<Seq<char>>) -> Seq<char>
    decreases lines.len(),
{
    if lines.len() == 0 {
        Seq::empty()
    } else {
        lines_text(lines.drop_last()) + lines.last() + "\n"@
    }
}

/// The manifest of the crate named `name` that depends on what `lines` say,
/// and on the library at `library`.
pub open spec fn crate_manifest_text(name: Seq<char>, lines: Seq<Seq<char>>, library: Seq<char>) -> Seq<
    char,
> {
    "[package]\nname = \""@ + name
        + "\"\nversion = \"0.1.0\"\nedition = \"2021\"\n\n[[bin]]\nname = \""@ + name
        + "\"\npath = \"main.rs\"\n\n[dependencies]\n"@ + lines_text(lines)
        + "\n[dependencies.testify]\npath = \""@ + library + "\"\n"@
}

impl Krate {
    /// The number of the crate.
    pub closed spec fn id(&self) -> KrateId {
        self.id
    }

    /// The lines of the manifest that name what the crate depends on.
    pub closed spec fn lines(&self) -> Seq<Seq<char>> {
        strings_view(self.dependencies@)
    }

    /// A new crate of the workspace, which depends on nothing yet: it takes
    /// the least number that no crate of the workspace has.
    pub fn new(workspace: &mut Workspace) -> (r: Self)
        requires
            old(workspace).well_formed(),
        ensures
            !old(workspace).holds(r.id().0 as nat),
            forall|n: nat| n < r.id().0 ==> old(workspace).holds(n),
            final(workspace).crates@ == old(workspace).crates@.push(r.id()),
            final(workspace).root == old(workspace).root,
            final(workspace).well_formed(),
            r.lines() == Seq::<Seq<char>>::empty(),
    {
        let id = workspace.add_crate();
        let r = Krate { id, dependencies: Vec::new() };
        assert(r.lines() =~= Seq::<Seq<char>>::empty());
        r
    }

    /// The directory of the workspace of the crate.
    pub fn workspace_path(&self, workspace: &Workspace) -> (r: String)
        ensures
            r@ == workspace.root@,
    {
        workspace.root.clone()
    }

    /// The directory of the crate.
    pub fn path(&self, workspace: &Workspace) -> (r: String)
        ensures
            r@ == joined(workspace.root@, krate_name(self.id().0 as nat)),
    {
        workspace.crate_path(self.id)
    }

    /// The name of the crate.
    pub fn name(&self) -> (r: String)
        ensures
            r@ == krate_name(self.id().0 as nat),
    {
        self.id.name()
    }

    /// Makes the crate depend on what it takes to exchange encoded values.
    pub fn use_serde(&mut self)
        ensures
            final(self).id() == old(self).id(),
            final(self).lines() == old(self).lines().push("serde_json = \"1\""@).push(
                "serde = { version = \"1.0\", features = [\"derive\"] }"@,
            ),
    {
        self.add_dependency("serde_json = \"1\"");
        self.add_dependency("serde = { version = \"1.0\", features = [\"derive\"] }");
    }

    /// Adds the line `deps` to the lines of the manifest that name what the
    /// crate depends on.
    pub fn add_dependency(&mut self, deps: &str)
        ensures
            final(self).id() == old(self).id(),
            final(self).lines() == old(self).lines().push(deps@),
    {
        self.dependencies.push(deps.to_owned());
        assert(self.lines() =~= old(self).lines().push(deps@));
    }

    /// Makes the crate depend on `deps`: one line `name = requirement` for
    /// each entry.
    pub fn add_dependencies(&mut self, deps: &Dependencies)
        ensures
            final(self).id() == old(self).id(),
            final(self).lines() == old(self).lines() + Seq::new(
                deps@.len(),
                |i: int| deps@[i].0 + " = "@ + deps@[i].1,
            ),
    {
        let ghost add = Seq::new(deps@.len(), |i: int| deps@[i].0 + " = "@ + deps@[i].1);
        let mut i: usize = 0;
        assert(old(self).lines() + add.take(0) =~= old(self).lines());
        while i < deps.len()
            invariant
                i <= deps@.len(),
                add == Seq::new(deps@.len(), |i: int| deps@[i].0 + " = "@ + deps@[i].1),
                self.id() == old(self).id(),
                self.lines() == old(self).lines() + add.take(i as int),
            decreases deps@.len() - i,
        {
            let mut line = deps.name(i).clone();
            line.append(" = ");
            line.append(deps.spec(i).0.as_str());
            self.add_dependency(line.as_str());
            assert(add.take(i + 1) =~= add.take(i as int).push(add[i as int]));
            assert(self.lines() =~= old(self).lines() + add.take(i + 1));
            i += 1;
        }
        assert(add.take(deps@.len() as int) =~= add);
    }

    /// The manifest of the crate, which also depends on the library at
    /// `library`.
    pub fn manifest(&self, library: &str) -> (r: String)
        ensures
            r@ == crate_manifest_text(krate_name(self.id().0 as nat), self.lines(), library@),
    {
        let name = self.name();
        let mut r = String::from_str("[package]\nname = \"");
        r.append(name.as_str());
        r.append("\"\nversion = \"0.1.0\"\nedition = \"2021\"\n\n[[bin]]\nname = \"");
        r.append(name.as_str());
        r.append("\"\npath = \"main.rs\"\n\n[dependencies]\n");
        let ghost head = r@;
        let ghost ls = self.lines();
        let mut i: usize = 0;
        assert(ls.take(0) =~= Seq::<Seq<char>>::empty());
        assert(head + lines_text(ls.take(0)) =~= head);
        while i < self.dependencies.len()
            invariant
                i <= self.dependencies.len(),
                ls == strings_view(self.dependencies@),
                r@ == head + lines_text(ls.take(i as int)),
            decreases self.dependencies.len() - i,
        {
            proof {
                let longer = ls.take(i + 1);
                assert(longer.drop_last() =~= ls.take(i as int));
                assert(longer.last() == self.dependencies@[i as int]@);
            }
            let ghost before = r@;
            r.append(self.dependencies[i].as_str());
            r.append("\n");
            assert(r@ =~= before + ls[i as int] + "\n"@);
            i += 1;
        }
        assert(ls.take(ls.len() as int) =~= ls);
        r.append("\n[dependencies.testify]\npath = \"");
        r.append(library);
        r.append("\"\n");
        r
    }
}

} // verus!
