//! Pools of contracts, and the phases they pass through.
//!
//! A pool starts out generic: its contracts may have inputs that are types.
//! Once the types of its inputs are resolved it is parametric: every input is
//! a value of a known type. Once values are drawn for its inputs it is
//! instantiated: its contracts have no input left, and can be asserted.

use crate::contract::{
    compatible, inputs_view, lemma_requirement_merged, merged, requirement, Contract, ContractV,
    Dependencies, InputKind,
};
use crate::contract::{
    copy_strings, extracted, instance, instance_of, lemma_instance_keeps, make_table,
    opt_exprs_view, strings_view, with_results,
};
use crate::generate::{drawn, encoded, generate_for_type, is_draw, leaf_of_type, literal_expr};
use crate::marshalling::{values_view, ValueV};
use crate::krate::bisect::{Part, Verdict};
use crate::krate::{is_part, located_on, run_or_locate_error, search_of};
use crate::marshalling::Value;
use crate::subst::partial::{nodes_view, EvalNode, EvalNodeV};
use crate::syntax::{Expr, ExprV};
use crate::generate::{tys_view, Ty, TyV};
use crate::krate::hax::{
    answers, execute_hax_queries, failed_by, numbered_part, numbering, queries_view, resolved_by,
    results_view,
    HaxQuery, HaxQueryError, HaxQueryRes, HaxQueryWithId, QueryV, ResolvedItem,
};
use crate::syntax::copy_type;
use vstd::prelude::*;

verus! {

/// The views of a sequence of contracts, in order.
pub open spec fn contracts_view(v: Seq<Contract>) -> Seq<ContractV> {
    Seq::new(v.len(), |i: int| v[i]@)
}

/// Whether every two of the contracts ask the same of every crate that both
/// depend on.
pub open spec fn all_compatible(cs: Seq<ContractV>) -> bool {
    forall|i: int, j: int|
        0 <= i < cs.len() && 0 <= j < cs.len() ==> compatible(
            (#[trigger] cs[i]).dependencies,
            (#[trigger] cs[j]).dependencies,
        )
}

/// What the contracts depend on together: `None` where two of them ask
/// different things of one crate.
pub open spec fn merge_all(cs: Seq<ContractV>) -> Option<Seq<(Seq<char>, Seq<char>)>>
    decreases cs.len(),
{
    if cs.len() == 0 {
        Some(Seq::empty())
    } else {
        match merge_all(cs.drop_last()) {
            Some(acc) => if compatible(acc, cs.last().dependencies) {
                Some(merged(acc, cs.last().dependencies))
            } else {
                None
            },
            None => None,
        }
    }
}

/// Whether `big` asks of every crate that `small` names what `small` asks.
pub open spec fn extends(big: Seq<(Seq<char>, Seq<char>)>, small: Seq<(Seq<char>, Seq<char>)>) -> bool {
    forall|name: Seq<char>|
        (#[trigger] requirement(small, name)).is_some() ==> requirement(big, name) == requirement(
            small,
            name,
        )
}

/// Whether `acc` asks of a crate only what one of the contracts asks of it.
pub open spec fn comes_from(acc: Seq<(Seq<char>, Seq<char>)>, cs: Seq<ContractV>) -> bool {
    forall|name: Seq<char>|
        (#[trigger] requirement(acc, name)).is_some() ==> exists|i: int|
            0 <= i < cs.len() && requirement((#[trigger] cs[i]).dependencies, name) == requirement(
                acc,
                name,
            )
}

/// Contracts that are compatible two by two depend together on what each of
/// them depends on.
pub proof fn lemma_merge_all_compatible(cs: Seq<ContractV>)
    requires
        all_compatible(cs),
    ensures
        merge_all(cs).is_some(),
        forall|i: int| 0 <= i < cs.len() ==> extends(merge_all(cs).unwrap(), (#[trigger] cs[i]).dependencies),
        comes_from(merge_all(cs).unwrap(), cs),
    decreases cs.len(),
{
    if cs.len() > 0 {
        let front = cs.drop_last();
        assert(all_compatible(front)) by {
            assert forall|i: int, j: int| 0 <= i < front.len() && 0 <= j < front.len() implies compatible(
                (#[trigger] front[i]).dependencies,
                (#[trigger] front[j]).dependencies,
            ) by {
                assert(front[i] == cs[i]);
                assert(front[j] == cs[j]);
            }
        }
        lemma_merge_all_compatible(front);
        let acc = merge_all(front).unwrap();
        let last = cs.last().dependencies;
        assert(compatible(acc, last)) by {
            assert forall|name: Seq<char>|
                (#[trigger] requirement(acc, name)).is_some() && requirement(
                    last,
                    name,
                ).is_some() implies requirement(acc, name) == requirement(last, name) by {
                let i = choose|i: int|
                    0 <= i < front.len() && requirement((#[trigger] front[i]).dependencies, name)
                        == requirement(acc, name);
                assert(front[i] == cs[i]);
                assert(compatible(cs[i].dependencies, cs[cs.len() - 1].dependencies));
            }
        }
        let all = merged(acc, last);
        assert forall|i: int| 0 <= i < cs.len() implies extends(all, (#[trigger] cs[i]).dependencies) by {
            assert forall|name: Seq<char>|
                (#[trigger] requirement(cs[i].dependencies, name)).is_some() implies requirement(
                all,
                name,
            ) == requirement(cs[i].dependencies, name) by {
                lemma_requirement_merged(acc, last, name);
                if i < front.len() {
                    assert(front[i] == cs[i]);
                    assert(extends(acc, front[i].dependencies));
                }
            }
        }
        assert forall|name: Seq<char>| (#[trigger] requirement(all, name)).is_some() implies exists|
            i: int,
        |
            0 <= i < cs.len() && requirement((#[trigger] cs[i]).dependencies, name) == requirement(
                all,
                name,
            ) by {
            lemma_requirement_merged(acc, last, name);
            if requirement(acc, name).is_some() {
                let i = choose|i: int|
                    0 <= i < front.len() && requirement((#[trigger] front[i]).dependencies, name)
                        == requirement(acc, name);
                assert(front[i] == cs[i]);
            } else {
                assert(requirement(cs[cs.len() - 1].dependencies, name) == requirement(all, name));
            }
        }
    }
}

/// Two contracts that ask different things of one crate do not go together.
pub proof fn law_conflicting_dependencies_fail(a: ContractV, b: ContractV, name: Seq<char>)
    requires
        requirement(a.dependencies, name).is_some(),
        requirement(b.dependencies, name).is_some(),
        requirement(a.dependencies, name) != requirement(b.dependencies, name),
    ensures
        merge_all(seq![a, b]).is_none(),
        !compatible(a.dependencies, b.dependencies),
{
    let cs = seq![a, b];
    assert(cs.drop_last() =~= seq![a]);
    assert(seq![a].drop_last() =~= Seq::<ContractV>::empty());
    reveal_with_fuel(merge_all, 3);
    let none = Seq::<(Seq<char>, Seq<char>)>::empty();
    lemma_requirement_merged(none, a.dependencies, name);
    assert(requirement(none, name).is_none());
}

/// Two contracts that depend on different crates go together, and depend
/// together on what each of them depends on.
pub proof fn law_disjoint_dependencies_merge(a: ContractV, b: ContractV)
    requires
        forall|name: Seq<char>|
            !((#[trigger] requirement(a.dependencies, name)).is_some() && requirement(
                b.dependencies,
                name,
            ).is_some()),
    ensures
        compatible(a.dependencies, b.dependencies),
        merge_all(seq![a, b]).is_some(),
        extends(merge_all(seq![a, b]).unwrap(), a.dependencies),
        extends(merge_all(seq![a, b]).unwrap(), b.dependencies),
{
    let cs = seq![a, b];
    assert(compatible(a.dependencies, b.dependencies));
    assert(compatible(b.dependencies, a.dependencies)) by {
        assert forall|name: Seq<char>|
            (#[trigger] requirement(b.dependencies, name)).is_some() && requirement(
                a.dependencies,
                name,
            ).is_some() implies requirement(b.dependencies, name) == requirement(
            a.dependencies,
            name,
        ) by {
            assert(!(requirement(a.dependencies, name).is_some() && requirement(
                b.dependencies,
                name,
            ).is_some()));
        }
    }
    assert(all_compatible(cs));
    lemma_merge_all_compatible(cs);
    assert(cs[0] == a);
    assert(cs[1] == b);
}

/// What the contracts depend on together; `None` where two of them ask
/// different things of one crate.
pub fn merge_dependencies(contracts: &[Contract]) -> (r: Option<Dependencies>)
    ensures
        match r {
            Some(deps) => merge_all(contracts_view(contracts@)) == Some(deps@),
            None => merge_all(contracts_view(contracts@)).is_none(),
        },
{
    let ghost cs = contracts_view(contracts@);
    let mut acc = Dependencies::new();
    let mut i: usize = 0;
    assert(cs.take(0) =~= Seq::<ContractV>::empty());
    while i < contracts.len()
        invariant
            i <= contracts.len(),
            cs == contracts_view(contracts@),
            merge_all(cs.take(i as int)) == Some(acc@),
        decreases contracts.len() - i,
    {
        proof {
            let longer = cs.take(i + 1);
            assert(longer.drop_last() =~= cs.take(i as int));
            assert(longer.last() == contracts@[i as int]@);
        }
        if !acc.compatible_with(&contracts[i].dependencies) {
            proof {
                lemma_merge_all_prefix(cs, i + 1);
            }
            return None;
        }
        acc.merge(&contracts[i].dependencies);
        i += 1;
    }
    assert(cs.take(contracts@.len() as int) =~= cs);
    Some(acc)
}

/// Contracts of which the first few do not go together do not go together.
pub proof fn lemma_merge_all_prefix(cs: Seq<ContractV>, k: int)
    requires
        0 <= k <= cs.len(),
        merge_all(cs.take(k)).is_none(),
    ensures
        merge_all(cs).is_none(),
    decreases cs.len() - k,
{
    if k == cs.len() {
        assert(cs.take(k) =~= cs);
    } else {
        let longer = cs.take(k + 1);
        assert(longer.drop_last() =~= cs.take(k));
        lemma_merge_all_prefix(cs, k + 1);
    }
}

/// The phases of a pool.
pub trait IsState {
    /// Whether a contract can be in a pool of the phase.
    spec fn admits(contract: ContractV) -> bool;

    /// Whether the phase, with what it holds, goes with the contracts.
    spec fn fits(&self, contracts: Seq<ContractV>) -> bool;

    /// Whether a contract can be in a pool of the phase.
    fn check(contract: &Contract) -> (r: bool)
        ensures
            r == Self::admits(contract@),
    ;

    /// Whether the phase, with what it holds, goes with the contracts.
    fn suits(&self, contracts: &[Contract]) -> (r: bool)
        ensures
            r == self.fits(contracts_view(contracts@)),
    ;
}

/// The phase of the contracts whose inputs may be types.
#[derive(Clone, Copy, Debug)]
pub struct GenericContracts;

/// The phase of the contracts whose inputs are all values, the types of
/// which are resolved.
#[derive(Debug)]
pub struct ParametricContracts {
    /// The types of the inputs, contract by contract.
    pub types: Vec<Vec<Ty>>,
}

/// The phase of the contracts that have no input left.
#[derive(Clone, Copy, Debug)]
pub struct InstantiatedContracts;

/// Whether every input of the contract is a value.
pub open spec fn all_values(contract: ContractV) -> bool {
    forall|i: int| 0 <= i < contract.inputs.len() ==> (#[trigger] contract.inputs[i]).kind is Value
}

impl IsState for GenericContracts {
    open spec fn admits(contract: ContractV) -> bool {
        true
    }

    open spec fn fits(&self, contracts: Seq<ContractV>) -> bool {
        true
    }

    fn check(contract: &Contract) -> (r: bool) {
        true
    }

    fn suits(&self, contracts: &[Contract]) -> (r: bool) {
        true
    }
}

impl IsState for ParametricContracts {
    open spec fn admits(contract: ContractV) -> bool {
        all_values(contract)
    }

    open spec fn fits(&self, contracts: Seq<ContractV>) -> bool {
        &&& self.types@.len() == contracts.len()
        &&& forall|i: int|
            0 <= i < contracts.len() ==> (#[trigger] self.types@[i])@.len()
                == contracts[i].inputs.len()
    }

    fn check(contract: &Contract) -> (r: bool) {
        let ghost iv = inputs_view(contract.inputs@);
        let mut i: usize = 0;
        while i < contract.inputs.len()
            invariant
                i <= contract.inputs.len(),
                iv == inputs_view(contract.inputs@),
                forall|j: int| 0 <= j < i ==> (#[trigger] iv[j]).kind is Value,
            decreases contract.inputs.len() - i,
        {
            assert(iv[i as int] == contract.inputs@[i as int]@);
            match &contract.inputs[i].kind {
                InputKind::Type { bounds } => {
                    assert(iv[i as int].kind is Type);
                    return false;
                },
                _ => {},
            }
            i += 1;
        }
        true
    }

    fn suits(&self, contracts: &[Contract]) -> (r: bool) {
        if self.types.len() != contracts.len() {
            return false;
        }
        let ghost cs = contracts_view(contracts@);
        let mut i: usize = 0;
        while i < contracts.len()
            invariant
                i <= contracts.len(),
                self.types@.len() == contracts@.len(),
                cs == contracts_view(contracts@),
                forall|j: int|
                    0 <= j < i ==> (#[trigger] self.types@[j])@.len() == cs[j].inputs.len(),
            decreases contracts.len() - i,
        {
            assert(cs[i as int] == contracts@[i as int]@);
            if self.types[i].len() != contracts[i].inputs.len() {
                return false;
            }
            i += 1;
        }
        true
    }
}

impl IsState for InstantiatedContracts {
    open spec fn admits(contract: ContractV) -> bool {
        contract.inputs.len() == 0
    }

    open spec fn fits(&self, contracts: Seq<ContractV>) -> bool {
        true
    }

    fn check(contract: &Contract) -> (r: bool) {
        contract.inputs.len() == 0
    }

    fn suits(&self, contracts: &[Contract]) -> (r: bool) {
        true
    }
}

/// Whether the contracts can make up a pool of the phase `State`: each is
/// admitted, and every two go together.
pub open spec fn pool_of<State: IsState>(contracts: Seq<ContractV>) -> bool {
    &&& forall|i: int| 0 <= i < contracts.len() ==> State::admits(#[trigger] contracts[i])
    &&& all_compatible(contracts)
}

/// A pool of contracts in one phase.
pub struct ContractPool<State: IsState> {
    contracts: Vec<Contract>,
    state: State,
}

impl<State: IsState> View for ContractPool<State> {
    type V = Seq<ContractV>;

    closed spec fn view(&self) -> Seq<ContractV> {
        contracts_view(self.contracts@)
    }
}

impl<State: IsState> ContractPool<State> {
    /// Every contract of the pool is admitted by the phase, and the phase
    /// holds what fits the contracts.
    #[verifier::type_invariant]
    spec fn well_formed(self) -> bool {
        pool_of::<State>(contracts_view(self.contracts@)) && self.state.fits(
            contracts_view(self.contracts@),
        )
    }

    /// The phase of the pool, with what it holds.
    pub closed spec fn phase(&self) -> State {
        self.state
    }

    /// Whether every contract of the pool is admitted by its phase.
    pub fn check(&self) -> (r: bool)
        ensures
            r,
            pool_of::<State>(self@),
            self.phase().fits(self@),
    {
        proof {
            use_type_invariant(self);
        }
        true
    }

    /// Every contract of the pool is admitted by its phase, and every two
    /// go together.
    pub fn assert_checked(&self)
        ensures
            pool_of::<State>(self@),
            self.phase().fits(self@),
    {
        proof {
            use_type_invariant(self);
        }
    }

    /// The contracts of the pool.
    pub fn contracts(&self) -> (r: &[Contract])
        ensures
            contracts_view(r@) == self@,
    {
        self.contracts.as_slice()
    }

    /// What the contracts of the pool depend on together: what each of them
    /// depends on, and nothing else.
    pub fn dependencies(&self) -> (r: Dependencies)
        ensures
            merge_all(self@) == Some(r@),
            forall|i: int| 0 <= i < self@.len() ==> extends(r@, (#[trigger] self@[i]).dependencies),
            comes_from(r@, self@),
    {
        proof {
            use_type_invariant(self);
            lemma_merge_all_compatible(self@);
        }
        match merge_dependencies(self.contracts.as_slice()) {
            Some(deps) => deps,
            None => vstd::pervasive::unreached(),
        }
    }

    /// The pool in the phase `state`, where every contract is admitted by it
    /// and it goes with the contracts.
    fn retype<NextState: IsState>(self, state: NextState) -> (r: Option<ContractPool<NextState>>)
        ensures
            match r {
                Some(pool) => pool@ == self@ && pool.phase() == state && state.fits(self@)
                    && forall|i: int| 0 <= i < self@.len() ==> NextState::admits(#[trigger] self@[i]),
                None => !(state.fits(self@) && forall|i: int|
                    0 <= i < self@.len() ==> NextState::admits(#[trigger] self@[i])),
            },
    {
        proof {
            use_type_invariant(&self);
        }
        let ghost cs = self@;
        let mut i: usize = 0;
        while i < self.contracts.len()
            invariant
                i <= self.contracts.len(),
                cs == contracts_view(self.contracts@),
                forall|j: int| 0 <= j < i ==> NextState::admits(#[trigger] cs[j]),
            decreases self.contracts.len() - i,
        {
            assert(cs[i as int] == self.contracts@[i as int]@);
            if !NextState::check(&self.contracts[i]) {
                return None;
            }
            i += 1;
        }
        if !state.suits(self.contracts.as_slice()) {
            return None;
        }
        let ContractPool { contracts, state: _ } = self;
        Some(ContractPool { contracts, state })
    }
}

/// Contracts that depend together on something are compatible two by two.
pub proof fn lemma_merge_all_some(cs: Seq<ContractV>)
    requires
        merge_all(cs).is_some(),
    ensures
        forall|i: int| 0 <= i < cs.len() ==> extends(merge_all(cs).unwrap(), (#[trigger] cs[i]).dependencies),
        all_compatible(cs),
    decreases cs.len(),
{
    if cs.len() > 0 {
        let front = cs.drop_last();
        lemma_merge_all_some(front);
        let acc = merge_all(front).unwrap();
        let last = cs.last().dependencies;
        let all = merged(acc, last);
        assert forall|i: int| 0 <= i < cs.len() implies extends(all, (#[trigger] cs[i]).dependencies) by {
            assert forall|name: Seq<char>|
                (#[trigger] requirement(cs[i].dependencies, name)).is_some() implies requirement(
                all,
                name,
            ) == requirement(cs[i].dependencies, name) by {
                lemma_requirement_merged(acc, last, name);
                if i < front.len() {
                    assert(front[i] == cs[i]);
                    assert(extends(acc, front[i].dependencies));
                }
            }
        }
        assert forall|i: int, j: int| 0 <= i < cs.len() && 0 <= j < cs.len() implies compatible(
            (#[trigger] cs[i]).dependencies,
            (#[trigger] cs[j]).dependencies,
        ) by {
            assert(extends(all, cs[i].dependencies));
            assert(extends(all, cs[j].dependencies));
        }
    }
}

/// A group of contracts that go together, with what they depend on together.
pub struct GroupV {
    pub dependencies: Seq<(Seq<char>, Seq<char>)>,
    pub members: Seq<ContractV>,
}

/// The index, from `from` on, of the first of the groups `gs` that contracts
/// depending on `deps` can join; the number of groups where there is none.
pub open spec fn first_compatible(gs: Seq<GroupV>, deps: Seq<(Seq<char>, Seq<char>)>, from: int) -> int
    decreases gs.len() - from,
{
    if from >= gs.len() {
        gs.len() as int
    } else if compatible(gs[from].dependencies, deps) {
        from
    } else {
        first_compatible(gs, deps, from + 1)
    }
}

/// The groups once contract `c` has found its place: in the first group
/// whose dependencies are compatible with its own, which come to include
/// them; in a group of its own where there is none.
pub open spec fn place(gs: Seq<GroupV>, c: ContractV) -> Seq<GroupV> {
    let i = first_compatible(gs, c.dependencies, 0);
    if i < gs.len() {
        gs.update(
            i,
            GroupV {
                dependencies: merged(gs[i].dependencies, c.dependencies),
                members: gs[i].members.push(c),
            },
        )
    } else {
        gs.push(GroupV { dependencies: c.dependencies, members: seq![c] })
    }
}

/// The groups that the contracts make, each finding its place in turn.
pub open spec fn grouped(cs: Seq<ContractV>) -> Seq<GroupV>
    decreases cs.len(),
{
    if cs.len() == 0 {
        Seq::empty()
    } else {
        place(grouped(cs.drop_last()), cs.last())
    }
}

/// Whether the dependencies of a group include those of each member, which
/// makes every two members go together.
pub open spec fn group_wf(g: GroupV) -> bool {
    &&& g.members.len() > 0
    &&& forall|i: int| 0 <= i < g.members.len() ==> extends(g.dependencies, (#[trigger] g.members[i]).dependencies)
}

/// The members of a well-formed group go together two by two.
pub proof fn lemma_group_compatible(g: GroupV)
    requires
        group_wf(g),
    ensures
        all_compatible(g.members),
{
    assert forall|i: int, j: int|
        0 <= i < g.members.len() && 0 <= j < g.members.len() implies compatible(
        (#[trigger] g.members[i]).dependencies,
        (#[trigger] g.members[j]).dependencies,
    ) by {
        assert(extends(g.dependencies, g.members[i].dependencies));
        assert(extends(g.dependencies, g.members[j].dependencies));
    }
}

/// A contract that finds its place leaves every group well formed.
pub proof fn lemma_place_wf(gs: Seq<GroupV>, c: ContractV)
    requires
        forall|i: int| 0 <= i < gs.len() ==> group_wf(#[trigger] gs[i]),
    ensures
        forall|i: int| 0 <= i < place(gs, c).len() ==> group_wf(#[trigger] place(gs, c)[i]),
{
    let i = first_compatible(gs, c.dependencies, 0);
    lemma_first_compatible(gs, c.dependencies, 0);
    let after = place(gs, c);
    if i < gs.len() {
        let g = gs[i];
        let all = merged(g.dependencies, c.dependencies);
        let members = g.members.push(c);
        assert forall|k: int| 0 <= k < members.len() implies extends(all, (#[trigger] members[k]).dependencies) by {
            assert forall|name: Seq<char>|
                (#[trigger] requirement(members[k].dependencies, name)).is_some() implies requirement(
                all,
                name,
            ) == requirement(members[k].dependencies, name) by {
                lemma_requirement_merged(g.dependencies, c.dependencies, name);
                if k < g.members.len() {
                    assert(members[k] == g.members[k]);
                    assert(extends(g.dependencies, g.members[k].dependencies));
                }
            }
        }
        assert forall|k: int| 0 <= k < after.len() implies group_wf(#[trigger] after[k]) by {
            if k != i {
                assert(after[k] == gs[k]);
            }
        }
    } else {
        let own = GroupV { dependencies: c.dependencies, members: seq![c] };
        assert(group_wf(own));
        assert forall|k: int| 0 <= k < after.len() implies group_wf(#[trigger] after[k]) by {
            if k < gs.len() {
                assert(after[k] == gs[k]);
            }
        }
    }
}

/// The first compatible group is compatible, and none before it is.
pub proof fn lemma_first_compatible(gs: Seq<GroupV>, deps: Seq<(Seq<char>, Seq<char>)>, from: int)
    requires
        0 <= from,
    ensures
        from <= first_compatible(gs, deps, from) || first_compatible(gs, deps, from) == gs.len(),
        first_compatible(gs, deps, from) <= gs.len() || from > gs.len(),
        first_compatible(gs, deps, from) < gs.len() ==> compatible(
            gs[first_compatible(gs, deps, from)].dependencies,
            deps,
        ),
        forall|k: int|
            from <= k < first_compatible(gs, deps, from) && k < gs.len() ==> !compatible(
                (#[trigger] gs[k]).dependencies,
                deps,
            ),
    decreases gs.len() - from,
{
    if from < gs.len() && !compatible(gs[from].dependencies, deps) {
        lemma_first_compatible(gs, deps, from + 1);
    }
}

/// Every group that the contracts make is well formed.
pub proof fn lemma_grouped_wf(cs: Seq<ContractV>)
    ensures
        forall|i: int| 0 <= i < grouped(cs).len() ==> group_wf(#[trigger] grouped(cs)[i]),
    decreases cs.len(),
{
    if cs.len() > 0 {
        lemma_grouped_wf(cs.drop_last());
        lemma_place_wf(grouped(cs.drop_last()), cs.last());
    }
}

/// The members of the groups, group by group.
pub open spec fn members_of(gs: Seq<GroupV>) -> Seq<Seq<ContractV>> {
    Seq::new(gs.len(), |i: int| gs[i].members)
}

/// Two contracts that depend on different crates make one pool, which holds
/// them in their order.
pub proof fn law_disjoint_dependencies_make_one_pool(a: ContractV, b: ContractV)
    requires
        forall|name: Seq<char>|
            !((#[trigger] requirement(a.dependencies, name)).is_some() && requirement(
                b.dependencies,
                name,
            ).is_some()),
    ensures
        members_of(grouped(seq![a, b])) == seq![seq![a, b]],
        all_compatible(seq![a, b]),
{
    law_disjoint_dependencies_merge(a, b);
    let cs = seq![a, b];
    let none = Seq::<GroupV>::empty();
    assert(cs.drop_last() =~= seq![a]);
    assert(seq![a].drop_last() =~= Seq::<ContractV>::empty());
    assert(grouped(Seq::<ContractV>::empty()) == none);
    assert(grouped(seq![a]) == place(none, a));
    let one = place(none, a);
    assert(first_compatible(none, a.dependencies, 0) == 0);
    assert(one =~= seq![GroupV { dependencies: a.dependencies, members: seq![a] }]);
    assert(grouped(cs) == place(one, b));
    assert(first_compatible(one, b.dependencies, 0) == 0);
    let two = place(one, b);
    assert(two.len() == 1);
    assert(two[0].members =~= seq![a, b]);
    assert(members_of(two) =~= seq![seq![a, b]]);
    assert(cs[0] == a && cs[1] == b);
}

/// Two contracts that ask different things of one crate make two pools, and
/// no pool holds them both.
pub proof fn law_conflicting_dependencies_make_two_pools(a: ContractV, b: ContractV, name: Seq<char>)
    requires
        requirement(a.dependencies, name).is_some(),
        requirement(b.dependencies, name).is_some(),
        requirement(a.dependencies, name) != requirement(b.dependencies, name),
    ensures
        members_of(grouped(seq![a, b])) == seq![seq![a], seq![b]],
        !all_compatible(seq![a, b]),
{
    law_conflicting_dependencies_fail(a, b, name);
    let cs = seq![a, b];
    let none = Seq::<GroupV>::empty();
    assert(cs.drop_last() =~= seq![a]);
    assert(seq![a].drop_last() =~= Seq::<ContractV>::empty());
    assert(grouped(Seq::<ContractV>::empty()) == none);
    assert(grouped(seq![a]) == place(none, a));
    let one = place(none, a);
    assert(first_compatible(none, a.dependencies, 0) == 0);
    assert(one =~= seq![GroupV { dependencies: a.dependencies, members: seq![a] }]);
    assert(grouped(cs) == place(one, b));
    assert(first_compatible(one, b.dependencies, 1) == 1);
    assert(first_compatible(one, b.dependencies, 0) == 1);
    let two = place(one, b);
    assert(two.len() == 2);
    assert(two[0].members == seq![a]);
    assert(two[1].members == seq![b]);
    assert(members_of(two) =~= seq![seq![a], seq![b]]);
    assert(cs[0] == a && cs[1] == b);
}

/// The views of a sequence of pools, in order.
pub open spec fn pools_view<State: IsState>(v: Seq<ContractPool<State>>) -> Seq<Seq<ContractV>> {
    Seq::new(v.len(), |i: int| v[i]@)
}

impl ContractPool<GenericContracts> {
    /// The pools that the contracts make: each contract joins the first pool
    /// whose dependencies are compatible with its own, and starts a pool
    /// where there is none.
    pub fn new_pools(contracts: Vec<Contract>) -> (r: Vec<Self>)
        ensures
            pools_view(r@) == members_of(grouped(contracts_view(contracts@))),
    {
        let ghost cs = contracts_view(contracts@);
        let mut deps: Vec<Dependencies> = Vec::new();
        let mut members: Vec<Vec<Contract>> = Vec::new();
        let ghost mut gs: Seq<GroupV> = Seq::empty();
        let mut i: usize = 0;
        assert(cs.take(0) =~= Seq::<ContractV>::empty());
        while i < contracts.len()
            invariant
                i <= contracts.len(),
                cs == contracts_view(contracts@),
                gs == grouped(cs.take(i as int)),
                deps@.len() == gs.len(),
                members@.len() == gs.len(),
                forall|k: int| 0 <= k < gs.len() ==> (#[trigger] deps@[k])@ == gs[k].dependencies,
                forall|k: int|
                    0 <= k < gs.len() ==> contracts_view((#[trigger] members@[k])@)
                        == gs[k].members,
            decreases contracts.len() - i,
        {
            let contract = contracts[i].clone();
            proof {
                let longer = cs.take(i + 1);
                assert(longer.drop_last() =~= cs.take(i as int));
                assert(longer.last() == contract@);
            }
            let mut k: usize = 0;
            while k < deps.len() && !deps[k].compatible_with(&contract.dependencies)
                invariant
                    k <= deps.len(),
                    deps@.len() == gs.len(),
                    forall|j: int| 0 <= j < gs.len() ==> (#[trigger] deps@[j])@ == gs[j].dependencies,
                    first_compatible(gs, contract@.dependencies, 0) == first_compatible(
                        gs,
                        contract@.dependencies,
                        k as int,
                    ),
                decreases deps.len() - k,
            {
                k += 1;
            }
            assert(k as int == first_compatible(gs, contract@.dependencies, 0));
            if k < deps.len() {
                let mut group_deps = deps.remove(k);
                let mut group = members.remove(k);
                let ghost before = contracts_view(group@);
                group_deps.merge(&contract.dependencies);
                group.push(contract);
                assert(contracts_view(group@) =~= before.push(contract@));
                deps.insert(k, group_deps);
                members.insert(k, group);
            } else {
                deps.push(contract.dependencies.copy());
                let mut group: Vec<Contract> = Vec::new();
                group.push(contract);
                assert(contracts_view(group@) =~= seq![contract@]);
                members.push(group);
            }
            proof {
                gs = place(gs, contract@);
            }
            i += 1;
        }
        assert(cs.take(contracts@.len() as int) =~= cs);
        proof {
            lemma_grouped_wf(cs);
        }
        let mut pools: Vec<Self> = Vec::new();
        while members.len() > 0
            invariant
                members@.len() <= gs.len(),
                forall|k: int| 0 <= k < gs.len() ==> group_wf(#[trigger] gs[k]),
                pools@.len() == gs.len() - members@.len(),
                forall|k: int|
                    0 <= k < members@.len() ==> contracts_view((#[trigger] members@[k])@)
                        == gs[k].members,
                forall|k: int|
                    0 <= k < pools@.len() ==> (#[trigger] pools@[k])@ == gs[gs.len() - 1 - k].members,
            decreases members.len(),
        {
            let ghost idx = members@.len() - 1;
            let group = members.pop().unwrap();
            proof {
                lemma_group_compatible(gs[idx]);
            }
            pools.push(ContractPool { contracts: group, state: GenericContracts });
        }
        let ghost reversed = pools@;
        let mut r: Vec<Self> = Vec::new();
        while pools.len() > 0
            invariant
                pools@.len() <= reversed.len(),
                reversed.len() == gs.len(),
                r@.len() == reversed.len() - pools@.len(),
                forall|k: int| 0 <= k < pools@.len() ==> pools@[k] == reversed[k],
                forall|k: int| 0 <= k < reversed.len() ==> (#[trigger] reversed[k])@ == gs[gs.len() - 1 - k].members,
                forall|k: int| 0 <= k < r@.len() ==> (#[trigger] r@[k])@ == gs[k].members,
            decreases pools.len(),
        {
            let ghost at = pools@.len() - 1;
            let pool = pools.pop().unwrap();
            assert(pool == reversed[at]);
            assert(pool@ == gs[gs.len() - 1 - at].members);
            r.push(pool);
        }
        assert(pools_view(r@) =~= members_of(gs));
        r
    }

    /// The pool of the contracts given, where every two of them go together.
    pub fn new(contracts: Vec<Contract>) -> (r: Option<Self>)
        ensures
            match r {
                Some(pool) => pool@ == contracts_view(contracts@) && all_compatible(pool@),
                None => !all_compatible(contracts_view(contracts@)),
            },
    {
        match merge_dependencies(contracts.as_slice()) {
            Some(_) => {
                proof {
                    lemma_merge_all_some(contracts_view(contracts@));
                }
                Some(ContractPool { contracts, state: GenericContracts })
            },
            None => {
                proof {
                    if all_compatible(contracts_view(contracts@)) {
                        lemma_merge_all_compatible(contracts_view(contracts@));
                    }
                }
                None
            },
        }
    }
}

/// Why a pool could not pass to its next phase.
#[derive(Debug, PartialEq, Eq)]
pub enum PoolError {
    /// A contract has an input that is a type, or no input at all.
    GenericNotSupported,
    /// The types handed in are not as many as the inputs of the pool.
    WrongNumberOfTypes,
    /// The oracle that resolves types failed.
    TypeResolution(HaxQueryError),
    /// The precondition of contract `contract` gave no verdict.
    PreconditionPanicked { contract: usize },
    /// Input `input` of contract `contract` has a type of which no value can
    /// be drawn.
    UnsupportedType { contract: usize, input: usize },
    /// A condition of contract `contract` holds syntax that the walk does
    /// not accept.
    UnsupportedSyntax { contract: usize },
    /// The results handed in are not as many as the terms to run.
    WrongNumberOfResults,
}

/// Whether the types of the inputs of the contracts can be resolved: every
/// contract has an input, and every input is a value.
pub open spec fn resolvable(cs: Seq<ContractV>) -> bool {
    forall|i: int| 0 <= i < cs.len() ==> (#[trigger] cs[i]).inputs.len() > 0 && all_values(cs[i])
}

/// The number of inputs of the first `i` contracts.
pub open spec fn offset(cs: Seq<ContractV>, i: int) -> int
    decreases i,
{
    if i <= 0 {
        0
    } else {
        offset(cs, i - 1) + cs[i - 1].inputs.len()
    }
}

/// The types `types`, one for each input of the pool, contract by contract.
pub open spec fn regrouped(cs: Seq<ContractV>, types: Seq<TyV>) -> Seq<Seq<TyV>> {
    Seq::new(cs.len(), |i: int| types.subrange(offset(cs, i), offset(cs, i + 1)))
}

/// The types of a phase, contract by contract.
pub open spec fn typess_view(v: Seq<Vec<Ty>>) -> Seq<Seq<TyV>> {
    Seq::new(v.len(), |i: int| tys_view(v[i]@))
}

/// The queries for the inputs of one contract, in the order of the inputs:
/// each asks for the type of an input, without generic parameters in scope,
/// behind the imports of the contract.
pub open spec fn declared_by(c: ContractV) -> Seq<QueryV> {
    Seq::new(
        c.inputs.len(),
        |k: int|
            QueryV {
                generics: Seq::empty(),
                typ: c.inputs[k].kind->typ,
                use_statements: c.use_statements,
            },
    )
}

/// The queries for the inputs of the contracts, contract by contract.
pub open spec fn declared(cs: Seq<ContractV>) -> Seq<QueryV>
    decreases cs.len(),
{
    if cs.len() == 0 {
        Seq::empty()
    } else {
        declared(cs.drop_last()) + declared_by(cs.last())
    }
}

/// There are as many queries as the pool has inputs.
pub proof fn lemma_declared_len(cs: Seq<ContractV>)
    ensures
        declared(cs).len() == offset(cs, cs.len() as int),
    decreases cs.len(),
{
    if cs.len() > 0 {
        lemma_declared_len(cs.drop_last());
        lemma_offset_prefix(cs, cs.len() - 1, cs.len() - 1);
    }
}

/// The offsets of a pool are those of its contracts before any point.
pub proof fn lemma_offset_prefix(cs: Seq<ContractV>, n: int, i: int)
    requires
        0 <= i <= n <= cs.len(),
    ensures
        offset(cs.take(n), i) == offset(cs, i),
    decreases i,
{
    if i > 0 {
        lemma_offset_prefix(cs, n, i - 1);
        assert(cs.take(n)[i - 1] == cs[i - 1]);
    }
}

/// The offsets grow with the contracts.
pub proof fn lemma_offset_grows(cs: Seq<ContractV>, i: int, j: int)
    requires
        0 <= i <= j,
    ensures
        0 <= offset(cs, i) <= offset(cs, j),
    decreases j,
{
    if i < j {
        lemma_offset_grows(cs, i, j - 1);
    } else if i > 0 {
        lemma_offset_grows(cs, i - 1, i - 1);
        lemma_offset_grows(cs, 0, i - 1);
    }
}

impl<State: IsState> ContractPool<State> {
    /// The queries that ask for the types of the inputs of the pool: one for
    /// each input, contract by contract, each behind the imports of its
    /// contract. Fails where a contract has an input that is a type, or no
    /// input at all.
    pub fn type_queries(&self) -> (r: Result<Vec<HaxQuery>, PoolError>)
        ensures
            match r {
                Ok(queries) => resolvable(self@) && queries_view(queries@) == declared(self@),
                Err(e) => e == PoolError::GenericNotSupported && !resolvable(self@),
            },
    {
        let ghost cs = self@;
        let mut queries: Vec<HaxQuery> = Vec::new();
        let mut i: usize = 0;
        assert(cs.take(0) =~= Seq::<ContractV>::empty());
        assert(queries_view(queries@) =~= declared(cs.take(0)));
        while i < self.contracts.len()
            invariant
                i <= self.contracts.len(),
                cs == contracts_view(self.contracts@),
                forall|j: int| 0 <= j < i ==> (#[trigger] cs[j]).inputs.len() > 0 && all_values(cs[j]),
                queries_view(queries@) == declared(cs.take(i as int)),
            decreases self.contracts.len() - i,
        {
            let contract = &self.contracts[i];
            assert(cs[i as int] == contract@);
            if contract.inputs.len() == 0 {
                return Err(PoolError::GenericNotSupported);
            }
            let ghost before = queries_view(queries@);
            let ghost own = declared_by(contract@);
            let mut k: usize = 0;
            assert(before + own.take(0) =~= before);
            while k < contract.inputs.len()
                invariant
                    k <= contract.inputs.len(),
                    own == declared_by(contract@),
                    cs == contracts_view(self.contracts@),
                    cs[i as int] == contract@,
                    0 <= i < cs.len(),
                    queries_view(queries@) == before + own.take(k as int),
                    forall|m: int| 0 <= m < k ==> (#[trigger] contract@.inputs[m]).kind is Value,
                decreases contract.inputs.len() - k,
            {
                assert(contract@.inputs[k as int] == contract.inputs@[k as int]@);
                match &contract.inputs[k].kind {
                    InputKind::Value { typ, aliases } => {
                        let ghost sofar = queries_view(queries@);
                        let q = HaxQuery::Type {
                            generics: Vec::new(),
                            typ: copy_type(typ),
                            use_statements: copy_strings(&contract.use_statements),
                        };
                        assert(crate::syntax::params_view(q->generics@) =~= Seq::empty());
                        queries.push(q);
                        assert(queries_view(queries@) =~= sofar.push(own[k as int]));
                        assert(own.take(k + 1) =~= own.take(k as int).push(own[k as int]));
                        assert(queries_view(queries@) =~= before + own.take(k + 1));
                    },
                    InputKind::Type { bounds } => {
                        assert(cs[i as int].inputs[k as int].kind is Type);
                        assert(!all_values(cs[i as int]));
                        return Err(PoolError::GenericNotSupported);
                    },
                }
                k += 1;
            }
            proof {
                assert(own.take(contract@.inputs.len() as int) =~= own);
                let longer = cs.take(i + 1);
                assert(longer.drop_last() =~= cs.take(i as int));
                assert(longer.last() == contract@);
            }
            i += 1;
        }
        assert(cs.take(cs.len() as int) =~= cs);
        Ok(queries)
    }

    /// The pool in the parametric phase, with the types `types` for its
    /// inputs, one for each input, contract by contract.
    ///
    /// Fails where a contract has an input that is a type or no input at
    /// all, and where the types are not as many as the inputs.
    pub fn with_types(self, types: Vec<Ty>) -> (r: Result<ContractPool<ParametricContracts>, PoolError>)
        ensures
            match r {
                Ok(pool) => resolvable(self@) && types@.len() == offset(self@, self@.len() as int)
                    && pool@ == self@ && typess_view(pool.phase().types@) == regrouped(
                    self@,
                    tys_view(types@),
                ),
                Err(PoolError::GenericNotSupported) => !resolvable(self@),
                Err(PoolError::WrongNumberOfTypes) => resolvable(self@) && types@.len() != offset(
                    self@,
                    self@.len() as int,
                ),
                Err(_) => false,
            },
    {
        proof {
            use_type_invariant(&self);
        }
        let ghost cs = self@;
        let ghost tv = tys_view(types@);
        let mut i: usize = 0;
        while i < self.contracts.len()
            invariant
                i <= self.contracts.len(),
                cs == contracts_view(self.contracts@),
                forall|j: int| 0 <= j < i ==> (#[trigger] cs[j]).inputs.len() > 0 && all_values(cs[j]),
            decreases self.contracts.len() - i,
        {
            assert(cs[i as int] == self.contracts@[i as int]@);
            if self.contracts[i].inputs.len() == 0 || !ParametricContracts::check(
                &self.contracts[i],
            ) {
                return Err(PoolError::GenericNotSupported);
            }
            i += 1;
        }
        let mut grouped_types: Vec<Vec<Ty>> = Vec::new();
        let mut cursor: usize = 0;
        let mut i: usize = 0;
        while i < self.contracts.len()
            invariant
                i <= self.contracts.len(),
                cs == contracts_view(self.contracts@),
                tv == tys_view(types@),
                resolvable(cs),
                cursor == offset(cs, i as int),
                cursor <= types@.len(),
                grouped_types@.len() == i,
                forall|j: int|
                    0 <= j < i ==> tys_view((#[trigger] grouped_types@[j])@) == tv.subrange(
                        offset(cs, j),
                        offset(cs, j + 1),
                    ),
            decreases self.contracts.len() - i,
        {
            assert(cs[i as int] == self.contracts@[i as int]@);
            let n = self.contracts[i].inputs.len();
            let total = types.len();
            if n > total - cursor {
                proof {
                    lemma_offset_grows(cs, i + 1, cs.len() as int);
                }
                return Err(PoolError::WrongNumberOfTypes);
            }
            let mut group: Vec<Ty> = Vec::new();
            let mut k: usize = 0;
            while k < n
                invariant
                    k <= n,
                    cursor + n <= types@.len(),
                    types@.len() <= usize::MAX,
                    tv == tys_view(types@),
                    group@.len() == k,
                    forall|m: int| 0 <= m < k ==> (#[trigger] group@[m])@ == tv[cursor + m],
                decreases n - k,
            {
                group.push(types[cursor + k].clone());
                k += 1;
            }
            assert(tys_view(group@) =~= tv.subrange(cursor as int, cursor + n));
            grouped_types.push(group);
            cursor = cursor + n;
            i += 1;
        }
        if cursor != types.len() {
            return Err(PoolError::WrongNumberOfTypes);
        }
        assert(typess_view(grouped_types@) =~= regrouped(cs, tv));
        let state = ParametricContracts { types: grouped_types };
        assert(state.fits(cs)) by {
            assert forall|j: int| 0 <= j < cs.len() implies (#[trigger] state.types@[j])@.len()
                == cs[j].inputs.len() by {
                lemma_offset_grows(cs, 0, j);
                lemma_offset_grows(cs, j, j + 1);
                lemma_offset_grows(cs, j + 1, cs.len() as int);
                assert(typess_view(state.types@)[j] == tys_view(state.types@[j]@));
                assert(regrouped(cs, tv)[j] == tv.subrange(offset(cs, j), offset(cs, j + 1)));
                assert(tys_view(state.types@[j]@).len() == offset(cs, j + 1) - offset(cs, j));
            }
        }
        let ContractPool { contracts, state: _ } = self;
        Ok(ContractPool { contracts, state })
    }
}

/// Whether the oracle `resolve`, put the queries for the inputs of the
/// contracts `cs` as the batch `numbered`, answered with `items`, which
/// carry the types `typess`, contract by contract.
pub open spec fn types_resolved_by<F>(
    resolve: F,
    cs: Seq<ContractV>,
    typess: Seq<Seq<TyV>>,
    numbered: &[HaxQueryWithId],
    items: Vec<ResolvedItem>,
) -> bool where F: Fn(&[HaxQueryWithId]) -> Result<Vec<ResolvedItem>, String> {
    &&& numbering(declared(cs), numbered@)
    &&& call_ensures(resolve, (numbered,), Ok::<Vec<ResolvedItem>, String>(items))
    &&& typess == regrouped(cs, answers(items@, declared(cs).len()))
}

impl ContractPool<GenericContracts> {
    /// Whether the types of the inputs of the pool can be resolved: every
    /// contract has an input, and every input is a value.
    pub fn is_resolvable(&self) -> (r: bool)
        ensures
            r == resolvable(self@),
    {
        let ghost cs = self@;
        let mut i: usize = 0;
        while i < self.contracts.len()
            invariant
                i <= self.contracts.len(),
                cs == contracts_view(self.contracts@),
                forall|j: int| 0 <= j < i ==> (#[trigger] cs[j]).inputs.len() > 0 && all_values(cs[j]),
            decreases self.contracts.len() - i,
        {
            assert(cs[i as int] == self.contracts@[i as int]@);
            if self.contracts[i].inputs.len() == 0 || !ParametricContracts::check(&self.contracts[i]) {
                return false;
            }
            i += 1;
        }
        true
    }

    /// Passes the pool to the parametric phase: asks the oracle `resolve`
    /// for the types of the inputs of the pool, in one batch, and files the
    /// answers contract by contract. Every contract of the pool has an
    /// input, and every input is a value.
    ///
    /// Fails where the oracle fails on the batch or leaves a query without
    /// an answer.
    pub fn instantiate_types<F>(self, resolve: F) -> (r: Result<
        ContractPool<ParametricContracts>,
        PoolError,
    >) where F: Fn(&[HaxQueryWithId]) -> Result<Vec<ResolvedItem>, String>
        requires
            resolvable(self@),
            forall|part: &[HaxQueryWithId], p: Part|
                #![trigger numbered_part(declared(self@), part@, p)]
                numbered_part(declared(self@), part@, p) ==> call_requires(resolve, (part,)),
        ensures
            match r {
                Ok(pool) => pool@ == self@ && (self@.len() > 0 ==> exists|
                    numbered: &[HaxQueryWithId],
                    items: Vec<ResolvedItem>,
                | #[trigger]
                    types_resolved_by(
                        resolve,
                        self@,
                        typess_view(pool.phase().types@),
                        numbered,
                        items,
                    )),
                Err(PoolError::TypeResolution(e)) => self@.len() > 0 && failed_by(
                    resolve,
                    declared(self@),
                    e,
                ),
                Err(_) => false,
            },
    {
        let ghost cs = self@;
        let queries = match self.type_queries() {
            Ok(queries) => queries,
            Err(_) => vstd::pervasive::unreached(),
        };
        proof {
            lemma_declared_len(cs);
        }
        match execute_hax_queries(&queries, resolve) {
            Ok(results) => {
                let mut types: Vec<Ty> = Vec::new();
                let mut i: usize = 0;
                while i < results.len()
                    invariant
                        i <= results.len(),
                        types@.len() == i,
                        forall|j: int| 0 <= j < i ==> (#[trigger] types@[j])@ == results@[j]->Type_0@,
                    decreases results.len() - i,
                {
                    match &results[i] {
                        HaxQueryRes::Type(ty) => {
                            types.push(ty.clone());
                        },
                    }
                    i += 1;
                }
                assert(tys_view(types@) =~= results_view(results@));
                let r = self.with_types(types);
                proof {
                    if cs.len() > 0 {
                        assert(cs[0].inputs.len() > 0);
                        lemma_offset_grows(cs, 1, cs.len() as int);
                        assert(offset(cs, 1) == offset(cs, 0) + cs[0].inputs.len());
                        assert(queries@.len() > 0);
                        let (numbered, items) = choose|
                            numbered: &[HaxQueryWithId],
                            items: Vec<ResolvedItem>,
                        | #[trigger]
                            resolved_by(
                                resolve,
                                queries_view(queries@),
                                results_view(results@),
                                numbered,
                                items,
                            );
                        assert(types_resolved_by(
                            resolve,
                            cs,
                            typess_view(r->Ok_0.phase().types@),
                            numbered,
                            items,
                        ));
                    }
                }
                r
            },
            Err(e) => Err(PoolError::TypeResolution(e)),
        }
    }
}

/// The trials left to a contract: it is tried until as many instances as it
/// wants are accepted, and at most twenty times as often as that.
#[derive(Clone, Copy, Debug, PartialEq, Eq)]
pub struct Trials {
    pub target: usize,
    pub accepted: usize,
    pub attempted: u128,
}

impl Trials {
    /// Whether another trial is due.
    pub open spec fn due(self) -> bool {
        self.accepted < self.target && self.attempted < 20 * self.target
    }

    /// The trials of a contract that wants `target` instances.
    pub fn new(target: usize) -> (r: Self)
        ensures
            r == (Trials { target, accepted: 0, attempted: 0 }),
    {
        Trials { target, accepted: 0, attempted: 0 }
    }

    /// Whether another trial is due.
    pub fn wanted(&self) -> (r: bool)
        ensures
            r == self.due(),
    {
        self.accepted < self.target && self.attempted < 20 * (self.target as u128)
    }

    /// Counts a trial, accepted or not.
    pub fn record(&mut self, accepted: bool)
        requires
            old(self).due(),
        ensures
            final(self).target == old(self).target,
            final(self).attempted == old(self).attempted + 1,
            final(self).accepted == old(self).accepted + (if accepted {
                1int
            } else {
                0int
            }),
    {
        self.attempted = self.attempted + 1;
        if accepted {
            self.accepted = self.accepted + 1;
        }
    }
}

/// What follows a trial.
#[derive(Clone, Copy, Debug, PartialEq, Eq)]
pub enum TrialStep {
    /// The values are accepted: they give an instance, and the trials go on
    /// from the state given.
    Accept(Trials),
    /// The values are rejected: they are dropped, and the trials go on from
    /// the state given.
    Skip(Trials),
    /// The precondition said nothing of the values: the trials stop, and
    /// the pool fails.
    Stop,
}

impl Trials {
    /// What follows a trial on which the precondition said `verdict`.
    pub open spec fn after(self, verdict: Option<bool>) -> TrialStep {
        match verdict {
            None => TrialStep::Stop,
            Some(true) => TrialStep::Accept(
                Trials {
                    target: self.target,
                    accepted: (self.accepted + 1) as usize,
                    attempted: (self.attempted + 1) as u128,
                },
            ),
            Some(false) => TrialStep::Skip(
                Trials {
                    target: self.target,
                    accepted: self.accepted,
                    attempted: (self.attempted + 1) as u128,
                },
            ),
        }
    }

    /// What follows a trial that was due, on which the precondition said
    /// `verdict`.
    pub fn step(self, verdict: Option<bool>) -> (r: TrialStep)
        requires
            self.due(),
        ensures
            r == self.after(verdict),
    {
        let mut next = self;
        match verdict {
            None => TrialStep::Stop,
            Some(true) => {
                next.record(true);
                TrialStep::Accept(next)
            },
            Some(false) => {
                next.record(false);
                TrialStep::Skip(next)
            },
        }
    }
}

/// A trial on which the precondition accepted or rejected the values: the
/// raw draws, one for each input, and whether the values they gave were
/// accepted.
pub struct TrialV {
    pub raws: Seq<nat>,
    pub accepted: bool,
}

/// The number of the first `k` trials of `record` that were accepted.
pub open spec fn accepted_among(record: Seq<TrialV>, k: int) -> nat
    decreases k,
{
    if k <= 0 {
        0
    } else {
        accepted_among(record, k - 1) + if record[k - 1].accepted {
            1nat
        } else {
            0nat
        }
    }
}

/// Whether a contract that wants `target` instances is due another trial
/// after the first `k` trials of `record`: fewer than `target` of them were
/// accepted, and they are fewer than twenty times `target`.
pub open spec fn due_after(target: nat, record: Seq<TrialV>, k: int) -> bool {
    accepted_among(record, k) < target && k < 20 * target
}

/// Whether `record` holds all the trials of a contract that wants `target`
/// instances, and no more: each of them was due, and none is due after
/// them.
pub open spec fn record_complete(target: nat, record: Seq<TrialV>) -> bool {
    &&& forall|k: int| 0 <= k < record.len() ==> #[trigger] due_after(target, record, k)
    &&& !due_after(target, record, record.len() as int)
}

/// The instance that the trial `t` of the contract `c` gives, the inputs of
/// which have the types `tys`: `c` with the values drawn in place of its
/// inputs. `None` where they cannot be put in.
pub open spec fn instance_drawn(c: ContractV, tys: Seq<TyV>, t: TrialV) -> Option<ContractV> {
    instance(c, literals(tys, t.raws), c.inputs.len() as int)
}

/// The instances that the first `k` trials of `record` give: one for each
/// accepted trial, in the order of the trials.
pub open spec fn yielded(c: ContractV, tys: Seq<TyV>, record: Seq<TrialV>, k: int) -> Seq<
    ContractV,
>
    decreases k,
{
    if k <= 0 {
        Seq::empty()
    } else if record[k - 1].accepted {
        yielded(c, tys, record, k - 1).push(instance_drawn(c, tys, record[k - 1]).unwrap())
    } else {
        yielded(c, tys, record, k - 1)
    }
}

/// Whether the trial `t` of contract `i` took place: `test` gave its verdict
/// on the encodings of the values drawn, and where it accepted them, they
/// could be put in place of the inputs of `c`.
pub open spec fn witnessed<F>(test: F, i: usize, c: ContractV, tys: Seq<TyV>, t: TrialV) -> bool where
    F: Fn(usize, Vec<Value>) -> Option<bool>,
 {
    &&& exists|reprs: Vec<Value>| #[trigger] tried_by(test, i, tys, t.raws, reprs, Some(t.accepted))
    &&& t.accepted ==> instance_drawn(c, tys, t).is_some()
}

/// Whether `record` holds the trials of contract `i`, which is `c` with
/// inputs of the types `tys`: each took place, and they are all the trials
/// that `c` is due.
pub open spec fn record_of<F>(
    test: F,
    i: usize,
    c: ContractV,
    tys: Seq<TyV>,
    record: Seq<TrialV>,
) -> bool where F: Fn(usize, Vec<Value>) -> Option<bool> {
    &&& record_complete(c.tests as nat, record)
    &&& forall|k: int| 0 <= k < record.len() ==> witnessed(test, i, c, tys, #[trigger] record[k])
}

/// The instances that the trials of the first `n` contracts give, contract
/// by contract.
pub open spec fn all_yielded(
    cs: Seq<ContractV>,
    typess: Seq<Seq<TyV>>,
    records: Seq<Seq<TrialV>>,
    n: int,
) -> Seq<ContractV>
    decreases n,
{
    if n <= 0 {
        Seq::empty()
    } else {
        all_yielded(cs, typess, records, n - 1) + yielded(
            cs[n - 1],
            typess[n - 1],
            records[n - 1],
            records[n - 1].len() as int,
        )
    }
}

/// Whether `instances` come of the trials `records` of the contracts `cs`,
/// the inputs of which have the types `typess`: `records` holds for each
/// contract all the trials that it was due, each of which took place with
/// `test`, and `instances` are what the accepted trials give, contract by
/// contract and trial by trial.
pub open spec fn trials_of<F>(
    test: F,
    cs: Seq<ContractV>,
    typess: Seq<Seq<TyV>>,
    records: Seq<Seq<TrialV>>,
    instances: Seq<ContractV>,
) -> bool where F: Fn(usize, Vec<Value>) -> Option<bool> {
    &&& records.len() == cs.len()
    &&& forall|i: int|
        0 <= i < cs.len() ==> record_of(test, i as usize, cs[i], typess[i], #[trigger] records[i])
    &&& instances == all_yielded(cs, typess, records, cs.len() as int)
}

/// What the first trials of a record give does not depend on the trials
/// after them.
pub proof fn lemma_record_prefix(
    c: ContractV,
    tys: Seq<TyV>,
    record: Seq<TrialV>,
    t: TrialV,
    k: int,
)
    requires
        0 <= k <= record.len(),
    ensures
        accepted_among(record.push(t), k) == accepted_among(record, k),
        yielded(c, tys, record.push(t), k) == yielded(c, tys, record, k),
    decreases k,
{
    if k > 0 {
        lemma_record_prefix(c, tys, record, t, k - 1);
        assert(record.push(t)[k - 1] == record[k - 1]);
    }
}

/// What the first contracts give does not depend on the records of the
/// contracts after them.
pub proof fn lemma_all_yielded_prefix(
    cs: Seq<ContractV>,
    typess: Seq<Seq<TyV>>,
    records: Seq<Seq<TrialV>>,
    record: Seq<TrialV>,
    n: int,
)
    requires
        0 <= n <= records.len(),
    ensures
        all_yielded(cs, typess, records.push(record), n) == all_yielded(cs, typess, records, n),
    decreases n,
{
    if n > 0 {
        lemma_all_yielded_prefix(cs, typess, records, record, n - 1);
        assert(records.push(record)[n - 1] == records[n - 1]);
    }
}

/// A record gives one instance for each accepted trial.
pub proof fn lemma_yielded_count(c: ContractV, tys: Seq<TyV>, record: Seq<TrialV>, k: int)
    ensures
        yielded(c, tys, record, k).len() == accepted_among(record, k),
    decreases k,
{
    if k > 0 {
        lemma_yielded_count(c, tys, record, k - 1);
    }
}

/// The trials of a contract stop at its target or at its budget: a record
/// that holds all the trials of a contract that wants `target` instances
/// gives at most `target` instances in at most twenty times `target`
/// trials, and it gives `target` instances or holds twenty times `target`
/// trials.
pub proof fn law_trials_stop_at_target_or_budget(
    c: ContractV,
    tys: Seq<TyV>,
    target: nat,
    record: Seq<TrialV>,
)
    requires
        record_complete(target, record),
    ensures
        yielded(c, tys, record, record.len() as int).len() == accepted_among(
            record,
            record.len() as int,
        ),
        accepted_among(record, record.len() as int) <= target,
        record.len() <= 20 * target,
        accepted_among(record, record.len() as int) == target || record.len() == 20 * target,
{
    lemma_yielded_count(c, tys, record, record.len() as int);
    if record.len() > 0 {
        assert(due_after(target, record, record.len() - 1));
    }
}

/// A contract whose trials are all rejected but the last gives one instance
/// where it wants one: with a target of one, a record that ends in its
/// first accepted trial gives exactly the instance of that trial.
pub proof fn law_first_accepted_trial_is_the_instance(
    c: ContractV,
    tys: Seq<TyV>,
    record: Seq<TrialV>,
)
    requires
        record_complete(1, record),
        record.len() > 0,
        record.last().accepted,
    ensures
        yielded(c, tys, record, record.len() as int) == seq![
            instance_drawn(c, tys, record.last()).unwrap(),
        ],
{
    let n = record.len() as int;
    assert(due_after(1, record, n - 1));
    lemma_yielded_count(c, tys, record, n - 1);
    assert(yielded(c, tys, record, n - 1) =~= Seq::<ContractV>::empty());
    assert(yielded(c, tys, record, n) =~= seq![instance_drawn(c, tys, record.last()).unwrap()]);
}

/// Whether `inst` is an instance of `c`: `c` with some values in place of
/// its inputs.
pub open spec fn is_instance_of(inst: ContractV, c: ContractV) -> bool {
    exists|values: Seq<ExprV>| #[trigger]
        instance(c, values, c.inputs.len() as int) == Some(inst)
}

/// Whether each of `instances` is an instance of one of the contracts `cs`.
pub open spec fn instances_of(instances: Seq<ContractV>, cs: Seq<ContractV>) -> bool {
    forall|k: int|
        0 <= k < instances.len() ==> exists|i: int|
            0 <= i < cs.len() && is_instance_of(#[trigger] instances[k], #[trigger] cs[i])
}

/// The expressions that denote the values of the types `tys` which the raw
/// draws `raws` give.
pub open spec fn literals(tys: Seq<TyV>, raws: Seq<nat>) -> Seq<ExprV> {
    Seq::new(
        tys.len(),
        |j: int| literal_expr(leaf_of_type(tys[j]).unwrap(), drawn(leaf_of_type(tys[j]).unwrap(), raws[j])),
    )
}

/// The encodings of the values of the types `tys` which the raw draws `raws`
/// give.
pub open spec fn encodings(tys: Seq<TyV>, raws: Seq<nat>) -> Seq<ValueV> {
    Seq::new(
        tys.len(),
        |j: int| encoded(leaf_of_type(tys[j]).unwrap(), drawn(leaf_of_type(tys[j]).unwrap(), raws[j])),
    )
}

/// Whether `inst` comes of an accepted trial of contract `i`, which is `c`
/// with inputs of the types `tys`: the raw draws `raws` gave the values
/// encoded as `reprs`, `test` said of them that they meet the precondition
/// of contract `i`, and `inst` is `c` with the values in place of its
/// inputs.
pub open spec fn accepted_by<F>(
    test: F,
    i: usize,
    c: ContractV,
    tys: Seq<TyV>,
    inst: ContractV,
    raws: Seq<nat>,
    reprs: Vec<Value>,
) -> bool where F: Fn(usize, Vec<Value>) -> Option<bool> {
    &&& raws.len() == tys.len()
    &&& forall|j: int| 0 <= j < tys.len() ==> (#[trigger] leaf_of_type(tys[j])).is_some()
    &&& values_view(reprs@) == encodings(tys, raws)
    &&& call_ensures(test, (i, reprs), Some(true))
    &&& instance(c, literals(tys, raws), c.inputs.len() as int) == Some(inst)
}

/// Whether `inst` comes of an accepted trial of one of the contracts `cs`,
/// the inputs of which have the types `typess`.
pub open spec fn accepted_instance<F>(
    test: F,
    inst: ContractV,
    cs: Seq<ContractV>,
    typess: Seq<Seq<TyV>>,
) -> bool where F: Fn(usize, Vec<Value>) -> Option<bool> {
    exists|i: usize, raws: Seq<nat>, reprs: Vec<Value>|
        i < cs.len() && #[trigger] accepted_by(
            test,
            i,
            cs[i as int],
            typess[i as int],
            inst,
            raws,
            reprs,
        )
}

/// Whether each of `instances` comes of an accepted trial of one of the
/// contracts `cs`, the inputs of which have the types `typess`.
pub open spec fn all_accepted_by<F>(
    test: F,
    instances: Seq<ContractV>,
    cs: Seq<ContractV>,
    typess: Seq<Seq<TyV>>,
) -> bool where F: Fn(usize, Vec<Value>) -> Option<bool> {
    forall|k: int|
        0 <= k < instances.len() ==> accepted_instance(test, #[trigger] instances[k], cs, typess)
}

/// Whether `values` can be put to the precondition of contract `i`, the
/// inputs of the contracts having the types `typess`: they are the
/// encodings of the values that the raw draws `raws` give, one for each
/// input of the contract.
pub open spec fn is_question(
    typess: Seq<Seq<TyV>>,
    i: usize,
    raws: Seq<nat>,
    values: Seq<Value>,
) -> bool {
    &&& i < typess.len()
    &&& raws.len() == typess[i as int].len()
    &&& all_drawable(typess[i as int])
    &&& values_view(values) == encodings(typess[i as int], raws)
}

/// Whether a value can be drawn of each of the types `tys`.
pub open spec fn all_drawable(tys: Seq<TyV>) -> bool {
    forall|j: int| 0 <= j < tys.len() ==> (#[trigger] leaf_of_type(tys[j])).is_some()
}

/// Whether a trial of contract `i`, the inputs of which have the types `tys`,
/// went so: the raw draws `raws` gave the values encoded as `reprs`, and
/// `test` said `verdict` of them.
pub open spec fn tried_by<F>(
    test: F,
    i: usize,
    tys: Seq<TyV>,
    raws: Seq<nat>,
    reprs: Vec<Value>,
    verdict: Option<bool>,
) -> bool where F: Fn(usize, Vec<Value>) -> Option<bool> {
    &&& raws.len() == tys.len()
    &&& all_drawable(tys)
    &&& values_view(reprs@) == encodings(tys, raws)
    &&& call_ensures(test, (i, reprs), verdict)
}

/// Whether a trial of contract `i`, which is `c` with inputs of the types
/// `tys`, was accepted by `test`, and the values drawn could not be put in
/// place of the inputs of `c`.
pub open spec fn refused_after<F>(
    test: F,
    i: usize,
    c: ContractV,
    tys: Seq<TyV>,
    raws: Seq<nat>,
    reprs: Vec<Value>,
) -> bool where F: Fn(usize, Vec<Value>) -> Option<bool> {
    tried_by(test, i, tys, raws, reprs, Some(true)) && instance(
        c,
        literals(tys, raws),
        c.inputs.len() as int,
    ).is_none()
}

/// The number of instances that the first `i` contracts want together.
pub open spec fn wanted_by(cs: Seq<ContractV>, i: int) -> int
    decreases i,
{
    if i <= 0 {
        0
    } else {
        wanted_by(cs, i - 1) + cs[i - 1].tests
    }
}

impl ContractPool<ParametricContracts> {
    /// Passes the pool to the instantiated phase. Each contract is tried
    /// until as many instances as it wants are accepted, and at most twenty
    /// times as often: a trial draws a random value for each input and asks
    /// `test` whether the values meet the precondition of the contract. An
    /// accepted trial gives an instance, in which the values stand for the
    /// inputs. A contract for which too few trials are accepted gives fewer
    /// instances than it wants.
    ///
    /// Whatever is drawn and whatever `test` says: the pool that comes out
    /// holds, contract by contract and trial by trial, the instance of each
    /// accepted trial of a record of trials, which holds for each contract
    /// all the trials that it was due and no other, each with a verdict of
    /// `test`.
    ///
    /// Fails where a contract that wants an instance has an input of a type
    /// of which no value can be drawn, where `test` gives no verdict in a
    /// trial, and where the values of an accepted trial cannot be put in.
    pub fn instantiate_values<F>(self, test: F) -> (r: Result<
        ContractPool<InstantiatedContracts>,
        PoolError,
    >) where F: Fn(usize, Vec<Value>) -> Option<bool>
        requires
            forall|i: usize, values: Vec<Value>, raws: Seq<nat>|
                #![trigger is_question(typess_view(self.phase().types@), i, raws, values@)]
                is_question(typess_view(self.phase().types@), i, raws, values@) ==> call_requires(
                    test,
                    (i, values),
                ),
        ensures
            match r {
                Ok(pool) => instances_of(pool@, self@) && all_accepted_by(
                    test,
                    pool@,
                    self@,
                    typess_view(self.phase().types@),
                ) && pool@.len() <= wanted_by(self@, self@.len() as int) && (forall|c: int|
                    0 <= c < self@.len() && (#[trigger] self@[c]).tests > 0 ==> all_drawable(
                        typess_view(self.phase().types@)[c],
                    )) && exists|records: Seq<Seq<TrialV>>| #[trigger]
                    trials_of(test, self@, typess_view(self.phase().types@), records, pool@),
                Err(PoolError::PreconditionPanicked { contract }) => contract < self@.len()
                    && self@[contract as int].tests > 0 && exists|raws: Seq<nat>, reprs: Vec<Value>|
                    #[trigger] tried_by(
                        test,
                        contract,
                        typess_view(self.phase().types@)[contract as int],
                        raws,
                        reprs,
                        None,
                    ),
                Err(PoolError::UnsupportedType { contract, input }) => contract < self@.len()
                    && self@[contract as int].tests > 0 && input
                    < self@[contract as int].inputs.len() && leaf_of_type(
                    typess_view(self.phase().types@)[contract as int][input as int],
                ).is_none(),
                Err(PoolError::UnsupportedSyntax { contract }) => contract < self@.len()
                    && self@[contract as int].tests > 0 && exists|raws: Seq<nat>, reprs: Vec<Value>|
                    #[trigger] refused_after(
                        test,
                        contract,
                        self@[contract as int],
                        typess_view(self.phase().types@)[contract as int],
                        raws,
                        reprs,
                    ),
                Err(_) => false,
            },
    {
        proof {
            use_type_invariant(&self);
        }
        let ghost cs = self@;
        let ghost tss = typess_view(self.state.types@);
        let mut instances: Vec<Contract> = Vec::new();
        let ghost mut records: Seq<Seq<TrialV>> = Seq::empty();
        let mut i: usize = 0;
        while i < self.contracts.len()
            invariant
                i <= self.contracts.len(),
                cs == contracts_view(self.contracts@),
                tss == typess_view(self.state.types@),
                records.len() == i,
                forall|c: int|
                    0 <= c < i ==> record_of(test, c as usize, cs[c], tss[c], #[trigger] records[c]),
                contracts_view(instances@) == all_yielded(cs, tss, records, i as int),
                pool_of::<ParametricContracts>(cs),
                self.state.fits(cs),
                forall|i: usize, values: Vec<Value>, raws: Seq<nat>|
                    #![trigger is_question(tss, i, raws, values@)]
                    is_question(tss, i, raws, values@) ==> call_requires(test, (i, values)),
                instances_of(contracts_view(instances@), cs),
                all_accepted_by(test, contracts_view(instances@), cs, tss),
                instances@.len() <= wanted_by(cs, i as int),
                forall|k: int| 0 <= k < instances@.len() ==> (#[trigger] instances@[k])@.inputs.len() == 0,
                forall|c: int| 0 <= c < i && (#[trigger] cs[c]).tests > 0 ==> all_drawable(tss[c]),
            decreases self.contracts.len() - i,
        {
            let contract = &self.contracts[i];
            assert(cs[i as int] == contract@);
            let types = &self.state.types[i];
            assert(tss[i as int] == tys_view(types@));
            let ghost c = cs[i as int];
            let ghost tys = tss[i as int];
            let ghost earlier = all_yielded(cs, tss, records, i as int);
            let ghost mut record: Seq<TrialV> = Seq::empty();
            let mut trials = Trials::new(contract.tests);
            assert(contracts_view(instances@) =~= earlier + yielded(c, tys, record, 0));
            while trials.wanted()
                invariant
                    i < cs.len(),
                    cs == contracts_view(self.contracts@),
                    tss == typess_view(self.state.types@),
                    tss.len() == cs.len(),
                    c == cs[i as int],
                    c == contract@,
                    tys == tss[i as int],
                    tys == tys_view(types@),
                    types@.len() == c.inputs.len(),
                    trials.target == c.tests,
                    forall|i: usize, values: Vec<Value>, raws: Seq<nat>|
                    #![trigger is_question(tss, i, raws, values@)]
                    is_question(tss, i, raws, values@) ==> call_requires(test, (i, values)),
                    record.len() == trials.attempted,
                    accepted_among(record, record.len() as int) == trials.accepted,
                    trials.accepted <= trials.target,
                    trials.attempted > 0 ==> all_drawable(tys),
                    forall|k: int|
                        0 <= k < record.len() ==> #[trigger] due_after(c.tests as nat, record, k),
                    forall|k: int|
                        0 <= k < record.len() ==> witnessed(test, i, c, tys, #[trigger] record[k]),
                    contracts_view(instances@) == earlier + yielded(
                        c,
                        tys,
                        record,
                        record.len() as int,
                    ),
                    instances_of(contracts_view(instances@), cs),
                    all_accepted_by(test, contracts_view(instances@), cs, tss),
                    forall|k: int|
                        0 <= k < instances@.len() ==> (#[trigger] instances@[k])@.inputs.len() == 0,
                decreases 20 * trials.target - trials.attempted,
            {
                assert(c.tests > 0);
                let (reprs, exprs) = match draw_values(types) {
                    Ok(drawn) => drawn,
                    Err(k) => {
                        assert(leaf_of_type(tss[i as int][k as int]).is_none());
                        return Err(PoolError::UnsupportedType { contract: i, input: k });
                    },
                };
                let ghost raws = choose|raws: Seq<nat>| #[trigger]
                    drawn_as(tys, raws, values_view(reprs@), crate::syntax::exprs_view(exprs@));
                let ghost sent = reprs;
                let ghost held = contracts_view(instances@);
                assert(crate::syntax::exprs_view(exprs@).len() == tys.len());
                assert(exprs@.len() == c.inputs.len());
                assert(is_question(tss, i, raws, reprs@));
                let verdict = test(i, reprs);
                assert(tried_by(test, i, tys, raws, sent, verdict));
                match trials.step(verdict) {
                    TrialStep::Stop => {
                        assert(verdict.is_none());
                        return Err(PoolError::PreconditionPanicked { contract: i });
                    },
                    TrialStep::Skip(next) => {
                        proof {
                            let t = TrialV { raws, accepted: false };
                            assert(verdict == Some(false));
                            assert(tried_by(test, i, tys, t.raws, sent, Some(t.accepted)));
                            lemma_record_grows(test, i, c, tys, record, t);
                            record = record.push(t);
                        }
                        trials = next;
                    },
                    TrialStep::Accept(next) => {
                        match instance_of(contract, &exprs) {
                            Ok(inst) => {
                                proof {
                                    let t = TrialV { raws, accepted: true };
                                    assert(verdict == Some(true));
                                    assert(tried_by(test, i, tys, t.raws, sent, Some(t.accepted)));
                                    assert(instance_drawn(c, tys, t) == Some(inst@));
                                    lemma_record_grows(test, i, c, tys, record, t);
                                    record = record.push(t);
                                    lemma_instance_keeps(
                                        c,
                                        crate::syntax::exprs_view(exprs@),
                                        c.inputs.len() as int,
                                    );
                                    assert(accepted_by(test, i, c, tys, inst@, raws, sent));
                                    lemma_instance_added(test, cs, tss, held, inst@, i, raws, sent);
                                }
                                instances.push(inst);
                                assert(contracts_view(instances@) =~= held.push(inst@));
                                assert(contracts_view(instances@) =~= earlier + yielded(
                                    c,
                                    tys,
                                    record,
                                    record.len() as int,
                                ));
                            },
                            Err(_) => {
                                assert(verdict == Some(true));
                                assert(instance(
                                    c,
                                    literals(tys, raws),
                                    c.inputs.len() as int,
                                ).is_none());
                                assert(refused_after(test, i, c, tys, raws, sent));
                                return Err(PoolError::UnsupportedSyntax { contract: i });
                            },
                        }
                        trials = next;
                    },
                }
            }
            proof {
                let longer = records.push(record);
                lemma_all_yielded_prefix(cs, tss, records, record, i as int);
                lemma_yielded_count(c, tys, record, record.len() as int);
                assert(longer[i as int] == record);
                assert(record_of(test, i, c, tys, record));
                assert forall|k: int| 0 <= k < i + 1 implies record_of(
                    test,
                    k as usize,
                    cs[k],
                    tss[k],
                    #[trigger] longer[k],
                ) by {
                    if k < i {
                        assert(longer[k] == records[k]);
                    }
                }
                records = longer;
            }
            i += 1;
        }
        proof {
            let insts = contracts_view(instances@);
            assert forall|a: int, b: int| 0 <= a < insts.len() && 0 <= b < insts.len() implies compatible(
                (#[trigger] insts[a]).dependencies,
                (#[trigger] insts[b]).dependencies,
            ) by {
                lemma_instance_dependencies(insts, cs, a);
                lemma_instance_dependencies(insts, cs, b);
            }
            assert forall|k: int| 0 <= k < insts.len() implies InstantiatedContracts::admits(
                #[trigger] insts[k],
            ) by {
                assert(insts[k] == instances@[k]@);
            }
        }
        let r: Result<ContractPool<InstantiatedContracts>, PoolError> = Ok(
            ContractPool { contracts: instances, state: InstantiatedContracts },
        );
        assert(trials_of(test, cs, tss, records, r->Ok_0@));
        r
    }
}

/// Whether the raw draws `raws` give values of the types `tys` that are
/// encoded as `reprs` and denoted by `exprs`.
pub open spec fn drawn_as(
    tys: Seq<TyV>,
    raws: Seq<nat>,
    reprs: Seq<ValueV>,
    exprs: Seq<ExprV>,
) -> bool {
    &&& raws.len() == tys.len()
    &&& all_drawable(tys)
    &&& reprs == encodings(tys, raws)
    &&& exprs == literals(tys, raws)
}

/// A random value of each of the types `types`: their encodings, and the
/// expressions that denote them. Fails on the first type of which no value
/// can be drawn, and says which it is.
pub fn draw_values(types: &Vec<Ty>) -> (r: Result<(Vec<Value>, Vec<Expr>), usize>)
    ensures
        match r {
            Ok(d) => exists|raws: Seq<nat>| #[trigger]
                drawn_as(tys_view(types@), raws, values_view(d.0@), crate::syntax::exprs_view(d.1@)),
            Err(k) => k < types@.len() && leaf_of_type(tys_view(types@)[k as int]).is_none()
                && forall|j: int| 0 <= j < k ==> (#[trigger] leaf_of_type(tys_view(types@)[j])).is_some(),
        },
{
    let ghost tys = tys_view(types@);
    let ghost mut raws: Seq<nat> = Seq::empty();
    let mut reprs: Vec<Value> = Vec::new();
    let mut exprs: Vec<Expr> = Vec::new();
    let mut k: usize = 0;
    while k < types.len()
        invariant
            k <= types.len(),
            tys == tys_view(types@),
            exprs@.len() == k,
            reprs@.len() == k,
            raws.len() == k,
            forall|j: int| 0 <= j < k ==> (#[trigger] leaf_of_type(tys[j])).is_some(),
            forall|j: int|
                0 <= j < k ==> (#[trigger] reprs@[j])@ == encoded(
                    leaf_of_type(tys[j]).unwrap(),
                    drawn(leaf_of_type(tys[j]).unwrap(), raws[j]),
                ),
            forall|j: int|
                0 <= j < k ==> (#[trigger] exprs@[j])@ == literal_expr(
                    leaf_of_type(tys[j]).unwrap(),
                    drawn(leaf_of_type(tys[j]).unwrap(), raws[j]),
                ),
        decreases types.len() - k,
    {
        assert(tys[k as int] == types@[k as int]@);
        match generate_for_type(&types[k]) {
            Some(d) => {
                proof {
                    let raw = choose|raw: nat| #[trigger] is_draw(d, tys[k as int], raw);
                    raws = raws.push(raw);
                }
                reprs.push(d.repr);
                exprs.push(d.expr);
            },
            None => {
                return Err(k);
            },
        }
        k += 1;
    }
    assert(values_view(reprs@) =~= encodings(tys, raws));
    assert(crate::syntax::exprs_view(exprs@) =~= literals(tys, raws));
    let r: Result<(Vec<Value>, Vec<Expr>), usize> = Ok((reprs, exprs));
    assert(drawn_as(tys, raws, values_view(r->Ok_0.0@), crate::syntax::exprs_view(r->Ok_0.1@)));
    r
}

/// A trial that was due and took place adds to a record: the trials before
/// it stay as they were, and it gives an instance where it was accepted.
pub proof fn lemma_record_grows<F>(
    test: F,
    i: usize,
    c: ContractV,
    tys: Seq<TyV>,
    record: Seq<TrialV>,
    t: TrialV,
) where F: Fn(usize, Vec<Value>) -> Option<bool>
    requires
        forall|k: int| 0 <= k < record.len() ==> #[trigger] due_after(c.tests as nat, record, k),
        forall|k: int| 0 <= k < record.len() ==> witnessed(test, i, c, tys, #[trigger] record[k]),
        due_after(c.tests as nat, record, record.len() as int),
        witnessed(test, i, c, tys, t),
    ensures
        forall|k: int|
            0 <= k < record.len() + 1 ==> #[trigger] due_after(c.tests as nat, record.push(t), k),
        forall|k: int|
            0 <= k < record.len() + 1 ==> witnessed(test, i, c, tys, #[trigger] record.push(t)[k]),
        accepted_among(record.push(t), record.len() as int + 1) == accepted_among(
            record,
            record.len() as int,
        ) + if t.accepted {
            1nat
        } else {
            0nat
        },
        yielded(c, tys, record.push(t), record.len() as int + 1) == if t.accepted {
            yielded(c, tys, record, record.len() as int).push(instance_drawn(c, tys, t).unwrap())
        } else {
            yielded(c, tys, record, record.len() as int)
        },
{
    let longer = record.push(t);
    let n = record.len() as int;
    assert forall|k: int| 0 <= k < n + 1 implies #[trigger] due_after(c.tests as nat, longer, k) by {
        lemma_record_prefix(c, tys, record, t, k);
        if k < n {
            assert(due_after(c.tests as nat, record, k));
        }
    }
    assert forall|k: int| 0 <= k < n + 1 implies witnessed(test, i, c, tys, #[trigger] longer[k]) by {
        if k < n {
            assert(longer[k] == record[k]);
        }
    }
    lemma_record_prefix(c, tys, record, t, n);
    assert(longer[n] == t);
}

/// An instance that comes of an accepted trial of one of the contracts adds
/// to instances that each come of one.
pub proof fn lemma_instance_added<F>(
    test: F,
    cs: Seq<ContractV>,
    typess: Seq<Seq<TyV>>,
    before: Seq<ContractV>,
    inst: ContractV,
    i: usize,
    raws: Seq<nat>,
    reprs: Vec<Value>,
) where F: Fn(usize, Vec<Value>) -> Option<bool>
    requires
        instances_of(before, cs),
        all_accepted_by(test, before, cs, typess),
        i < cs.len(),
        accepted_by(test, i, cs[i as int], typess[i as int], inst, raws, reprs),
    ensures
        instances_of(before.push(inst), cs),
        all_accepted_by(test, before.push(inst), cs, typess),
{
    let after = before.push(inst);
    assert(is_instance_of(inst, cs[i as int]));
    assert forall|k: int| 0 <= k < after.len() implies exists|j: int|
        0 <= j < cs.len() && is_instance_of(#[trigger] after[k], #[trigger] cs[j]) by {
        if k < before.len() {
            assert(after[k] == before[k]);
        }
    }
    assert forall|k: int| 0 <= k < after.len() implies accepted_instance(
        test,
        #[trigger] after[k],
        cs,
        typess,
    ) by {
        if k < before.len() {
            assert(after[k] == before[k]);
        }
    }
}

/// An instance depends on what one of the contracts depends on.
pub proof fn lemma_instance_dependencies(insts: Seq<ContractV>, cs: Seq<ContractV>, k: int) -> (i:
    int)
    requires
        instances_of(insts, cs),
        0 <= k < insts.len(),
    ensures
        0 <= i < cs.len(),
        insts[k].dependencies == cs[i].dependencies,
        insts[k].use_statements == cs[i].use_statements,
{
    let i = choose|i: int| 0 <= i < cs.len() && is_instance_of(#[trigger] insts[k], #[trigger] cs[i]);
    let values = choose|values: Seq<ExprV>| #[trigger]
        instance(cs[i], values, cs[i].inputs.len() as int) == Some(insts[k]);
    lemma_instance_keeps(cs[i], values, cs[i].inputs.len() as int);
    i
}

/// A term to run, behind the imports of the contract it was hoisted from.
pub struct EvalTermV {
    pub use_statements: Seq<Seq<char>>,
    pub node: EvalNodeV,
}

/// A term to run, behind the imports of the contract it was hoisted from.
#[derive(Debug, PartialEq, Eq)]
pub struct EvalTerm {
    pub use_statements: Vec<String>,
    pub node: EvalNode,
}

impl View for EvalTerm {
    type V = EvalTermV;

    open spec fn view(&self) -> EvalTermV {
        EvalTermV { use_statements: strings_view(self.use_statements@), node: self.node@ }
    }
}

/// The views of a sequence of terms, in order.
pub open spec fn terms_view(v: Seq<EvalTerm>) -> Seq<EvalTermV> {
    Seq::new(v.len(), |i: int| v[i]@)
}

/// The terms hoisted from one contract, each behind the imports of the
/// contract.
pub open spec fn terms_of(c: ContractV) -> Seq<EvalTermV> {
    Seq::new(
        extracted(c).1.len(),
        |k: int| EvalTermV { use_statements: c.use_statements, node: extracted(c).1[k] },
    )
}

/// The placeholders of the terms hoisted from one contract.
pub open spec fn ids_of(c: ContractV) -> Seq<Seq<char>> {
    Seq::new(extracted(c).1.len(), |k: int| extracted(c).1[k].placeholder)
}

/// The terms hoisted from the contracts, contract by contract.
pub open spec fn all_terms(cs: Seq<ContractV>) -> Seq<EvalTermV>
    decreases cs.len(),
{
    if cs.len() == 0 {
        Seq::empty()
    } else {
        all_terms(cs.drop_last()) + terms_of(cs.last())
    }
}

/// The contracts with their marked parts hoisted.
pub open spec fn all_extracted(cs: Seq<ContractV>) -> Seq<ContractV> {
    Seq::new(cs.len(), |i: int| extracted(cs[i]).0)
}

/// The placeholders of the terms hoisted from the contracts, contract by
/// contract.
pub open spec fn all_ids(cs: Seq<ContractV>) -> Seq<Seq<Seq<char>>> {
    Seq::new(cs.len(), |i: int| ids_of(cs[i]))
}

/// The placeholders handed out, contract by contract, as texts.
pub open spec fn idss_view(v: Seq<Vec<String>>) -> Seq<Seq<Seq<char>>> {
    Seq::new(v.len(), |i: int| strings_view(v[i]@))
}

/// The number of placeholders of the first `i` contracts.
pub open spec fn ids_before(ids: Seq<Seq<Seq<char>>>, i: int) -> int
    decreases i,
{
    if i <= 0 {
        0
    } else {
        ids_before(ids, i - 1) + ids[i - 1].len()
    }
}

/// The contracts with the results put in place of their placeholders: the
/// results are filed contract by contract, in the order of the placeholders.
pub open spec fn all_with_results(
    cs: Seq<ContractV>,
    ids: Seq<Seq<Seq<char>>>,
    results: Seq<Option<ExprV>>,
) -> Seq<ContractV> {
    Seq::new(
        cs.len(),
        |i: int|
            with_results(
                cs[i],
                ids[i],
                results.subrange(ids_before(ids, i), ids_before(ids, i + 1)),
            ),
    )
}

/// The placeholders count up with the contracts.
pub proof fn lemma_ids_before_grows(ids: Seq<Seq<Seq<char>>>, i: int, j: int)
    requires
        0 <= i <= j,
    ensures
        0 <= ids_before(ids, i) <= ids_before(ids, j),
    decreases j,
{
    if i < j {
        lemma_ids_before_grows(ids, i, j - 1);
    } else if i > 0 {
        lemma_ids_before_grows(ids, i - 1, i - 1);
        lemma_ids_before_grows(ids, 0, i - 1);
    }
}

impl ContractPool<InstantiatedContracts> {
    /// Hoists the marked parts of every contract of the pool. Hands out the
    /// pool with placeholders in their place, the terms to run, contract by
    /// contract, and the placeholders of each contract.
    pub fn extract_eval_nodes(self) -> (r: (Self, Vec<EvalTerm>, Vec<Vec<String>>))
        ensures
            r.0@ == all_extracted(self@),
            terms_view(r.1@) == all_terms(self@),
            idss_view(r.2@) == all_ids(self@),
    {
        proof {
            use_type_invariant(&self);
        }
        let ghost cs = self@;
        let ContractPool { contracts, state } = self;
        let mut rewritten: Vec<Contract> = Vec::new();
        let mut terms: Vec<EvalTerm> = Vec::new();
        let mut ids: Vec<Vec<String>> = Vec::new();
        let mut i: usize = 0;
        assert(cs.take(0) =~= Seq::<ContractV>::empty());
        assert(terms_view(terms@) =~= all_terms(cs.take(0)));
        while i < contracts.len()
            invariant
                i <= contracts.len(),
                cs == contracts_view(contracts@),
                rewritten@.len() == i,
                ids@.len() == i,
                forall|j: int| 0 <= j < i ==> (#[trigger] rewritten@[j])@ == extracted(cs[j]).0,
                forall|j: int| 0 <= j < i ==> strings_view((#[trigger] ids@[j])@) == ids_of(cs[j]),
                terms_view(terms@) == all_terms(cs.take(i as int)),
            decreases contracts.len() - i,
        {
            let mut contract = contracts[i].clone();
            assert(cs[i as int] == contract@);
            let nodes = contract.extract_eval_nodes();
            let ghost nv = nodes_view(nodes@);
            assert(nv == extracted(cs[i as int]).1);
            let ghost own = terms_of(cs[i as int]);
            let ghost before = terms_view(terms@);
            let mut own_ids: Vec<String> = Vec::new();
            let mut k: usize = 0;
            assert(before + own.take(0) =~= before);
            while k < nodes.len()
                invariant
                    k <= nodes.len(),
                    i < cs.len(),
                    nv == nodes_view(nodes@),
                    nv == extracted(cs[i as int]).1,
                    own == terms_of(cs[i as int]),
                    contract@.use_statements == cs[i as int].use_statements,
                    own_ids@.len() == k,
                    forall|m: int| 0 <= m < k ==> (#[trigger] own_ids@[m])@ == nv[m].placeholder,
                    terms_view(terms@) == before + own.take(k as int),
                decreases nodes.len() - k,
            {
                assert(nv[k as int] == nodes@[k as int]@);
                own_ids.push(nodes[k].placeholder.clone());
                let ghost sofar = terms_view(terms@);
                let term = EvalTerm {
                    use_statements: copy_strings(&contract.use_statements),
                    node: nodes[k].clone(),
                };
                terms.push(term);
                assert(terms_view(terms@) =~= sofar.push(own[k as int]));
                assert(own.take(k + 1) =~= own.take(k as int).push(own[k as int]));
                assert(terms_view(terms@) =~= before + own.take(k + 1));
                k += 1;
            }
            proof {
                assert(own.take(nodes@.len() as int) =~= own);
                let longer = cs.take(i + 1);
                assert(longer.drop_last() =~= cs.take(i as int));
                assert(longer.last() == cs[i as int]);
                assert(strings_view(own_ids@) =~= ids_of(cs[i as int]));
            }
            ids.push(own_ids);
            rewritten.push(contract);
            i += 1;
        }
        assert(cs.take(cs.len() as int) =~= cs);
        assert(contracts_view(rewritten@) =~= all_extracted(cs));
        assert(idss_view(ids@) =~= all_ids(cs));
        proof {
            lemma_extracted_pool(cs);
        }
        (ContractPool { contracts: rewritten, state }, terms, ids)
    }

    /// Puts the results in place of the placeholders: `ids` holds the
    /// placeholders of each contract, and `results` one result or none for
    /// each placeholder, contract by contract. A placeholder without a result
    /// stays.
    ///
    /// Fails where the placeholders are not given for each contract, or the
    /// results are not as many as the placeholders.
    pub fn substitute_results(self, ids: &Vec<Vec<String>>, results: &Vec<Option<Expr>>) -> (r:
        Result<Self, PoolError>)
        ensures
            match r {
                Ok(pool) => ids@.len() == self@.len() && results@.len() == ids_before(
                    idss_view(ids@),
                    ids@.len() as int,
                ) && pool@ == all_with_results(self@, idss_view(ids@), opt_exprs_view(results@)),
                Err(e) => e == PoolError::WrongNumberOfResults && !(ids@.len() == self@.len()
                    && results@.len() == ids_before(idss_view(ids@), ids@.len() as int)),
            },
    {
        proof {
            use_type_invariant(&self);
        }
        let ghost cs = self@;
        let ghost iv = idss_view(ids@);
        let ghost rv = opt_exprs_view(results@);
        if ids.len() != self.contracts.len() {
            return Err(PoolError::WrongNumberOfResults);
        }
        let ContractPool { contracts, state } = self;
        let mut rewritten: Vec<Contract> = Vec::new();
        let mut cursor: usize = 0;
        let mut i: usize = 0;
        let total = results.len();
        while i < contracts.len()
            invariant
                i <= contracts.len(),
                total == results@.len(),
                ids@.len() == contracts@.len(),
                cs == contracts_view(contracts@),
                iv == idss_view(ids@),
                rv == opt_exprs_view(results@),
                results@.len() <= usize::MAX,
                cursor == ids_before(iv, i as int),
                cursor <= results@.len(),
                rewritten@.len() == i,
                forall|j: int|
                    0 <= j < i ==> (#[trigger] rewritten@[j])@ == with_results(
                        cs[j],
                        iv[j],
                        rv.subrange(ids_before(iv, j), ids_before(iv, j + 1)),
                    ),
            decreases contracts.len() - i,
        {
            assert(iv[i as int] == strings_view(ids@[i as int]@));
            let n = ids[i].len();
            if n > total - cursor {
                proof {
                    lemma_ids_before_grows(iv, i + 1, iv.len() as int);
                }
                return Err(PoolError::WrongNumberOfResults);
            }
            let slice = vstd::slice::slice_subrange(results.as_slice(), cursor, cursor + n);
            assert(opt_exprs_view(slice@) =~= rv.subrange(cursor as int, cursor + n));
            let table = make_table(ids[i].as_slice(), slice);
            let mut contract = contracts[i].clone();
            assert(cs[i as int] == contract@);
            contract.subst_names_with_exprs(table);
            rewritten.push(contract);
            cursor = cursor + n;
            i += 1;
        }
        if cursor != total {
            return Err(PoolError::WrongNumberOfResults);
        }
        assert(contracts_view(rewritten@) =~= all_with_results(cs, iv, rv));
        proof {
            lemma_with_results_pool(cs, iv, rv);
        }
        Ok(ContractPool { contracts: rewritten, state })
    }
}

/// Hoisting the marked parts leaves a pool a pool.
pub proof fn lemma_extracted_pool(cs: Seq<ContractV>)
    requires
        pool_of::<InstantiatedContracts>(cs),
    ensures
        pool_of::<InstantiatedContracts>(all_extracted(cs)),
{
    let after = all_extracted(cs);
    assert forall|i: int, j: int| 0 <= i < after.len() && 0 <= j < after.len() implies compatible(
        (#[trigger] after[i]).dependencies,
        (#[trigger] after[j]).dependencies,
    ) by {
        assert(compatible(cs[i].dependencies, cs[j].dependencies));
    }
    assert forall|i: int| 0 <= i < after.len() implies InstantiatedContracts::admits(
        #[trigger] after[i],
    ) by {
        assert(InstantiatedContracts::admits(cs[i]));
    }
}

/// Putting results in leaves a pool a pool.
pub proof fn lemma_with_results_pool(
    cs: Seq<ContractV>,
    ids: Seq<Seq<Seq<char>>>,
    results: Seq<Option<ExprV>>,
)
    requires
        pool_of::<InstantiatedContracts>(cs),
    ensures
        pool_of::<InstantiatedContracts>(all_with_results(cs, ids, results)),
{
    let after = all_with_results(cs, ids, results);
    assert forall|i: int, j: int| 0 <= i < after.len() && 0 <= j < after.len() implies compatible(
        (#[trigger] after[i]).dependencies,
        (#[trigger] after[j]).dependencies,
    ) by {
        assert(compatible(cs[i].dependencies, cs[j].dependencies));
    }
    assert forall|i: int| 0 <= i < after.len() implies InstantiatedContracts::admits(
        #[trigger] after[i],
    ) by {
        assert(InstantiatedContracts::admits(cs[i]));
    }
}

impl Clone for EvalTerm {
    fn clone(&self) -> (r: Self)
        ensures
            r@ == self@,
    {
        EvalTerm { use_statements: copy_strings(&self.use_statements), node: self.node.clone() }
    }
}

/// Why the marked parts of a pool could not be computed.
#[derive(Debug)]
pub enum EvalFailure<E> {
    /// The evaluator failed on `responsible`, with `error`.
    Batch { responsible: Vec<EvalTerm>, error: E },
    /// The evaluator answered with another number of results than there were
    /// terms.
    WrongNumberOfResults,
}

impl ContractPool<InstantiatedContracts> {
    /// Computes the marked parts of the contracts of the pool: hoists them,
    /// hands the terms to `evaluate` as one batch, and puts each result in
    /// place of its placeholder. Where the batch fails, `evaluate` is run on
    /// parts of it to find the terms that are responsible: the failure names
    /// the terms of the part that the search blames. A term for which
    /// `evaluate` has no result keeps its placeholder. Without a marked part
    /// `evaluate` is not run.
    pub fn compute_eval_nodes<F, E>(self, evaluate: F) -> (r: Result<Self, EvalFailure<E>>) where
        F: Fn(&[EvalTerm]) -> Result<Vec<Option<Expr>>, E>,

        requires
            forall|part: &[EvalTerm], p: Part|
                #![trigger terms_part(all_terms(self@), part@, p)]
                terms_part(all_terms(self@), part@, p) ==> call_requires(evaluate, (part,)),
        ensures
            match r {
                Ok(pool) => if all_terms(self@).len() == 0 {
                    pool@ == all_extracted(self@)
                } else {
                    exists|terms: &[EvalTerm], results: Vec<Option<Expr>>| #[trigger]
                        evaluated_by(evaluate, self@, pool@, terms, results)
                },
                Err(EvalFailure::Batch { responsible, error }) => 0 < responsible@.len()
                    <= all_terms(self@).len() && exists|
                    terms: &[EvalTerm],
                    trace: Seq<bool>,
                    part: Part,
                    tried: &[EvalTerm],
                | #[trigger]
                    failed_in(evaluate, self@, responsible@, error, terms, trace, part, tried),
                Err(EvalFailure::WrongNumberOfResults) => all_terms(self@).len() > 0 && exists|
                    terms: &[EvalTerm],
                    results: Vec<Option<Expr>>,
                | #[trigger] miscounted_by(evaluate, self@, terms, results),
            },
    {
        let ghost cs = self@;
        let (pool, terms, ids) = self.extract_eval_nodes();
        if terms.len() == 0 {
            return Ok(pool);
        }
        let batch = terms.as_slice();
        assert(all_terms(cs).len() == terms_view(terms@).len());
        assert forall|part: &[EvalTerm], p: Part| #[trigger]
            is_part(part@, batch@, p) implies call_requires(evaluate, (part,)) by {
            assert(terms_view(part@) =~= all_terms(cs).subrange(p.start as int, p.end as int)) by {
                assert forall|j: int| 0 <= j < part@.len() implies terms_view(part@)[j]
                    == all_terms(cs)[p.start + j] by {
                    assert(part@[j] == batch@[p.start + j]);
                    assert(terms_view(batch@)[p.start + j] == batch@[p.start + j]@);
                }
            }
            assert(terms_part(all_terms(cs), part@, p));
        }
        match run_or_locate_error(batch, evaluate) {
            Ok(results) => {
                let ghost rv = opt_exprs_view(results@);
                match pool.substitute_results(&ids, &results) {
                    Ok(done) => {
                        assert(rv.len() == ids_before(all_ids(cs), all_ids(cs).len() as int));
                        proof {
                            lemma_ids_count(cs);
                        }
                        assert(done@ == all_with_results(all_extracted(cs), all_ids(cs), rv));
                        assert(evaluated_by(evaluate, cs, done@, batch, results));
                        let r: Result<Self, EvalFailure<E>> = Ok(done);
                        assert(evaluated_by(evaluate, cs, r->Ok_0@, batch, results));
                        r
                    },
                    Err(_) => {
                        proof {
                            lemma_ids_count(cs);
                            assert(idss_view(ids@) == all_ids(cs));
                            assert(ids@.len() == all_ids(cs).len());
                            assert(all_ids(cs).len() == cs.len());
                            assert(pool@.len() == cs.len());
                            assert(terms_view(batch@) == all_terms(cs));
                        }
                        assert(miscounted_by(evaluate, cs, batch, results));
                        Err(EvalFailure::WrongNumberOfResults)
                    },
                }
            },
            Err((responsible, error)) => {
                let ghost (trace, part, tried) = choose|
                    trace: Seq<bool>,
                    part: Part,
                    tried: &[EvalTerm],
                | #[trigger] located_on(evaluate, batch@, responsible@, error, trace, part, tried);
                let mut blamed: Vec<EvalTerm> = Vec::new();
                let mut i: usize = 0;
                while i < responsible.len()
                    invariant
                        i <= responsible.len(),
                        blamed@.len() == i,
                        forall|j: int| 0 <= j < i ==> (#[trigger] blamed@[j])@ == responsible@[j]@,
                    decreases responsible.len() - i,
                {
                    blamed.push(responsible[i].clone());
                    i += 1;
                }
                proof {
                    assert(terms_view(blamed@) =~= all_terms(cs).subrange(
                        part.start as int,
                        part.end as int,
                    )) by {
                        assert forall|j: int| 0 <= j < blamed@.len() implies terms_view(blamed@)[j]
                            == all_terms(cs)[part.start + j] by {
                            assert(*responsible@[j] == batch@[part.start + j]);
                            assert(terms_view(batch@)[part.start + j] == batch@[part.start + j]@);
                        }
                    }
                    assert(terms_view(tried@) =~= all_terms(cs).subrange(
                        part.start as int,
                        part.end as int,
                    )) by {
                        assert forall|j: int| 0 <= j < tried@.len() implies terms_view(tried@)[j]
                            == all_terms(cs)[part.start + j] by {
                            assert(tried@[j] == batch@[part.start + j]);
                            assert(terms_view(batch@)[part.start + j] == batch@[part.start + j]@);
                        }
                    }
                    assert(failed_in(evaluate, cs, blamed@, error, batch, trace, part, tried));
                }
                let r: Result<Self, EvalFailure<E>> = Err(
                    EvalFailure::Batch { responsible: blamed, error },
                );
                assert(failed_in(
                    evaluate,
                    cs,
                    r->Err_0->responsible@,
                    r->Err_0->error,
                    batch,
                    trace,
                    part,
                    tried,
                ));
                r
            },
        }
    }
}

/// Whether `part` holds the terms of the non-empty part `p` of `terms`.
pub open spec fn terms_part(terms: Seq<EvalTermV>, part: Seq<EvalTerm>, p: Part) -> bool {
    p.within(terms.len() as int) && terms_view(part) == terms.subrange(
        p.start as int,
        p.end as int,
    )
}

/// Whether the evaluator `evaluate`, handed the terms of the contracts `cs`
/// as the batch `terms`, answered with `results`, and `after` holds the
/// contracts with the results in place of their placeholders.
pub open spec fn evaluated_by<F, E>(
    evaluate: F,
    cs: Seq<ContractV>,
    after: Seq<ContractV>,
    terms: &[EvalTerm],
    results: Vec<Option<Expr>>,
) -> bool where F: Fn(&[EvalTerm]) -> Result<Vec<Option<Expr>>, E> {
    &&& terms_view(terms@) == all_terms(cs)
    &&& call_ensures(evaluate, (terms,), Ok::<Vec<Option<Expr>>, E>(results))
    &&& results@.len() == all_terms(cs).len()
    &&& after == all_with_results(all_extracted(cs), all_ids(cs), opt_exprs_view(results@))
}

/// Whether the evaluator `evaluate`, handed the terms of the contracts `cs`
/// as the batch `terms`, answered with `results`, which are not as many as
/// the terms.
pub open spec fn miscounted_by<F, E>(
    evaluate: F,
    cs: Seq<ContractV>,
    terms: &[EvalTerm],
    results: Vec<Option<Expr>>,
) -> bool where F: Fn(&[EvalTerm]) -> Result<Vec<Option<Expr>>, E> {
    &&& terms_view(terms@) == all_terms(cs)
    &&& call_ensures(evaluate, (terms,), Ok::<Vec<Option<Expr>>, E>(results))
    &&& results@.len() != all_terms(cs).len()
}

/// Whether the search for the terms that are responsible ended so: the
/// evaluator `evaluate` was handed the terms of the contracts `cs` as the
/// batch `terms`, and parts of it; the outcomes `trace` of these tries lead
/// the search to blame the part `part`, which `tried` and `responsible`
/// hold, and on which the evaluator failed with `error`.
pub open spec fn failed_in<F, E>(
    evaluate: F,
    cs: Seq<ContractV>,
    responsible: Seq<EvalTerm>,
    error: E,
    terms: &[EvalTerm],
    trace: Seq<bool>,
    part: Part,
    tried: &[EvalTerm],
) -> bool where F: Fn(&[EvalTerm]) -> Result<Vec<Option<Expr>>, E> {
    &&& terms_view(terms@) == all_terms(cs)
    &&& search_of(evaluate, terms@, trace, Verdict::Blamed(part))
    &&& part.within(all_terms(cs).len() as int)
    &&& terms_view(responsible) == all_terms(cs).subrange(part.start as int, part.end as int)
    &&& terms_view(tried@) == all_terms(cs).subrange(part.start as int, part.end as int)
    &&& call_ensures(evaluate, (tried,), Err::<Vec<Option<Expr>>, E>(error))
}

/// There are as many placeholders as terms.
pub proof fn lemma_ids_count(cs: Seq<ContractV>)
    ensures
        ids_before(all_ids(cs), cs.len() as int) == all_terms(cs).len(),
    decreases cs.len(),
{
    if cs.len() > 0 {
        let front = cs.drop_last();
        lemma_ids_count(front);
        lemma_ids_prefix(cs, cs.len() - 1, cs.len() - 1);
        assert(all_ids(cs)[cs.len() - 1] == ids_of(cs.last()));
    }
}

/// The placeholders before a contract are those of the contracts before it.
pub proof fn lemma_ids_prefix(cs: Seq<ContractV>, n: int, i: int)
    requires
        0 <= i <= n <= cs.len(),
    ensures
        ids_before(all_ids(cs.take(n)), i) == ids_before(all_ids(cs), i),
    decreases i,
{
    if i > 0 {
        lemma_ids_prefix(cs, n, i - 1);
        assert(cs.take(n)[i - 1] == cs[i - 1]);
        assert(all_ids(cs.take(n))[i - 1] == ids_of(cs[i - 1]));
        assert(all_ids(cs)[i - 1] == ids_of(cs[i - 1]));
    }
}

impl<State: IsState> ContractPool<State> {
    /// What the contracts of the pool depend on together, in the words of a
    /// manifest.
    pub fn dependencies_string(&self) -> (r: String)
        ensures
            r@ == crate::utils::manifest_text(merge_all(self@).unwrap()),
    {
        let deps = self.dependencies();
        crate::utils::dependencies_to_string(&deps)
    }
}

impl ContractPool<GenericContracts> {
    /// The pool in the instantiated phase, where none of its contracts has
    /// an input.
    pub fn into_instantiated(self) -> (r: Option<ContractPool<InstantiatedContracts>>)
        ensures
            match r {
                Some(pool) => pool@ == self@ && forall|i: int|
                    0 <= i < self@.len() ==> (#[trigger] self@[i]).inputs.len() == 0,
                None => exists|i: int| 0 <= i < self@.len() && (#[trigger] self@[i]).inputs.len() > 0,
            },
    {
        let ghost cs = self@;
        let r = self.retype(InstantiatedContracts);
        proof {
            if r.is_none() {
                assert(InstantiatedContracts.fits(cs));
            }
        }
        r
    }
}

} // verus!
