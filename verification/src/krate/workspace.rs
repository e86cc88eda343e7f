//! The workspace in which the crates that are run live.
//!
//! The workspace is a value: which crates it holds, and under which root.
//! Who owns the value writes the files that it describes.

use crate::decimal::{decimal_text, to_decimal};
use vstd::prelude::*;
use vstd::string::StringExecFns;

verus! {

/// The number of a crate of the workspace.
#[derive(Clone, Copy, Debug, PartialEq, Eq)]
pub struct KrateId(pub usize);

/// The name of the crate of number `id`.
pub open spec fn krate_name(id: nat) -> Seq<char> {
    "crate_"@ + decimal_text(id)
}

impl KrateId {
    /// The name of the crate.
    pub fn name(&self) -> (r: String)
        ensures
            r@ == krate_name(self.0 as nat),
    {
        let mut r = String::from_str("crate_");
        r.append(to_decimal(self.0 as u128).as_str());
        r
    }
}

/// The path of `name` under `root`: `root`, a separator unless `root` is
/// empty or ends with one, and `name`.
pub open spec fn joined(root: Seq<char>, name: Seq<char>) -> Seq<char> {
    if root.len() == 0 || root.last() == '/' {
        root + name
    } else {
        root + "/"@ + name
    }
}

/// The path of the relative path `name` under `root`.
pub fn join_path(root: &str, name: &str) -> (r: String)
    ensures
        r@ == joined(root@, name@),
{
    let len = root.unicode_len();
    let mut r = String::from_str(root);
    if len > 0 && root.get_char(len - 1) != '/' {
        r.append("/");
    }
    r.append(name);
    r
}

/// Whether one of `crates` has the number `id`.
pub open spec fn held(crates: Seq<KrateId>, id: nat) -> bool {
    exists|i: int| 0 <= i < crates.len() && (#[trigger] crates[i]).0 == id
}

/// A workspace: its root, and the crates it holds.
#[derive(Debug)]
pub struct Workspace {
    /// The directory of the workspace.
    pub root: String,
    /// The numbers of the crates of the workspace, each once.
    pub crates: Vec<KrateId>,
}

impl Workspace {
    /// Whether the workspace holds the crate of number `id`.
    pub open spec fn holds(&self, id: nat) -> bool {
        held(self.crates@, id)
    }

    /// Whether no crate of the workspace is held twice.
    pub open spec fn well_formed(&self) -> bool {
        forall|i: int, j: int|
            0 <= i < j < self.crates@.len() ==> (#[trigger] self.crates@[i]).0 != (
            #[trigger] self.crates@[j]).0
    }

    /// The empty workspace under `root`.
    pub fn new(root: String) -> (r: Self)
        ensures
            r.root@ == root@,
            r.crates@.len() == 0,
            r.well_formed(),
    {
        Workspace { root, crates: Vec::new() }
    }

    /// Whether no crate of the workspace is held twice.
    pub fn is_well_formed(&self) -> (r: bool)
        ensures
            r == self.well_formed(),
    {
        let mut j: usize = 0;
        while j < self.crates.len()
            invariant
                j <= self.crates.len(),
                forall|a: int, b: int|
                    0 <= a < b < j ==> (#[trigger] self.crates@[a]).0 != (
                    #[trigger] self.crates@[b]).0,
            decreases self.crates.len() - j,
        {
            let mut i: usize = 0;
            while i < j
                invariant
                    i <= j < self.crates.len(),
                    forall|a: int| 0 <= a < i ==> (#[trigger] self.crates@[a]).0 != self.crates@[j as int].0,
                decreases j - i,
            {
                if self.crates[i].0 == self.crates[j].0 {
                    return false;
                }
                i += 1;
            }
            j += 1;
        }
        true
    }

    /// Whether the workspace holds the crate `id`.
    pub fn contains(&self, id: KrateId) -> (r: bool)
        ensures
            r == self.holds(id.0 as nat),
    {
        let mut i: usize = 0;
        while i < self.crates.len()
            invariant
                i <= self.crates.len(),
                forall|j: int| 0 <= j < i ==> (#[trigger] self.crates@[j]).0 != id.0,
            decreases self.crates.len() - i,
        {
            if self.crates[i].0 == id.0 {
                return true;
            }
            i += 1;
        }
        false
    }

    /// The directory of the crate `krate_id`.
    pub fn crate_path(&self, krate_id: KrateId) -> (r: String)
        ensures
            r@ == joined(self.root@, krate_name(krate_id.0 as nat)),
    {
        join_path(self.root.as_str(), krate_id.name().as_str())
    }

    /// Adds a crate to the workspace, under the least number that no crate
    /// of the workspace has.
    pub fn add_crate(&mut self) -> (r: KrateId)
        requires
            old(self).well_formed(),
        ensures
            !old(self).holds(r.0 as nat),
            forall|n: nat| n < r.0 ==> old(self).holds(n),
            final(self).crates@ == old(self).crates@.push(r),
            final(self).root == old(self).root,
            final(self).well_formed(),
    {
        let mut id: usize = 0;
        while id < self.crates.len() && self.contains(KrateId(id))
            invariant
                id <= self.crates@.len(),
                forall|n: nat| n < id ==> self.holds(n),
            decreases self.crates@.len() - id,
        {
            id += 1;
        }
        proof {
            if id == self.crates@.len() {
                assert forall|m: nat| m < id implies #[trigger] held(self.crates@, m) by {
                    assert(self.holds(m));
                }
                lemma_numbers_below(self.crates@, id as nat);
            }
        }
        let krate_id = KrateId(id);
        self.crates.push(krate_id);
        krate_id
    }

    /// Takes a crate out of the workspace. Crates are kept for the life of
    /// the workspace: this changes nothing.
    pub fn remove_crate(&mut self, krate_id: KrateId)
        ensures
            *final(self) == *old(self),
    {
    }

    /// The manifest of the workspace, which names its crates as members.
    pub fn workspace_manifest(&self) -> (r: String)
        ensures
            r@ == workspace_manifest_text(self.crates@),
    {
        let mut r = String::from_str("\n[workspace]\nresolver = \"2\"\nmembers = [\n");
        let mut i: usize = 0;
        assert(self.crates@.take(0) =~= Seq::<KrateId>::empty());
        assert(r@ + member_lines(self.crates@.take(0)) =~= r@);
        while i < self.crates.len()
            invariant
                i <= self.crates.len(),
                r@ == "\n[workspace]\nresolver = \"2\"\nmembers = [\n"@ + member_lines(
                    self.crates@.take(i as int),
                ),
            decreases self.crates.len() - i,
        {
            proof {
                let longer = self.crates@.take(i + 1);
                assert(longer.drop_last() =~= self.crates@.take(i as int));
                assert(longer.last() == self.crates@[i as int]);
            }
            let ghost before = r@;
            r.append("    \"");
            r.append(self.crates[i].name().as_str());
            r.append("\",\n");
            assert(r@ =~= before + "    \""@ + krate_name(self.crates@[i as int].0 as nat)
                + "\",\n"@);
            assert(r@ =~= "\n[workspace]\nresolver = \"2\"\nmembers = [\n"@ + member_lines(
                self.crates@.take(i + 1),
            ));
            i += 1;
        }
        assert(self.crates@.take(self.crates@.len() as int) =~= self.crates@);
        r.append("]");
        r
    }
}

/// One line for each member, between the brackets of the list of members.
pub open spec fn member_lines(crates: Seq<KrateId>) -> Seq<char>
    decreases crates.len(),
{
    if crates.len() == 0 {
        Seq::empty()
    } else {
        member_lines(crates.drop_last()) + "    \""@ + krate_name(crates.last().0 as nat)
            + "\",\n"@
    }
}

/// The manifest of a workspace that holds `crates`.
pub open spec fn workspace_manifest_text(crates: Seq<KrateId>) -> Seq<char> {
    "\n[workspace]\nresolver = \"2\"\nmembers = [\n"@ + member_lines(crates) + "]"@
}

/// Among `n` crates with different numbers, which between them have every
/// number below `n`, every crate has a number below `n`.
pub proof fn lemma_numbers_below(crates: Seq<KrateId>, n: nat)
    requires
        crates.len() == n,
        forall|i: int, j: int|
            0 <= i < j < crates.len() ==> (#[trigger] crates[i]).0 != (#[trigger] crates[j]).0,
        forall|m: nat| m < n ==> #[trigger] held(crates, m),
    ensures
        forall|i: int| 0 <= i < crates.len() ==> (#[trigger] crates[i]).0 < n,
    decreases n,
{
    if n > 0 {
        // Without the crate of number `n - 1`, the rest has every number
        // below `n - 1`.
        let top = (n - 1) as nat;
        assert(held(crates, top));
        let at = choose|i: int| 0 <= i < crates.len() && (#[trigger] crates[i]).0 == top;
        let rest = crates.remove(at);
        assert forall|i: int, j: int| 0 <= i < j < rest.len() implies (#[trigger] rest[i]).0 != (
        #[trigger] rest[j]).0 by {
            let a = if i < at {
                i
            } else {
                i + 1
            };
            let b = if j < at {
                j
            } else {
                j + 1
            };
            assert(rest[i] == crates[a]);
            assert(rest[j] == crates[b]);
        }
        assert forall|m: nat| m < top implies #[trigger] held(rest, m) by {
            assert(held(crates, m));
            let i = choose|i: int| 0 <= i < crates.len() && (#[trigger] crates[i]).0 == m;
            assert(i != at);
            let j = if i < at {
                i
            } else {
                i - 1
            };
            assert(rest[j] == crates[i]);
        }
        lemma_numbers_below(rest, top);
        assert forall|i: int| 0 <= i < crates.len() implies (#[trigger] crates[i]).0 < n by {
            if i != at {
                let j = if i < at {
                    i
                } else {
                    i - 1
                };
                assert(rest[j] == crates[i]);
            }
        }
    }
}

} // verus!
