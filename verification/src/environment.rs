//! The environment: a mapping from names to values, kept in insertion order.
//!
//! A lookup reads the first entry of a name and a binding replaces it in
//! place, so an environment built by `insert` alone never holds a name twice.

use crate::ast::{bindings_view, names_view, Binding, BindingView, Expr, ExprView};
use crate::text::same_text;
use vstd::prelude::*;

verus! {

/// The model of an environment: its bindings in order.
pub type Bindings = Seq<BindingView>;

/// The first position at or after `i` that holds `name`, or the length.
pub open spec fn find_from(env: Bindings, name: Seq<char>, i: int) -> int
    decreases env.len() - i,
{
    if i < 0 || i >= env.len() {
        env.len() as int
    } else if env[i].name == name {
        i
    } else {
        find_from(env, name, i + 1)
    }
}

/// The first position that holds `name`, or the length.
pub open spec fn find(env: Bindings, name: Seq<char>) -> int {
    find_from(env, name, 0)
}

/// Whether `name` is bound.
pub open spec fn binds(env: Bindings, name: Seq<char>) -> bool {
    find(env, name) < env.len()
}

/// The value of `name`, if it is bound.
pub open spec fn lookup(env: Bindings, name: Seq<char>) -> Option<ExprView> {
    if binds(env, name) {
        Some(env[find(env, name)].value)
    } else {
        None
    }
}

/// The environment after binding `name` to `value`: the entry of `name` is
/// replaced where it stands, or a new entry comes last.
pub open spec fn bind(env: Bindings, name: Seq<char>, value: ExprView) -> Bindings {
    if binds(env, name) {
        env.update(find(env, name), BindingView { name, value })
    } else {
        env.push(BindingView { name, value })
    }
}

/// The names of the bindings, in order.
pub open spec fn names(env: Bindings) -> Seq<Seq<char>> {
    Seq::new(env.len(), |i: int| env[i].name)
}

/// The first `n` bindings without those whose name is not in `keep`.
pub open spec fn kept(env: Bindings, keep: Seq<Seq<char>>, n: int) -> Bindings
    decreases n,
{
    if n <= 0 || n > env.len() {
        Seq::empty()
    } else if keep.contains(env[n - 1].name) {
        kept(env, keep, n - 1).push(env[n - 1])
    } else {
        kept(env, keep, n - 1)
    }
}

/// The environment without the bindings whose name is not in `keep`.
pub open spec fn prune(env: Bindings, keep: Seq<Seq<char>>) -> Bindings {
    kept(env, keep, env.len() as int)
}

/// The first `n` bindings without those whose name is bound in `base`.
pub open spec fn added(env: Bindings, base: Bindings, n: int) -> Bindings
    decreases n,
{
    if n <= 0 || n > env.len() {
        Seq::empty()
    } else if binds(base, env[n - 1].name) {
        added(env, base, n - 1)
    } else {
        added(env, base, n - 1).push(env[n - 1])
    }
}

/// The bindings of `env` whose name `base` does not bind.
pub open spec fn beyond(env: Bindings, base: Bindings) -> Bindings {
    added(env, base, env.len() as int)
}

/// `env` after binding the first `n` entries of `extra`, in order.
pub open spec fn merged(env: Bindings, extra: Bindings, n: int) -> Bindings
    decreases n,
{
    if n <= 0 || n > extra.len() {
        env
    } else {
        bind(merged(env, extra, n - 1), extra[n - 1].name, extra[n - 1].value)
    }
}

/// `env` after binding every entry of `extra`, in order.
pub open spec fn merge(env: Bindings, extra: Bindings) -> Bindings {
    merged(env, extra, extra.len() as int)
}

/// No name is bound twice.
pub open spec fn unique(env: Bindings) -> bool {
    forall|i: int, j: int| 0 <= i < j < env.len() ==> env[i].name != env[j].name
}

/// Whether `list` holds `name`.
pub fn names_contain(list: &Vec<String>, name: &str) -> (r: bool)
    ensures
        r == names_view(list@).contains(name@),
{
    let mut i: usize = 0;
    while i < list.len()
        invariant
            i <= list.len(),
            forall|j: int| 0 <= j < i ==> names_view(list@)[j] != name@,
        decreases list.len() - i,
    {
        if same_text(list[i].as_str(), name) {
            assert(names_view(list@)[i as int] == name@);
            return true;
        }
        i += 1;
    }
    false
}

/// A mapping from names to values.
#[derive(Debug)]
pub struct Environment {
    pub entries: Vec<Binding>,
}

impl View for Environment {
    type V = Bindings;

    open spec fn view(&self) -> Bindings {
        bindings_view(self.entries@)
    }
}

impl Environment {
    /// The empty environment.
    pub fn new() -> (r: Environment)
        ensures
            r@ == Seq::<BindingView>::empty(),
            r.wf(),
    {
        let r = Environment { entries: Vec::new() };
        assert(r@ =~= Seq::<BindingView>::empty());
        r
    }

    /// No name is bound twice.
    pub open spec fn wf(&self) -> bool {
        unique(self@)
    }

    /// The number of bindings.
    pub fn len(&self) -> (r: usize)
        ensures
            r == self@.len(),
    {
        self.entries.len()
    }

    /// The position of the first binding of `name`, or the length.
    pub fn position(&self, name: &str) -> (r: usize)
        ensures
            r == find(self@, name@),
            r <= self@.len(),
            r < self@.len() ==> self@[r as int].name == name@,
    {
        let mut i: usize = 0;
        while i < self.entries.len()
            invariant
                i <= self.entries.len(),
                find(self@, name@) == find_from(self@, name@, i as int),
            decreases self.entries.len() - i,
        {
            if same_text(self.entries[i].name.as_str(), name) {
                return i;
            }
            i += 1;
        }
        i
    }

    /// Whether `name` is bound.
    pub fn contains_key(&self, name: &str) -> (r: bool)
        ensures
            r == binds(self@, name@),
    {
        self.position(name) < self.entries.len()
    }

    /// A copy of the value of `name`, if it is bound.
    pub fn get(&self, name: &str) -> (r: Option<Expr>)
        ensures
            match r {
                Some(v) => lookup(self@, name@) == Some(v@),
                None => lookup(self@, name@) is None,
            },
    {
        let i = self.position(name);
        if i < self.entries.len() {
            Some(self.entries[i].value.copy())
        } else {
            None
        }
    }

    /// Binds `name` to `value`, replacing an earlier binding of the name.
    pub fn insert(&mut self, name: String, value: Expr)
        ensures
            final(self)@ == bind(old(self)@, name@, value@),
            old(self).wf() ==> final(self).wf(),
    {
        proof {
            if self.wf() {
                bind_keeps_unique(self@, name@, value@);
            }
        }
        let i = self.position(name.as_str());
        let ghost before = self@;
        let ghost b = (BindingView { name: name@, value: value@ });
        if i < self.entries.len() {
            let _ = self.entries.remove(i);
            self.entries.insert(i, Binding { name, value });
            assert(self@ =~= before.update(i as int, b));
        } else {
            self.entries.push(Binding { name, value });
            assert(self@ =~= before.push(b));
        }
    }

    /// The bound names, in order.
    pub fn keys(&self) -> (r: Vec<String>)
        ensures
            names_view(r@) == names(self@),
    {
        let mut out: Vec<String> = Vec::new();
        let mut i: usize = 0;
        while i < self.entries.len()
            invariant
                i <= self.entries.len(),
                out@.len() == i,
                forall|j: int| 0 <= j < i ==> (#[trigger] out@[j])@ == self@[j].name,
            decreases self.entries.len() - i,
        {
            out.push(self.entries[i].name.clone());
            i += 1;
        }
        assert(names_view(out@) =~= names(self@));
        out
    }

    /// Removes every binding whose name is not in `keep`.
    pub fn prune(&mut self, keep: &Vec<String>)
        ensures
            final(self)@ == prune(old(self)@, names_view(keep@)),
            old(self).wf() ==> final(self).wf(),
    {
        proof {
            if self.wf() {
                prune_keeps_unique(self@, names_view(keep@));
            }
        }
        let mut out: Vec<Binding> = Vec::new();
        let mut i: usize = 0;
        assert(bindings_view(out@) =~= Seq::<BindingView>::empty());
        while i < self.entries.len()
            invariant
                i <= self.entries.len(),
                self@ == old(self)@,
                bindings_view(out@) == kept(self@, names_view(keep@), i as int),
            decreases self.entries.len() - i,
        {
            let ghost before = bindings_view(out@);
            if names_contain(keep, self.entries[i].name.as_str()) {
                out.push(self.entries[i].copy());
                assert(bindings_view(out@) =~= before.push(self@[i as int]));
            }
            i += 1;
        }
        self.entries = out;
    }

    /// The bindings whose name `base` does not bind.
    pub fn without(&self, base: &Environment) -> (r: Environment)
        ensures
            r@ == beyond(self@, base@),
            self.wf() ==> r.wf(),
    {
        proof {
            if self.wf() {
                added_is_unique(self@, base@, self@.len() as int);
            }
        }
        let mut out: Vec<Binding> = Vec::new();
        let mut i: usize = 0;
        assert(bindings_view(out@) =~= Seq::<BindingView>::empty());
        while i < self.entries.len()
            invariant
                i <= self.entries.len(),
                bindings_view(out@) == added(self@, base@, i as int),
            decreases self.entries.len() - i,
        {
            let ghost before = bindings_view(out@);
            if !base.contains_key(self.entries[i].name.as_str()) {
                out.push(self.entries[i].copy());
                assert(bindings_view(out@) =~= before.push(self@[i as int]));
            }
            i += 1;
        }
        Environment { entries: out }
    }

    /// Binds every entry of `extra`, in order.
    pub fn extend(&mut self, extra: &Vec<Binding>)
        ensures
            final(self)@ == merge(old(self)@, bindings_view(extra@)),
            old(self).wf() ==> final(self).wf(),
    {
        proof {
            if self.wf() {
                merged_is_unique(self@, bindings_view(extra@), extra@.len() as int);
            }
        }
        let mut i: usize = 0;
        while i < extra.len()
            invariant
                i <= extra.len(),
                self@ == merged(old(self)@, bindings_view(extra@), i as int),
            decreases extra.len() - i,
        {
            self.insert(extra[i].name.clone(), extra[i].value.copy());
            i += 1;
        }
    }

    /// A deep copy.
    pub fn copy(&self) -> (r: Environment)
        ensures
            r@ == self@,
    {
        Environment { entries: crate::ast::copy_bindings(&self.entries) }
    }
}

impl Clone for Environment {
    fn clone(&self) -> (r: Self)
        ensures
            r@ == self@,
    {
        self.copy()
    }
}

/// What stays of the first `n` bindings holds each name at most once, and
/// only names of those bindings.
pub proof fn kept_is_unique(env: Bindings, keep: Seq<Seq<char>>, n: int)
    requires
        unique(env),
        0 <= n <= env.len(),
    ensures
        unique(kept(env, keep, n)),
        forall|j: int|
            0 <= j < kept(env, keep, n).len() ==> exists|i: int|
                0 <= i < n && env[i].name == #[trigger] kept(env, keep, n)[j].name,
    decreases n,
{
    if n > 0 {
        kept_is_unique(env, keep, n - 1);
        let before = kept(env, keep, n - 1);
        let after = kept(env, keep, n);
        if keep.contains(env[n - 1].name) {
            assert forall|a: int, b: int| 0 <= a < b < after.len() implies after[a].name
                != after[b].name by {
                if b == before.len() {
                    let i = choose|i: int| 0 <= i < n - 1 && env[i].name == before[a].name;
                    assert(env[i].name != env[n - 1].name);
                }
            }
            assert forall|j: int| 0 <= j < after.len() implies exists|i: int|
                0 <= i < n && env[i].name == #[trigger] after[j].name by {
                if j == before.len() {
                    assert(env[n - 1].name == after[j].name);
                } else {
                    let i = choose|i: int| 0 <= i < n - 1 && env[i].name == before[j].name;
                    assert(env[i].name == after[j].name);
                }
            }
        } else {
            assert forall|j: int| 0 <= j < after.len() implies exists|i: int|
                0 <= i < n && env[i].name == #[trigger] after[j].name by {
                let i = choose|i: int| 0 <= i < n - 1 && env[i].name == before[j].name;
                assert(env[i].name == after[j].name);
            }
        }
    }
}

/// Pruning keeps every name at most once.
pub proof fn prune_keeps_unique(env: Bindings, keep: Seq<Seq<char>>)
    requires
        unique(env),
    ensures
        unique(prune(env, keep)),
{
    kept_is_unique(env, keep, env.len() as int);
}

/// What the first `n` bindings add to `base` holds each name at most once,
/// and only names of those bindings.
pub proof fn added_is_unique(env: Bindings, base: Bindings, n: int)
    requires
        unique(env),
        0 <= n <= env.len(),
    ensures
        unique(added(env, base, n)),
        forall|j: int|
            0 <= j < added(env, base, n).len() ==> exists|i: int|
                0 <= i < n && env[i].name == #[trigger] added(env, base, n)[j].name,
    decreases n,
{
    if n > 0 {
        added_is_unique(env, base, n - 1);
        let before = added(env, base, n - 1);
        let after = added(env, base, n);
        if !binds(base, env[n - 1].name) {
            assert forall|a: int, b: int| 0 <= a < b < after.len() implies after[a].name
                != after[b].name by {
                if b == before.len() {
                    let i = choose|i: int| 0 <= i < n - 1 && env[i].name == before[a].name;
                    assert(env[i].name != env[n - 1].name);
                }
            }
            assert forall|j: int| 0 <= j < after.len() implies exists|i: int|
                0 <= i < n && env[i].name == #[trigger] after[j].name by {
                if j == before.len() {
                    assert(env[n - 1].name == after[j].name);
                } else {
                    let i = choose|i: int| 0 <= i < n - 1 && env[i].name == before[j].name;
                    assert(env[i].name == after[j].name);
                }
            }
        } else {
            assert forall|j: int| 0 <= j < after.len() implies exists|i: int|
                0 <= i < n && env[i].name == #[trigger] after[j].name by {
                let i = choose|i: int| 0 <= i < n - 1 && env[i].name == before[j].name;
                assert(env[i].name == after[j].name);
            }
        }
    }
}

/// Merging keeps every name at most once.
pub proof fn merged_is_unique(env: Bindings, extra: Bindings, n: int)
    requires
        unique(env),
        0 <= n <= extra.len(),
    ensures
        unique(merged(env, extra, n)),
    decreases n,
{
    if n > 0 {
        merged_is_unique(env, extra, n - 1);
        bind_keeps_unique(merged(env, extra, n - 1), extra[n - 1].name, extra[n - 1].value);
    }
}

/// A binding never makes a second entry for a name.
pub proof fn bind_keeps_unique(env: Bindings, name: Seq<char>, value: ExprView)
    requires
        unique(env),
    ensures
        unique(bind(env, name, value)),
{
    find_is_first(env, name, 0);
    let after = bind(env, name, value);
    if binds(env, name) {
        assert forall|i: int, j: int| 0 <= i < j < after.len() implies after[i].name
            != after[j].name by {
            assert(after[i].name == env[i].name);
            assert(after[j].name == env[j].name);
        }
    } else {
        assert forall|i: int, j: int| 0 <= i < j < after.len() implies after[i].name
            != after[j].name by {
            if j == env.len() {
                assert(env[i].name != name);
            }
        }
    }
}

/// What `find_from` returns is the first position from `i` on with the name.
pub proof fn find_is_first(env: Bindings, name: Seq<char>, i: int)
    requires
        0 <= i <= env.len(),
    ensures
        i <= find_from(env, name, i) <= env.len(),
        find_from(env, name, i) < env.len() ==> env[find_from(env, name, i)].name == name,
        forall|k: int| i <= k < find_from(env, name, i) ==> env[k].name != name,
    decreases env.len() - i,
{
    if i < env.len() && env[i].name != name {
        find_is_first(env, name, i + 1);
    }
}

/// After a binding the name has the new value, and every other name has
/// the value it had.
pub proof fn bind_then_lookup(env: Bindings, name: Seq<char>, value: ExprView, other: Seq<char>)
    ensures
        lookup(bind(env, name, value), name) == Some(value),
        other != name ==> lookup(bind(env, name, value), other) == lookup(env, other),
{
    let after = bind(env, name, value);
    find_is_first(env, name, 0);
    find_is_first(after, name, 0);
    find_is_first(env, other, 0);
    find_is_first(after, other, 0);
    if binds(env, name) {
        let k = find(env, name);
        assert(after[k].name == name);
        assert forall|j: int| 0 <= j < after.len() implies after[j].name == env[j].name by {}
        if other != name {
            let a = find(env, other);
            let b = find(after, other);
            if a < env.len() {
                assert(after[a].name == other);
            }
            if b < after.len() {
                assert(env[b].name == other);
            }
        }
    } else {
        assert(after[env.len() as int].name == name);
        assert forall|j: int| 0 <= j < env.len() implies after[j] == env[j] by {}
        if other != name {
            let a = find(env, other);
            let b = find(after, other);
            if a < env.len() {
                assert(after[a].name == other);
            }
            if b < after.len() {
                assert(b < env.len());
                assert(env[b].name == other);
            }
        }
    }
}

} // verus!
