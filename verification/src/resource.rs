//! Name-keyed resource stores.
//!
//! Every cached GPU object — model data, shader program, pipeline,
//! bind-group layout — is addressed by a name derived from its entity kind.
//! A cache is create-once, fetch-many: re-registering a name replaces what a
//! later lookup sees (an explicit hot-reload behaviour), while values already
//! fetched stay alive through shared ownership.

use std::rc::Rc;
use vstd::prelude::*;

verus! {

/// The name-to-value map a sequence of registrations denotes: later
/// registrations of a name win.
pub open spec fn registrations_as_map<V>(s: Seq<(String, V)>) -> Map<Seq<char>, V>
    decreases s.len(),
{
    if s.len() == 0 {
        Map::empty()
    } else {
        registrations_as_map(s.drop_last()).insert(s.last().0@, s.last().1)
    }
}

/// A name-keyed store with create-once, fetch-many semantics.
///
/// Viewed as the map from each registered name to the value most recently
/// registered under it.
pub struct ResourceCache<V> {
    entries: Vec<(String, V)>,
}

impl<V> View for ResourceCache<V> {
    type V = Map<Seq<char>, V>;

    closed spec fn view(&self) -> Map<Seq<char>, V> {
        registrations_as_map(self.entries@)
    }
}

proof fn lemma_as_map_skip_suffix<V>(s: Seq<(String, V)>, i: int, k: Seq<char>)
    requires
        0 <= i <= s.len(),
        forall|j: int| i <= j < s.len() ==> (#[trigger] s[j]).0@ != k,
    ensures
        registrations_as_map(s).contains_key(k) == registrations_as_map(s.take(i)).contains_key(k),
        registrations_as_map(s).contains_key(k) ==> registrations_as_map(s)[k]
            == registrations_as_map(s.take(i))[k],
    decreases s.len() - i,
{
    if i == s.len() {
        assert(s.take(i) =~= s);
    } else {
        lemma_as_map_skip_suffix(s, i + 1, k);
        assert(s.take(i + 1).drop_last() =~= s.take(i));
        assert(s.take(i + 1).last() == s[i]);
    }
}

impl<V> ResourceCache<V> {
    pub fn new() -> (c: ResourceCache<V>)
        ensures
            c@ == Map::<Seq<char>, V>::empty(),
    {
        let c = ResourceCache { entries: Vec::new() };
        proof {
            assert(c@ =~= Map::<Seq<char>, V>::empty());
        }
        c
    }

    /// Registers a value under a name; a later lookup of that name sees this
    /// value in place of any earlier one.
    pub fn insert(&mut self, name: String, value: V)
        ensures
            final(self)@ == old(self)@.insert(name@, value),
    {
        let ghost prior = self.entries@;
        let ghost key = name@;
        self.entries.push((name, value));
        proof {
            assert(self.entries@.drop_last() =~= prior);
            assert(final(self)@ =~= old(self)@.insert(key, value));
        }
    }

    /// Looks a name up, returning the value most recently registered there.
    pub fn get(&self, name: &str) -> (r: Option<&V>)
        ensures
            match r {
                Some(v) => self@.contains_key(name@) && *v == self@[name@],
                None => !self@.contains_key(name@),
            },
    {
        let key = String::from_str(name);
        let mut i: usize = self.entries.len();
        while i > 0
            invariant
                i <= self.entries@.len(),
                key@ == name@,
                forall|j: int| i <= j < self.entries@.len() ==> (#[trigger] self.entries@[j]).0@
                    != name@,
            decreases i,
        {
            i = i - 1;
            if self.entries[i].0 == key {
                proof {
                    lemma_as_map_skip_suffix(self.entries@, i + 1, name@);
                    assert(self.entries@.take(i + 1).drop_last() =~= self.entries@.take(i as int));
                    assert(self.entries@.take(i + 1).last() == self.entries@[i as int]);
                }
                return Some(&self.entries[i].1);
            }
        }
        proof {
            lemma_as_map_skip_suffix(self.entries@, 0, name@);
            assert(self.entries@.take(0) =~= Seq::<(String, V)>::empty());
        }
        None
    }

    /// Whether any value is registered under the name.
    pub fn contains(&self, name: &str) -> (r: bool)
        ensures
            r == self@.contains_key(name@),
    {
        self.get(name).is_some()
    }
}

/// Fetching a name twice from an unchanged cache yields the same value, and
/// registering a name then fetching it yields exactly the registered value:
/// a second lookup never creates or sees a second resource.
pub proof fn lemma_cache_idempotent<V>(c: ResourceCache<V>, prior: ResourceCache<V>, name: Seq<char>, value: V)
    requires
        c@ == prior@.insert(name, value),
    ensures
        c@.contains_key(name),
        c@[name] == value,
        forall|other: Seq<char>|
            other != name ==> #[trigger] c@.contains_key(other) == prior@.contains_key(other),
        forall|other: Seq<char>|
            other != name && c@.contains_key(other) ==> #[trigger] c@[other] == prior@[other],
{
}

/// A resource kind the manager hands out by name with shared ownership.
///
/// `fetch` requires the name to be registered: a missing named resource is a
/// caller error, not a runtime condition, so the precondition excludes it.
/// `fetch_default` hands out the well-known fallback registered under the
/// name "default".
pub trait ManagerResource: Sized {
    /// A resource of this kind is registered under `name`.
    spec fn spec_available(rm: crate::manager::RenderManager, name: Seq<char>) -> bool;

    /// The resource registered under `name`.
    spec fn spec_fetched(rm: crate::manager::RenderManager, name: Seq<char>) -> Rc<Self>;

    fn fetch(name: &str, rm: &crate::manager::RenderManager) -> (r: Rc<Self>)
        requires
            Self::spec_available(*rm, name@),
        ensures
            r == Self::spec_fetched(*rm, name@),
    ;

    fn fetch_default(rm: &crate::manager::RenderManager) -> (r: Rc<Self>)
        requires
            Self::spec_available(*rm, "default"@),
        ensures
            r == Self::spec_fetched(*rm, "default"@),
    ;
}

impl ManagerResource for crate::model::ModelData {
    open spec fn spec_available(rm: crate::manager::RenderManager, name: Seq<char>) -> bool {
        rm.models().contains_key(name)
    }

    open spec fn spec_fetched(rm: crate::manager::RenderManager, name: Seq<char>) -> Rc<Self> {
        rm.models()[name]
    }

    fn fetch(name: &str, rm: &crate::manager::RenderManager) -> (r: Rc<Self>) {
        match rm.get_model(name) {
            Some(m) => m.clone(),
            None => vstd::pervasive::unreached(),
        }
    }

    fn fetch_default(rm: &crate::manager::RenderManager) -> (r: Rc<Self>) {
        match rm.get_model("default") {
            Some(m) => m.clone(),
            None => vstd::pervasive::unreached(),
        }
    }
}

impl ManagerResource for crate::shader::ShaderProgram {
    open spec fn spec_available(rm: crate::manager::RenderManager, name: Seq<char>) -> bool {
        rm.shaders().contains_key(name)
    }

    open spec fn spec_fetched(rm: crate::manager::RenderManager, name: Seq<char>) -> Rc<Self> {
        rm.shaders()[name]
    }

    fn fetch(name: &str, rm: &crate::manager::RenderManager) -> (r: Rc<Self>) {
        match rm.get_shader(name) {
            Some(p) => p.clone(),
            None => vstd::pervasive::unreached(),
        }
    }

    fn fetch_default(rm: &crate::manager::RenderManager) -> (r: Rc<Self>) {
        match rm.get_shader("default") {
            Some(p) => p.clone(),
            None => vstd::pervasive::unreached(),
        }
    }
}

} // verus!
