use vstd::prelude::*;
use vstd::string::StringExecFns;
use super::naming::{NameRegistry, suffixed, suffixed_name};
use super::name_order::sorted_names;

verus! {

/// `name` is the name an entry added under `base` gets in a registry with the
/// names `taken`: `base` itself when it is free, otherwise `base_i` for the smallest
/// `i` such that `base_i` is free.
pub open spec fn chosen_name(taken: Set<Seq<char>>, base: Seq<char>, name: Seq<char>) -> bool {
    if !taken.contains(base) {
        name == base
    } else {
        exists|i: nat|
            name == suffixed(base, i) && !taken.contains(name) && forall|j: nat|
                j < i ==> #[trigger] taken.contains(suffixed(base, j))
    }
}

/// Adds `value` under the name that `chosen_name` gives for `base` and returns it.
fn add_unique<V>(reg: &mut NameRegistry<V>, base: &str, value: V) -> (name: String)
    requires
        old(reg).wf(),
        old(reg).view().dom().len() < usize::MAX,
    ensures
        final(reg).wf(),
        chosen_name(old(reg).view().dom(), base@, name@),
        !old(reg).view().contains_key(name@),
        final(reg).view() == old(reg).view().insert(name@, value),
        exists|p: int|
            0 <= p <= old(reg).names().len() && final(reg).names() == old(reg).names().insert(
                p,
                name@,
            ),
        final(reg).view().dom().finite(),
{
    proof {
        reg.lemma_view();
    }
    let added = if reg.contains(base) {
        let i = reg.free_suffix(base, 0);
        let name = suffixed_name(base, i);
        let ret = name.clone();
        reg.insert_new(name, value);
        assert(ret@ == suffixed(base@, i as nat));
        ret
    } else {
        let name = String::from_str(base);
        let ret = name.clone();
        reg.insert_new(name, value);
        ret
    };
    proof {
        reg.lemma_view();
    }
    added
}

/// Handles all available materials by name. There is always a material named
/// `fallback`, which is handed out for names that are not present.
pub struct MaterialManager<M> {
    material_vault: NameRegistry<M>,
}

/// The name of the fallback material.
pub open spec fn fallback_name() -> Seq<char> {
    "fallback"@
}

impl<M> MaterialManager<M> {
    /// The invariant of the manager.
    pub closed spec fn wf(self) -> bool {
        &&& self.material_vault.wf()
        &&& self.material_vault.view().contains_key(fallback_name())
    }

    /// The materials by name.
    pub closed spec fn view(self) -> Map<Seq<char>, M> {
        self.material_vault.view()
    }

    /// The names of the materials, in increasing order.
    pub closed spec fn names(self) -> Seq<Seq<char>> {
        self.material_vault.names()
    }

    /// The material handed out for `name`: the one stored under it, else the fallback.
    pub open spec fn lookup(self, name: Seq<char>) -> M {
        if self.view().contains_key(name) {
            self.view()[name]
        } else {
            self.view()[fallback_name()]
        }
    }

    /// A manager that holds only `fallback`.
    pub fn new(fallback: M) -> (m: Self)
        ensures
            m.wf(),
            m.view() == Map::<Seq<char>, M>::empty().insert(fallback_name(), fallback),
            m.view().dom().finite(),
    {
        let mut vault = NameRegistry::new();
        vault.insert_new(String::from_str("fallback"), fallback);
        MaterialManager { material_vault: vault }
    }


    /// Returns the default material of the engine.
    pub fn get_default_material(&self) -> (m: &M)
        requires
            self.wf(),
        ensures
            *m == self.view()[fallback_name()],
    {
        let pos = self.material_vault.position("fallback");
        proof {
            self.material_vault.lemma_view();
        }
        let i = match pos {
            Some(i) => i,
            None => {
                proof {
                    assert(false);
                }
                0
            },
        };
        self.material_vault.get_at(i)
    }

    /// Returns the material with this name, if there is one.
    pub fn get_material_by_name(&self, name: &str) -> (m: Option<&M>)
        requires
            self.wf(),
        ensures
            match m {
                Some(v) => self.view().contains_key(name@) && *v == self.view()[name@],
                None => !self.view().contains_key(name@),
            },
    {
        self.material_vault.get(name)
    }

    /// Returns the material with this name, or the fallback material if there is none.
    pub fn get_material(&self, name: &str) -> (m: &M)
        requires
            self.wf(),
        ensures
            *m == self.lookup(name@),
    {
        match self.material_vault.get(name) {
            Some(m) => m,
            None => self.get_default_material(),
        }
    }

    /// Adds a material under `name`, or under `name_i` for the smallest free `i` when
    /// `name` is taken, and returns the name it was added under.
    pub fn add_material(&mut self, name: &str, material: M) -> (added: String)
        requires
            old(self).wf(),
            old(self).view().dom().len() < usize::MAX,
        ensures
            final(self).wf(),
            chosen_name(old(self).view().dom(), name@, added@),
            !old(self).view().contains_key(added@),
            final(self).view() == old(self).view().insert(added@, material),
            final(self).view().dom().finite(),
    {
        add_unique(&mut self.material_vault, name, material)
    }

    /// Updates every material with `f`, keeping the names.
    pub fn update<F: Fn(M) -> M>(&mut self, f: F)
        requires
            old(self).wf(),
            forall|m: M| call_requires(f, (m,)),
        ensures
            final(self).wf(),
            final(self).names() == old(self).names(),
            final(self).view().dom() == old(self).view().dom(),
            forall|k: Seq<char>|
                #[trigger] old(self).view().contains_key(k) ==> call_ensures(
                    f,
                    (old(self).view()[k],),
                    final(self).view()[k],
                ),
    {
        proof {
            self.material_vault.lemma_view();
        }
        self.material_vault.map_values(f);
        proof {
            self.material_vault.lemma_view();
            let before = old(self).material_vault;
            let after = self.material_vault;
            assert(after.view().dom() =~= before.view().dom());
            assert forall|k: Seq<char>| #[trigger] before.view().contains_key(k) implies call_ensures(
                f,
                (before.view()[k],),
                after.view()[k],
            ) by {
                let i = before.names().index_of(k);
                assert(before.names()[i] == k);
                assert(after.names()[i] == k);
            }
        }
    }

    /// Checks whether a material with this name exists.
    pub fn is_available(&self, name: &str) -> (r: bool)
        requires
            self.wf(),
        ensures
            r == self.view().contains_key(name@),
    {
        self.material_vault.contains(name)
    }

    /// The number of materials.
    pub fn len(&self) -> (n: usize)
        requires
            self.wf(),
        ensures
            n == self.names().len(),
    {
        self.material_vault.len()
    }

    /// The name and material at position `i` in the order of the names.
    pub fn entry_at(&self, i: usize) -> (r: (&String, &M))
        requires
            self.wf(),
            i < self.names().len(),
        ensures
            r.0@ == self.names()[i as int],
            *r.1 == self.view()[self.names()[i as int]],
            sorted_names(self.names()),
    {
        proof {
            self.material_vault.lemma_view();
            self.material_vault.lemma_sorted();
        }
        (self.material_vault.name_at(i), self.material_vault.get_at(i))
    }
}

/// Holds all meshes by name.
pub struct MeshManager<M> {
    meshes: NameRegistry<M>,
}

impl<M> MeshManager<M> {
    /// The invariant of the manager.
    pub closed spec fn wf(self) -> bool {
        self.meshes.wf()
    }

    /// The meshes by name.
    pub closed spec fn view(self) -> Map<Seq<char>, M> {
        self.meshes.view()
    }

    pub fn new() -> (m: Self)
        ensures
            m.wf(),
            m.view() == Map::<Seq<char>, M>::empty(),
            m.view().dom().finite(),
    {
        MeshManager { meshes: NameRegistry::new() }
    }


    /// Returns `name_i` for the smallest `i` such that no mesh has that name.
    pub fn get_unique_name(&self, name: &str) -> (unique: String)
        requires
            self.wf(),
            self.view().dom().len() < usize::MAX,
        ensures
            !self.view().contains_key(unique@),
            exists|i: nat|
                unique@ == suffixed(name@, i) && forall|j: nat|
                    j < i ==> #[trigger] self.view().contains_key(suffixed(name@, j)),
    {
        proof {
            self.meshes.lemma_view();
        }
        let i = self.meshes.free_suffix(name, 0);
        let unique = suffixed_name(name, i);
        assert(unique@ == suffixed(name@, i as nat));
        unique
    }

    /// Adds a mesh under `name`, or under a unique `name_i` if `name` is taken, and
    /// returns the name it was stored under (the mesh takes that name).
    pub fn add_mesh(&mut self, name: &str, mesh: M) -> (added: String)
        requires
            old(self).wf(),
            old(self).view().dom().len() < usize::MAX,
        ensures
            final(self).wf(),
            chosen_name(old(self).view().dom(), name@, added@),
            !old(self).view().contains_key(added@),
            final(self).view() == old(self).view().insert(added@, mesh),
            final(self).view().dom().finite(),
    {
        add_unique(&mut self.meshes, name, mesh)
    }

    /// Returns the mesh with this name, if there is one.
    pub fn get_mesh(&self, name: &str) -> (m: Option<&M>)
        requires
            self.wf(),
        ensures
            match m {
                Some(v) => self.view().contains_key(name@) && *v == self.view()[name@],
                None => !self.view().contains_key(name@),
            },
    {
        self.meshes.get(name)
    }
}

/// Holds all available scenes by name.
pub struct SceneManager<S> {
    scenes: NameRegistry<S>,
}

impl<S> SceneManager<S> {
    /// The invariant of the manager.
    pub closed spec fn wf(self) -> bool {
        self.scenes.wf()
    }

    /// The scenes by name.
    pub closed spec fn view(self) -> Map<Seq<char>, S> {
        self.scenes.view()
    }

    /// The names of the scenes, in increasing order.
    pub closed spec fn names(self) -> Seq<Seq<char>> {
        self.scenes.names()
    }

    pub fn new() -> (m: Self)
        ensures
            m.wf(),
            m.view() == Map::<Seq<char>, S>::empty(),
            m.view().dom().finite(),
    {
        SceneManager { scenes: NameRegistry::new() }
    }


    /// Adds a scene under `name`, or under a unique `name_i` if `name` is taken, and
    /// returns the name it was stored under (the scene takes that name).
    pub fn add_scene(&mut self, name: &str, scene: S) -> (added: String)
        requires
            old(self).wf(),
            old(self).view().dom().len() < usize::MAX,
        ensures
            final(self).wf(),
            chosen_name(old(self).view().dom(), name@, added@),
            !old(self).view().contains_key(added@),
            final(self).view() == old(self).view().insert(added@, scene),
            final(self).view().dom().finite(),
    {
        add_unique(&mut self.scenes, name, scene)
    }

    /// Returns the scene with this name, if there is one.
    pub fn get_scene(&self, name: &str) -> (s: Option<&S>)
        requires
            self.wf(),
        ensures
            match s {
                Some(v) => self.view().contains_key(name@) && *v == self.view()[name@],
                None => !self.view().contains_key(name@),
            },
    {
        self.scenes.get(name)
    }

    /// Returns all scenes, in the order of their names.
    pub fn get_scenes_copy(&self) -> (all: Vec<&S>)
        requires
            self.wf(),
        ensures
            all@.len() == self.names().len(),
            forall|i: int| 0 <= i < all@.len() ==> *all@[i] == self.view()[self.names()[i]],
            sorted_names(self.names()),
            forall|k: Seq<char>| #[trigger] self.view().contains_key(k) <==> self.names().contains(k),
    {
        proof {
            self.scenes.lemma_view();
            self.scenes.lemma_sorted();
        }
        let mut all: Vec<&S> = Vec::new();
        let n = self.scenes.len();
        for i in 0..n
            invariant
                n == self.names().len(),
                all@.len() == i,
                forall|j: int| 0 <= j < i ==> *all@[j] == self.scenes.value_at(j),
        {
            all.push(self.scenes.get_at(i));
        }
        all
    }

    /// Returns true if a scene with this name exists.
    pub fn has_scene(&self, name: &str) -> (r: bool)
        requires
            self.wf(),
        ensures
            r == self.view().contains_key(name@),
    {
        self.scenes.contains(name)
    }
}


/// The name an addition picks depends only on the names present and the name asked
/// for: two additions of `base` to managers holding the names `taken` pick the same
/// name.
pub proof fn law_chosen_name_is_unique(taken: Set<Seq<char>>, base: Seq<char>, a: Seq<char>, b: Seq<char>)
    requires
        chosen_name(taken, base, a),
        chosen_name(taken, base, b),
    ensures
        a == b,
{
    if taken.contains(base) {
        let i = choose|i: nat|
            a == suffixed(base, i) && !taken.contains(a) && forall|j: nat|
                j < i ==> #[trigger] taken.contains(suffixed(base, j));
        let k = choose|k: nat|
            b == suffixed(base, k) && !taken.contains(b) && forall|j: nat|
                j < k ==> #[trigger] taken.contains(suffixed(base, j));
        if i < k {
            assert(taken.contains(suffixed(base, i)));
        } else if k < i {
            assert(taken.contains(suffixed(base, k)));
        }
    }
}

/// After a material is added, the manager hands it out for the name the addition
/// returned, hands out what it handed out before for every other name, and holds
/// one material more.
pub proof fn law_added_material_is_handed_out<M>(
    before: MaterialManager<M>,
    after: MaterialManager<M>,
    added: Seq<char>,
    material: M,
    name: Seq<char>,
)
    requires
        before.wf(),
        !before.view().contains_key(added),
        after.view() == before.view().insert(added, material),
    ensures
        after.lookup(added) == material,
        name != added ==> after.lookup(name) == before.lookup(name),
        after.view().dom().len() == before.view().dom().len() + 1,
{
    before.material_vault.lemma_view();
    assert(before.view().contains_key(fallback_name()));
}

/// A material manager always holds the fallback material: `new` stores it, every
/// other method keeps the invariant `wf`, and `wf` holds only with `fallback`
/// present, so `get_material` always has a material to hand out.
pub proof fn law_fallback_is_present<M>(m: MaterialManager<M>)
    requires
        m.wf(),
    ensures
        m.view().contains_key(fallback_name()),
        m.lookup(fallback_name()) == m.view()[fallback_name()],
{
}

} // verus!
