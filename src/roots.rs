use vstd::prelude::*;

verus! {

/// The kind of store a search root belongs to.
#[derive(Clone, Copy, Debug, PartialEq, Eq, Structural)]
pub enum Store {
    Steam,
    Other,
}

/// One configured search root.
pub struct RootDescriptor {
    pub path: String,
    pub store: Store,
}

impl View for RootDescriptor {
    type V = (Seq<char>, Store);

    open spec fn view(&self) -> (Seq<char>, Store) {
        (self.path@, self.store)
    }
}

impl RootDescriptor {
    pub fn new(path: String, store: Store) -> (r: RootDescriptor)
        ensures
            r@ == (path@, store),
    {
        RootDescriptor { path, store }
    }

    /// A copy with the same path and store.
    pub fn duplicate(&self) -> (r: RootDescriptor)
        ensures
            r@ == self@,
    {
        RootDescriptor { path: self.path.clone(), store: self.store }
    }
}

/// The view of a list of roots: each root's path and store, in order.
pub open spec fn roots_view(roots: Seq<RootDescriptor>) -> Seq<(Seq<char>, Store)> {
    roots.map_values(|r: RootDescriptor| r@)
}

/// The ordered, editable list of search roots. Edits are plain structural
/// changes: empty paths and repeated roots are allowed.
pub struct RootRegistry {
    roots: Vec<RootDescriptor>,
}

impl View for RootRegistry {
    type V = Seq<(Seq<char>, Store)>;

    closed spec fn view(&self) -> Seq<(Seq<char>, Store)> {
        roots_view(self.roots@)
    }
}

impl RootRegistry {
    pub fn new() -> (r: RootRegistry)
        ensures
            r@ == Seq::<(Seq<char>, Store)>::empty(),
    {
        let r = RootRegistry { roots: Vec::new() };
        assert(r@ =~= Seq::<(Seq<char>, Store)>::empty());
        r
    }

    pub fn from_roots(roots: Vec<RootDescriptor>) -> (r: RootRegistry)
        ensures
            r@ == roots_view(roots@),
    {
        RootRegistry { roots }
    }

    pub fn len(&self) -> (n: usize)
        ensures
            n == self@.len(),
    {
        self.roots.len()
    }

    pub fn get(&self, index: usize) -> (r: &RootDescriptor)
        requires
            index < self@.len(),
        ensures
            r@ == self@[index as int],
    {
        &self.roots[index]
    }

    /// A copy of the whole list, as the orchestrator hands it to a run.
    pub fn snapshot(&self) -> (r: Vec<RootDescriptor>)
        ensures
            roots_view(r@) == self@,
    {
        let mut r: Vec<RootDescriptor> = Vec::new();
        let mut i: usize = 0;
        while i < self.roots.len()
            invariant
                i <= self.roots@.len(),
                r@.len() == i,
                forall|j: int| 0 <= j < i ==> r@[j]@ == self.roots@[j]@,
            decreases self.roots@.len() - i,
        {
            r.push(self.roots[i].duplicate());
            i = i + 1;
        }
        assert(roots_view(r@) =~= self@);
        r
    }

    /// Appends a root with an empty path and the `Other` store.
    pub fn add_root(&mut self)
        ensures
            final(self)@ == old(self)@.push((Seq::<char>::empty(), Store::Other)),
    {
        self.roots.push(RootDescriptor { path: String::new(), store: Store::Other });
        assert(self@ =~= old(self)@.push((Seq::<char>::empty(), Store::Other)));
    }

    /// Replaces the path of the root at `index`, keeping its store.
    pub fn set_path(&mut self, index: usize, path: String)
        requires
            index < old(self)@.len(),
        ensures
            final(self)@ == old(self)@.update(index as int, (path@, old(self)@[index as int].1)),
    {
        let store = self.roots[index].store;
        let ghost p = path@;
        self.roots.set(index, RootDescriptor { path, store });
        assert(self@ =~= old(self)@.update(index as int, (p, old(self)@[index as int].1)));
    }

    /// Replaces the store of the root at `index`, keeping its path.
    pub fn set_store(&mut self, index: usize, store: Store)
        requires
            index < old(self)@.len(),
        ensures
            final(self)@ == old(self)@.update(index as int, (old(self)@[index as int].0, store)),
    {
        let path = self.roots[index].path.clone();
        self.roots.set(index, RootDescriptor { path, store });
        assert(self@ =~= old(self)@.update(index as int, (old(self)@[index as int].0, store)));
    }

    /// Removes the root at `index`; later roots move down by one.
    pub fn remove(&mut self, index: usize)
        requires
            index < old(self)@.len(),
        ensures
            final(self)@ == old(self)@.remove(index as int),
    {
        self.roots.remove(index);
        assert(self@ =~= old(self)@.remove(index as int));
    }
}

/// Removing the root at `index` leaves one root fewer, keeps every other
/// root in its relative order, and, where no root was listed twice, leaves
/// the removed root absent.
pub proof fn lemma_remove_keeps_order(roots: Seq<(Seq<char>, Store)>, index: int)
    requires
        0 <= index < roots.len(),
    ensures
        roots.remove(index).len() == roots.len() - 1,
        forall|j: int| 0 <= j < index ==> roots.remove(index)[j] == roots[j],
        forall|j: int| index <= j < roots.len() - 1 ==> roots.remove(index)[j] == roots[j + 1],
        roots.no_duplicates() ==> !roots.remove(index).contains(roots[index]),
{
    let rest = roots.remove(index);
    if roots.no_duplicates() && rest.contains(roots[index]) {
        let j = choose|j: int| 0 <= j < rest.len() && rest[j] == roots[index];
        if j < index {
            assert(roots[j] == roots[index]);
        } else {
            assert(roots[j + 1] == roots[index]);
        }
    }
}

} // verus!
