use vstd::prelude::*;

verus! {

/// The text of each string of a sequence.
pub open spec fn texts(v: Seq<String>) -> Seq<Seq<char>> {
    v.map_values(|s: String| s@)
}

/// The text of an optional string.
pub open spec fn opt_text(o: Option<String>) -> Option<Seq<char>> {
    match o {
        Some(s) => Some(s@),
        None => None,
    }
}

/// Abstract value of a `State`: two sets of paths and an optional selection.
pub ghost struct StateModel {
    pub projects: Set<Seq<char>>,
    pub expansions: Set<Seq<char>>,
    pub selection: Option<Seq<char>>,
}

/// The durable application state. Each set of paths is held as a vector
/// without repeated entries, in the order the paths were first added.
pub struct State {
    projects: Vec<String>,
    expansions: Vec<String>,
    selection: Option<String>,
}

impl View for State {
    type V = StateModel;

    closed spec fn view(&self) -> StateModel {
        StateModel {
            projects: texts(self.projects@).to_set(),
            expansions: texts(self.expansions@).to_set(),
            selection: opt_text(self.selection),
        }
    }
}

/// Adds `p` to the set held by `v`, keeping its entries distinct.
fn insert_path(v: &mut Vec<String>, p: String)
    requires
        texts(old(v)@).no_duplicates(),
    ensures
        texts(final(v)@).no_duplicates(),
        texts(final(v)@).to_set() == texts(old(v)@).to_set().insert(p@),
{
    match find_path(v, &p) {
        None => {
            let ghost before = texts(v@);
            let ghost text = p@;
            v.push(p);
            assert(texts(v@) =~= before.push(text));
            proof {
                before.lemma_push_to_set_commute(text);
            }
        },
        Some(i) => {
            assert(texts(v@)[i as int] == p@);
            assert(texts(v@).to_set() =~= texts(v@).to_set().insert(p@));
        },
    }
}

/// Index of the entry of `v` whose text is `p`, if there is one.
fn find_path(v: &Vec<String>, p: &String) -> (r: Option<usize>)
    ensures
        match r {
            Some(i) => i < v@.len() && v@[i as int]@ == p@,
            None => !texts(v@).contains(p@),
        },
{
    let mut i: usize = 0;
    while i < v.len()
        invariant
            i <= v.len(),
            forall|k: int| 0 <= k < i ==> v@[k]@ != p@,
        decreases v.len() - i,
    {
        if v[i] == *p {
            return Some(i);
        }
        i += 1;
    }
    assert(!texts(v@).contains(p@)) by {
        if texts(v@).contains(p@) {
            let k = choose|k: int| 0 <= k < texts(v@).len() && texts(v@)[k] == p@;
            assert(v@[k]@ == p@);
        }
    }
    None
}

/// Takes `p` out of the set held by `v`, keeping its entries distinct.
fn remove_path(v: &mut Vec<String>, p: &String)
    requires
        texts(old(v)@).no_duplicates(),
    ensures
        texts(final(v)@).no_duplicates(),
        texts(final(v)@).to_set() == texts(old(v)@).to_set().remove(p@),
{
    match find_path(v, p) {
        Some(i) => {
            let ghost before = texts(v@);
            v.remove(i);
            let ghost after = texts(v@);
            assert(after =~= before.remove(i as int));
            assert(after.no_duplicates()) by {
                assert forall|a: int, b: int| 0 <= a < b < after.len() implies after[a] != after[b] by {
                    let a0 = if a < i { a } else { a + 1 };
                    let b0 = if b < i { b } else { b + 1 };
                    assert(after[a] == before[a0] && after[b] == before[b0]);
                }
            }
            assert forall|x: Seq<char>| after.to_set().contains(x) <==> before.to_set().remove(p@).contains(x) by {
                if after.contains(x) {
                    let k = choose|k: int| 0 <= k < after.len() && after[k] == x;
                    let k0 = if k < i { k } else { k + 1 };
                    assert(before[k0] == x && k0 != i);
                    assert(before[i as int] == p@);
                    assert(before.contains(x));
                }
                if before.contains(x) && x != p@ {
                    let k = choose|k: int| 0 <= k < before.len() && before[k] == x;
                    assert(k != i);
                    let k1 = if k < i { k } else { k - 1 };
                    assert(after[k1] == x);
                }
            }
            assert(after.to_set() =~= before.to_set().remove(p@));
        },
        None => {
            assert(texts(v@).to_set() =~= texts(v@).to_set().remove(p@));
        },
    }
}

impl State {
    /// Each set of paths is held without repeated entries.
    pub closed spec fn wf(&self) -> bool {
        &&& texts(self.projects@).no_duplicates()
        &&& texts(self.expansions@).no_duplicates()
    }

    /// An empty state: no projects, no expansions, no selection.
    pub fn new() -> (r: State)
        ensures
            r.wf(),
            r@.projects == Set::<Seq<char>>::empty(),
            r@.expansions == Set::<Seq<char>>::empty(),
            r@.selection is None,
    {
        let r = State { projects: Vec::new(), expansions: Vec::new(), selection: None };
        assert(texts(r.projects@).to_set() =~= Set::<Seq<char>>::empty());
        assert(texts(r.expansions@).to_set() =~= Set::<Seq<char>>::empty());
        r
    }

    /// The open projects in the order they were added.
    pub closed spec fn project_order(&self) -> Seq<Seq<char>> {
        texts(self.projects@)
    }

    /// The expanded nodes in the order they were added.
    pub closed spec fn expansion_order(&self) -> Seq<Seq<char>> {
        texts(self.expansions@)
    }

    /// The order of each set holds its members, each once.
    pub proof fn lemma_orders(&self)
        requires
            self.wf(),
        ensures
            self.project_order().no_duplicates(),
            self.project_order().to_set() == self@.projects,
            self.expansion_order().no_duplicates(),
            self.expansion_order().to_set() == self@.expansions,
    {
    }

    /// The open projects, each once, in the order they were added.
    pub fn projects(&self) -> (r: &Vec<String>)
        requires
            self.wf(),
        ensures
            texts(r@) == self.project_order(),
    {
        &self.projects
    }

    /// The expanded tree nodes, each once, in the order they were added.
    pub fn expansions(&self) -> (r: &Vec<String>)
        requires
            self.wf(),
        ensures
            texts(r@) == self.expansion_order(),
    {
        &self.expansions
    }

    /// The selected node, if any.
    pub fn selection(&self) -> (r: &Option<String>)
        ensures
            opt_text(*r) == self@.selection,
    {
        &self.selection
    }

    /// Opens the project at `path`.
    pub fn insert_project(&mut self, path: String)
        requires
            old(self).wf(),
        ensures
            final(self).wf(),
            final(self)@.projects == old(self)@.projects.insert(path@),
            final(self)@.expansions == old(self)@.expansions,
            final(self)@.selection == old(self)@.selection,
    {
        insert_path(&mut self.projects, path);
    }

    /// Closes the project at `path`.
    pub fn remove_project(&mut self, path: &String)
        requires
            old(self).wf(),
        ensures
            final(self).wf(),
            final(self)@.projects == old(self)@.projects.remove(path@),
            final(self)@.expansions == old(self)@.expansions,
            final(self)@.selection == old(self)@.selection,
    {
        remove_path(&mut self.projects, path);
    }

    /// Closes every project.
    pub fn clear_projects(&mut self)
        requires
            old(self).wf(),
        ensures
            final(self).wf(),
            final(self)@.projects == Set::<Seq<char>>::empty(),
            final(self)@.expansions == old(self)@.expansions,
            final(self)@.selection == old(self)@.selection,
    {
        self.projects.clear();
        assert(texts(self.projects@).to_set() =~= Set::<Seq<char>>::empty());
    }

    /// Marks the tree node at `path` as expanded.
    pub fn insert_expansion(&mut self, path: String)
        requires
            old(self).wf(),
        ensures
            final(self).wf(),
            final(self)@.expansions == old(self)@.expansions.insert(path@),
            final(self)@.projects == old(self)@.projects,
            final(self)@.selection == old(self)@.selection,
    {
        insert_path(&mut self.expansions, path);
    }

    /// Marks the tree node at `path` as collapsed.
    pub fn remove_expansion(&mut self, path: &String)
        requires
            old(self).wf(),
        ensures
            final(self).wf(),
            final(self)@.expansions == old(self)@.expansions.remove(path@),
            final(self)@.projects == old(self)@.projects,
            final(self)@.selection == old(self)@.selection,
    {
        remove_path(&mut self.expansions, path);
    }

    /// Collapses every tree node.
    pub fn clear_expansions(&mut self)
        requires
            old(self).wf(),
        ensures
            final(self).wf(),
            final(self)@.expansions == Set::<Seq<char>>::empty(),
            final(self)@.projects == old(self)@.projects,
            final(self)@.selection == old(self)@.selection,
    {
        self.expansions.clear();
        assert(texts(self.expansions@).to_set() =~= Set::<Seq<char>>::empty());
    }

    /// Replaces the selection.
    pub fn set_selection(&mut self, selection: Option<String>)
        requires
            old(self).wf(),
        ensures
            final(self).wf(),
            final(self)@.selection == opt_text(selection),
            final(self)@.projects == old(self)@.projects,
            final(self)@.expansions == old(self)@.expansions,
    {
        self.selection = selection;
    }
}

} // verus!
