//! The curve-visibility registry.
//!
//! Show/hide flags keyed by curve name, in the curves' order, shared
//! between the legend and the chart. A lookup takes the first entry with
//! the name and defaults to visible; a toggle flips every entry with the
//! name and leaves the rest alone; reconciliation rebuilds the entries
//! for a new name sequence, preserving known flags and defaulting new
//! names to visible.

use vstd::prelude::*;

verus! {

/// One registry entry: a curve name and whether the curve shows.
pub struct VisEntry {
    pub name: String,
    pub visible: bool,
}

impl View for VisEntry {
    type V = (Seq<char>, bool);

    open spec fn view(&self) -> (Seq<char>, bool) {
        (self.name@, self.visible)
    }
}

/// The registry: entries in the curves' order.
pub struct VisibilityMap {
    pub entries: Vec<VisEntry>,
}

impl View for VisibilityMap {
    type V = Seq<(Seq<char>, bool)>;

    open spec fn view(&self) -> Seq<(Seq<char>, bool)> {
        self.entries@.map_values(|e: VisEntry| e@)
    }
}

/// The name column of a registry.
pub open spec fn spec_names(m: Seq<(Seq<char>, bool)>) -> Seq<Seq<char>> {
    m.map_values(|p: (Seq<char>, bool)| p.0)
}

/// The flag of the first entry with the name; visible when there is none.
pub open spec fn spec_lookup(m: Seq<(Seq<char>, bool)>, name: Seq<char>) -> bool
    decreases m.len(),
{
    if m.len() == 0 {
        true
    } else if m[0].0 == name {
        m[0].1
    } else {
        spec_lookup(m.drop_first(), name)
    }
}

/// The registry after a toggle: every entry with the name flipped, every
/// other entry unchanged.
pub open spec fn spec_toggle(m: Seq<(Seq<char>, bool)>, name: Seq<char>) -> Seq<
    (Seq<char>, bool),
> {
    m.map_values(|p: (Seq<char>, bool)|
        if p.0 == name {
            (p.0, !p.1)
        } else {
            p
        },
    )
}

/// The registry rebuilt for a name sequence: each name keeps the flag a
/// lookup in the old registry gives it, so known names keep their flag,
/// new names default to visible, and entries of dropped names disappear.
pub open spec fn spec_reconcile(m: Seq<(Seq<char>, bool)>, names: Seq<Seq<char>>) -> Seq<
    (Seq<char>, bool),
> {
    Seq::new(names.len(), |i: int| (names[i], spec_lookup(m, names[i])))
}

impl VisibilityMap {
    /// A fresh registry: one entry per name, every curve visible.
    pub fn new_all_visible(names: &Vec<String>) -> (m: Self)
        ensures
            m@ == Seq::new(names@.len(), |i: int| (names@[i]@, true)),
    {
        let mut entries: Vec<VisEntry> = Vec::new();
        let mut i: usize = 0;
        while i < names.len()
            invariant
                i <= names.len(),
                entries@.len() == i,
                forall|k: int|
                    0 <= k < i ==> (#[trigger] entries@[k])@ == (names@[k]@, true),
            decreases names.len() - i,
        {
            entries.push(VisEntry { name: names[i].clone(), visible: true });
            i = i + 1;
        }
        let m = VisibilityMap { entries };
        proof {
            assert(m@ =~= Seq::new(names@.len(), |i: int| (names@[i]@, true)));
        }
        m
    }

    /// Whether the named curve shows: the first entry with the name
    /// decides, and an unknown name is visible.
    pub fn lookup(&self, name: &String) -> (r: bool)
        ensures
            r == spec_lookup(self@, name@),
    {
        let n: usize = self.entries.len();
        let mut i: usize = 0;
        proof {
            assert(self@.skip(0) =~= self@);
        }
        while i < n
            invariant
                i <= n,
                n == self.entries.len(),
                spec_lookup(self@, name@) == spec_lookup(self@.skip(i as int), name@),
            decreases n - i,
        {
            if self.entries[i].name == *name {
                proof {
                    assert(self@.skip(i as int)[0] == self@[i as int]);
                }
                return self.entries[i].visible;
            }
            proof {
                assert(self@.skip(i as int)[0] == self@[i as int]);
                assert(self@.skip(i as int).drop_first() =~= self@.skip(i + 1));
            }
            i = i + 1;
        }
        proof {
            assert(self@.skip(n as int).len() == 0);
        }
        true
    }

    /// Flips the named curve's flag; all other entries are unchanged.
    pub fn toggle(&mut self, name: &String)
        ensures
            final(self)@ == spec_toggle(old(self)@, name@),
    {
        let ghost m0 = self@;
        let n: usize = self.entries.len();
        let mut rebuilt: Vec<VisEntry> = Vec::new();
        let mut i: usize = 0;
        while i < n
            invariant
                i <= n,
                n == self.entries.len(),
                m0 == self@,
                rebuilt@.len() == i,
                forall|k: int|
                    0 <= k < i ==> (#[trigger] rebuilt@[k])@ == spec_toggle(m0, name@)[k],
            decreases n - i,
        {
            let flag: bool = if self.entries[i].name == *name {
                !self.entries[i].visible
            } else {
                self.entries[i].visible
            };
            rebuilt.push(VisEntry { name: self.entries[i].name.clone(), visible: flag });
            i = i + 1;
        }
        self.entries = rebuilt;
        proof {
            assert(self@ =~= spec_toggle(m0, name@));
        }
    }

    /// Rebuilds the registry for the given name sequence, preserving the
    /// flags of names already present; when the name sequence is exactly
    /// the one registered, nothing is rebuilt and the registry is
    /// unchanged, duplicates and all.
    pub fn reconcile(&mut self, names: &Vec<String>)
        ensures
            names.deep_view() == spec_names(old(self)@) ==> final(self)@ == old(self)@,
            names.deep_view() != spec_names(old(self)@) ==> final(self)@ == spec_reconcile(
                old(self)@,
                names.deep_view(),
            ),
    {
        let ghost m0 = self@;
        if self.same_names(names) {
            return ;
        }
        let n: usize = names.len();
        let mut rebuilt: Vec<VisEntry> = Vec::new();
        let mut i: usize = 0;
        while i < n
            invariant
                i <= n,
                n == names@.len(),
                m0 == self@,
                rebuilt@.len() == i,
                forall|k: int|
                    0 <= k < i ==> (#[trigger] rebuilt@[k])@ == (
                        names.deep_view()[k],
                        spec_lookup(m0, names.deep_view()[k]),
                    ),
            decreases n - i,
        {
            let flag: bool = self.lookup(&names[i]);
            rebuilt.push(VisEntry { name: names[i].clone(), visible: flag });
            i = i + 1;
        }
        self.entries = rebuilt;
        proof {
            assert(self@ =~= spec_reconcile(m0, names.deep_view()));
        }
    }

    /// Whether the registered names are exactly this sequence, in order.
    fn same_names(&self, names: &Vec<String>) -> (r: bool)
        ensures
            r == (names.deep_view() == spec_names(self@)),
    {
        let n: usize = self.entries.len();
        if names.len() != n {
            proof {
                assert(names.deep_view().len() == names@.len());
                assert(spec_names(self@).len() == n);
            }
            return false;
        }
        let mut i: usize = 0;
        while i < n
            invariant
                i <= n,
                n == self.entries.len(),
                n == names@.len(),
                forall|k: int| 0 <= k < i ==> names.deep_view()[k] == spec_names(self@)[k],
            decreases n - i,
        {
            if !(names[i] == self.entries[i].name) {
                proof {
                    assert(names.deep_view()[i as int] == names@[i as int]@);
                    assert(spec_names(self@)[i as int] == self@[i as int].0);
                }
                return false;
            }
            proof {
                assert(names.deep_view()[i as int] == names@[i as int]@);
                assert(spec_names(self@)[i as int] == self@[i as int].0);
            }
            i = i + 1;
        }
        proof {
            assert(names.deep_view() =~= spec_names(self@));
        }
        true
    }
}

/// Toggling the same name twice restores the registry exactly.
pub proof fn lemma_toggle_twice(m: Seq<(Seq<char>, bool)>, name: Seq<char>)
    ensures
        spec_toggle(spec_toggle(m, name), name) == m,
{
    assert forall|i: int| 0 <= i < m.len() implies spec_toggle(spec_toggle(m, name), name)[i]
        == m[i] by {
        assert(spec_toggle(m, name)[i] == (if m[i].0 == name {
            (m[i].0, !m[i].1)
        } else {
            m[i]
        }));
    }
    assert(spec_toggle(spec_toggle(m, name), name) =~= m);
}

/// A name whose first occurrence in the registry is entry `j` looks up to
/// that entry's flag.
pub proof fn lemma_lookup_found(m: Seq<(Seq<char>, bool)>, name: Seq<char>, j: int)
    requires
        0 <= j < m.len(),
        m[j].0 == name,
        forall|k: int| 0 <= k < j ==> m[k].0 != name,
    ensures
        spec_lookup(m, name) == m[j].1,
    decreases m.len(),
{
    if j > 0 {
        assert(m.drop_first()[j - 1] == m[j]);
        assert(forall|k: int| 0 <= k < j - 1 ==> m.drop_first()[k] == m[k + 1]);
        lemma_lookup_found(m.drop_first(), name, j - 1);
    }
}

/// A name the registry does not hold looks up to visible.
pub proof fn lemma_lookup_absent(m: Seq<(Seq<char>, bool)>, name: Seq<char>)
    requires
        forall|k: int| 0 <= k < m.len() ==> m[k].0 != name,
    ensures
        spec_lookup(m, name) == true,
    decreases m.len(),
{
    if m.len() > 0 {
        assert(forall|k: int| 0 <= k < m.len() - 1 ==> m.drop_first()[k] == m[k + 1]);
        lemma_lookup_absent(m.drop_first(), name);
    }
}

/// Reconciliation preserves visibility: the rebuilt registry follows the
/// new name sequence, a name already registered keeps the flag of its
/// first entry, and a new name comes up visible.
pub proof fn lemma_reconcile_preserves(
    m: Seq<(Seq<char>, bool)>,
    names: Seq<Seq<char>>,
    i: int,
)
    requires
        0 <= i < names.len(),
    ensures
        spec_reconcile(m, names).len() == names.len(),
        spec_reconcile(m, names)[i].0 == names[i],
        forall|j: int|
            0 <= j < m.len() && m[j].0 == names[i] && (forall|k: int|
                0 <= k < j ==> m[k].0 != names[i]) ==> spec_reconcile(m, names)[i].1 == m[j].1,
        (forall|k: int| 0 <= k < m.len() ==> m[k].0 != names[i]) ==> spec_reconcile(m, names)[i].1
            == true,
{
    assert forall|j: int|
        0 <= j < m.len() && m[j].0 == names[i] && (forall|k: int|
            0 <= k < j ==> m[k].0 != names[i]) implies spec_reconcile(m, names)[i].1 == m[j].1 by {
        lemma_lookup_found(m, names[i], j);
    }
    if forall|k: int| 0 <= k < m.len() ==> m[k].0 != names[i] {
        lemma_lookup_absent(m, names[i]);
    }
}

} // verus!
