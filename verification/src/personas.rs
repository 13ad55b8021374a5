//! Personas and the persona registry.
//!
//! The registry keeps personas in insertion order, keyed by a generated
//! unique id.  The first entry is the default "self" persona; no removal
//! operation exists.

use vstd::prelude::*;
use vstd::string::StringExecFns;
use crate::UniqueId;
use crate::colours::Rgb;
use crate::ids::{fresh_id, has_duplicate_id};

verus! {

/// A named, coloured identity a user can compose messages as.
#[derive(Clone, PartialEq, Debug)]
pub struct Persona {
    pub name: String,
    pub colour: Rgb,
}

/// The mathematical content of a `Persona`.
pub ghost struct PersonaView {
    pub name: Seq<char>,
    pub colour: Rgb,
}

impl View for Persona {
    type V = PersonaView;

    open spec fn view(&self) -> PersonaView {
        PersonaView { name: self.name@, colour: self.colour }
    }
}

/// The default "self" persona seeded on first run.
pub fn default_persona() -> (p: Persona)
    ensures
        p@.name == "Me"@,
        p@.colour == (Rgb(0x49, 0x55, 0x65)),
{
    Persona { name: String::from_str("Me"), colour: Rgb(0x49, 0x55, 0x65) }
}

/// The views of a list of keyed personas.
pub open spec fn persona_entries_view(s: Seq<(UniqueId, Persona)>) -> Seq<(UniqueId, PersonaView)> {
    s.map_values(|e: (UniqueId, Persona)| (e.0, e.1@))
}

/// One registry append: the returned id was free before, and the new
/// persona is appended under it.
pub open spec fn spec_pushed(
    pre: Seq<(UniqueId, PersonaView)>,
    post: Seq<(UniqueId, PersonaView)>,
    id: UniqueId,
    p: PersonaView,
) -> bool {
    &&& !pre.map_values(|e: (UniqueId, PersonaView)| e.0).contains(id)
    &&& post == pre.push((id, p))
}

/// The ids of a keyed persona list, in insertion order.
pub open spec fn persona_ids_of(s: Seq<(UniqueId, PersonaView)>) -> Seq<UniqueId> {
    s.map_values(|e: (UniqueId, PersonaView)| e.0)
}

/// Well-formed registry content: unique ids and at least one persona.
pub open spec fn personas_wf(s: Seq<(UniqueId, PersonaView)>) -> bool {
    &&& persona_ids_of(s).no_duplicates()
    &&& s.len() >= 1
}

/// Ordered mapping from unique id to persona, insertion order preserved.
pub struct Personas {
    entries: Vec<(UniqueId, Persona)>,
}

impl View for Personas {
    type V = Seq<(UniqueId, PersonaView)>;

    closed spec fn view(&self) -> Seq<(UniqueId, PersonaView)> {
        persona_entries_view(self.entries@)
    }
}

impl Personas {
    /// The registry's ids, in insertion order.
    pub open spec fn ids(self) -> Seq<UniqueId> {
        persona_ids_of(self@)
    }

    /// Well-formed: ids are unique and at least one persona exists.
    pub open spec fn wf(self) -> bool {
        personas_wf(self@)
    }

    pub open spec fn spec_contains(self, id: UniqueId) -> bool {
        self.ids().contains(id)
    }

    /// The persona stored under `id`, when present.
    pub open spec fn spec_get(self, id: UniqueId) -> Option<PersonaView> {
        if self.spec_contains(id) {
            Some(self@[self.ids().index_of(id)].1)
        } else {
            None
        }
    }

    /// A fresh registry seeded with one persona under a fresh id.
    pub fn new(persona: Persona) -> (s: Self)
        ensures
            s.wf(),
            s@.len() == 1,
            s@[0].1 == persona@,
    {
        let no_ids: Vec<UniqueId> = Vec::new();
        let id = fresh_id(&no_ids);
        let mut entries: Vec<(UniqueId, Persona)> = Vec::new();
        entries.push((id, persona));
        let s = Personas { entries };
        proof {
            assert(s.ids() =~= seq![id]);
        }
        s
    }

    /// The registry's ids as a vector, in insertion order.
    pub fn collect_ids(&self) -> (v: Vec<UniqueId>)
        ensures
            v@ == self.ids(),
    {
        let mut v: Vec<UniqueId> = Vec::new();
        let n = self.entries.len();
        let mut j: usize = 0;
        while j < n
            invariant
                0 <= j <= n,
                n == self.entries@.len(),
                v@ =~= self.ids().take(j as int),
            decreases n - j,
        {
            v.push(self.entries[j].0);
            proof {
                assert(v@ =~= self.ids().take(j + 1));
            }
            j += 1;
        }
        proof {
            assert(self.ids().take(n as int) =~= self.ids());
        }
        v
    }

    /// Append a persona under a freshly generated id and return the id.
    pub fn push(&mut self, value: Persona) -> (id: UniqueId)
        requires
            old(self).wf(),
        ensures
            final(self).wf(),
            spec_pushed(old(self)@, final(self)@, id, value@),
    {
        let ids = self.collect_ids();
        let id = fresh_id(&ids);
        self.entries.push((id, value));
        proof {
            assert(final(self)@ =~= old(self)@.push((id, value@)));
            assert(final(self).ids() =~= old(self).ids().push(id));
        }
        id
    }

    /// Look a persona up by id.
    pub fn get(&self, id: UniqueId) -> (r: Option<&Persona>)
        requires
            self.wf(),
        ensures
            match r {
                Some(p) => self.spec_get(id) == Some(p@),
                None => !self.spec_contains(id),
            },
    {
        let n = self.entries.len();
        let mut j: usize = 0;
        while j < n
            invariant
                self.wf(),
                0 <= j <= n,
                n == self.entries@.len(),
                forall|t: int| 0 <= t < j ==> self.ids()[t] != id,
            decreases n - j,
        {
            if self.entries[j].0 == id {
                proof {
                    assert(self.ids()[j as int] == id);
                    assert(self.ids().contains(id));
                    let w = self.ids().index_of(id);
                    assert(0 <= w < self.ids().len() && self.ids()[w] == id);
                    assert(w == j as int);
                }
                return Some(&self.entries[j].1);
            }
            j += 1;
        }
        proof {
            assert(!self.spec_contains(id)) by {
                if self.ids().contains(id) {
                    let w = choose|w: int| 0 <= w < self.ids().len() && self.ids()[w] == id;
                }
            }
        }
        None
    }

    /// The insertion index of `id`, when present.
    pub fn get_index_of(&self, id: UniqueId) -> (r: Option<usize>)
        ensures
            match r {
                Some(i) => i < self@.len() && self.ids()[i as int] == id
                    && (forall|t: int| 0 <= t < i ==> self.ids()[t] != id),
                None => !self.spec_contains(id),
            },
    {
        let n = self.entries.len();
        let mut j: usize = 0;
        while j < n
            invariant
                0 <= j <= n,
                n == self.entries@.len(),
                forall|t: int| 0 <= t < j ==> self.ids()[t] != id,
            decreases n - j,
        {
            if self.entries[j].0 == id {
                return Some(j);
            }
            j += 1;
        }
        proof {
            assert(!self.spec_contains(id)) by {
                if self.ids().contains(id) {
                    let w = choose|w: int| 0 <= w < self.ids().len() && self.ids()[w] == id;
                }
            }
        }
        None
    }

    /// The entry at insertion position `index`, when in range.
    pub fn get_index(&self, index: usize) -> (r: Option<(UniqueId, &Persona)>)
        ensures
            match r {
                Some(e) => index < self@.len() && self@[index as int] == (e.0, e.1@),
                None => index >= self@.len(),
            },
    {
        if index < self.entries.len() {
            let e = &self.entries[index];
            Some((e.0, &e.1))
        } else {
            None
        }
    }

    /// How many personas the registry holds.
    pub fn count(&self) -> (n: usize)
        ensures
            n == self@.len(),
    {
        self.entries.len()
    }

    /// Read access to the entries, in insertion order.
    pub fn entries(&self) -> (r: &Vec<(UniqueId, Persona)>)
        ensures
            persona_entries_view(r@) == self@,
    {
        &self.entries
    }

    /// Rebuild a registry from stored entries; fails when the record is not
    /// a well-formed registry (duplicate ids, or no persona at all).
    pub fn from_parts(entries: Vec<(UniqueId, Persona)>) -> (r: Option<Personas>)
        ensures
            match r {
                Some(s) => s.wf() && s@ == persona_entries_view(entries@),
                None => !(persona_entries_view(entries@).map_values(
                        |e: (UniqueId, PersonaView)| e.0,
                    ).no_duplicates() && entries@.len() >= 1),
            },
    {
        if entries.len() == 0 {
            return None;
        }
        let s = Personas { entries };
        let ids = s.collect_ids();
        if has_duplicate_id(&ids) {
            None
        } else {
            Some(s)
        }
    }
}

/// Freshness of generated ids: an append never returns an id the registry
/// already held, so two successive appends return distinct ids.
pub proof fn lemma_pushed_ids_distinct(
    s0: Seq<(UniqueId, PersonaView)>,
    s1: Seq<(UniqueId, PersonaView)>,
    s2: Seq<(UniqueId, PersonaView)>,
    id1: UniqueId,
    id2: UniqueId,
    p1: PersonaView,
    p2: PersonaView,
)
    requires
        spec_pushed(s0, s1, id1, p1),
        spec_pushed(s1, s2, id2, p2),
    ensures
        id1 != id2,
{
    let f = |e: (UniqueId, PersonaView)| e.0;
    assert(s1.map_values(f) =~= s0.map_values(f).push(id1));
    assert(s1.map_values(f)[s0.len() as int] == id1);
    assert(s1.map_values(f).contains(id1));
}

/// An id once in the registry stays in it: appends only add entries.
pub proof fn lemma_pushed_keeps_ids(
    pre: Seq<(UniqueId, PersonaView)>,
    post: Seq<(UniqueId, PersonaView)>,
    id: UniqueId,
    p: PersonaView,
)
    requires
        spec_pushed(pre, post, id, p),
    ensures
        post.map_values(|e: (UniqueId, PersonaView)| e.0)
            =~= pre.map_values(|e: (UniqueId, PersonaView)| e.0).push(id),
        post.len() == pre.len() + 1,
{
    let f = |e: (UniqueId, PersonaView)| e.0;
    assert(post.map_values(f) =~= pre.map_values(f).push(id));
}

} // verus!
