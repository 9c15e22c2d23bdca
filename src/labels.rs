use vstd::prelude::*;

use crate::habitica::Tag;
use crate::text::same_text;
use crate::todo::{spec_parse_todo_type, Todo, TodoTypes};

verus! {

/// The entries of a label cache, in order: identifier, then display name.
pub type Entries = Seq<(Seq<char>, Seq<char>)>;

/// The (identifier, name) pairs of a list of labels.
pub open spec fn tag_pairs(tags: Seq<Tag>) -> Entries {
    tags.map_values(|t: Tag| (t.id@, t.name@))
}

/// No identifier occurs twice.
pub open spec fn unique_ids(e: Entries) -> bool {
    forall|i: int, j: int| 0 <= i < j < e.len() ==> (#[trigger] e[i]).0 != (#[trigger] e[j]).0
}

/// `i` is the first position whose identifier is `id`.
pub open spec fn first_with_id(e: Entries, id: Seq<char>, i: int) -> bool {
    &&& 0 <= i < e.len()
    &&& e[i].0 == id
    &&& forall|j: int| 0 <= j < i ==> (#[trigger] e[j]).0 != id
}

/// `i` is the first position whose name is `name`.
pub open spec fn first_with_name(e: Entries, name: Seq<char>, i: int) -> bool {
    &&& 0 <= i < e.len()
    &&& e[i].1 == name
    &&& forall|j: int| 0 <= j < i ==> (#[trigger] e[j]).1 != name
}

/// The name stored under an identifier.
pub open spec fn lookup_id(e: Entries, id: Seq<char>) -> Option<Seq<char>> {
    if exists|i: int| first_with_id(e, id, i) {
        Some(e[choose|i: int| first_with_id(e, id, i)].1)
    } else {
        None
    }
}

/// The identifier of the first entry with a name.
pub open spec fn lookup_name(e: Entries, name: Seq<char>) -> Option<Seq<char>> {
    if exists|i: int| first_with_name(e, name, i) {
        Some(e[choose|i: int| first_with_name(e, name, i)].0)
    } else {
        None
    }
}

/// The entries after storing `name` under `id`: an entry with that identifier
/// takes the new name in its place, else the pair is appended.
pub open spec fn inserted(e: Entries, id: Seq<char>, name: Seq<char>) -> Entries {
    if exists|i: int| first_with_id(e, id, i) {
        e.update(choose|i: int| first_with_id(e, id, i), (id, name))
    } else {
        e.push((id, name))
    }
}

/// The entries after storing every pair of `pairs`, in order.
pub open spec fn filled(e: Entries, pairs: Entries) -> Entries
    decreases pairs.len(),
{
    if pairs.len() == 0 {
        e
    } else {
        let last = pairs.last();
        inserted(filled(e, pairs.drop_last()), last.0, last.1)
    }
}

/// A tag identifier as shown to clients: its name where the cache knows it.
pub open spec fn renamed(e: Entries, tag: Seq<char>) -> Seq<char> {
    match lookup_id(e, tag) {
        Some(n) => n,
        None => tag,
    }
}

/// The names that do not read as a task kind, in the order of the entries.
pub open spec fn label_names(e: Entries) -> Seq<Seq<char>>
    decreases e.len(),
{
    if e.len() == 0 {
        Seq::empty()
    } else {
        let rest = label_names(e.drop_last());
        if spec_parse_todo_type(e.last().1) is Err {
            rest.push(e.last().1)
        } else {
            rest
        }
    }
}

/// Two tasks that differ at most in their tags.
pub open spec fn same_but_tags(a: Todo, b: Todo) -> bool {
    &&& a.name == b.name
    &&& a.descr == b.descr
    &&& a.todo_type == b.todo_type
    &&& a.checklist == b.checklist
    &&& a.due_date == b.due_date
    &&& a.done == b.done
}

/// The tags of `b` are those of `a`, each shown by its name where the cache knows it.
pub open spec fn tags_renamed(e: Entries, a: Seq<String>, b: Seq<String>) -> bool {
    &&& b.len() == a.len()
    &&& forall|j: int| 0 <= j < a.len() ==> (#[trigger] b[j])@ == renamed(e, a[j]@)
}

/// `after` is `before` with every tag shown by its name where the cache knows it.
pub open spec fn renamed_all(e: Entries, before: Seq<Todo>, after: Seq<Todo>) -> bool {
    &&& after.len() == before.len()
    &&& forall|i: int|
        0 <= i < before.len() ==> same_but_tags(#[trigger] after[i], before[i]) && tags_renamed(
            e,
            before[i].tags@,
            after[i].tags@,
        )
}

/// The mapping from label identifiers to display names, filled from the
/// remote listing. Identifiers are unique; entries keep the order in which
/// their identifiers were first stored.
#[derive(Debug)]
pub struct TagCache {
    entries: Vec<Tag>,
}

impl View for TagCache {
    type V = Entries;

    closed spec fn view(&self) -> Entries {
        tag_pairs(self.entries@)
    }
}

impl TagCache {
    /// Identifiers are unique.
    pub open spec fn wf(&self) -> bool {
        unique_ids(self@)
    }

    /// An empty cache.
    pub fn new() -> (r: TagCache)
        ensures
            r@ == Seq::<(Seq<char>, Seq<char>)>::empty(),
            r.wf(),
    {
        let r = TagCache { entries: Vec::new() };
        assert(r@ =~= Seq::<(Seq<char>, Seq<char>)>::empty());
        r
    }

    /// The number of entries.
    pub fn len(&self) -> (r: usize)
        ensures
            r == self@.len(),
    {
        self.entries.len()
    }

    fn position_of_id(&self, id: &str) -> (r: Option<usize>)
        ensures
            match r {
                Some(i) => first_with_id(self@, id@, i as int),
                None => forall|i: int| 0 <= i < self@.len() ==> (#[trigger] self@[i]).0 != id@,
            },
    {
        let mut i: usize = 0;
        while i < self.entries.len()
            invariant
                i <= self@.len(),
                self@.len() == self.entries@.len(),
                forall|j: int| 0 <= j < i ==> (#[trigger] self@[j]).0 != id@,
            decreases self@.len() - i,
        {
            if same_text(self.entries[i].id.as_str(), id) {
                return Some(i);
            }
            i = i + 1;
        }
        None
    }

    /// Stores `name` under `id`, in place of the name stored before under `id`.
    pub fn insert(&mut self, id: String, name: String)
        ensures
            final(self)@ == inserted(old(self)@, id@, name@),
            old(self).wf() ==> final(self).wf(),
    {
        let ghost e = self@;
        match self.position_of_id(id.as_str()) {
            Some(i) => {
                proof {
                    assert(first_with_id(e, id@, i as int));
                    let k = choose|k: int| first_with_id(e, id@, k);
                    assert(k == i);
                }
                self.entries.set(i, Tag { name, id });
                assert(self@ =~= e.update(i as int, (id@, name@)));
            },
            None => {
                self.entries.push(Tag { name, id });
                assert(self@ =~= e.push((id@, name@)));
            },
        }
    }

    /// Stores every label of a listing, in order, each in place of an entry with its identifier.
    pub fn fill(&mut self, tags: &Vec<Tag>)
        ensures
            final(self)@ == filled(old(self)@, tag_pairs(tags@)),
            old(self).wf() ==> final(self).wf(),
    {
        let ghost e = self@;
        let mut i: usize = 0;
        while i < tags.len()
            invariant
                i <= tags@.len(),
                self@ == filled(e, tag_pairs(tags@).subrange(0, i as int)),
                unique_ids(e) ==> self.wf(),
            decreases tags@.len() - i,
        {
            let ghost before = self@;
            self.insert(tags[i].id.clone(), tags[i].name.clone());
            proof {
                let p = tag_pairs(tags@);
                assert(p.subrange(0, i + 1).drop_last() =~= p.subrange(0, i as int));
            }
            i = i + 1;
        }
        assert(tag_pairs(tags@).subrange(0, tags@.len() as int) =~= tag_pairs(tags@));
    }

    /// The name stored under an identifier.
    pub fn get_name(&self, id: &str) -> (r: Option<String>)
        ensures
            match r {
                Some(n) => lookup_id(self@, id@) == Some(n@),
                None => lookup_id(self@, id@) is None,
            },
    {
        match self.position_of_id(id) {
            Some(i) => {
                proof {
                    let k = choose|k: int| first_with_id(self@, id@, k);
                    assert(k == i);
                }
                Some(self.entries[i].name.clone())
            },
            None => None,
        }
    }

    /// The identifier of the first entry whose name is exactly `label`.
    pub fn get_tag_id(&self, label: &str) -> (r: Option<String>)
        ensures
            match r {
                Some(id) => lookup_name(self@, label@) == Some(id@),
                None => lookup_name(self@, label@) is None,
            },
    {
        let mut i: usize = 0;
        while i < self.entries.len()
            invariant
                i <= self@.len(),
                self@.len() == self.entries@.len(),
                forall|j: int| 0 <= j < i ==> (#[trigger] self@[j]).1 != label@,
            decreases self@.len() - i,
        {
            if same_text(self.entries[i].name.as_str(), label) {
                proof {
                    assert(first_with_name(self@, label@, i as int));
                    let k = choose|k: int| first_with_name(self@, label@, k);
                    assert(k == i);
                }
                return Some(self.entries[i].id.clone());
            }
            i = i + 1;
        }
        None
    }

    /// The tags of one task, each identifier that the cache knows replaced by its name.
    fn rename_tags(&self, tags: &Vec<String>) -> (r: Vec<String>)
        ensures
            tags_renamed(self@, tags@, r@),
    {
        let mut r: Vec<String> = Vec::new();
        let mut j: usize = 0;
        while j < tags.len()
            invariant
                j <= tags@.len(),
                r@.len() == j,
                forall|k: int| 0 <= k < j ==> (#[trigger] r@[k])@ == renamed(self@, tags@[k]@),
            decreases tags@.len() - j,
        {
            match self.get_name(tags[j].as_str()) {
                Some(n) => r.push(n),
                None => r.push(tags[j].clone()),
            }
            j = j + 1;
        }
        r
    }

    /// Replaces, in every tag of every task, an identifier that the cache
    /// knows by its name; other tags stay as they are.
    pub fn replace_tag_id(&self, todos: &mut Vec<Todo>)
        ensures
            renamed_all(self@, old(todos)@, final(todos)@),
    {
        let ghost start = todos@;
        let mut i: usize = 0;
        while i < todos.len()
            invariant
                i <= todos@.len(),
                todos@.len() == start.len(),
                forall|k: int|
                    i <= k < start.len() ==> #[trigger] todos@[k] == start[k],
                forall|k: int|
                    0 <= k < i ==> same_but_tags(#[trigger] todos@[k], start[k]) && tags_renamed(
                        self@,
                        start[k].tags@,
                        todos@[k].tags@,
                    ),
            decreases start.len() - i,
        {
            let renamed_tags = self.rename_tags(&todos[i].tags);
            todos[i].tags = renamed_tags;
            i = i + 1;
        }
    }

    /// The names of the labels that do not read as a task kind, in the order of the entries.
    pub fn user_labels(&self) -> (r: Vec<String>)
        ensures
            r@.map_values(|s: String| s@) == label_names(self@),
    {
        let mut r: Vec<String> = Vec::new();
        let mut i: usize = 0;
        while i < self.entries.len()
            invariant
                i <= self@.len(),
                self@.len() == self.entries@.len(),
                r@.map_values(|s: String| s@) == label_names(self@.subrange(0, i as int)),
            decreases self@.len() - i,
        {
            proof {
                assert(self@.subrange(0, i + 1).drop_last() =~= self@.subrange(0, i as int));
            }
            if TodoTypes::parse(self.entries[i].name.as_str()).is_err() {
                r.push(self.entries[i].name.clone());
            }
            proof {
                let sub = self@.subrange(0, i + 1);
                assert(sub.last() == self@[i as int]);
                assert(r@.map_values(|s: String| s@) =~= label_names(sub));
            }
            i = i + 1;
        }
        assert(self@.subrange(0, self@.len() as int) =~= self@);
        r
    }
}

/// A name held by exactly one entry is looked up to that entry's identifier.
pub proof fn lemma_lookup_name_single(e: Entries, name: Seq<char>, i: int)
    requires
        0 <= i < e.len(),
        e[i].1 == name,
        forall|j: int| 0 <= j < e.len() && j != i ==> (#[trigger] e[j]).1 != name,
    ensures
        lookup_name(e, name) == Some(e[i].0),
{
    assert(first_with_name(e, name, i));
    let k = choose|k: int| first_with_name(e, name, k);
    assert(k == i);
}

/// Of two labels newly stored one after the other under the same name, a
/// lookup of that name finds the one stored first.
pub proof fn lemma_lookup_name_first_inserted(
    e: Entries,
    id1: Seq<char>,
    id2: Seq<char>,
    name: Seq<char>,
)
    requires
        id1 != id2,
        forall|j: int| 0 <= j < e.len() ==> (#[trigger] e[j]).0 != id1 && e[j].0 != id2,
        forall|j: int| 0 <= j < e.len() ==> (#[trigger] e[j]).1 != name,
    ensures
        lookup_name(inserted(inserted(e, id1, name), id2, name), name) == Some(id1),
{
    let e1 = inserted(e, id1, name);
    assert(!exists|i: int| first_with_id(e, id1, i));
    assert(e1 == e.push((id1, name)));
    assert(!exists|i: int| first_with_id(e1, id2, i)) by {
        assert forall|i: int| !first_with_id(e1, id2, i) by {
            if 0 <= i < e1.len() && i < e.len() {
                assert(e1[i] == e[i]);
            }
        }
    }
    let e2 = e1.push((id2, name));
    assert(inserted(e1, id2, name) == e2);
    let n = e.len() as int;
    assert(first_with_name(e2, name, n)) by {
        assert forall|j: int| 0 <= j < n implies (#[trigger] e2[j]).1 != name by {
            assert(e2[j] == e[j]);
        }
    }
    let k = choose|k: int| first_with_name(e2, name, k);
    assert(k == n);
}

} // verus!
