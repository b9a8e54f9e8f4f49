//! The characters that the game master works with: the active characters on
//! the table, each found again by an id of its own, and the saved templates,
//! found by their position or by their name.

use vstd::prelude::*;
use crate::character::Character;
use crate::text::{decimal_digits, decimal_text, parse_i32, parsed_integer};

verus! {

/// The abstract content of a store.
pub struct StoreView {
    pub active_ids: Seq<u64>,
    pub active_characters: Seq<Character>,
    pub template_characters: Seq<Character>,
    pub next_id: u64,
}

/// No two templates share a name.
pub open spec fn names_distinct(templates: Seq<Character>) -> bool {
    forall|i: int, j: int|
        0 <= i < j < templates.len() ==> templates[i].name@ != templates[j].name@
}

/// The position of the first template named `name`, if any.
pub open spec fn first_named(templates: Seq<Character>, name: Seq<char>, found: Option<usize>) -> bool {
    match found {
        Some(i) => i < templates.len() && templates[i as int].name@ == name && forall|j: int|
            0 <= j < i ==> templates[j].name@ != name,
        None => forall|j: int| 0 <= j < templates.len() ==> templates[j].name@ != name,
    }
}

/// The active characters and the templates.
pub struct DataStore {
    active_ids: Vec<u64>,
    active_characters: Vec<Character>,
    template_characters: Vec<Character>,
    next_id: u64,
}

impl View for DataStore {
    type V = StoreView;

    closed spec fn view(&self) -> StoreView {
        StoreView {
            active_ids: self.active_ids@,
            active_characters: self.active_characters@,
            template_characters: self.template_characters@,
            next_id: self.next_id,
        }
    }
}

/// Every active character has an id of its own, below the next id to be given.
pub open spec fn ids_valid(v: StoreView) -> bool {
    &&& v.active_ids.len() == v.active_characters.len()
    &&& forall|i: int, j: int|
        0 <= i < j < v.active_ids.len() ==> v.active_ids[i] != v.active_ids[j]
    &&& forall|i: int| 0 <= i < v.active_ids.len() ==> v.active_ids[i] < v.next_id
}

impl DataStore {
    #[verifier::type_invariant]
    spec fn well_formed(self) -> bool {
        ids_valid(self@)
    }

    /// An empty store.
    pub fn new() -> (store: DataStore)
        ensures
            store@.active_ids.len() == 0,
            store@.active_characters.len() == 0,
            store@.template_characters.len() == 0,
            store@.next_id == 0,
    {
        DataStore {
            active_ids: Vec::new(),
            active_characters: Vec::new(),
            template_characters: Vec::new(),
            next_id: 0,
        }
    }

    /// A store of the given active characters, with the ids 0, 1, 2, ... in
    /// their order, and the given templates.
    pub fn from_parts(active_characters: Vec<Character>, template_characters: Vec<Character>) -> (store: DataStore)
        ensures
            store@.active_characters == active_characters@,
            store@.template_characters == template_characters@,
            store@.next_id == active_characters@.len(),
            forall|i: int| 0 <= i < store@.active_ids.len() ==> store@.active_ids[i] == i,
            ids_valid(store@),
    {
        let n = active_characters.len();
        let mut active_ids: Vec<u64> = Vec::new();
        for i in 0..n
            invariant
                active_ids@.len() == i,
                forall|j: int| 0 <= j < i ==> active_ids@[j] == j,
        {
            active_ids.push(i as u64);
        }
        DataStore { active_ids, active_characters, template_characters, next_id: n as u64 }
    }

    /// Gives up the active characters and the templates, in their order.
    pub fn into_parts(self) -> (parts: (Vec<Character>, Vec<Character>))
        ensures
            parts.0@ == self@.active_characters,
            parts.1@ == self@.template_characters,
    {
        (self.active_characters, self.template_characters)
    }

    /// Takes the content out of the store, leaving it empty.
    fn take_parts(&mut self) -> (parts: (Vec<u64>, Vec<Character>, Vec<Character>, u64))
        ensures
            parts.0@ == old(self)@.active_ids,
            parts.1@ == old(self)@.active_characters,
            parts.2@ == old(self)@.template_characters,
            parts.3 == old(self)@.next_id,
            ids_valid(old(self)@),
    {
        let mut store = DataStore::new();
        std::mem::swap(&mut store, self);
        proof {
            use_type_invariant(&store);
        }
        let DataStore { active_ids, active_characters, template_characters, next_id } = store;
        (active_ids, active_characters, template_characters, next_id)
    }

    /// The number of active characters.
    pub fn active_len(&self) -> (len: usize)
        ensures
            len == self@.active_characters.len(),
            ids_valid(self@),
    {
        proof {
            use_type_invariant(self);
        }
        self.active_characters.len()
    }

    /// The id of the active character at `index`.
    pub fn active_id(&self, index: usize) -> (id: u64)
        requires
            index < self@.active_characters.len(),
        ensures
            id == self@.active_ids[index as int],
    {
        proof {
            use_type_invariant(self);
        }
        self.active_ids[index]
    }

    /// The active character at `index`.
    pub fn active_character(&self, index: usize) -> (c: &Character)
        requires
            index < self@.active_characters.len(),
        ensures
            *c == self@.active_characters[index as int],
    {
        &self.active_characters[index]
    }

    /// The position of the active character with id `id`, if any.
    pub fn find_active(&self, id: u64) -> (index: Option<usize>)
        ensures
            ids_valid(self@),
            match index {
                Some(i) => i < self@.active_ids.len() && self@.active_ids[i as int] == id,
                None => !self@.active_ids.contains(id),
            },
    {
        proof {
            use_type_invariant(self);
        }
        let n = self.active_ids.len();
        for i in 0..n
            invariant
                n == self@.active_ids.len(),
                ids_valid(self@),
                forall|j: int| 0 <= j < i ==> self@.active_ids[j] != id,
        {
            if self.active_ids[i] == id {
                return Some(i);
            }
        }
        None
    }

    /// Puts a character on the table and gives its id, which no other active
    /// character has. `None`, and nothing changes, once every id has been given.
    pub fn add_active(&mut self, c: Character) -> (id: Option<u64>)
        ensures
            match id {
                Some(new_id) => {
                    &&& !old(self)@.active_ids.contains(new_id)
                    &&& final(self)@.active_ids == old(self)@.active_ids.push(new_id)
                    &&& final(self)@.active_characters == old(self)@.active_characters.push(c)
                    &&& final(self)@.template_characters == old(self)@.template_characters
                },
                None => old(self)@.next_id == u64::MAX && final(self)@ == old(self)@,
            },
            old(self)@.next_id < u64::MAX ==> id is Some,
    {
        proof {
            use_type_invariant(&*self);
        }
        if self.next_id == u64::MAX {
            return None;
        }
        let (mut active_ids, mut active_characters, template_characters, new_id) =
            self.take_parts();
        active_ids.push(new_id);
        active_characters.push(c);
        *self = DataStore { active_ids, active_characters, template_characters, next_id: new_id + 1 };
        Some(new_id)
    }

    /// Takes the character with id `id` off the table, when it is there;
    /// the others keep their order.
    pub fn remove_active(&mut self, id: u64) -> (removed: bool)
        ensures
            removed == old(self)@.active_ids.contains(id),
            !final(self)@.active_ids.contains(id),
            final(self)@.next_id == old(self)@.next_id,
            final(self)@.template_characters == old(self)@.template_characters,
            removed ==> exists|i: int|
                0 <= i < old(self)@.active_ids.len() && old(self)@.active_ids[i] == id
                    && final(self)@.active_ids == old(self)@.active_ids.remove(i)
                    && final(self)@.active_characters == old(self)@.active_characters.remove(i),
            !removed ==> final(self)@ == old(self)@,
    {
        proof {
            use_type_invariant(&*self);
        }
        match self.find_active(id) {
            Some(i) => {
                let (mut active_ids, mut active_characters, template_characters, next_id) =
                    self.take_parts();
                active_ids.remove(i);
                active_characters.remove(i);
                proof {
                    assert forall|a: int, b: int|
                        0 <= a < b < active_ids@.len() implies active_ids@[a] != active_ids@[b] by {
                        if b < i {
                        } else if a < i {
                            assert(active_ids@[b] == old(self)@.active_ids[b + 1]);
                        } else {
                            assert(active_ids@[a] == old(self)@.active_ids[a + 1]);
                            assert(active_ids@[b] == old(self)@.active_ids[b + 1]);
                        }
                    }
                    assert forall|a: int| 0 <= a < active_ids@.len() implies active_ids@[a]
                        < next_id by {
                        if a >= i {
                            assert(active_ids@[a] == old(self)@.active_ids[a + 1]);
                        }
                    }
                }
                *self = DataStore { active_ids, active_characters, template_characters, next_id };
                proof {
                    assert forall|j: int| 0 <= j < self@.active_ids.len() implies self@.active_ids[j]
                        != id by {
                        if j < i {
                            assert(old(self)@.active_ids[j] != old(self)@.active_ids[i as int]);
                        } else {
                            assert(old(self)@.active_ids[j + 1] != old(self)@.active_ids[i as int]);
                        }
                    }
                }
                true
            },
            None => false,
        }
    }

    /// Replaces the character with id `id`, when it is on the table, by `c`.
    pub fn replace_active(&mut self, id: u64, c: Character) -> (replaced: bool)
        ensures
            replaced == old(self)@.active_ids.contains(id),
            final(self)@.active_ids == old(self)@.active_ids,
            final(self)@.next_id == old(self)@.next_id,
            final(self)@.template_characters == old(self)@.template_characters,
            replaced ==> exists|i: int|
                0 <= i < old(self)@.active_ids.len() && old(self)@.active_ids[i] == id
                    && final(self)@.active_characters == old(self)@.active_characters.update(i, c),
            !replaced ==> final(self)@ == old(self)@,
    {
        proof {
            use_type_invariant(&*self);
        }
        match self.find_active(id) {
            Some(i) => {
                let (active_ids, mut active_characters, template_characters, next_id) =
                    self.take_parts();
                active_characters.set(i, c);
                *self = DataStore { active_ids, active_characters, template_characters, next_id };
                true
            },
            None => false,
        }
    }

    /// The templates, in the order in which they were saved.
    pub fn templates(&self) -> (templates: &Vec<Character>)
        ensures
            templates@ == self@.template_characters,
    {
        &self.template_characters
    }

    /// The position of the first template named `name`, if any.
    pub fn find_template(&self, name: &String) -> (index: Option<usize>)
        ensures
            first_named(self@.template_characters, name@, index),
    {
        let n = self.template_characters.len();
        for i in 0..n
            invariant
                n == self@.template_characters.len(),
                forall|j: int| 0 <= j < i ==> self@.template_characters[j].name@ != name@,
        {
            if self.template_characters[i].name == *name {
                return Some(i);
            }
        }
        None
    }

    /// Saves `c` as a new template when no template has its name, and gives
    /// its position. Otherwise nothing changes, and the position of the
    /// template of that name comes back with `c`, for the user to decide
    /// whether it replaces that template.
    pub fn save_template(&mut self, c: Character) -> (saved: Result<usize, (usize, Character)>)
        ensures
            final(self)@.active_ids == old(self)@.active_ids,
            final(self)@.active_characters == old(self)@.active_characters,
            final(self)@.next_id == old(self)@.next_id,
            match saved {
                Ok(i) => {
                    &&& first_named(old(self)@.template_characters, c.name@, None)
                    &&& i == old(self)@.template_characters.len()
                    &&& final(self)@.template_characters == old(self)@.template_characters.push(c)
                },
                Err((i, back)) => {
                    &&& first_named(old(self)@.template_characters, c.name@, Some(i))
                    &&& back == c
                    &&& final(self)@.template_characters == old(self)@.template_characters
                },
            },
            names_distinct(old(self)@.template_characters) ==> names_distinct(
                final(self)@.template_characters,
            ),
    {
        match self.find_template(&c.name) {
            Some(i) => Err((i, c)),
            None => {
                let (active_ids, active_characters, mut template_characters, next_id) =
                    self.take_parts();
                let i = template_characters.len();
                template_characters.push(c);
                *self = DataStore { active_ids, active_characters, template_characters, next_id };
                Ok(i)
            },
        }
    }

    /// Replaces the template at `index` by `c`, which has the same name.
    pub fn replace_template(&mut self, index: usize, c: Character)
        requires
            index < old(self)@.template_characters.len(),
            old(self)@.template_characters[index as int].name@ == c.name@,
        ensures
            final(self)@.active_ids == old(self)@.active_ids,
            final(self)@.active_characters == old(self)@.active_characters,
            final(self)@.next_id == old(self)@.next_id,
            final(self)@.template_characters == old(self)@.template_characters.update(index as int, c),
            names_distinct(old(self)@.template_characters) ==> names_distinct(
                final(self)@.template_characters,
            ),
    {
        let (active_ids, active_characters, mut template_characters, next_id) = self.take_parts();
        template_characters.set(index, c);
        *self = DataStore { active_ids, active_characters, template_characters, next_id };
    }

    /// Deletes the template whose position `id` spells, as the template list
    /// shows it; nothing changes when `id` is not such a position.
    pub fn delete_template(&mut self, id: &str) -> (deleted: bool)
        ensures
            final(self)@.active_ids == old(self)@.active_ids,
            final(self)@.active_characters == old(self)@.active_characters,
            final(self)@.next_id == old(self)@.next_id,
            match parsed_integer(id@, true, i32::MIN as int, i32::MAX as int) {
                Some(i) => if 0 <= i < old(self)@.template_characters.len() {
                    deleted && final(self)@.template_characters == old(
                        self,
                    )@.template_characters.remove(i)
                } else {
                    !deleted && final(self)@.template_characters == old(self)@.template_characters
                },
                None => !deleted && final(self)@.template_characters == old(
                    self,
                )@.template_characters,
            },
            names_distinct(old(self)@.template_characters) ==> names_distinct(
                final(self)@.template_characters,
            ),
    {
        match parse_i32(id) {
            Some(i) => {
                if i >= 0 && (i as usize) < self.template_characters.len() {
                    let (active_ids, active_characters, mut template_characters, next_id) =
                        self.take_parts();
                    template_characters.remove(i as usize);
                    *self = DataStore {
                        active_ids,
                        active_characters,
                        template_characters,
                        next_id,
                    };
                    proof {
                        let old_t = old(self)@.template_characters;
                        let new_t = self@.template_characters;
                        assert forall|a: int, b: int|
                            names_distinct(old_t) && 0 <= a < b < new_t.len() implies new_t[a].name@
                            != new_t[b].name@ by {
                            if b < i {
                            } else if a < i {
                                assert(new_t[b] == old_t[b + 1]);
                            } else {
                                assert(new_t[a] == old_t[a + 1]);
                                assert(new_t[b] == old_t[b + 1]);
                            }
                        }
                    }
                    true
                } else {
                    false
                }
            },
            None => false,
        }
    }

    /// The entries of the template list: the id under which each template is
    /// listed, its position in decimal, and its name.
    pub fn template_list(&self) -> (entries: Vec<(String, String)>)
        ensures
            entries@.len() == self@.template_characters.len(),
            forall|i: int|
                0 <= i < entries@.len() ==> (#[trigger] entries@[i]).0@ == decimal_digits(i as nat)
                    && entries@[i].1@ == self@.template_characters[i].name@,
    {
        let n = self.template_characters.len();
        let mut entries: Vec<(String, String)> = Vec::new();
        for i in 0..n
            invariant
                n == self@.template_characters.len(),
                entries@.len() == i,
                forall|j: int|
                    0 <= j < i ==> (#[trigger] entries@[j]).0@ == decimal_digits(j as nat)
                        && entries@[j].1@ == self@.template_characters[j].name@,
        {
            let name = self.template_characters[i].name.clone();
            entries.push((decimal_text(i), name));
        }
        entries
    }
}


/// A character put on the table is found again by the id it was given: the
/// new id sits at the end of the ids, and at no other place.
pub proof fn lemma_added_character_found_again(
    before: StoreView,
    after: StoreView,
    id: u64,
    c: Character,
)
    requires
        ids_valid(after),
        after.active_ids == before.active_ids.push(id),
        after.active_characters == before.active_characters.push(c),
    ensures
        forall|i: int|
            0 <= i < after.active_ids.len() && after.active_ids[i] == id ==> i
                == before.active_ids.len() && after.active_characters[i] == c,
{
    assert forall|i: int| 0 <= i < after.active_ids.len() && after.active_ids[i] == id implies i
        == before.active_ids.len() && after.active_characters[i] == c by {
        let last = before.active_ids.len() as int;
        if i != last {
            assert(after.active_ids[last] == id);
        }
    }
}

} // verus!
