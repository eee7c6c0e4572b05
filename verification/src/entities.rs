//! The art model: named entities, each with named animations, kept in the order in which they
//! were added. A name is used at most once among the entities, and at most once among the
//! animations of an entity.

use crate::sprite::Animation;
use linked_hash_map::LinkedHashMap;
use vstd::prelude::*;

verus! {

/// The linked hash map of the `linked_hash_map` crate (`LinkedHashMap`), known to the library
/// only through [`name_index_entries`] and the wrappers below.
#[verifier::external_type_specification]
#[verifier::external_body]
#[verifier::reject_recursive_types(K)]
#[verifier::reject_recursive_types(V)]
#[verifier::reject_recursive_types(S)]
pub struct ExLinkedHashMap<K, V, S>(LinkedHashMap<K, V, S>);

/// The entries of a name index, in the map's order: each name (as characters) with the position
/// it refers to.
pub uninterp spec fn name_index_entries(m: LinkedHashMap<String, usize>) -> Seq<(Seq<char>, usize)>;

/// Whether `name` is the name of an entry of `entries`.
pub open spec fn has_name(entries: Seq<(Seq<char>, usize)>, name: Seq<char>) -> bool {
    exists|i: int| 0 <= i < entries.len() && (#[trigger] entries[i]).0 == name
}

/// Creates an empty name index (`LinkedHashMap::new`): it has no entries.
#[verifier::external_body]
fn name_index_new() -> (r: LinkedHashMap<String, usize>)
    ensures
        name_index_entries(r) == Seq::<(Seq<char>, usize)>::empty(),
{
    LinkedHashMap::new()
}

/// Tells whether the name index has an entry for `name` (`LinkedHashMap::contains_key`).
#[verifier::external_body]
fn name_index_contains(m: &LinkedHashMap<String, usize>, name: &str) -> (r: bool)
    ensures
        r == has_name(name_index_entries(*m), name@),
{
    m.contains_key(name)
}

/// Adds an entry to the name index (`LinkedHashMap::insert`). A new name is appended at the end
/// of the order. For a name that has an entry, its old position is returned and the entry moves,
/// with the new position, to the end of the order.
#[verifier::external_body]
fn name_index_insert(m: &mut LinkedHashMap<String, usize>, name: String, position: usize) -> (r:
    Option<usize>)
    ensures
        !has_name(name_index_entries(*old(m)), name@) ==> r is None && name_index_entries(*final(m))
            == name_index_entries(*old(m)).push((name@, position)),
        forall|j: int|
            0 <= j < name_index_entries(*old(m)).len() && (#[trigger] name_index_entries(
                *old(m),
            )[j]).0 == name@ ==> r == Some(name_index_entries(*old(m))[j].1)
                && name_index_entries(*final(m)) == name_index_entries(*old(m)).remove(j).push(
                (name@, position),
            ),
{
    m.insert(name, position)
}

/// The position that the name index holds for `name`, if any (`LinkedHashMap::get`).
#[verifier::external_body]
fn name_index_get(m: &LinkedHashMap<String, usize>, name: &str) -> (r: Option<usize>)
    ensures
        r matches Some(position) ==> exists|j: int|
            0 <= j < name_index_entries(*m).len() && (#[trigger] name_index_entries(*m)[j]).0
                == name@ && position == name_index_entries(*m)[j].1,
        r is None <==> !has_name(name_index_entries(*m), name@),
{
    m.get(name).copied()
}

/// The entries of the name index in the map's order (`LinkedHashMap::iter`), names copied.
#[verifier::external_body]
fn name_index_iter(m: &LinkedHashMap<String, usize>) -> (r: Vec<(String, usize)>)
    ensures
        r@.len() == name_index_entries(*m).len(),
        forall|i: int|
            0 <= i < r@.len() ==> (#[trigger] r@[i]).0@ == name_index_entries(*m)[i].0 && r@[i].1
                == name_index_entries(*m)[i].1,
{
    m.iter().map(|(name, position)| (name.clone(), *position)).collect()
}

/// The entries refer to the positions `0, 1, ...` in order, and no name occurs twice.
pub open spec fn index_in_order(entries: Seq<(Seq<char>, usize)>) -> bool {
    &&& forall|i: int| 0 <= i < entries.len() ==> (#[trigger] entries[i]).1 == i
    &&& forall|i: int, j: int|
        0 <= i < j < entries.len() ==> (#[trigger] entries[i]).0 != (#[trigger] entries[j]).0
}

/// A collection of values under distinct names, in the order in which they were added.
pub struct NamedList<T> {
    names: LinkedHashMap<String, usize>,
    values: Vec<T>,
}

impl<T> NamedList<T> {
    /// The names, in order.
    pub closed spec fn spec_names(&self) -> Seq<Seq<char>> {
        name_index_entries(self.names).map_values(|e: (Seq<char>, usize)| e.0)
    }

    /// The values, in the order of their names.
    pub closed spec fn spec_values(&self) -> Seq<T> {
        self.values@
    }

    /// Every name refers to its value, and no name occurs twice.
    pub closed spec fn well_formed(&self) -> bool {
        &&& index_in_order(name_index_entries(self.names))
        &&& name_index_entries(self.names).len() == self.values@.len()
    }

    /// Creates an empty collection.
    pub fn new() -> (r: NamedList<T>)
        ensures
            r.well_formed(),
            r.spec_names() == Seq::<Seq<char>>::empty(),
            r.spec_values() == Seq::<T>::empty(),
    {
        let r = NamedList { names: name_index_new(), values: Vec::new() };
        proof {
            assert(r.spec_names() =~= Seq::<Seq<char>>::empty());
        }
        r
    }

    /// Tells whether a value has the name `name`.
    pub fn contains(&self, name: &str) -> (r: bool)
        requires
            self.well_formed(),
        ensures
            r == self.spec_names().contains(name@),
    {
        let r = name_index_contains(&self.names, name);
        proof {
            let entries = name_index_entries(self.names);
            if r {
                let i = choose|i: int| 0 <= i < entries.len() && (#[trigger] entries[i]).0 == name@;
                assert(self.spec_names()[i] == name@);
            }
            if self.spec_names().contains(name@) {
                let i = choose|i: int|
                    0 <= i < self.spec_names().len() && self.spec_names()[i] == name@;
                assert(entries[i].0 == name@);
            }
        }
        r
    }

    /// Adds `value` under `name` at the end, unless the name is taken; returns whether it was
    /// added.
    pub fn push(&mut self, name: String, value: T) -> (r: bool)
        requires
            old(self).well_formed(),
            old(self).spec_values().len() < usize::MAX,
        ensures
            final(self).well_formed(),
            r == !old(self).spec_names().contains(name@),
            r ==> final(self).spec_names() == old(self).spec_names().push(name@)
                && final(self).spec_values() == old(self).spec_values().push(value),
            !r ==> final(self).spec_names() == old(self).spec_names() && final(self).spec_values()
                == old(self).spec_values(),
    {
        if self.contains(name.as_str()) {
            return false;
        }
        let ghost old_entries = name_index_entries(self.names);
        let ghost name_chars = name@;
        proof {
            self.lemma_name_positions(name_chars);
        }
        let position = self.values.len();
        let _ = name_index_insert(&mut self.names, name, position);
        self.values.push(value);
        proof {
            let entries = name_index_entries(self.names);
            assert(entries == old_entries.push((name_chars, position)));
            assert forall|i: int, j: int|
                0 <= i < j < entries.len() implies (#[trigger] entries[i]).0 != (
                #[trigger] entries[j]).0 by {
                if j == entries.len() - 1 {
                    assert(old(self).spec_names()[i] == old_entries[i].0);
                }
            }
            assert(self.spec_names() =~= old(self).spec_names().push(name_chars));
        }
        true
    }

    /// The names with their values, in order.
    pub fn entries(&self) -> (r: Vec<(String, &T)>)
        requires
            self.well_formed(),
        ensures
            r@.len() == self.spec_names().len(),
            forall|i: int|
                0 <= i < r@.len() ==> (#[trigger] r@[i]).0@ == self.spec_names()[i] && *r@[i].1
                    == self.spec_values()[i],
    {
        let pairs = name_index_iter(&self.names);
        let ghost entries = name_index_entries(self.names);
        let mut out: Vec<(String, &T)> = Vec::new();
        let mut i: usize = 0;
        while i < pairs.len()
            invariant
                self.well_formed(),
                entries == name_index_entries(self.names),
                pairs@.len() == entries.len(),
                entries.len() == self.values@.len(),
                forall|k: int|
                    0 <= k < pairs@.len() ==> (#[trigger] pairs@[k]).0@ == entries[k].0
                        && pairs@[k].1 == entries[k].1,
                i <= pairs@.len(),
                out@.len() == i,
                forall|k: int|
                    0 <= k < i ==> (#[trigger] out@[k]).0@ == entries[k].0 && *out@[k].1
                        == self.values@[k],
            decreases pairs@.len() - i,
        {
            let name = pairs[i].0.clone();
            let position = pairs[i].1;
            assert(entries[i as int].1 == i);
            out.push((name, &self.values[position]));
            i = i + 1;
        }
        out
    }

    /// The value named `name`, if any.
    pub fn get(&self, name: &str) -> (r: Option<&T>)
        requires
            self.well_formed(),
        ensures
            !self.spec_names().contains(name@) ==> r is None,
            forall|i: int|
                0 <= i < self.spec_names().len() && self.spec_names()[i] == name@ ==> r == Some(
                    &self.spec_values()[i],
                ),
    {
        match name_index_get(&self.names, name) {
            Some(position) => {
                proof {
                    self.lemma_name_positions(name@);
                }
                Some(&self.values[position])
            },
            None => {
                proof {
                    self.lemma_name_positions(name@);
                }
                None
            },
        }
    }

    /// The value named `name`, if any, for changing it in place.
    pub fn get_mut(&mut self, name: &str) -> (r: Option<&mut T>)
        requires
            old(self).well_formed(),
        ensures
            final(self).well_formed(),
            final(self).spec_names() == old(self).spec_names(),
            !old(self).spec_names().contains(name@) ==> r is None && final(self).spec_values()
                == old(self).spec_values(),
            forall|i: int|
                0 <= i < old(self).spec_names().len() && old(self).spec_names()[i] == name@
                    ==> (r matches Some(v) && *v == old(self).spec_values()[i]
                    && final(self).spec_values() == old(self).spec_values().update(i, *final(v))),
    {
        proof {
            self.lemma_name_positions(name@);
        }
        match name_index_get(&self.names, name) {
            Some(position) => Some(&mut self.values[position]),
            None => None,
        }
    }

    /// No name occurs twice, and there is one value per name.
    pub proof fn lemma_names_distinct(&self)
        requires
            self.well_formed(),
        ensures
            self.spec_names().len() == self.spec_values().len(),
            forall|i: int, j: int|
                0 <= i < j < self.spec_names().len() ==> self.spec_names()[i]
                    != self.spec_names()[j],
    {
        let entries = name_index_entries(self.names);
        assert forall|i: int, j: int| 0 <= i < j < self.spec_names().len() implies self.spec_names()[i]
            != self.spec_names()[j] by {
            assert(entries[i].0 != entries[j].0);
        }
    }

    /// Where a name occurs among the entries of a well-formed collection.
    proof fn lemma_name_positions(&self, name: Seq<char>)
        requires
            self.well_formed(),
        ensures
            has_name(name_index_entries(self.names), name) <==> self.spec_names().contains(name),
            forall|i: int|
                0 <= i < self.spec_names().len() && self.spec_names()[i] == name ==> forall|j: int|
                    0 <= j < name_index_entries(self.names).len() && (#[trigger] name_index_entries(
                        self.names,
                    )[j]).0 == name ==> j == i && name_index_entries(self.names)[j].1 == i,
    {
        let entries = name_index_entries(self.names);
        if has_name(entries, name) {
            let i = choose|i: int| 0 <= i < entries.len() && (#[trigger] entries[i]).0 == name;
            assert(self.spec_names()[i] == name);
        }
        if self.spec_names().contains(name) {
            let i = choose|i: int| 0 <= i < self.spec_names().len() && self.spec_names()[i] == name;
            assert(entries[i].0 == name);
        }
        assert forall|i: int|
            0 <= i < self.spec_names().len() && self.spec_names()[i] == name implies forall|j: int|
            0 <= j < entries.len() && (#[trigger] entries[j]).0 == name ==> j == i && entries[j].1
                == i by {
            assert forall|j: int| 0 <= j < entries.len() && (#[trigger] entries[j]).0 == name implies j
                == i && entries[j].1 == i by {
                assert(entries[i].0 == name);
                if j < i {
                    assert(entries[j].0 != entries[i].0);
                } else if i < j {
                    assert(entries[i].0 != entries[j].0);
                }
            }
        }
    }
}

/// The message of the error for a name that is taken.
pub open spec fn duplicate_text(kind: Seq<char>, name: Seq<char>) -> Seq<char> {
    "Attempt at adding a duplicate "@ + kind + ": "@ + name
}

/// The named animations of an entity.
pub struct Animations(NamedList<Animation>);

impl Animations {
    /// The names, in the order the animations were added.
    pub closed spec fn spec_names(&self) -> Seq<Seq<char>> {
        self.0.spec_names()
    }

    /// The animations, in the order they were added.
    pub closed spec fn spec_animations(&self) -> Seq<Animation> {
        self.0.spec_values()
    }

    /// Every name refers to its animation, and no name occurs twice.
    pub closed spec fn well_formed(&self) -> bool {
        self.0.well_formed()
    }

    /// Creates an empty collection.
    pub fn new() -> (r: Animations)
        ensures
            r.well_formed(),
            r.spec_names() == Seq::<Seq<char>>::empty(),
            r.spec_animations() == Seq::<Animation>::empty(),
    {
        Animations(NamedList::new())
    }

    /// Adds `animation` under `name`, unless an animation has that name already.
    pub fn push(&mut self, name: &str, animation: Animation) -> (r: Result<(), String>)
        requires
            old(self).well_formed(),
            old(self).spec_animations().len() < usize::MAX,
        ensures
            final(self).well_formed(),
            r is Ok <==> !old(self).spec_names().contains(name@),
            r is Ok ==> final(self).spec_names() == old(self).spec_names().push(name@)
                && final(self).spec_animations() == old(self).spec_animations().push(animation),
            r matches Err(m) ==> m@ == duplicate_text("animation"@, name@) && final(self).spec_names()
                == old(self).spec_names() && final(self).spec_animations()
                == old(self).spec_animations(),
    {
        if self.0.contains(name) {
            let mut text = "Attempt at adding a duplicate animation: ".to_owned();
            text.append(name);
            proof {
                reveal_strlit("Attempt at adding a duplicate animation: ");
                reveal_strlit("Attempt at adding a duplicate ");
                reveal_strlit("animation");
                reveal_strlit(": ");
                assert(text@ =~= duplicate_text("animation"@, name@));
            }
            return Err(text);
        }
        self.0.push(name.to_owned(), animation);
        Ok(())
    }

    /// The names with their animations, in the order they were added.
    pub fn entries(&self) -> (r: Vec<(String, &Animation)>)
        requires
            self.well_formed(),
        ensures
            r@.len() == self.spec_names().len(),
            forall|i: int|
                0 <= i < r@.len() ==> (#[trigger] r@[i]).0@ == self.spec_names()[i] && *r@[i].1
                    == self.spec_animations()[i],
    {
        self.0.entries()
    }
}

/// An entity: something in the game that has animations.
pub struct Entity {
    animations: Animations,
}

impl Entity {
    /// The entity's animations.
    pub closed spec fn spec_animations(&self) -> Animations {
        self.animations
    }

    /// The entity's animations are well formed.
    pub open spec fn well_formed(&self) -> bool {
        self.spec_animations().well_formed()
    }

    /// Creates an entity without animations.
    pub fn new() -> (r: Entity)
        ensures
            r.well_formed(),
            r.spec_animations().spec_names() == Seq::<Seq<char>>::empty(),
            r.spec_animations().spec_animations() == Seq::<Animation>::empty(),
    {
        Entity { animations: Animations::new() }
    }

    /// Retrieves the animations.
    pub fn animations(&self) -> (r: &Animations)
        ensures
            *r == self.spec_animations(),
    {
        &self.animations
    }

    /// Retrieves the animations for changing them.
    pub fn animations_mut(&mut self) -> (r: &mut Animations)
        ensures
            *r == old(self).spec_animations(),
            final(self).spec_animations() == *final(r),
    {
        &mut self.animations
    }
}

/// The named entities of the art model.
pub struct Entities(NamedList<Entity>);

impl Entities {
    /// The names, in the order the entities were added.
    pub closed spec fn spec_names(&self) -> Seq<Seq<char>> {
        self.0.spec_names()
    }

    /// The entities, in the order they were added.
    pub closed spec fn spec_entities(&self) -> Seq<Entity> {
        self.0.spec_values()
    }

    /// Every name refers to its entity, no name occurs twice, and every entity is well formed.
    pub closed spec fn well_formed(&self) -> bool {
        &&& self.0.well_formed()
        &&& forall|i: int|
            0 <= i < self.0.spec_values().len() ==> (#[trigger] self.0.spec_values()[i]).well_formed()
    }

    /// Creates an empty collection.
    pub fn new() -> (r: Entities)
        ensures
            r.well_formed(),
            r.spec_names() == Seq::<Seq<char>>::empty(),
            r.spec_entities() == Seq::<Entity>::empty(),
    {
        Entities(NamedList::new())
    }

    /// Adds `entity` under `name`, unless an entity has that name already.
    pub fn push(&mut self, name: &str, entity: Entity) -> (r: Result<(), String>)
        requires
            old(self).well_formed(),
            entity.well_formed(),
            old(self).spec_entities().len() < usize::MAX,
        ensures
            final(self).well_formed(),
            r is Ok <==> !old(self).spec_names().contains(name@),
            r is Ok ==> final(self).spec_names() == old(self).spec_names().push(name@)
                && final(self).spec_entities() == old(self).spec_entities().push(entity),
            r matches Err(m) ==> m@ == duplicate_text("entity"@, name@) && final(self).spec_names()
                == old(self).spec_names() && final(self).spec_entities()
                == old(self).spec_entities(),
    {
        if self.0.contains(name) {
            let mut text = "Attempt at adding a duplicate entity: ".to_owned();
            text.append(name);
            proof {
                reveal_strlit("Attempt at adding a duplicate entity: ");
                reveal_strlit("Attempt at adding a duplicate ");
                reveal_strlit("entity");
                reveal_strlit(": ");
                assert(text@ =~= duplicate_text("entity"@, name@));
            }
            return Err(text);
        }
        self.0.push(name.to_owned(), entity);
        Ok(())
    }

    /// The names with their entities, in the order they were added.
    pub fn entries(&self) -> (r: Vec<(String, &Entity)>)
        requires
            self.well_formed(),
        ensures
            r@.len() == self.spec_names().len(),
            forall|i: int|
                0 <= i < r@.len() ==> (#[trigger] r@[i]).0@ == self.spec_names()[i] && *r@[i].1
                    == self.spec_entities()[i],
    {
        self.0.entries()
    }

    /// The entity named `name`, if any.
    pub fn get(&self, name: &str) -> (r: Option<&Entity>)
        requires
            self.well_formed(),
        ensures
            !self.spec_names().contains(name@) ==> r is None,
            forall|i: int|
                0 <= i < self.spec_names().len() && self.spec_names()[i] == name@ ==> r == Some(
                    &self.spec_entities()[i],
                ),
    {
        self.0.get(name)
    }

    /// The entity named `name`, if any, for changing it in place. The collection stays well
    /// formed as long as the entity does.
    pub fn get_mut(&mut self, name: &str) -> (r: Option<&mut Entity>)
        requires
            old(self).well_formed(),
        ensures
            final(self).spec_names() == old(self).spec_names(),
            !old(self).spec_names().contains(name@) ==> r is None && final(self).spec_entities()
                == old(self).spec_entities() && final(self).well_formed(),
            forall|i: int|
                0 <= i < old(self).spec_names().len() && old(self).spec_names()[i] == name@
                    ==> (r matches Some(e) && *e == old(self).spec_entities()[i]
                    && final(self).spec_entities() == old(self).spec_entities().update(i, *final(e))
                    && (final(e).well_formed() ==> final(self).well_formed())),
    {
        self.0.get_mut(name)
    }

    /// No two entities share a name, and a name that was added finds the entity added with it.
    pub proof fn lemma_unique_names(&self, name: Seq<char>)
        requires
            self.well_formed(),
        ensures
            self.spec_names().len() == self.spec_entities().len(),
            forall|i: int, j: int|
                0 <= i < j < self.spec_names().len() ==> self.spec_names()[i]
                    != self.spec_names()[j],
            self.spec_names().len() > 0 && self.spec_names().last() == name ==> forall|i: int|
                0 <= i < self.spec_names().len() && self.spec_names()[i] == name ==> i
                    == self.spec_names().len() - 1,
    {
        self.0.lemma_names_distinct();
    }
}

} // verus!
