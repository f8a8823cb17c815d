//! Character classes and what a ruleset says of each.

use vstd::prelude::*;

verus! {

/// The classes of characters.
#[derive(Clone, Copy, Debug, PartialEq, Eq, Hash, Structural)]
pub enum CharaClass {
    Adventurer,
    Archeologist,
    Civilian,
    Farmer,
    Rogue,
}

impl CharaClass {
    /// The class of a character of whom nothing else is known.
    pub open spec fn fallback() -> CharaClass {
        CharaClass::Civilian
    }

    /// The place of the class in a table of all classes.
    pub open spec fn spec_index(self) -> int {
        match self {
            CharaClass::Adventurer => 0,
            CharaClass::Archeologist => 1,
            CharaClass::Civilian => 2,
            CharaClass::Farmer => 3,
            CharaClass::Rogue => 4,
        }
    }

    /// Computes [`CharaClass::spec_index`].
    fn index(self) -> (i: usize)
        ensures
            i == self.spec_index(),
            i < CLASS_COUNT,
    {
        match self {
            CharaClass::Adventurer => 0,
            CharaClass::Archeologist => 1,
            CharaClass::Civilian => 2,
            CharaClass::Farmer => 3,
            CharaClass::Rogue => 4,
        }
    }
}

impl Default for CharaClass {
    fn default() -> (class: CharaClass)
        ensures
            class == CharaClass::fallback(),
    {
        CharaClass::Civilian
    }
}

/// How many classes there are.
const CLASS_COUNT: usize = 5;

/// What a class adds to or takes from the attributes of a character.
#[derive(Clone, Copy, Debug, PartialEq, Eq, Structural)]
pub struct CharaAttrRevision {
    pub hp: i32,
    pub vit: i16,
    pub dex: i16,
    pub wil: i16,
    pub cha: i16,
    pub spd: i16,
}

/// The rules by which characters of a class are made.
#[derive(Clone, Copy, Debug, PartialEq, Eq, Structural)]
pub struct Class {
    /// What the class changes of the attributes.
    pub revision: CharaAttrRevision,
}

/// The rules of the classes. The fallback class always has rules; a class
/// without rules of its own goes by those.
#[derive(Clone, Debug)]
pub struct Classes {
    /// The rules of the fallback class.
    fallback: Class,
    /// The rules of the other classes, each at the place of its class.
    table: Vec<Option<Class>>,
}

impl View for Classes {
    type V = Map<CharaClass, Class>;

    /// The classes that have rules, each with its rules.
    closed spec fn view(&self) -> Map<CharaClass, Class> {
        Map::new(
            |c: CharaClass| c == CharaClass::fallback() || self.table@[c.spec_index()] is Some,
            |c: CharaClass|
                if c == CharaClass::fallback() {
                    self.fallback
                } else {
                    self.table@[c.spec_index()]->0
                },
        )
    }
}

impl Classes {
    /// The table has a place for every class. Every function that makes or
    /// changes the rules keeps it so.
    pub closed spec fn wf(&self) -> bool {
        self.table@.len() == CLASS_COUNT
    }

    /// The rules that hold for `chara_class`: its own, or those of the
    /// fallback class.
    pub open spec fn rules_of(&self, chara_class: CharaClass) -> Class {
        if self@.contains_key(chara_class) {
            self@[chara_class]
        } else {
            self@[CharaClass::fallback()]
        }
    }

    /// The fallback class always has rules.
    pub proof fn lemma_fallback_present(&self)
        ensures
            self@.contains_key(CharaClass::fallback()),
    {
    }

    /// Rules in which only the fallback class is described, by `fallback`.
    pub fn new(fallback: Class) -> (classes: Classes)
        ensures
            classes.wf(),
            classes@ == Map::<CharaClass, Class>::empty().insert(CharaClass::fallback(), fallback),
    {
        let mut table: Vec<Option<Class>> = Vec::new();
        let mut i: usize = 0;
        while i < CLASS_COUNT
            invariant
                i <= CLASS_COUNT,
                table@.len() == i,
                forall|j: int| 0 <= j < i ==> table@[j] is None,
            decreases CLASS_COUNT - i,
        {
            table.push(None);
            i += 1;
        }
        let classes = Classes { fallback, table };
        assert(classes@ =~= Map::<CharaClass, Class>::empty().insert(
            CharaClass::fallback(),
            fallback,
        ));
        classes
    }

    /// Gives `chara_class` the rules `class`, in place of any it had.
    pub fn insert(&mut self, chara_class: CharaClass, class: Class)
        requires
            old(self).wf(),
        ensures
            final(self).wf(),
            final(self)@ == old(self)@.insert(chara_class, class),
    {
        match chara_class {
            CharaClass::Civilian => {
                self.fallback = class;
            },
            _ => {
                self.table.set(chara_class.index(), Some(class));
            },
        }
    }

    /// The rules that hold for `chara_class`: see [`Classes::rules_of`].
    pub fn get(&self, chara_class: CharaClass) -> (class: &Class)
        requires
            self.wf(),
        ensures
            *class == self.rules_of(chara_class),
    {
        match chara_class {
            CharaClass::Civilian => &self.fallback,
            _ => match &self.table[chara_class.index()] {
                Some(class) => class,
                None => &self.fallback,
            },
        }
    }
}

} // verus!
