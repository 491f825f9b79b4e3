//! What the window watcher last said of each display.

use vstd::prelude::*;

verus! {

/// The last window flags of each display, by its name.
#[derive(Debug)]
pub struct WindowStates {
    pub entries: Vec<(String, u32)>,
}

impl WindowStates {
    /// No display occurs twice.
    pub open spec fn wf(self) -> bool {
        forall|left: int, right: int|
            0 <= left < right < self.entries@.len() ==> (#[trigger] self.entries@[left]).0@ != (
            #[trigger] self.entries@[right]).0@
    }

    /// Whether something is known of a display.
    pub open spec fn knows(self, name: Seq<char>) -> bool {
        exists|index: int|
            0 <= index < self.entries@.len() && (#[trigger] self.entries@[index]).0@ == name
    }

    /// The flags of a display that is known.
    pub open spec fn flags_of(self, name: Seq<char>) -> u32 {
        self.entries@[choose|index: int|
            0 <= index < self.entries@.len() && (#[trigger] self.entries@[index]).0@ == name].1
    }
}

impl View for WindowStates {
    type V = Map<Seq<char>, u32>;

    open spec fn view(&self) -> Map<Seq<char>, u32> {
        Map::new(|name: Seq<char>| self.knows(name), |name: Seq<char>| self.flags_of(name))
    }
}

impl WindowStates {
    /// Nothing known yet.
    pub fn new() -> (states: WindowStates)
        ensures
            states.wf(),
            states@ == Map::<Seq<char>, u32>::empty(),
    {
        let states = WindowStates { entries: Vec::new() };
        assert(states@ =~= Map::<Seq<char>, u32>::empty());
        states
    }

    fn find(&self, name: &String) -> (found: Option<usize>)
        ensures
            found matches Some(index) ==> index < self.entries@.len()
                && self.entries@[index as int].0@ == name@,
            found is None ==> !self.knows(name@),
    {
        for index in 0..self.entries.len()
            invariant
                forall|at: int| 0 <= at < index ==> (#[trigger] self.entries@[at]).0@ != name@,
        {
            if self.entries[index].0 == *name {
                return Some(index);
            }
        }
        None
    }

    /// Remembers the flags of a display.
    pub fn insert(&mut self, name: String, flags: u32)
        requires
            old(self).wf(),
        ensures
            final(self).wf(),
            final(self)@ == old(self)@.insert(name@, flags),
    {
        let ghost before = *self;
        let ghost text = name@;
        match self.find(&name) {
            Some(index) => {
                self.entries.set(index, (name, flags));
            },
            None => {
                self.entries.push((name, flags));
            },
        }
        proof {
            assert forall|other: Seq<char>| #[trigger] self.knows(other) == (before.knows(other)
                || other == text) by {
                if before.knows(other) {
                    let at = choose|at: int|
                        0 <= at < before.entries@.len() && (#[trigger] before.entries@[at]).0@
                            == other;
                    assert(self.entries@[at].0@ == other);
                }
                if self.knows(other) {
                    let at = choose|at: int|
                        0 <= at < self.entries@.len() && (#[trigger] self.entries@[at]).0@ == other;
                    if at < before.entries@.len() {
                        assert(before.entries@[at].0@ == other);
                    }
                }
                if other == text {
                    if before.knows(text) {
                        let at = choose|at: int|
                            0 <= at < before.entries@.len() && (#[trigger] before.entries@[at]).0@
                                == text;
                        assert(self.entries@[at].0@ == text);
                    } else {
                        assert(self.entries@[before.entries@.len() as int].0@ == text);
                    }
                }
            }
            assert forall|other: Seq<char>| #[trigger] self.knows(other) implies self.flags_of(other)
                == (if other == text {
                flags
            } else {
                before.flags_of(other)
            }) by {
                let at = choose|at: int|
                    0 <= at < self.entries@.len() && (#[trigger] self.entries@[at]).0@ == other;
                if other != text {
                    let prior = choose|at: int|
                        0 <= at < before.entries@.len() && (#[trigger] before.entries@[at]).0@
                            == other;
                    assert(at < before.entries@.len());
                    assert(before.entries@[at].0@ == other);
                    assert(before.entries@[prior].0@ == other);
                    assert(at == prior);
                }
            }
            let updated = before@.insert(text, flags);
            assert forall|other: Seq<char>| #[trigger] self@.dom().contains(other)
                == updated.dom().contains(other) by {
                assert(self@.dom().contains(other) == self.knows(other));
                assert(before@.dom().contains(other) == before.knows(other));
            }
            assert(self@.dom() =~= updated.dom());
            assert forall|other: Seq<char>| #[trigger] self@.dom().contains(other) implies self@[other]
                == updated[other] by {
                assert(self.knows(other));
            }
            assert(self@ =~= updated);
        }
    }

    /// The flags of a display, where they are known.
    pub fn get(&self, name: &String) -> (flags: Option<u32>)
        requires
            self.wf(),
        ensures
            flags == (if self@.dom().contains(name@) {
                Some(self@[name@])
            } else {
                None
            }),
    {
        match self.find(name) {
            Some(index) => {
                proof {
                    assert(self.knows(name@));
                    let chosen = choose|at: int|
                        0 <= at < self.entries@.len() && (#[trigger] self.entries@[at]).0@ == name@;
                    assert(self.entries@[chosen].0@ == name@);
                    assert(chosen == index);
                }
                Some(self.entries[index].1)
            },
            None => None,
        }
    }
}

/// Whether a place is that of the first display with a name, or there is none.
pub open spec fn is_first_named(names: Seq<String>, name: Seq<char>, found: Option<usize>) -> bool {
    match found {
        Some(index) => index < names.len() && names[index as int]@ == name && forall|earlier: int|
            0 <= earlier < index ==> (#[trigger] names[earlier])@ != name,
        None => forall|index: int| 0 <= index < names.len() ==> (#[trigger] names[index])@ != name,
    }
}

/// The first of the displays with a name, where there is one.
pub fn find_display(names: &Vec<String>, name: &String) -> (found: Option<usize>)
    ensures
        is_first_named(names@, name@, found),
{
    for index in 0..names.len()
        invariant
            forall|earlier: int|
                0 <= earlier < index ==> (#[trigger] names@[earlier])@ != name@,
    {
        if names[index] == *name {
            return Some(index);
        }
    }
    None
}

/// What was said last of a display is what is known of it, and saying something of one
/// display leaves the others as they were.
pub proof fn last_word_on_a_display_counts(
    states: &mut WindowStates,
    name: String,
    flags: u32,
    asked: String,
    before: Option<u32>,
    after: Option<u32>,
)
    requires
        old(states).wf(),
        call_ensures(WindowStates::insert, (states, name, flags), ()),
        call_ensures(WindowStates::get, (&*old(states), &asked), before),
        call_ensures(WindowStates::get, (&*final(states), &asked), after),
    ensures
        asked@ == name@ ==> after == Some(flags),
        asked@ != name@ ==> after == before,
{
}

/// Nothing is known of any display at first.
pub proof fn nothing_is_known_at_first(states: WindowStates, asked: String, known: Option<u32>)
    requires
        call_ensures(WindowStates::new, (), states),
        call_ensures(WindowStates::get, (&states, &asked), known),
    ensures
        known is None,
{
}

/// A display is found by its name wherever there is one of that name.
pub proof fn displays_are_found_by_name(
    names: Vec<String>,
    name: String,
    found: Option<usize>,
    index: int,
)
    requires
        call_ensures(find_display, (&names, &name), found),
        0 <= index < names@.len(),
    ensures
        found matches Some(place) ==> place < names@.len() && names@[place as int]@ == name@,
        names@[index]@ == name@ ==> found is Some && found->0 <= index,
{
}

} // verus!
