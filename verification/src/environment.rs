//! The environment of a process: a map from the names of variables to values,
//! both byte strings.
use vstd::prelude::*;

use crate::bytes::{bytes_equal, copy_bytes};

verus! {

/// Names and values in order.
pub open spec fn pairs(entries: Seq<(Vec<u8>, Vec<u8>)>) -> Seq<(Seq<u8>, Seq<u8>)> {
    entries.map_values(|entry: (Vec<u8>, Vec<u8>)| (entry.0@, entry.1@))
}

/// The map that gathers names and values: a later value of a name replaces an
/// earlier one.
pub open spec fn gathered(variables: Seq<(Seq<u8>, Seq<u8>)>) -> Map<Seq<u8>, Seq<u8>>
    decreases variables.len(),
{
    if variables.len() == 0 {
        Map::empty()
    } else {
        gathered(variables.drop_last()).insert(variables.last().0, variables.last().1)
    }
}

/// The variables of a process. No name occurs twice.
#[derive(Debug)]
pub struct Environment {
    entries: Vec<(Vec<u8>, Vec<u8>)>,
}

impl View for Environment {
    type V = Map<Seq<u8>, Seq<u8>>;

    closed spec fn view(&self) -> Map<Seq<u8>, Seq<u8>> {
        gathered(pairs(self.entries@))
    }
}

/// In a list without repeated names, each entry is what the map holds.
proof fn lemma_gathered(variables: Seq<(Seq<u8>, Seq<u8>)>)
    ensures
        forall|name: Seq<u8>| #[trigger]
            gathered(variables).contains_key(name) <==> exists|i: int|
                0 <= i < variables.len() && (#[trigger] variables[i]).0 == name,
        (forall|i: int, j: int|
            0 <= i < j < variables.len() ==> (#[trigger] variables[i]).0 != (
            #[trigger] variables[j]).0) ==> forall|i: int|
            0 <= i < variables.len() ==> gathered(variables)[(#[trigger] variables[i]).0]
                == variables[i].1,
    decreases variables.len(),
{
    if variables.len() > 0 {
        let earlier = variables.drop_last();
        lemma_gathered(earlier);
        assert forall|name: Seq<u8>| #[trigger]
            gathered(variables).contains_key(name) <==> exists|i: int|
                0 <= i < variables.len() && (#[trigger] variables[i]).0 == name by {
            if gathered(variables).contains_key(name) {
                if gathered(earlier).contains_key(name) {
                    let i = choose|i: int|
                        0 <= i < earlier.len() && (#[trigger] earlier[i]).0 == name;
                    assert(variables[i].0 == name);
                } else {
                    assert(variables[variables.len() - 1].0 == name);
                }
            }
            if exists|i: int| 0 <= i < variables.len() && (#[trigger] variables[i]).0 == name {
                let i = choose|i: int|
                    0 <= i < variables.len() && (#[trigger] variables[i]).0 == name;
                if i < earlier.len() {
                    assert(earlier[i].0 == name);
                    assert(gathered(earlier).contains_key(name));
                }
            }
        }
        if forall|i: int, j: int|
            0 <= i < j < variables.len() ==> (#[trigger] variables[i]).0 != (
            #[trigger] variables[j]).0 {
            assert forall|i: int, j: int| 0 <= i < j < earlier.len() implies (
            #[trigger] earlier[i]).0 != (#[trigger] earlier[j]).0 by {
                assert(variables[i].0 != variables[j].0);
            }
            assert forall|i: int| 0 <= i < variables.len() implies gathered(variables)[(
            #[trigger] variables[i]).0] == variables[i].1 by {
                if i < earlier.len() {
                    assert(earlier[i] == variables[i]);
                    assert(variables[i].0 != variables[variables.len() - 1].0);
                }
            }
        }
    }
}

impl Environment {
    /// Whether no name occurs twice.
    pub closed spec fn wf(self) -> bool {
        forall|i: int, j: int|
            0 <= i < j < self.entries@.len() ==> (#[trigger] self.entries@[i]).0@ != (
            #[trigger] self.entries@[j]).0@
    }

    /// What the map says in terms of the entries.
    proof fn lemma_entries(self)
        requires
            self.wf(),
        ensures
            forall|name: Seq<u8>| #[trigger]
                self@.contains_key(name) <==> exists|i: int|
                    0 <= i < self.entries@.len() && (#[trigger] self.entries@[i]).0@ == name,
            forall|i: int|
                0 <= i < self.entries@.len() ==> self@[(#[trigger] self.entries@[i]).0@]
                    == self.entries@[i].1@,
    {
        let list = pairs(self.entries@);
        lemma_gathered(list);
        assert forall|i: int, j: int| 0 <= i < j < list.len() implies (#[trigger] list[i]).0 != (
        #[trigger] list[j]).0 by {
            assert(self.entries@[i].0@ != self.entries@[j].0@);
        }
        assert forall|i: int| 0 <= i < self.entries@.len() implies self@[(
        #[trigger] self.entries@[i]).0@] == self.entries@[i].1@ by {
            assert(list[i].0 == self.entries@[i].0@);
        }
        assert forall|name: Seq<u8>| #[trigger]
            self@.contains_key(name) <==> exists|i: int|
                0 <= i < self.entries@.len() && (#[trigger] self.entries@[i]).0@ == name by {
            if self@.contains_key(name) {
                let i = choose|i: int| 0 <= i < list.len() && (#[trigger] list[i]).0 == name;
                assert(self.entries@[i].0@ == name);
            }
            if exists|i: int|
                0 <= i < self.entries@.len() && (#[trigger] self.entries@[i]).0@ == name {
                let i = choose|i: int|
                    0 <= i < self.entries@.len() && (#[trigger] self.entries@[i]).0@ == name;
                assert(list[i].0 == name);
            }
        }
    }

    /// An environment without variables.
    pub fn new() -> (environment: Environment)
        ensures
            environment.wf(),
            environment@ == Map::<Seq<u8>, Seq<u8>>::empty(),
    {
        Environment { entries: Vec::new() }
    }

    /// Where the variable `name` stands.
    fn position(&self, name: &[u8]) -> (found: Option<usize>)
        requires
            self.wf(),
        ensures
            match found {
                Some(i) => i < self.entries@.len() && self.entries@[i as int].0@ == name@,
                None => forall|i: int|
                    0 <= i < self.entries@.len() ==> (#[trigger] self.entries@[i]).0@ != name@,
            },
    {
        let mut i: usize = 0;
        while i < self.entries.len()
            invariant
                i <= self.entries.len(),
                forall|j: int| 0 <= j < i ==> (#[trigger] self.entries@[j]).0@ != name@,
            decreases self.entries.len() - i,
        {
            if bytes_equal(&self.entries[i].0, name) {
                return Some(i);
            }
            i += 1;
        }
        None
    }

    /// The value of a variable.
    pub fn get(&self, name: &[u8]) -> (value: Option<&Vec<u8>>)
        requires
            self.wf(),
        ensures
            match value {
                Some(value) => self@.contains_key(name@) && value@ == self@[name@],
                None => !self@.contains_key(name@),
            },
    {
        proof {
            self.lemma_entries();
        }
        match self.position(name) {
            Some(i) => Some(&self.entries[i].1),
            None => None,
        }
    }

    /// Sets a variable.
    pub fn insert(&mut self, name: Vec<u8>, value: Vec<u8>)
        requires
            old(self).wf(),
        ensures
            final(self).wf(),
            final(self)@ == old(self)@.insert(name@, value@),
    {
        let ghost before = *self;
        let ghost (key, contents) = (name@, value@);
        match self.position(&name) {
            Some(i) => {
                self.entries.set(i, (name, value));
                proof {
                    assert forall|j: int, k: int| 0 <= j < k < self.entries@.len() implies (
                    #[trigger] self.entries@[j]).0@ != (#[trigger] self.entries@[k]).0@ by {
                        assert(before.entries@[j].0@ != before.entries@[k].0@);
                    }
                    before.lemma_entries();
                    self.lemma_entries();
                    let after = before@.insert(key, contents);
                    assert(self.entries@[i as int].0@ == key);
                    assert forall|other: Seq<u8>| self@.contains_key(other)
                        == after.contains_key(other) by {
                        if exists|j: int|
                            0 <= j < self.entries@.len() && (#[trigger] self.entries@[j]).0@
                                == other {
                            let j = choose|j: int|
                                0 <= j < self.entries@.len() && (#[trigger] self.entries@[j]).0@
                                    == other;
                            assert(before.entries@[j].0@ == other);
                        }
                        if exists|j: int|
                            0 <= j < before.entries@.len() && (#[trigger] before.entries@[j]).0@
                                == other {
                            let j = choose|j: int|
                                0 <= j < before.entries@.len() && (
                                #[trigger] before.entries@[j]).0@ == other;
                            assert(self.entries@[j].0@ == other);
                        }
                    }
                    assert forall|other: Seq<u8>| self@.contains_key(other) implies self@[other]
                        == after[other] by {
                        let j = choose|j: int|
                            0 <= j < self.entries@.len() && (#[trigger] self.entries@[j]).0@
                                == other;
                        assert(before.entries@[j].0@ == other);
                        if j != i {
                            assert(self.entries@[j] == before.entries@[j]);
                        }
                    }
                    assert(self@ =~= after);
                }
            },
            None => {
                self.entries.push((name, value));
                proof {
                    assert forall|j: int, k: int| 0 <= j < k < self.entries@.len() implies (
                    #[trigger] self.entries@[j]).0@ != (#[trigger] self.entries@[k]).0@ by {
                        assert(before.entries@[j].0@ != key);
                        if k < before.entries@.len() {
                            assert(before.entries@[j].0@ != before.entries@[k].0@);
                        }
                    }
                    assert(pairs(self.entries@).drop_last() =~= pairs(before.entries@));
                }
            },
        }
    }

    /// Gathers variables. Of a name that occurs more than once, the last value
    /// stays.
    pub fn collect(variables: &Vec<(Vec<u8>, Vec<u8>)>) -> (environment: Environment)
        ensures
            environment.wf(),
            environment@ == gathered(pairs(variables@)),
    {
        let ghost list = pairs(variables@);
        let mut environment = Environment::new();
        let mut i: usize = 0;
        assert(list.take(0) =~= seq![]);
        while i < variables.len()
            invariant
                i <= variables.len(),
                list == pairs(variables@),
                environment.wf(),
                environment@ == gathered(list.take(i as int)),
            decreases variables.len() - i,
        {
            let name = copy_bytes(&variables[i].0);
            let value = copy_bytes(&variables[i].1);
            environment.insert(name, value);
            proof {
                let longer = list.take(i + 1);
                assert(longer.drop_last() =~= list.take(i as int));
                assert(longer.last() == (variables@[i as int].0@, variables@[i as int].1@));
            }
            i += 1;
        }
        assert(list.take(i as int) =~= list);
        environment
    }

    /// The variables, each once, in no particular order.
    pub fn entries(&self) -> (entries: &Vec<(Vec<u8>, Vec<u8>)>)
        requires
            self.wf(),
        ensures
            gathered(pairs(entries@)) == self@,
            forall|i: int, j: int|
                0 <= i < j < entries@.len() ==> (#[trigger] entries@[i]).0@ != (
                #[trigger] entries@[j]).0@,
    {
        &self.entries
    }
}

/// The variables that were gathered are those that occur, each with its last
/// value.
pub proof fn law_last_value_wins(variables: Seq<(Seq<u8>, Seq<u8>)>, name: Seq<u8>)
    ensures
        gathered(variables).contains_key(name) <==> exists|i: int|
            0 <= i < variables.len() && (#[trigger] variables[i]).0 == name,
        forall|i: int|
            0 <= i < variables.len() && (#[trigger] variables[i]).0 == name && (forall|j: int|
                i < j < variables.len() ==> (#[trigger] variables[j]).0 != name)
                ==> gathered(variables)[name] == variables[i].1,
    decreases variables.len(),
{
    lemma_gathered(variables);
    if variables.len() > 0 {
        let earlier = variables.drop_last();
        let last = variables.len() - 1;
        law_last_value_wins(earlier, name);
        assert forall|i: int|
            0 <= i < variables.len() && (#[trigger] variables[i]).0 == name && (forall|j: int|
                i < j < variables.len() ==> (#[trigger] variables[j]).0 != name) implies gathered(
            variables,
        )[name] == variables[i].1 by {
            if i < last {
                assert(variables[last].0 != name);
                assert(earlier[i].0 == name);
                assert forall|j: int| i < j < earlier.len() implies (#[trigger] earlier[j]).0
                    != name by {
                    assert(variables[j].0 != name);
                }
            }
        }
    }
}

/// What is collected from a list of names and values: a variable is found if and
/// only if its name is in the list, and has the last value that stands there.
pub proof fn law_collected_variables_are_found(
    variables: Vec<(Vec<u8>, Vec<u8>)>,
    environment: Environment,
    name: &[u8],
    value: Option<&Vec<u8>>,
)
    requires
        call_ensures(Environment::collect, (&variables,), environment),
        call_ensures(Environment::get, (&environment, name), value),
    ensures
        value is Some <==> exists|i: int|
            0 <= i < variables@.len() && (#[trigger] variables@[i]).0@ == name@,
        forall|i: int|
            0 <= i < variables@.len() && (#[trigger] variables@[i]).0@ == name@ && (forall|j: int|
                i < j < variables@.len() ==> (#[trigger] variables@[j]).0@ != name@)
                ==> value->0@ == variables@[i].1@,
{
    let list = pairs(variables@);
    law_last_value_wins(list, name@);
    assert forall|i: int| 0 <= i < list.len() implies (#[trigger] list[i]) == (
        variables@[i].0@,
        variables@[i].1@,
    ) by {}
    if exists|i: int| 0 <= i < variables@.len() && (#[trigger] variables@[i]).0@ == name@ {
        let i = choose|i: int| 0 <= i < variables@.len() && (#[trigger] variables@[i]).0@ == name@;
        assert(list[i].0 == name@);
    }
    if exists|i: int| 0 <= i < list.len() && (#[trigger] list[i]).0 == name@ {
        let i = choose|i: int| 0 <= i < list.len() && (#[trigger] list[i]).0 == name@;
        assert(variables@[i].0@ == name@);
    }
    assert forall|i: int|
        0 <= i < variables@.len() && (#[trigger] variables@[i]).0@ == name@ && (forall|j: int|
            i < j < variables@.len() ==> (#[trigger] variables@[j]).0@ != name@) implies value->0@
        == variables@[i].1@ by {
        assert(list[i].0 == name@);
        assert forall|j: int| i < j < list.len() implies (#[trigger] list[j]).0 != name@ by {
            assert(variables@[j].0@ != name@);
        }
    }
}

/// Of two settings of a variable the later one counts, and no other variable
/// changes.
pub proof fn law_setting_changes_one_variable(
    environment: &mut Environment,
    name: Vec<u8>,
    value: Vec<u8>,
    other: Seq<u8>,
)
    requires
        call_ensures(Environment::insert, (environment, name, value), ()),
    ensures
        final(environment)@.contains_key(name@) && final(environment)@[name@] == value@,
        other != name@ ==> final(environment)@.contains_key(other) == old(environment)@.contains_key(other),
        other != name@ && old(environment)@.contains_key(other) ==> final(environment)@[other]
            == old(environment)@[other],
{
}

/// The list of an environment holds what its variables are: no name twice, and
/// each value that is found.
pub proof fn law_entries_are_the_variables(
    environment: Environment,
    entries: &Vec<(Vec<u8>, Vec<u8>)>,
    name: &[u8],
    value: Option<&Vec<u8>>,
)
    requires
        call_ensures(Environment::entries, (&environment,), entries),
        call_ensures(Environment::get, (&environment, name), value),
    ensures
        forall|i: int, j: int|
            0 <= i < j < entries@.len() ==> (#[trigger] entries@[i]).0@ != (
            #[trigger] entries@[j]).0@,
        value is Some <==> exists|i: int|
            0 <= i < entries@.len() && (#[trigger] entries@[i]).0@ == name@,
        forall|i: int|
            0 <= i < entries@.len() && (#[trigger] entries@[i]).0@ == name@ ==> value->0@
                == entries@[i].1@,
{
    let list = pairs(entries@);
    lemma_gathered(list);
    assert forall|i: int| 0 <= i < list.len() implies (#[trigger] list[i]) == (
        entries@[i].0@,
        entries@[i].1@,
    ) by {}
    assert forall|i: int, j: int| 0 <= i < j < list.len() implies (#[trigger] list[i]).0 != (
    #[trigger] list[j]).0 by {
        assert(entries@[i].0@ != entries@[j].0@);
    }
    if exists|i: int| 0 <= i < entries@.len() && (#[trigger] entries@[i]).0@ == name@ {
        let i = choose|i: int| 0 <= i < entries@.len() && (#[trigger] entries@[i]).0@ == name@;
        assert(list[i].0 == name@);
    }
    if exists|i: int| 0 <= i < list.len() && (#[trigger] list[i]).0 == name@ {
        let i = choose|i: int| 0 <= i < list.len() && (#[trigger] list[i]).0 == name@;
        assert(entries@[i].0@ == name@);
    }
    assert forall|i: int|
        0 <= i < entries@.len() && (#[trigger] entries@[i]).0@ == name@ implies value->0@
        == entries@[i].1@ by {
        assert(list[i].0 == name@);
    }
}

} // verus!
