//! A small map from events to actions.
//!
//! The map keeps its entries in a list in which no event occurs twice, and
//! is specified by the mathematical map that the list stands for.

use vstd::prelude::*;
use crate::menu::events::UIEvent;
use crate::menu::ui_foundations::ActionType;

verus! {

/// Whether `event` occurs at the place `i` of `entries`.
pub open spec fn occurs_at(entries: Seq<(UIEvent, ActionType)>, event: UIEvent, i: int) -> bool {
    0 <= i < entries.len() && entries[i].0 == event
}

/// Whether no event occurs twice in a list of entries.
pub open spec fn distinct_events(entries: Seq<(UIEvent, ActionType)>) -> bool {
    forall|i: int, j: int|
        0 <= i < j < entries.len() ==> (#[trigger] entries[i]).0 != (#[trigger] entries[j]).0
}

/// The map that a list of entries stands for: an event that occurs in the
/// list has the action that stands beside it, and no other event has one.
pub open spec fn map_of(entries: Seq<(UIEvent, ActionType)>) -> Map<UIEvent, ActionType> {
    Map::new(
        |event: UIEvent| exists|i: int| occurs_at(entries, event, i),
        |event: UIEvent| entries[choose|i: int| occurs_at(entries, event, i)].1,
    )
}

/// In a list without repeated events, the event at a place has the action
/// at that place.
pub proof fn lemma_map_of_entry(entries: Seq<(UIEvent, ActionType)>, i: int)
    requires
        distinct_events(entries),
        0 <= i < entries.len(),
    ensures
        map_of(entries).contains_key(entries[i].0),
        map_of(entries)[entries[i].0] == entries[i].1,
{
    let event = entries[i].0;
    assert(occurs_at(entries, event, i));
    let chosen = choose|k: int| occurs_at(entries, event, k);
    assert(occurs_at(entries, event, chosen));
    assert(chosen == i);
}

/// An event that occurs nowhere in the list has no action.
pub proof fn lemma_map_of_absent(entries: Seq<(UIEvent, ActionType)>, event: UIEvent)
    requires
        forall|i: int| 0 <= i < entries.len() ==> (#[trigger] entries[i]).0 != event,
    ensures
        !map_of(entries).contains_key(event),
{
    assert forall|i: int| !occurs_at(entries, event, i) by {
        if 0 <= i < entries.len() {
            assert(entries[i].0 != event);
        }
    }
}

/// An entry for an event that does not occur yet, put at the end of the
/// list, keeps the list free of repeats and adds the event to the map.
pub proof fn lemma_map_of_push(
    entries: Seq<(UIEvent, ActionType)>,
    event: UIEvent,
    action: ActionType,
)
    requires
        distinct_events(entries),
        forall|i: int| 0 <= i < entries.len() ==> (#[trigger] entries[i]).0 != event,
    ensures
        distinct_events(entries.push((event, action))),
        map_of(entries.push((event, action))) == map_of(entries).insert(event, action),
{
    let grown = entries.push((event, action));
    let last = entries.len() as int;
    assert forall|i: int, j: int| 0 <= i < j < grown.len() implies (#[trigger] grown[i]).0 != (
    #[trigger] grown[j]).0 by {
        if j < last {
            assert(entries[i].0 != entries[j].0);
        } else {
            assert(entries[i].0 != event);
        }
    }
    assert forall|key: UIEvent|
        map_of(grown).contains_key(key) <==> #[trigger] map_of(entries).insert(
            event,
            action,
        ).contains_key(key) by {
        if map_of(grown).contains_key(key) && key != event {
            let i = choose|i: int| occurs_at(grown, key, i);
            assert(occurs_at(entries, key, i));
        }
        if map_of(entries).contains_key(key) {
            let i = choose|i: int| occurs_at(entries, key, i);
            assert(occurs_at(grown, key, i));
        }
        if key == event {
            assert(occurs_at(grown, key, last));
        }
    }
    assert forall|key: UIEvent| #[trigger]
        map_of(grown).contains_key(key) implies map_of(grown)[key] == map_of(entries).insert(
        event,
        action,
    )[key] by {
        let i = choose|i: int| occurs_at(grown, key, i);
        lemma_map_of_entry(grown, i);
        if key != event {
            assert(entries[i] == grown[i]);
            lemma_map_of_entry(entries, i);
        } else {
            lemma_map_of_entry(grown, last);
        }
    }
    assert(map_of(grown) =~= map_of(entries).insert(event, action));
}

/// A new action for the event at the place `i` keeps the list free of
/// repeats and gives the event that action in the map.
pub proof fn lemma_map_of_update(entries: Seq<(UIEvent, ActionType)>, i: int, action: ActionType)
    requires
        distinct_events(entries),
        0 <= i < entries.len(),
    ensures
        distinct_events(entries.update(i, (entries[i].0, action))),
        map_of(entries.update(i, (entries[i].0, action))) == map_of(entries).insert(
            entries[i].0,
            action,
        ),
{
    let event = entries[i].0;
    let changed = entries.update(i, (event, action));
    assert forall|j: int| 0 <= j < changed.len() implies (#[trigger] changed[j]).0
        == entries[j].0 by {}
    assert forall|j: int, k: int| 0 <= j < k < changed.len() implies (#[trigger] changed[j]).0 != (
    #[trigger] changed[k]).0 by {
        assert(entries[j].0 != entries[k].0);
    }
    assert forall|key: UIEvent|
        map_of(changed).contains_key(key) <==> #[trigger] map_of(entries).insert(
            event,
            action,
        ).contains_key(key) by {
        if map_of(changed).contains_key(key) {
            let j = choose|j: int| occurs_at(changed, key, j);
            assert(occurs_at(entries, key, j));
        }
        if map_of(entries).contains_key(key) {
            let j = choose|j: int| occurs_at(entries, key, j);
            assert(occurs_at(changed, key, j));
        }
        if key == event {
            assert(occurs_at(changed, key, i));
        }
    }
    assert forall|key: UIEvent| #[trigger]
        map_of(changed).contains_key(key) implies map_of(changed)[key] == map_of(entries).insert(
        event,
        action,
    )[key] by {
        let j = choose|j: int| occurs_at(changed, key, j);
        lemma_map_of_entry(changed, j);
        if key != event {
            assert(changed[j] == entries[j]);
            lemma_map_of_entry(entries, j);
        } else {
            lemma_map_of_entry(changed, i);
        }
    }
    assert(map_of(changed) =~= map_of(entries).insert(event, action));
}

/// A map from events to actions. Each event has at most one action.
pub struct EventActionMap {
    /// The entries; no event occurs in two of them.
    entries: Vec<(UIEvent, ActionType)>,
}

impl View for EventActionMap {
    type V = Map<UIEvent, ActionType>;

    closed spec fn view(&self) -> Map<UIEvent, ActionType> {
        map_of(self.entries@)
    }
}

impl EventActionMap {
    #[verifier::type_invariant]
    spec fn no_event_twice(&self) -> bool {
        distinct_events(self.entries@)
    }

    /// The empty map.
    pub fn new() -> (map: EventActionMap)
        ensures
            map@ == Map::<UIEvent, ActionType>::empty(),
    {
        let map = EventActionMap { entries: Vec::new() };
        assert(map@ =~= Map::<UIEvent, ActionType>::empty());
        map
    }

    /// The place of `event` among the entries, if it has one.
    fn position(&self, event: &UIEvent) -> (place: Option<usize>)
        ensures
            place matches Some(i) ==> occurs_at(self.entries@, *event, i as int),
            place is None ==> forall|i: int|
                0 <= i < self.entries@.len() ==> (#[trigger] self.entries@[i]).0 != *event,
    {
        let mut i: usize = 0;
        while i < self.entries.len()
            invariant
                i <= self.entries@.len(),
                forall|j: int| 0 <= j < i ==> (#[trigger] self.entries@[j]).0 != *event,
            decreases self.entries@.len() - i,
        {
            if self.entries[i].0 == *event {
                return Some(i);
            }
            i = i + 1;
        }
        None
    }

    /// The action of `event`, if the map holds one.
    pub fn get(&self, event: &UIEvent) -> (action: Option<&ActionType>)
        ensures
            action matches Some(found) ==> self@.contains_key(*event) && self@[*event] == *found,
            action is None ==> !self@.contains_key(*event),
    {
        proof {
            use_type_invariant(self);
        }
        match self.position(event) {
            Some(i) => {
                proof {
                    lemma_map_of_entry(self.entries@, i as int);
                }
                Some(&self.entries[i].1)
            },
            None => {
                proof {
                    lemma_map_of_absent(self.entries@, *event);
                }
                None
            },
        }
    }

    /// Gives `event` the action `action`, in place of the one it had, and
    /// returns the action that it had.
    pub fn insert(&mut self, event: UIEvent, action: ActionType) -> (previous: Option<ActionType>)
        ensures
            final(self)@ == old(self)@.insert(event, action),
            previous matches Some(replaced) ==> old(self)@.contains_key(event) && old(self)@[event]
                == replaced,
            previous is None ==> !old(self)@.contains_key(event),
    {
        proof {
            use_type_invariant(&*self);
        }
        let place = self.position(&event);
        // The list leaves the map while it changes, and comes back whole.
        let mut entries: Vec<(UIEvent, ActionType)> = Vec::new();
        std::mem::swap(&mut self.entries, &mut entries);
        let previous = match place {
            Some(i) => {
                let replaced = entries[i].1;
                proof {
                    lemma_map_of_entry(entries@, i as int);
                    lemma_map_of_update(entries@, i as int, action);
                }
                entries[i] = (event, action);
                Some(replaced)
            },
            None => {
                proof {
                    lemma_map_of_absent(entries@, event);
                    lemma_map_of_push(entries@, event, action);
                }
                entries.push((event, action));
                None
            },
        };
        std::mem::swap(&mut self.entries, &mut entries);
        previous
    }
}

} // verus!
