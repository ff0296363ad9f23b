//! The selectable list: an ordered sequence of items, each carrying a
//! selection flag, with a single wrapping cursor, and the controller
//! step that maps an input event to a mutation of that state.

use vstd::prelude::*;

verus! {

/// One entry of a selectable list: a payload together with its
/// selection flag.
pub struct Item<T> {
    pub value: T,
    pub selected: bool,
}

impl<T> Item<T> {
    /// The value of an item after one toggle: same payload, flag
    /// flipped.
    pub open spec fn toggled(self) -> Item<T> {
        Item { value: self.value, selected: !self.selected }
    }

    /// Wrap a payload; a fresh item is unselected.
    pub fn new(value: T) -> (r: Item<T>)
        ensures
            r == (Item { value, selected: false }),
    {
        Item { value, selected: false }
    }

    /// Flip the selection flag; the payload is untouched.
    pub fn toggle(&mut self)
        ensures
            *final(self) == old(self).toggled(),
    {
        self.selected = !self.selected;
    }
}

/// Toggling twice gives the original item back, whatever its payload
/// and flag.
pub proof fn lemma_toggle_twice<T>(item: Item<T>)
    ensures
        item.toggled().toggled() == item,
{
}

/// A whole candidate sequence wrapped as unselected items.
pub open spec fn wrap_all<T>(values: Seq<T>) -> Seq<Item<T>> {
    values.map_values(|v: T| Item { value: v, selected: false })
}

/// Cursor position after one forward step in a list of length `len`:
/// the successor index, wrapping to the front past the end.
pub open spec fn next_index(i: int, len: int) -> int {
    if i + 1 == len {
        0
    } else {
        i + 1
    }
}

/// Cursor position after one backward step in a list of length `len`:
/// the predecessor index, wrapping to the back before the front.
pub open spec fn prev_index(i: int, len: int) -> int {
    if i == 0 {
        len - 1
    } else {
        i - 1
    }
}

/// The cursor index reached after `n` forward steps from `i` in a
/// list of length `len`.
spec fn advance_n(i: int, len: int, n: nat) -> int
    decreases n,
{
    if n == 0 {
        i
    } else {
        next_index(advance_n(i, len, (n - 1) as nat), len)
    }
}

proof fn lemma_advance_n_value(i: int, len: int, n: nat)
    requires
        0 <= i < len,
        n <= len,
    ensures
        advance_n(i, len, n) == if i + n < len {
            i + n
        } else {
            i + n - len
        },
    decreases n,
{
    if n > 0 {
        lemma_advance_n_value(i, len, (n - 1) as nat);
    }
}

/// The payloads of the selected items, in list order.
pub open spec fn selected_values<T>(items: Seq<Item<T>>) -> Seq<T>
    decreases items.len(),
{
    if items.len() == 0 {
        Seq::empty()
    } else if items.last().selected {
        selected_values(items.drop_last()).push(items.last().value)
    } else {
        selected_values(items.drop_last())
    }
}

/// A discrete input event of the interactive loop, as the controller
/// sees it: the fixed key bindings already resolved, and a render tick
/// kept apart from unknown keys.
#[derive(Clone, Copy, PartialEq, Eq, Structural, Debug)]
pub enum Event {
    /// Confirm the selection and leave the loop.
    Quit,
    /// Move the cursor forward.
    Down,
    /// Move the cursor backward.
    Up,
    /// Flip the item under the cursor, then move forward.
    Toggle,
    /// A periodic render tick: redraw only, no state change.
    Tick,
    /// Any other key: ignored.
    Other,
}

/// The fixed key bindings: `q` quits, `j` moves down, `k` moves up,
/// space toggles; every other key is ignored.
pub fn event_of_key(c: char) -> (e: Event)
    ensures
        e == (if c == 'q' {
            Event::Quit
        } else if c == 'j' {
            Event::Down
        } else if c == 'k' {
            Event::Up
        } else if c == ' ' {
            Event::Toggle
        } else {
            Event::Other
        }),
{
    if c == 'q' {
        Event::Quit
    } else if c == 'j' {
        Event::Down
    } else if c == 'k' {
        Event::Up
    } else if c == ' ' {
        Event::Toggle
    } else {
        Event::Other
    }
}

/// An ordered, indexable sequence of selectable items plus the cursor.
/// Insertion order is the input order and is never changed.
pub struct List<T> {
    pub items: Vec<Item<T>>,
    pub cursor: Option<usize>,
}

impl<T> List<T> {
    /// The cursor is absent exactly on the empty list; otherwise it
    /// lies within the list.
    pub open spec fn inv(self) -> bool {
        match self.cursor {
            Option::None => self.items.len() == 0,
            Option::Some(i) => i < self.items.len(),
        }
    }

    /// The list as it stands after one forward cursor step: the same
    /// items, the cursor on the successor index, wrapping past the
    /// end. The empty list is left as it is.
    pub open spec fn advanced(self) -> List<T> {
        match self.cursor {
            Option::None => self,
            Option::Some(i) => List {
                items: self.items,
                cursor: Option::Some(next_index(i as int, self.items.len() as int) as usize),
            },
        }
    }

    /// The list as it stands after one backward cursor step: the same
    /// items, the cursor on the predecessor index, wrapping before the
    /// front. The empty list is left as it is.
    pub open spec fn retreated(self) -> List<T> {
        match self.cursor {
            Option::None => self,
            Option::Some(i) => List {
                items: self.items,
                cursor: Option::Some(prev_index(i as int, self.items.len() as int) as usize),
            },
        }
    }

    /// The list after `n` forward cursor steps.
    pub open spec fn advanced_n(self, n: nat) -> List<T>
        decreases n,
    {
        if n == 0 {
            self
        } else {
            self.advanced_n((n - 1) as nat).advanced()
        }
    }

    /// Wrap each candidate as an unselected item, in the given order;
    /// the cursor starts on the first item, or nowhere if there is
    /// none.
    pub fn new(values: Vec<T>) -> (r: List<T>)
        ensures
            r.inv(),
            r.items@ == wrap_all(values@),
            r.cursor == (if values@.len() > 0 {
                Option::Some(0usize)
            } else {
                Option::<usize>::None
            }),
    {
        let ghost orig = values@;
        let mut values = values;
        let mut items: Vec<Item<T>> = Vec::new();

        while values.len() > 0
            invariant
                items@.len() + values@.len() == orig.len(),
                items@ == wrap_all(orig.take(items@.len() as int)),
                values@ == orig.skip(items@.len() as int),
            decreases values@.len(),
        {
            let v = values.remove(0);
            items.push(Item::new(v));
            proof {
                let k = items@.len() as int;
                assert(orig.skip(k - 1)[0] == orig[k - 1]);
                assert(v == orig[k - 1]);
                assert(items@ =~= wrap_all(orig.take(k)));
                assert(values@ =~= orig.skip(k));
            }
        }

        proof {
            assert(items@ =~= wrap_all(orig));
        }

        let cursor = if items.len() > 0 {
            Option::Some(0usize)
        } else {
            Option::None
        };
        List { items, cursor }
    }

    /// Move the cursor one step forward, wrapping past the last item;
    /// on the empty list nothing happens. Items are untouched.
    pub fn next(&mut self)
        requires
            old(self).inv(),
        ensures
            final(self).inv(),
            *final(self) == old(self).advanced(),
    {
        match self.cursor {
            Option::Some(i) => {
                let wrapped: usize = if i + 1 == self.items.len() {
                    0
                } else {
                    i + 1
                };
                self.cursor = Option::Some(wrapped);
            },
            Option::None => {},
        }
    }

    /// Move the cursor one step backward, wrapping before the first
    /// item; on the empty list nothing happens. Items are untouched.
    pub fn previous(&mut self)
        requires
            old(self).inv(),
        ensures
            final(self).inv(),
            *final(self) == old(self).retreated(),
    {
        match self.cursor {
            Option::Some(i) => {
                let wrapped: usize = if i == 0 {
                    self.items.len() - 1
                } else {
                    i - 1
                };
                self.cursor = Option::Some(wrapped);
            },
            Option::None => {},
        }
    }

    /// The item under the cursor, or nothing on the empty list.
    pub fn selected(&self) -> (r: Option<&Item<T>>)
        requires
            self.inv(),
        ensures
            match self.cursor {
                Option::None => r is None,
                Option::Some(i) => r is Some && *r->0 == self.items@[i as int],
            },
    {
        match self.cursor {
            Option::Some(i) => Option::Some(&self.items[i]),
            Option::None => Option::None,
        }
    }

    /// Flip the selection flag of the item under the cursor; on the
    /// empty list nothing happens. Length, order and payloads are
    /// untouched, and so is the cursor.
    pub fn toggle_current(&mut self)
        requires
            old(self).inv(),
        ensures
            final(self).inv(),
            final(self).cursor == old(self).cursor,
            match old(self).cursor {
                Option::None => final(self).items == old(self).items,
                Option::Some(i) => final(self).items@ == old(self).items@.update(
                    i as int,
                    old(self).items@[i as int].toggled(),
                ),
            },
    {
        match self.cursor {
            Option::Some(i) => {
                let item = &mut self.items[i];
                item.toggle();
            },
            Option::None => {},
        }
    }

    /// Give the items back, in their original order, each with its
    /// current selection flag. This ends the list's life.
    pub fn into_items(self) -> (r: Vec<Item<T>>)
        ensures
            r@ == self.items@,
    {
        self.items
    }

    /// Consume the list and keep the payloads of the selected items,
    /// in their original order.
    pub fn into_selected(self) -> (r: Vec<T>)
        ensures
            r@ == selected_values(self.items@),
    {
        let ghost orig = self.items@;
        let mut items = self.items;
        let mut out: Vec<T> = Vec::new();

        while items.len() > 0
            invariant
                items@.len() <= orig.len(),
                items@ == orig.skip(orig.len() - items@.len()),
                out@ == selected_values(orig.take(orig.len() - items@.len())),
            decreases items@.len(),
        {
            let ghost p = orig.len() - items@.len();
            let item = items.remove(0);
            proof {
                assert(orig.skip(p as int)[0] == orig[p as int]);
                assert(item == orig[p as int]);
                assert(items@ =~= orig.skip(p + 1));
                assert(orig.take(p + 1).drop_last() =~= orig.take(p as int));
                assert(orig.take(p + 1).last() == orig[p as int]);
            }
            if item.selected {
                out.push(item.value);
            }
        }

        proof {
            assert(orig.take(orig.len() as int) =~= orig);
        }
        out
    }

    /// One controller step: what a single input event does to the
    /// list, and whether the interactive loop is over. Quitting is the
    /// only way out, and the only events that touch the state are the
    /// cursor moves and the toggle, which flips the item under the
    /// cursor and then moves forward.
    pub fn step(&mut self, ev: Event) -> (done: bool)
        requires
            old(self).inv(),
        ensures
            final(self).inv(),
            done == (ev is Quit),
            match ev {
                Event::Down => *final(self) == old(self).advanced(),
                Event::Up => *final(self) == old(self).retreated(),
                Event::Toggle => match old(self).cursor {
                    Option::None => *final(self) == *old(self),
                    Option::Some(i) => final(self).items@ == old(self).items@.update(
                        i as int,
                        old(self).items@[i as int].toggled(),
                    ) && final(self).cursor == Option::Some(
                        next_index(i as int, old(self).items@.len() as int) as usize,
                    ),
                },
                _ => *final(self) == *old(self),
            },
    {
        match ev {
            Event::Quit => true,
            Event::Down => {
                self.next();
                false
            },
            Event::Up => {
                self.previous();
                false
            },
            Event::Toggle => {
                self.toggle_current();
                self.next();
                false
            },
            Event::Tick => false,
            Event::Other => false,
        }
    }
}

proof fn lemma_advanced_n_shape<T>(l: List<T>, n: nat)
    requires
        l.inv(),
        l.cursor is Some,
    ensures
        l.advanced_n(n).items == l.items,
        l.advanced_n(n).cursor is Some,
        0 <= advance_n(l.cursor->0 as int, l.items.len() as int, n) < l.items.len(),
        l.advanced_n(n).cursor->0 == advance_n(l.cursor->0 as int, l.items.len() as int, n),
    decreases n,
{
    if n > 0 {
        lemma_advanced_n_shape(l, (n - 1) as nat);
    }
}

/// Cyclic navigation: advancing a non-empty list as many times as it
/// has items brings the cursor back exactly to its starting position,
/// and the list back to where it started.
pub proof fn lemma_advance_full_cycle<T>(l: List<T>)
    requires
        l.inv(),
        l.items@.len() > 0,
    ensures
        l.advanced_n(l.items@.len() as nat) == l,
{
    let len = l.items@.len() as int;
    let n = l.items@.len() as nat;
    lemma_advanced_n_shape(l, n);
    lemma_advance_n_value(l.cursor->0 as int, len, n);
    assert(l.advanced_n(n).cursor == l.cursor);
}

/// One backward step exactly undoes one forward step on any non-empty
/// list: retreating after advancing restores the list, wherever the
/// cursor stood.
pub proof fn lemma_retreat_undoes_advance<T>(l: List<T>)
    requires
        l.inv(),
        l.items@.len() > 0,
    ensures
        l.advanced().retreated() == l,
{
    assert(l.advanced().retreated().cursor == l.cursor);
}

} // verus!
