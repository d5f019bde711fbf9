//! Ranking of results, shortcut slots, and the list as it is shown.

use vstd::prelude::*;
use vstd::seq_lib::seq_to_set_is_finite;
use vstd::set_lib::{lemma_int_range, lemma_subset_equality, set_int_range};

verus! {

/// How many rows of a list can hold a shortcut.
pub const SHORTCUT_SLOTS: u8 = 5;

/// One candidate that a source offers for the list.
#[derive(Clone, Debug)]
pub struct ResultItem {
    /// The rank key: a lower one is shown further up.
    pub priority: u64,
    pub title: String,
    pub body: String,
    /// What is handed on when the item is activated, in the order it was set.
    pub attributes: Vec<(String, String)>,
    /// Whether the item takes a shortcut slot when one is free.
    pub shortcut: bool,
    /// Whether the item has room for an image that arrives later.
    pub image_slot: bool,
}

/// What a source hands in when the result of a waiting item has arrived.
#[derive(Clone, Debug)]
pub struct AsyncResult {
    pub title: String,
    pub body: String,
    /// What the activation is to carry on, if anything.
    pub next_content: Option<String>,
}

/// The attributes as pairs of texts.
pub open spec fn attrs_view(attributes: Seq<(String, String)>) -> Seq<(Seq<char>, Seq<char>)> {
    Seq::new(attributes.len(), |i: int| (attributes[i].0@, attributes[i].1@))
}

/// Whether some attribute stands under `key`.
pub open spec fn has_key(attributes: Seq<(Seq<char>, Seq<char>)>, key: Seq<char>) -> bool {
    exists|i: int| 0 <= i < attributes.len() && (#[trigger] attributes[i]).0 == key
}

/// The attributes after `key` was set to `value`: what stood under `key`
/// holds `value` now, in its old place; if nothing stood under it, the pair
/// is added at the end.
pub open spec fn with_attribute(attributes: Seq<(Seq<char>, Seq<char>)>, key: Seq<char>, value: Seq<char>) -> Seq<
    (Seq<char>, Seq<char>),
> {
    if has_key(attributes, key) {
        Seq::new(
            attributes.len(),
            |i: int|
                if attributes[i].0 == key {
                    (key, value)
                } else {
                    attributes[i]
                },
        )
    } else {
        attributes.push((key, value))
    }
}

/// A key stands among the first `i + 1` attributes when it stands among the
/// first `i` or at place `i`.
proof fn lemma_has_key_step(attributes: Seq<(Seq<char>, Seq<char>)>, key: Seq<char>, i: int)
    requires
        0 <= i < attributes.len(),
    ensures
        has_key(attributes.take(i + 1), key) == (has_key(attributes.take(i), key) || attributes[i].0 == key),
{
    if has_key(attributes.take(i), key) {
        let w = choose|w: int| 0 <= w < i && (#[trigger] attributes.take(i)[w]).0 == key;
        assert(attributes.take(i + 1)[w].0 == key);
    }
    if attributes[i].0 == key {
        assert(attributes.take(i + 1)[i].0 == key);
    }
    if has_key(attributes.take(i + 1), key) {
        let w = choose|w: int| 0 <= w < i + 1 && (#[trigger] attributes.take(i + 1)[w]).0 == key;
        if w < i {
            assert(attributes.take(i)[w].0 == key);
        }
    }
}

/// The key under which a result leaves what the activation is to carry on.
pub open spec fn next_content_key() -> Seq<char> {
    "next_content"@
}

impl ResultItem {
    /// The attributes as pairs of texts.
    pub open spec fn attrs(&self) -> Seq<(Seq<char>, Seq<char>)> {
        attrs_view(self.attributes@)
    }

    /// `self` is `before` with nothing changed but the attributes.
    pub open spec fn same_but_attributes(&self, before: ResultItem) -> bool {
        &&& self.priority == before.priority
        &&& self.title == before.title
        &&& self.body == before.body
        &&& self.shortcut == before.shortcut
        &&& self.image_slot == before.image_slot
    }

    /// `self` is `before` after `result` was written into it: title and body
    /// are those of the result, and what the result wants carried on stands
    /// among the attributes. Rank and shortcut wish stay.
    pub open spec fn resolved_from(&self, before: ResultItem, result: AsyncResult) -> bool {
        &&& self.priority == before.priority
        &&& self.shortcut == before.shortcut
        &&& self.image_slot == before.image_slot
        &&& self.title@ == result.title@
        &&& self.body@ == result.body@
        &&& self.attrs() == match result.next_content {
            Some(content) => with_attribute(before.attrs(), next_content_key(), content@),
            None => before.attrs(),
        }
    }

    /// Sets the attribute `key` to `value`.
    pub fn set_attribute(&mut self, key: String, value: String)
        ensures
            final(self).attrs() == with_attribute(old(self).attrs(), key@, value@),
            final(self).same_but_attributes(*old(self)),
    {
        let ghost before = self.attrs();
        let mut found = false;
        let mut i: usize = 0;
        while i < self.attributes.len()
            invariant
                i <= self.attributes.len(),
                self.attributes.len() == before.len(),
                self.same_but_attributes(*old(self)),
                before == old(self).attrs(),
                found == has_key(before.take(i as int), key@),
                forall|j: int|
                    0 <= j < i ==> (#[trigger] self.attrs()[j]) == if before[j].0 == key@ {
                        (key@, value@)
                    } else {
                        before[j]
                    },
                forall|j: int| i <= j < before.len() ==> (#[trigger] self.attrs()[j]) == before[j],
            decreases self.attributes.len() - i,
        {
            let ghost seen = self.attrs();
            proof {
                lemma_has_key_step(before, key@, i as int);
                assert(seen[i as int] == before[i as int]);
            }
            if self.attributes[i].0 == key {
                self.attributes[i].1 = value.clone();
                found = true;
            }
            proof {
                assert forall|j: int| 0 <= j < i + 1 implies (#[trigger] self.attrs()[j]) == if before[j].0
                    == key@ {
                    (key@, value@)
                } else {
                    before[j]
                } by {
                    if j < i {
                        assert(self.attrs()[j] == seen[j]);
                    }
                }
                assert forall|j: int| i + 1 <= j < before.len() implies (#[trigger] self.attrs()[j])
                    == before[j] by {
                    assert(self.attrs()[j] == seen[j]);
                }
            }
            i = i + 1;
        }
        proof {
            assert(before.take(before.len() as int) =~= before);
        }
        if !found {
            let ghost seen = self.attrs();
            self.attributes.push((key, value));
            proof {
                assert forall|j: int| 0 <= j < before.len() implies self.attrs()[j] == before[j] by {
                    assert(self.attrs()[j] == seen[j]);
                }
            }
        }
    }

    /// Writes a result that has arrived into the item that waited for it.
    pub fn resolve(&mut self, result: AsyncResult)
        ensures
            final(self).resolved_from(*old(self), result),
    {
        self.title = result.title;
        self.body = result.body;
        match result.next_content {
            Some(content) => {
                self.set_attribute(String::from_str("next_content"), content);
            },
            None => {},
        }
    }
}

/// The rank keys of a list of items, in the order of the items.
pub open spec fn priorities_of(items: Seq<ResultItem>) -> Seq<u64> {
    Seq::new(items.len(), |i: int| items[i].priority)
}

/// `order` lists the first `n` positions of `priorities`, each once, by
/// non-decreasing priority, and positions of equal priority in rising order.
pub open spec fn orders_first(priorities: Seq<u64>, n: int, order: Seq<usize>) -> bool {
    &&& order.len() == n
    &&& n <= priorities.len()
    &&& forall|k: int| 0 <= k < order.len() ==> (#[trigger] order[k]) < n
    &&& forall|a: int, b: int|
        #![trigger order[a], order[b]]
        0 <= a < b < order.len() ==> priorities[order[a] as int] <= priorities[order[b] as int]
    &&& forall|a: int, b: int|
        #![trigger order[a], order[b]]
        0 <= a < b < order.len() && priorities[order[a] as int] == priorities[order[b] as int]
            ==> order[a] < order[b]
}

/// `order` is the stable ascending order of `priorities`: row `k` of the
/// sorted list is the item at position `order[k]` of the input.
pub open spec fn is_stable_order(priorities: Seq<u64>, order: Seq<usize>) -> bool {
    orders_first(priorities, priorities.len() as int, order)
}

/// Every position of the input stands somewhere in its stable order.
pub proof fn lemma_order_covers(priorities: Seq<u64>, order: Seq<usize>, v: int)
    requires
        is_stable_order(priorities, order),
        0 <= v < priorities.len(),
    ensures
        exists|k: int| 0 <= k < order.len() && order[k] == v,
{
    let n = priorities.len() as int;
    let ints = Seq::new(order.len(), |k: int| order[k] as int);
    // No position stands twice in the order, so the order holds as many
    // positions as there are, all of them below `n`: it holds them all.
    assert(ints.no_duplicates());
    ints.unique_seq_to_set();
    lemma_int_range(0, n);
    seq_to_set_is_finite(ints);
    assert(ints.to_set().subset_of(set_int_range(0, n)));
    lemma_subset_equality(ints.to_set(), set_int_range(0, n));
    assert(set_int_range(0, n).contains(v));
    let k = choose|k: int| 0 <= k < ints.len() && ints[k] == v;
    assert(order[k] == v);
}

proof fn lemma_orders_agree_at(priorities: Seq<u64>, o1: Seq<usize>, o2: Seq<usize>, k: int)
    requires
        is_stable_order(priorities, o1),
        is_stable_order(priorities, o2),
        0 <= k < priorities.len(),
    ensures
        o1[k] == o2[k],
    decreases k,
{
    assert forall|j: int| 0 <= j < k implies o1[j] == o2[j] by {
        lemma_orders_agree_at(priorities, o1, o2, j);
    }
    // Each order holds what the other has at row `k`, and not above row
    // `k`, where the two agree. Were it below row `k` in both, the two
    // items would each stand before the other.
    lemma_order_covers(priorities, o2, o1[k] as int);
    lemma_order_covers(priorities, o1, o2[k] as int);
}

/// A list of priorities has one stable order and no other.
pub proof fn lemma_stable_order_unique(priorities: Seq<u64>, o1: Seq<usize>, o2: Seq<usize>)
    requires
        is_stable_order(priorities, o1),
        is_stable_order(priorities, o2),
    ensures
        o1 == o2,
{
    assert forall|k: int| 0 <= k < o1.len() implies o1[k] == o2[k] by {
        lemma_orders_agree_at(priorities, o1, o2, k);
    }
}

/// Computes the stable ascending order of the items' priorities.
pub fn stable_order(items: &Vec<ResultItem>) -> (order: Vec<usize>)
    ensures
        is_stable_order(priorities_of(items@), order@),
{
    let ghost priorities = priorities_of(items@);
    let mut order: Vec<usize> = Vec::new();
    let mut i: usize = 0;
    while i < items.len()
        invariant
            i <= items.len(),
            priorities == priorities_of(items@),
            orders_first(priorities, i as int, order@),
        decreases items.len() - i,
    {
        let p = items[i].priority;
        let mut pos: usize = order.len();
        while pos > 0 && items[order[pos - 1]].priority > p
            invariant
                pos <= order.len(),
                i < items.len(),
                p == items[i as int].priority,
                priorities == priorities_of(items@),
                orders_first(priorities, i as int, order@),
                forall|k: int| pos <= k < order.len() ==> priorities[(#[trigger] order[k]) as int] > p,
            decreases pos,
        {
            pos = pos - 1;
        }
        let ghost before = order@;
        order.insert(pos, i);
        proof {
            // The rows above the new one hold earlier items of no higher
            // priority, the rows below it items of a higher one.
            assert forall|k: int| 0 <= k < pos implies priorities[(#[trigger] before[k]) as int]
                <= p by {}
            assert(orders_first(priorities, i + 1, order@));
        }
        i = i + 1;
    }
    order
}

/// Whether each row of the sorted list asks for a shortcut.
pub open spec fn opt_ins(items: Seq<ResultItem>, order: Seq<usize>) -> Seq<bool> {
    Seq::new(order.len(), |k: int| items[order[k] as int].shortcut)
}

/// How many of the rows above row `k` ask for a shortcut.
pub open spec fn asked_above(wants: Seq<bool>, k: int) -> nat
    decreases k,
{
    if k <= 0 {
        0
    } else {
        asked_above(wants, k - 1) + if wants[k - 1] {
            1nat
        } else {
            0nat
        }
    }
}

/// The shortcut slot of row `k`: the rows that ask for one get the slots
/// from 1 upwards in the order of the list, until the slots run out.
pub open spec fn slot_of(wants: Seq<bool>, k: int) -> Option<u8> {
    if wants[k] && asked_above(wants, k) < SHORTCUT_SLOTS {
        Some((asked_above(wants, k) + 1) as u8)
    } else {
        None
    }
}

/// The shortcut slots of all rows.
pub open spec fn slots_for(wants: Seq<bool>) -> Seq<Option<u8>> {
    Seq::new(wants.len(), |k: int| slot_of(wants, k))
}

/// The count of asking rows does not fall on the way down the list.
pub proof fn lemma_asked_above_rises(wants: Seq<bool>, a: int, b: int)
    requires
        0 <= a <= b,
    ensures
        asked_above(wants, a) <= asked_above(wants, b),
        a < b && wants[a] ==> asked_above(wants, a) < asked_above(wants, b),
    decreases b - a,
{
    if a < b {
        lemma_asked_above_rises(wants, a, b - 1);
    }
}

/// A slot, once given, names one row: no two rows hold the same slot, and
/// every slot is one of the numbers from 1 to the number of slots.
pub proof fn lemma_slot_names_one_row(wants: Seq<bool>, a: int, b: int)
    requires
        0 <= a < wants.len(),
        0 <= b < wants.len(),
        slot_of(wants, a) is Some,
        slot_of(wants, a) == slot_of(wants, b),
    ensures
        a == b,
        1 <= slot_of(wants, a)->0 <= SHORTCUT_SLOTS,
{
    if a < b {
        lemma_asked_above_rises(wants, a, b);
    } else if b < a {
        lemma_asked_above_rises(wants, b, a);
    }
}

/// Gives the rows of the sorted list their shortcut slots.
fn assign_shortcuts(items: &Vec<ResultItem>, order: &Vec<usize>) -> (slots: Vec<Option<u8>>)
    requires
        forall|k: int| 0 <= k < order.len() ==> (#[trigger] order[k]) < items.len(),
    ensures
        slots@ == slots_for(opt_ins(items@, order@)),
{
    let ghost wants = opt_ins(items@, order@);
    let mut slots: Vec<Option<u8>> = Vec::new();
    let mut used: u8 = 0;
    let mut k: usize = 0;
    while k < order.len()
        invariant
            k <= order.len(),
            wants == opt_ins(items@, order@),
            forall|j: int| 0 <= j < order.len() ==> (#[trigger] order[j]) < items.len(),
            used <= SHORTCUT_SLOTS,
            used < SHORTCUT_SLOTS ==> used == asked_above(wants, k as int),
            used == SHORTCUT_SLOTS ==> asked_above(wants, k as int) >= SHORTCUT_SLOTS,
            slots@.len() == k,
            forall|j: int| 0 <= j < k ==> (#[trigger] slots@[j]) == slot_of(wants, j),
        decreases order.len() - k,
    {
        if items[order[k]].shortcut && used < SHORTCUT_SLOTS {
            used = used + 1;
            slots.push(Some(used));
        } else {
            slots.push(None);
        }
        k = k + 1;
    }
    slots
}

/// The list as it is shown: the items of one search in the order they came
/// in, the order in which their rows stand, the shortcut of each row, and
/// the row that has the focus.
#[derive(Clone, Debug)]
pub struct RenderedList {
    /// The items in the order they were handed in.
    pub items: Vec<ResultItem>,
    /// Row `k` shows `items[order[k]]`.
    pub order: Vec<usize>,
    /// The shortcut slot of each row.
    pub shortcuts: Vec<Option<u8>>,
    /// The row that has the focus.
    pub selected: Option<usize>,
    /// How many of the items were complete when the list was built; the
    /// items after them wait for a later result.
    pub ready: usize,
    /// Whether the rows are shown with the entry animation.
    pub animate: bool,
}

impl RenderedList {
    /// The rows stand in the stable order of their priorities, each row has
    /// the shortcut that its place gives it, and the focus is on a row.
    pub open spec fn wf(&self) -> bool {
        &&& is_stable_order(priorities_of(self.items@), self.order@)
        &&& self.shortcuts@ == slots_for(opt_ins(self.items@, self.order@))
        &&& self.ready <= self.items.len()
        &&& match self.selected {
            Some(row) => row < self.order.len(),
            None => true,
        }
    }

    /// The items as their rows stand, from the top.
    pub open spec fn rows(&self) -> Seq<ResultItem> {
        Seq::new(self.order@.len(), |k: int| self.items@[self.order@[k] as int])
    }

    /// The row that a freshly shown list of `n` rows has in focus.
    pub open spec fn first_row(n: nat) -> Option<usize> {
        if n > 0 {
            Some(0usize)
        } else {
            None
        }
    }

    /// `self` is the list that `tiles`, followed by `widgets`, are shown as.
    pub open spec fn shows(&self, tiles: Seq<ResultItem>, widgets: Seq<ResultItem>, animate: bool) -> bool {
        &&& self.wf()
        &&& self.items@ == tiles + widgets
        &&& self.ready == tiles.len()
        &&& self.selected == Self::first_row(self.items@.len())
        &&& self.animate == animate
    }

    /// `self` has the rows of `before`; only the focus may differ.
    pub open spec fn same_rows(&self, before: RenderedList) -> bool {
        &&& self.items == before.items
        &&& self.order == before.order
        &&& self.shortcuts == before.shortcuts
        &&& self.ready == before.ready
        &&& self.animate == before.animate
    }

    /// The focus after a step up: one row higher, and on the first row it stays.
    pub open spec fn row_above(selected: Option<usize>) -> Option<usize> {
        match selected {
            Some(row) => if row > 0 {
                Some((row - 1) as usize)
            } else {
                Some(row)
            },
            None => None,
        }
    }

    /// The focus after a step down in a list of `n` rows: one row lower, and
    /// on the last row it stays.
    pub open spec fn row_below(selected: Option<usize>, n: nat) -> Option<usize> {
        match selected {
            Some(row) => if row + 1 < n {
                Some((row + 1) as usize)
            } else {
                Some(row)
            },
            None => None,
        }
    }

    /// The item that row `row` shows, by its position among the items.
    pub open spec fn item_at(&self, row: int) -> Option<usize> {
        if 0 <= row < self.order.len() {
            Some(self.order[row])
        } else {
            None
        }
    }

    /// The item under the focus.
    pub open spec fn focused_item(&self) -> Option<usize> {
        match self.selected {
            Some(row) => self.item_at(row as int),
            None => None,
        }
    }

    /// Whether `row` is the first row that holds the shortcut `slot`.
    pub open spec fn is_row_of_slot(&self, row: int, slot: u8) -> bool {
        &&& 0 <= row < self.shortcuts.len()
        &&& self.shortcuts[row] == Some(slot)
        &&& forall|j: int| 0 <= j < row ==> (#[trigger] self.shortcuts[j]) != Some(slot)
    }

    /// Whether no row holds the shortcut `slot`.
    pub open spec fn slot_is_free(&self, slot: u8) -> bool {
        forall|j: int| 0 <= j < self.shortcuts.len() ==> (#[trigger] self.shortcuts[j]) != Some(slot)
    }

    /// `item` is what the shortcut `slot` stands for: the item of the row
    /// that holds the slot, and nothing if no row holds it.
    pub open spec fn is_item_of_slot(&self, item: Option<usize>, slot: u8) -> bool {
        ||| self.slot_is_free(slot) && item is None
        ||| exists|row: int| #[trigger] self.is_row_of_slot(row, slot) && item == self.item_at(row)
    }

    /// The number of rows.
    pub fn len(&self) -> (n: usize)
        ensures
            n == self.order.len(),
    {
        self.order.len()
    }

    /// Moves the focus to the first row.
    pub fn focus_first(&mut self)
        ensures
            final(self).same_rows(*old(self)),
            final(self).selected == Self::first_row(old(self).order@.len()),
            old(self).wf() ==> final(self).wf(),
    {
        self.selected = if self.order.len() > 0 {
            Some(0usize)
        } else {
            None
        };
    }

    /// Moves the focus one row up. On the first row it stays where it is.
    pub fn focus_prev(&mut self)
        ensures
            final(self).same_rows(*old(self)),
            final(self).selected == Self::row_above(old(self).selected),
            old(self).wf() ==> final(self).wf(),
    {
        match self.selected {
            Some(row) => {
                if row > 0 {
                    self.selected = Some(row - 1);
                }
            },
            None => {},
        }
    }

    /// Moves the focus one row down. On the last row it stays where it is.
    pub fn focus_next(&mut self)
        ensures
            final(self).same_rows(*old(self)),
            final(self).selected == Self::row_below(old(self).selected, old(self).order@.len()),
            old(self).wf() ==> final(self).wf(),
    {
        let n = self.order.len();
        match self.selected {
            Some(row) => {
                if row < usize::MAX && row + 1 < n {
                    self.selected = Some(row + 1);
                }
            },
            None => {},
        }
    }

    /// The item that row `row` shows.
    pub fn item_of_row(&self, row: usize) -> (item: Option<usize>)
        ensures
            item == self.item_at(row as int),
    {
        if row < self.order.len() {
            Some(self.order[row])
        } else {
            None
        }
    }

    /// The item under the focus.
    pub fn selected_item(&self) -> (item: Option<usize>)
        ensures
            item == self.focused_item(),
    {
        match self.selected {
            Some(row) => self.item_of_row(row),
            None => None,
        }
    }

    /// The row that holds the shortcut `slot`.
    pub fn row_at_slot(&self, slot: u8) -> (row: Option<usize>)
        ensures
            match row {
                Some(r) => self.is_row_of_slot(r as int, slot),
                None => self.slot_is_free(slot),
            },
    {
        let mut k: usize = 0;
        while k < self.shortcuts.len()
            invariant
                k <= self.shortcuts.len(),
                forall|j: int| 0 <= j < k ==> (#[trigger] self.shortcuts[j]) != Some(slot),
            decreases self.shortcuts.len() - k,
        {
            match self.shortcuts[k] {
                Some(s) => {
                    if s == slot {
                        return Some(k);
                    }
                },
                None => {},
            }
            k = k + 1;
        }
        None
    }

    /// The item that the shortcut `slot` stands for.
    pub fn execute_by_index(&self, slot: u8) -> (item: Option<usize>)
        ensures
            self.is_item_of_slot(item, slot),
    {
        match self.row_at_slot(slot) {
            Some(row) => self.item_of_row(row),
            None => None,
        }
    }

    /// A list without rows.
    pub fn empty() -> (list: RenderedList)
        ensures
            list.shows(Seq::empty(), Seq::empty(), false),
    {
        let list = RenderedList {
            items: Vec::new(),
            order: Vec::new(),
            shortcuts: Vec::new(),
            selected: None,
            ready: 0,
            animate: false,
        };
        assert(list.shortcuts@ =~= slots_for(opt_ins(list.items@, list.order@)));
        list
    }

    /// Builds the list for the complete items `tiles` and the waiting items
    /// `async_widgets`: puts them together in that order, sorts them by
    /// priority without changing the order of equals, gives out the
    /// shortcuts, and sets the focus on the first row.
    pub fn build(tiles: Vec<ResultItem>, async_widgets: Option<Vec<ResultItem>>, animate: bool) -> (list:
        RenderedList)
        ensures
            list.shows(
                tiles@,
                match async_widgets {
                    Some(w) => w@,
                    None => Seq::empty(),
                },
                animate,
            ),
    {
        let ready = tiles.len();
        let mut items = tiles;
        match async_widgets {
            Some(widgets) => {
                let mut widgets = widgets;
                items.append(&mut widgets);
            },
            None => {},
        }
        let order = stable_order(&items);
        let shortcuts = assign_shortcuts(&items, &order);
        let selected = if items.len() > 0 {
            Some(0usize)
        } else {
            None
        };
        RenderedList { items, order, shortcuts, selected, ready, animate }
    }
}

/// Two lists built from items with the same priorities and the same wishes
/// for a shortcut have their rows in the same order and give the same rows
/// the same shortcuts.
pub proof fn lemma_build_is_repeatable(first: RenderedList, second: RenderedList)
    requires
        first.wf(),
        second.wf(),
        priorities_of(first.items@) == priorities_of(second.items@),
        forall|i: int| 0 <= i < first.items.len() ==> first.items[i].shortcut == second.items[i].shortcut,
    ensures
        first.order@ == second.order@,
        first.shortcuts@ == second.shortcuts@,
{
    lemma_stable_order_unique(priorities_of(first.items@), first.order@, second.order@);
    assert(opt_ins(first.items@, first.order@) =~= opt_ins(second.items@, second.order@));
}

/// Two lists that show the same items are the same list: the same rows in
/// the same order, the same shortcuts on them, and the same row in focus.
pub proof fn lemma_same_items_same_list(
    first: RenderedList,
    second: RenderedList,
    tiles: Seq<ResultItem>,
    widgets: Seq<ResultItem>,
    animate: bool,
)
    requires
        first.shows(tiles, widgets, animate),
        second.shows(tiles, widgets, animate),
    ensures
        first.rows() == second.rows(),
        first.order@ == second.order@,
        first.shortcuts@ == second.shortcuts@,
        first.selected == second.selected,
{
    lemma_build_is_repeatable(first, second);
}

/// A shortcut leads to the item of the row that holds it, and to no other.
pub proof fn lemma_shortcut_leads_to_its_row(list: RenderedList, row: int, slot: u8, item: Option<usize>)
    requires
        list.wf(),
        0 <= row < list.shortcuts.len(),
        list.shortcuts[row] == Some(slot),
        list.is_item_of_slot(item, slot),
    ensures
        item == Some(list.order[row]),
        1 <= slot <= SHORTCUT_SLOTS,
{
    let wants = opt_ins(list.items@, list.order@);
    let found = choose|found: int| #[trigger] list.is_row_of_slot(found, slot) && item == list.item_at(found);
    lemma_slot_names_one_row(wants, row, found);
}

/// The rows of a list stand by non-decreasing priority, and of two rows with
/// the same priority the one whose item was handed in first stands first.
pub proof fn lemma_rows_sorted_and_stable(list: RenderedList, a: int, b: int)
    requires
        list.wf(),
        0 <= a < b < list.order.len(),
    ensures
        list.rows()[a].priority <= list.rows()[b].priority,
        list.rows()[a].priority == list.rows()[b].priority ==> list.order[a] < list.order[b],
{
    let priorities = priorities_of(list.items@);
    assert(priorities[list.order[a] as int] == priorities[list.order[b] as int] ==> list.order[a]
        < list.order[b]);
}

} // verus!
