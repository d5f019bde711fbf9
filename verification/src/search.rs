//! The search session: one search cycle for each change of the query, the
//! switch between namespaces, and the guard that keeps the results of an
//! abandoned cycle away from the list.

use crate::keys::ConfKeys;
use crate::launcher::Launcher;
use crate::loader::SherlockError;
use crate::mode::{alias_in, modes_of, token_of, Mode, ModeRegistry};
use crate::results::{opt_ins, priorities_of, AsyncResult, RenderedList, ResultItem};
use vstd::prelude::*;

verus! {

/// The mark of one search cycle. Work that was started for a cycle carries
/// its ticket and shows it whenever it wants to write to the session.
#[derive(Clone, Copy, Debug, PartialEq, Eq, Structural)]
pub struct CycleTicket {
    pub generation: u64,
}

/// What is to be done for one search cycle.
#[derive(Clone, Debug)]
pub struct CyclePlan {
    pub ticket: CycleTicket,
    /// The text that the sources are asked for.
    pub query: String,
    /// Whether the home screen is shown.
    pub is_home: bool,
    /// Whether the rows of this cycle may be shown with the entry animation.
    pub animate: bool,
    /// Whether the work of the cycle before is still under way and is to be aborted.
    pub abort_previous: bool,
    /// The sources that answer at once, by their position in the session.
    pub sync_launchers: Vec<usize>,
    /// The sources that answer later, by their position in the session.
    pub async_launchers: Vec<usize>,
}

/// A change of the namespace, as it is to be shown.
#[derive(Clone, Debug)]
pub struct ModeSwitch {
    /// The name of the namespace that is active now.
    pub label: String,
    /// Whether a named namespace is active now.
    pub named: bool,
    /// The search cycle that shows the namespace's first screen.
    pub plan: CyclePlan,
}

/// What a change of the query text led to.
#[derive(Clone, Debug)]
pub enum Change {
    /// The text is searched for.
    Searched(CyclePlan),
    /// The text asked for a namespace: the namespace was entered and the
    /// text is gone.
    Switched(ModeSwitch),
}

/// The state of the search: its sources, its namespaces, the active
/// namespace, the query, the running cycle, and the list that is shown.
#[derive(Clone, Debug)]
pub struct SearchSession {
    pub launchers: Vec<Launcher>,
    pub modes: ModeRegistry,
    pub mode: Mode,
    pub query: String,
    pub custom_binds: ConfKeys,
    /// Whether rows may be shown with the entry animation at all.
    pub animate: bool,
    /// The number of the running cycle.
    pub generation: u64,
    /// Whether the work of the running cycle is under way.
    pub task_running: bool,
    /// Whether the list is that of the running cycle. Between the begin of
    /// a cycle and the hand-in of its items the list of the cycle before is
    /// still shown.
    pub populated: bool,
    pub results: RenderedList,
}

/// Whether `launcher` takes part in a search and answers at once
/// (`deferred` false) or later (`deferred` true).
pub open spec fn takes_part(launcher: Launcher, mode: Option<Seq<char>>, is_home: bool, deferred: bool) -> bool {
    launcher.eligible(mode, is_home) && launcher.spec_is_async() == deferred
}

/// `picked` holds the positions of the sources that take part, each once and
/// in the order in which the sources were registered.
pub open spec fn is_selection(
    launchers: Seq<Launcher>,
    mode: Option<Seq<char>>,
    is_home: bool,
    deferred: bool,
    picked: Seq<usize>,
) -> bool {
    &&& forall|k: int|
        0 <= k < picked.len() ==> (#[trigger] picked[k]) < launchers.len() && takes_part(
            launchers[picked[k] as int],
            mode,
            is_home,
            deferred,
        )
    &&& forall|a: int, b: int| 0 <= a < b < picked.len() ==> (#[trigger] picked[a]) < (#[trigger] picked[b])
    &&& forall|i: int|
        0 <= i < launchers.len() && takes_part(#[trigger] launchers[i], mode, is_home, deferred)
            ==> picked.contains(i as usize)
}

/// The home screen is the empty query under the namespace of all sources.
pub open spec fn at_home(text: Seq<char>, mode: Option<Seq<char>>) -> bool {
    text.len() == 0 && mode is None
}

/// The number of the cycle after cycle `g`. The numbers do not wrap: the
/// last one stays.
pub open spec fn next_generation(g: u64) -> u64 {
    if g < u64::MAX {
        (g + 1) as u64
    } else {
        g
    }
}

/// The namespace that `text` asks for: the alias that stands before its
/// closing blank, if that alias is registered.
pub open spec fn requested_alias(modes: Map<Seq<char>, Seq<char>>, text: Seq<char>) -> Option<Seq<char>> {
    match alias_in(text) {
        Some(alias) => if modes.contains_key(alias) {
            Some(alias)
        } else {
            None
        },
        None => None,
    }
}

/// The name shown for the namespace of all sources.
pub open spec fn all_label() -> Seq<char> {
    "All"@
}

impl CyclePlan {
    /// The plan is the one for the cycle that `session` is in.
    pub open spec fn is_plan_of(&self, session: SearchSession, animate: bool, abort_previous: bool) -> bool {
        &&& self.ticket.generation == session.generation
        &&& self.query@ == session.query@
        &&& self.is_home == at_home(session.query@, session.mode@)
        &&& self.animate == animate
        &&& self.abort_previous == abort_previous
        &&& is_selection(session.launchers@, session.mode@, self.is_home, false, self.sync_launchers@)
        &&& is_selection(session.launchers@, session.mode@, self.is_home, true, self.async_launchers@)
    }
}

impl SearchSession {
    /// The list is in order and the namespaces are those of the sources.
    pub open spec fn wf(&self) -> bool {
        &&& self.results.wf()
        &&& self.modes@ == modes_of(self.launchers@)
    }

    /// Whether work that carries `ticket` may write to the session. Only the
    /// ticket of the running cycle is taken, and none at all once the cycle
    /// numbers are used up.
    pub open spec fn accepts(&self, ticket: CycleTicket) -> bool {
        ticket.generation == self.generation && self.generation < u64::MAX
    }

    /// Whether the cycle of `ticket` is over: a later cycle is running, or
    /// the cycle numbers are used up.
    pub open spec fn left_behind(&self, ticket: CycleTicket) -> bool {
        ticket.generation < self.generation || self.generation == u64::MAX
    }

    /// Whether a result that arrives under `ticket` may be written into
    /// the list: the ticket is taken, and the list is that of its cycle.
    pub open spec fn takes_results(&self, ticket: CycleTicket) -> bool {
        self.accepts(ticket) && self.populated
    }

    /// `self` has the sources, namespaces and bindings of `before`.
    pub open spec fn same_setup(&self, before: SearchSession) -> bool {
        &&& self.launchers == before.launchers
        &&& self.modes == before.modes
        &&& self.custom_binds == before.custom_binds
        &&& self.animate == before.animate
    }

    /// `self` is in the cycle that `before` is in, under the same namespace
    /// and with the same query.
    pub open spec fn same_cycle(&self, before: SearchSession) -> bool {
        &&& self.mode == before.mode
        &&& self.query == before.query
        &&& self.generation == before.generation
        &&& self.task_running == before.task_running
        &&& self.populated == before.populated
    }

    /// `self` is `before` after a new cycle for `text` was begun, and `plan`
    /// is the plan of that cycle. Of the namespace and of the list this says
    /// nothing.
    pub open spec fn begins_cycle(&self, before: SearchSession, text: Seq<char>, animate: bool, plan: CyclePlan) -> bool {
        &&& self.same_setup(before)
        &&& self.generation == next_generation(before.generation)
        &&& self.task_running
        &&& !self.populated
        &&& self.query@ == text
        &&& plan.is_plan_of(*self, animate, before.task_running)
    }

    /// `self` is `before` after the query text became `text`, and `change`
    /// is what that led to: a text that asks for a registered namespace
    /// enters it and is dropped, any other text is searched for under the
    /// namespace as it was. The list stays until results are handed in.
    pub open spec fn takes_change(&self, before: SearchSession, text: Seq<char>, change: Change) -> bool {
        &&& self.results == before.results
        &&& match requested_alias(before.modes@, text) {
            Some(alias) => match change {
                Change::Switched(switch) => {
                    &&& self.mode@ == Some(alias)
                    &&& switch.named
                    &&& switch.label@ == before.modes@[alias]
                    &&& self.begins_cycle(before, Seq::empty(), false, switch.plan)
                },
                Change::Searched(_) => false,
            },
            None => match change {
                Change::Searched(plan) => {
                    &&& self.mode == before.mode
                    &&& self.begins_cycle(before, text, false, plan)
                },
                Change::Switched(_) => false,
            },
        }
    }

    /// The ticket of the running cycle.
    pub fn ticket(&self) -> (t: CycleTicket)
        ensures
            t.generation == self.generation,
    {
        CycleTicket { generation: self.generation }
    }

    /// Decides whether work that carries `ticket` may write to the session.
    pub fn is_current(&self, ticket: CycleTicket) -> (b: bool)
        ensures
            b == self.accepts(ticket),
    {
        ticket.generation == self.generation && self.generation < u64::MAX
    }

    /// Decides whether a result that arrives under `ticket` may be written
    /// into the list.
    pub fn is_listed(&self, ticket: CycleTicket) -> (b: bool)
        ensures
            b == self.takes_results(ticket),
    {
        self.is_current(ticket) && self.populated
    }
}

/// Picks the sources that take part in a search, in the order of their
/// registration.
pub fn select(launchers: &Vec<Launcher>, mode: &Mode, is_home: bool, deferred: bool) -> (picked: Vec<usize>)
    ensures
        is_selection(launchers@, mode@, is_home, deferred, picked@),
{
    let mut picked: Vec<usize> = Vec::new();
    let mut i: usize = 0;
    while i < launchers.len()
        invariant
            i <= launchers.len(),
            forall|k: int|
                0 <= k < picked.len() ==> (#[trigger] picked[k]) < i && takes_part(
                    launchers[picked[k] as int],
                    mode@,
                    is_home,
                    deferred,
                ),
            forall|a: int, b: int| 0 <= a < b < picked.len() ==> (#[trigger] picked[a]) < (#[trigger] picked[b]),
            forall|j: int|
                0 <= j < i && takes_part(#[trigger] launchers[j], mode@, is_home, deferred) ==> picked@.contains(
                    j as usize,
                ),
        decreases launchers.len() - i,
    {
        let ghost before = picked@;
        if launchers[i].is_eligible(mode, is_home) && launchers[i].is_async() == deferred {
            picked.push(i);
            proof {
                assert(picked@[before.len() as int] == i);
            }
        }
        proof {
            assert forall|j: int|
                0 <= j < i + 1 && takes_part(#[trigger] launchers[j], mode@, is_home, deferred) implies picked@.contains(
                j as usize,
            ) by {
                if j < i {
                    let k = choose|k: int| 0 <= k < before.len() && before[k] == j as usize;
                    assert(picked@[k] == j as usize);
                }
            }
        }
        i = i + 1;
    }
    picked
}

/// Begins the search cycle for `current_text` under the active namespace.
///
/// The cycle before is left behind: its ticket is no longer taken, and the
/// plan says whether its work has to be aborted. The plan names the sources
/// that take part, those that answer at once apart from those that answer
/// later. The list stays as it is until the results of the new cycle are
/// handed in.
pub fn async_calc(session: &mut SearchSession, current_text: String, animate: bool) -> (plan: CyclePlan)
    ensures
        final(session).begins_cycle(*old(session), current_text@, animate, plan),
        final(session).mode == old(session).mode,
        final(session).results == old(session).results,
        old(session).wf() ==> final(session).wf(),
{
    let abort_previous = session.task_running;
    if session.generation < u64::MAX {
        session.generation = session.generation + 1;
    }
    session.task_running = true;
    session.populated = false;
    let all = match &session.mode {
        Mode::All => true,
        Mode::Named(_) => false,
    };
    let is_home = current_text.as_str().is_empty() && all;
    let sync_launchers = select(&session.launchers, &session.mode, is_home, false);
    let async_launchers = select(&session.launchers, &session.mode, is_home, true);
    let query = current_text.clone();
    session.query = current_text;
    CyclePlan {
        ticket: CycleTicket { generation: session.generation },
        query,
        is_home,
        animate,
        abort_previous,
        sync_launchers,
        async_launchers,
    }
}

/// Switches to the namespace `parameter` and begins the cycle that shows
/// its first screen.
///
/// If `parameter` is a registered alias, its namespace becomes the active
/// one. Any other word leads back to the namespace of all sources. Either
/// way the query is emptied.
pub fn switch_mode(session: &mut SearchSession, parameter: &String) -> (switch: ModeSwitch)
    ensures
        final(session).begins_cycle(*old(session), Seq::empty(), false, switch.plan),
        switch.named == old(session).modes@.contains_key(parameter@),
        switch.named ==> final(session).mode@ == Some(parameter@) && switch.label@ == old(session).modes@[parameter@],
        !switch.named ==> final(session).mode@ is None && switch.label@ == all_label(),
        final(session).results == old(session).results,
        old(session).wf() ==> final(session).wf(),
{
    let found = match session.modes.lookup(parameter) {
        Some(name) => Some(name.clone()),
        None => None,
    };
    let (label, named) = match found {
        Some(name) => {
            session.mode = Mode::Named(parameter.clone());
            (name, true)
        },
        None => {
            session.mode = Mode::All;
            (String::from_str("All"), false)
        },
    };
    let plan = async_calc(session, String::new(), false);
    ModeSwitch { label, named, plan }
}

/// Goes back to the namespace of all sources and begins the cycle that
/// shows the home screen.
pub fn reset_mode(session: &mut SearchSession) -> (switch: ModeSwitch)
    ensures
        final(session).begins_cycle(*old(session), Seq::empty(), false, switch.plan),
        final(session).mode@ is None,
        switch.plan.is_home,
        !switch.named,
        switch.label@ == all_label(),
        final(session).results == old(session).results,
        old(session).wf() ==> final(session).wf(),
{
    session.mode = Mode::All;
    let plan = async_calc(session, String::new(), false);
    ModeSwitch { label: String::from_str("All"), named: false, plan }
}

/// Takes a change of the query text.
///
/// A text that is a registered alias with one blank behind it asks for that
/// namespace: the namespace is entered, the text is dropped, and the cycle
/// that is begun shows the first screen of the namespace. Any other text
/// leaves the namespace alone and is searched for.
pub fn change_event(session: &mut SearchSession, text: String) -> (change: Change)
    ensures
        final(session).takes_change(*old(session), text@, change),
        old(session).wf() ==> final(session).wf(),
{
    let n = text.as_str().unicode_len();
    if n > 0 && text.as_str().get_char(n - 1) == ' ' {
        let alias = String::from_str(text.as_str().substring_char(0, n - 1));
        if session.modes.lookup(&alias).is_some() {
            let switch = switch_mode(session, &alias);
            return Change::Switched(switch);
        }
    }
    let plan = async_calc(session, text, false);
    Change::Searched(plan)
}

/// The items of the sources that were asked one after the other: the items
/// of each answer in the order of the answers. A source that failed gives
/// nothing, and the others are not touched by it.
pub open spec fn tiles_of(answers: Seq<Result<Vec<ResultItem>, SherlockError>>) -> Seq<ResultItem>
    decreases answers.len(),
{
    if answers.len() == 0 {
        Seq::empty()
    } else {
        tiles_of(answers.drop_last()) + match answers.last() {
            Ok(items) => items@,
            Err(_) => Seq::empty(),
        }
    }
}

/// The waiting items of the sources that gave one, in the order of the answers.
pub open spec fn widgets_among(answers: Seq<(usize, Option<ResultItem>)>) -> Seq<ResultItem>
    decreases answers.len(),
{
    if answers.len() == 0 {
        Seq::empty()
    } else {
        match answers.last().1 {
            Some(item) => widgets_among(answers.drop_last()).push(item),
            None => widgets_among(answers.drop_last()),
        }
    }
}

/// The sources that gave a waiting item, in the order of the answers.
pub open spec fn owners_among(answers: Seq<(usize, Option<ResultItem>)>) -> Seq<usize>
    decreases answers.len(),
{
    if answers.len() == 0 {
        Seq::empty()
    } else {
        match answers.last().1 {
            Some(_) => owners_among(answers.drop_last()).push(answers.last().0),
            None => owners_among(answers.drop_last()),
        }
    }
}

/// The waiting items of a cycle, and for each of them the source that
/// will hand in its result.
#[derive(Clone, Debug)]
pub struct AsyncTiles {
    pub widgets: Vec<ResultItem>,
    /// `owners[i]` is the source of `widgets[i]`, by its position in the session.
    pub owners: Vec<usize>,
}

/// Puts the answers of the sources that answer at once into one list. A
/// failed source adds nothing.
pub fn construct_tiles(answers: Vec<Result<Vec<ResultItem>, SherlockError>>) -> (tiles: Vec<ResultItem>)
    ensures
        tiles@ == tiles_of(answers@),
{
    let mut tiles: Vec<ResultItem> = Vec::new();
    for answer in it: answers
        invariant
            it.seq() == answers@,
            tiles@ == tiles_of(answers@.take(it.index() as int)),
    {
        proof {
            assert(answers@.take(it.index() + 1).drop_last() == answers@.take(it.index() as int));
        }
        match answer {
            Ok(items) => {
                let mut items = items;
                tiles.append(&mut items);
            },
            Err(_) => {},
        }
    }
    proof {
        assert(answers@.take(answers@.len() as int) == answers@);
    }
    tiles
}

/// Keeps the waiting items of the sources that gave one, each with its
/// source. `answers` holds, for each source that answers later, its
/// position in the session and the item it gave, if any.
pub fn construct_widgets(answers: Vec<(usize, Option<ResultItem>)>) -> (tiles: AsyncTiles)
    ensures
        tiles.widgets@ == widgets_among(answers@),
        tiles.owners@ == owners_among(answers@),
{
    let mut widgets: Vec<ResultItem> = Vec::new();
    let mut owners: Vec<usize> = Vec::new();
    for answer in it: answers
        invariant
            it.seq() == answers@,
            widgets@ == widgets_among(answers@.take(it.index() as int)),
            owners@ == owners_among(answers@.take(it.index() as int)),
    {
        proof {
            assert(answers@.take(it.index() + 1).drop_last() == answers@.take(it.index() as int));
        }
        match answer.1 {
            Some(item) => {
                widgets.push(item);
                owners.push(answer.0);
            },
            None => {},
        }
    }
    proof {
        assert(answers@.take(answers@.len() as int) == answers@);
    }
    AsyncTiles { widgets, owners }
}

/// The items that wait for a later result, if any were handed in.
pub open spec fn widgets_of(async_widgets: Option<Vec<ResultItem>>) -> Seq<ResultItem> {
    match async_widgets {
        Some(widgets) => widgets@,
        None => Seq::empty(),
    }
}

/// Where an image that has arrived is to be put.
#[derive(Clone, Copy, Debug, PartialEq, Eq, Structural)]
pub struct ImagePlacement {
    /// The item that takes the image, by its position among the items.
    pub item: usize,
    /// Whether the image is new to the eye and is to be shown as freshly put in.
    pub fresh: bool,
}

impl SearchSession {
    /// The item that waits as number `widget` among the waiting items, by
    /// its position among all items.
    pub open spec fn waiting_item(&self, widget: usize) -> Option<usize> {
        if self.results.ready + widget < self.results.items.len() {
            Some((self.results.ready + widget) as usize)
        } else {
            None
        }
    }

    /// `self` is `before` with item `item` of the list replaced by `now`.
    pub open spec fn rewrites_item(&self, before: SearchSession, item: int, now: ResultItem) -> bool {
        &&& self.same_setup(before)
        &&& self.same_cycle(before)
        &&& self.results.items@ == before.results.items@.update(item, now)
        &&& self.results.order == before.results.order
        &&& self.results.shortcuts == before.results.shortcuts
        &&& self.results.selected == before.results.selected
        &&& self.results.ready == before.results.ready
        &&& self.results.animate == before.results.animate
    }

    /// `self` is `before` after the list for `tiles` and `widgets` was
    /// handed in under `ticket`, and `shown` tells whether it was taken.
    pub open spec fn populates(
        &self,
        before: SearchSession,
        ticket: CycleTicket,
        tiles: Seq<ResultItem>,
        widgets: Seq<ResultItem>,
        animate: bool,
        shown: bool,
    ) -> bool {
        &&& shown == before.accepts(ticket)
        &&& shown ==> {
            &&& self.same_setup(before)
            &&& self.mode == before.mode
            &&& self.query == before.query
            &&& self.generation == before.generation
            &&& self.task_running == before.task_running
            &&& self.populated
            &&& self.results.shows(tiles, widgets, animate && before.animate)
        }
        &&& !shown ==> *self == before
    }

    /// `self` is `before` after `result` was handed in under `ticket` for the
    /// waiting item number `widget`, and `written` names the item that took it.
    pub open spec fn completes(
        &self,
        before: SearchSession,
        ticket: CycleTicket,
        widget: usize,
        result: Option<AsyncResult>,
        written: Option<usize>,
    ) -> bool {
        if before.takes_results(ticket) && before.waiting_item(widget) is Some && result is Some {
            let item = before.waiting_item(widget)->0;
            &&& written == Some(item)
            &&& self.rewrites_item(before, item as int, self.results.items[item as int])
            &&& self.results.items[item as int].resolved_from(before.results.items[item as int], result->0)
        } else {
            &&& written is None
            &&& *self == before
        }
    }

    /// The place for an image that arrives under `ticket` for the waiting
    /// item number `widget`: the item, if the ticket is taken and the item
    /// has room for an image.
    pub open spec fn image_place(&self, ticket: CycleTicket, widget: usize, was_cached: bool) -> Option<
        ImagePlacement,
    > {
        if self.takes_results(ticket) && self.waiting_item(widget) is Some
            && self.results.items[self.waiting_item(widget)->0 as int].image_slot {
            Some(ImagePlacement { item: self.waiting_item(widget)->0, fresh: !was_cached })
        } else {
            None
        }
    }

    /// The waiting item number `widget`, by its position among all items.
    pub fn find_waiting(&self, widget: usize) -> (item: Option<usize>)
        ensures
            item == self.waiting_item(widget),
    {
        let len = self.results.items.len();
        let ready = self.results.ready;
        if ready > len || widget >= len - ready {
            None
        } else {
            Some(ready + widget)
        }
    }
}

/// Hands in the results of the cycle `ticket`: the complete items `tiles`
/// of the sources that answer at once, and the waiting items
/// `async_widgets` of those that answer later.
///
/// Under the ticket of the running cycle the list is replaced by the one
/// built from these items. Under any other ticket nothing happens.
pub fn populate(
    session: &mut SearchSession,
    ticket: CycleTicket,
    tiles: Vec<ResultItem>,
    async_widgets: Option<Vec<ResultItem>>,
    animate: bool,
) -> (shown: bool)
    ensures
        final(session).populates(*old(session), ticket, tiles@, widgets_of(async_widgets), animate, shown),
        old(session).wf() ==> final(session).wf(),
{
    if !session.is_current(ticket) {
        return false;
    }
    session.results = RenderedList::build(tiles, async_widgets, animate && session.animate);
    session.populated = true;
    true
}

/// Hands in the result that a source has produced for its waiting item.
///
/// Under the ticket of the running cycle a result is written into the item
/// that waited for it; the rows and their shortcuts stay as they are. A
/// source that has nothing to say hands in no result, and nothing is
/// written. Under any other ticket nothing happens.
pub fn complete_result(
    session: &mut SearchSession,
    ticket: CycleTicket,
    widget: usize,
    result: Option<AsyncResult>,
) -> (written: Option<usize>)
    ensures
        final(session).completes(*old(session), ticket, widget, result, written),
        old(session).wf() ==> final(session).wf(),
{
    if !session.is_listed(ticket) {
        return None;
    }
    let item = match session.find_waiting(widget) {
        Some(item) => item,
        None => {
            return None;
        },
    };
    match result {
        Some(result) => {
            session.results.items[item].resolve(result);
            proof {
                if old(session).wf() {
                    lemma_rewrite_keeps_rows(old(session).results, session.results, item as int);
                }
            }
            Some(item)
        },
        None => None,
    }
}

/// Decides where an image goes that has arrived for a waiting item.
pub fn complete_image(session: &SearchSession, ticket: CycleTicket, widget: usize, was_cached: bool) -> (placement:
    Option<ImagePlacement>)
    ensures
        placement == session.image_place(ticket, widget, was_cached),
{
    if !session.is_listed(ticket) {
        return None;
    }
    match session.find_waiting(widget) {
        Some(item) => {
            if session.results.items[item].image_slot {
                Some(ImagePlacement { item, fresh: !was_cached })
            } else {
                None
            }
        },
        None => None,
    }
}

/// Notes that the work of the cycle `ticket` has come to its end.
pub fn finish_task(session: &mut SearchSession, ticket: CycleTicket) -> (noted: bool)
    ensures
        noted == old(session).accepts(ticket),
        noted ==> {
            &&& final(session).same_setup(*old(session))
            &&& final(session).mode == old(session).mode
            &&& final(session).query == old(session).query
            &&& final(session).generation == old(session).generation
            &&& final(session).populated == old(session).populated
            &&& final(session).results == old(session).results
            &&& !final(session).task_running
        },
        !noted ==> *final(session) == *old(session),
{
    if !session.is_current(ticket) {
        return false;
    }
    session.task_running = false;
    true
}

/// The token of an alias asks for that alias, and a text that asks for an
/// alias is the token of that alias.
pub proof fn lemma_token_names_alias(text: Seq<char>, alias: Seq<char>)
    ensures
        text == token_of(alias) <==> alias_in(text) == Some(alias),
{
    if text == token_of(alias) {
        assert(text.drop_last() =~= alias);
    }
    if alias_in(text) == Some(alias) {
        assert(text =~= token_of(alias));
    }
}

/// Typing the token of a registered alias enters the namespace of that
/// alias and clears the query.
pub proof fn lemma_token_enters_namespace(
    before: SearchSession,
    after: SearchSession,
    alias: Seq<char>,
    change: Change,
)
    requires
        before.modes@.contains_key(alias),
        after.takes_change(before, token_of(alias), change),
    ensures
        after.mode@ == Some(alias),
        after.query@ == Seq::<char>::empty(),
        change is Switched,
{
    lemma_token_names_alias(token_of(alias), alias);
}

/// Typing a text that is the token of no registered alias leaves the
/// namespace as it is, and the text is searched for.
pub proof fn lemma_other_text_keeps_namespace(
    before: SearchSession,
    after: SearchSession,
    text: Seq<char>,
    change: Change,
)
    requires
        forall|alias: Seq<char>| before.modes@.contains_key(alias) ==> text != #[trigger] token_of(alias),
        after.takes_change(before, text, change),
    ensures
        after.mode == before.mode,
        after.query@ == text,
        change is Searched,
{
    match alias_in(text) {
        Some(alias) => {
            lemma_token_names_alias(text, alias);
        },
        None => {},
    }
}

/// A list whose item `item` was rewritten without a change of its rank or
/// of its wish for a shortcut is still in order.
pub proof fn lemma_rewrite_keeps_rows(before: RenderedList, after: RenderedList, item: int)
    requires
        before.wf(),
        0 <= item < before.items.len(),
        after.items@ == before.items@.update(item, after.items[item]),
        after.items[item].priority == before.items[item].priority,
        after.items[item].shortcut == before.items[item].shortcut,
        after.order == before.order,
        after.shortcuts == before.shortcuts,
        after.selected == before.selected,
        after.ready == before.ready,
    ensures
        after.wf(),
{
    assert(opt_ins(after.items@, after.order@) =~= opt_ins(before.items@, before.order@));
}

/// A result that is written leaves every row where it stands and every
/// shortcut on its row.
pub proof fn lemma_result_keeps_rows(
    before: SearchSession,
    after: SearchSession,
    ticket: CycleTicket,
    widget: usize,
    result: Option<AsyncResult>,
    written: Option<usize>,
)
    requires
        after.completes(before, ticket, widget, result, written),
    ensures
        after.results.order == before.results.order,
        after.results.shortcuts == before.results.shortcuts,
        after.results.selected == before.results.selected,
        priorities_of(after.results.items@) == priorities_of(before.results.items@),
{
}

/// A result changes the item that waited for it and no other, so results
/// may arrive in any order.
pub proof fn lemma_result_touches_one_item(
    before: SearchSession,
    after: SearchSession,
    ticket: CycleTicket,
    widget: usize,
    result: Option<AsyncResult>,
    written: Option<usize>,
    other: int,
)
    requires
        after.completes(before, ticket, widget, result, written),
        0 <= other < before.results.items.len(),
        written != Some(other as usize),
    ensures
        after.results.items[other] == before.results.items[other],
{
}

/// Beginning a new cycle leaves the cycle before, and every cycle before
/// that, behind.
pub proof fn lemma_new_cycle_leaves_the_old_behind(
    before: SearchSession,
    after: SearchSession,
    text: Seq<char>,
    animate: bool,
    plan: CyclePlan,
    late: CycleTicket,
)
    requires
        late.generation <= before.generation,
        after.begins_cycle(before, text, animate, plan),
    ensures
        after.left_behind(late),
{
}

/// A cycle that was left behind stays behind when a further cycle begins.
pub proof fn lemma_left_behind_after_begin(
    before: SearchSession,
    after: SearchSession,
    text: Seq<char>,
    animate: bool,
    plan: CyclePlan,
    late: CycleTicket,
)
    requires
        before.left_behind(late),
        after.begins_cycle(before, text, animate, plan),
    ensures
        after.left_behind(late),
{
}

/// A cycle that was left behind stays behind when the query changes.
pub proof fn lemma_left_behind_after_change(
    before: SearchSession,
    after: SearchSession,
    text: Seq<char>,
    change: Change,
    late: CycleTicket,
)
    requires
        before.left_behind(late),
        after.takes_change(before, text, change),
    ensures
        after.left_behind(late),
{
}

/// A cycle that was left behind stays behind when the items of another
/// cycle are handed in.
pub proof fn lemma_left_behind_after_populate(
    before: SearchSession,
    after: SearchSession,
    ticket: CycleTicket,
    tiles: Seq<ResultItem>,
    widgets: Seq<ResultItem>,
    animate: bool,
    shown: bool,
    late: CycleTicket,
)
    requires
        before.left_behind(late),
        after.populates(before, ticket, tiles, widgets, animate, shown),
    ensures
        after.left_behind(late),
{
}

/// A cycle that was left behind stays behind when a result of another
/// cycle is handed in.
pub proof fn lemma_left_behind_after_result(
    before: SearchSession,
    after: SearchSession,
    ticket: CycleTicket,
    widget: usize,
    result: Option<AsyncResult>,
    written: Option<usize>,
    late: CycleTicket,
)
    requires
        before.left_behind(late),
        after.completes(before, ticket, widget, result, written),
    ensures
        after.left_behind(late),
{
}

/// No stale writes: a result that arrives for a cycle that was left behind
/// changes nothing in the session.
pub proof fn lemma_no_stale_writes(
    before: SearchSession,
    after: SearchSession,
    late: CycleTicket,
    widget: usize,
    result: Option<AsyncResult>,
    written: Option<usize>,
)
    requires
        before.left_behind(late),
        after.completes(before, late, widget, result, written),
    ensures
        after == before,
        written is None,
{
}

/// No stale images: an image that arrives for a cycle that was left behind
/// is put nowhere.
pub proof fn lemma_no_stale_images(session: SearchSession, late: CycleTicket, widget: usize, was_cached: bool)
    requires
        session.left_behind(late),
    ensures
        session.image_place(late, widget, was_cached) is None,
{
}

/// No stale lists: items that are handed in for a cycle that was left
/// behind do not replace the list.
pub proof fn lemma_no_stale_lists(
    before: SearchSession,
    after: SearchSession,
    late: CycleTicket,
    tiles: Seq<ResultItem>,
    widgets: Seq<ResultItem>,
    animate: bool,
    shown: bool,
)
    requires
        before.left_behind(late),
        after.populates(before, late, tiles, widgets, animate, shown),
    ensures
        after == before,
        !shown,
{
}

/// The items of a cycle are shown before any later result of that cycle is
/// written: until the items are handed in, a result is refused even under
/// the ticket of the running cycle.
pub proof fn lemma_results_wait_for_the_list(
    before: SearchSession,
    begun: SearchSession,
    after: SearchSession,
    text: Seq<char>,
    animate: bool,
    plan: CyclePlan,
    widget: usize,
    result: Option<AsyncResult>,
    written: Option<usize>,
)
    requires
        begun.begins_cycle(before, text, animate, plan),
        after.completes(begun, plan.ticket, widget, result, written),
    ensures
        after == begun,
        written is None,
{
}

/// Sets up the search over `launchers` and begins its first cycle: the home
/// screen under the namespace of all sources.
pub fn search(launchers: Vec<Launcher>, custom_binds: ConfKeys, animate: bool) -> (out: (SearchSession, CyclePlan))
    ensures
        out.0.wf(),
        out.0.launchers == launchers,
        out.0.custom_binds == custom_binds,
        out.0.animate == animate,
        out.0.mode@ is None,
        out.0.query@ == Seq::<char>::empty(),
        out.0.generation == 1,
        out.0.task_running,
        !out.0.populated,
        out.0.results.shows(Seq::empty(), Seq::empty(), false),
        out.1.is_plan_of(out.0, true, false),
{
    let modes = ModeRegistry::collect(&launchers);
    let mut session = SearchSession {
        launchers,
        modes,
        mode: Mode::All,
        query: String::new(),
        custom_binds,
        animate,
        generation: 0,
        task_running: false,
        populated: false,
        results: RenderedList::empty(),
    };
    let plan = async_calc(&mut session, String::new(), true);
    (session, plan)
}

} // verus!
