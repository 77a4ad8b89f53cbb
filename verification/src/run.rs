use crate::config::Scraper;
use crate::driver::{
    all_extract, attempted, entries_of, fetch_all_items, find_next_page, goto_page, has_next_page,
    listing_of, load_elements, load_plan, notice_views, notices_of, page_url, page_yield,
    records_of, views_of, LoadAction, Notice, NoticeView,
};
use crate::error::ScrapeError;
use crate::item::{
    is_listing, lemma_record_is_listing, ComponentView, ShopItem, ShopItemComponent, ShopItemView,
};
use vstd::prelude::*;

verus! {

/// Where a run stands: what it is waiting for, or how it ended.
#[derive(Clone, Copy, Debug, PartialEq, Eq, Structural)]
pub enum Phase {
    /// The session is on its way to the current page.
    Navigating,
    /// The session carries out step `step` of the loading plan.
    Loading { step: usize },
    /// The session looks for the listing entries of the page.
    Extracting,
    /// The sink takes the records of the page. As soon as it has, the limit
    /// is looked at.
    Emitting,
    /// The session looks for the control that leads to the last page.
    PageCheck,
    /// The run rests before it opens the next page.
    Pausing,
    /// The run is over: the limit was passed or no page follows.
    Done,
    /// The run was given up.
    Failed(ScrapeError),
}

/// A run between two events.
#[derive(Debug)]
pub struct RunState {
    /// What the run is waiting for.
    pub phase: Phase,
    /// Number of the page that is being worked on; the first page is 1.
    pub current_page: u8,
    /// Number of listing entries that extraction got to, over all pages.
    pub total_items_seen: u32,
    /// Number of entries after which no further page is opened; zero lifts
    /// the limit.
    pub limit: u32,
    /// Milliseconds to rest between two pages.
    pub delay: u64,
    /// Address of the category that is scraped.
    pub category: String,
}

/// What the caller is asked to do next.
#[derive(Debug)]
pub enum Action {
    /// Open this address.
    Navigate(String),
    /// Carry out this step of the loading plan.
    Load(LoadAction),
    /// Look up the listing entries of the page and what stands under each.
    QueryItems,
    /// Hand these records to the sink, in this order, and flush it.
    Emit(Vec<ShopItem>),
    /// Look up the control that leads to the last page.
    QueryNextPage,
    /// Rest for so many milliseconds.
    Pause { millis: u64 },
    /// Leave the loop: the run is complete.
    Stop,
    /// Leave the loop: the run failed for this reason.
    Abort(ScrapeError),
}

/// What came of the action that was asked for last.
#[derive(Debug)]
pub enum Event {
    /// The action was carried out and has nothing to tell.
    Completed,
    /// The action could not be carried out.
    Failed,
    /// The listing entries that were found, in document order.
    Elements(Vec<ShopItemComponent>),
    /// The control that leads to the last page was found; this is its class
    /// attribute, if it has one.
    Affordance(Option<String>),
}

/// What a step of a run comes to.
#[derive(Debug)]
pub struct Step {
    /// The run after the step.
    pub state: RunState,
    /// What the step has to tell, in the order in which it is to be told,
    /// before the action is carried out.
    pub notices: Vec<Notice>,
    /// What the caller is asked to do next.
    pub action: Action,
}

/// A run as plain values.
pub struct RunView {
    pub phase: Phase,
    pub current_page: nat,
    pub total_items_seen: nat,
    pub limit: nat,
    pub delay: nat,
    pub category: Seq<char>,
}

/// An action as plain values.
pub enum ActionView {
    Navigate(Seq<char>),
    Load(LoadAction),
    QueryItems,
    Emit(Seq<ShopItemView>),
    QueryNextPage,
    Pause { millis: nat },
    Stop,
    Abort(ScrapeError),
}

/// An event as plain values.
pub enum EventView {
    Completed,
    Failed,
    Elements(Seq<ComponentView>),
    Affordance(Option<Seq<char>>),
}

/// A step as plain values.
pub struct StepView {
    pub state: RunView,
    pub notices: Seq<NoticeView>,
    pub action: ActionView,
}

impl View for RunState {
    type V = RunView;

    open spec fn view(&self) -> RunView {
        RunView {
            phase: self.phase,
            current_page: self.current_page as nat,
            total_items_seen: self.total_items_seen as nat,
            limit: self.limit as nat,
            delay: self.delay as nat,
            category: self.category@,
        }
    }
}

impl View for Action {
    type V = ActionView;

    open spec fn view(&self) -> ActionView {
        match self {
            Action::Navigate(url) => ActionView::Navigate(url@),
            Action::Load(action) => ActionView::Load(*action),
            Action::QueryItems => ActionView::QueryItems,
            Action::Emit(items) => ActionView::Emit(views_of(items@)),
            Action::QueryNextPage => ActionView::QueryNextPage,
            Action::Pause { millis } => ActionView::Pause { millis: *millis as nat },
            Action::Stop => ActionView::Stop,
            Action::Abort(e) => ActionView::Abort(*e),
        }
    }
}

impl View for Step {
    type V = StepView;

    open spec fn view(&self) -> StepView {
        StepView {
            state: self.state@,
            notices: notice_views(self.notices@),
            action: self.action@,
        }
    }
}

impl View for Event {
    type V = EventView;

    open spec fn view(&self) -> EventView {
        match self {
            Event::Completed => EventView::Completed,
            Event::Failed => EventView::Failed,
            Event::Elements(elems) => EventView::Elements(
                elems@.map_values(|c: ShopItemComponent| c@),
            ),
            Event::Affordance(class) => EventView::Affordance(
                match class {
                    Some(c) => Some(c@),
                    None => None,
                },
            ),
        }
    }
}

/// Whether the limit says that no further page is to be opened: it is set,
/// and more entries than it allows were seen.
pub open spec fn limit_passed(total_items_seen: nat, limit: nat) -> bool {
    limit != 0 && total_items_seen > limit
}

/// A step that has nothing to tell.
pub open spec fn quiet(state: RunView, action: ActionView) -> StepView {
    StepView { state, notices: Seq::empty(), action }
}

/// The run given up for `error`.
pub open spec fn give_up(run: RunView, error: ScrapeError) -> StepView {
    quiet(RunView { phase: Phase::Failed(error), ..run }, ActionView::Abort(error))
}

/// The listing that an event brings. Only the answer to the listing query
/// brings one; to the extraction, any other event is a query that failed.
pub open spec fn listing_in(event: EventView) -> Option<Seq<ComponentView>> {
    match event {
        EventView::Elements(entries) => Some(entries),
        _ => None,
    }
}

/// The first step of a run: on the way to page 1, with nothing seen.
pub open spec fn first_step(category: Seq<char>, delay: nat, limit: nat) -> StepView {
    quiet(
        RunView {
            phase: Phase::Navigating,
            current_page: 1,
            total_items_seen: 0,
            limit,
            delay,
            category,
        },
        ActionView::Navigate(page_url(category, 1)),
    )
}

/// The transition of a run: where it stands after `event`, what it has to
/// tell, and what it asks for next.
///
/// Each phase waits for one answer. In every phase but `Extracting`,
/// anything else than that answer counts as the failure of what was asked
/// for, and ends the run: with `Navigation` on the way to a page or while
/// resting before it, with `PageStructure` while the page loads or its
/// pagination control is looked up, with `SinkWrite` while the sink takes the
/// records. A listing query that fails only leaves the page without records.
pub open spec fn run_step(run: RunView, event: EventView) -> StepView {
    match run.phase {
        Phase::Navigating => match event {
            EventView::Completed => quiet(
                RunView { phase: Phase::Loading { step: 0 }, ..run },
                ActionView::Load(load_plan()[0]),
            ),
            _ => give_up(run, ScrapeError::Navigation),
        },
        Phase::Loading { step } => match event {
            EventView::Completed => if step + 1 < load_plan().len() {
                quiet(
                    RunView { phase: Phase::Loading { step: (step + 1) as usize }, ..run },
                    ActionView::Load(load_plan()[step + 1]),
                )
            } else {
                quiet(RunView { phase: Phase::Extracting, ..run }, ActionView::QueryItems)
            },
            _ => give_up(run, ScrapeError::PageStructure),
        },
        Phase::Extracting => {
            let listing = listing_in(event);
            let entries = entries_of(listing);
            let counted = RunView {
                total_items_seen: run.total_items_seen + attempted(entries),
                ..run
            };
            let notices = notices_of(listing, run.total_items_seen);
            match page_yield(entries) {
                Ok(records) => StepView {
                    state: RunView { phase: Phase::Emitting, ..counted },
                    notices,
                    action: ActionView::Emit(records),
                },
                Err(error) => StepView {
                    state: RunView { phase: Phase::Failed(error), ..counted },
                    notices,
                    action: ActionView::Abort(error),
                },
            }
        },
        Phase::Emitting => match event {
            EventView::Completed => if limit_passed(run.total_items_seen, run.limit) {
                quiet(RunView { phase: Phase::Done, ..run }, ActionView::Stop)
            } else {
                quiet(RunView { phase: Phase::PageCheck, ..run }, ActionView::QueryNextPage)
            },
            _ => give_up(run, ScrapeError::SinkWrite),
        },
        Phase::PageCheck => match event {
            EventView::Affordance(class_name) => if has_next_page(class_name) {
                quiet(
                    RunView { phase: Phase::Pausing, current_page: run.current_page + 1, ..run },
                    ActionView::Pause { millis: run.delay },
                )
            } else {
                quiet(RunView { phase: Phase::Done, ..run }, ActionView::Stop)
            },
            _ => give_up(run, ScrapeError::PageStructure),
        },
        Phase::Pausing => match event {
            EventView::Completed => quiet(
                RunView { phase: Phase::Navigating, ..run },
                ActionView::Navigate(page_url(run.category, run.current_page)),
            ),
            _ => give_up(run, ScrapeError::Navigation),
        },
        Phase::Done => quiet(run, ActionView::Stop),
        Phase::Failed(error) => quiet(run, ActionView::Abort(error)),
    }
}

/// Whether the counters of a run have room for what `event` adds to them.
pub open spec fn has_room(run: RunView, event: EventView) -> bool {
    match (run.phase, event) {
        (Phase::Extracting, EventView::Elements(entries)) => run.total_items_seen + entries.len()
            <= u32::MAX,
        (Phase::PageCheck, EventView::Affordance(class_name)) => has_next_page(class_name)
            ==> run.current_page < u8::MAX,
        _ => true,
    }
}

/// Tells whether the limit has been passed.
pub fn limit_reached(total_items_seen: u32, limit: u32) -> (passed: bool)
    ensures
        passed == limit_passed(total_items_seen as nat, limit as nat),
{
    limit != 0 && total_items_seen > limit
}

impl RunState {
    /// Starts a run with the given settings: the state it begins in, and the
    /// request to open the first page.
    pub fn begin(settings: &Scraper) -> (start: Step)
        ensures
            start@ == first_step(settings.category@, settings.delay as nat, settings.limit as nat),
    {
        let state = RunState {
            phase: Phase::Navigating,
            current_page: 1,
            total_items_seen: 0,
            limit: settings.limit,
            delay: settings.delay,
            category: settings.category.clone(),
        };
        let url = goto_page(state.category.as_str(), state.current_page);
        proceed(state, Action::Navigate(url))
    }

    /// Tells whether the run is over, one way or the other.
    pub fn is_over(&self) -> (over: bool)
        ensures
            over == (self.phase is Done || self.phase is Failed),
    {
        match self.phase {
            Phase::Done => true,
            Phase::Failed(_) => true,
            _ => false,
        }
    }

    /// Tells whether the counters have room for what `event` adds to them.
    /// `step` takes the event only if they have.
    pub fn can_step(&self, event: &Event) -> (room: bool)
        ensures
            room == has_room(self@, event@),
    {
        match self.phase {
            Phase::Extracting => match event {
                Event::Elements(elems) => elems.len() <= (u32::MAX - self.total_items_seen) as usize,
                _ => true,
            },
            Phase::PageCheck => match event {
                Event::Affordance(class_name) => {
                    let next = match class_name {
                        Some(class) => find_next_page(Some(class.as_str())),
                        None => find_next_page(None),
                    };
                    !next || self.current_page < u8::MAX
                },
                _ => true,
            },
            _ => true,
        }
    }
}

/// Goes on with `action` and has nothing to tell.
fn proceed(state: RunState, action: Action) -> (next: Step)
    ensures
        next@ == quiet(state@, action@),
{
    let next = Step { state, notices: Vec::new(), action };
    assert(next@.notices =~= Seq::empty());
    next
}

/// Gives the run up for `error`.
fn abort(state: RunState, error: ScrapeError) -> (next: Step)
    ensures
        next@ == give_up(state@, error),
{
    let mut state = state;
    state.phase = Phase::Failed(error);
    proceed(state, Action::Abort(error))
}

/// Takes a run one step further: from the state it is in and what came of
/// the last action to the state it is in next, what there is to tell, and the
/// action to carry out.
///
/// The caller tells the notices, carries out the action and comes back with
/// its event, until the action is `Stop` or `Abort`.
pub fn step(state: RunState, event: Event) -> (next: Step)
    requires
        has_room(state@, event@),
    ensures
        next@ == run_step(state@, event@),
        next@.state.limit == state@.limit,
        next@.state.delay == state@.delay,
        next@.state.category == state@.category,
        next@.state.total_items_seen >= state@.total_items_seen,
        next@.state.current_page == state@.current_page || {
            &&& next@.state.current_page == state@.current_page + 1
            &&& state.phase is PageCheck
            &&& event@ matches EventView::Affordance(class_name)
            &&& has_next_page(class_name)
        },
        next@.action matches ActionView::Emit(records) ==> {
            &&& state.phase is Extracting
            &&& records == records_of(entries_of(listing_in(event@)))
            &&& forall|i: int| 0 <= i < records.len() ==> is_listing(#[trigger] records[i])
        },
{
    let mut state = state;
    match state.phase {
        Phase::Navigating => match event {
            Event::Completed => {
                let plan = load_elements();
                state.phase = Phase::Loading { step: 0 };
                proceed(state, Action::Load(plan[0]))
            },
            _ => abort(state, ScrapeError::Navigation),
        },
        Phase::Loading { step } => match event {
            Event::Completed => {
                let plan = load_elements();
                if step < plan.len() - 1 {
                    state.phase = Phase::Loading { step: step + 1 };
                    proceed(state, Action::Load(plan[step + 1]))
                } else {
                    state.phase = Phase::Extracting;
                    proceed(state, Action::QueryItems)
                }
            },
            _ => abort(state, ScrapeError::PageStructure),
        },
        Phase::Extracting => {
            let found = match event {
                Event::Elements(elems) => Some(elems),
                _ => None,
            };
            let mut total: u32 = state.total_items_seen;
            let mut notices: Vec<Notice> = Vec::new();
            let fetched = fetch_all_items(found, &mut total, &mut notices);
            assert(notice_views(notices@) =~= notices_of(
                listing_in(event@),
                state.total_items_seen as nat,
            ));
            state.total_items_seen = total;
            match fetched {
                Ok(items) => {
                    proof {
                        lemma_records_are_listings(entries_of(listing_in(event@)));
                    }
                    state.phase = Phase::Emitting;
                    Step { state, notices, action: Action::Emit(items) }
                },
                Err(error) => {
                    state.phase = Phase::Failed(error);
                    Step { state, notices, action: Action::Abort(error) }
                },
            }
        },
        Phase::Emitting => match event {
            Event::Completed => {
                if limit_reached(state.total_items_seen, state.limit) {
                    state.phase = Phase::Done;
                    proceed(state, Action::Stop)
                } else {
                    state.phase = Phase::PageCheck;
                    proceed(state, Action::QueryNextPage)
                }
            },
            _ => abort(state, ScrapeError::SinkWrite),
        },
        Phase::PageCheck => match event {
            Event::Affordance(class_name) => {
                let next = match &class_name {
                    Some(class) => find_next_page(Some(class.as_str())),
                    None => find_next_page(None),
                };
                if next {
                    state.current_page = state.current_page + 1;
                    state.phase = Phase::Pausing;
                    let millis: u64 = state.delay;
                    proceed(state, Action::Pause { millis })
                } else {
                    state.phase = Phase::Done;
                    proceed(state, Action::Stop)
                }
            },
            _ => abort(state, ScrapeError::PageStructure),
        },
        Phase::Pausing => match event {
            Event::Completed => {
                let url = goto_page(state.category.as_str(), state.current_page);
                state.phase = Phase::Navigating;
                proceed(state, Action::Navigate(url))
            },
            _ => abort(state, ScrapeError::Navigation),
        },
        Phase::Done => proceed(state, Action::Stop),
        Phase::Failed(error) => proceed(state, Action::Abort(error)),
    }
}

/// Every record of a page whose entries all have one can be told apart and
/// followed.
pub proof fn lemma_records_are_listings(entries: Seq<ComponentView>)
    requires
        all_extract(entries),
    ensures
        forall|i: int|
            0 <= i < records_of(entries).len() ==> is_listing(#[trigger] records_of(entries)[i]),
{
    assert forall|i: int| 0 <= i < records_of(entries).len() implies is_listing(
        #[trigger] records_of(entries)[i],
    ) by {
        lemma_record_is_listing(entries[i]);
    }
}

/// The limit has no say in what a page emits: whatever was seen before and
/// whatever the limit is, a page whose entries all have a record is handed to
/// the sink whole and in document order.
pub proof fn lemma_limit_never_cuts_a_page(run: RunView, entries: Seq<ComponentView>)
    requires
        run.phase is Extracting,
        all_extract(entries),
    ensures
        run_step(run, EventView::Elements(entries)).action == ActionView::Emit(records_of(entries)),
        run_step(run, EventView::Elements(entries)).state.total_items_seen == run.total_items_seen
            + entries.len(),
{
}

/// The limit is looked at once a page has been emitted, and it ends the run
/// exactly when it is set and more entries than it allows were seen.
pub proof fn lemma_limit_ends_the_run(run: RunView)
    requires
        run.phase is Emitting,
    ensures
        run_step(run, EventView::Completed).state.phase is Done <==> run.limit != 0
            && run.total_items_seen > run.limit,
        !(run_step(run, EventView::Completed).state.phase is Done) ==> run_step(
            run,
            EventView::Completed,
        ).action == ActionView::QueryNextPage,
{
}

/// Where a run stands after a series of events, each taken in its turn.
pub open spec fn run_after(run: RunView, events: Seq<EventView>) -> RunView
    decreases events.len(),
{
    if events.len() == 0 {
        run
    } else {
        run_step(run_after(run, events.drop_last()), events.last()).state
    }
}

/// No step lowers the number of entries seen.
pub proof fn lemma_seen_never_falls(run: RunView, event: EventView)
    ensures
        run_step(run, event).state.total_items_seen >= run.total_items_seen,
{
}

/// The page number moves only forward, by one, and only when the control
/// that leads on was found and is not disabled.
pub proof fn lemma_page_turns_on_confirmation(run: RunView, event: EventView)
    ensures
        run_step(run, event).state.current_page == run.current_page || {
            &&& run_step(run, event).state.current_page == run.current_page + 1
            &&& run.phase is PageCheck
            &&& event matches EventView::Affordance(class_name)
            &&& has_next_page(class_name)
        },
{
}

/// Over a whole run, whatever the events are, the number of entries seen and
/// the page number never fall, and the settings stay as they were.
pub proof fn lemma_run_only_moves_forward(run: RunView, events: Seq<EventView>)
    ensures
        run_after(run, events).total_items_seen >= run.total_items_seen,
        run_after(run, events).current_page >= run.current_page,
        run_after(run, events).limit == run.limit,
        run_after(run, events).delay == run.delay,
        run_after(run, events).category == run.category,
    decreases events.len(),
{
    if events.len() > 0 {
        lemma_run_only_moves_forward(run, events.drop_last());
        lemma_seen_never_falls(run_after(run, events.drop_last()), events.last());
        lemma_page_turns_on_confirmation(run_after(run, events.drop_last()), events.last());
    }
}

/// A run that is over stays as it is, whatever comes.
pub proof fn lemma_over_is_final(run: RunView, events: Seq<EventView>)
    requires
        run.phase is Done || run.phase is Failed,
    ensures
        run_after(run, events) == run,
    decreases events.len(),
{
    if events.len() > 0 {
        lemma_over_is_final(run, events.drop_last());
    }
}

} // verus!
