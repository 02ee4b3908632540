use vstd::prelude::*;

use crate::list::{rows_of, EntryView, ListView};
use crate::todo::{duplicate_all, todos_view, ToDo, ToDoView};

verus! {

/// Why a fetch produced no records. Both kinds end in the same state.
#[derive(Clone, Copy, PartialEq, Eq, Structural, Debug)]
pub enum FetchError {
    /// The request did not complete: network failure or a non-success status.
    Transport,
    /// The body was not an array of well-formed records.
    Decode,
}

/// The controller's knowledge of the most recent request.
#[derive(Clone, PartialEq, Eq, Debug)]
pub enum FetchState {
    /// No data and no request yet.
    Idle,
    /// A request is outstanding; earlier data has been discarded.
    Loading,
    /// The most recent successful response.
    Loaded(Vec<ToDo>),
    /// The most recent request did not succeed.
    Failed,
}

pub ghost enum StateView {
    Idle,
    Loading,
    Loaded(Seq<ToDoView>),
    Failed,
}

impl View for FetchState {
    type V = StateView;

    open spec fn view(&self) -> StateView {
        match self {
            FetchState::Idle => StateView::Idle,
            FetchState::Loading => StateView::Loading,
            FetchState::Loaded(v) => StateView::Loaded(todos_view(v@)),
            FetchState::Failed => StateView::Failed,
        }
    }
}

/// The outcome of a fetch, as its records or the absence of them.
pub open spec fn outcome_view(r: Result<Vec<ToDo>, FetchError>) -> Option<Seq<ToDoView>> {
    match r {
        Result::Ok(v) => Option::Some(todos_view(v@)),
        Result::Err(_) => Option::None,
    }
}

/// An event handed to the controller.
pub enum Msg {
    /// Start a (new) request: at startup and on every click of refresh.
    MakeReq,
    /// A request has completed.
    Resp(Result<Vec<ToDo>, FetchError>),
}

pub ghost enum MsgView {
    MakeReq,
    Resp(Option<Seq<ToDoView>>),
}

impl View for Msg {
    type V = MsgView;

    open spec fn view(&self) -> MsgView {
        match self {
            Msg::MakeReq => MsgView::MakeReq,
            Msg::Resp(r) => MsgView::Resp(outcome_view(*r)),
        }
    }
}

/// What the controller asks its surroundings to do after an event.
#[derive(Clone, Copy, PartialEq, Eq, Structural, Debug)]
pub enum Command {
    Nothing,
    /// Issue a GET to the to-do endpoint, replacing any request in flight,
    /// and deliver its outcome back as `Msg::Resp`.
    Fetch,
}

/// The state after a completion: the records on success, `Failed` otherwise.
pub open spec fn completed(outcome: Option<Seq<ToDoView>>) -> StateView {
    match outcome {
        Option::Some(items) => StateView::Loaded(items),
        Option::None => StateView::Failed,
    }
}

/// The state that follows `s` on event `m`.
pub open spec fn next_state(s: StateView, m: MsgView) -> StateView {
    match m {
        MsgView::MakeReq => StateView::Loading,
        MsgView::Resp(outcome) => completed(outcome),
    }
}

/// The command issued on event `m`.
pub open spec fn command_for(m: MsgView) -> Command {
    match m {
        MsgView::MakeReq => Command::Fetch,
        MsgView::Resp(_) => Command::Nothing,
    }
}

/// The records that may be shown in state `s`: present only once loaded.
pub open spec fn items_of(s: StateView) -> Option<Seq<ToDoView>> {
    match s {
        StateView::Loaded(items) => Option::Some(items),
        _ => Option::None,
    }
}

/// The rows displayed in state `s`.
pub open spec fn page_of(s: StateView) -> Seq<EntryView> {
    rows_of(items_of(s))
}

/// The state reached from `s` after the events of `msgs`, in order.
pub open spec fn run(s: StateView, msgs: Seq<MsgView>) -> StateView
    decreases msgs.len(),
{
    if msgs.len() == 0 {
        s
    } else {
        run(next_state(s, msgs[0]), msgs.drop_first())
    }
}

/// Whether an HTTP status code reports success (the 2xx range).
pub open spec fn is_success_status(status: u16) -> bool {
    200 <= status < 300
}

/// Combines a response's status with its decoded body: a non-success status
/// is a transport failure whatever the body holds; otherwise the body's own
/// outcome stands.
pub fn fetch_outcome(status: u16, body: Result<Vec<ToDo>, FetchError>) -> (r: Result<
    Vec<ToDo>,
    FetchError,
>)
    ensures
        !is_success_status(status) ==> r == Result::<Vec<ToDo>, FetchError>::Err(
            FetchError::Transport,
        ),
        is_success_status(status) ==> r == body,
{
    if 200 <= status && status < 300 {
        body
    } else {
        Result::Err(FetchError::Transport)
    }
}

/// The refresh control. It is always rendered, and a click on it asks for
/// a new request.
#[derive(Clone, Copy, PartialEq, Eq, Structural, Debug)]
pub struct RefreshButton {}

impl RefreshButton {
    /// The event that a click on the control sends.
    pub fn on_click(&self) -> (r: Msg)
        ensures
            r@ == MsgView::MakeReq,
    {
        Msg::MakeReq
    }
}

/// What the controller renders: the refresh control, and below it the list.
#[derive(Clone, PartialEq, Eq, Debug)]
pub struct Page {
    pub refresh: RefreshButton,
    pub list: ListView,
}

impl View for Page {
    type V = Seq<EntryView>;

    open spec fn view(&self) -> Seq<EntryView> {
        self.list@
    }
}

/// The controller: the single owner of the fetch state, and the only place
/// where it changes.
pub struct ToDoApp {
    state: FetchState,
}

impl View for ToDoApp {
    type V = StateView;

    closed spec fn view(&self) -> StateView {
        self.state@
    }
}

impl ToDoApp {
    /// Builds the controller and starts the first request: the state is
    /// `Loading` on return, and the caller is asked to fetch.
    pub fn create() -> (r: (ToDoApp, Command))
        ensures
            r.0@ == StateView::Loading,
            r.1 == Command::Fetch,
    {
        let mut app = ToDoApp { state: FetchState::Idle };
        let cmd = app.update(Msg::MakeReq);
        (app, cmd)
    }

    /// Handles one event, returning the command it calls for.
    pub fn update(&mut self, msg: Msg) -> (r: Command)
        ensures
            final(self)@ == next_state(old(self)@, msg@),
            r == command_for(msg@),
    {
        match msg {
            Msg::MakeReq => self.refresh(),
            Msg::Resp(resp) => {
                self.on_fetch_complete(resp);
                Command::Nothing
            },
        }
    }

    /// Starts a new request, superseding any in flight: whatever was loaded
    /// is discarded and the state becomes `Loading`.
    pub fn refresh(&mut self) -> (r: Command)
        ensures
            final(self)@ == StateView::Loading,
            r == Command::Fetch,
    {
        self.state = FetchState::Loading;
        Command::Fetch
    }

    /// Applies the outcome of a request, whichever request it was: records
    /// give `Loaded`, an error gives `Failed`.
    pub fn on_fetch_complete(&mut self, result: Result<Vec<ToDo>, FetchError>)
        ensures
            final(self)@ == completed(outcome_view(result)),
    {
        match result {
            Result::Ok(items) => {
                self.state = FetchState::Loaded(items);
            },
            Result::Err(_) => {
                self.state = FetchState::Failed;
            },
        }
    }

    /// The component takes no properties, so a change of them changes
    /// nothing and asks for no new rendering.
    pub fn change(&mut self, _props: ()) -> (r: bool)
        ensures
            final(self)@ == old(self)@,
            !r,
    {
        false
    }

    pub fn state(&self) -> (r: &FetchState)
        ensures
            r@ == self@,
    {
        &self.state
    }

    /// A copy of the records on display: present only once loaded.
    pub fn todos(&self) -> (r: Option<Vec<ToDo>>)
        ensures
            match r {
                Option::None => items_of(self@) is None,
                Option::Some(v) => items_of(self@) == Option::Some(todos_view(v@)),
            },
    {
        match &self.state {
            FetchState::Loaded(v) => Option::Some(duplicate_all(v)),
            _ => Option::None,
        }
    }

    /// Renders the current state. The result depends on the state alone.
    pub fn render(&self) -> (r: Page)
        ensures
            r@ == page_of(self@),
    {
        let items = match &self.state {
            FetchState::Loaded(v) => Option::Some(v),
            _ => Option::None,
        };
        Page { refresh: RefreshButton {}, list: ListView::render(items) }
    }
}

/// Once a request has been issued the controller never returns to `Idle`,
/// whatever events follow.
pub proof fn lemma_never_idle_again(s: StateView, msgs: Seq<MsgView>)
    requires
        !(s is Idle),
    ensures
        !(run(s, msgs) is Idle),
    decreases msgs.len(),
{
    if msgs.len() > 0 {
        lemma_never_idle_again(next_state(s, msgs[0]), msgs.drop_first());
    }
}

/// A refresh moves any state, a loaded one included, to `Loading`, where
/// no record is shown.
pub proof fn lemma_refresh_hides_items(s: StateView)
    ensures
        next_state(s, MsgView::MakeReq) == StateView::Loading,
        page_of(next_state(s, MsgView::MakeReq)) == Seq::<EntryView>::empty(),
{
}

/// Completions are not fenced: after two refreshes, the completion that
/// arrives last decides the state, whichever request it belongs to.
pub proof fn lemma_last_completion_wins(
    s: StateView,
    first: Option<Seq<ToDoView>>,
    second: Option<Seq<ToDoView>>,
)
    ensures
        run(
            s,
            seq![MsgView::MakeReq, MsgView::MakeReq, MsgView::Resp(second), MsgView::Resp(first)],
        ) == completed(first),
        run(
            s,
            seq![MsgView::MakeReq, MsgView::MakeReq, MsgView::Resp(first), MsgView::Resp(second)],
        ) == completed(second),
{
    let a = seq![MsgView::MakeReq, MsgView::MakeReq, MsgView::Resp(second), MsgView::Resp(first)];
    let b = seq![MsgView::MakeReq, MsgView::MakeReq, MsgView::Resp(first), MsgView::Resp(second)];
    reveal_with_fuel(run, 5);
    assert(a.drop_first() =~= seq![MsgView::MakeReq, MsgView::Resp(second), MsgView::Resp(first)]);
    assert(a.drop_first().drop_first() =~= seq![MsgView::Resp(second), MsgView::Resp(first)]);
    assert(a.drop_first().drop_first().drop_first() =~= seq![MsgView::Resp(first)]);
    assert(a.drop_first().drop_first().drop_first().drop_first() =~= Seq::<MsgView>::empty());
    assert(b.drop_first() =~= seq![MsgView::MakeReq, MsgView::Resp(first), MsgView::Resp(second)]);
    assert(b.drop_first().drop_first() =~= seq![MsgView::Resp(first), MsgView::Resp(second)]);
    assert(b.drop_first().drop_first().drop_first() =~= seq![MsgView::Resp(second)]);
    assert(b.drop_first().drop_first().drop_first().drop_first() =~= Seq::<MsgView>::empty());
}

/// A completion sets the state from its own outcome alone: what the state
/// was before does not matter.
pub proof fn lemma_completion_ignores_prior_state(
    s1: StateView,
    s2: StateView,
    outcome: Option<Seq<ToDoView>>,
)
    ensures
        next_state(s1, MsgView::Resp(outcome)) == next_state(s2, MsgView::Resp(outcome)),
        next_state(s1, MsgView::Resp(outcome)) == completed(outcome),
{
}

} // verus!
