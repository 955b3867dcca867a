//! The portfolio session: which portfolio is open, and how that changes.
//!
//! A session is closed or holds exactly one open portfolio: its name and
//! the handle of its store. The operations that change it need the file
//! system and the storage backend, which this library does not touch. So an
//! operation runs as a conversation. It starts with a [`Step`] that names an
//! [`Effect`] for the caller to carry out; the caller reports how that went
//! as an [`Event`] to [`resume`], which answers with the next step, until
//! the operation is finished.
//!
//! `create` asks whether the file is there, has the store created, keyed
//! and initialised, and then opens the session on it. Where a later step of
//! `create` fails, the file that was made stays where it is, for the user to
//! delete. `select` asks whether the file is there, has the store opened and
//! keyed, and has a read made on it at once: a wrong key shows only on the
//! first read. `delete` closes the session first, if it holds the portfolio
//! in question, and then has the file removed; a removal that fails does not
//! open the session again.

use vstd::prelude::*;

use crate::directory::{
    file_name_of, key_statement, key_statement_of, listed, name_without_file_is_not_listed,
    portfolio_file_name, verification_query, verification_statement,
};
use crate::error::{IoFailure, SessionError};

verus! {

/// The state of a session: closed, or open on one portfolio.
#[derive(Debug)]
pub enum Session<H> {
    /// No portfolio is open.
    Closed,
    /// The portfolio called `name` is open, and `handle` is its store.
    Open { name: String, handle: H },
}

/// What a [`Session`] holds, with the name as its characters.
pub enum SessionView<H> {
    Closed,
    Open { name: Seq<char>, handle: H },
}

impl<H> View for Session<H> {
    type V = SessionView<H>;

    open spec fn view(&self) -> SessionView<H> {
        match self {
            Session::Closed => SessionView::Closed,
            Session::Open { name, handle } => SessionView::Open { name: name@, handle: *handle },
        }
    }
}

impl<H> SessionView<H> {
    /// Whether the session is open on the portfolio called `name`.
    pub open spec fn holds(self, name: Seq<char>) -> bool {
        self matches SessionView::Open { name: open, .. } && open == name
    }
}

impl<H> Session<H> {
    /// A session with no portfolio open.
    pub fn new() -> (session: Self)
        ensures
            session@ == SessionView::<H>::Closed,
    {
        Session::Closed
    }

    /// Whether a portfolio is open.
    pub fn is_open(&self) -> (open: bool)
        ensures
            open == (self@ is Open),
    {
        match self {
            Session::Closed => false,
            Session::Open { .. } => true,
        }
    }

    /// Whether the portfolio called `name` is the open one.
    pub fn holds(&self, name: &str) -> (held: bool)
        ensures
            held == self@.holds(name@),
    {
        match self {
            Session::Closed => false,
            Session::Open { name: open, .. } => {
                let asked = String::from_str(name);
                open.eq(&asked)
            },
        }
    }

    /// Closes the session, letting go of the handle it held.
    pub fn close(&mut self)
        ensures
            final(self)@ == SessionView::<H>::Closed,
    {
        *self = Session::Closed;
    }
}

/// What an operation that opens a store is for.
#[derive(Debug, Clone, Copy, PartialEq, Eq, Structural)]
pub enum Purpose {
    /// To make a new portfolio.
    Create,
    /// To open one that is there.
    Select,
}

/// An operation under way: what it waits for, and what it has in hand.
#[derive(Debug)]
pub enum Pending<H> {
    /// Waits to hear whether the file is there.
    Probe { purpose: Purpose, name: String, password: String },
    /// Waits for the store to be opened.
    Open { purpose: Purpose, name: String, password: String },
    /// Holds the store; waits for the key statement to run on it.
    Key { purpose: Purpose, name: String, handle: H },
    /// Holds the keyed store; waits for the schema script or for the
    /// verification read.
    Check { purpose: Purpose, name: String, handle: H },
    /// Waits for the file to be removed.
    Remove,
}

/// What a [`Pending`] holds, with texts as their characters.
pub enum PendingView<H> {
    Probe { purpose: Purpose, name: Seq<char>, password: Seq<char> },
    Open { purpose: Purpose, name: Seq<char>, password: Seq<char> },
    Key { purpose: Purpose, name: Seq<char>, handle: H },
    Check { purpose: Purpose, name: Seq<char>, handle: H },
    Remove,
}

impl<H> View for Pending<H> {
    type V = PendingView<H>;

    open spec fn view(&self) -> PendingView<H> {
        match self {
            Pending::Probe { purpose, name, password } => PendingView::Probe {
                purpose: *purpose,
                name: name@,
                password: password@,
            },
            Pending::Open { purpose, name, password } => PendingView::Open {
                purpose: *purpose,
                name: name@,
                password: password@,
            },
            Pending::Key { purpose, name, handle } => PendingView::Key {
                purpose: *purpose,
                name: name@,
                handle: *handle,
            },
            Pending::Check { purpose, name, handle } => PendingView::Check {
                purpose: *purpose,
                name: name@,
                handle: *handle,
            },
            Pending::Remove => PendingView::Remove,
        }
    }
}

impl<H> Pending<H> {
    /// The store that the operation has in hand, on which the effects that
    /// name no file are to be carried out.
    pub fn handle(&self) -> (handle: Option<&H>)
        ensures
            match handle {
                Some(handle) => (self@ matches PendingView::Key { handle: held, .. } && held
                    == *handle) || (self@ matches PendingView::Check { handle: held, .. } && held
                    == *handle),
                None => !(self@ is Key) && !(self@ is Check),
            },
    {
        match self {
            Pending::Key { handle, .. } => Some(handle),
            Pending::Check { handle, .. } => Some(handle),
            _ => None,
        }
    }
}

/// What the caller is to do on the library's behalf.
#[derive(Debug, Clone, PartialEq, Eq)]
pub enum Effect {
    /// Find out whether a file of this name is in the vault directory, and
    /// report [`Event::Probed`].
    ProbeFile { file: String },
    /// Open the store in the file of this name in the vault directory,
    /// creating the file if it is not there, and report [`Event::Opened`].
    OpenStore { file: String },
    /// Run this statement on the store in hand, and report
    /// [`Event::Executed`].
    Execute { statement: String },
    /// Run the schema script on the store in hand, and report
    /// [`Event::Executed`].
    InitSchema,
    /// Read one row with this statement from the store in hand, and report
    /// [`Event::Executed`].
    Query { statement: String },
    /// Remove the file of this name from the vault directory, and report
    /// [`Event::Removed`].
    RemoveFile { file: String },
}

/// What an [`Effect`] holds, with texts as their characters.
pub enum EffectView {
    ProbeFile { file: Seq<char> },
    OpenStore { file: Seq<char> },
    Execute { statement: Seq<char> },
    InitSchema,
    Query { statement: Seq<char> },
    RemoveFile { file: Seq<char> },
}

impl View for Effect {
    type V = EffectView;

    open spec fn view(&self) -> EffectView {
        match self {
            Effect::ProbeFile { file } => EffectView::ProbeFile { file: file@ },
            Effect::OpenStore { file } => EffectView::OpenStore { file: file@ },
            Effect::Execute { statement } => EffectView::Execute { statement: statement@ },
            Effect::InitSchema => EffectView::InitSchema,
            Effect::Query { statement } => EffectView::Query { statement: statement@ },
            Effect::RemoveFile { file } => EffectView::RemoveFile { file: file@ },
        }
    }
}

/// How an [`Effect`] went.
#[derive(Debug)]
pub enum Event<H> {
    /// Whether the file is there.
    Probed(bool),
    /// The store that was opened, or `None` where it could not be.
    Opened(Option<H>),
    /// Whether the statement, script or read went through.
    Executed(bool),
    /// Whether the file was removed.
    Removed(bool),
}

/// Where an operation stands after a step.
#[derive(Debug)]
pub enum Step<H> {
    /// The caller carries out `effect` and reports to [`resume`] with
    /// `pending`.
    Continue { pending: Pending<H>, effect: Effect },
    /// The operation is over, with this result.
    Finished(Result<(), SessionError>),
}

/// What a [`Step`] holds, with texts as their characters.
pub enum StepView<H> {
    Continue { pending: PendingView<H>, effect: EffectView },
    Finished(Result<(), SessionError>),
}

impl<H> View for Step<H> {
    type V = StepView<H>;

    open spec fn view(&self) -> StepView<H> {
        match self {
            Step::Continue { pending, effect } => StepView::Continue {
                pending: pending@,
                effect: effect@,
            },
            Step::Finished(result) => StepView::Finished(*result),
        }
    }
}

/// The first step of making or opening the portfolio called `name`: to ask
/// whether its file is there.
pub open spec fn open_start<H>(purpose: Purpose, name: Seq<char>, password: Seq<char>) -> StepView<
    H,
> {
    StepView::Continue {
        pending: PendingView::Probe { purpose, name, password },
        effect: EffectView::ProbeFile { file: file_name_of(name) },
    }
}

/// The session and the first step of deleting the portfolio called `name`:
/// a session that holds it is closed, any other stays as it is, and the file
/// is to be removed.
pub open spec fn delete_start<H>(session: SessionView<H>, name: Seq<char>) -> (
    SessionView<H>,
    StepView<H>,
) {
    (
        if session.holds(name) {
            SessionView::Closed
        } else {
            session
        },
        StepView::Continue {
            pending: PendingView::Remove,
            effect: EffectView::RemoveFile { file: file_name_of(name) },
        },
    )
}

/// The error of an operation for `purpose` whose file is there when it
/// should not be, or is not when it should.
pub open spec fn probe_error(purpose: Purpose) -> SessionError {
    match purpose {
        Purpose::Create => SessionError::AlreadyExists,
        Purpose::Select => SessionError::NotFound,
    }
}

/// The error of an operation for `purpose` whose store could not be opened.
pub open spec fn open_error(purpose: Purpose) -> SessionError {
    match purpose {
        Purpose::Create => SessionError::Io(IoFailure::CreateStore),
        Purpose::Select => SessionError::Io(IoFailure::OpenStore),
    }
}

/// The error of an operation for `purpose` whose key statement failed.
pub open spec fn key_error(purpose: Purpose) -> SessionError {
    match purpose {
        Purpose::Create => SessionError::Io(IoFailure::SetKey),
        Purpose::Select => SessionError::WrongPasswordOrCorrupt,
    }
}

/// The error of an operation for `purpose` whose last step failed: the
/// schema script of `create`, the verification read of `select`.
pub open spec fn check_error(purpose: Purpose) -> SessionError {
    match purpose {
        Purpose::Create => SessionError::Io(IoFailure::InitSchema),
        Purpose::Select => SessionError::WrongPasswordOrCorrupt,
    }
}

/// What is to be done on a store that has just been keyed.
pub open spec fn check_effect(purpose: Purpose) -> EffectView {
    match purpose {
        Purpose::Create => EffectView::InitSchema,
        Purpose::Select => EffectView::Query { statement: verification_query() },
    }
}

/// The session and the step that follow when `event` is reported to an
/// operation that stands at `pending`.
///
/// The session changes in one place only: where the last step of `create`
/// or `select` went through, it becomes open on that portfolio, whatever it
/// held before. A report of another kind than the one awaited ends the
/// operation.
pub open spec fn next<H>(session: SessionView<H>, pending: PendingView<H>, event: Event<H>) -> (
    SessionView<H>,
    StepView<H>,
) {
    match (pending, event) {
        (PendingView::Probe { purpose, name, password }, Event::Probed(exists)) => if exists == (
        purpose == Purpose::Select) {
            (
                session,
                StepView::Continue {
                    pending: PendingView::Open { purpose, name, password },
                    effect: EffectView::OpenStore { file: file_name_of(name) },
                },
            )
        } else {
            (session, StepView::Finished(Err(probe_error(purpose))))
        },
        (PendingView::Open { purpose, name, password }, Event::Opened(Some(handle))) => (
            session,
            StepView::Continue {
                pending: PendingView::Key { purpose, name, handle },
                effect: EffectView::Execute { statement: key_statement_of(password) },
            },
        ),
        (PendingView::Open { purpose, .. }, Event::Opened(None)) => (
            session,
            StepView::Finished(Err(open_error(purpose))),
        ),
        (PendingView::Key { purpose, name, handle }, Event::Executed(true)) => (
            session,
            StepView::Continue {
                pending: PendingView::Check { purpose, name, handle },
                effect: check_effect(purpose),
            },
        ),
        (PendingView::Key { purpose, .. }, Event::Executed(false)) => (
            session,
            StepView::Finished(Err(key_error(purpose))),
        ),
        (PendingView::Check { name, handle, .. }, Event::Executed(true)) => (
            SessionView::Open { name, handle },
            StepView::Finished(Ok(())),
        ),
        (PendingView::Check { purpose, .. }, Event::Executed(false)) => (
            session,
            StepView::Finished(Err(check_error(purpose))),
        ),
        (PendingView::Remove, Event::Removed(true)) => (session, StepView::Finished(Ok(()))),
        (PendingView::Remove, Event::Removed(false)) => (
            session,
            StepView::Finished(Err(SessionError::Io(IoFailure::RemoveFile))),
        ),
        _ => (session, StepView::Finished(Err(SessionError::Io(IoFailure::OutOfStep)))),
    }
}

/// Where an operation stands once the reports in `events` have come in, in
/// their order, from `step` on. Reports that come after the operation is
/// finished change nothing.
pub open spec fn run<H>(session: SessionView<H>, step: StepView<H>, events: Seq<Event<H>>) -> (
    SessionView<H>,
    StepView<H>,
)
    decreases events.len(),
{
    match step {
        StepView::Finished(_) => (session, step),
        StepView::Continue { pending, .. } => if events.len() == 0 {
            (session, step)
        } else {
            let after = next(session, pending, events.first());
            run(after.0, after.1, events.drop_first())
        },
    }
}

/// Starts making a portfolio called `name`, protected by `password`.
///
/// Nothing has happened yet: the step asks whether the file is there.
pub fn create_portfolio<H>(name: String, password: String) -> (step: Step<H>)
    ensures
        step@ == open_start::<H>(Purpose::Create, name@, password@),
{
    let file = portfolio_file_name(name.as_str());
    Step::Continue {
        pending: Pending::Probe { purpose: Purpose::Create, name, password },
        effect: Effect::ProbeFile { file },
    }
}

/// Starts opening the portfolio called `name` with `password`.
///
/// Nothing has happened yet: the step asks whether the file is there.
pub fn select_portfolio<H>(name: String, password: String) -> (step: Step<H>)
    ensures
        step@ == open_start::<H>(Purpose::Select, name@, password@),
{
    let file = portfolio_file_name(name.as_str());
    Step::Continue {
        pending: Pending::Probe { purpose: Purpose::Select, name, password },
        effect: Effect::ProbeFile { file },
    }
}

/// Starts deleting the portfolio called `name`.
///
/// A session that holds this portfolio is closed here, before the file is
/// touched; any other is left as it is. The step asks for the file to be
/// removed.
pub fn delete_portfolio<H>(session: &mut Session<H>, name: &str) -> (step: Step<H>)
    ensures
        (final(session)@, step@) == delete_start(old(session)@, name@),
{
    if session.holds(name) {
        session.close();
    }
    Step::Continue {
        pending: Pending::Remove,
        effect: Effect::RemoveFile { file: portfolio_file_name(name) },
    }
}

/// Takes the report of the effect that `pending` waited for, and says what
/// comes next.
///
/// Session and step are those of [`next`].
pub fn resume<H>(session: &mut Session<H>, pending: Pending<H>, event: Event<H>) -> (step: Step<H>)
    ensures
        (final(session)@, step@) == next(old(session)@, pending@, event),
{
    match pending {
        Pending::Probe { purpose, name, password } => match event {
            Event::Probed(exists) => {
                let wanted = match purpose {
                    Purpose::Create => false,
                    Purpose::Select => true,
                };
                if exists == wanted {
                    let file = portfolio_file_name(name.as_str());
                    Step::Continue {
                        pending: Pending::Open { purpose, name, password },
                        effect: Effect::OpenStore { file },
                    }
                } else {
                    match purpose {
                        Purpose::Create => Step::Finished(Err(SessionError::AlreadyExists)),
                        Purpose::Select => Step::Finished(Err(SessionError::NotFound)),
                    }
                }
            },
            _ => Step::Finished(Err(SessionError::Io(IoFailure::OutOfStep))),
        },
        Pending::Open { purpose, name, password } => match event {
            Event::Opened(Some(handle)) => {
                let statement = key_statement(password.as_str());
                Step::Continue {
                    pending: Pending::Key { purpose, name, handle },
                    effect: Effect::Execute { statement },
                }
            },
            Event::Opened(None) => match purpose {
                Purpose::Create => Step::Finished(Err(SessionError::Io(IoFailure::CreateStore))),
                Purpose::Select => Step::Finished(Err(SessionError::Io(IoFailure::OpenStore))),
            },
            _ => Step::Finished(Err(SessionError::Io(IoFailure::OutOfStep))),
        },
        Pending::Key { purpose, name, handle } => match event {
            Event::Executed(true) => {
                let effect = match purpose {
                    Purpose::Create => Effect::InitSchema,
                    Purpose::Select => Effect::Query { statement: verification_statement() },
                };
                Step::Continue { pending: Pending::Check { purpose, name, handle }, effect }
            },
            Event::Executed(false) => match purpose {
                Purpose::Create => Step::Finished(Err(SessionError::Io(IoFailure::SetKey))),
                Purpose::Select => Step::Finished(Err(SessionError::WrongPasswordOrCorrupt)),
            },
            _ => Step::Finished(Err(SessionError::Io(IoFailure::OutOfStep))),
        },
        Pending::Check { purpose, name, handle } => match event {
            Event::Executed(true) => {
                *session = Session::Open { name, handle };
                Step::Finished(Ok(()))
            },
            Event::Executed(false) => match purpose {
                Purpose::Create => Step::Finished(Err(SessionError::Io(IoFailure::InitSchema))),
                Purpose::Select => Step::Finished(Err(SessionError::WrongPasswordOrCorrupt)),
            },
            _ => Step::Finished(Err(SessionError::Io(IoFailure::OutOfStep))),
        },
        Pending::Remove => match event {
            Event::Removed(true) => Step::Finished(Ok(())),
            Event::Removed(false) => Step::Finished(Err(SessionError::Io(IoFailure::RemoveFile))),
            _ => Step::Finished(Err(SessionError::Io(IoFailure::OutOfStep))),
        },
    }
}

/// The reports of an operation that opens a store and goes through: the
/// file is there or not as the purpose wants it, the store opens as
/// `handle`, and the two statements run.
pub open spec fn reports_of_success<H>(purpose: Purpose, handle: H) -> Seq<Event<H>> {
    seq![
        Event::Probed(purpose == Purpose::Select),
        Event::Opened(Some(handle)),
        Event::Executed(true),
        Event::Executed(true),
    ]
}

/// An operation changes the session in its last step or not at all: after
/// any one report the session is as it was, unless the report was that the
/// last step of `create` or `select` went through, and then the session is
/// open on that portfolio alone.
pub proof fn session_changes_only_on_success<H>(
    session: SessionView<H>,
    pending: PendingView<H>,
    event: Event<H>,
)
    ensures
        next(session, pending, event).0 == session || (pending matches PendingView::Check {
            name,
            handle,
            ..
        } && event == Event::<H>::Executed(true) && next(session, pending, event) == (
            SessionView::Open { name, handle },
            StepView::<H>::Finished(Ok(())),
        )),
{
}

/// Whatever is reported to `create` or `select`, in whatever order: where
/// the operation ends well, the session is open on the portfolio asked for,
/// with the store that was opened for it; where it ends in an error, or has
/// not ended, the session is as it was before.
pub proof fn open_ends_open_or_unchanged<H>(
    session: SessionView<H>,
    purpose: Purpose,
    name: Seq<char>,
    password: Seq<char>,
    events: Seq<Event<H>>,
)
    ensures
        ({
            let end = run(session, open_start(purpose, name, password), events);
            if end.1 == StepView::<H>::Finished(Ok(())) {
                &&& events.len() >= 4
                &&& events[1] matches Event::Opened(Some(handle))
                &&& end.0 == (SessionView::Open { name, handle })
            } else {
                end.0 == session
            }
        }),
{
    reveal_with_fuel(run, 5);
    if events.len() >= 1 {
        let e1 = events.drop_first();
        if e1.len() >= 1 {
            assert(e1.first() == events[1]);
            let e2 = e1.drop_first();
            if e2.len() >= 1 {
                let e3 = e2.drop_first();
                if e3.len() >= 1 {
                    let e4 = e3.drop_first();
                    assert(events.len() >= 4);
                }
            }
        }
    }
}

/// Only one portfolio is open at a time, and it is the one selected last:
/// after `select` of `first` has gone through and then `select` of `second`,
/// the session holds `second` with the store opened for it, and nothing of
/// `first`.
pub proof fn later_select_replaces_earlier<H>(
    session: SessionView<H>,
    first: Seq<char>,
    first_password: Seq<char>,
    first_handle: H,
    second: Seq<char>,
    second_password: Seq<char>,
    second_handle: H,
)
    ensures
        ({
            let between = run(
                session,
                open_start(Purpose::Select, first, first_password),
                reports_of_success(Purpose::Select, first_handle),
            );
            let end = run(
                between.0,
                open_start(Purpose::Select, second, second_password),
                reports_of_success(Purpose::Select, second_handle),
            );
            &&& between == (
                SessionView::Open { name: first, handle: first_handle },
                StepView::<H>::Finished(Ok(())),
            )
            &&& end == (
                SessionView::Open { name: second, handle: second_handle },
                StepView::<H>::Finished(Ok(())),
            )
        }),
{
    successful_reports_open_the_session(
        session,
        Purpose::Select,
        first,
        first_password,
        first_handle,
    );
    successful_reports_open_the_session(
        SessionView::Open { name: first, handle: first_handle },
        Purpose::Select,
        second,
        second_password,
        second_handle,
    );
}

/// Where every step of `create` or `select` goes through, the operation ends
/// well and the session is open on the portfolio asked for, whatever it held
/// before.
pub proof fn successful_reports_open_the_session<H>(
    session: SessionView<H>,
    purpose: Purpose,
    name: Seq<char>,
    password: Seq<char>,
    handle: H,
)
    ensures
        run(session, open_start(purpose, name, password), reports_of_success(purpose, handle)) == (
            SessionView::Open { name, handle },
            StepView::<H>::Finished(Ok(())),
        ),
{
    reveal_with_fuel(run, 5);
    let e0 = reports_of_success(purpose, handle);
    let e1 = e0.drop_first();
    let e2 = e1.drop_first();
    let e3 = e2.drop_first();
    assert(e0.first() == Event::<H>::Probed(purpose == Purpose::Select));
    assert(e1.first() == Event::<H>::Opened(Some(handle)));
    assert(e2.first() == Event::<H>::Executed(true));
    assert(e3.first() == Event::<H>::Executed(true));
}

/// `create` of a name whose file is there fails as `AlreadyExists` and
/// leaves the session as it was, whatever is reported afterwards.
pub proof fn create_of_existing_name_is_refused<H>(
    session: SessionView<H>,
    name: Seq<char>,
    password: Seq<char>,
    events: Seq<Event<H>>,
)
    requires
        events.len() > 0,
        events.first() == Event::<H>::Probed(true),
    ensures
        run(session, open_start(Purpose::Create, name, password), events) == (
            session,
            StepView::<H>::Finished(Err(SessionError::AlreadyExists)),
        ),
{
    reveal_with_fuel(run, 2);
}

/// `select` of a name whose file is not there fails as `NotFound` and leaves
/// the session as it was, whatever is reported afterwards.
pub proof fn select_of_missing_name_is_refused<H>(
    session: SessionView<H>,
    name: Seq<char>,
    password: Seq<char>,
    events: Seq<Event<H>>,
)
    requires
        events.len() > 0,
        events.first() == Event::<H>::Probed(false),
    ensures
        run(session, open_start(Purpose::Select, name, password), events) == (
            session,
            StepView::<H>::Finished(Err(SessionError::NotFound)),
        ),
{
    reveal_with_fuel(run, 2);
}

/// `select` whose key statement or verification read fails ends as
/// `WrongPasswordOrCorrupt` and leaves the session as it was.
pub proof fn select_with_unfit_key_is_refused<H>(
    session: SessionView<H>,
    name: Seq<char>,
    password: Seq<char>,
    handle: H,
    key_ran: bool,
)
    ensures
        run(
            session,
            open_start(Purpose::Select, name, password),
            seq![
                Event::Probed(true),
                Event::Opened(Some(handle)),
                Event::Executed(key_ran),
                Event::Executed(false),
            ],
        ) == (session, StepView::<H>::Finished(Err(SessionError::WrongPasswordOrCorrupt))),
{
    reveal_with_fuel(run, 5);
    let e0 = seq![
        Event::Probed(true),
        Event::Opened(Some(handle)),
        Event::Executed(key_ran),
        Event::Executed(false),
    ];
    let e1 = e0.drop_first();
    let e2 = e1.drop_first();
    let e3 = e2.drop_first();
    assert(e0.first() == Event::<H>::Probed(true));
    assert(e1.first() == Event::<H>::Opened(Some(handle)));
    assert(e2.first() == Event::<H>::Executed(key_ran));
    assert(e3.first() == Event::<H>::Executed(false));
}

/// `delete` of the open portfolio closes the session before the file is
/// asked to go, and asks for the file of that very name. Once the file has
/// gone the operation ends well with the session closed, and a listing of a
/// directory without that file does not show the name. Where the removal
/// fails, the session stays closed.
pub proof fn delete_of_open_portfolio_closes<H>(
    name: Seq<char>,
    handle: H,
    removed: bool,
    files: Seq<Seq<char>>,
)
    ensures
        ({
            let start = delete_start(SessionView::Open { name, handle }, name);
            let end = run(start.0, start.1, seq![Event::Removed(removed)]);
            &&& start.0 == SessionView::<H>::Closed
            &&& start.1 == (StepView::<H>::Continue {
                pending: PendingView::Remove,
                effect: EffectView::RemoveFile { file: file_name_of(name) },
            })
            &&& end.0 == SessionView::<H>::Closed
            &&& end.1 == StepView::<H>::Finished(
                if removed {
                    Ok(())
                } else {
                    Err(SessionError::Io(IoFailure::RemoveFile))
                },
            )
            &&& !files.contains(file_name_of(name)) ==> !listed(files).contains(name)
        }),
{
    reveal_with_fuel(run, 3);
    let events = seq![Event::<H>::Removed(removed)];
    assert(events.first() == Event::<H>::Removed(removed));
    if !files.contains(file_name_of(name)) {
        name_without_file_is_not_listed(files, name);
    }
}

/// `delete` of a portfolio that is not the open one leaves the session as it
/// was, whether the file goes or not.
pub proof fn delete_of_other_portfolio_keeps_session<H>(
    session: SessionView<H>,
    name: Seq<char>,
    removed: bool,
)
    requires
        !session.holds(name),
    ensures
        ({
            let start = delete_start(session, name);
            run(start.0, start.1, seq![Event::Removed(removed)]).0 == session
        }),
{
    reveal_with_fuel(run, 3);
    let events = seq![Event::<H>::Removed(removed)];
    assert(events.first() == Event::<H>::Removed(removed));
}

} // verus!
