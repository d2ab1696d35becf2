//! The synchronisation loop as a state machine.
//!
//! The loop waits for the next message of the event bus or for the sync timer,
//! whichever comes first. A message is decoded, filtered, and, where it
//! reports a new document, the document is fetched, identified, hashed and
//! entered into the index; then the message is committed. When the timer
//! fires, a snapshot of the index is written to the object store and the timer
//! is set again.
//!
//! [`Indexer`] holds the decisions. The caller performs each [`Action`] and
//! hands the result back as an [`Input`]; nothing here waits or transfers.
//! Times are counted in nanoseconds from an origin that the caller chooses.

use crate::document::identify;
use crate::document::identity_of;
use crate::document::view_of;
use crate::document::Identity;
use crate::document::IdentityView;
use crate::event::Notification;
use crate::event::NotificationView;
use crate::event::StorageEventView;
use crate::storage::Storage;
use vstd::prelude::*;

verus! {

/// How the handling of one message ended, short of its commit.
#[derive(Clone, Copy, Debug, PartialEq, Eq, Structural)]
pub enum Outcome {
    /// The message had no payload.
    NoPayload,
    /// The payload was no notification.
    Malformed,
    /// The notification reports something other than a PUT.
    Ignored,
    /// The notification reports the index snapshot itself.
    OwnSnapshot,
    /// The key of the notification lies outside the document area.
    ForeignKey,
    /// The document could not be fetched.
    FetchFailed,
    /// The document is not JSON or names no package URL.
    NoIdentifier,
    /// The index refused the entry.
    InsertFailed,
    /// The document was entered into the index.
    Indexed,
}

/// What to do about a notification.
#[derive(Clone, Debug, PartialEq, Eq)]
pub enum Triage {
    /// Nothing is fetched; the message is committed with this outcome.
    Skip(Outcome),
    /// The document under this storage key is to be indexed.
    Fetch(String),
}

/// A [`Triage`] as specifications see it.
pub enum TriageView {
    Skip(Outcome),
    Fetch(Seq<char>),
}

impl View for Triage {
    type V = TriageView;

    open spec fn view(&self) -> TriageView {
        match self {
            Triage::Skip(outcome) => TriageView::Skip(*outcome),
            Triage::Fetch(key) => TriageView::Fetch(key@),
        }
    }
}

/// The rule by which notifications are filtered: only a PUT leads to a fetch,
/// never one of the index snapshot, and only under the document prefix, whose
/// removal gives the storage key.
pub open spec fn triage(storage: &Storage, notification: NotificationView) -> TriageView {
    match notification {
        NotificationView::Empty => TriageView::Skip(Outcome::NoPayload),
        NotificationView::Malformed => TriageView::Skip(Outcome::Malformed),
        NotificationView::Event(event) => {
            if !event.is_put() {
                TriageView::Skip(Outcome::Ignored)
            } else if event.key == storage.index_key() {
                TriageView::Skip(Outcome::OwnSnapshot)
            } else if storage.document_prefix().is_prefix_of(event.key) {
                TriageView::Fetch(
                    event.key.subrange(
                        storage.document_prefix().len() as int,
                        event.key.len() as int,
                    ),
                )
            } else {
                TriageView::Skip(Outcome::ForeignKey)
            }
        },
    }
}

/// Decides what to do about a notification.
pub fn classify(storage: &Storage, notification: &Notification) -> (r: Triage)
    ensures
        r@ == triage(storage, notification@),
{
    match notification {
        Notification::Empty => Triage::Skip(Outcome::NoPayload),
        Notification::Malformed => Triage::Skip(Outcome::Malformed),
        Notification::Event(event) => {
            if !event.is_put() {
                Triage::Skip(Outcome::Ignored)
            } else if storage.is_index(event.key()) {
                Triage::Skip(Outcome::OwnSnapshot)
            } else {
                match storage.extract_key(event.key()) {
                    Some(key) => {
                        assert(key@ =~= event@.key.subrange(
                            storage.document_prefix().len() as int,
                            event@.key.len() as int,
                        ));
                        Triage::Fetch(key.to_owned())
                    },
                    None => Triage::Skip(Outcome::ForeignKey),
                }
            }
        },
    }
}

/// What the loop is waiting for.
#[derive(Clone, Debug, PartialEq, Eq)]
pub enum Phase {
    /// The next message or the timer.
    Waiting,
    /// The document under this storage key.
    Fetching { key: String },
    /// The index, to take the entry.
    Inserting,
    /// The event bus, to take the commit.
    Committing { outcome: Outcome },
    /// The index, to hand out its snapshot.
    Snapshotting,
    /// The object store, to take the snapshot.
    Storing,
}

/// A [`Phase`] as specifications see it.
pub enum PhaseView {
    Waiting,
    Fetching { key: Seq<char> },
    Inserting,
    Committing { outcome: Outcome },
    Snapshotting,
    Storing,
}

impl View for Phase {
    type V = PhaseView;

    open spec fn view(&self) -> PhaseView {
        match self {
            Phase::Waiting => PhaseView::Waiting,
            Phase::Fetching { key } => PhaseView::Fetching { key: key@ },
            Phase::Inserting => PhaseView::Inserting,
            Phase::Committing { outcome } => PhaseView::Committing { outcome: *outcome },
            Phase::Snapshotting => PhaseView::Snapshotting,
            Phase::Storing => PhaseView::Storing,
        }
    }
}

impl PhaseView {
    /// Whether a message is being handled.
    pub open spec fn in_event_branch(self) -> bool {
        self is Fetching || self is Inserting || self is Committing
    }

    /// Whether a snapshot is being written.
    pub open spec fn in_timer_branch(self) -> bool {
        self is Snapshotting || self is Storing
    }

    /// The most answers that the loop still takes before it orders the commit
    /// of the message in hand.
    pub open spec fn steps_to_commit(self) -> nat {
        match self {
            PhaseView::Fetching { .. } => 2,
            PhaseView::Inserting => 1,
            _ => 0,
        }
    }

    /// Whether an input answers what the loop waits for in this phase.
    pub open spec fn awaits(self, input: InputView) -> bool {
        match self {
            PhaseView::Waiting => input is Message || input is PollFailed || input is TimerFired,
            PhaseView::Fetching { .. } => input is Fetched,
            PhaseView::Inserting => input is Inserted,
            PhaseView::Committing { .. } => input is Committed,
            PhaseView::Snapshotting => input is SnapshotTaken,
            PhaseView::Storing => input is SnapshotStored,
        }
    }
}

/// What the caller is asked to do next.
#[derive(Clone, Debug, PartialEq, Eq)]
pub enum Action {
    /// Wait for the next message, but no longer than until the given time.
    Wait { until: u128 },
    /// Fetch the document under this storage key.
    Fetch { key: String },
    /// Enter the document into the index.
    Insert { identifier: String, hash: String, key: String },
    /// Commit the message; its handling ended as given.
    Commit { outcome: Outcome },
    /// Take a snapshot of the index.
    TakeSnapshot,
    /// Write the snapshot just taken to its slot in the object store.
    StoreSnapshot,
}

/// An [`Action`] as specifications see it.
pub enum ActionView {
    Wait { until: nat },
    Fetch { key: Seq<char> },
    Insert { identifier: Seq<char>, hash: Seq<char>, key: Seq<char> },
    Commit { outcome: Outcome },
    TakeSnapshot,
    StoreSnapshot,
}

impl View for Action {
    type V = ActionView;

    open spec fn view(&self) -> ActionView {
        match self {
            Action::Wait { until } => ActionView::Wait { until: *until as nat },
            Action::Fetch { key } => ActionView::Fetch { key: key@ },
            Action::Insert { identifier, hash, key } => ActionView::Insert {
                identifier: identifier@,
                hash: hash@,
                key: key@,
            },
            Action::Commit { outcome } => ActionView::Commit { outcome: *outcome },
            Action::TakeSnapshot => ActionView::TakeSnapshot,
            Action::StoreSnapshot => ActionView::StoreSnapshot,
        }
    }
}

/// What came of the last action.
#[derive(Clone, Debug, PartialEq, Eq)]
pub enum Input {
    /// The event bus delivered a message.
    Message { notification: Notification },
    /// Polling the event bus failed.
    PollFailed,
    /// The sync timer fired.
    TimerFired,
    /// The object store answered the fetch: the document, or `None` on failure.
    Fetched { document: Option<Vec<u8>> },
    /// The index answered the insertion.
    Inserted { ok: bool },
    /// The event bus answered the commit.
    Committed { ok: bool },
    /// The index answered the request for a snapshot.
    SnapshotTaken { ok: bool },
    /// The object store answered the writing of the snapshot.
    SnapshotStored { ok: bool },
}

/// An [`Input`] as specifications see it.
pub enum InputView {
    Message { notification: NotificationView },
    PollFailed,
    TimerFired,
    Fetched { document: Option<Seq<u8>> },
    Inserted { ok: bool },
    Committed { ok: bool },
    SnapshotTaken { ok: bool },
    SnapshotStored { ok: bool },
}

impl View for Input {
    type V = InputView;

    open spec fn view(&self) -> InputView {
        match self {
            Input::Message { notification } => InputView::Message { notification: notification@ },
            Input::PollFailed => InputView::PollFailed,
            Input::TimerFired => InputView::TimerFired,
            Input::Fetched { document } => InputView::Fetched {
                document: match document {
                    Some(bytes) => Some(bytes@),
                    None => None,
                },
            },
            Input::Inserted { ok } => InputView::Inserted { ok: *ok },
            Input::Committed { ok } => InputView::Committed { ok: *ok },
            Input::SnapshotTaken { ok } => InputView::SnapshotTaken { ok: *ok },
            Input::SnapshotStored { ok } => InputView::SnapshotStored { ok: *ok },
        }
    }
}

/// The answer to an input that the current phase does not wait for.
#[derive(Clone, Copy, Debug, PartialEq, Eq, Structural)]
pub struct OutOfTurn;

/// The state of the loop as specifications see it.
pub struct IndexerView {
    pub phase: PhaseView,
    pub interval: nat,
    pub next_sync: nat,
}

impl IndexerView {
    /// The state with another phase.
    pub open spec fn with_phase(self, phase: PhaseView) -> IndexerView {
        IndexerView { phase, ..self }
    }

    /// The state after a timer branch that ended at `now`: waiting again, with
    /// the timer set one interval later.
    pub open spec fn rescheduled(self, now: nat) -> IndexerView {
        IndexerView { phase: PhaseView::Waiting, next_sync: now + self.interval, ..self }
    }

    /// The order to wait in this state.
    pub open spec fn wait(self) -> ActionView {
        ActionView::Wait { until: self.next_sync }
    }

    /// The state that commits a message whose handling ended as given, and the
    /// order to do so.
    pub open spec fn commit(self, outcome: Outcome) -> (IndexerView, ActionView) {
        (self.with_phase(PhaseView::Committing { outcome }), ActionView::Commit { outcome })
    }

    /// What follows the reading of a fetched document: with its identity the
    /// document is entered into the index under the key by which it was
    /// fetched; without one the message is committed. `None` where the loop
    /// does not wait for a document.
    pub open spec fn identified(self, identity: Option<IdentityView>) -> Option<
        (IndexerView, ActionView),
    > {
        match self.phase {
            PhaseView::Fetching { key } => Some(
                match identity {
                    None => self.commit(Outcome::NoIdentifier),
                    Some(found) => (
                        self.with_phase(PhaseView::Inserting),
                        ActionView::Insert { identifier: found.identifier, hash: found.hash, key },
                    ),
                },
            ),
            _ => None,
        }
    }

    /// Whether an input ends the timer branch, so that the timer is set anew.
    pub open spec fn reschedules(self, input: InputView) -> bool {
        ||| self.phase is Snapshotting && input == (InputView::SnapshotTaken { ok: false })
        ||| self.phase is Storing && input is SnapshotStored
    }

    /// The transition of the loop: the state and the order that follow an
    /// input that arrives at `now`, or `None` for an input that the phase does
    /// not wait for.
    pub open spec fn step(self, storage: &Storage, now: nat, input: InputView) -> Option<
        (IndexerView, ActionView),
    > {
        match (self.phase, input) {
            (PhaseView::Waiting, InputView::Message { notification }) => Some(
                match triage(storage, notification) {
                    TriageView::Skip(outcome) => self.commit(outcome),
                    TriageView::Fetch(key) => (
                        self.with_phase(PhaseView::Fetching { key }),
                        ActionView::Fetch { key },
                    ),
                },
            ),
            (PhaseView::Waiting, InputView::PollFailed) => Some((self, self.wait())),
            (PhaseView::Waiting, InputView::TimerFired) => Some(
                (self.with_phase(PhaseView::Snapshotting), ActionView::TakeSnapshot),
            ),
            (PhaseView::Fetching { key }, InputView::Fetched { document }) => match document {
                None => Some(self.commit(Outcome::FetchFailed)),
                Some(bytes) => self.identified(identity_of(bytes)),
            },
            (PhaseView::Inserting, InputView::Inserted { ok }) => Some(
                self.commit(
                    if ok {
                        Outcome::Indexed
                    } else {
                        Outcome::InsertFailed
                    },
                ),
            ),
            (PhaseView::Committing { outcome }, InputView::Committed { ok }) => Some(
                if ok {
                    (self.with_phase(PhaseView::Waiting), self.wait())
                } else {
                    self.commit(outcome)
                },
            ),
            (PhaseView::Snapshotting, InputView::SnapshotTaken { ok }) => Some(
                if ok {
                    (self.with_phase(PhaseView::Storing), ActionView::StoreSnapshot)
                } else {
                    (self.rescheduled(now), self.rescheduled(now).wait())
                },
            ),
            (PhaseView::Storing, InputView::SnapshotStored { ok }) => Some(
                (self.rescheduled(now), self.rescheduled(now).wait()),
            ),
            _ => None,
        }
    }
}

/// The synchronisation loop between two of its steps.
#[derive(Clone, Debug, PartialEq, Eq)]
pub struct Indexer {
    phase: Phase,
    interval: u128,
    next_sync: u128,
}

impl View for Indexer {
    type V = IndexerView;

    closed spec fn view(&self) -> IndexerView {
        IndexerView {
            phase: self.phase@,
            interval: self.interval as nat,
            next_sync: self.next_sync as nat,
        }
    }
}

impl Indexer {
    /// A loop started at `now` that writes a snapshot every `interval`: it
    /// waits, and the timer first fires one interval from now.
    pub fn new(now: u128, interval: u128) -> (r: Indexer)
        requires
            now + interval <= u128::MAX,
        ensures
            r@ == (IndexerView {
                phase: PhaseView::Waiting,
                interval: interval as nat,
                next_sync: (now + interval) as nat,
            }),
    {
        Indexer { phase: Phase::Waiting, interval, next_sync: now + interval }
    }

    /// What the loop is waiting for.
    pub fn phase(&self) -> (r: &Phase)
        ensures
            r@ == self@.phase,
    {
        &self.phase
    }

    /// The time between two snapshots.
    pub fn interval(&self) -> (r: u128)
        ensures
            r == self@.interval,
    {
        self.interval
    }

    /// The time at which the timer fires next.
    pub fn next_sync(&self) -> (r: u128)
        ensures
            r == self@.next_sync,
    {
        self.next_sync
    }

    /// Takes the input that arrived at `now` and says what to do next. An
    /// input that the phase does not wait for is turned down and changes
    /// nothing.
    pub fn step(&mut self, storage: &Storage, now: u128, input: Input) -> (r: Result<
        Action,
        OutOfTurn,
    >)
        requires
            old(self)@.reschedules(input@) ==> now + old(self)@.interval <= u128::MAX,
        ensures
            match old(self)@.step(storage, now as nat, input@) {
                Some((state, action)) => r matches Ok(a) && a@ == action && final(self)@ == state,
                None => r is Err && final(self)@ == old(self)@,
            },
    {
        match input {
            Input::Message { notification } => match &self.phase {
                Phase::Waiting => match classify(storage, &notification) {
                    Triage::Skip(outcome) => Ok(self.commit(outcome)),
                    Triage::Fetch(key) => {
                        self.phase = Phase::Fetching { key: key.clone() };
                        Ok(Action::Fetch { key })
                    },
                },
                _ => Err(OutOfTurn),
            },
            Input::PollFailed => match &self.phase {
                Phase::Waiting => Ok(Action::Wait { until: self.next_sync }),
                _ => Err(OutOfTurn),
            },
            Input::TimerFired => match &self.phase {
                Phase::Waiting => {
                    self.phase = Phase::Snapshotting;
                    Ok(Action::TakeSnapshot)
                },
                _ => Err(OutOfTurn),
            },
            Input::Fetched { document } => match &self.phase {
                Phase::Fetching { .. } => match document {
                    None => Ok(self.commit(Outcome::FetchFailed)),
                    Some(bytes) => self.identified(identify(bytes.as_slice())),
                },
                _ => Err(OutOfTurn),
            },
            Input::Inserted { ok } => match &self.phase {
                Phase::Inserting => Ok(
                    self.commit(
                        if ok {
                            Outcome::Indexed
                        } else {
                            Outcome::InsertFailed
                        },
                    ),
                ),
                _ => Err(OutOfTurn),
            },
            Input::Committed { ok } => match &self.phase {
                Phase::Committing { outcome } => {
                    let outcome = *outcome;
                    if ok {
                        self.phase = Phase::Waiting;
                        Ok(Action::Wait { until: self.next_sync })
                    } else {
                        Ok(Action::Commit { outcome })
                    }
                },
                _ => Err(OutOfTurn),
            },
            Input::SnapshotTaken { ok } => match &self.phase {
                Phase::Snapshotting => {
                    if ok {
                        self.phase = Phase::Storing;
                        Ok(Action::StoreSnapshot)
                    } else {
                        Ok(self.reschedule(now))
                    }
                },
                _ => Err(OutOfTurn),
            },
            Input::SnapshotStored { ok: _ } => match &self.phase {
                Phase::Storing => Ok(self.reschedule(now)),
                _ => Err(OutOfTurn),
            },
        }
    }

    /// Takes what was read from the fetched document, in place of the
    /// document itself, and says what to do next.
    pub fn identified(&mut self, identity: Option<Identity>) -> (r: Result<Action, OutOfTurn>)
        ensures
            match old(self)@.identified(view_of(identity)) {
                Some((state, action)) => r matches Ok(a) && a@ == action && final(self)@ == state,
                None => r is Err && final(self)@ == old(self)@,
            },
    {
        match &self.phase {
            Phase::Fetching { key } => {
                let key = key.clone();
                match identity {
                    None => Ok(self.commit(Outcome::NoIdentifier)),
                    Some(found) => {
                        self.phase = Phase::Inserting;
                        Ok(Action::Insert { identifier: found.identifier, hash: found.hash, key })
                    },
                }
            },
            _ => Err(OutOfTurn),
        }
    }

    fn commit(&mut self, outcome: Outcome) -> (r: Action)
        ensures
            (final(self)@, r@) == old(self)@.commit(outcome),
    {
        self.phase = Phase::Committing { outcome };
        Action::Commit { outcome }
    }

    fn reschedule(&mut self, now: u128) -> (r: Action)
        requires
            now + old(self)@.interval <= u128::MAX,
        ensures
            final(self)@ == old(self)@.rescheduled(now as nat),
            r@ == final(self)@.wait(),
    {
        self.phase = Phase::Waiting;
        self.next_sync = now + self.interval;
        Action::Wait { until: self.next_sync }
    }
}

impl IndexerView {
    /// The state after a run of inputs, each with the time of its arrival.
    /// An input out of turn changes nothing.
    pub open spec fn run(self, storage: &Storage, inputs: Seq<(nat, InputView)>) -> IndexerView
        decreases inputs.len(),
    {
        if inputs.len() == 0 {
            self
        } else {
            let before = self.run(storage, inputs.drop_last());
            match before.step(storage, inputs.last().0, inputs.last().1) {
                Some((state, _)) => state,
                None => before,
            }
        }
    }
}

/// A notification of anything but a PUT leads to no fetch and no insertion:
/// the message is committed at once.
pub proof fn lemma_only_put_is_indexed(
    state: IndexerView,
    storage: &Storage,
    now: nat,
    event: StorageEventView,
)
    requires
        state.phase is Waiting,
        !event.is_put(),
    ensures
        state.step(
            storage,
            now,
            InputView::Message { notification: NotificationView::Event(event) },
        ) == Some(state.commit(Outcome::Ignored)),
{
}

/// A notification whose key is that of the index snapshot never leads to a
/// fetch, whatever event it reports: the message is committed at once.
pub proof fn lemma_own_snapshot_is_never_fetched(
    state: IndexerView,
    storage: &Storage,
    now: nat,
    event: StorageEventView,
)
    requires
        state.phase is Waiting,
        event.key == storage.index_key(),
    ensures
        state.step(
            storage,
            now,
            InputView::Message { notification: NotificationView::Event(event) },
        ) == Some(
            state.commit(
                if event.is_put() {
                    Outcome::OwnSnapshot
                } else {
                    Outcome::Ignored
                },
            ),
        ),
{
}

/// While a message is committed nothing else is asked for: a step in that
/// phase orders the commit again, or, after a commit that succeeded, to wait.
pub proof fn lemma_committing_only_commits(
    state: IndexerView,
    storage: &Storage,
    now: nat,
    input: InputView,
)
    requires
        state.phase is Committing,
    ensures
        match state.step(storage, now, input) {
            Some((next, action)) => if input == (InputView::Committed { ok: true }) {
                next.phase is Waiting && action is Wait
            } else {
                next.phase == state.phase && action is Commit
            },
            None => !(input is Committed),
        },
{
}

/// An input is taken exactly where it answers what the loop waits for, so the
/// caller that hands back the answer to each order is never turned down.
pub proof fn lemma_step_takes_what_it_awaits(
    state: IndexerView,
    storage: &Storage,
    now: nat,
    input: InputView,
)
    ensures
        state.step(storage, now, input) is Some <==> state.phase.awaits(input),
        state.step(storage, now, input) matches Some((next, action)) ==> match action {
            ActionView::Wait { until } => next.phase is Waiting && until == next.next_sync,
            ActionView::Fetch { key } => next.phase == (PhaseView::Fetching { key }),
            ActionView::Insert { .. } => next.phase is Inserting,
            ActionView::Commit { outcome } => next.phase == (PhaseView::Committing { outcome }),
            ActionView::TakeSnapshot => next.phase is Snapshotting,
            ActionView::StoreSnapshot => next.phase is Storing,
        },
{
}

/// Every message is committed. A message that is taken up starts the event
/// branch; each step in the branch stays in it or ends it, and the one step
/// that ends it is the answer to a commit that succeeded. Each step before
/// the commit brings it nearer, whatever the answer was, and whenever the
/// loop comes to wait for a commit, it has ordered one.
pub proof fn lemma_commit_always_attempted(
    state: IndexerView,
    storage: &Storage,
    now: nat,
    input: InputView,
)
    requires
        state.phase.in_event_branch() || (state.phase is Waiting && input is Message),
    ensures
        match state.step(storage, now, input) {
            Some((next, action)) => {
                &&& next.phase.in_event_branch() || next.phase is Waiting
                &&& next.phase is Committing <==> action is Commit
                &&& next.phase is Waiting ==> state.phase is Committing && input == (
                InputView::Committed { ok: true })
                &&& state.phase.steps_to_commit() > 0 ==> next.phase.steps_to_commit()
                    < state.phase.steps_to_commit()
            },
            None => state.phase.in_event_branch(),
        },
{
}

/// The event branch is left only by a commit that succeeded: if a run of
/// inputs starts in the branch and ends outside of it, one of the inputs was
/// the success of a commit, taken while the loop waited for it.
pub proof fn lemma_event_branch_ends_with_commit(
    state: IndexerView,
    storage: &Storage,
    inputs: Seq<(nat, InputView)>,
)
    requires
        state.phase.in_event_branch(),
        !state.run(storage, inputs).phase.in_event_branch(),
    ensures
        exists|i: int|
            0 <= i < inputs.len() && (#[trigger] state.run(storage, inputs.take(i))).phase
                is Committing && inputs[i].1 == (InputView::Committed { ok: true }),
    decreases inputs.len(),
{
    if inputs.len() > 0 {
        let before = state.run(storage, inputs.drop_last());
        if before.phase.in_event_branch() {
            lemma_commit_always_attempted(before, storage, inputs.last().0, inputs.last().1);
        } else {
            lemma_event_branch_ends_with_commit(state, storage, inputs.drop_last());
            let i = choose|i: int|
                0 <= i < inputs.drop_last().len() && (#[trigger] state.run(
                    storage,
                    inputs.drop_last().take(i),
                )).phase is Committing && inputs.drop_last()[i].1 == (InputView::Committed {
                    ok: true,
                });
            assert(inputs.drop_last().take(i) =~= inputs.take(i));
        }
    }
}

/// The timer does not depend on the messages: only the end of a timer branch
/// touches it, and sets it one interval after the time at which the branch
/// ended. The interval never changes.
pub proof fn lemma_timer_independent_of_events(
    state: IndexerView,
    storage: &Storage,
    now: nat,
    input: InputView,
)
    ensures
        match state.step(storage, now, input) {
            Some((next, _)) => {
                &&& next.interval == state.interval
                &&& next.next_sync == if state.reschedules(input) {
                    now + state.interval
                } else {
                    state.next_sync
                }
            },
            None => !state.reschedules(input),
        },
{
}

/// Whether the clock did not run backwards during a run of inputs: each
/// timer branch ended no earlier than the time for which the timer was set.
pub open spec fn timely(state: IndexerView, storage: &Storage, inputs: Seq<(nat, InputView)>) -> bool {
    forall|i: int|
        0 <= i < inputs.len() && (#[trigger] state.run(storage, inputs.take(i))).reschedules(
            inputs[i].1,
        ) ==> inputs[i].0 >= state.run(storage, inputs.take(i)).next_sync
}

/// The time for which the timer is set only moves forward, however many
/// messages are handled in between.
pub proof fn lemma_next_sync_moves_forward(
    state: IndexerView,
    storage: &Storage,
    inputs: Seq<(nat, InputView)>,
)
    requires
        timely(state, storage, inputs),
    ensures
        state.run(storage, inputs).next_sync >= state.next_sync,
        state.run(storage, inputs).interval == state.interval,
    decreases inputs.len(),
{
    if inputs.len() > 0 {
        let head = inputs.drop_last();
        assert forall|i: int|
            0 <= i < head.len() && (#[trigger] state.run(storage, head.take(i))).reschedules(
                head[i].1,
            ) implies head[i].0 >= state.run(storage, head.take(i)).next_sync by {
            assert(head.take(i) =~= inputs.take(i));
        }
        lemma_next_sync_moves_forward(state, storage, head);
        let before = state.run(storage, head);
        lemma_timer_independent_of_events(before, storage, inputs.last().0, inputs.last().1);
    }
}

} // verus!
