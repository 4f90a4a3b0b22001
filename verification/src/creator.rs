//! What the path creator decides.
//!
//! Creating entries is a conversation with the filesystem: whether a path
//! exists decides what is tried next, and what fails decides what is reported.
//! The [`Creator`] holds the decisions of that conversation. It names one
//! [`Action`] at a time; the caller performs it and answers with an [`Event`].
//! Paths are dealt with one after the other, in the order given, and each ends
//! with one status line, whatever happened to the paths before it.

use crate::path::{directory, directory_of, leaf_kind, leaf_kind_of, parent, parent_of, LeafKind};
use vstd::prelude::*;
use vstd::string::*;

verus! {

/// Where a status line is written.
#[derive(Debug, Copy, Clone, PartialEq, Eq, Structural)]
pub enum Channel {
    /// Standard output: what went well.
    Stdout,
    /// Standard error: what failed.
    Stderr,
}

/// How the status line for a path that exists begins.
pub const ALREADY_EXISTS: &'static str = "Path already exists: ";

/// How the status line for a directory that could not be created begins.
pub const DIRECTORY_FAILED: &'static str = "Error creating directory ";

/// How the status line for a file that could not be created begins.
pub const FILE_FAILED: &'static str = "Error creating file ";

/// What stands between the path and the reason in a status line.
pub const BECAUSE: &'static str = ": ";

/// How dealing with one path ended.
#[derive(Debug, Clone, PartialEq, Eq)]
pub enum CreationOutcome {
    /// Something was there already; nothing was changed.
    AlreadyExists,
    /// An empty file was created.
    CreatedFile,
    /// A directory was created.
    CreatedDirectory,
    /// The missing ancestors could not be created, for the reason given; the
    /// path itself was not attempted.
    ParentCreationFailed(String),
    /// The entry itself could not be created, for the reason given.
    CreationFailed(String),
}

/// A [`CreationOutcome`] with its text as a sequence of characters.
pub enum OutcomeView {
    AlreadyExists,
    CreatedFile,
    CreatedDirectory,
    ParentCreationFailed(Seq<char>),
    CreationFailed(Seq<char>),
}

impl View for CreationOutcome {
    type V = OutcomeView;

    open spec fn view(&self) -> OutcomeView {
        match self {
            CreationOutcome::AlreadyExists => OutcomeView::AlreadyExists,
            CreationOutcome::CreatedFile => OutcomeView::CreatedFile,
            CreationOutcome::CreatedDirectory => OutcomeView::CreatedDirectory,
            CreationOutcome::ParentCreationFailed(reason) => OutcomeView::ParentCreationFailed(
                reason@,
            ),
            CreationOutcome::CreationFailed(reason) => OutcomeView::CreationFailed(reason@),
        }
    }
}

impl OutcomeView {
    /// Failures go to standard error, everything else to standard output.
    pub open spec fn channel(self) -> Channel {
        match self {
            OutcomeView::ParentCreationFailed(_) | OutcomeView::CreationFailed(_) => Channel::Stderr,
            _ => Channel::Stdout,
        }
    }

    /// The status line for `path`, without the end of line.
    ///
    /// A created entry is reported by an empty line. A failure names what could
    /// not be created (the directory part of `path`, or `path` itself) and the
    /// reason.
    pub open spec fn status_line(self, path: Seq<char>) -> Seq<char> {
        match self {
            OutcomeView::AlreadyExists => ALREADY_EXISTS@ + path,
            OutcomeView::CreatedFile | OutcomeView::CreatedDirectory => Seq::empty(),
            OutcomeView::ParentCreationFailed(reason) => DIRECTORY_FAILED@ + directory_of(path)
                + BECAUSE@ + reason,
            OutcomeView::CreationFailed(reason) => match leaf_kind_of(path) {
                LeafKind::File => FILE_FAILED@ + path + BECAUSE@ + reason,
                LeafKind::Directory => DIRECTORY_FAILED@ + path + BECAUSE@ + reason,
            },
        }
    }
}

impl CreationOutcome {
    /// The channel on which this outcome is reported.
    pub fn channel(&self) -> (channel: Channel)
        ensures
            channel == self@.channel(),
    {
        match self {
            CreationOutcome::ParentCreationFailed(_) | CreationOutcome::CreationFailed(_) => {
                Channel::Stderr
            },
            _ => Channel::Stdout,
        }
    }

    /// The status line by which this outcome is reported for `path`, without
    /// the end of line.
    pub fn status_line(&self, path: &str) -> (line: String)
        ensures
            line@ == self@.status_line(path@),
    {
        match self {
            CreationOutcome::AlreadyExists => {
                let mut line = String::from_str(ALREADY_EXISTS);
                line.append(path);
                line
            },
            CreationOutcome::CreatedFile | CreationOutcome::CreatedDirectory => String::new(),
            CreationOutcome::ParentCreationFailed(reason) => {
                let dir = directory(path);
                failure_line(DIRECTORY_FAILED, dir.as_str(), reason.as_str())
            },
            CreationOutcome::CreationFailed(reason) => match leaf_kind(path) {
                LeafKind::File => failure_line(FILE_FAILED, path, reason.as_str()),
                LeafKind::Directory => failure_line(DIRECTORY_FAILED, path, reason.as_str()),
            },
        }
    }
}

/// A line that names what could not be created, and why.
fn failure_line(what: &str, target: &str, reason: &str) -> (line: String)
    ensures
        line@ == what@ + target@ + BECAUSE@ + reason@,
{
    let mut line = String::from_str(what);
    line.append(target);
    line.append(BECAUSE);
    line.append(reason);
    line
}

/// What the caller is asked to do next.
#[derive(Debug, Clone, PartialEq, Eq)]
pub enum Action {
    /// Find out whether anything exists at this path.
    Probe(String),
    /// Create the directory at this path, with every ancestor that is missing.
    CreateAll(String),
    /// Create an empty file at this path.
    CreateFile(String),
    /// Create the one directory at this path; its parent is there.
    CreateDirectory(String),
    /// Write this line, and an end of line, to the channel.
    Report(Channel, String),
    /// Nothing is left to do: every path was dealt with.
    Finish,
    /// A status line could not be written: give up, with the error of that write.
    Abort,
}

/// An [`Action`] with its text as a sequence of characters.
pub enum ActionView {
    Probe(Seq<char>),
    CreateAll(Seq<char>),
    CreateFile(Seq<char>),
    CreateDirectory(Seq<char>),
    Report(Channel, Seq<char>),
    Finish,
    Abort,
}

impl View for Action {
    type V = ActionView;

    open spec fn view(&self) -> ActionView {
        match self {
            Action::Probe(path) => ActionView::Probe(path@),
            Action::CreateAll(path) => ActionView::CreateAll(path@),
            Action::CreateFile(path) => ActionView::CreateFile(path@),
            Action::CreateDirectory(path) => ActionView::CreateDirectory(path@),
            Action::Report(channel, line) => ActionView::Report(*channel, line@),
            Action::Finish => ActionView::Finish,
            Action::Abort => ActionView::Abort,
        }
    }
}

/// What came of the action that was asked for.
#[derive(Debug, Clone, PartialEq, Eq)]
pub enum Event {
    /// The probed path exists.
    Found,
    /// Nothing exists at the probed path.
    Missing,
    /// What was to be created is there now.
    Created,
    /// It could not be created; the text is the reason that the system gave.
    Refused(String),
    /// The status line was written.
    Written,
    /// The status line could not be written.
    Unwritable,
}

/// An [`Event`] with its text as a sequence of characters.
pub enum EventView {
    Found,
    Missing,
    Created,
    Refused(Seq<char>),
    Written,
    Unwritable,
}

impl View for Event {
    type V = EventView;

    open spec fn view(&self) -> EventView {
        match self {
            Event::Found => EventView::Found,
            Event::Missing => EventView::Missing,
            Event::Created => EventView::Created,
            Event::Refused(reason) => EventView::Refused(reason@),
            Event::Written => EventView::Written,
            Event::Unwritable => EventView::Unwritable,
        }
    }
}

/// Where the creator stands with the path at hand.
pub enum PhaseView {
    /// It asks whether the path exists.
    Probe,
    /// It asks whether the parent exists.
    ProbeParent,
    /// It has the missing ancestors created.
    Parents,
    /// It has the entry itself created.
    Leaf,
    /// It has the outcome reported.
    Report(OutcomeView),
    /// Every path was dealt with.
    Finished,
    /// A status line could not be written.
    Aborted,
}

/// The creator as contracts see it: the paths, how many of them were dealt
/// with, and where it stands with the next one.
pub struct CreatorView {
    pub paths: Seq<Seq<char>>,
    pub index: int,
    pub phase: PhaseView,
}

impl CreatorView {
    /// The creator that is about to begin with path number `index`.
    pub open spec fn at(paths: Seq<Seq<char>>, index: int) -> CreatorView {
        CreatorView {
            paths,
            index,
            phase: if index < paths.len() {
                PhaseView::Probe
            } else {
                PhaseView::Finished
            },
        }
    }

    /// The creator before anything was done.
    pub open spec fn start(paths: Seq<Seq<char>>) -> CreatorView {
        CreatorView::at(paths, 0)
    }

    /// The path at hand.
    pub open spec fn path(self) -> Seq<char> {
        self.paths[self.index]
    }

    /// The same creator in another phase.
    pub open spec fn turn(self, phase: PhaseView) -> CreatorView {
        CreatorView { phase, ..self }
    }

    /// What every creator satisfies: it is finished exactly when no path is
    /// left, and it turns to a parent only where the path has one.
    pub open spec fn wf(self) -> bool {
        &&& 0 <= self.index <= self.paths.len()
        &&& self.phase is Finished <==> self.index == self.paths.len()
        &&& (self.phase is ProbeParent || self.phase is Parents) ==> parent_of(self.path()) is Some
    }

    /// Whether the conversation is over.
    pub open spec fn done(self) -> bool {
        self.phase is Finished || self.phase is Aborted
    }

    /// The action that the creator asks for.
    pub open spec fn pending(self) -> ActionView {
        match self.phase {
            PhaseView::Probe => ActionView::Probe(self.path()),
            PhaseView::ProbeParent => ActionView::Probe(directory_of(self.path())),
            PhaseView::Parents => ActionView::CreateAll(directory_of(self.path())),
            PhaseView::Leaf => match leaf_kind_of(self.path()) {
                LeafKind::File => ActionView::CreateFile(self.path()),
                LeafKind::Directory => ActionView::CreateDirectory(self.path()),
            },
            PhaseView::Report(outcome) => ActionView::Report(
                outcome.channel(),
                outcome.status_line(self.path()),
            ),
            PhaseView::Finished => ActionView::Finish,
            PhaseView::Aborted => ActionView::Abort,
        }
    }

    /// Whether `event` is an answer to the pending action.
    pub open spec fn answers(self, event: EventView) -> bool {
        match self.phase {
            PhaseView::Probe | PhaseView::ProbeParent => event is Found || event is Missing,
            PhaseView::Parents | PhaseView::Leaf => event is Created || event is Refused,
            PhaseView::Report(_) => event is Written || event is Unwritable,
            PhaseView::Finished | PhaseView::Aborted => false,
        }
    }

    /// The creator after `event`.
    ///
    /// A path that exists is reported and left alone. Of a path that does not,
    /// the parent is looked at first: if it is missing it is created with all
    /// its ancestors, and if that fails the failure is reported and the path is
    /// not attempted. Then the entry is created, as a file or as a directory,
    /// and the result is reported. Once the line is written the next path
    /// begins; if it cannot be written, everything stops. An event that does
    /// not answer the pending action changes nothing.
    pub open spec fn next(self, event: EventView) -> CreatorView {
        match (self.phase, event) {
            (PhaseView::Probe, EventView::Found) => self.turn(
                PhaseView::Report(OutcomeView::AlreadyExists),
            ),
            (PhaseView::Probe, EventView::Missing) => if parent_of(self.path()) is Some {
                self.turn(PhaseView::ProbeParent)
            } else {
                self.turn(PhaseView::Leaf)
            },
            (PhaseView::ProbeParent, EventView::Found) => self.turn(PhaseView::Leaf),
            (PhaseView::ProbeParent, EventView::Missing) => self.turn(PhaseView::Parents),
            (PhaseView::Parents, EventView::Created) => self.turn(PhaseView::Leaf),
            (PhaseView::Parents, EventView::Refused(reason)) => self.turn(
                PhaseView::Report(OutcomeView::ParentCreationFailed(reason)),
            ),
            (PhaseView::Leaf, EventView::Created) => match leaf_kind_of(self.path()) {
                LeafKind::File => self.turn(PhaseView::Report(OutcomeView::CreatedFile)),
                LeafKind::Directory => self.turn(PhaseView::Report(OutcomeView::CreatedDirectory)),
            },
            (PhaseView::Leaf, EventView::Refused(reason)) => self.turn(
                PhaseView::Report(OutcomeView::CreationFailed(reason)),
            ),
            (PhaseView::Report(_), EventView::Written) => CreatorView::at(
                self.paths,
                self.index + 1,
            ),
            (PhaseView::Report(_), EventView::Unwritable) => self.turn(PhaseView::Aborted),
            _ => self,
        }
    }

    /// A bound on the number of answers that the creator can still take: five
    /// for each path that is left, less what was done for the path at hand.
    pub open spec fn remaining(self) -> nat {
        let ahead = 5 * (self.paths.len() - self.index);
        match self.phase {
            PhaseView::Probe => ahead as nat,
            PhaseView::ProbeParent => (ahead - 1) as nat,
            PhaseView::Parents => (ahead - 2) as nat,
            PhaseView::Leaf => (ahead - 3) as nat,
            PhaseView::Report(_) => (ahead - 4) as nat,
            PhaseView::Finished | PhaseView::Aborted => 0,
        }
    }

    /// The creator after a whole conversation: `events` one after the other.
    pub open spec fn run(self, events: Seq<EventView>) -> CreatorView
        decreases events.len(),
    {
        if events.len() == 0 {
            self
        } else {
            self.run(events.drop_last()).next(events.last())
        }
    }

    /// How many of `events` answered the action that was pending when they came.
    pub open spec fn answered(self, events: Seq<EventView>) -> nat
        decreases events.len(),
    {
        if events.len() == 0 {
            0
        } else {
            let earlier = self.answered(events.drop_last());
            if self.run(events.drop_last()).answers(events.last()) {
                earlier + 1
            } else {
                earlier
            }
        }
    }

    /// The numbers of the paths whose status line was written in the course
    /// of `events`, in the order of writing.
    pub open spec fn reported(self, events: Seq<EventView>) -> Seq<int>
        decreases events.len(),
    {
        if events.len() == 0 {
            Seq::empty()
        } else {
            let before = self.run(events.drop_last());
            let earlier = self.reported(events.drop_last());
            if before.phase is Report && events.last() is Written {
                earlier.push(before.index)
            } else {
                earlier
            }
        }
    }
}

/// Where the creator stands, as it is stored.
enum Phase {
    Probe,
    ProbeParent,
    Parents,
    Leaf,
    Report(CreationOutcome),
    Finished,
    Aborted,
}

impl View for Phase {
    type V = PhaseView;

    closed spec fn view(&self) -> PhaseView {
        match self {
            Phase::Probe => PhaseView::Probe,
            Phase::ProbeParent => PhaseView::ProbeParent,
            Phase::Parents => PhaseView::Parents,
            Phase::Leaf => PhaseView::Leaf,
            Phase::Report(outcome) => PhaseView::Report(outcome@),
            Phase::Finished => PhaseView::Finished,
            Phase::Aborted => PhaseView::Aborted,
        }
    }
}

/// The decisions of one run over a list of paths.
pub struct Creator {
    paths: Vec<String>,
    /// The number of the path at hand; while the creator is not finished it
    /// is less than the number of paths.
    index: usize,
    phase: Phase,
}

impl View for Creator {
    type V = CreatorView;

    closed spec fn view(&self) -> CreatorView {
        CreatorView {
            paths: self.paths.deep_view(),
            index: if self.phase is Finished {
                self.paths.len() as int
            } else {
                self.index as int
            },
            phase: self.phase@,
        }
    }
}

impl Creator {
    #[verifier::type_invariant]
    spec fn sound(self) -> bool {
        &&& self@.wf()
        &&& !(self.phase is Finished) ==> self.index < self.paths.len()
    }

    /// A creator for `paths`, about to begin with the first of them.
    pub fn new(paths: Vec<String>) -> (creator: Creator)
        ensures
            creator@ == CreatorView::start(paths.deep_view()),
            creator@.wf(),
    {
        if paths.len() == 0 {
            Creator { paths, index: 0, phase: Phase::Finished }
        } else {
            Creator { paths, index: 0, phase: Phase::Probe }
        }
    }

    /// The action that the creator asks for. It does not change until an
    /// event that answers it is handed to [`Creator::step`].
    pub fn action(&self) -> (action: Action)
        ensures
            action@ == self@.pending(),
            self@.wf(),
    {
        proof {
            use_type_invariant(self);
        }
        match &self.phase {
            Phase::Finished => Action::Finish,
            Phase::Aborted => Action::Abort,
            Phase::Probe => Action::Probe(self.paths[self.index].clone()),
            Phase::ProbeParent => Action::Probe(directory(self.paths[self.index].as_str())),
            Phase::Parents => Action::CreateAll(directory(self.paths[self.index].as_str())),
            Phase::Leaf => {
                let path = &self.paths[self.index];
                match leaf_kind(path.as_str()) {
                    LeafKind::File => Action::CreateFile(path.clone()),
                    LeafKind::Directory => Action::CreateDirectory(path.clone()),
                }
            },
            Phase::Report(outcome) => Action::Report(
                outcome.channel(),
                outcome.status_line(self.paths[self.index].as_str()),
            ),
        }
    }

    /// Takes what came of the pending action, and moves on.
    pub fn step(&mut self, event: Event)
        ensures
            final(self)@ == old(self)@.next(event@),
            old(self)@.wf(),
            final(self)@.wf(),
    {
        proof {
            use_type_invariant(&*self);
        }
        match (&self.phase, event) {
            (Phase::Probe, Event::Found) => {
                self.phase = Phase::Report(CreationOutcome::AlreadyExists);
            },
            (Phase::Probe, Event::Missing) => {
                if parent(self.paths[self.index].as_str()).is_some() {
                    self.phase = Phase::ProbeParent;
                } else {
                    self.phase = Phase::Leaf;
                }
            },
            (Phase::ProbeParent, Event::Found) => {
                self.phase = Phase::Leaf;
            },
            (Phase::ProbeParent, Event::Missing) => {
                self.phase = Phase::Parents;
            },
            (Phase::Parents, Event::Created) => {
                self.phase = Phase::Leaf;
            },
            (Phase::Parents, Event::Refused(reason)) => {
                self.phase = Phase::Report(CreationOutcome::ParentCreationFailed(reason));
            },
            (Phase::Leaf, Event::Created) => {
                match leaf_kind(self.paths[self.index].as_str()) {
                    LeafKind::File => {
                        self.phase = Phase::Report(CreationOutcome::CreatedFile);
                    },
                    LeafKind::Directory => {
                        self.phase = Phase::Report(CreationOutcome::CreatedDirectory);
                    },
                }
            },
            (Phase::Leaf, Event::Refused(reason)) => {
                self.phase = Phase::Report(CreationOutcome::CreationFailed(reason));
            },
            (Phase::Report(_), Event::Written) => {
                if self.index + 1 < self.paths.len() {
                    self.index = self.index + 1;
                    self.phase = Phase::Probe;
                } else {
                    self.phase = Phase::Finished;
                }
            },
            (Phase::Report(_), Event::Unwritable) => {
                self.phase = Phase::Aborted;
            },
            _ => {},
        }
    }
}

/// The creator begins well-formed, wherever in the list it begins.
pub proof fn lemma_start_is_well_formed(paths: Seq<Seq<char>>, index: int)
    requires
        0 <= index <= paths.len(),
    ensures
        CreatorView::at(paths, index).wf(),
        CreatorView::start(paths).wf(),
{
}

/// Every event leaves the creator well-formed.
pub proof fn lemma_next_is_well_formed(creator: CreatorView, event: EventView)
    requires
        creator.wf(),
    ensures
        creator.next(event).wf(),
{
}

/// Every answer brings the end nearer, so no conversation goes on forever:
/// five answers for each path are the most. An event that answers nothing
/// changes nothing, and when the creator is done nothing answers.
pub proof fn lemma_progress(creator: CreatorView, event: EventView)
    requires
        creator.wf(),
    ensures
        creator.answers(event) ==> creator.next(event).remaining() < creator.remaining(),
        !creator.answers(event) ==> creator.next(event) == creator,
        creator.done() <==> creator.remaining() == 0,
        creator.remaining() <= 5 * creator.paths.len(),
{
}

/// The paths are never changed, and they are taken in order: only a status
/// line that was written moves the creator on, by one path. From there it
/// begins afresh, whatever the outcome was that it reported.
pub proof fn lemma_one_line_per_path(creator: CreatorView, event: EventView)
    requires
        creator.wf(),
    ensures
        creator.next(event).paths == creator.paths,
        creator.phase is Report && event is Written ==> creator.next(event) == CreatorView::at(
            creator.paths,
            creator.index + 1,
        ),
        !(creator.phase is Report && event is Written) ==> creator.next(event).index
            == creator.index,
{
}

/// Whatever is answered, the status lines are written for the paths in the
/// order given, one for each, without a gap: when the creator has come to path
/// number `n`, the lines written so far are those of the paths before `n`.
pub proof fn lemma_reports_in_order(creator: CreatorView, events: Seq<EventView>)
    requires
        creator.wf(),
    ensures
        creator.run(events).wf(),
        creator.run(events).paths == creator.paths,
        creator.index <= creator.run(events).index,
        creator.reported(events) == Seq::new(
            (creator.run(events).index - creator.index) as nat,
            |k: int| creator.index + k,
        ),
    decreases events.len(),
{
    if events.len() > 0 {
        let before = creator.run(events.drop_last());
        lemma_reports_in_order(creator, events.drop_last());
        lemma_next_is_well_formed(before, events.last());
        lemma_one_line_per_path(before, events.last());
    }
}

/// Every run comes to an end: whatever is answered, and whatever fails, the
/// creator takes no more than five answers for each path before it is done.
pub proof fn lemma_every_run_ends(creator: CreatorView, events: Seq<EventView>)
    requires
        creator.wf(),
    ensures
        creator.answered(events) + creator.run(events).remaining() <= creator.remaining(),
        creator.answered(events) <= 5 * creator.paths.len(),
        creator.answered(events) == creator.remaining() ==> creator.run(events).done(),
    decreases events.len(),
{
    lemma_progress(creator, EventView::Found);
    if events.len() > 0 {
        let before = creator.run(events.drop_last());
        lemma_every_run_ends(creator, events.drop_last());
        lemma_reports_in_order(creator, events.drop_last());
        lemma_progress(before, events.last());
    }
    lemma_reports_in_order(creator, events);
    lemma_progress(creator.run(events), EventView::Found);
}

/// What the creator asks to create is decided by the path at hand alone: a file
/// where the final segment carries an extension, a directory where it does not,
/// and before that the parent of the path with its ancestors, nothing else.
pub proof fn lemma_what_is_created(creator: CreatorView)
    requires
        creator.wf(),
    ensures
        creator.phase is Leaf ==> creator.pending() == (match leaf_kind_of(creator.path()) {
            LeafKind::File => ActionView::CreateFile(creator.path()),
            LeafKind::Directory => ActionView::CreateDirectory(creator.path()),
        }),
        creator.pending() matches ActionView::CreateFile(target) ==> creator.phase is Leaf && target
            == creator.path() && leaf_kind_of(target) == LeafKind::File,
        creator.pending() matches ActionView::CreateDirectory(target) ==> creator.phase is Leaf
            && target == creator.path() && leaf_kind_of(target) == LeafKind::Directory,
        creator.pending() matches ActionView::CreateAll(target) ==> creator.phase is Parents
            && parent_of(creator.path()) == Some(target),
{
}

/// A path that does not exist, below a parent that does not exist either, is
/// created in two steps when nothing fails: first the parent with its missing
/// ancestors, then the entry, as a file or a directory by its extension. The
/// success is reported by an empty line on standard output.
pub proof fn lemma_missing_path_is_created(creator: CreatorView)
    requires
        creator.wf(),
        creator.phase is Probe,
        parent_of(creator.path()) is Some,
    ensures
        ({
            let path = creator.path();
            let probed = creator.next(EventView::Missing);
            let parent_probed = probed.next(EventView::Missing);
            let parent_made = parent_probed.next(EventView::Created);
            let made = parent_made.next(EventView::Created);
            &&& creator.pending() == ActionView::Probe(path)
            &&& probed.pending() == ActionView::Probe(parent_of(path)->0)
            &&& parent_probed.pending() == ActionView::CreateAll(parent_of(path)->0)
            &&& parent_made.pending() == (match leaf_kind_of(path) {
                LeafKind::File => ActionView::CreateFile(path),
                LeafKind::Directory => ActionView::CreateDirectory(path),
            })
            &&& made.pending() == ActionView::Report(Channel::Stdout, Seq::empty())
            &&& made.next(EventView::Written) == CreatorView::at(creator.paths, creator.index + 1)
        }),
{
}

/// A path whose parent is there, or that needs none, is created in one step.
pub proof fn lemma_leaf_alone_is_created(creator: CreatorView)
    requires
        creator.wf(),
        creator.phase is Probe,
    ensures
        ({
            let path = creator.path();
            let probed = creator.next(EventView::Missing);
            let ready = if parent_of(path) is Some {
                probed.next(EventView::Found)
            } else {
                probed
            };
            let made = ready.next(EventView::Created);
            &&& parent_of(path) is Some ==> probed.pending() == ActionView::Probe(
                parent_of(path)->0,
            )
            &&& ready.pending() == (match leaf_kind_of(path) {
                LeafKind::File => ActionView::CreateFile(path),
                LeafKind::Directory => ActionView::CreateDirectory(path),
            })
            &&& made.pending() == ActionView::Report(Channel::Stdout, Seq::empty())
            &&& made.next(EventView::Written) == CreatorView::at(creator.paths, creator.index + 1)
        }),
{
}

/// A path that exists is left alone: the creator asks for nothing but the
/// line that says so, on standard output, and goes on to the next path.
pub proof fn lemma_existing_path_is_left_alone(creator: CreatorView)
    requires
        creator.wf(),
        creator.phase is Probe,
    ensures
        ({
            let found = creator.next(EventView::Found);
            &&& found.pending() == ActionView::Report(
                Channel::Stdout,
                ALREADY_EXISTS@ + creator.path(),
            )
            &&& found.next(EventView::Written) == CreatorView::at(creator.paths, creator.index + 1)
        }),
{
}

/// A failure ends the path at hand and no other. When the ancestors cannot be
/// created the entry is not attempted; either failure is reported on standard
/// error with what could not be created and the reason, and the next path
/// begins as if nothing had happened.
pub proof fn lemma_failure_stays_with_its_path(creator: CreatorView, reason: Seq<char>)
    requires
        creator.wf(),
        creator.phase is Parents || creator.phase is Leaf,
    ensures
        ({
            let path = creator.path();
            let failed = creator.next(EventView::Refused(reason));
            let what = if creator.phase is Parents {
                DIRECTORY_FAILED@ + parent_of(path)->0
            } else if leaf_kind_of(path) == LeafKind::File {
                FILE_FAILED@ + path
            } else {
                DIRECTORY_FAILED@ + path
            };
            &&& failed.pending() == ActionView::Report(Channel::Stderr, what + BECAUSE@ + reason)
            &&& failed.next(EventView::Written) == CreatorView::at(creator.paths, creator.index + 1)
        }),
{
}

/// When a status line cannot be written the creator gives up for good: it
/// asks for nothing more, and no event moves it.
pub proof fn lemma_unwritable_line_ends_all(creator: CreatorView, event: EventView)
    requires
        creator.wf(),
        creator.phase is Report,
    ensures
        creator.next(EventView::Unwritable).pending() == ActionView::Abort,
        creator.next(EventView::Unwritable).next(event) == creator.next(EventView::Unwritable),
{
}

/// The answers of a filesystem in which the first `n` paths all exist, and of
/// channels that take every line: for each path "found", then "written".
pub open spec fn all_found(n: nat) -> Seq<EventView>
    decreases n,
{
    if n == 0 {
        Seq::empty()
    } else {
        all_found((n - 1) as nat).push(EventView::Found).push(EventView::Written)
    }
}

/// Where every path exists, a run changes nothing: for each path in turn the
/// creator asks whether it exists and has the line written that says so, and
/// it asks for nothing else until it is finished. (After `at` answers it is
/// busy with path number `at / 2`.)
pub proof fn lemma_all_existing(paths: Seq<Seq<char>>, n: nat)
    requires
        n <= paths.len(),
    ensures
        all_found(n).len() == 2 * n,
        CreatorView::start(paths).run(all_found(n)) == CreatorView::at(paths, n as int),
        forall|at: int|
            0 <= at < 2 * n ==> CreatorView::start(paths).run(
                #[trigger] all_found(n).take(at),
            ).pending() == (if at % 2 == 0 {
                ActionView::Probe(paths[at / 2])
            } else {
                ActionView::Report(Channel::Stdout, ALREADY_EXISTS@ + paths[at / 2])
            }),
    decreases n,
{
    let start = CreatorView::start(paths);
    if n > 0 {
        let m = (n - 1) as nat;
        let earlier = all_found(m);
        let probed = earlier.push(EventView::Found);
        let all = all_found(n);
        lemma_all_existing(paths, m);
        assert(probed.drop_last() == earlier);
        assert(all.drop_last() == probed);
        assert(start.run(probed) == start.run(earlier).next(EventView::Found));
        assert(start.run(all) == start.run(probed).next(EventView::Written));
        assert forall|at: int| 0 <= at < 2 * n implies start.run(
            #[trigger] all.take(at),
        ).pending() == (if at % 2 == 0 {
            ActionView::Probe(paths[at / 2])
        } else {
            ActionView::Report(Channel::Stdout, ALREADY_EXISTS@ + paths[at / 2])
        }) by {
            if at < 2 * m {
                assert(all.take(at) == earlier.take(at));
            } else if at == 2 * m {
                assert(all.take(at) == earlier);
            } else {
                assert(all.take(at) == probed);
            }
        }
    }
}

} // verus!
