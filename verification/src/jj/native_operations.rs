//! The changes of the repository, each one transaction: begin, read the
//! working-copy commit, mutate, commit. The transaction decides which
//! primitive of the repository is due next and what the whole amounts to;
//! the host performs each primitive and reports how it went. A primitive
//! that fails ends the transaction before anything is committed.

use vstd::prelude::*;
use vstd::string::*;
use crate::command::{text_view, Outcome, OutcomeView};
use crate::text::{decimal, decimal_digits, is_blank, is_blank_text, joined};

verus! {

/// A change of the repository, with the remote resolved.
#[derive(Debug, Clone, PartialEq, Eq)]
pub enum Operation {
    /// Give the working-copy commit a new description.
    Describe { message: String },
    /// Finish the working-copy commit and start an empty one on top of it.
    Commit { message: String },
    /// Fetch from a remote and take its references over.
    Fetch { remote: String },
    /// Start to track the bookmark of a remote.
    Track { bookmark: String, remote: String },
}

/// What an `Operation` stands for.
pub enum OperationView {
    Describe { message: Seq<char> },
    Commit { message: Seq<char> },
    Fetch { remote: Seq<char> },
    Track { bookmark: Seq<char>, remote: Seq<char> },
}

impl View for Operation {
    type V = OperationView;

    open spec fn view(&self) -> OperationView {
        match self {
            Operation::Describe { message } => OperationView::Describe { message: message@ },
            Operation::Commit { message } => OperationView::Commit { message: message@ },
            Operation::Fetch { remote } => OperationView::Fetch { remote: remote@ },
            Operation::Track { bookmark, remote } => OperationView::Track {
                bookmark: bookmark@,
                remote: remote@,
            },
        }
    }
}

/// One primitive of the repository handle.
#[derive(Debug, Clone, PartialEq, Eq)]
pub enum Primitive {
    /// Ask whether the bookmark of the remote is tracked, in the loaded
    /// view of the repository. Answered with a flag.
    IsTracked { bookmark: String, remote: String },
    /// Start a transaction.
    Begin,
    /// Read the id of the working-copy commit from the view of the
    /// transaction. Answered with `Missing` where there is none.
    ReadWorkingCopy,
    /// Load the commit whose id was read.
    LoadCommit,
    /// Rewrite the loaded commit with a new description. Answered with the
    /// id of the rewritten commit.
    Rewrite { description: String },
    /// Create a commit with an empty tree whose only parent is the
    /// rewritten commit.
    CreateChild,
    /// Point the working-copy marker at the commit just created.
    SetWorkingCopy,
    /// Rebase the descendants of every rewritten commit.
    RebaseDescendants,
    /// Expand the default fetch refspecs of the remote.
    ExpandRefspecs { remote: String },
    /// Fetch the expanded refspecs from the remote. The two switches are
    /// those of the import that follows: whether it creates a local
    /// bookmark for each new remote one, and whether it abandons the
    /// commits that are no longer reachable.
    Fetch { remote: String, auto_local_bookmark: bool, abandon_unreachable_commits: bool },
    /// Take the fetched references over into the view, as the switches of
    /// the fetch say. Answered with the number of remote bookmarks that
    /// changed.
    ImportRefs,
    /// Mark the bookmark of the remote as tracked.
    Track { bookmark: String, remote: String },
    /// Ask whether the local bookmark has a conflicted target. Answered
    /// with a flag.
    HasConflict { bookmark: String },
    /// Commit the transaction, described as given.
    Commit { description: String },
}

/// What a `Primitive` stands for.
pub enum PrimitiveView {
    IsTracked { bookmark: Seq<char>, remote: Seq<char> },
    Begin,
    ReadWorkingCopy,
    LoadCommit,
    Rewrite { description: Seq<char> },
    CreateChild,
    SetWorkingCopy,
    RebaseDescendants,
    ExpandRefspecs { remote: Seq<char> },
    Fetch { remote: Seq<char>, auto_local_bookmark: bool, abandon_unreachable_commits: bool },
    ImportRefs,
    Track { bookmark: Seq<char>, remote: Seq<char> },
    HasConflict { bookmark: Seq<char> },
    Commit { description: Seq<char> },
}

impl PrimitiveView {
    /// The primitive changes the view of the transaction or the store.
    pub open spec fn mutates(self) -> bool {
        self is Rewrite || self is CreateChild || self is SetWorkingCopy || self
            is RebaseDescendants || self is Fetch || self is ImportRefs || self is Track || self
            is Commit
    }
}

impl View for Primitive {
    type V = PrimitiveView;

    open spec fn view(&self) -> PrimitiveView {
        match self {
            Primitive::IsTracked { bookmark, remote } => PrimitiveView::IsTracked {
                bookmark: bookmark@,
                remote: remote@,
            },
            Primitive::Begin => PrimitiveView::Begin,
            Primitive::ReadWorkingCopy => PrimitiveView::ReadWorkingCopy,
            Primitive::LoadCommit => PrimitiveView::LoadCommit,
            Primitive::Rewrite { description } => PrimitiveView::Rewrite {
                description: description@,
            },
            Primitive::CreateChild => PrimitiveView::CreateChild,
            Primitive::SetWorkingCopy => PrimitiveView::SetWorkingCopy,
            Primitive::RebaseDescendants => PrimitiveView::RebaseDescendants,
            Primitive::ExpandRefspecs { remote } => PrimitiveView::ExpandRefspecs {
                remote: remote@,
            },
            Primitive::Fetch {
                remote,
                auto_local_bookmark,
                abandon_unreachable_commits,
            } => PrimitiveView::Fetch {
                remote: remote@,
                auto_local_bookmark: *auto_local_bookmark,
                abandon_unreachable_commits: *abandon_unreachable_commits,
            },
            Primitive::ImportRefs => PrimitiveView::ImportRefs,
            Primitive::Track { bookmark, remote } => PrimitiveView::Track {
                bookmark: bookmark@,
                remote: remote@,
            },
            Primitive::HasConflict { bookmark } => PrimitiveView::HasConflict {
                bookmark: bookmark@,
            },
            Primitive::Commit { description } => PrimitiveView::Commit {
                description: description@,
            },
        }
    }
}

/// How a primitive went.
#[derive(Debug, Clone, PartialEq, Eq)]
pub enum Reply {
    /// It is done.
    Done,
    /// It is done, and this is the id of the commit it wrote, in hex.
    Id(String),
    /// It is done, and this is the number it counted.
    Count(usize),
    /// The answer to a question.
    Flag(bool),
    /// There is no working-copy commit.
    Missing,
    /// It failed, for this cause.
    Failed(String),
}

/// What a `Reply` stands for.
pub enum ReplyView {
    Done,
    Id(Seq<char>),
    Count(usize),
    Flag(bool),
    Missing,
    Failed(Seq<char>),
}

impl View for Reply {
    type V = ReplyView;

    open spec fn view(&self) -> ReplyView {
        match self {
            Reply::Done => ReplyView::Done,
            Reply::Id(id) => ReplyView::Id(id@),
            Reply::Count(n) => ReplyView::Count(*n),
            Reply::Flag(b) => ReplyView::Flag(*b),
            Reply::Missing => ReplyView::Missing,
            Reply::Failed(cause) => ReplyView::Failed(cause@),
        }
    }
}

/// What is due next in a transaction.
#[derive(Debug, Clone, PartialEq, Eq)]
pub enum Step {
    /// The host performs the primitive and reports the reply.
    Ask(Primitive),
    /// The transaction is over, with this outcome. Unless the outcome is a
    /// success the host drops whatever the transaction has changed.
    Finish(Outcome),
}

/// What a `Step` stands for.
pub enum StepView {
    Ask(PrimitiveView),
    Finish(OutcomeView),
}

impl View for Step {
    type V = StepView;

    open spec fn view(&self) -> StepView {
        match self {
            Step::Ask(primitive) => StepView::Ask(primitive@),
            Step::Finish(outcome) => StepView::Finish(outcome@),
        }
    }
}

impl OperationView {
    /// The primitives of the operation, in the order in which they are due.
    pub open spec fn plan(self) -> Seq<PrimitiveView> {
        match self {
            OperationView::Describe { message } => seq![
                PrimitiveView::Begin,
                PrimitiveView::ReadWorkingCopy,
                PrimitiveView::LoadCommit,
                PrimitiveView::Rewrite { description: message },
                PrimitiveView::RebaseDescendants,
                PrimitiveView::Commit { description: "describe working copy"@ },
            ],
            OperationView::Commit { message } => seq![
                PrimitiveView::Begin,
                PrimitiveView::ReadWorkingCopy,
                PrimitiveView::LoadCommit,
                PrimitiveView::Rewrite { description: message },
                PrimitiveView::CreateChild,
                PrimitiveView::SetWorkingCopy,
                PrimitiveView::RebaseDescendants,
                PrimitiveView::Commit { description: "commit working copy"@ },
            ],
            OperationView::Fetch { remote } => seq![
                PrimitiveView::Begin,
                PrimitiveView::ExpandRefspecs { remote },
                PrimitiveView::Fetch {
                    remote,
                    auto_local_bookmark: false,
                    abandon_unreachable_commits: true,
                },
                PrimitiveView::ImportRefs,
                PrimitiveView::Commit { description: "fetch from git remote"@ },
            ],
            OperationView::Track { bookmark, remote } => seq![
                PrimitiveView::IsTracked { bookmark, remote },
                PrimitiveView::Begin,
                PrimitiveView::Track { bookmark, remote },
                PrimitiveView::HasConflict { bookmark },
                PrimitiveView::Commit {
                    description: "track remote bookmark "@ + bookmark + "@"@ + remote,
                },
            ],
        }
    }

    /// Why the operation is refused before anything is opened, if it is: a
    /// description or a commit message must hold more than whitespace.
    pub open spec fn refusal(self) -> Option<Seq<char>> {
        match self {
            OperationView::Describe { message } => if is_blank(message) {
                Some("Description message cannot be empty"@)
            } else {
                None
            },
            OperationView::Commit { message } => if is_blank(message) {
                Some("Commit message cannot be empty"@)
            } else {
                None
            },
            _ => None,
        }
    }
}

/// The confirmation that a bookmark is tracked already.
pub open spec fn already_tracked_text(bookmark: Seq<char>, remote: Seq<char>) -> Seq<char> {
    "Remote bookmark already tracked: "@ + bookmark + "@"@ + remote
}

/// The warning that is added where tracking left the local bookmark in
/// conflict.
pub open spec fn conflict_warning(bookmark: Seq<char>) -> Seq<char> {
    "\nWarning: Tracking created conflicts in local bookmark '"@ + bookmark
        + "'.\nRun 'jj log' or 'jj st' to see the conflicted state."@
}

/// A transaction under way: the operation, how many of its primitives
/// are done, and what their replies told.
#[derive(Debug, Clone, PartialEq, Eq)]
pub struct Transaction {
    pub operation: Operation,
    /// How many primitives of the plan are done.
    pub position: usize,
    /// The id of the rewritten commit, once it is known.
    pub commit_id: String,
    /// How many remote bookmarks the import changed.
    pub imported: usize,
    /// Whether tracking left the local bookmark in conflict.
    pub conflict: bool,
    /// Whether the transaction is over.
    pub finished: bool,
}

/// What a `Transaction` stands for.
pub struct TransactionView {
    pub operation: OperationView,
    pub position: nat,
    pub commit_id: Seq<char>,
    pub imported: nat,
    pub conflict: bool,
    pub finished: bool,
}

impl View for Transaction {
    type V = TransactionView;

    open spec fn view(&self) -> TransactionView {
        TransactionView {
            operation: self.operation@,
            position: self.position as nat,
            commit_id: self.commit_id@,
            imported: self.imported as nat,
            conflict: self.conflict,
            finished: self.finished,
        }
    }
}

impl TransactionView {
    /// The transaction before its first primitive.
    pub open spec fn fresh(operation: OperationView) -> TransactionView {
        TransactionView {
            operation,
            position: 0,
            commit_id: Seq::empty(),
            imported: 0,
            conflict: false,
            finished: false,
        }
    }

    /// The transaction has not gone beyond its plan, and while it is not
    /// over a primitive of the plan is due.
    pub open spec fn wf(self) -> bool {
        self.position <= self.operation.plan().len() && (!self.finished ==> self.position
            < self.operation.plan().len())
    }

    /// A primitive is due.
    pub open spec fn live(self) -> bool {
        !self.finished && self.position < self.operation.plan().len()
    }

    /// The primitive that is due.
    pub open spec fn due(self) -> PrimitiveView {
        self.operation.plan()[self.position as int]
    }

    /// The first step of an operation: its refusal, or its first primitive.
    pub open spec fn started(operation: OperationView) -> (TransactionView, StepView) {
        let fresh = TransactionView::fresh(operation);
        match operation.refusal() {
            Some(reason) => (
                TransactionView { finished: true, ..fresh },
                StepView::Finish(OutcomeView::Rejected { reason }),
            ),
            None => (fresh, StepView::Ask(fresh.due())),
        }
    }

    /// What the reply to the primitive that was due ends the transaction
    /// with, if it ends it early: a failure, a missing working-copy commit,
    /// or a bookmark that is tracked already.
    pub open spec fn early_end(self, reply: ReplyView) -> Option<OutcomeView> {
        match reply {
            ReplyView::Failed(cause) => Some(OutcomeView::Failed { cause }),
            ReplyView::Missing => if self.due() is ReadWorkingCopy {
                Some(OutcomeView::Failed { cause: "No working copy commit found"@ })
            } else {
                None
            },
            ReplyView::Flag(flag) => match self.due() {
                PrimitiveView::IsTracked { bookmark, remote } => if flag {
                    Some(OutcomeView::Unchanged { message: already_tracked_text(bookmark, remote) })
                } else {
                    None
                },
                _ => None,
            },
            _ => None,
        }
    }

    /// The transaction with what the reply told taken in and the primitive
    /// that was due counted as done.
    pub open spec fn absorbed(self, reply: ReplyView) -> TransactionView {
        let counted = TransactionView { position: self.position + 1, ..self };
        match reply {
            ReplyView::Id(id) => if self.due() is Rewrite {
                TransactionView { commit_id: id, ..counted }
            } else {
                counted
            },
            ReplyView::Count(n) => if self.due() is ImportRefs {
                TransactionView { imported: n as nat, ..counted }
            } else {
                counted
            },
            ReplyView::Flag(flag) => if self.due() is HasConflict {
                TransactionView { conflict: flag, ..counted }
            } else {
                counted
            },
            _ => counted,
        }
    }

    /// The confirmation of the committed transaction.
    pub open spec fn success_text(self) -> Seq<char> {
        match self.operation {
            OperationView::Describe { message } => "Working copy commit description updated to: "@
                + message,
            OperationView::Commit { message } => "Created commit "@ + self.commit_id
                + " with description: "@ + message,
            OperationView::Fetch { .. } => "Fetched from origin\n"@ + decimal_digits(self.imported)
                + " remote bookmarks imported"@,
            OperationView::Track { bookmark, .. } => if self.conflict {
                "Started tracking 1 remote bookmarks."@ + conflict_warning(bookmark)
            } else {
                "Started tracking 1 remote bookmarks."@
            },
        }
    }

    /// The transaction after the reply to the primitive that was due, and
    /// what is due next. A transaction that is over stays over.
    pub open spec fn advanced(self, reply: ReplyView) -> (TransactionView, StepView) {
        if !self.live() {
            (
                TransactionView { finished: true, ..self },
                StepView::Finish(OutcomeView::Failed { cause: "The transaction is over"@ }),
            )
        } else {
            match self.early_end(reply) {
                Some(outcome) => (
                    TransactionView { finished: true, ..self },
                    StepView::Finish(outcome),
                ),
                None => {
                    let next = self.absorbed(reply);
                    if next.position < self.operation.plan().len() {
                        (next, StepView::Ask(next.due()))
                    } else {
                        (
                            TransactionView { finished: true, ..next },
                            StepView::Finish(OutcomeView::Success { message: next.success_text() }),
                        )
                    }
                },
            }
        }
    }
}

impl Operation {
    /// The number of primitives of the operation.
    fn plan_len(&self) -> (n: usize)
        ensures
            n == self@.plan().len(),
            0 < n <= 8,
    {
        match self {
            Operation::Describe { .. } => 6,
            Operation::Commit { .. } => 8,
            Operation::Fetch { .. } => 5,
            Operation::Track { .. } => 5,
        }
    }

    /// The primitive at a position of the plan.
    fn primitive_at(&self, position: usize) -> (primitive: Primitive)
        requires
            position < self@.plan().len(),
        ensures
            primitive@ == self@.plan()[position as int],
    {
        match self {
            Operation::Describe { message } => {
                if position == 0 {
                    Primitive::Begin
                } else if position == 1 {
                    Primitive::ReadWorkingCopy
                } else if position == 2 {
                    Primitive::LoadCommit
                } else if position == 3 {
                    Primitive::Rewrite { description: message.clone() }
                } else if position == 4 {
                    Primitive::RebaseDescendants
                } else {
                    Primitive::Commit { description: String::from_str("describe working copy") }
                }
            },
            Operation::Commit { message } => {
                if position == 0 {
                    Primitive::Begin
                } else if position == 1 {
                    Primitive::ReadWorkingCopy
                } else if position == 2 {
                    Primitive::LoadCommit
                } else if position == 3 {
                    Primitive::Rewrite { description: message.clone() }
                } else if position == 4 {
                    Primitive::CreateChild
                } else if position == 5 {
                    Primitive::SetWorkingCopy
                } else if position == 6 {
                    Primitive::RebaseDescendants
                } else {
                    Primitive::Commit { description: String::from_str("commit working copy") }
                }
            },
            Operation::Fetch { remote } => {
                if position == 0 {
                    Primitive::Begin
                } else if position == 1 {
                    Primitive::ExpandRefspecs { remote: remote.clone() }
                } else if position == 2 {
                    Primitive::Fetch {
                        remote: remote.clone(),
                        auto_local_bookmark: false,
                        abandon_unreachable_commits: true,
                    }
                } else if position == 3 {
                    Primitive::ImportRefs
                } else {
                    Primitive::Commit { description: String::from_str("fetch from git remote") }
                }
            },
            Operation::Track { bookmark, remote } => {
                if position == 0 {
                    Primitive::IsTracked { bookmark: bookmark.clone(), remote: remote.clone() }
                } else if position == 1 {
                    Primitive::Begin
                } else if position == 2 {
                    Primitive::Track { bookmark: bookmark.clone(), remote: remote.clone() }
                } else if position == 3 {
                    Primitive::HasConflict { bookmark: bookmark.clone() }
                } else {
                    let described = joined("track remote bookmark ", bookmark.as_str());
                    let at = joined(described.as_str(), "@");
                    Primitive::Commit { description: joined(at.as_str(), remote.as_str()) }
                }
            },
        }
    }

    /// Why the operation is refused before anything is opened, if it is.
    fn refuse(&self) -> (reason: Option<String>)
        ensures
            text_view(reason) == self@.refusal(),
    {
        match self {
            Operation::Describe { message } => {
                if is_blank_text(message.as_str()) {
                    Some(String::from_str("Description message cannot be empty"))
                } else {
                    None
                }
            },
            Operation::Commit { message } => {
                if is_blank_text(message.as_str()) {
                    Some(String::from_str("Commit message cannot be empty"))
                } else {
                    None
                }
            },
            _ => None,
        }
    }
}

impl Transaction {
    /// Starts the transaction of an operation: refuses it, or asks for its
    /// first primitive.
    pub fn start(operation: Operation) -> (r: (Transaction, Step))
        ensures
            r.0@ == TransactionView::started(operation@).0,
            r.1@ == TransactionView::started(operation@).1,
            r.0@.wf(),
    {
        match operation.refuse() {
            Some(reason) => (
                Transaction {
                    operation,
                    position: 0,
                    commit_id: String::new(),
                    imported: 0,
                    conflict: false,
                    finished: true,
                },
                Step::Finish(Outcome::Rejected { reason }),
            ),
            None => {
                let first = operation.primitive_at(0);
                (
                    Transaction {
                        operation,
                        position: 0,
                        commit_id: String::new(),
                        imported: 0,
                        conflict: false,
                        finished: false,
                    },
                    Step::Ask(first),
                )
            },
        }
    }

    /// Whether a primitive is due.
    pub fn is_live(&self) -> (b: bool)
        ensures
            b == self@.live(),
    {
        !self.finished && self.position < self.operation.plan_len()
    }

    /// What the reply to the primitive that is due ends the transaction
    /// with, if it ends it early.
    fn end_early(&self, reply: &Reply) -> (outcome: Option<Outcome>)
        requires
            self@.live(),
        ensures
            outcome_of(outcome) == self@.early_end(reply@),
    {
        let due = self.operation.primitive_at(self.position);
        match reply {
            Reply::Failed(cause) => Some(Outcome::Failed { cause: cause.clone() }),
            Reply::Missing => match due {
                Primitive::ReadWorkingCopy => Some(
                    Outcome::Failed { cause: String::from_str("No working copy commit found") },
                ),
                _ => None,
            },
            Reply::Flag(flag) => match due {
                Primitive::IsTracked { bookmark, remote } => {
                    if *flag {
                        let named = joined("Remote bookmark already tracked: ", bookmark.as_str());
                        let at = joined(named.as_str(), "@");
                        Some(Outcome::Unchanged { message: joined(at.as_str(), remote.as_str()) })
                    } else {
                        None
                    }
                },
                _ => None,
            },
            _ => None,
        }
    }

    /// Takes in what the reply told and counts the primitive that was due
    /// as done.
    fn absorb(&mut self, reply: Reply)
        requires
            old(self)@.live(),
        ensures
            final(self)@ == old(self)@.absorbed(reply@),
    {
        let due = self.operation.primitive_at(self.position);
        match reply {
            Reply::Id(id) => match due {
                Primitive::Rewrite { .. } => {
                    self.commit_id = id;
                },
                _ => {},
            },
            Reply::Count(n) => match due {
                Primitive::ImportRefs => {
                    self.imported = n;
                },
                _ => {},
            },
            Reply::Flag(flag) => match due {
                Primitive::HasConflict { .. } => {
                    self.conflict = flag;
                },
                _ => {},
            },
            _ => {},
        }
        self.position = self.position + 1;
    }

    /// The confirmation of the committed transaction.
    fn success_message(&self) -> (text: String)
        ensures
            text@ == self@.success_text(),
    {
        match &self.operation {
            Operation::Describe { message } => joined(
                "Working copy commit description updated to: ",
                message.as_str(),
            ),
            Operation::Commit { message } => {
                let created = joined("Created commit ", self.commit_id.as_str());
                let with = joined(created.as_str(), " with description: ");
                joined(with.as_str(), message.as_str())
            },
            Operation::Fetch { .. } => {
                let count = decimal(self.imported);
                let fetched = joined("Fetched from origin\n", count.as_str());
                joined(fetched.as_str(), " remote bookmarks imported")
            },
            Operation::Track { bookmark, .. } => {
                if self.conflict {
                    let warned = joined(
                        "\nWarning: Tracking created conflicts in local bookmark '",
                        bookmark.as_str(),
                    );
                    let warning = joined(
                        warned.as_str(),
                        "'.\nRun 'jj log' or 'jj st' to see the conflicted state.",
                    );
                    let text = joined("Started tracking 1 remote bookmarks.", warning.as_str());
                    assert(text@ == self@.success_text());
                    text
                } else {
                    String::from_str("Started tracking 1 remote bookmarks.")
                }
            },
        }
    }

    /// Takes the reply to the primitive that was due and says what is due
    /// next.
    pub fn advance(&mut self, reply: Reply) -> (step: Step)
        ensures
            final(self)@ == old(self)@.advanced(reply@).0,
            step@ == old(self)@.advanced(reply@).1,
            old(self)@.wf() ==> final(self)@.wf(),
            step@ is Finish <==> final(self)@.finished,
    {
        if !self.is_live() {
            self.finished = true;
            return Step::Finish(
                Outcome::Failed { cause: String::from_str("The transaction is over") },
            );
        }
        match self.end_early(&reply) {
            Some(outcome) => {
                self.finished = true;
                Step::Finish(outcome)
            },
            None => {
                self.absorb(reply);
                if self.position < self.operation.plan_len() {
                    Step::Ask(self.operation.primitive_at(self.position))
                } else {
                    self.finished = true;
                    Step::Finish(Outcome::Success { message: self.success_message() })
                }
            },
        }
    }
}

/// What an optional outcome stands for.
pub open spec fn outcome_of(outcome: Option<Outcome>) -> Option<OutcomeView> {
    match outcome {
        Some(o) => Some(o@),
        None => None,
    }
}

/// The remote that an operation goes to: the one that is named, else the
/// default.
pub open spec fn resolved_remote(named: Option<Seq<char>>, default: Seq<char>) -> Seq<char> {
    match named {
        Some(remote) => remote,
        None => default,
    }
}

/// The default remote: the first that the repository knows, or `origin`
/// where it knows none.
pub open spec fn default_remote_of(known: Seq<String>) -> Seq<char> {
    if known.len() > 0 {
        known[0]@
    } else {
        "origin"@
    }
}

/// The characters of an optional string slice.
pub open spec fn slice_view(text: Option<&str>) -> Option<Seq<char>> {
    match text {
        Some(t) => Some(t@),
        None => None,
    }
}

/// The changes of the repository that do not go through the command line.
/// It knows the remotes; the host holds the workspace and the repository.
#[derive(Debug, Clone, PartialEq, Eq)]
pub struct Native {
    pub origin_names: Vec<String>,
    pub default_remote: String,
}

impl Native {
    /// The handler for a repository that knows these remotes.
    pub fn new(remote_names: Vec<String>) -> (native: Native)
        ensures
            native.origin_names == remote_names,
            native.default_remote@ == default_remote_of(remote_names@),
    {
        let default_remote = if remote_names.len() > 0 {
            remote_names[0].clone()
        } else {
            String::from_str("origin")
        };
        Native { origin_names: remote_names, default_remote }
    }

    /// The remote that an operation goes to.
    pub fn resolve_remote(&self, remote: Option<&str>) -> (name: String)
        ensures
            name@ == resolved_remote(slice_view(remote), self.default_remote@),
    {
        match remote {
            Some(name) => String::from_str(name),
            None => self.default_remote.clone(),
        }
    }

    /// Starts the transaction that gives the working-copy commit a new
    /// description. A blank message is refused before anything is opened.
    pub fn describe(&self, message: &str) -> (r: (Transaction, Step))
        ensures
            r.0@ == TransactionView::started(OperationView::Describe { message: message@ }).0,
            r.1@ == TransactionView::started(OperationView::Describe { message: message@ }).1,
    {
        Transaction::start(Operation::Describe { message: String::from_str(message) })
    }

    /// Starts the transaction that finishes the working-copy commit and
    /// puts an empty commit on top of it as the new working copy. A blank
    /// message is refused before anything is opened.
    pub fn commit(&self, message: &str) -> (r: (Transaction, Step))
        ensures
            r.0@ == TransactionView::started(OperationView::Commit { message: message@ }).0,
            r.1@ == TransactionView::started(OperationView::Commit { message: message@ }).1,
    {
        Transaction::start(Operation::Commit { message: String::from_str(message) })
    }

    /// Starts the transaction that fetches from the named remote, or from
    /// the default remote where none is named.
    pub fn git_fetch(&self, remote: Option<&str>) -> (r: (Transaction, Step))
        ensures
            r.0@ == TransactionView::started(
                OperationView::Fetch {
                    remote: resolved_remote(slice_view(remote), self.default_remote@),
                },
            ).0,
            r.1@ == TransactionView::started(
                OperationView::Fetch {
                    remote: resolved_remote(slice_view(remote), self.default_remote@),
                },
            ).1,
    {
        Transaction::start(Operation::Fetch { remote: self.resolve_remote(remote) })
    }

    /// Starts the transaction that tracks the bookmark of the named remote,
    /// or of the default remote where none is named.
    pub fn track(&self, bookmark_name: &str, remote: Option<&str>) -> (r: (Transaction, Step))
        ensures
            r.0@ == TransactionView::started(
                OperationView::Track {
                    bookmark: bookmark_name@,
                    remote: resolved_remote(slice_view(remote), self.default_remote@),
                },
            ).0,
            r.1@ == TransactionView::started(
                OperationView::Track {
                    bookmark: bookmark_name@,
                    remote: resolved_remote(slice_view(remote), self.default_remote@),
                },
            ).1,
    {
        Transaction::start(
            Operation::Track {
                bookmark: String::from_str(bookmark_name),
                remote: self.resolve_remote(remote),
            },
        )
    }
}

/// The steps of a transaction under way whose host answers with the given
/// replies, one reply to each primitive, until the transaction is over or
/// the replies end.
pub open spec fn following(t: TransactionView, replies: Seq<ReplyView>) -> Seq<StepView>
    decreases replies.len(),
{
    if replies.len() == 0 || !t.live() {
        Seq::empty()
    } else {
        seq![t.advanced(replies[0]).1] + following(t.advanced(replies[0]).0, replies.drop_first())
    }
}

/// All steps of an operation whose host answers with the given replies:
/// the first step, and the one after each reply.
pub open spec fn history(operation: OperationView, replies: Seq<ReplyView>) -> Seq<StepView> {
    seq![TransactionView::started(operation).1] + following(
        TransactionView::started(operation).0,
        replies,
    )
}

/// The shape of the plans. Each plan has exactly one commit of the
/// transaction, as its last primitive, and nothing mutates before the
/// transaction has begun. Where a commit is rewritten, the rebase of the
/// descendants is the last primitive before the commit of the transaction.
/// The plan of a commit creates exactly one new commit, directly after the
/// rewrite that gives it its parent, and points the working copy at it
/// directly afterwards.
pub proof fn lemma_plan_shape(operation: OperationView)
    ensures
        operation.plan().len() >= 5,
        operation.plan().last() is Commit,
        forall|i: int|
            0 <= i < operation.plan().len() - 1 ==> !(#[trigger] operation.plan()[i] is Commit),
        exists|b: int|
            0 <= b < operation.plan().len() && operation.plan()[b] is Begin && forall|i: int|
                0 <= i < b ==> !(#[trigger] operation.plan()[i]).mutates(),
        operation is Describe || operation is Commit ==> operation.plan()[operation.plan().len()
            - 2] is RebaseDescendants,
        operation is Commit ==> operation.plan()[3] is Rewrite && operation.plan()[4]
            is CreateChild && operation.plan()[5] is SetWorkingCopy && forall|i: int|
            0 <= i < operation.plan().len() && i != 4 ==> !(#[trigger] operation.plan()[i]
                is CreateChild),
        operation is Describe ==> forall|i: int|
            0 <= i < operation.plan().len() ==> !(#[trigger] operation.plan()[i] is CreateChild),
{
    match operation {
        OperationView::Track { .. } => {
            assert(operation.plan()[1] is Begin);
            assert(!operation.plan()[0].mutates());
        },
        _ => {
            assert(operation.plan()[0] is Begin);
        },
    }
}

/// One step of a transaction under way. A failed primitive ends it with the
/// cause of the failure. Otherwise it ends early without success, or the
/// next primitive of the plan is due, or, after the last primitive, it
/// ends with success. A transaction that is over stays over and asks for
/// nothing more.
pub proof fn lemma_advance(t: TransactionView, reply: ReplyView)
    ensures
        t.advanced(reply).0.operation == t.operation,
        t.wf() ==> t.advanced(reply).0.wf(),
        TransactionView::started(t.operation).0.wf(),
        t.advanced(reply).1 is Finish <==> t.advanced(reply).0.finished,
        !t.live() ==> t.advanced(reply).1 is Finish && !(t.advanced(reply).1
            matches StepView::Finish(OutcomeView::Success { .. })),
        t.live() ==> (reply matches ReplyView::Failed(cause) ==> t.advanced(reply).1
            == StepView::Finish(OutcomeView::Failed { cause })),
        t.live() ==> (t.advanced(reply).1 matches StepView::Ask(primitive) ==> {
            &&& !(reply is Failed)
            &&& t.advanced(reply).0.position == t.position + 1
            &&& t.advanced(reply).0.live()
            &&& primitive == t.operation.plan()[t.position as int + 1]
        }),
        t.live() ==> (t.advanced(reply).1 matches StepView::Finish(
            OutcomeView::Success { .. },
        ) ==> {
            &&& !(reply is Failed)
            &&& t.position + 1 == t.operation.plan().len()
            &&& t.due() is Commit
        }),
{
    lemma_plan_shape(t.operation);
}

/// A refused operation opens nothing: its first step is the refusal, and no
/// primitive is ever asked for, whatever the host answers. This is so for
/// every description and commit message that is empty or holds whitespace
/// only, and for no other operation.
pub proof fn lemma_refusal_opens_nothing(operation: OperationView, replies: Seq<ReplyView>)
    ensures
        operation.refusal() is Some <==> (operation matches OperationView::Describe { message }
            && is_blank(message)) || (operation matches OperationView::Commit { message }
            && is_blank(message)),
        operation.refusal() matches Some(reason) ==> history(operation, replies) == seq![
            StepView::Finish(OutcomeView::Rejected { reason }),
        ],
        operation.refusal() is None ==> history(operation, replies)[0] == StepView::Ask(
            operation.plan()[0],
        ),
{
    if operation.refusal() is Some {
        assert(following(TransactionView::started(operation).0, replies) =~= Seq::empty());
    }
}

/// The steps of a transaction under way follow the plan: the primitives are
/// asked for in the order of the plan, each after the reply to the one
/// before; a step that ends the transaction is the last; and the
/// transaction ends with success only after every primitive of the plan
/// was answered, none of them with a failure.
pub proof fn lemma_following(t: TransactionView, replies: Seq<ReplyView>)
    requires
        t.live(),
    ensures
        following(t, replies).len() <= replies.len(),
        forall|i: int|
            0 <= i < following(t, replies).len() ==> (#[trigger] following(t, replies)[i]
                matches StepView::Ask(primitive) ==> t.position + 1 + i < t.operation.plan().len()
                && primitive == t.operation.plan()[t.position + 1 + i]),
        forall|i: int|
            0 <= i < following(t, replies).len() && #[trigger] following(t, replies)[i]
                is Finish ==> i == following(t, replies).len() - 1,
        forall|i: int|
            0 <= i < following(t, replies).len() ==> (#[trigger] following(t, replies)[i]
                matches StepView::Finish(OutcomeView::Success { .. }) ==> t.position + 1 + i
                == t.operation.plan().len() && forall|j: int|
                0 <= j <= i ==> !(#[trigger] replies[j] is Failed)),
    decreases replies.len(),
{
    if replies.len() > 0 {
        let next = t.advanced(replies[0]).0;
        let step = t.advanced(replies[0]).1;
        let rest = replies.drop_first();
        let tail = following(next, rest);
        let all = following(t, replies);
        lemma_advance(t, replies[0]);
        if next.live() {
            lemma_following(next, rest);
        } else {
            assert(tail =~= Seq::empty());
        }
        assert(all =~= seq![step] + tail);
        assert forall|i: int| 0 <= i < all.len() implies (#[trigger] all[i] matches StepView::Ask(
            primitive,
        ) ==> t.position + 1 + i < t.operation.plan().len() && primitive
            == t.operation.plan()[t.position + 1 + i]) by {
            if i > 0 {
                assert(all[i] == tail[i - 1]);
            }
        }
        assert forall|i: int| 0 <= i < all.len() && #[trigger] all[i] is Finish implies i
            == all.len() - 1 by {
            if i > 0 {
                assert(all[i] == tail[i - 1]);
            }
        }
        assert forall|i: int| 0 <= i < all.len() implies (#[trigger] all[i] matches StepView::Finish(
            OutcomeView::Success { .. },
        ) ==> t.position + 1 + i == t.operation.plan().len() && forall|j: int|
            0 <= j <= i ==> !(#[trigger] replies[j] is Failed)) by {
            if i > 0 {
                assert(all[i] == tail[i - 1]);
                if all[i] matches StepView::Finish(OutcomeView::Success { .. }) {
                    assert forall|j: int| 0 <= j <= i implies !(#[trigger] replies[j]
                        is Failed) by {
                        if j > 0 {
                            assert(replies[j] == rest[j - 1]);
                        }
                    }
                }
            }
        }
    }
}

/// A bookmark that is tracked already: the transaction asks one question,
/// learns that the bookmark is tracked, and ends with a confirmation of its
/// own kind. No transaction is begun and nothing is mutated.
pub proof fn lemma_track_is_idempotent(
    bookmark: Seq<char>,
    remote: Seq<char>,
    replies: Seq<ReplyView>,
)
    requires
        replies.len() > 0,
        replies[0] == ReplyView::Flag(true),
    ensures
        history(OperationView::Track { bookmark, remote }, replies) == seq![
            StepView::Ask(PrimitiveView::IsTracked { bookmark, remote }),
            StepView::Finish(
                OutcomeView::Unchanged { message: already_tracked_text(bookmark, remote) },
            ),
        ],
{
    let operation = OperationView::Track { bookmark, remote };
    let t = TransactionView::started(operation).0;
    assert(t.live());
    assert(t.due() == PrimitiveView::IsTracked { bookmark, remote });
    let next = t.advanced(replies[0]).0;
    assert(next.finished);
    assert(following(next, replies.drop_first()) =~= Seq::empty());
    assert(following(t, replies) =~= seq![t.advanced(replies[0]).1]);
}

/// Every step of an operation but the last asks for the primitive at its
/// place in the plan, and a step that ends the transaction is the last.
pub proof fn lemma_history_follows_plan(operation: OperationView, replies: Seq<ReplyView>)
    ensures
        history(operation, replies).len() >= 1,
        history(operation, replies).len() <= replies.len() + 1,
        history(operation, replies).len() <= operation.plan().len() + 1,
        forall|i: int|
            0 <= i < history(operation, replies).len() ==> (#[trigger] history(
                operation,
                replies,
            )[i] matches StepView::Ask(primitive) ==> i < operation.plan().len() && primitive
                == operation.plan()[i]),
        forall|i: int|
            0 <= i < history(operation, replies).len() - 1 ==> #[trigger] history(
                operation,
                replies,
            )[i] is Ask,
{
    let start = TransactionView::started(operation).0;
    let first = TransactionView::started(operation).1;
    let tail = following(start, replies);
    let all = history(operation, replies);
    lemma_plan_shape(operation);
    if operation.refusal() is Some {
        assert(tail =~= Seq::empty());
    } else {
        lemma_following(start, replies);
        assert forall|i: int| 0 <= i < all.len() implies (#[trigger] all[i] matches StepView::Ask(
            primitive,
        ) ==> i < operation.plan().len() && primitive == operation.plan()[i]) by {
            if i > 0 {
                assert(all[i] == tail[i - 1]);
            }
        }
        assert forall|i: int| 0 <= i < all.len() - 1 implies #[trigger] all[i] is Ask by {
            if i > 0 {
                assert(all[i] == tail[i - 1]);
                if tail[i - 1] is Finish {
                    assert(i - 1 == tail.len() - 1);
                }
            }
        }
        if tail.len() > operation.plan().len() {
            let last = tail.len() - 1;
            let before = last - 1;
            assert(all[before + 1] == tail[before]);
            assert(tail[before] is Ask);
        }
    }
}

/// An operation that ends with success was not refused, and every
/// primitive of its plan was asked for, in the order of the plan, and none
/// of them failed: the commit of the transaction came last, after all the
/// others had succeeded.
pub proof fn lemma_success_is_complete(
    operation: OperationView,
    replies: Seq<ReplyView>,
    k: int,
)
    requires
        0 <= k < history(operation, replies).len(),
        history(operation, replies)[k] matches StepView::Finish(OutcomeView::Success { .. }),
    ensures
        operation.refusal() is None,
        k == operation.plan().len(),
        history(operation, replies).len() == k + 1,
        forall|i: int|
            0 <= i < k ==> #[trigger] history(operation, replies)[i] == StepView::Ask(
                operation.plan()[i],
            ),
        forall|i: int| 0 <= i < k ==> !(#[trigger] replies[i] is Failed),
{
    let start = TransactionView::started(operation).0;
    let tail = following(start, replies);
    let all = history(operation, replies);
    lemma_history_follows_plan(operation, replies);
    if operation.refusal() is Some {
        assert(tail =~= Seq::empty());
    } else {
        lemma_following(start, replies);
        assert(k > 0);
        assert(all[k] == tail[k - 1]);
        assert(k - 1 == tail.len() - 1);
        assert forall|i: int| 0 <= i < k implies #[trigger] all[i] == StepView::Ask(
            operation.plan()[i],
        ) by {
            assert(all[i] is Ask);
        }
    }
}

/// The step asks for the commit of the transaction.
pub open spec fn asks_for_commit(step: StepView) -> bool {
    step matches StepView::Ask(primitive) && primitive is Commit
}

/// An operation that ends without success has committed nothing: either
/// the commit of its transaction was never asked for, or it was asked for
/// last and failed.
pub proof fn lemma_no_success_no_commit(
    operation: OperationView,
    replies: Seq<ReplyView>,
    k: int,
)
    requires
        0 <= k < history(operation, replies).len(),
        history(operation, replies)[k] is Finish,
        !(history(operation, replies)[k] matches StepView::Finish(OutcomeView::Success { .. })),
    ensures
        k == history(operation, replies).len() - 1,
        forall|i: int|
            0 <= i < k && asks_for_commit(#[trigger] history(operation, replies)[i]) ==> i == k - 1
                && replies[i] is Failed,
{
    let start = TransactionView::started(operation).0;
    let tail = following(start, replies);
    let all = history(operation, replies);
    lemma_history_follows_plan(operation, replies);
    lemma_plan_shape(operation);
    if operation.refusal() is Some {
        assert(tail =~= Seq::empty());
    } else {
        lemma_following(start, replies);
        if k > 0 {
            assert(all[k] == tail[k - 1]);
        }
        assert forall|i: int| 0 <= i < k && asks_for_commit(#[trigger] all[i]) implies i == k - 1
            && replies[i] is Failed by {
            assert(operation.plan()[i] is Commit);
            assert(i == operation.plan().len() - 1);
            lemma_reply_at(start, replies, i);
        }
    }
}

/// The step after the reply to the last primitive of the plan ends the
/// transaction, with success unless that reply is a failure.
proof fn lemma_reply_at(t: TransactionView, replies: Seq<ReplyView>, i: int)
    requires
        t.live(),
        0 <= i < following(t, replies).len(),
        t.position + i + 1 == t.operation.plan().len(),
    ensures
        following(t, replies)[i] is Finish,
        !(following(t, replies)[i] matches StepView::Finish(OutcomeView::Success { .. }))
            ==> replies[i] is Failed,
    decreases replies.len(),
{
    lemma_plan_shape(t.operation);
    lemma_following(t, replies);
    lemma_advance(t, replies[0]);
    let next = t.advanced(replies[0]).0;
    let rest = replies.drop_first();
    assert(following(t, replies) =~= seq![t.advanced(replies[0]).1] + following(next, rest));
    if i > 0 {
        if next.live() {
            lemma_reply_at(next, rest, i - 1);
            assert(following(t, replies)[i] == following(next, rest)[i - 1]);
            assert(replies[i] == rest[i - 1]);
        } else {
            assert(following(next, rest) =~= Seq::empty());
        }
    } else {
        assert(t.due() is Commit);
    }
}

/// A commit that ends with success had a message that is not blank, and
/// created exactly one new commit: on top of the working-copy commit as
/// rewritten with the message, and directly before the working copy was
/// pointed at it. The rebase of the descendants was the last step before
/// the commit of the transaction.
pub proof fn lemma_commit_creates_one_child(message: Seq<char>, replies: Seq<ReplyView>, k: int)
    requires
        0 <= k < history(OperationView::Commit { message }, replies).len(),
        history(OperationView::Commit { message }, replies)[k] matches StepView::Finish(
            OutcomeView::Success { .. },
        ),
    ensures
        !is_blank(message),
        k == 8,
        ({
            let steps = history(OperationView::Commit { message }, replies);
            &&& steps[0] == StepView::Ask(PrimitiveView::Begin)
            &&& steps[1] == StepView::Ask(PrimitiveView::ReadWorkingCopy)
            &&& steps[2] == StepView::Ask(PrimitiveView::LoadCommit)
            &&& steps[3] == StepView::Ask(PrimitiveView::Rewrite { description: message })
            &&& steps[4] == StepView::Ask(PrimitiveView::CreateChild)
            &&& steps[5] == StepView::Ask(PrimitiveView::SetWorkingCopy)
            &&& steps[6] == StepView::Ask(PrimitiveView::RebaseDescendants)
            &&& asks_for_commit(steps[7])
            &&& forall|i: int|
                0 <= i < steps.len() && i != 4 ==> #[trigger] steps[i] != StepView::Ask(
                    PrimitiveView::CreateChild,
                )
        }),
{
    let operation = OperationView::Commit { message };
    let steps = history(operation, replies);
    lemma_success_is_complete(operation, replies, k);
    lemma_plan_shape(operation);
    assert forall|i: int| 0 <= i < steps.len() && i != 4 implies #[trigger] steps[i]
        != StepView::Ask(PrimitiveView::CreateChild) by {
        if i < k {
            assert(steps[i] == StepView::Ask(operation.plan()[i]));
        }
    }
}

/// A description never creates a commit and never moves the working copy,
/// however the host answers.
pub proof fn lemma_describe_creates_nothing(message: Seq<char>, replies: Seq<ReplyView>)
    ensures
        forall|i: int|
            0 <= i < history(OperationView::Describe { message }, replies).len() ==> {
                let step = #[trigger] history(OperationView::Describe { message }, replies)[i];
                step != StepView::Ask(PrimitiveView::CreateChild) && step != StepView::Ask(
                    PrimitiveView::SetWorkingCopy,
                )
            },
{
    let operation = OperationView::Describe { message };
    lemma_history_follows_plan(operation, replies);
}

} // verus!
