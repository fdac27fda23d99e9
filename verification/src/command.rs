use crate::error::{LinkError, LinkErrorView};
use crate::link_mutator::{
    link_mutated, module_declarations, mutate_link, mutated, ExportedTypeView, Link,
    MutateLinkResult, MutateLinkResultView,
};
use crate::require_parser::{match_require, required_components, Expr};
use crate::resolver::{module_file, resolve, resolved, select_module_file};
use crate::sourcemap::SourcemapNode;
use crate::syntax::{LastStatement, Program};
use crate::text::{join, joined, str_eq, strings, trim, trimmed};
use vstd::prelude::*;
use vstd::string::*;

verus! {

/// Where the run finds its input.
#[derive(Debug, Clone, PartialEq, Eq)]
pub struct Command {
    /// Path to the sourcemap.
    pub sourcemap: String,
    /// Path to the folder of the links.
    pub packages_folder: String,
}

/// Why a link that returns `text` is refused: it must return one call.
pub open spec fn not_one_call(text: Seq<char>) -> LinkErrorView {
    LinkErrorView::MalformedLink { reason: "'"@ + trimmed(text) + "' is not a function call"@ }
}

/// The call that `link` returns: the only expression that it returns.
pub open spec fn returned_call(link: Link) -> Result<Expr, LinkErrorView> {
    if link.returned@.len() == 1 && link.returned@[0] is FunctionCall {
        Ok(link.returned@[0])
    } else {
        Err(not_one_call(link.returned_text@))
    }
}

/// The file of the module that `link` requires, where the link is the file `path`.
pub open spec fn required_module(link: Link, path: Seq<char>, root: SourcemapNode) -> Result<
    Seq<char>,
    LinkErrorView,
> {
    match returned_call(link) {
        Ok(call) => match required_components(call) {
            Ok(components) => match resolved(root, path, components) {
                Ok(node) => module_file(node),
                Err(error) => Err(error),
            },
            Err(error) => Err(error),
        },
        Err(error) => Err(error),
    }
}

/// The file of the module that `link` requires, where the link is the file `path`. The
/// link must return one call, the call must be a `require` of a path, the path must lead
/// to a node of the sourcemap, and that node must hold a module file.
pub fn locate_module<'a>(link: &Link, path: &str, root: &'a SourcemapNode) -> (module: Result<
    &'a String,
    LinkError,
>)
    ensures
        match module {
            Ok(file) => required_module(*link, path@, *root) == Ok::<Seq<char>, LinkErrorView>(
                file@,
            ),
            Err(error) => required_module(*link, path@, *root) == Err::<
                Seq<char>,
                LinkErrorView,
            >(error@),
        },
{
    if link.returned.len() != 1 {
        return Err(refuse_link(&link.returned_text));
    }
    match &link.returned[0] {
        Expr::FunctionCall { .. } => {},
        _ => {
            return Err(refuse_link(&link.returned_text));
        },
    }
    let components = match match_require(&link.returned[0]) {
        Ok(components) => components,
        Err(error) => {
            return Err(error);
        },
    };
    let node = match resolve(root, path, &components) {
        Ok(node) => node,
        Err(error) => {
            return Err(error);
        },
    };
    select_module_file(node)
}

/// Refuses a link that returns `text`.
fn refuse_link(text: &String) -> (error: LinkError)
    ensures
        error@ == not_one_call(text@),
{
    let mut reason = String::from_str("'");
    reason.append(trim(text.as_str()).as_str());
    reason.append("' is not a function call");
    LinkError::MalformedLink { reason }
}

/// Why a link that ends in something other than a return is refused.
pub open spec fn no_return() -> LinkErrorView {
    LinkErrorView::MalformedLink { reason: "the link does not end in a return"@ }
}

/// The link that is read from what parsing its text gave: what its last statement
/// returns, and what follows that statement. There is none where the text was no
/// program, and none where the program does not end in a return.
pub open spec fn link_read(source: Result<Program, Vec<String>>) -> Result<Link, LinkErrorView> {
    match source {
        Ok(program) => match program.last {
            Some(LastStatement::Return { returned, returned_text }) => Ok(
                Link { returned, returned_text, end_of_file: program.end_of_file },
            ),
            _ => Err(no_return()),
        },
        Err(messages) => Err(
            LinkErrorView::MalformedLink { reason: joined(strings(messages@), "\n"@) },
        ),
    }
}

/// Reads a link from what parsing its text gave. Fails where the text was no program,
/// with what the parser said, and where the program does not end in a return.
pub fn parse_link(source: Result<Program, Vec<String>>) -> (outcome: Result<Link, LinkError>)
    ensures
        match outcome {
            Ok(link) => link_read(source) == Ok::<Link, LinkErrorView>(link),
            Err(error) => link_read(source) == Err::<Link, LinkErrorView>(error@),
        },
{
    match source {
        Ok(program) => match program.last {
            Some(LastStatement::Return { returned, returned_text }) => Ok(
                Link { returned, returned_text, end_of_file: program.end_of_file },
            ),
            _ => Err(
                LinkError::MalformedLink {
                    reason: String::from_str("the link does not end in a return"),
                },
            ),
        },
        Err(messages) => Err(LinkError::MalformedLink { reason: join(&messages, "\n") }),
    }
}

/// What became of one link.
#[derive(Debug, Clone, PartialEq, Eq)]
pub enum RewriteOutcome {
    /// The link stays as it is.
    Unchanged,
    /// The link has this new text.
    Changed(String),
    /// The link stays as it is, for this reason.
    Failed(LinkError),
}

/// How far the work on one link has come.
#[derive(Debug, PartialEq, Eq)]
pub enum ThunkState {
    /// The link is not read yet.
    Start,
    /// The link is read and the file of its module is found.
    ModuleLocated { link: Link, module: String },
    /// The work has ended.
    Done { outcome: RewriteOutcome },
}

/// What was read for a link.
#[derive(Debug, PartialEq, Eq)]
pub enum ThunkEvent {
    /// The link: what parsing its text gave.
    LinkRead { contents: Result<Program, Vec<String>> },
    /// The module that it requires: what parsing its text gave.
    ModuleRead { contents: Result<Program, Vec<String>> },
    /// Nothing: the file could not be read.
    ReadFailed { message: String },
}

/// What is to be done next for a link.
#[derive(Debug, Clone, PartialEq, Eq)]
pub enum ThunkAction {
    /// Read the link.
    ReadLink,
    /// Read the module in the file `path`.
    ReadModule { path: String },
    /// Write `contents` over the link; nothing is left to do after that.
    Write { contents: String },
    /// Nothing is left to do.
    Stop,
}

/// Where the work on a link goes once the file of its module was looked for: on to
/// reading that file, or to its end with the reason why none was found.
pub fn after_link(link: Link, module: Result<String, LinkError>) -> (next: (ThunkState, ThunkAction))
    ensures
        match module {
            Ok(file) => next == (
                ThunkState::ModuleLocated { link, module: file },
                ThunkAction::ReadModule { path: file },
            ),
            Err(error) => next == (
                ThunkState::Done { outcome: RewriteOutcome::Failed(error) },
                ThunkAction::Stop,
            ),
        },
{
    match module {
        Ok(file) => {
            let path = file.clone();
            (ThunkState::ModuleLocated { link, module: file }, ThunkAction::ReadModule { path })
        },
        Err(error) => (
            ThunkState::Done { outcome: RewriteOutcome::Failed(error) },
            ThunkAction::Stop,
        ),
    }
}

/// Where the work on a link ends once its module was read: a changed link is written,
/// and nothing is written for any other.
pub fn after_module(result: Result<MutateLinkResult, LinkError>) -> (next: (
    ThunkState,
    ThunkAction,
))
    ensures
        match result {
            Ok(MutateLinkResult::Changed(text)) => next == (
                ThunkState::Done { outcome: RewriteOutcome::Changed(text) },
                ThunkAction::Write { contents: text },
            ),
            Ok(MutateLinkResult::Unchanged) => next == (
                ThunkState::Done { outcome: RewriteOutcome::Unchanged },
                ThunkAction::Stop,
            ),
            Err(error) => next == (
                ThunkState::Done { outcome: RewriteOutcome::Failed(error) },
                ThunkAction::Stop,
            ),
        },
{
    match result {
        Ok(MutateLinkResult::Changed(text)) => {
            let contents = text.clone();
            (
                ThunkState::Done { outcome: RewriteOutcome::Changed(text) },
                ThunkAction::Write { contents },
            )
        },
        Ok(MutateLinkResult::Unchanged) => (
            ThunkState::Done { outcome: RewriteOutcome::Unchanged },
            ThunkAction::Stop,
        ),
        Err(error) => (
            ThunkState::Done { outcome: RewriteOutcome::Failed(error) },
            ThunkAction::Stop,
        ),
    }
}

/// A `RewriteOutcome` with the characters of its strings.
pub enum RewriteOutcomeView {
    Unchanged,
    Changed(Seq<char>),
    Failed(LinkErrorView),
}

/// A `ThunkState` with the characters of its strings; the link is kept as it is.
pub enum ThunkStateView {
    Start,
    ModuleLocated { link: Link, module: Seq<char> },
    Done { outcome: RewriteOutcomeView },
}

/// A `ThunkAction` with the characters of its strings.
pub enum ThunkActionView {
    ReadLink,
    ReadModule { path: Seq<char> },
    Write { contents: Seq<char> },
    Stop,
}

impl View for RewriteOutcome {
    type V = RewriteOutcomeView;

    open spec fn view(&self) -> RewriteOutcomeView {
        match self {
            RewriteOutcome::Unchanged => RewriteOutcomeView::Unchanged,
            RewriteOutcome::Changed(text) => RewriteOutcomeView::Changed(text@),
            RewriteOutcome::Failed(error) => RewriteOutcomeView::Failed(error@),
        }
    }
}

impl View for ThunkState {
    type V = ThunkStateView;

    open spec fn view(&self) -> ThunkStateView {
        match self {
            ThunkState::Start => ThunkStateView::Start,
            ThunkState::ModuleLocated { link, module } => ThunkStateView::ModuleLocated {
                link: *link,
                module: module@,
            },
            ThunkState::Done { outcome } => ThunkStateView::Done { outcome: outcome@ },
        }
    }
}

impl View for ThunkAction {
    type V = ThunkActionView;

    open spec fn view(&self) -> ThunkActionView {
        match self {
            ThunkAction::ReadLink => ThunkActionView::ReadLink,
            ThunkAction::ReadModule { path } => ThunkActionView::ReadModule { path: path@ },
            ThunkAction::Write { contents } => ThunkActionView::Write { contents: contents@ },
            ThunkAction::Stop => ThunkActionView::Stop,
        }
    }
}

/// What is to be done once the work on a link has come to `state`.
pub open spec fn action_for(state: ThunkStateView) -> ThunkActionView {
    match state {
        ThunkStateView::Start => ThunkActionView::ReadLink,
        ThunkStateView::ModuleLocated { module, .. } => ThunkActionView::ReadModule {
            path: module,
        },
        ThunkStateView::Done {
            outcome: RewriteOutcomeView::Changed(text),
        } => ThunkActionView::Write { contents: text },
        ThunkStateView::Done { .. } => ThunkActionView::Stop,
    }
}

/// The state of work that has ended in failure.
pub open spec fn failed(error: LinkErrorView) -> ThunkStateView {
    ThunkStateView::Done { outcome: RewriteOutcomeView::Failed(error) }
}

/// Where the work on the link in the file `path` goes from its start, once parsing the
/// text of the link gave `contents`: to the file of the module that the link requires, or
/// to its end with the failure to read the link or to find the module.
pub open spec fn after_link_read(
    contents: Result<Program, Vec<String>>,
    path: Seq<char>,
    root: SourcemapNode,
) -> ThunkStateView {
    match link_read(contents) {
        Ok(link) => match required_module(link, path, root) {
            Ok(file) => ThunkStateView::ModuleLocated { link, module: file },
            Err(error) => failed(error),
        },
        Err(error) => failed(error),
    }
}

/// Where the work on `link` ends, once parsing the text of its module gave `contents`:
/// with the link unchanged if the module exports no type, with the link changed if it
/// exports any, and in failure if the text was no program.
pub open spec fn after_module_read(link: Link, contents: Result<Program, Vec<String>>) -> ThunkStateView {
    match link_mutated(link.returned_text@, link.end_of_file@, contents) {
        Ok(MutateLinkResultView::Changed(text)) => ThunkStateView::Done {
            outcome: RewriteOutcomeView::Changed(text),
        },
        Ok(MutateLinkResultView::Unchanged) => ThunkStateView::Done {
            outcome: RewriteOutcomeView::Unchanged,
        },
        Err(error) => failed(error),
    }
}

/// The state that the work on the link in the file `path` comes to from `state`, once
/// `event` has happened. Work that has ended stays as it is, and so does work for which
/// something else was read than it had asked for.
pub open spec fn stepped(
    state: ThunkState,
    event: ThunkEvent,
    path: Seq<char>,
    root: SourcemapNode,
) -> ThunkStateView {
    match state {
        ThunkState::Done { .. } => state@,
        ThunkState::Start => match event {
            ThunkEvent::LinkRead { contents } => after_link_read(contents, path, root),
            ThunkEvent::ReadFailed { message } => failed(
                LinkErrorView::MalformedLink { reason: message@ },
            ),
            ThunkEvent::ModuleRead { .. } => state@,
        },
        ThunkState::ModuleLocated { link, .. } => match event {
            ThunkEvent::ModuleRead { contents } => after_module_read(link, contents),
            ThunkEvent::ReadFailed { message } => failed(
                LinkErrorView::TypeExtraction { message: message@ },
            ),
            ThunkEvent::LinkRead { .. } => state@,
        },
    }
}

/// One step of the work on the link in the file `path`: from `state` and what was read
/// since, to the next state and what is to be done next. The work starts in
/// `ThunkState::Start` by reading the link, and has ended once the state is `Done`.
///
/// A link is written only when the work comes to its end with a changed link. A file
/// that cannot be read, a link that is no program and a module that is no program each
/// end the work in failure. What was read for another state than the one the work is in
/// changes nothing.
pub fn mutate_thunk(path: &str, root: &SourcemapNode, state: ThunkState, event: ThunkEvent) -> (next:
    (ThunkState, ThunkAction))
    ensures
        next.0@ == stepped(state, event, path@, *root),
        next.1@ == if state is Done {
            ThunkActionView::Stop
        } else {
            action_for(next.0@)
        },
{
    match state {
        ThunkState::Done { outcome } => (ThunkState::Done { outcome }, ThunkAction::Stop),
        ThunkState::Start => match event {
            ThunkEvent::LinkRead { contents } => match parse_link(contents) {
                Ok(link) => {
                    let module = match locate_module(&link, path, root) {
                        Ok(file) => Ok(file.clone()),
                        Err(error) => Err(error),
                    };
                    after_link(link, module)
                },
                Err(error) => (
                    ThunkState::Done { outcome: RewriteOutcome::Failed(error) },
                    ThunkAction::Stop,
                ),
            },
            ThunkEvent::ReadFailed { message } => (
                ThunkState::Done {
                    outcome: RewriteOutcome::Failed(LinkError::MalformedLink { reason: message }),
                },
                ThunkAction::Stop,
            ),
            ThunkEvent::ModuleRead { .. } => (ThunkState::Start, ThunkAction::ReadLink),
        },
        ThunkState::ModuleLocated { link, module } => match event {
            ThunkEvent::ModuleRead { contents } => after_module(mutate_link(&link, &contents)),
            ThunkEvent::ReadFailed { message } => (
                ThunkState::Done {
                    outcome: RewriteOutcome::Failed(LinkError::TypeExtraction { message }),
                },
                ThunkAction::Stop,
            ),
            ThunkEvent::LinkRead { .. } => {
                let path = module.clone();
                (ThunkState::ModuleLocated { link, module }, ThunkAction::ReadModule { path })
            },
        },
    }
}

/// The text that is written over a link with this outcome, if any is.
pub open spec fn written(outcome: RewriteOutcome) -> Option<String> {
    match outcome {
        RewriteOutcome::Changed(text) => Some(text),
        _ => None,
    }
}

/// How many of `outcomes` are failures.
pub open spec fn failures(outcomes: Seq<RewriteOutcome>) -> nat
    decreases outcomes.len(),
{
    if outcomes.len() == 0 {
        0
    } else {
        failures(outcomes.drop_last()) + if outcomes.last() is Failed {
            1nat
        } else {
            0nat
        }
    }
}

/// Whether a run with these outcomes has succeeded: none of them is a failure.
pub open spec fn batch_succeeded(outcomes: Seq<RewriteOutcome>) -> bool {
    forall|i: int| 0 <= i < outcomes.len() ==> !(#[trigger] outcomes[i] is Failed)
}

impl RewriteOutcome {
    /// The text to write over the link, if it has changed.
    pub fn contents(&self) -> (text: Option<&String>)
        ensures
            match text {
                Some(text) => written(*self) == Some(*text),
                None => written(*self) is None,
            },
    {
        match self {
            RewriteOutcome::Changed(text) => Some(text),
            _ => None,
        }
    }

    /// Whether the work on the link has failed.
    pub fn is_failure(&self) -> (failed: bool)
        ensures
            failed == (*self is Failed),
    {
        match self {
            RewriteOutcome::Failed(_) => true,
            _ => false,
        }
    }
}

impl ThunkState {
    /// The outcome of the work, once it has ended.
    pub fn outcome(&self) -> (outcome: Option<&RewriteOutcome>)
        ensures
            match outcome {
                Some(outcome) => *self == (ThunkState::Done { outcome: *outcome }),
                None => !(*self is Done),
            },
    {
        match self {
            ThunkState::Done { outcome } => Some(outcome),
            _ => None,
        }
    }
}

/// A run has succeeded exactly if it counts no failure.
pub proof fn lemma_failures_counted(outcomes: Seq<RewriteOutcome>)
    ensures
        failures(outcomes) <= outcomes.len(),
        failures(outcomes) == 0 <==> batch_succeeded(outcomes),
    decreases outcomes.len(),
{
    if outcomes.len() > 0 {
        let before = outcomes.drop_last();
        lemma_failures_counted(before);
        if failures(outcomes) == 0 {
            assert forall|i: int| 0 <= i < outcomes.len() implies !(#[trigger] outcomes[i]
                is Failed) by {
                if i < before.len() {
                    assert(outcomes[i] == before[i]);
                }
            }
        }
        if batch_succeeded(outcomes) {
            assert forall|i: int| 0 <= i < before.len() implies !(#[trigger] before[i]
                is Failed) by {
                assert(before[i] == outcomes[i]);
            }
        }
    }
}

/// A run over several links with at least one failure has failed as a whole, and yet
/// every link of it that has changed is written, with its new text: a failure stops
/// nothing but the work on its own link.
pub proof fn lemma_batch_aggregation(outcomes: Seq<RewriteOutcome>)
    requires
        failures(outcomes) > 0,
    ensures
        !batch_succeeded(outcomes),
        forall|i: int|
            0 <= i < outcomes.len() ==> (#[trigger] outcomes[i] matches RewriteOutcome::Changed(
                text,
            ) ==> written(outcomes[i]) == Some(text) && action_for(
                (ThunkState::Done { outcome: outcomes[i] })@,
            ) == (ThunkActionView::Write { contents: text@ })),
{
    lemma_failures_counted(outcomes);
}

/// Whether a run with these outcomes has succeeded: none of them is a failure.
pub fn batch_result(outcomes: &Vec<RewriteOutcome>) -> (succeeded: bool)
    ensures
        succeeded == batch_succeeded(outcomes@),
        succeeded == (failures(outcomes@) == 0),
{
    proof {
        lemma_failures_counted(outcomes@);
    }
    let mut i: usize = 0;
    while i < outcomes.len()
        invariant
            i <= outcomes.len(),
            (failures(outcomes@) == 0) == batch_succeeded(outcomes@),
            forall|k: int| 0 <= k < i ==> !(#[trigger] outcomes@[k] is Failed),
        decreases outcomes.len() - i,
    {
        if outcomes[i].is_failure() {
            return false;
        }
        i += 1;
    }
    true
}

/// Whether `name` is the name of the folder that holds, one folder for each package,
/// the links of the packages that the packages of the run depend on.
pub fn is_index_directory(name: &str) -> (index: bool)
    ensures
        index == (name@ == "_Index"@),
{
    str_eq(name, "_Index")
}

/// A link whose module exports no type stays as it is, and nothing is written over it.
pub proof fn lemma_no_types_no_write(link: Link, contents: Result<Program, Vec<String>>)
    requires
        module_declarations(contents) == Ok::<Seq<ExportedTypeView>, LinkErrorView>(
            Seq::<ExportedTypeView>::empty(),
        ),
    ensures
        link_mutated(link.returned_text@, link.end_of_file@, contents) == Ok::<
            MutateLinkResultView,
            LinkErrorView,
        >(MutateLinkResultView::Unchanged),
        after_module_read(link, contents) == (ThunkStateView::Done {
            outcome: RewriteOutcomeView::Unchanged,
        }),
        action_for(after_module_read(link, contents)) == ThunkActionView::Stop,
{
}

/// A link that returns anything but one call leads to no module: the work on it fails
/// before any module is read, and nothing is written over it. Such is a link that was
/// rewritten before, which returns a name alone; so rewriting it again leaves it as it is.
pub proof fn lemma_link_without_call_is_not_written(
    contents: Result<Program, Vec<String>>,
    path: Seq<char>,
    root: SourcemapNode,
)
    requires
        link_read(contents) matches Ok(link) ==> link.returned@.len() != 1
            || !(link.returned@[0] is FunctionCall),
    ensures
        after_link_read(contents, path, root) matches ThunkStateView::Done {
            outcome: RewriteOutcomeView::Failed(_),
        },
        link_read(contents) matches Ok(link) ==> after_link_read(contents, path, root) == failed(
            not_one_call(link.returned_text@),
        ),
        action_for(after_link_read(contents, path, root)) == ThunkActionView::Stop,
{
}

} // verus!
