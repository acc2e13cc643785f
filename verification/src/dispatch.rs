//! The loop of turns, as a state machine.
//!
//! The machine waits for input, processes one line at a time and shuts down
//! when the user interrupts, the input ends or a failure ends the run. It performs nothing
//! itself. In every state it names the one action that it waits for; the
//! caller performs the action and steps the machine with what came of it.
//! A step yields the next state, the lines to show and, when the run ends
//! in a failure, that failure.

use crate::api::client::{chat_request, conversation};
use crate::api::types::{ApiRequest, ApiRequestView};
use crate::error::{text_outcome, Error, ErrorView};
use crate::input::{Reading, ReadingView, FAREWELL, PROMPT};
use crate::intent::{
    begun, classification_request, is_music_label, refined, refinement_request, resumed,
    IntentClassifier, Pending, PendingView, Progress, ProgressView, UserIntent, UserIntentView,
};
use crate::music::{search_result, tracks_outcome, SearchReplyView};
use crate::music::types::{tracks_view, Track, TrackView};
use crate::text::{debug_form, debug_quoted, lines_view, trimmed};
use vstd::prelude::*;
use vstd::string::*;

verus! {

/// What a turn is busy with.
#[derive(Clone, Debug, PartialEq, Eq)]
pub enum Task {
    /// The line is being classified.
    Classifying(Pending),
    /// The line is conversation, and its answer has been asked for.
    Answering { query: String },
    /// The line asks for music, and the catalog is being searched for the
    /// refined phrase.
    Searching { query: String },
}

/// The model of a [`Task`].
pub enum TaskView {
    Classifying(PendingView),
    Answering { query: Seq<char> },
    Searching { query: Seq<char> },
}

impl View for Task {
    type V = TaskView;

    open spec fn view(&self) -> TaskView {
        match self {
            Task::Classifying(pending) => TaskView::Classifying(pending@),
            Task::Answering { query } => TaskView::Answering { query: query@ },
            Task::Searching { query } => TaskView::Searching { query: query@ },
        }
    }
}

/// The state of the loop.
#[derive(Clone, Debug, PartialEq, Eq)]
pub enum State {
    AwaitingInput,
    Processing(Task),
    Shutdown,
}

/// The model of a [`State`].
pub enum StateView {
    AwaitingInput,
    Processing(TaskView),
    Shutdown,
}

impl View for State {
    type V = StateView;

    open spec fn view(&self) -> StateView {
        match self {
            State::AwaitingInput => StateView::AwaitingInput,
            State::Processing(task) => StateView::Processing(task@),
            State::Shutdown => StateView::Shutdown,
        }
    }
}

/// What the caller is to do for the machine.
#[derive(Clone, Debug, PartialEq, Eq)]
pub enum Action {
    /// Ask the input source for a line, with this prompt.
    ReadLine(String),
    /// Ask the chat endpoint to continue this conversation.
    Chat(ApiRequest),
    /// Search the catalog for this query.
    Search(String),
    /// Leave the loop.
    Stop,
}

/// The model of an [`Action`].
pub enum ActionView {
    ReadLine(Seq<char>),
    Chat(ApiRequestView),
    Search(Seq<char>),
    Stop,
}

impl View for Action {
    type V = ActionView;

    open spec fn view(&self) -> ActionView {
        match self {
            Action::ReadLine(prompt) => ActionView::ReadLine(prompt@),
            Action::Chat(request) => ActionView::Chat(request@),
            Action::Search(query) => ActionView::Search(query@),
            Action::Stop => ActionView::Stop,
        }
    }
}

/// What came of an action.
#[derive(Debug)]
pub enum Event {
    /// What the input source gave.
    Input(Reading),
    /// The chat endpoint's answer, or the failure of the call.
    Chat(Result<String, Error>),
    /// The catalog's tracks, or the failure of the search.
    Search(Result<Vec<Track>, Error>),
}

/// The model of an [`Event`].
pub enum EventView {
    Input(ReadingView),
    Chat(Result<Seq<char>, ErrorView>),
    Search(Result<Seq<TrackView>, ErrorView>),
}

impl View for Event {
    type V = EventView;

    open spec fn view(&self) -> EventView {
        match self {
            Event::Input(reading) => EventView::Input(reading@),
            Event::Chat(reply) => EventView::Chat(text_outcome(*reply)),
            Event::Search(reply) => EventView::Search(tracks_outcome(*reply)),
        }
    }
}

/// One step of the machine.
#[derive(Debug)]
pub struct Turn {
    /// The state after the step.
    pub next: State,
    /// The lines to show, in order.
    pub output: Vec<String>,
    /// The failure that ended the run, if one did.
    pub failure: Option<Error>,
}

/// The model of a [`Turn`].
pub struct TurnView {
    pub next: StateView,
    pub output: Seq<Seq<char>>,
    pub failure: Option<ErrorView>,
}

impl View for Turn {
    type V = TurnView;

    open spec fn view(&self) -> TurnView {
        TurnView {
            next: self.next@,
            output: lines_view(self.output@),
            failure: match self.failure {
                Some(failure) => Some(failure@),
                None => None,
            },
        }
    }
}

/// The line that reports a classification as the variant `name` with the
/// payload as `Debug` has `written` it.
pub open spec fn classified_as(name: Seq<char>, written: Seq<char>) -> Seq<char> {
    "🔍 Classified as: "@ + name + "("@ + written + ")"@
}

/// The line that reports how the input was classified.
pub open spec fn classified_line(intent: UserIntentView) -> Seq<char> {
    match intent {
        UserIntentView::GeneralQuery(input) => classified_as(
            "GeneralQuery"@,
            debug_form(input),
        ),
        UserIntentView::MusicRequest(phrase) => classified_as(
            "MusicRequest"@,
            debug_form(phrase),
        ),
    }
}

/// The line that reports the phrase that is searched for.
pub open spec fn refined_line(phrase: Seq<char>) -> Seq<char> {
    "🎯 Refined search: "@ + phrase
}

/// The line that shows the chat endpoint's answer.
pub open spec fn answer_line(answer: Seq<char>) -> Seq<char> {
    "🤖 AI: "@ + answer
}

/// The line that reports that the search for `query` found nothing.
pub open spec fn no_tracks_line(query: Seq<char>) -> Seq<char> {
    "🎵 No tracks found for: "@ + query
}

/// The line that shows one track: title, artist and stream address.
pub open spec fn track_line(track: TrackView) -> Seq<char> {
    "  - "@ + track.name + " by "@ + track.artist_name + " (Stream: "@ + track.audio + ")"@
}

/// The lines that show the tracks that a search found: a heading, then one
/// line for each track, in the catalog's order.
pub open spec fn found_lines(tracks: Seq<TrackView>) -> Seq<Seq<char>> {
    seq!["🎵 Found tracks:"@] + Seq::new(tracks.len(), |i: int| track_line(tracks[i]))
}

/// A step that changes nothing.
pub open spec fn stayed(state: StateView) -> TurnView {
    TurnView { next: state, output: Seq::empty(), failure: None }
}

/// A step that ends the run with `failure`.
pub open spec fn failed(failure: ErrorView) -> TurnView {
    TurnView { next: StateView::Shutdown, output: Seq::empty(), failure: Some(failure) }
}

/// A step that shuts the loop down with a farewell and without a failure.
pub open spec fn parted() -> TurnView {
    TurnView { next: StateView::Shutdown, output: seq![FAREWELL@], failure: None }
}

/// The step on what the input source gave: a line is taken up for
/// classification, an interrupt or the end of the input shuts the loop
/// down with a farewell, and a failure of the source ends the run.
pub open spec fn on_reading(reading: ReadingView) -> TurnView {
    match reading {
        ReadingView::Line(text) => on_progress(begun(text)),
        ReadingView::Interrupted => parted(),
        ReadingView::Closed => parted(),
        ReadingView::Failed(detail) => failed(ErrorView::InputFailure(detail)),
    }
}

/// The step on how far the classification has come: it goes on asking, or
/// it has decided and the downstream call is due, or it has failed.
pub open spec fn on_progress(progress: ProgressView) -> TurnView {
    match progress {
        ProgressView::Ask(pending) => TurnView {
            next: StateView::Processing(TaskView::Classifying(pending)),
            output: Seq::empty(),
            failure: None,
        },
        ProgressView::Done(intent) => match intent {
            UserIntentView::GeneralQuery(input) => TurnView {
                next: StateView::Processing(TaskView::Answering { query: input }),
                output: seq![classified_line(intent)],
                failure: None,
            },
            UserIntentView::MusicRequest(phrase) => TurnView {
                next: StateView::Processing(TaskView::Searching { query: phrase }),
                output: seq![classified_line(intent), refined_line(phrase)],
                failure: None,
            },
        },
        ProgressView::Failed(failure) => failed(failure),
    }
}

/// The step on the answer to a conversational line: the answer is shown as
/// it came, and the loop waits for input again. A failed call ends the run.
pub open spec fn on_answer(reply: Result<Seq<char>, ErrorView>) -> TurnView {
    match reply {
        Ok(answer) => TurnView {
            next: StateView::AwaitingInput,
            output: seq![answer_line(answer)],
            failure: None,
        },
        Err(failure) => failed(failure),
    }
}

/// The step on the outcome of the search for `query`: the tracks are shown,
/// or that there are none, and the loop waits for input again. Any failure
/// but `NoResults` ends the run.
pub open spec fn on_tracks(
    query: Seq<char>,
    reply: Result<Seq<TrackView>, ErrorView>,
) -> TurnView {
    match reply {
        Ok(tracks) => TurnView {
            next: StateView::AwaitingInput,
            output: if tracks.len() == 0 {
                seq![no_tracks_line(query)]
            } else {
                found_lines(tracks)
            },
            failure: None,
        },
        Err(failure) => if failure.is_fatal() {
            failed(failure)
        } else {
            TurnView {
                next: StateView::AwaitingInput,
                output: seq![no_tracks_line(query)],
                failure: None,
            }
        },
    }
}

impl StateView {
    /// The action that the machine waits for in this state.
    pub open spec fn action(self) -> ActionView {
        match self {
            StateView::AwaitingInput => ActionView::ReadLine(PROMPT@),
            StateView::Processing(task) => match task {
                TaskView::Classifying(pending) => ActionView::Chat(pending.request()),
                TaskView::Answering { query } => ActionView::Chat(conversation(query)),
                TaskView::Searching { query } => ActionView::Search(query),
            },
            StateView::Shutdown => ActionView::Stop,
        }
    }
}

/// The step of the machine from `state` on `event`. An event that is not
/// the outcome of the state's action changes nothing.
pub open spec fn stepped(state: StateView, event: EventView) -> TurnView {
    match state {
        StateView::AwaitingInput => match event {
            EventView::Input(reading) => on_reading(reading),
            _ => stayed(state),
        },
        StateView::Processing(task) => match task {
            TaskView::Classifying(pending) => match event {
                EventView::Chat(reply) => on_progress(resumed(pending, reply)),
                _ => stayed(state),
            },
            TaskView::Answering { query } => match event {
                EventView::Chat(reply) => on_answer(reply),
                _ => stayed(state),
            },
            TaskView::Searching { query } => match event {
                EventView::Search(reply) => on_tracks(query, reply),
                _ => stayed(state),
            },
        },
        StateView::Shutdown => stayed(state),
    }
}

fn stay(state: State) -> (turn: Turn)
    ensures
        turn@ == stayed(state@),
{
    let turn = Turn { next: state, output: Vec::new(), failure: None };
    assert(turn@.output =~= Seq::empty());
    turn
}

fn fail(failure: Error) -> (turn: Turn)
    ensures
        turn@ == failed(failure@),
{
    let turn = Turn { next: State::Shutdown, output: Vec::new(), failure: Some(failure) };
    assert(turn@.output =~= Seq::empty());
    turn
}

fn show(next: State, line: String) -> (turn: Turn)
    ensures
        turn@ == (TurnView { next: next@, output: seq![line@], failure: None }),
{
    let mut output: Vec<String> = Vec::new();
    output.push(line);
    let turn = Turn { next, output, failure: None };
    assert(turn@.output =~= seq![line@]);
    turn
}

/// The line that reports a classification as the variant `name` with the
/// payload as `Debug` has `written` it.
pub fn report_classified(name: &str, written: &str) -> (line: String)
    ensures
        line@ == classified_as(name@, written@),
{
    String::from_str("🔍 Classified as: ").concat(name).concat("(").concat(written).concat(")")
}

/// The line that reports how the input was classified.
pub fn describe(intent: &UserIntent) -> (line: String)
    ensures
        line@ == classified_line(intent@),
{
    match intent {
        UserIntent::GeneralQuery(input) => {
            let written = debug_quoted(input.as_str());
            report_classified("GeneralQuery", written.as_str())
        },
        UserIntent::MusicRequest(phrase) => {
            let written = debug_quoted(phrase.as_str());
            report_classified("MusicRequest", written.as_str())
        },
    }
}

/// The line that shows one track.
pub fn show_track(track: &Track) -> (line: String)
    ensures
        line@ == track_line(track@),
{
    String::from_str("  - ").concat(track.name.as_str()).concat(" by ").concat(
        track.artist_name.as_str(),
    ).concat(" (Stream: ").concat(track.audio.as_str()).concat(")")
}

/// The lines that show the tracks that a search found.
pub fn show_tracks(tracks: &Vec<Track>) -> (lines: Vec<String>)
    ensures
        lines_view(lines@) == found_lines(tracks_view(tracks@)),
{
    let mut lines: Vec<String> = Vec::new();
    lines.push(String::from_str("🎵 Found tracks:"));
    let mut i: usize = 0;
    while i < tracks.len()
        invariant
            i <= tracks@.len(),
            lines@.len() == i + 1,
            lines@[0]@ == "🎵 Found tracks:"@,
            forall|k: int| 0 <= k < i ==> (#[trigger] lines@[k + 1])@ == track_line(tracks@[k]@),
        decreases tracks@.len() - i,
    {
        lines.push(show_track(&tracks[i]));
        i += 1;
    }
    proof {
        let shown = lines_view(lines@);
        let wanted = found_lines(tracks_view(tracks@));
        assert(shown.len() == wanted.len());
        assert forall|k: int| 0 <= k < shown.len() implies shown[k] == wanted[k] by {
            if k > 0 {
                assert(lines@[(k - 1) + 1]@ == track_line(tracks@[k - 1]@));
            }
        }
        assert(shown =~= wanted);
    }
    lines
}

fn no_tracks(query: String) -> (turn: Turn)
    ensures
        turn@ == (TurnView {
            next: StateView::AwaitingInput,
            output: seq![no_tracks_line(query@)],
            failure: None,
        }),
{
    show(State::AwaitingInput, String::from_str("🎵 No tracks found for: ").concat(query.as_str()))
}

fn read(reading: Reading) -> (turn: Turn)
    ensures
        turn@ == on_reading(reading@),
{
    match reading {
        Reading::Line(text) => proceed(IntentClassifier::new().classify(text.as_str())),
        Reading::Interrupted => show(State::Shutdown, String::from_str(FAREWELL)),
        Reading::Closed => show(State::Shutdown, String::from_str(FAREWELL)),
        Reading::Failed(detail) => fail(Error::InputFailure(detail)),
    }
}

fn proceed(progress: Progress) -> (turn: Turn)
    ensures
        turn@ == on_progress(progress@),
{
    match progress {
        Progress::Ask(pending) => stay(State::Processing(Task::Classifying(pending))),
        Progress::Done(intent) => {
            let report = describe(&intent);
            match intent {
                UserIntent::GeneralQuery(input) => show(
                    State::Processing(Task::Answering { query: input }),
                    report,
                ),
                UserIntent::MusicRequest(phrase) => {
                    let mut output: Vec<String> = Vec::new();
                    output.push(report);
                    output.push(String::from_str("🎯 Refined search: ").concat(phrase.as_str()));
                    let turn = Turn {
                        next: State::Processing(Task::Searching { query: phrase }),
                        output,
                        failure: None,
                    };
                    assert(turn@.output =~= seq![classified_line(intent@), refined_line(phrase@)]);
                    turn
                },
            }
        },
        Progress::Failed(failure) => fail(failure),
    }
}

fn answer(reply: Result<String, Error>) -> (turn: Turn)
    ensures
        turn@ == on_answer(text_outcome(reply)),
{
    match reply {
        Ok(text) => show(State::AwaitingInput, String::from_str("🤖 AI: ").concat(text.as_str())),
        Err(failure) => fail(failure),
    }
}

fn list(query: String, reply: Result<Vec<Track>, Error>) -> (turn: Turn)
    ensures
        turn@ == on_tracks(query@, tracks_outcome(reply)),
{
    match reply {
        Ok(tracks) => if tracks.len() == 0 {
            no_tracks(query)
        } else {
            Turn { next: State::AwaitingInput, output: show_tracks(&tracks), failure: None }
        },
        Err(failure) => if failure.is_fatal() {
            fail(failure)
        } else {
            no_tracks(query)
        },
    }
}

impl State {
    /// The state in which the loop begins.
    pub fn new() -> (state: State)
        ensures
            state@ == StateView::AwaitingInput,
    {
        State::AwaitingInput
    }

    /// The action that the machine waits for in this state. A conversation
    /// that it asks to continue can be sent as it is.
    pub fn action(&self) -> (action: Action)
        ensures
            action@ == self@.action(),
            action@ matches ActionView::Chat(request) ==> request.well_formed(),
    {
        match self {
            State::AwaitingInput => Action::ReadLine(String::from_str(PROMPT)),
            State::Processing(task) => match task {
                Task::Classifying(pending) => Action::Chat(pending.request()),
                Task::Answering { query } => Action::Chat(chat_request(query.as_str())),
                Task::Searching { query } => Action::Search(query.clone()),
            },
            State::Shutdown => Action::Stop,
        }
    }

    /// Steps the machine on `event`, the outcome of the state's action.
    pub fn step(self, event: Event) -> (turn: Turn)
        ensures
            turn@ == stepped(self@, event@),
    {
        match self {
            State::AwaitingInput => match event {
                Event::Input(reading) => read(reading),
                _ => stay(State::AwaitingInput),
            },
            State::Processing(task) => match task {
                Task::Classifying(pending) => match event {
                    Event::Chat(reply) => proceed(IntentClassifier::new().resume(pending, reply)),
                    _ => stay(State::Processing(Task::Classifying(pending))),
                },
                Task::Answering { query } => match event {
                    Event::Chat(reply) => answer(reply),
                    _ => stay(State::Processing(Task::Answering { query })),
                },
                Task::Searching { query } => match event {
                    Event::Search(reply) => list(query, reply),
                    _ => stay(State::Processing(Task::Searching { query })),
                },
            },
            State::Shutdown => stay(State::Shutdown),
        }
    }
}

/// Once shut down, the machine stays so, shows nothing and asks for nothing
/// but to stop.
pub proof fn lemma_shutdown_is_final(event: EventView)
    ensures
        stepped(StateView::Shutdown, event) == stayed(StateView::Shutdown),
        StateView::Shutdown.action() == ActionView::Stop,
{
}

/// A step reports a failure only when it shuts the machine down, and the
/// machine asks to stop in the shut-down state only.
pub proof fn lemma_failure_shuts_down(state: StateView, event: EventView)
    ensures
        stepped(state, event).failure is Some ==> stepped(state, event).next
            == StateView::Shutdown,
        state.action() == ActionView::Stop <==> state == StateView::Shutdown,
{
}

/// The machine shuts down on an interrupt or on the end of the input
/// while it waits for input, or on a failure, and on nothing else. An empty
/// line does not shut it down.
pub proof fn lemma_shutdown_causes(state: StateView, event: EventView)
    requires
        state != StateView::Shutdown,
        stepped(state, event).next == StateView::Shutdown,
    ensures
        stepped(state, event).failure is Some || (state == StateView::AwaitingInput && (event
            == EventView::Input(ReadingView::Interrupted) || event == EventView::Input(
            ReadingView::Closed,
        ))),
{
}

/// A failed call ends the run with the failure as it came, with one
/// exception: a search that matched nothing.
pub proof fn lemma_failed_call_ends_run(task: TaskView, failure: ErrorView)
    ensures
        !(task is Searching) ==> stepped(
            StateView::Processing(task),
            EventView::Chat(Err(failure)),
        ) == failed(failure),
        task is Searching && failure.is_fatal() ==> stepped(
            StateView::Processing(task),
            EventView::Search(Err(failure)),
        ) == failed(failure),
{
}

/// A search that matches nothing is no failure of the run: the machine
/// says that no tracks were found for the phrase that was searched, and
/// waits for the next line. This holds whether the outcome arrives as the
/// failure `NoResults` or as an empty list of tracks.
pub proof fn lemma_no_results_continues(query: Seq<char>, searched: Seq<char>)
    ensures
        stepped(
            StateView::Processing(TaskView::Searching { query }),
            EventView::Search(Err(ErrorView::NoResults(searched))),
        ) == (TurnView {
            next: StateView::AwaitingInput,
            output: seq![no_tracks_line(query)],
            failure: None,
        }),
        stepped(
            StateView::Processing(TaskView::Searching { query }),
            EventView::Search(Ok(Seq::empty())),
        ) == stepped(
            StateView::Processing(TaskView::Searching { query }),
            EventView::Search(Err(ErrorView::NoResults(searched))),
        ),
        StateView::AwaitingInput.action() == ActionView::ReadLine(PROMPT@),
{
}

/// A catalog reply that parses and holds no track is read as `NoResults`,
/// and the loop goes on to the next turn.
pub proof fn lemma_empty_catalog_reply_continues(query: Seq<char>, body: Seq<char>)
    ensures
        search_result(SearchReplyView::Received { body, parsed: Ok(Seq::empty()) }, query) == Err::<
            Seq<TrackView>,
            ErrorView,
        >(ErrorView::NoResults(query)),
        stepped(
            StateView::Processing(TaskView::Searching { query }),
            EventView::Search(
                search_result(SearchReplyView::Received { body, parsed: Ok(Seq::empty()) }, query),
            ),
        ).next == StateView::AwaitingInput,
        stepped(
            StateView::Processing(TaskView::Searching { query }),
            EventView::Search(
                search_result(SearchReplyView::Received { body, parsed: Ok(Seq::empty()) }, query),
            ),
        ).failure is None,
{
}

/// A line that the endpoint labels as conversation takes two chat calls.
/// The first asks for the label: its system message is the classifier
/// instruction and its user message is the trimmed line. The second asks
/// for the answer to the trimmed line itself, under the instruction of a
/// plain conversation. No refinement is asked for, the answer is shown as
/// it came, and the machine waits for the next line.
pub proof fn lemma_conversation_turn(line: Seq<char>, label: Seq<char>, answer: Seq<char>)
    requires
        !is_music_label(label),
    ensures
        ({
            let taken = stepped(StateView::AwaitingInput, EventView::Input(ReadingView::Line(line)));
            let labelled = stepped(taken.next, EventView::Chat(Ok(label)));
            let answered = stepped(labelled.next, EventView::Chat(Ok(answer)));
            &&& taken.next.action() == ActionView::Chat(classification_request(trimmed(line)))
            &&& labelled.next.action() == ActionView::Chat(conversation(trimmed(line)))
            &&& labelled.output == seq![
                classified_line(UserIntentView::GeneralQuery(trimmed(line))),
            ]
            &&& answered == (TurnView {
                next: StateView::AwaitingInput,
                output: seq![answer_line(answer)],
                failure: None,
            })
        }),
{
}

/// A line that the endpoint labels as music takes two chat calls, one for
/// the label and one for the refinement, each with its own instruction as
/// the system message and the trimmed line as the user message, and one
/// search, which is made for the refined phrase. The tracks are shown in the catalog's order, and the
/// machine waits for the next line.
pub proof fn lemma_music_turn(
    line: Seq<char>,
    label: Seq<char>,
    refinement: Seq<char>,
    tracks: Seq<TrackView>,
)
    requires
        is_music_label(label),
        tracks.len() > 0,
    ensures
        ({
            let taken = stepped(StateView::AwaitingInput, EventView::Input(ReadingView::Line(line)));
            let labelled = stepped(taken.next, EventView::Chat(Ok(label)));
            let refined_turn = stepped(labelled.next, EventView::Chat(Ok(refinement)));
            let searched = stepped(refined_turn.next, EventView::Search(Ok(tracks)));
            &&& taken.next.action() == ActionView::Chat(classification_request(trimmed(line)))
            &&& labelled.next.action() == ActionView::Chat(refinement_request(trimmed(line)))
            &&& labelled.output == Seq::<Seq<char>>::empty()
            &&& refined_turn.next.action() == ActionView::Search(refined(refinement))
            &&& refined_turn.output == seq![
                classified_line(UserIntentView::MusicRequest(refined(refinement))),
                refined_line(refined(refinement)),
            ]
            &&& searched == (TurnView {
                next: StateView::AwaitingInput,
                output: found_lines(tracks),
                failure: None,
            })
        }),
{
}

/// A music turn whose search matches nothing says so for the refined
/// phrase, not for the line that was typed, and the machine waits for the
/// next line.
pub proof fn lemma_music_turn_finds_nothing(
    line: Seq<char>,
    label: Seq<char>,
    refinement: Seq<char>,
    body: Seq<char>,
)
    requires
        is_music_label(label),
    ensures
        ({
            let taken = stepped(StateView::AwaitingInput, EventView::Input(ReadingView::Line(line)));
            let labelled = stepped(taken.next, EventView::Chat(Ok(label)));
            let refined_turn = stepped(labelled.next, EventView::Chat(Ok(refinement)));
            let outcome = search_result(
                SearchReplyView::Received { body, parsed: Ok(Seq::empty()) },
                refined(refinement),
            );
            let searched = stepped(refined_turn.next, EventView::Search(outcome));
            &&& refined_turn.next.action() == ActionView::Search(refined(refinement))
            &&& outcome == Err::<Seq<TrackView>, ErrorView>(
                ErrorView::NoResults(refined(refinement)),
            )
            &&& searched == (TurnView {
                next: StateView::AwaitingInput,
                output: seq![no_tracks_line(refined(refinement))],
                failure: None,
            })
        }),
{
}

} // verus!
