//! Intent classification: whether a line of input is conversation or a
//! request for music, and, for music, the phrase to search for.
//!
//! A classification asks the chat endpoint once for a label and, when the
//! label says music, a second time for a search phrase. Each request is a
//! conversation of two messages: the instruction for the task as the
//! system message, then the trimmed input as the user message. The
//! classifier does not talk to the endpoint itself: it says what to ask,
//! and is resumed with the reply.

use crate::api::client::{conversation, instructed, instructed_request, SYSTEM_PROMPT};
use crate::api::types::{ApiRequest, ApiRequestView, MessageView, Role};
use crate::error::{text_outcome, Error, ErrorView};
use crate::prompt_file::prompt::{
    lemma_instructions_differ, CLASSIFICATION_PROMPT, REFINEMENT_PROMPT,
};
use crate::text::{lowercase_of, to_lowercase, to_uppercase, trim, trimmed, uppercase_of};
use vstd::prelude::*;
use vstd::string::*;

verus! {

/// The label that marks a request for music.
pub const MUSIC_LABEL: &'static str = "MUSIC";

/// What the user wants with one line of input.
#[derive(Clone, Debug, PartialEq, Eq)]
pub enum UserIntent {
    /// Conversation. Carries the trimmed input.
    GeneralQuery(String),
    /// A request for music. Carries the refined search phrase.
    MusicRequest(String),
}

/// The model of a [`UserIntent`].
pub enum UserIntentView {
    GeneralQuery(Seq<char>),
    MusicRequest(Seq<char>),
}

impl View for UserIntent {
    type V = UserIntentView;

    open spec fn view(&self) -> UserIntentView {
        match self {
            UserIntent::GeneralQuery(input) => UserIntentView::GeneralQuery(input@),
            UserIntent::MusicRequest(phrase) => UserIntentView::MusicRequest(phrase@),
        }
    }
}

/// A classification that waits for a reply of the chat endpoint.
#[derive(Clone, Debug, PartialEq, Eq)]
pub enum Pending {
    /// The label of `input` has been asked for.
    Label { input: String },
    /// The search phrase for `input` has been asked for.
    Refinement { input: String },
}

/// The model of a [`Pending`].
pub enum PendingView {
    Label { input: Seq<char> },
    Refinement { input: Seq<char> },
}

impl View for Pending {
    type V = PendingView;

    open spec fn view(&self) -> PendingView {
        match self {
            Pending::Label { input } => PendingView::Label { input: input@ },
            Pending::Refinement { input } => PendingView::Refinement { input: input@ },
        }
    }
}

/// How far a classification has come.
#[derive(Clone, Debug, PartialEq, Eq)]
pub enum Progress {
    /// The chat endpoint is to be asked; the classification resumes with
    /// its reply.
    Ask(Pending),
    /// The input is classified.
    Done(UserIntent),
    /// A call failed, and the classification with it.
    Failed(Error),
}

/// The model of a [`Progress`].
pub enum ProgressView {
    Ask(PendingView),
    Done(UserIntentView),
    Failed(ErrorView),
}

impl View for Progress {
    type V = ProgressView;

    open spec fn view(&self) -> ProgressView {
        match self {
            Progress::Ask(pending) => ProgressView::Ask(pending@),
            Progress::Done(intent) => ProgressView::Done(intent@),
            Progress::Failed(failure) => ProgressView::Failed(failure@),
        }
    }
}

/// The conversation that asks for the label of `input`: the classifier
/// instruction as the system message, then the input as the user message.
pub open spec fn classification_request(input: Seq<char>) -> ApiRequestView {
    instructed(CLASSIFICATION_PROMPT@, input)
}

/// The conversation that asks for the search phrase for `input`: the
/// refinement instruction as the system message, then the input as the user
/// message.
pub open spec fn refinement_request(input: Seq<char>) -> ApiRequestView {
    instructed(REFINEMENT_PROMPT@, input)
}

/// Whether `response` labels a request as music: trimmed and in upper
/// case it is the label, no more and no less.
pub open spec fn is_music_label(response: Seq<char>) -> bool {
    uppercase_of(trimmed(response)) == MUSIC_LABEL@
}

/// The search phrase that `response` gives: trimmed and in lower case.
pub open spec fn refined(response: Seq<char>) -> Seq<char> {
    lowercase_of(trimmed(response))
}

impl PendingView {
    /// The conversation to send to the chat endpoint.
    pub open spec fn request(self) -> ApiRequestView {
        match self {
            PendingView::Label { input } => classification_request(input),
            PendingView::Refinement { input } => refinement_request(input),
        }
    }
}

/// A classification of `input` at its start: the label of the trimmed
/// input is asked for.
pub open spec fn begun(input: Seq<char>) -> ProgressView {
    ProgressView::Ask(PendingView::Label { input: trimmed(input) })
}

/// A classification after `reply` has come in for what was pending.
pub open spec fn resumed(
    pending: PendingView,
    reply: Result<Seq<char>, ErrorView>,
) -> ProgressView {
    match reply {
        Err(failure) => ProgressView::Failed(failure),
        Ok(response) => match pending {
            PendingView::Label { input } => if is_music_label(response) {
                ProgressView::Ask(PendingView::Refinement { input })
            } else {
                ProgressView::Done(UserIntentView::GeneralQuery(input))
            },
            PendingView::Refinement { input } => ProgressView::Done(
                UserIntentView::MusicRequest(refined(response)),
            ),
        },
    }
}

/// What the classification of `input` comes to when the endpoint answers
/// the request for the label with `label` and a request for the search
/// phrase with `refinement`.
pub open spec fn classified(
    input: Seq<char>,
    label: Result<Seq<char>, ErrorView>,
    refinement: Result<Seq<char>, ErrorView>,
) -> Result<UserIntentView, ErrorView> {
    match label {
        Err(failure) => Err(failure),
        Ok(response) => if is_music_label(response) {
            match refinement {
                Err(failure) => Err(failure),
                Ok(phrase) => Ok(UserIntentView::MusicRequest(refined(phrase))),
            }
        } else {
            Ok(UserIntentView::GeneralQuery(trimmed(input)))
        },
    }
}

/// How often the classification asks the chat endpoint when the request for
/// the label is answered with `label`.
pub open spec fn calls_made(label: Result<Seq<char>, ErrorView>) -> nat {
    match label {
        Ok(response) => if is_music_label(response) {
            2
        } else {
            1
        },
        Err(_) => 1,
    }
}

/// What a classification has come to, once it asks no more.
pub open spec fn settled(progress: ProgressView) -> Option<Result<UserIntentView, ErrorView>> {
    match progress {
        ProgressView::Ask(_) => None,
        ProgressView::Done(intent) => Some(Ok(intent)),
        ProgressView::Failed(failure) => Some(Err(failure)),
    }
}

/// Whether a normalised response is the music label.
pub fn matches_label(normalised: &str) -> (matches: bool)
    ensures
        matches == (normalised@ == MUSIC_LABEL@),
{
    String::from_str(normalised) == String::from_str(MUSIC_LABEL)
}

impl Pending {
    /// The conversation to send to the chat endpoint: the instruction for
    /// what is pending as the system message, then the input as the user
    /// message.
    pub fn request(&self) -> (request: ApiRequest)
        ensures
            request@ == self@.request(),
            request@.well_formed(),
    {
        match self {
            Pending::Label { input } => instructed_request(CLASSIFICATION_PROMPT, input.as_str()),
            Pending::Refinement { input } => instructed_request(
                REFINEMENT_PROMPT,
                input.as_str(),
            ),
        }
    }
}

/// Decides what a line of input asks for.
#[derive(Clone, Copy, Debug, PartialEq, Eq, Structural)]
pub struct IntentClassifier;

impl IntentClassifier {
    pub fn new() -> (classifier: Self)
        ensures
            classifier == IntentClassifier,
    {
        IntentClassifier
    }

    /// Begins the classification of `input`: trims it and asks for its
    /// label.
    pub fn classify(&self, input: &str) -> (progress: Progress)
        ensures
            progress@ == begun(input@),
    {
        Progress::Ask(Pending::Label { input: String::from_str(trim(input)) })
    }

    /// Whether `response`, the endpoint's answer to a request for a label,
    /// says music. Any other answer says conversation: the comparison is
    /// strict, so that an answer with anything added to the label, be it a
    /// full stop, says conversation too.
    pub fn is_music(&self, response: &str) -> (music: bool)
        ensures
            music == is_music_label(response@),
    {
        let normalised = to_uppercase(trim(response));
        matches_label(normalised.as_str())
    }

    /// The search phrase in `response`, the endpoint's answer to a request
    /// for refinement.
    pub fn refine(&self, response: &str) -> (phrase: String)
        ensures
            phrase@ == refined(response@),
    {
        to_lowercase(trim(response))
    }

    /// Resumes a classification with the reply to what was pending. A
    /// failed call fails the classification with the same failure. A label
    /// that says music asks for the refinement of the same input; any other
    /// label ends the classification as conversation, with the input. A
    /// refinement ends it as a music request, with the phrase.
    pub fn resume(&self, pending: Pending, reply: Result<String, Error>) -> (progress: Progress)
        ensures
            progress@ == resumed(pending@, text_outcome(reply)),
    {
        match reply {
            Err(failure) => Progress::Failed(failure),
            Ok(response) => match pending {
                Pending::Label { input } => if self.is_music(response.as_str()) {
                    Progress::Ask(Pending::Refinement { input })
                } else {
                    Progress::Done(UserIntent::GeneralQuery(input))
                },
                Pending::Refinement { input } => Progress::Done(
                    UserIntent::MusicRequest(self.refine(response.as_str())),
                ),
            },
        }
    }
}

/// A classification asks the endpoint once or twice and then has come to
/// what `classified` says: after the label alone where the label fails or
/// says conversation, after the refinement where it says music.
pub proof fn lemma_classification_runs(
    input: Seq<char>,
    label: Result<Seq<char>, ErrorView>,
    refinement: Result<Seq<char>, ErrorView>,
)
    ensures
        begun(input) == ProgressView::Ask(PendingView::Label { input: trimmed(input) }),
        calls_made(label) == 1 || calls_made(label) == 2,
        calls_made(label) == 1 ==> settled(
            resumed(PendingView::Label { input: trimmed(input) }, label),
        ) == Some(classified(input, label, refinement)),
        calls_made(label) == 2 ==> resumed(PendingView::Label { input: trimmed(input) }, label)
            == ProgressView::Ask(PendingView::Refinement { input: trimmed(input) }) && settled(
            resumed(PendingView::Refinement { input: trimmed(input) }, refinement),
        ) == Some(classified(input, label, refinement)),
{
}

/// A classification whose requests are answered always decides, and for
/// exactly one of the two intents: a music request with the refined phrase
/// where the label says music, conversation with the trimmed input where
/// it says anything else.
pub proof fn lemma_classification_decides(
    input: Seq<char>,
    label: Seq<char>,
    refinement: Seq<char>,
)
    ensures
        is_music_label(label) ==> classified(input, Ok(label), Ok(refinement)) == Ok::<
            UserIntentView,
            ErrorView,
        >(UserIntentView::MusicRequest(refined(refinement))),
        !is_music_label(label) ==> classified(input, Ok(label), Ok(refinement)) == Ok::<
            UserIntentView,
            ErrorView,
        >(UserIntentView::GeneralQuery(trimmed(input))),
{
}

/// Each request of a classification holds two messages in this order: the
/// instruction for the task in the system role, then the input in the user
/// role, each as it stands. The request for the label of a line carries the
/// trimmed line.
pub proof fn lemma_requests_carry_instruction_and_input(line: Seq<char>, input: Seq<char>)
    ensures
        (PendingView::Label { input }).request().messages == seq![
            MessageView { role: Role::System, content: CLASSIFICATION_PROMPT@ },
            MessageView { role: Role::User, content: input },
        ],
        (PendingView::Refinement { input }).request().messages == seq![
            MessageView { role: Role::System, content: REFINEMENT_PROMPT@ },
            MessageView { role: Role::User, content: input },
        ],
        (PendingView::Label { input }).request().well_formed(),
        (PendingView::Refinement { input }).request().well_formed(),
        begun(line) matches ProgressView::Ask(pending) && pending.request()
            == classification_request(trimmed(line)),
{
}

/// The request for a label, the request for a refinement and the request
/// for a plain answer are three different conversations, whatever text
/// each carries: they differ in their instruction.
pub proof fn lemma_requests_differ(a: Seq<char>, b: Seq<char>)
    ensures
        classification_request(a) != refinement_request(b),
        classification_request(a) != conversation(b),
        refinement_request(a) != conversation(b),
{
    lemma_instructions_differ();
    assert(classification_request(a).messages[0].content == CLASSIFICATION_PROMPT@);
    assert(refinement_request(a).messages[0].content == REFINEMENT_PROMPT@);
    assert(refinement_request(b).messages[0].content == REFINEMENT_PROMPT@);
    assert(conversation(b).messages[0].content == SYSTEM_PROMPT@);
}

/// The label alone decides between the two intents: the classification
/// ends as a music request exactly when the label, trimmed and in upper
/// case, is `MUSIC`, and as conversation on any other label.
pub proof fn lemma_label_decides(input: Seq<char>, label: Seq<char>, refinement: Seq<char>)
    ensures
        classified(input, Ok(label), Ok(refinement)) matches Ok(UserIntentView::MusicRequest(_))
            <==> uppercase_of(trimmed(label)) == MUSIC_LABEL@,
        classified(input, Ok(label), Ok(refinement)) matches Ok(UserIntentView::GeneralQuery(_))
            <==> uppercase_of(trimmed(label)) != MUSIC_LABEL@,
{
}

/// A failed request fails the classification with the very same failure.
pub proof fn lemma_failures_pass_through(
    input: Seq<char>,
    label: Seq<char>,
    refinement: Result<Seq<char>, ErrorView>,
    failure: ErrorView,
)
    ensures
        classified(input, Err(failure), refinement) == Err::<UserIntentView, ErrorView>(failure),
        is_music_label(label) ==> classified(input, Ok(label), Err(failure)) == Err::<
            UserIntentView,
            ErrorView,
        >(failure),
{
}

/// The refinement is asked for exactly when the label says music. A label
/// that says anything else ends the classification with that one request.
pub proof fn lemma_refinement_only_for_music(input: Seq<char>, label: Seq<char>)
    ensures
        resumed(PendingView::Label { input }, Ok(label)) is Ask <==> is_music_label(label),
        is_music_label(label) ==> resumed(PendingView::Label { input }, Ok(label))
            == ProgressView::Ask(PendingView::Refinement { input }),
        !is_music_label(label) ==> resumed(PendingView::Label { input }, Ok(label))
            == ProgressView::Done(UserIntentView::GeneralQuery(input)),
        !is_music_label(label) ==> calls_made(Ok(label)) == 1,
{
}

/// The phrase of a music request comes from the reply to the refinement
/// and from nothing else: it is the same whatever the input was, and it
/// equals an input only where the normalised reply does. For a reply that
/// normalising leaves as it is, that is where the reply repeats the input
/// to the letter.
pub proof fn lemma_phrase_comes_from_refinement(
    input: Seq<char>,
    other: Seq<char>,
    label: Seq<char>,
    refinement: Seq<char>,
)
    requires
        is_music_label(label),
    ensures
        classified(input, Ok(label), Ok(refinement)) == classified(
            other,
            Ok(label),
            Ok(refinement),
        ),
        classified(input, Ok(label), Ok(refinement)) == Ok::<UserIntentView, ErrorView>(
            UserIntentView::MusicRequest(input),
        ) <==> refined(refinement) == input,
        refined(refinement) == refinement ==> (classified(input, Ok(label), Ok(refinement)) == Ok::<
            UserIntentView,
            ErrorView,
        >(UserIntentView::MusicRequest(input)) <==> refinement == input),
{
}

} // verus!
