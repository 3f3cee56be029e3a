//! The orchestration of one request: `Received`, then `CallingProvider`, then
//! `Completed` or `Failed`.
//!
//! The provider call is made by the caller. `step` says what to do next and
//! takes what came of it; it neither retries nor falls back.

use crate::clock::{
    current_timestamp, is_timestamp, lemma_timestamp_names_its_offset, utc_offset,
};
use crate::config::ProviderConfigView;
use crate::identity::{is_identifier, new_identifier};
use crate::models::{
    envelope, ContentRequest, ContentRequestView, ContentResponse, ContentResponseView,
};
use crate::services::ai_service::{call_for, ProviderCall, ProviderCallView, ProviderFailure};
use crate::AppState;
use vstd::prelude::*;

verus! {

/// The one failure that callers are told of, whatever went wrong.
#[derive(Clone, Copy, Debug, PartialEq, Eq, Structural)]
pub struct InternalFailure {}

/// Where a request stands.
#[derive(Clone, Copy, Debug, PartialEq, Eq, Structural)]
pub enum Phase {
    Received,
    CallingProvider,
    Completed,
    Failed,
}

impl Phase {
    /// The request's lifecycle has ended.
    pub open spec fn terminal(self) -> bool {
        self == Phase::Completed || self == Phase::Failed
    }

    pub fn is_terminal(&self) -> (ended: bool)
        ensures
            ended == self.terminal(),
    {
        match self {
            Phase::Completed | Phase::Failed => true,
            Phase::Received | Phase::CallingProvider => false,
        }
    }
}

/// What can happen to a request.
pub enum Event {
    /// The request is handed over for processing.
    Dispatch(ContentRequest),
    /// The provider call ended, with text or with a failure.
    ProviderReplied(Result<String, ProviderFailure>),
}

/// An event as contracts see it.
pub enum EventView {
    Dispatch(ContentRequestView),
    ProviderReplied(Result<Seq<char>, ProviderFailure>),
}

/// What the provider call came to, with the text as a sequence of characters.
pub open spec fn outcome_view(outcome: Result<String, ProviderFailure>) -> Result<
    Seq<char>,
    ProviderFailure,
> {
    match outcome {
        Ok(text) => Ok(text@),
        Err(failure) => Err(failure),
    }
}

impl View for Event {
    type V = EventView;

    open spec fn view(&self) -> EventView {
        match self {
            Event::Dispatch(request) => EventView::Dispatch(request@),
            Event::ProviderReplied(outcome) => EventView::ProviderReplied(outcome_view(*outcome)),
        }
    }
}

/// What the caller is to do after a step.
pub enum Action {
    /// Make this provider call and report what came of it.
    CallProvider(ProviderCall),
    /// Answer the request: with the envelope, or with the generic failure.
    Finish(Result<ContentResponse, InternalFailure>),
    /// The event does not belong to this phase: nothing is to be done.
    Ignore,
}

/// An action as contracts see it.
pub enum ActionView {
    CallProvider(ProviderCallView),
    Finish(Result<ContentResponseView, InternalFailure>),
    Ignore,
}

/// The answer to a request, with the envelope seen through its view.
pub open spec fn answer_view(answer: Result<ContentResponse, InternalFailure>) -> Result<
    ContentResponseView,
    InternalFailure,
> {
    match answer {
        Ok(response) => Ok(response@),
        Err(failure) => Err(failure),
    }
}

impl View for Action {
    type V = ActionView;

    open spec fn view(&self) -> ActionView {
        match self {
            Action::CallProvider(call) => ActionView::CallProvider(call@),
            Action::Finish(answer) => ActionView::Finish(answer_view(*answer)),
            Action::Ignore => ActionView::Ignore,
        }
    }
}

/// `response` is an envelope for the provider text `content`: it holds that
/// text unchanged under a well-formed identifier and creation time, and its
/// status is `Completed`.
pub open spec fn completes(response: ContentResponseView, content: Seq<char>) -> bool {
    &&& response == envelope(response.id, content, response.created_at)
    &&& is_identifier(response.id)
    &&& is_timestamp(response.created_at)
}

/// `answer` is a right answer to a request whose provider call ended in
/// `outcome`: an envelope for the text if there is text, the generic failure
/// if there is none.
pub open spec fn answers(
    answer: Result<ContentResponseView, InternalFailure>,
    outcome: Result<Seq<char>, ProviderFailure>,
) -> bool {
    match outcome {
        Ok(content) => answer is Ok && completes(answer->Ok_0, content),
        Err(_) => answer is Err,
    }
}

/// The phase that follows `phase` on `event`. An event that does not belong
/// to the phase leaves it as it is.
pub open spec fn next_phase(phase: Phase, event: EventView) -> Phase {
    match (phase, event) {
        (Phase::Received, EventView::Dispatch(_)) => Phase::CallingProvider,
        (Phase::CallingProvider, EventView::ProviderReplied(Ok(_))) => Phase::Completed,
        (Phase::CallingProvider, EventView::ProviderReplied(Err(_))) => Phase::Failed,
        _ => phase,
    }
}

/// `action` is what `event` calls for in `phase`, for a client configured
/// with `config`.
pub open spec fn called_for(
    config: ProviderConfigView,
    phase: Phase,
    event: EventView,
    action: ActionView,
) -> bool {
    match (phase, event) {
        (Phase::Received, EventView::Dispatch(request)) => action == ActionView::CallProvider(
            call_for(config, request),
        ),
        (Phase::CallingProvider, EventView::ProviderReplied(outcome)) => action is Finish
            && answers(action->Finish_0, outcome),
        _ => action == ActionView::Ignore,
    }
}

/// Answers a request from what its provider call came to.
///
/// Text, even empty text, is wrapped in an envelope with a fresh identifier
/// and the current time. Any failure becomes the generic failure, and no
/// envelope is made.
pub fn generate_content(outcome: Result<String, ProviderFailure>) -> (answer: Result<
    ContentResponse,
    InternalFailure,
>)
    ensures
        answers(answer_view(answer), outcome_view(outcome)),
{
    match outcome {
        Ok(content) => {
            let id = new_identifier();
            let created_at = current_timestamp();
            Ok(ContentResponse::completed(id, content, created_at))
        },
        Err(_) => Err(InternalFailure {  }),
    }
}

/// Takes one step in the life of a request.
///
/// In `Received`, a dispatched request yields the provider call to make. In
/// `CallingProvider`, the provider's reply yields the answer and ends the
/// request. Everything else is ignored and changes nothing.
pub fn step(state: &AppState, phase: Phase, event: Event) -> (next: (Phase, Action))
    ensures
        next.0 == next_phase(phase, event@),
        called_for(state.service().parameters(), phase, event@, next.1@),
{
    match phase {
        Phase::Received => match event {
            Event::Dispatch(request) => {
                let call = state.ai_service().prepare(request);
                (Phase::CallingProvider, Action::CallProvider(call))
            },
            Event::ProviderReplied(_) => (phase, Action::Ignore),
        },
        Phase::CallingProvider => match event {
            Event::ProviderReplied(outcome) => {
                let answer = generate_content(outcome);
                let ended = match &answer {
                    Ok(_) => Phase::Completed,
                    Err(_) => Phase::Failed,
                };
                (ended, Action::Finish(answer))
            },
            Event::Dispatch(_) => (phase, Action::Ignore),
        },
        Phase::Completed | Phase::Failed => (phase, Action::Ignore),
    }
}

/// `event` makes `phase` ask for a provider call.
pub open spec fn calls_provider(phase: Phase, event: EventView) -> bool {
    phase == Phase::Received && event is Dispatch
}

/// The phase reached from `phase` after all of `events`, in order.
pub open spec fn run(phase: Phase, events: Seq<EventView>) -> Phase
    decreases events.len(),
{
    if events.len() == 0 {
        phase
    } else {
        run(next_phase(phase, events[0]), events.drop_first())
    }
}

/// How many provider calls are asked for while `events` are taken from `phase`.
pub open spec fn provider_calls(phase: Phase, events: Seq<EventView>) -> nat
    decreases events.len(),
{
    if events.len() == 0 {
        0
    } else {
        let here: nat = if calls_provider(phase, events[0]) {
            1
        } else {
            0
        };
        here + provider_calls(next_phase(phase, events[0]), events.drop_first())
    }
}

/// A provider call is asked for on the dispatch of a received request, and on
/// nothing else.
pub proof fn lemma_call_only_on_dispatch(
    config: ProviderConfigView,
    phase: Phase,
    event: EventView,
    action: ActionView,
)
    requires
        called_for(config, phase, event, action),
    ensures
        action is CallProvider <==> calls_provider(phase, event),
{
}

/// Whenever the provider returns text, the request completes: it is answered
/// with an envelope whose status reads `completed`, whose identifier is not
/// empty and whose content is the provider's text, unchanged.
pub proof fn lemma_provider_text_completes(
    config: ProviderConfigView,
    content: Seq<char>,
    action: ActionView,
)
    requires
        called_for(config, Phase::CallingProvider, EventView::ProviderReplied(Ok(content)), action),
    ensures
        next_phase(Phase::CallingProvider, EventView::ProviderReplied(Ok(content)))
            == Phase::Completed,
        action is Finish,
        action->Finish_0 is Ok,
        action->Finish_0->Ok_0.content == content,
        action->Finish_0->Ok_0.status.label() == "completed"@,
        action->Finish_0->Ok_0.id.len() > 0,
{
}

/// Every envelope says when it was made, in a form that names the offset from
/// UTC: its creation time ends in `+00:00`.
pub proof fn lemma_envelope_time_names_its_offset(response: ContentResponseView, content: Seq<char>)
    requires
        completes(response, content),
    ensures
        response.created_at.len() >= 25,
        response.created_at.subrange(
            response.created_at.len() - 6,
            response.created_at.len() as int,
        ) == utc_offset(),
{
    lemma_timestamp_names_its_offset(response.created_at);
}

/// Whenever the provider call fails, in whatever way, the request fails: it
/// is answered with the generic failure, and no envelope exists.
pub proof fn lemma_provider_failure_fails(
    config: ProviderConfigView,
    failure: ProviderFailure,
    action: ActionView,
)
    requires
        called_for(config, Phase::CallingProvider, EventView::ProviderReplied(Err(failure)), action),
    ensures
        next_phase(Phase::CallingProvider, EventView::ProviderReplied(Err(failure)))
            == Phase::Failed,
        action == ActionView::Finish(Err(InternalFailure {  })),
{
    assert(action->Finish_0->Err_0 == InternalFailure {  });
}

/// Answers do not mix: of any number of requests answered side by side, each
/// envelope holds the text of its own provider call.
pub proof fn lemma_answers_do_not_mix(
    contents: Seq<Seq<char>>,
    responses: Seq<ContentResponseView>,
)
    requires
        responses.len() == contents.len(),
        forall|i: int| 0 <= i < contents.len() ==> completes(#[trigger] responses[i], contents[i]),
    ensures
        forall|i: int| 0 <= i < contents.len() ==> (#[trigger] responses[i]).content == contents[i],
        forall|i: int, j: int|
            0 <= i < contents.len() && 0 <= j < contents.len() && contents[i] != contents[j]
                ==> #[trigger] responses[i] != #[trigger] responses[j],
{
}

/// A request whose lifecycle has ended stays where it is, whatever happens
/// next, and asks for no provider call.
pub proof fn lemma_terminal_phase_is_final(phase: Phase, events: Seq<EventView>)
    requires
        phase.terminal(),
    ensures
        run(phase, events) == phase,
        provider_calls(phase, events) == 0,
    decreases events.len(),
{
    if events.len() > 0 {
        lemma_terminal_phase_is_final(phase, events.drop_first());
    }
}

/// Along any sequence of events the provider is called at most once, and not
/// at all once the request has left `Received`.
pub proof fn lemma_at_most_one_provider_call(phase: Phase, events: Seq<EventView>)
    ensures
        provider_calls(phase, events) <= 1,
        phase != Phase::Received ==> provider_calls(phase, events) == 0,
    decreases events.len(),
{
    if events.len() > 0 {
        lemma_at_most_one_provider_call(next_phase(phase, events[0]), events.drop_first());
    }
}

/// A request that has reached the end of its lifecycle was answered from
/// exactly one provider call.
pub proof fn lemma_ended_request_called_once(events: Seq<EventView>)
    requires
        run(Phase::Received, events).terminal(),
    ensures
        provider_calls(Phase::Received, events) == 1,
    decreases events.len(),
{
    if events.len() > 0 {
        let rest = events.drop_first();
        if events[0] is Dispatch {
            lemma_at_most_one_provider_call(Phase::CallingProvider, rest);
        } else {
            lemma_ended_request_called_once(rest);
        }
    }
}

} // verus!
