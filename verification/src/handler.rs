//! The request handler as a state machine: from the current phase and an
//! outside event to the next phase and the action the server must perform.

use vstd::prelude::*;
use crate::config::{measure_url_spec, Config};
use crate::response::{body_text, decode_body, error_text, temperature_error};

verus! {

/// Where the handling of one request stands.
#[derive(Clone, Copy, PartialEq, Eq, Structural, Debug)]
pub enum Phase {
    /// The request has not been looked at yet.
    Ready,
    /// The processing delay is running.
    Delaying,
    /// The downstream fetch is underway.
    Fetching,
    /// The response has been chosen.
    Done,
}

/// What the server must do next for this request.
pub enum Action {
    /// Run the processing delay.
    Delay,
    /// Issue one GET to this URL and hand back the body.
    Fetch(String),
    /// Answer the request with this text.
    Respond(String),
}

/// What happened outside since the last step.
pub enum Event {
    /// The request arrived.
    Arrived,
    /// The processing delay finished, with the processing signal.
    DelayDone(bool),
    /// The downstream fetch finished: the full body, or nothing when the
    /// fetch failed.
    FetchDone(Option<Vec<u8>>),
}

/// Mathematical image of an `Action`.
pub ghost enum ActionView {
    Delay,
    Fetch { url: Seq<char> },
    Respond { text: Seq<char> },
}

/// Mathematical image of an `Event`.
pub ghost enum EventView {
    Arrived,
    DelayDone { processing_ok: bool },
    FetchDone { body: Option<Seq<u8>> },
}

impl View for Action {
    type V = ActionView;

    open spec fn view(&self) -> ActionView {
        match self {
            Action::Delay => ActionView::Delay,
            Action::Fetch(u) => ActionView::Fetch { url: u@ },
            Action::Respond(t) => ActionView::Respond { text: t@ },
        }
    }
}

impl View for Event {
    type V = EventView;

    open spec fn view(&self) -> EventView {
        match self {
            Event::Arrived => EventView::Arrived,
            Event::DelayDone(ok) => EventView::DelayDone { processing_ok: *ok },
            Event::FetchDone(body) => EventView::FetchDone {
                body: match body {
                    Some(b) => Some(b@),
                    None => None,
                },
            },
        }
    }
}

/// Which events can arrive in which phase.
pub open spec fn event_fits(phase: Phase, ev: EventView) -> bool {
    match (phase, ev) {
        (Phase::Ready, EventView::Arrived) => true,
        (Phase::Delaying, EventView::DelayDone { .. }) => true,
        (Phase::Fetching, EventView::FetchDone { .. }) => true,
        _ => false,
    }
}

/// The whole decision of the handler: from the configured address, the
/// current phase and an event to the next phase and the action taken.
///
/// An arriving request starts the delay. When the delay ends, a successful
/// processing signal starts the fetch — to the configured address with the
/// fixed path appended — while a failed signal, or a missing address,
/// answers with the error text. A fetched body is answered verbatim when it
/// decodes as UTF-8; a body that does not decode, or a failed fetch,
/// is answered with the error text.
pub open spec fn step_spec(config: Option<Seq<char>>, phase: Phase, ev: EventView) -> (Phase,
    ActionView) {
    match (phase, ev) {
        (Phase::Ready, EventView::Arrived) => (Phase::Delaying, ActionView::Delay),
        (Phase::Delaying, EventView::DelayDone { processing_ok }) => {
            if processing_ok {
                match config {
                    Some(addr) => (
                        Phase::Fetching,
                        ActionView::Fetch { url: measure_url_spec(addr) },
                    ),
                    None => (Phase::Done, ActionView::Respond { text: error_text() }),
                }
            } else {
                (Phase::Done, ActionView::Respond { text: error_text() })
            }
        },
        (Phase::Fetching, EventView::FetchDone { body }) => (
            Phase::Done,
            ActionView::Respond {
                text: match body {
                    Some(b) => body_text(b),
                    None => error_text(),
                },
            },
        ),
        _ => (phase, arbitrary()),
    }
}

/// The image of an optional configuration.
pub open spec fn config_view(config: Option<Config>) -> Option<Seq<char>> {
    match config {
        Some(c) => Some(c.addr_spec()),
        None => None,
    }
}

/// The handler of one request. It is created fresh per request and holds
/// nothing but the configuration and the phase the request is in.
pub struct Handler {
    config: Option<Config>,
    phase: Phase,
}

impl Handler {
    /// The configured downstream address, absent when the environment gave
    /// none.
    pub closed spec fn config_spec(&self) -> Option<Seq<char>> {
        config_view(self.config)
    }

    /// The phase this request is in.
    pub closed spec fn phase_spec(&self) -> Phase {
        self.phase
    }

    /// A fresh handler for one request; `config` is absent when the
    /// environment supplied no downstream address.
    pub fn new(config: Option<Config>) -> (h: Handler)
        ensures
            h.phase_spec() == Phase::Ready,
            h.config_spec() == config_view(config),
    {
        Handler { config, phase: Phase::Ready }
    }

    pub fn phase(&self) -> (p: Phase)
        ensures
            p == self.phase_spec(),
    {
        self.phase
    }

    /// One decision step, exactly `step_spec` on the handler's
    /// configuration: the handler moves to the next phase and returns the
    /// action the server must perform.
    pub fn step(&mut self, ev: Event) -> (a: Action)
        requires
            event_fits(old(self).phase_spec(), ev@),
        ensures
            final(self).config_spec() == old(self).config_spec(),
            final(self).phase_spec() == step_spec(
                old(self).config_spec(),
                old(self).phase_spec(),
                ev@,
            ).0,
            a@ == step_spec(old(self).config_spec(), old(self).phase_spec(), ev@).1,
    {
        match ev {
            Event::Arrived => {
                self.phase = Phase::Delaying;
                Action::Delay
            },
            Event::DelayDone(processing_ok) => {
                if processing_ok {
                    match &self.config {
                        Some(c) => {
                            self.phase = Phase::Fetching;
                            Action::Fetch(c.measure_url())
                        },
                        None => {
                            self.phase = Phase::Done;
                            Action::Respond(temperature_error())
                        },
                    }
                } else {
                    self.phase = Phase::Done;
                    Action::Respond(temperature_error())
                }
            },
            Event::FetchDone(body) => {
                self.phase = Phase::Done;
                match body {
                    Some(bytes) => Action::Respond(decode_body(bytes)),
                    None => Action::Respond(temperature_error()),
                }
            },
        }
    }
}

/// The phase a run stands in after the first `i` of its events, starting
/// from `Phase::Ready`.
pub open spec fn phase_at(config: Option<Seq<char>>, evs: Seq<EventView>, i: int) -> Phase
    decreases i,
{
    if i <= 0 {
        Phase::Ready
    } else {
        step_spec(config, phase_at(config, evs, i - 1), evs[i - 1]).0
    }
}

/// The action a run takes on its `i`-th event.
pub open spec fn action_at(config: Option<Seq<char>>, evs: Seq<EventView>, i: int) -> ActionView {
    step_spec(config, phase_at(config, evs, i), evs[i]).1
}

/// A run of one request: it starts in `Phase::Ready` and every event fits
/// the phase it arrives in.
pub open spec fn valid_run(config: Option<Seq<char>>, evs: Seq<EventView>) -> bool {
    forall|i: int| 0 <= i < evs.len() ==> event_fits(phase_at(config, evs, i), #[trigger] evs[i])
}

/// The delay always precedes the downstream fetch: in any run of one
/// request, a fetch is issued only as the immediate successor of the delay.
pub proof fn lemma_delay_precedes_fetch(config: Option<Seq<char>>, evs: Seq<EventView>, i: int)
    requires
        valid_run(config, evs),
        0 <= i < evs.len(),
        action_at(config, evs, i) is Fetch,
    ensures
        1 <= i,
        action_at(config, evs, i - 1) == ActionView::Delay,
{
    assert(event_fits(phase_at(config, evs, i), evs[i]));
    assert(phase_at(config, evs, i) is Delaying);
    assert(event_fits(phase_at(config, evs, i - 1), evs[i - 1]));
}

/// Identical requests are treated identically: the actions of a run are a
/// function of the configuration and the events alone, so two runs fed the
/// same configuration and the same events take the same actions — no state
/// survives from any other request.
pub proof fn lemma_identical_runs_act_identically(
    config: Option<Seq<char>>,
    evs1: Seq<EventView>,
    evs2: Seq<EventView>,
    i: int,
)
    requires
        evs1 == evs2,
        0 <= i < evs1.len(),
    ensures
        action_at(config, evs1, i) == action_at(config, evs2, i),
{
}

/// A request whose downstream body decodes as UTF-8 is answered with that
/// body, verbatim.
pub proof fn lemma_valid_body_answered_verbatim(config: Option<Seq<char>>, body: Seq<u8>)
    requires
        vstd::utf8::valid_utf8(body),
    ensures
        step_spec(config, Phase::Fetching, EventView::FetchDone { body: Some(body) }).1
            == (ActionView::Respond { text: vstd::utf8::decode_utf8(body) }),
{
}

/// A request handled without a configured downstream address is answered
/// with the error text, whatever the processing signal.
pub proof fn lemma_missing_config_answered_with_error(processing_ok: bool)
    ensures
        step_spec(None, Phase::Delaying, EventView::DelayDone { processing_ok }).1
            == (ActionView::Respond { text: error_text() }),
{
}

/// A request whose downstream fetch fails — the service unreachable, or the
/// body never received — is answered with the error text.
pub proof fn lemma_failed_fetch_answered_with_error(config: Option<Seq<char>>)
    ensures
        step_spec(config, Phase::Fetching, EventView::FetchDone { body: None }).1
            == (ActionView::Respond { text: error_text() }),
{
}

/// A request whose downstream body is not valid UTF-8 is answered with the
/// error text.
pub proof fn lemma_invalid_body_answered_with_error(config: Option<Seq<char>>, body: Seq<u8>)
    requires
        !vstd::utf8::valid_utf8(body),
    ensures
        step_spec(config, Phase::Fetching, EventView::FetchDone { body: Some(body) }).1
            == (ActionView::Respond { text: error_text() }),
{
}

/// Every request is answered, and answered once: a step emits a response
/// exactly when it finishes the request, and a finished request accepts no
/// further events.
pub proof fn lemma_answered_exactly_on_finish(config: Option<Seq<char>>, phase: Phase, ev: EventView)
    requires
        event_fits(phase, ev),
    ensures
        step_spec(config, phase, ev).0 is Done <==> step_spec(config, phase, ev).1 is Respond,
        forall|later: EventView| !event_fits(Phase::Done, later),
{
}

} // verus!
