//! The token stream of one generation request: what the producer reports,
//! and what the forwarding loop on the consumer side does with each report.

use vstd::prelude::*;
use crossbeam_channel::{Receiver, Sender};

verus! {

/// `crossbeam_channel::Sender`, the sending end of a channel. Nothing is
/// claimed of what it holds.
#[verifier::external_type_specification]
#[verifier::external_body]
#[verifier::reject_recursive_types(T)]
pub struct ExSender<T>(crossbeam_channel::Sender<T>);

/// `crossbeam_channel::Receiver`, the receiving end of a channel. Nothing is
/// claimed of what it holds.
#[verifier::external_type_specification]
#[verifier::external_body]
#[verifier::reject_recursive_types(T)]
pub struct ExReceiver<T>(crossbeam_channel::Receiver<T>);

/// `crossbeam_channel::unbounded`: a new channel without a capacity limit.
/// Nothing is claimed of the two ends.
#[verifier::external_body]
fn unbounded_events() -> (ends: (Sender<StreamEvent>, Receiver<StreamEvent>)) {
    crossbeam_channel::unbounded()
}

/// `Sender::send`. On an unbounded channel it does not wait. Whether the
/// message was accepted depends on the receiving end still being there, so
/// nothing is claimed of the result.
#[verifier::external_body]
fn send_event(tx: &Sender<StreamEvent>, event: StreamEvent) -> (accepted: bool) {
    tx.send(event).is_ok()
}

/// `Receiver::recv`. It waits until a message arrives or every sending end
/// is gone, and gives `None` in the second case. What arrives depends on
/// the sending thread, so nothing is claimed of the result.
#[verifier::external_body]
fn receive_event(rx: &Receiver<StreamEvent>) -> (event: Option<StreamEvent>) {
    rx.recv().ok()
}

/// What the producing side reports, one report at a time.
pub enum StreamEvent {
    /// The engine produced one more text fragment.
    Token(String),
    /// The engine signalled the end of its output.
    EndOfSequence,
    /// The engine failed before reaching the end.
    Failure,
}

/// Where a stream stands.
#[derive(Clone, Copy, Debug, PartialEq, Eq, Structural)]
pub enum StreamStatus {
    Open,
    Finished,
    Failed,
}

/// What the forwarding loop does in answer to one report.
pub enum StreamAction {
    /// Hand this fragment to the consumer.
    Deliver(String),
    /// Close the stream: the output is complete.
    Finish,
    /// Close the stream: the output was cut short by a failure.
    Fail,
    /// The stream was closed before; nothing is done.
    Ignore,
}

/// A report, with its text as characters.
pub ghost enum Event {
    Token(Seq<char>),
    EndOfSequence,
    Failure,
}

/// An answer, with its text as characters.
pub ghost enum Action {
    Deliver(Seq<char>),
    Finish,
    Fail,
    Ignore,
}

/// A stream as a value: its status and the fragments delivered so far.
pub ghost struct StreamState {
    pub status: StreamStatus,
    pub tokens: Seq<Seq<char>>,
}

impl View for StreamEvent {
    type V = Event;

    open spec fn view(&self) -> Event {
        match self {
            StreamEvent::Token(text) => Event::Token(text@),
            StreamEvent::EndOfSequence => Event::EndOfSequence,
            StreamEvent::Failure => Event::Failure,
        }
    }
}

impl View for StreamAction {
    type V = Action;

    open spec fn view(&self) -> Action {
        match self {
            StreamAction::Deliver(text) => Action::Deliver(text@),
            StreamAction::Finish => Action::Finish,
            StreamAction::Fail => Action::Fail,
            StreamAction::Ignore => Action::Ignore,
        }
    }
}

/// A stream that is open and has delivered nothing.
pub open spec fn fresh() -> StreamState {
    StreamState { status: StreamStatus::Open, tokens: Seq::empty() }
}

/// The stream after one report. A closed stream stays as it is.
pub open spec fn step(s: StreamState, e: Event) -> StreamState {
    if s.status != StreamStatus::Open {
        s
    } else {
        match e {
            Event::Token(text) => StreamState { status: StreamStatus::Open, tokens: s.tokens.push(text) },
            Event::EndOfSequence => StreamState { status: StreamStatus::Finished, tokens: s.tokens },
            Event::Failure => StreamState { status: StreamStatus::Failed, tokens: s.tokens },
        }
    }
}

/// The answer to one report.
pub open spec fn answer(s: StreamState, e: Event) -> Action {
    if s.status != StreamStatus::Open {
        Action::Ignore
    } else {
        match e {
            Event::Token(text) => Action::Deliver(text),
            Event::EndOfSequence => Action::Finish,
            Event::Failure => Action::Fail,
        }
    }
}

/// The stream after a sequence of reports, taken in order.
pub open spec fn run(s: StreamState, events: Seq<Event>) -> StreamState
    decreases events.len(),
{
    if events.len() == 0 {
        s
    } else {
        step(run(s, events.drop_last()), events.last())
    }
}

/// The fragments that are delivered while `events` are taken in order.
pub open spec fn delivered(s: StreamState, events: Seq<Event>) -> Seq<Seq<char>>
    decreases events.len(),
{
    if events.len() == 0 {
        Seq::empty()
    } else {
        let before = delivered(s, events.drop_last());
        match answer(run(s, events.drop_last()), events.last()) {
            Action::Deliver(text) => before.push(text),
            _ => before,
        }
    }
}

/// How often the stream is closed while `events` are taken in order.
pub open spec fn closings(s: StreamState, events: Seq<Event>) -> nat
    decreases events.len(),
{
    if events.len() == 0 {
        0
    } else {
        let before = closings(s, events.drop_last());
        match answer(run(s, events.drop_last()), events.last()) {
            Action::Finish | Action::Fail => before + 1,
            _ => before,
        }
    }
}

/// The reports of an engine that produces `tokens` one after another.
pub open spec fn token_events(tokens: Seq<Seq<char>>) -> Seq<Event> {
    Seq::new(tokens.len(), |i: int| Event::Token(tokens[i]))
}

/// All the fragments of `tokens`, joined in order.
pub open spec fn joined(tokens: Seq<Seq<char>>) -> Seq<char>
    decreases tokens.len(),
{
    if tokens.len() == 0 {
        Seq::empty()
    } else {
        joined(tokens.drop_last()) + tokens.last()
    }
}

/// Order: taking reports in order appends exactly the delivered fragments,
/// in the order of their reports, to those the stream held before.
pub proof fn lemma_delivery_keeps_order(s: StreamState, events: Seq<Event>)
    ensures
        run(s, events).tokens == s.tokens + delivered(s, events),
    decreases events.len(),
{
    if events.len() == 0 {
        assert(s.tokens + Seq::<Seq<char>>::empty() =~= s.tokens);
    } else {
        lemma_delivery_keeps_order(s, events.drop_last());
        let before = delivered(s, events.drop_last());
        match answer(run(s, events.drop_last()), events.last()) {
            Action::Deliver(text) => {
                assert((s.tokens + before).push(text) =~= s.tokens + before.push(text));
            },
            _ => {},
        }
    }
}

/// Order: a fresh stream fed the fragments of an engine, one report each,
/// stays open and holds exactly those fragments in production order.
pub proof fn lemma_tokens_arrive_in_order(tokens: Seq<Seq<char>>)
    ensures
        run(fresh(), token_events(tokens)) == (StreamState {
            status: StreamStatus::Open,
            tokens: tokens,
        }),
        delivered(fresh(), token_events(tokens)) == tokens,
        closings(fresh(), token_events(tokens)) == 0,
    decreases tokens.len(),
{
    let events = token_events(tokens);
    if tokens.len() == 0 {
        assert(tokens =~= Seq::empty());
    } else {
        lemma_tokens_arrive_in_order(tokens.drop_last());
        assert(events.drop_last() =~= token_events(tokens.drop_last()));
        assert(events.last() == Event::Token(tokens.last()));
        assert(tokens.drop_last().push(tokens.last()) =~= tokens);
    }
}

/// A complete generation: after the fragments and one closing report the
/// stream is closed once, as finished or as failed according to that
/// report, and holds the fragments in production order.
pub proof fn lemma_generation_closes_once(tokens: Seq<Seq<char>>, completed: bool)
    ensures
        ({
            let last = if completed { Event::EndOfSequence } else { Event::Failure };
            let events = token_events(tokens).push(last);
            &&& run(fresh(), events).tokens == tokens
            &&& run(fresh(), events).status == if completed {
                StreamStatus::Finished
            } else {
                StreamStatus::Failed
            }
            &&& delivered(fresh(), events) == tokens
            &&& closings(fresh(), events) == 1
        }),
{
    let last = if completed { Event::EndOfSequence } else { Event::Failure };
    let events = token_events(tokens).push(last);
    lemma_tokens_arrive_in_order(tokens);
    assert(events.drop_last() =~= token_events(tokens));
    assert(events.last() == last);
}

/// A closed stream is final: whatever is reported afterwards, it keeps its
/// status and its fragments, delivers nothing and is not closed again.
pub proof fn lemma_closed_stream_is_final(s: StreamState, events: Seq<Event>)
    requires
        s.status != StreamStatus::Open,
    ensures
        run(s, events) == s,
        delivered(s, events) == Seq::<Seq<char>>::empty(),
        closings(s, events) == 0,
    decreases events.len(),
{
    if events.len() > 0 {
        lemma_closed_stream_is_final(s, events.drop_last());
    }
}

/// Termination happens exactly once: over any sequence of reports a stream
/// that starts open is closed at most one time, and it is closed one time
/// exactly when it ends up finished or failed.
pub proof fn lemma_closes_at_most_once(s: StreamState, events: Seq<Event>)
    requires
        s.status == StreamStatus::Open,
    ensures
        closings(s, events) <= 1,
        closings(s, events) == 1 <==> run(s, events).status != StreamStatus::Open,
    decreases events.len(),
{
    if events.len() > 0 {
        lemma_closes_at_most_once(s, events.drop_last());
    }
}

/// Why a stream gave no text.
#[derive(Clone, Copy, Debug, PartialEq, Eq, Structural)]
pub enum StreamError {
    /// The engine failed in the middle of its output.
    InferenceFailed,
}

/// The producing end of a token channel, held by the background task that
/// runs the engine.
pub struct TokenSink {
    tx: Sender<StreamEvent>,
}

/// The consuming end of a token channel, held by the forwarding loop.
pub struct TokenSource {
    rx: Receiver<StreamEvent>,
}

/// A new unbounded channel for the reports of one generation request.
pub fn token_channel() -> (ends: (TokenSink, TokenSource)) {
    let (tx, rx) = unbounded_events();
    (TokenSink { tx }, TokenSource { rx })
}

/// The closing report of a generation that ran to its end, or did not.
pub fn closing_event(completed: bool) -> (event: StreamEvent)
    ensures
        event@ == if completed {
            Event::EndOfSequence
        } else {
            Event::Failure
        },
{
    if completed {
        StreamEvent::EndOfSequence
    } else {
        StreamEvent::Failure
    }
}

impl TokenSink {
    /// Reports one fragment. The answer tells the engine whether to go on,
    /// and is always yes: a generation is never cancelled, not even when
    /// the consumer is gone.
    pub fn emit(&self, token: &str) -> (keep_going: bool)
        ensures
            keep_going,
    {
        let _ = send_event(&self.tx, StreamEvent::Token(token.to_owned()));
        true
    }

    /// Sends the closing report, so that the consumer never waits on a
    /// generation that has ended. Whatever is reported after it is ignored
    /// by the consumer.
    pub fn close(&self, completed: bool) {
        let _ = send_event(&self.tx, closing_event(completed));
    }
}

/// The consumer side of one generation request.
pub struct TokenStream {
    status: StreamStatus,
    tokens: Vec<String>,
}

impl View for TokenStream {
    type V = StreamState;

    closed spec fn view(&self) -> StreamState {
        StreamState { status: self.status, tokens: self.tokens@.map_values(|t: String| t@) }
    }
}

impl TokenStream {
    /// An open stream that has delivered nothing.
    pub fn new() -> (stream: Self)
        ensures
            stream@ == fresh(),
    {
        let stream = TokenStream { status: StreamStatus::Open, tokens: Vec::new() };
        assert(stream@.tokens =~= Seq::empty());
        stream
    }

    /// Where the stream stands.
    pub fn status(&self) -> (status: StreamStatus)
        ensures
            status == self@.status,
    {
        self.status
    }

    /// How many fragments were delivered.
    pub fn len(&self) -> (n: usize)
        ensures
            n == self@.tokens.len(),
    {
        self.tokens.len()
    }

    /// Takes one report and says what to do with it. Fragments are recorded
    /// in the order of their reports; the first closing report closes the
    /// stream, and every later report is ignored.
    pub fn push(&mut self, event: StreamEvent) -> (action: StreamAction)
        ensures
            final(self)@ == step(old(self)@, event@),
            action@ == answer(old(self)@, event@),
    {
        match self.status {
            StreamStatus::Open => {},
            _ => {
                return StreamAction::Ignore;
            },
        }
        match event {
            StreamEvent::Token(text) => {
                let copy = text.clone();
                self.tokens.push(copy);
                assert(self@.tokens =~= old(self)@.tokens.push(text@));
                StreamAction::Deliver(text)
            },
            StreamEvent::EndOfSequence => {
                self.status = StreamStatus::Finished;
                StreamAction::Finish
            },
            StreamEvent::Failure => {
                self.status = StreamStatus::Failed;
                StreamAction::Fail
            },
        }
    }

    /// Waits for the next report of the producing side and takes it as
    /// `push` does. When the producing side is gone without a closing
    /// report, that counts as a failure. A closed stream does not wait.
    pub fn pull(&mut self, source: &TokenSource) -> (action: StreamAction)
        ensures
            exists|e: Event|
                final(self)@ == step(old(self)@, e) && action@ == #[trigger] answer(old(self)@, e),
            old(self)@.status != StreamStatus::Open ==> final(self)@ == old(self)@ && action@
                == Action::Ignore,
    {
        match self.status {
            StreamStatus::Open => {},
            _ => {
                assert(answer(self@, Event::Failure) == Action::Ignore);
                return StreamAction::Ignore;
            },
        }
        let event = match receive_event(&source.rx) {
            Some(event) => event,
            None => StreamEvent::Failure,
        };
        let ghost e = event@;
        let action = self.push(event);
        assert(action@ == answer(old(self)@, e));
        action
    }

    /// How the generation ended: nothing while the stream is open, the
    /// whole text once it has finished, the error once it has failed.
    pub fn outcome(&self) -> (result: Option<Result<String, StreamError>>)
        ensures
            match self@.status {
                StreamStatus::Open => result is None,
                StreamStatus::Finished => result matches Some(Ok(text)) && text@ == joined(
                    self@.tokens,
                ),
                StreamStatus::Failed => result == Some(
                    Err::<String, StreamError>(StreamError::InferenceFailed),
                ),
            },
    {
        match self.status {
            StreamStatus::Open => None,
            StreamStatus::Finished => Some(Ok(self.text())),
            StreamStatus::Failed => Some(Err(StreamError::InferenceFailed)),
        }
    }

    /// The text delivered so far: all fragments joined in order.
    pub fn text(&self) -> (text: String)
        ensures
            text@ == joined(self@.tokens),
    {
        let mut text = String::new();
        let mut i: usize = 0;
        while i < self.tokens.len()
            invariant
                i <= self.tokens.len(),
                text@ == joined(self@.tokens.take(i as int)),
            decreases self.tokens.len() - i,
        {
            text.append(self.tokens[i].as_str());
            proof {
                let upto = self@.tokens.take(i + 1);
                assert(upto.drop_last() =~= self@.tokens.take(i as int));
                assert(upto.last() == self.tokens[i as int]@);
            }
            i += 1;
        }
        assert(self@.tokens.take(i as int) =~= self@.tokens);
        text
    }
}

} // verus!
