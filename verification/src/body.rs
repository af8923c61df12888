//! One streaming body over the bodies of both handlers.
//!
//! Each handler answers with a body of its own kind: the text protocol with
//! plain byte chunks, the RPC protocol with messages and a closing status.
//! `ResponseBody` holds exactly one of the two and offers the three
//! operations of a streaming body on it: whether the stream has ended, the
//! next chunk, and the trailers.
use vstd::prelude::*;
use std::collections::VecDeque;
use crate::dispatch::RoutingDecision;

verus! {

/// Why a body of the text protocol broke off.
#[derive(Clone, Debug, PartialEq, Eq)]
pub struct LegacyError {
    pub message: String,
}

/// What a body of the text protocol yields when polled.
#[derive(Clone, Debug, PartialEq, Eq)]
pub enum LegacyFrame {
    Data(Vec<u8>),
    Failed(LegacyError),
}

/// The status that closes, or breaks off, a body of the RPC protocol.
#[derive(Clone, Debug, PartialEq, Eq)]
pub struct Status {
    pub code: u32,
    pub message: String,
}

/// What a body of the RPC protocol yields when polled.
#[derive(Clone, Debug, PartialEq, Eq)]
pub enum StructuredFrame {
    Message(Vec<u8>),
    Failed(Status),
}

/// A chunk of body bytes, whichever handler produced it.
#[derive(Clone, Debug, PartialEq, Eq)]
pub struct Chunk {
    pub bytes: Vec<u8>,
}

/// A failure while streaming a body, whichever handler produced it. `code`
/// is the status code of the RPC protocol; the text protocol has none.
#[derive(Clone, Debug, PartialEq, Eq)]
pub struct BodyError {
    pub origin: RoutingDecision,
    pub code: Option<u32>,
    pub message: String,
}

/// A failure of the text protocol as a value: its message.
pub type LegacyFailure = Seq<char>;

/// A status of the RPC protocol as a value: its code and message.
pub type StatusModel = (u32, Seq<char>);

/// A shared failure as a value.
pub struct Failure {
    pub origin: RoutingDecision,
    pub code: Option<u32>,
    pub message: Seq<char>,
}

/// What one poll of the shared body yields, as a value.
pub type Event = Result<Seq<u8>, Failure>;

impl LegacyFrame {
    pub open spec fn model(self) -> Result<Seq<u8>, LegacyFailure> {
        match self {
            LegacyFrame::Data(bytes) => Ok(bytes@),
            LegacyFrame::Failed(error) => Err(error.message@),
        }
    }
}

impl Status {
    pub open spec fn model(self) -> StatusModel {
        (self.code, self.message@)
    }
}

impl StructuredFrame {
    pub open spec fn model(self) -> Result<Seq<u8>, StatusModel> {
        match self {
            StructuredFrame::Message(bytes) => Ok(bytes@),
            StructuredFrame::Failed(status) => Err(status.model()),
        }
    }
}

impl BodyError {
    pub open spec fn model(self) -> Failure {
        Failure { origin: self.origin, code: self.code, message: self.message@ }
    }
}

/// The shared failure that stands for a failure of the text protocol.
pub open spec fn legacy_failure(message: LegacyFailure) -> Failure {
    Failure { origin: RoutingDecision::Legacy, code: None, message }
}

/// The shared failure that stands for a status of the RPC protocol.
pub open spec fn structured_failure(status: StatusModel) -> Failure {
    Failure { origin: RoutingDecision::Structured, code: Some(status.0), message: status.1 }
}

/// The shared event that stands for an event of the text protocol.
pub open spec fn lift_legacy(event: Result<Seq<u8>, LegacyFailure>) -> Event {
    match event {
        Ok(bytes) => Ok(bytes),
        Err(message) => Err(legacy_failure(message)),
    }
}

/// The shared event that stands for an event of the RPC protocol.
pub open spec fn lift_structured(event: Result<Seq<u8>, StatusModel>) -> Event {
    match event {
        Ok(bytes) => Ok(bytes),
        Err(status) => Err(structured_failure(status)),
    }
}

/// The event that the next poll yields, if any is left.
pub open spec fn next_of<E>(pending: Seq<E>) -> Option<E> {
    if pending.len() == 0 {
        None
    } else {
        Some(pending[0])
    }
}

/// The events that are left once the next one has been taken.
pub open spec fn after_poll<E>(pending: Seq<E>) -> Seq<E> {
    if pending.len() == 0 {
        pending
    } else {
        pending.drop_first()
    }
}

/// What a poll handed out, as a value.
pub open spec fn polled_model(polled: Option<Result<Chunk, BodyError>>) -> Option<Event> {
    match polled {
        None => None,
        Some(Ok(chunk)) => Some(Ok(chunk.bytes@)),
        Some(Err(error)) => Some(Err(error.model())),
    }
}

/// What a run of polls handed out, as values.
pub open spec fn events_of(polled: Seq<Result<Chunk, BodyError>>) -> Seq<Event> {
    polled.map_values(
        |item: Result<Chunk, BodyError>|
            match item {
                Ok(chunk) => Ok(chunk.bytes@),
                Err(error) => Err(error.model()),
            },
    )
}

/// Translates a failure of the text protocol. Every such failure has a
/// translation, and the message is kept whole.
pub fn translate_legacy_error(error: LegacyError) -> (shared: BodyError)
    ensures
        shared.model() == legacy_failure(error.message@),
{
    BodyError { origin: RoutingDecision::Legacy, code: None, message: error.message }
}

/// Translates a status of the RPC protocol. Every status has a translation,
/// and code and message are kept whole.
pub fn translate_structured_error(status: Status) -> (shared: BodyError)
    ensures
        shared.model() == structured_failure(status.model()),
{
    BodyError {
        origin: RoutingDecision::Structured,
        code: Some(status.code),
        message: status.message,
    }
}

/// The body of a reply of the text protocol: the frames still to be sent.
pub struct LegacyBody {
    frames: VecDeque<LegacyFrame>,
}

impl LegacyBody {
    /// The events still to come, next first.
    pub closed spec fn pending(&self) -> Seq<Result<Seq<u8>, LegacyFailure>> {
        self.frames@.map_values(|frame: LegacyFrame| frame.model())
    }

    /// A body that sends `bytes` as one chunk, or nothing if there are none.
    pub fn full(bytes: Vec<u8>) -> (body: LegacyBody)
        ensures
            body.pending() == if bytes@.len() == 0 {
                Seq::<Result<Seq<u8>, LegacyFailure>>::empty()
            } else {
                seq![Ok::<Seq<u8>, LegacyFailure>(bytes@)]
            },
    {
        let mut frames: VecDeque<LegacyFrame> = VecDeque::new();
        if bytes.len() > 0 {
            frames.push_back(LegacyFrame::Data(bytes));
        }
        let body = LegacyBody { frames };
        assert(body.pending() =~= if bytes@.len() == 0 {
            Seq::<Result<Seq<u8>, LegacyFailure>>::empty()
        } else {
            seq![Ok::<Seq<u8>, LegacyFailure>(bytes@)]
        });
        body
    }

    /// Adds a frame behind those that are still to be sent.
    pub fn push_frame(&mut self, frame: LegacyFrame)
        ensures
            final(self).pending() == old(self).pending().push(frame.model()),
    {
        self.frames.push_back(frame);
        assert(final(self).pending() =~= old(self).pending().push(frame.model()));
    }

    /// Whether nothing is left to send.
    pub fn is_end_stream(&self) -> (ended: bool)
        ensures
            ended == (self.pending().len() == 0),
    {
        self.frames.len() == 0
    }

    /// Takes the next frame off the body, if there is one.
    pub fn poll_data(&mut self) -> (polled: Option<LegacyFrame>)
        ensures
            match polled {
                Some(frame) => next_of(old(self).pending()) == Some(frame.model()),
                None => next_of(old(self).pending()).is_none(),
            },
            final(self).pending() == after_poll(old(self).pending()),
    {
        let polled = self.frames.pop_front();
        proof {
            if old(self).pending().len() > 0 {
                assert(final(self).pending() =~= old(self).pending().drop_first());
            }
        }
        polled
    }
}

/// The body of a reply of the RPC protocol: the frames still to be sent, and
/// the status that closes the stream once they are out.
pub struct StructuredBody {
    frames: VecDeque<StructuredFrame>,
    trailers: Option<Status>,
}

impl StructuredBody {
    /// The events still to come, next first.
    pub closed spec fn pending(&self) -> Seq<Result<Seq<u8>, StatusModel>> {
        self.frames@.map_values(|frame: StructuredFrame| frame.model())
    }

    /// The closing status, while it has not been handed out.
    pub closed spec fn trailers(&self) -> Option<StatusModel> {
        match self.trailers {
            Some(status) => Some(status.model()),
            None => None,
        }
    }

    /// The body of a unary reply: one message, closed by `status`.
    pub fn unary(message: Vec<u8>, status: Status) -> (body: StructuredBody)
        ensures
            body.pending() == seq![Ok::<Seq<u8>, StatusModel>(message@)],
            body.trailers() == Some(status.model()),
    {
        let mut frames: VecDeque<StructuredFrame> = VecDeque::new();
        frames.push_back(StructuredFrame::Message(message));
        let body = StructuredBody { frames, trailers: Some(status) };
        assert(body.pending() =~= seq![Ok::<Seq<u8>, StatusModel>(message@)]);
        body
    }

    /// The body of a reply that carries no message, only `status`.
    pub fn status_only(status: Status) -> (body: StructuredBody)
        ensures
            body.pending() == Seq::<Result<Seq<u8>, StatusModel>>::empty(),
            body.trailers() == Some(status.model()),
    {
        let body = StructuredBody { frames: VecDeque::new(), trailers: Some(status) };
        assert(body.pending() =~= Seq::<Result<Seq<u8>, StatusModel>>::empty());
        body
    }

    /// Adds a frame behind those that are still to be sent.
    pub fn push_frame(&mut self, frame: StructuredFrame)
        ensures
            final(self).pending() == old(self).pending().push(frame.model()),
            final(self).trailers() == old(self).trailers(),
    {
        self.frames.push_back(frame);
        assert(final(self).pending() =~= old(self).pending().push(frame.model()));
    }

    /// Whether neither a frame nor the closing status is left to send.
    pub fn is_end_stream(&self) -> (ended: bool)
        ensures
            ended == (self.pending().len() == 0 && self.trailers().is_none()),
    {
        self.frames.len() == 0 && self.trailers.is_none()
    }

    /// Takes the next frame off the body, if there is one.
    pub fn poll_data(&mut self) -> (polled: Option<StructuredFrame>)
        ensures
            match polled {
                Some(frame) => next_of(old(self).pending()) == Some(frame.model()),
                None => next_of(old(self).pending()).is_none(),
            },
            final(self).pending() == after_poll(old(self).pending()),
            final(self).trailers() == old(self).trailers(),
    {
        let polled = self.frames.pop_front();
        proof {
            if old(self).pending().len() > 0 {
                assert(final(self).pending() =~= old(self).pending().drop_first());
            }
        }
        polled
    }

    /// Hands out the closing status, once, after the last frame. While frames
    /// are left it yields nothing and keeps the status.
    pub fn poll_trailers(&mut self) -> (closing: Option<Status>)
        ensures
            final(self).pending() == old(self).pending(),
            match closing {
                Some(status) => Some(status.model()) == trailers_due(
                    old(self).pending(),
                    old(self).trailers(),
                ),
                None => trailers_due(old(self).pending(), old(self).trailers()).is_none(),
            },
            final(self).trailers() == trailers_kept(old(self).pending(), old(self).trailers()),
    {
        if self.frames.len() == 0 {
            self.trailers.take()
        } else {
            None
        }
    }
}

/// The closing status that a poll for trailers yields: the one that is
/// held, but only once no frame is left.
pub open spec fn trailers_due<E>(pending: Seq<E>, held: Option<StatusModel>) -> Option<
    StatusModel,
> {
    if pending.len() == 0 {
        held
    } else {
        None
    }
}

/// The closing status that is still held after a poll for trailers.
pub open spec fn trailers_kept<E>(pending: Seq<E>, held: Option<StatusModel>) -> Option<
    StatusModel,
> {
    if pending.len() == 0 {
        None
    } else {
        held
    }
}

/// The body of any reply: that of the text protocol or that of the RPC
/// protocol, never both. Which of the two it is is settled when the body is
/// made and is kept by every operation.
pub enum ResponseBody {
    Legacy(LegacyBody),
    Structured(StructuredBody),
}

impl ResponseBody {
    /// The handler whose body this is.
    pub open spec fn origin(&self) -> RoutingDecision {
        match self {
            ResponseBody::Legacy(_) => RoutingDecision::Legacy,
            ResponseBody::Structured(_) => RoutingDecision::Structured,
        }
    }

    /// The events still to come, next first: those of the body within, each
    /// in its shared form.
    pub open spec fn pending(&self) -> Seq<Event> {
        match self {
            ResponseBody::Legacy(body) => body.pending().map_values(
                |event: Result<Seq<u8>, LegacyFailure>| lift_legacy(event),
            ),
            ResponseBody::Structured(body) => body.pending().map_values(
                |event: Result<Seq<u8>, StatusModel>| lift_structured(event),
            ),
        }
    }

    /// The closing status that is still to be handed out. A body of the text
    /// protocol has none.
    pub open spec fn trailers(&self) -> Option<StatusModel> {
        match self {
            ResponseBody::Legacy(_) => None,
            ResponseBody::Structured(body) => body.trailers(),
        }
    }

    /// Whether nothing is left to send.
    pub open spec fn ended(&self) -> bool {
        self.pending().len() == 0 && self.trailers().is_none()
    }

    /// Wraps the body of a reply of the text protocol.
    pub fn from_legacy(body: LegacyBody) -> (wrapped: ResponseBody)
        ensures
            wrapped == ResponseBody::Legacy(body),
    {
        ResponseBody::Legacy(body)
    }

    /// Wraps the body of a reply of the RPC protocol.
    pub fn from_structured(body: StructuredBody) -> (wrapped: ResponseBody)
        ensures
            wrapped == ResponseBody::Structured(body),
    {
        ResponseBody::Structured(body)
    }

    /// The handler whose body this is.
    pub fn produced_by(&self) -> (origin: RoutingDecision)
        ensures
            origin == self.origin(),
    {
        match self {
            ResponseBody::Legacy(_) => RoutingDecision::Legacy,
            ResponseBody::Structured(_) => RoutingDecision::Structured,
        }
    }

    /// Whether nothing is left to send: the answer of the body within.
    pub fn is_end_stream(&self) -> (ended: bool)
        ensures
            ended == self.ended(),
    {
        match self {
            ResponseBody::Legacy(body) => body.is_end_stream(),
            ResponseBody::Structured(body) => body.is_end_stream(),
        }
    }

    /// Polls the body within for its next frame and hands it out in the
    /// shared form: data as a chunk with the same bytes, a failure as the
    /// shared error that stands for it.
    pub fn poll_data(&mut self) -> (polled: Option<Result<Chunk, BodyError>>)
        ensures
            polled_model(polled) == next_of(old(self).pending()),
            final(self).pending() == after_poll(old(self).pending()),
            final(self).trailers() == old(self).trailers(),
            final(self).origin() == old(self).origin(),
    {
        match self {
            ResponseBody::Legacy(body) => {
                let ghost before = body.pending();
                let polled = body.poll_data();
                proof {
                    assert(after_poll(before).map_values(
                        |event: Result<Seq<u8>, LegacyFailure>| lift_legacy(event),
                    ) =~= after_poll(
                        before.map_values(
                            |event: Result<Seq<u8>, LegacyFailure>| lift_legacy(event),
                        ),
                    ));
                }
                match polled {
                    Some(LegacyFrame::Data(bytes)) => Some(Ok(Chunk { bytes })),
                    Some(LegacyFrame::Failed(error)) => Some(Err(translate_legacy_error(error))),
                    None => None,
                }
            },
            ResponseBody::Structured(body) => {
                let ghost before = body.pending();
                let polled = body.poll_data();
                proof {
                    assert(after_poll(before).map_values(
                        |event: Result<Seq<u8>, StatusModel>| lift_structured(event),
                    ) =~= after_poll(
                        before.map_values(
                            |event: Result<Seq<u8>, StatusModel>| lift_structured(event),
                        ),
                    ));
                }
                match polled {
                    Some(StructuredFrame::Message(bytes)) => Some(Ok(Chunk { bytes })),
                    Some(StructuredFrame::Failed(status)) => Some(
                        Err(translate_structured_error(status)),
                    ),
                    None => None,
                }
            },
        }
    }

    /// Polls until no frame is left and hands out everything that came, in
    /// the order in which it came.
    pub fn drain(&mut self) -> (polled: Vec<Result<Chunk, BodyError>>)
        ensures
            events_of(polled@) == old(self).pending(),
            final(self).pending().len() == 0,
            final(self).trailers() == old(self).trailers(),
            final(self).origin() == old(self).origin(),
    {
        let mut polled: Vec<Result<Chunk, BodyError>> = Vec::new();
        let ghost all = self.pending();
        let ghost held = self.trailers();
        let ghost origin = self.origin();
        assert(events_of(polled@) + self.pending() =~= all);
        loop
            invariant
                events_of(polled@) + self.pending() == all,
                self.trailers() == held,
                self.origin() == origin,
            ensures
                self.pending().len() == 0,
            decreases self.pending().len(),
        {
            let ghost before = self.pending();
            let ghost sofar = polled@;
            match self.poll_data() {
                Some(item) => {
                    polled.push(item);
                    assert(events_of(polled@) =~= events_of(sofar).push(before[0]));
                    assert(events_of(polled@) + self.pending() =~= events_of(sofar) + before);
                },
                None => {
                    break ;
                },
            }
        }
        assert(events_of(polled@) =~= all);
        polled
    }

    /// Polls the body within for its trailers. A body of the text protocol
    /// has none; one of the RPC protocol hands out its closing status once,
    /// after the last frame.
    pub fn poll_trailers(&mut self) -> (closing: Option<Status>)
        ensures
            match closing {
                Some(status) => Some(status.model()) == trailers_due(
                    old(self).pending(),
                    old(self).trailers(),
                ),
                None => trailers_due(old(self).pending(), old(self).trailers()).is_none(),
            },
            final(self).pending() == old(self).pending(),
            final(self).trailers() == trailers_kept(old(self).pending(), old(self).trailers()),
            final(self).origin() == old(self).origin(),
    {
        match self {
            ResponseBody::Legacy(_) => None,
            ResponseBody::Structured(body) => body.poll_trailers(),
        }
    }
}

/// What the shared body yields is what the body within yields: as many
/// events, in the same order, each the shared form of its counterpart; and
/// the shared body has ended exactly when the body within has.
pub proof fn lemma_adapter_mirrors_backend(body: ResponseBody)
    ensures
        match body {
            ResponseBody::Legacy(inner) => {
                &&& body.pending().len() == inner.pending().len()
                &&& forall|i: int|
                    0 <= i < inner.pending().len() ==> #[trigger] body.pending()[i] == lift_legacy(
                        inner.pending()[i],
                    )
                &&& body.ended() == (inner.pending().len() == 0)
            },
            ResponseBody::Structured(inner) => {
                &&& body.pending().len() == inner.pending().len()
                &&& forall|i: int|
                    0 <= i < inner.pending().len() ==> #[trigger] body.pending()[i]
                        == lift_structured(inner.pending()[i])
                &&& body.ended() == (inner.pending().len() == 0 && inner.trailers().is_none())
            },
        },
{
}

/// The shared form loses nothing: data keeps its bytes, a failure stays a
/// failure, and two events with one shared form are one event. A failure of
/// one protocol is never taken for one of the other.
pub proof fn lemma_translation_is_lossless(
    first: Result<Seq<u8>, LegacyFailure>,
    second: Result<Seq<u8>, LegacyFailure>,
    third: Result<Seq<u8>, StatusModel>,
    fourth: Result<Seq<u8>, StatusModel>,
)
    ensures
        lift_legacy(first).is_ok() == first.is_ok(),
        lift_structured(third).is_ok() == third.is_ok(),
        first matches Ok(bytes) ==> lift_legacy(first) == Ok::<Seq<u8>, Failure>(bytes),
        third matches Ok(bytes) ==> lift_structured(third) == Ok::<Seq<u8>, Failure>(bytes),
        lift_legacy(first) == lift_legacy(second) ==> first == second,
        lift_structured(third) == lift_structured(fourth) ==> third == fourth,
        first.is_err() && third.is_err() ==> lift_legacy(first) != lift_structured(third),
{
}

} // verus!
