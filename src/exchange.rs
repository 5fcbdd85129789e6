use vstd::prelude::*;

use crate::context::ConversationContext;
use crate::failure::{has_html_marker, plan_failure, FailurePlan};
use crate::session::context_view;

verus! {

/// Where one exchange with the generation service stands.
#[derive(PartialEq, Eq, Structural, Clone, Copy, Debug)]
pub enum ExchangePhase {
    Requesting,
    Streaming,
    Completed,
    Failed,
}

/// One event of a response stream.
pub enum StreamEvent {
    /// A piece of response text; the last one carries the new context.
    Chunk { text: String, context: Option<ConversationContext> },
    /// An event that could not be decoded; it is passed over.
    Malformed,
}

/// The texts handed out for writing, once `event` has been taken.
pub open spec fn written_after(written: Seq<Seq<char>>, event: StreamEvent) -> Seq<Seq<char>> {
    match event {
        StreamEvent::Chunk { text, .. } => written.push(text@),
        StreamEvent::Malformed => written,
    }
}

/// The texts handed out for writing after taking `events` one by one.
pub open spec fn written_after_all(written: Seq<Seq<char>>, events: Seq<StreamEvent>) -> Seq<
    Seq<char>,
>
    decreases events.len(),
{
    if events.len() == 0 {
        written
    } else {
        written_after_all(written_after(written, events[0]), events.drop_first())
    }
}

/// The texts of the chunks among `events`, in order.
pub open spec fn chunk_texts(events: Seq<StreamEvent>) -> Seq<Seq<char>>
    decreases events.len(),
{
    if events.len() == 0 {
        Seq::empty()
    } else {
        match events[0] {
            StreamEvent::Chunk { text, .. } => seq![text@] + chunk_texts(events.drop_first()),
            StreamEvent::Malformed => chunk_texts(events.drop_first()),
        }
    }
}

proof fn lemma_written_after_all(written: Seq<Seq<char>>, events: Seq<StreamEvent>)
    ensures
        written_after_all(written, events) == written + chunk_texts(events),
    decreases events.len(),
{
    if events.len() == 0 {
        assert(written + Seq::<Seq<char>>::empty() =~= written);
    } else {
        let next = written_after(written, events[0]);
        lemma_written_after_all(next, events.drop_first());
        match events[0] {
            StreamEvent::Chunk { text, .. } => {
                assert(written.push(text@) + chunk_texts(events.drop_first()) =~= written + (
                seq![text@] + chunk_texts(events.drop_first())));
            },
            StreamEvent::Malformed => {},
        }
    }
}

/// Within one exchange the chunks are handed out for writing in the order in
/// which they arrived, each one whole, none left out, and malformed events
/// contribute nothing.
pub proof fn lemma_chunks_written_in_arrival_order(events: Seq<StreamEvent>)
    ensures
        written_after_all(Seq::empty(), events) == chunk_texts(events),
{
    lemma_written_after_all(Seq::empty(), events);
    assert(Seq::<Seq<char>>::empty() + chunk_texts(events) =~= chunk_texts(events));
}

/// One request/response exchange, from the request to its end.
pub struct Exchange {
    phase: ExchangePhase,
    final_context: Option<ConversationContext>,
    /// The text of each chunk handed out for writing, in arrival order.
    written: Ghost<Seq<Seq<char>>>,
}

impl Exchange {
    pub closed spec fn phase_spec(&self) -> ExchangePhase {
        self.phase
    }

    /// The text of each chunk handed out for writing so far, in order.
    pub closed spec fn written(&self) -> Seq<Seq<char>> {
        self.written@
    }

    /// The context carried by the last chunk that had one.
    pub closed spec fn final_context_spec(&self) -> Option<Seq<i32>> {
        context_view(self.final_context)
    }

    /// An exchange whose request is about to be sent.
    pub fn new() -> (r: Exchange)
        ensures
            r.phase_spec() == ExchangePhase::Requesting,
            r.written() == Seq::<Seq<char>>::empty(),
            r.final_context_spec() is None,
    {
        Exchange { phase: ExchangePhase::Requesting, final_context: None, written: Ghost(Seq::empty()) }
    }

    pub fn phase(&self) -> (r: ExchangePhase)
        ensures
            r == self.phase_spec(),
    {
        self.phase
    }

    /// The service took the request: its response starts to stream.
    pub fn accepted(&mut self)
        requires
            old(self).phase_spec() == ExchangePhase::Requesting,
        ensures
            final(self).phase_spec() == ExchangePhase::Streaming,
            final(self).written() == old(self).written(),
            final(self).final_context_spec() == old(self).final_context_spec(),
    {
        self.phase = ExchangePhase::Streaming;
    }

    /// The service refused the request, or its stream broke off: the
    /// exchange fails, and the error is planned for presentation.
    pub fn fail(&mut self, error: String) -> (r: FailurePlan)
        requires
            old(self).phase_spec() == ExchangePhase::Requesting || old(self).phase_spec()
                == ExchangePhase::Streaming,
        ensures
            final(self).phase_spec() == ExchangePhase::Failed,
            final(self).written() == old(self).written(),
            r is WriteDiagnostic <==> has_html_marker(vstd::utf8::encode_utf8(error@)),
            r matches FailurePlan::WriteDiagnostic { contents } ==> contents@ == error@,
            r matches FailurePlan::Report { message } ==> message@ == error@,
    {
        self.phase = ExchangePhase::Failed;
        plan_failure(error)
    }

    /// Takes one stream event. A chunk's text is handed back at once, to be
    /// written and flushed before the next event is taken; a malformed event
    /// is passed over and changes nothing.
    pub fn on_event(&mut self, event: StreamEvent) -> (r: Option<String>)
        requires
            old(self).phase_spec() == ExchangePhase::Streaming,
        ensures
            final(self).phase_spec() == ExchangePhase::Streaming,
            final(self).written() == written_after(old(self).written(), event),
            match event {
                StreamEvent::Chunk { text, context } => {
                    &&& r matches Some(t) && t@ == text@
                    &&& final(self).final_context_spec() == (match context {
                        Some(c) => Some(c@),
                        None => old(self).final_context_spec(),
                    })
                },
                StreamEvent::Malformed => {
                    &&& r is None
                    &&& final(self).final_context_spec() == old(self).final_context_spec()
                },
            },
    {
        match event {
            StreamEvent::Chunk { text, context } => {
                proof {
                    self.written@ = self.written@.push(text@);
                }
                if let Some(c) = context {
                    self.final_context = Some(c);
                }
                Some(text)
            },
            StreamEvent::Malformed => None,
        }
    }

    /// The stream ended: the exchange completes, handing out the new context
    /// to persist and adopt, if the stream carried one.
    pub fn finish(&mut self) -> (r: Option<ConversationContext>)
        requires
            old(self).phase_spec() == ExchangePhase::Streaming,
        ensures
            final(self).phase_spec() == ExchangePhase::Completed,
            final(self).written() == old(self).written(),
            context_view(r) == old(self).final_context_spec(),
            final(self).final_context_spec() is None,
    {
        self.phase = ExchangePhase::Completed;
        let c = self.final_context.take();
        c
    }
}

} // verus!
