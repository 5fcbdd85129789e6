use vstd::prelude::*;
use vstd::string::StringExecFns;

use crate::context::{load_context, loaded_context, stored_view, ConversationContext, SessionError};

verus! {

/// The instruction sent in summary mode.
pub open spec fn summary_instruction() -> Seq<char> {
    "Briefly summarize this conversation"@
}

/// The advisory given when there is nothing to summarize.
pub open spec fn no_context_advisory() -> Seq<char> {
    "There is no context to summarize"@
}

/// The system prompt of a session. The watcher of the prompt file replaces
/// it; each turn reads it when it builds its request.
pub struct SystemPrompt {
    text: String,
}

impl View for SystemPrompt {
    type V = Seq<char>;

    closed spec fn view(&self) -> Seq<char> {
        self.text@
    }
}

impl SystemPrompt {
    pub fn new(text: String) -> (r: SystemPrompt)
        ensures
            r@ == text@,
    {
        SystemPrompt { text }
    }

    /// The latest known prompt.
    pub fn read(&self) -> (r: String)
        ensures
            r@ == self@,
    {
        self.text.clone()
    }

    /// Takes in the new content of the prompt file.
    pub fn replace(&mut self, text: String)
        ensures
            final(self)@ == text@,
    {
        self.text = text;
    }
}

/// The continuation tokens of an optional context.
pub open spec fn context_view(c: Option<ConversationContext>) -> Option<Seq<i32>> {
    match c {
        Some(c) => Some(c@),
        None => None,
    }
}

/// One request to the generation service, built afresh for each turn.
pub struct TurnRequest {
    pub model: String,
    pub prompt: String,
    pub system: String,
    pub context: Option<ConversationContext>,
}

/// A request as values: model, prompt, system prompt and context tokens.
pub struct RequestView {
    pub model: Seq<char>,
    pub prompt: Seq<char>,
    pub system: Seq<char>,
    pub context: Option<Seq<i32>>,
}

impl View for TurnRequest {
    type V = RequestView;

    open spec fn view(&self) -> RequestView {
        RequestView {
            model: self.model@,
            prompt: self.prompt@,
            system: self.system@,
            context: context_view(self.context),
        }
    }
}

/// The request that a turn builds on the line `prompt`, from the session's
/// model and context and the prompt that the store holds at that moment.
pub open spec fn turn_request_view(
    model: Seq<char>,
    context: Option<Seq<i32>>,
    prompt: Seq<char>,
    system: Seq<char>,
) -> RequestView {
    RequestView { model, prompt, system, context }
}

/// What a session carries from turn to turn: the model and the latest context.
pub struct Session {
    pub model: String,
    pub context: Option<ConversationContext>,
}

fn clone_context(c: &Option<ConversationContext>) -> (r: Option<ConversationContext>)
    ensures
        context_view(r) == context_view(*c),
{
    match c {
        Some(c) => {
            let mut tokens: Vec<i32> = Vec::new();
            let mut i: usize = 0;
            while i < c.tokens.len()
                invariant
                    i <= c.tokens@.len(),
                    tokens@ == c.tokens@.subrange(0, i as int),
                decreases c.tokens@.len() - i,
            {
                tokens.push(c.tokens[i]);
                i = i + 1;
                assert(tokens@ =~= c.tokens@.subrange(0, i as int));
            }
            assert(tokens@ =~= c.tokens@);
            Some(ConversationContext { tokens })
        },
        None => None,
    }
}

impl Session {
    /// Starts a session for `model` from the persisted context, if any. A
    /// persisted context that cannot be read back stops the start.
    pub fn start(model: String, stored: Option<&[u8]>) -> (r: Result<Session, SessionError>)
        ensures
            r is Ok <==> loaded_context(stored_view(stored)) is Some,
            r matches Ok(s) ==> s.model@ == model@ && Some(context_view(s.context))
                == loaded_context(stored_view(stored)),
            r matches Err(e) ==> e is CorruptContext,
    {
        match load_context(stored) {
            Ok(context) => Ok(Session { model, context }),
            Err(e) => Err(e),
        }
    }

    /// The request of a turn on the line `prompt`, under the prompt that
    /// `system` holds now and the latest context.
    pub fn turn_request(&self, prompt: String, system: &SystemPrompt) -> (r: TurnRequest)
        ensures
            r@ == turn_request_view(self.model@, context_view(self.context), prompt@, system@),
    {
        TurnRequest {
            model: self.model.clone(),
            prompt,
            system: system.read(),
            context: clone_context(&self.context),
        }
    }

    /// The request of summary mode, or `None` where there is no context to
    /// summarize: then no request is to be made.
    pub fn summary_request(&self, system: &SystemPrompt) -> (r: Option<TurnRequest>)
        ensures
            r is None <==> self.context is None,
            r matches Some(q) ==> q@ == turn_request_view(
                self.model@,
                context_view(self.context),
                summary_instruction(),
                system@,
            ),
    {
        if self.context.is_none() {
            return None;
        }
        Some(
            TurnRequest {
                model: self.model.clone(),
                prompt: String::from_str("Briefly summarize this conversation"),
                system: system.read(),
                context: clone_context(&self.context),
            },
        )
    }

    /// Takes in the context of a completed exchange, once it is persisted.
    pub fn adopt_context(&mut self, context: ConversationContext)
        ensures
            final(self).model@ == old(self).model@,
            context_view(final(self).context) == Some(context@),
    {
        self.context = Some(context);
    }
}

/// The advisory of summary mode when there is no context.
pub fn summary_advisory() -> (r: String)
    ensures
        r@ == no_context_advisory(),
{
    String::from_str("There is no context to summarize")
}

} // verus!
