use vstd::prelude::*;

verus! {

/// The eight bytes of `n`, least significant first.
pub open spec fn u64_le(n: u64) -> Seq<u8> {
    seq![
        n as u8,
        (n >> 8u64) as u8,
        (n >> 16u64) as u8,
        (n >> 24u64) as u8,
        (n >> 32u64) as u8,
        (n >> 40u64) as u8,
        (n >> 48u64) as u8,
        (n >> 56u64) as u8,
    ]
}

/// The four bytes of `x` in two's complement, least significant first.
pub open spec fn i32_le(x: i32) -> Seq<u8> {
    let u = x as u32;
    seq![u as u8, (u >> 8u32) as u8, (u >> 16u32) as u8, (u >> 24u32) as u8]
}

/// The integer whose eight bytes, least significant first, open `b`.
pub open spec fn u64_from_le(b: Seq<u8>) -> u64 {
    (b[0] as u64) | ((b[1] as u64) << 8u64) | ((b[2] as u64) << 16u64) | ((b[3] as u64) << 24u64)
        | ((b[4] as u64) << 32u64) | ((b[5] as u64) << 40u64) | ((b[6] as u64) << 48u64) | ((
    b[7] as u64) << 56u64)
}

/// The integer whose four bytes, least significant first, open `b`.
pub open spec fn i32_from_le(b: Seq<u8>) -> i32 {
    ((b[0] as u32) | ((b[1] as u32) << 8u32) | ((b[2] as u32) << 16u32) | ((b[3] as u32)
        << 24u32)) as i32
}

/// The tokens one after another, four bytes each.
pub open spec fn tokens_le(t: Seq<i32>) -> Seq<u8>
    decreases t.len(),
{
    if t.len() == 0 {
        Seq::empty()
    } else {
        i32_le(t[0]) + tokens_le(t.drop_first())
    }
}

/// The persisted form of a context: the number of tokens as eight bytes,
/// then the tokens.
pub open spec fn context_bytes(t: Seq<i32>) -> Seq<u8> {
    u64_le(t.len() as u64) + tokens_le(t)
}

/// The number of tokens that a persisted context announces.
pub open spec fn announced_len(b: Seq<u8>) -> int {
    u64_from_le(b.subrange(0, 8)) as int
}

/// True when `b` opens with a whole persisted context (more may follow).
pub open spec fn context_parses(b: Seq<u8>) -> bool {
    b.len() >= 8 && b.len() >= 8 + 4 * announced_len(b)
}

/// The tokens read back from a persisted context.
pub open spec fn parsed_tokens(b: Seq<u8>) -> Seq<i32> {
    Seq::new(announced_len(b) as nat, |i: int| i32_from_le(b.subrange(8 + 4 * i, 12 + 4 * i)))
}

proof fn lemma_u64_le_round_trip(n: u64)
    ensures
        u64_from_le(u64_le(n)) == n,
{
    let b = u64_le(n);
    let (b0, b1, b2, b3, b4, b5, b6, b7) = (b[0], b[1], b[2], b[3], b[4], b[5], b[6], b[7]);
    assert((b0 as u64) | ((b1 as u64) << 8u64) | ((b2 as u64) << 16u64) | ((b3 as u64) << 24u64)
        | ((b4 as u64) << 32u64) | ((b5 as u64) << 40u64) | ((b6 as u64) << 48u64) | ((
    b7 as u64) << 56u64) == n) by (bit_vector)
        requires
            b0 == n as u8,
            b1 == (n >> 8u64) as u8,
            b2 == (n >> 16u64) as u8,
            b3 == (n >> 24u64) as u8,
            b4 == (n >> 32u64) as u8,
            b5 == (n >> 40u64) as u8,
            b6 == (n >> 48u64) as u8,
            b7 == (n >> 56u64) as u8,
    ;
}

proof fn lemma_i32_le_round_trip(x: i32)
    ensures
        i32_from_le(i32_le(x)) == x,
{
    let b = i32_le(x);
    let (b0, b1, b2, b3) = (b[0], b[1], b[2], b[3]);
    assert(((b0 as u32) | ((b1 as u32) << 8u32) | ((b2 as u32) << 16u32) | ((b3 as u32)
        << 24u32)) as i32 == x) by (bit_vector)
        requires
            b0 == (x as u32) as u8,
            b1 == ((x as u32) >> 8u32) as u8,
            b2 == ((x as u32) >> 16u32) as u8,
            b3 == ((x as u32) >> 24u32) as u8,
    ;
}

proof fn lemma_tokens_le_index(t: Seq<i32>)
    ensures
        tokens_le(t).len() == 4 * t.len(),
        forall|i: int|
            0 <= i < t.len() ==> #[trigger] tokens_le(t).subrange(4 * i, 4 * i + 4) == i32_le(
                t[i],
            ),
    decreases t.len(),
{
    if t.len() > 0 {
        let rest = t.drop_first();
        lemma_tokens_le_index(rest);
        let b = tokens_le(t);
        assert forall|i: int| 0 <= i < t.len() implies #[trigger] b.subrange(4 * i, 4 * i + 4)
            == i32_le(t[i]) by {
            if i == 0 {
                assert(b.subrange(0, 4) =~= i32_le(t[0]));
            } else {
                assert(rest[i - 1] == t[i]);
                assert(tokens_le(rest).subrange(4 * (i - 1), 4 * (i - 1) + 4) == i32_le(t[i]));
                assert(b.subrange(4 * i, 4 * i + 4) =~= tokens_le(rest).subrange(
                    4 * (i - 1),
                    4 * (i - 1) + 4,
                ));
            }
        }
    }
}

/// A persisted context reads back as the very tokens it was made from.
pub proof fn lemma_context_bytes_round_trip(t: Seq<i32>)
    requires
        t.len() <= u64::MAX,
    ensures
        context_parses(context_bytes(t)),
        parsed_tokens(context_bytes(t)) == t,
{
    let b = context_bytes(t);
    let n = t.len() as u64;
    lemma_u64_le_round_trip(n);
    lemma_tokens_le_index(t);
    assert(b.subrange(0, 8) =~= u64_le(n));
    assert(announced_len(b) == t.len());
    assert forall|i: int| 0 <= i < t.len() implies #[trigger] i32_from_le(
        b.subrange(8 + 4 * i, 12 + 4 * i),
    ) == t[i] by {
        assert(b.subrange(8 + 4 * i, 12 + 4 * i) =~= tokens_le(t).subrange(4 * i, 4 * i + 4));
        lemma_i32_le_round_trip(t[i]);
    }
    assert(parsed_tokens(b) =~= t);
}

/// Relies on bincode::serialize (fixed-width little-endian integers, a
/// sequence led by its length as a u64) of ollama_rs's GenerationContext, a
/// newtype over the token vector. It does not fail on it: a vector reports
/// its length, the default size limit is unbounded, and writing into a
/// vector cannot fail.
#[verifier::external_body]
fn encode_tokens(t: &Vec<i32>) -> (r: Option<Vec<u8>>)
    ensures
        r is Some,
        r->0@ == context_bytes(t@),
{
    bincode::serialize(&ollama_rs::generation::completion::GenerationContext(t.clone())).ok()
}

/// Relies on bincode::deserialize into ollama_rs's GenerationContext: it
/// reads the u64 length and that many little-endian i32 values, fails when
/// the bytes run out, and ignores bytes that follow.
#[verifier::external_body]
fn decode_tokens(b: &[u8]) -> (r: Option<Vec<i32>>)
    ensures
        r is Some <==> context_parses(b@),
        r is Some ==> r->0@ == parsed_tokens(b@),
{
    bincode::deserialize::<ollama_rs::generation::completion::GenerationContext>(b).ok().map(
        |c| c.0,
    )
}

/// The continuation state that the generation service hands back after a
/// completed exchange, carried unchanged into the next request.
#[derive(Debug)]
pub struct ConversationContext {
    pub tokens: Vec<i32>,
}

impl View for ConversationContext {
    type V = Seq<i32>;

    open spec fn view(&self) -> Seq<i32> {
        self.tokens@
    }
}

/// Why a session cannot go on.
#[derive(PartialEq, Eq, Structural, Clone, Copy, Debug)]
pub enum SessionError {
    /// A persisted context exists but cannot be read back.
    CorruptContext,
}

impl ConversationContext {
    pub fn new(tokens: Vec<i32>) -> (r: ConversationContext)
        ensures
            r@ == tokens@,
    {
        ConversationContext { tokens }
    }

    /// The persisted form of this context.
    pub fn to_bytes(&self) -> (r: Vec<u8>)
        ensures
            r@ == context_bytes(self@),
    {
        encode_tokens(&self.tokens).unwrap()
    }

    /// Reads back a persisted context.
    pub fn from_bytes(b: &[u8]) -> (r: Option<ConversationContext>)
        ensures
            r is Some <==> context_parses(b@),
            r is Some ==> r->0@ == parsed_tokens(b@),
    {
        match decode_tokens(b) {
            Some(t) => Some(ConversationContext { tokens: t }),
            None => None,
        }
    }
}

/// The context that a session starts from, given what was persisted, if
/// anything: none when nothing was persisted, an error when what was
/// persisted cannot be read back.
pub open spec fn loaded_context(stored: Option<Seq<u8>>) -> Option<Option<Seq<i32>>> {
    match stored {
        None => Some(None),
        Some(b) => if context_parses(b) {
            Some(Some(parsed_tokens(b)))
        } else {
            None
        },
    }
}

/// The persisted blob, if any, as bytes.
pub open spec fn stored_view(stored: Option<&[u8]>) -> Option<Seq<u8>> {
    match stored {
        Some(b) => Some(b@),
        None => None,
    }
}

/// A context persisted after one exchange is the context that a session
/// started afterwards carries into its next request.
pub proof fn lemma_persisted_context_reloads(t: Seq<i32>)
    requires
        t.len() <= u64::MAX,
    ensures
        loaded_context(Some(context_bytes(t))) == Some(Some(t)),
{
    lemma_context_bytes_round_trip(t);
}

/// The context to start a session from. `stored` is the persisted blob, or
/// `None` where there is none.
pub fn load_context(stored: Option<&[u8]>) -> (r: Result<Option<ConversationContext>, SessionError>)
    ensures
        r is Ok <==> loaded_context(stored_view(stored)) is Some,
        r is Ok ==> (match r->Ok_0 {
            Some(c) => loaded_context(stored_view(stored)) == Some(Some(c@)),
            None => loaded_context(stored_view(stored)) == Some(None::<Seq<i32>>),
        }),
        r is Err ==> r->Err_0 is CorruptContext,
{
    match stored {
        None => Ok(None),
        Some(b) => match ConversationContext::from_bytes(b) {
            Some(c) => Ok(Some(c)),
            None => Err(SessionError::CorruptContext),
        },
    }
}

} // verus!
