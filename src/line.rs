use vstd::prelude::*;
use vstd::utf8::{decode_utf8, valid_utf8};

verus! {

/// Byte value of the line terminator.
pub const NEWLINE: u8 = 10;

/// True when the accumulated bytes form a whole line: well-formed UTF-8
/// whose last character is a line terminator.
pub open spec fn line_complete(b: Seq<u8>) -> bool {
    b.len() > 0 && b.last() == NEWLINE && valid_utf8(b)
}

/// One feed of the assembler: what stays buffered and the line handed out.
pub open spec fn feed_step(pending: Seq<u8>, chunk: Seq<u8>) -> (Seq<u8>, Option<Seq<char>>) {
    let acc = pending + chunk;
    if line_complete(acc) {
        (Seq::empty(), Some(decode_utf8(acc)))
    } else {
        (acc, None)
    }
}

/// Feeds the chunks one after another: the bytes left buffered and the lines
/// handed out, in order.
pub open spec fn feed_all(pending: Seq<u8>, chunks: Seq<Seq<u8>>) -> (Seq<u8>, Seq<Seq<char>>)
    decreases chunks.len(),
{
    if chunks.len() == 0 {
        (pending, Seq::empty())
    } else {
        let (held, out) = feed_step(pending, chunks[0]);
        let (left, rest) = feed_all(held, chunks.drop_first());
        (
            left,
            match out {
                Some(l) => seq![l] + rest,
                None => rest,
            },
        )
    }
}

/// True when no byte but possibly the last one is a line terminator.
pub open spec fn newline_only_at_end(b: Seq<u8>) -> bool {
    forall|i: int| 0 <= i < b.len() - 1 ==> b[i] != NEWLINE
}

proof fn lemma_feed_all_single(pending: Seq<u8>, chunk: Seq<u8>)
    ensures
        feed_all(pending, seq![chunk]) == (
            feed_step(pending, chunk).0,
            match feed_step(pending, chunk).1 {
                Some(l) => seq![l],
                None => Seq::<Seq<char>>::empty(),
            },
        ),
{
    let (held, out) = feed_step(pending, chunk);
    assert(seq![chunk].drop_first() =~= Seq::<Seq<u8>>::empty());
    assert(feed_all(held, Seq::<Seq<u8>>::empty()) == (held, Seq::<Seq<char>>::empty()));
    match out {
        Some(l) => {
            assert(seq![l] + Seq::<Seq<char>>::empty() =~= seq![l]);
        },
        None => {},
    }
}

proof fn lemma_feed_all_chunks(pending: Seq<u8>, chunks: Seq<Seq<u8>>)
    requires
        !line_complete(pending),
        newline_only_at_end(pending + chunks.flatten()),
    ensures
        feed_all(pending, chunks) == feed_all(pending, seq![chunks.flatten()]),
    decreases chunks.len(),
{
    lemma_feed_all_single(pending, chunks.flatten());
    if chunks.len() == 0 {
        assert(pending + Seq::<u8>::empty() =~= pending);
    } else {
        let c = chunks[0];
        let rest = chunks.drop_first();
        let acc = pending + c;
        assert(chunks.flatten() == c + rest.flatten());
        assert(acc + rest.flatten() =~= pending + chunks.flatten());
        if line_complete(acc) {
            let total = pending + chunks.flatten();
            assert(total[acc.len() - 1] == NEWLINE);
            assert(rest.flatten().len() == 0);
            assert(Seq::<u8>::empty() + rest.flatten() =~= Seq::<u8>::empty());
            lemma_feed_all_chunks(Seq::empty(), rest);
            lemma_feed_all_single(Seq::empty(), rest.flatten());
            assert(Seq::<u8>::empty() + rest.flatten() =~= Seq::<u8>::empty());
            assert(c + rest.flatten() =~= c);
            let l = decode_utf8(acc);
            assert(seq![l] + Seq::<Seq<char>>::empty() =~= seq![l]);
        } else {
            lemma_feed_all_chunks(acc, rest);
            lemma_feed_all_single(acc, rest.flatten());
        }
    }
}

/// Splitting input into chunks does not change the line that comes out: for
/// bytes whose only line terminator, if any, is the last byte, feeding them
/// in any chunks leaves the assembler where feeding them whole does, and a
/// complete line is handed out exactly once, whole.
pub proof fn lemma_chunking_preserves_line(line: Seq<u8>, chunks: Seq<Seq<u8>>)
    requires
        chunks.flatten() == line,
        newline_only_at_end(line),
    ensures
        feed_all(Seq::empty(), chunks) == feed_all(Seq::empty(), seq![line]),
        line_complete(line) ==> feed_all(Seq::empty(), chunks) == (
            Seq::<u8>::empty(),
            seq![decode_utf8(line)],
        ),
{
    assert(Seq::<u8>::empty() + line =~= line);
    lemma_feed_all_chunks(Seq::empty(), chunks);
    lemma_feed_all_single(Seq::empty(), line);
}

/// Relies on std::str::from_utf8: it succeeds exactly on well-formed UTF-8
/// and then holds the characters that the bytes encode.
#[verifier::external_body]
fn decode_utf8_bytes(b: &[u8]) -> (r: Option<String>)
    ensures
        r is Some <==> valid_utf8(b@),
        r is Some ==> r->0@ == decode_utf8(b@),
{
    std::str::from_utf8(b).ok().map(|s| s.to_string())
}

/// Turns raw console input, read in chunks of any size, into whole lines.
pub struct LineAssembler {
    buf: Vec<u8>,
}

impl View for LineAssembler {
    type V = Seq<u8>;

    /// The bytes received and not yet handed out as a line.
    closed spec fn view(&self) -> Seq<u8> {
        self.buf@
    }
}

impl LineAssembler {
    pub fn new() -> (r: LineAssembler)
        ensures
            r@ == Seq::<u8>::empty(),
    {
        LineAssembler { buf: Vec::new() }
    }

    /// The bytes held back so far.
    pub fn pending(&self) -> (r: &[u8])
        ensures
            r@ == self@,
    {
        self.buf.as_slice()
    }

    /// Appends a chunk of input. Once the buffered bytes decode as UTF-8 and
    /// end with a line terminator, the whole line (terminator included) is
    /// handed out and the buffer starts over. A multi-byte character cut by a
    /// chunk boundary, or bytes that never decode, stay buffered.
    pub fn feed(&mut self, chunk: &[u8]) -> (r: Option<String>)
        ensures
            final(self)@ == feed_step(old(self)@, chunk@).0,
            r is Some <==> feed_step(old(self)@, chunk@).1 is Some,
            r is Some ==> r->0@ == feed_step(old(self)@, chunk@).1->0,
    {
        self.buf.extend_from_slice(chunk);
        proof {
            assert(self.buf@ =~= old(self)@ + chunk@);
        }
        let n = self.buf.len();
        if n == 0 || self.buf[n - 1] != NEWLINE {
            return None;
        }
        match decode_utf8_bytes(self.buf.as_slice()) {
            Some(line) => {
                self.buf.clear();
                proof {
                    assert(self.buf@ =~= Seq::<u8>::empty());
                }
                Some(line)
            },
            None => None,
        }
    }
}

} // verus!
