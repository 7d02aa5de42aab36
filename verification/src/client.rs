//! The webhook client's decision logic: the destination URL, the typed
//! failures, the classification of an HTTP outcome, and the strictly
//! sequential plan of a chunked send.
//!
//! The transport itself — the POST and the awaiting — lives outside the
//! library; it hands back a plain status code and body text, and those are
//! classified here.

use vstd::prelude::*;
use vstd::string::*;

use crate::types::{OwnedBlocks, message_model, spec_chunk, spec_chunk_count, blocks_model};
use crate::wire::{message_json, push_json_string, push_owned_blocks, spec_has_blocks};

verus! {

/// A client for one webhook: holds the destination URL verbatim.  A
/// malformed URL is not rejected here; it surfaces as a transport failure on
/// the first send.
#[derive(Debug)]
pub struct Client {
    url: String,
}

impl View for Client {
    type V = Seq<char>;

    closed spec fn view(&self) -> Seq<char> {
        self.url@
    }
}

impl Clone for Client {
    fn clone(&self) -> (r: Self)
        ensures
            r@ == self@,
    {
        Client { url: self.url.clone() }
    }
}

impl Client {
    /// A client that will post to the given URL, stored verbatim.
    pub fn new(url: String) -> (c: Client)
        ensures
            c@ == url@,
    {
        Client { url }
    }

    /// The stored URL.
    pub fn url(&self) -> (r: &str)
        ensures
            r@ == self@,
    {
        self.url.as_str()
    }
}

/// The decimal digit character of a value below ten.
pub open spec fn dec_digit(n: int) -> char {
    if n == 0 {
        '0'
    } else if n == 1 {
        '1'
    } else if n == 2 {
        '2'
    } else if n == 3 {
        '3'
    } else if n == 4 {
        '4'
    } else if n == 5 {
        '5'
    } else if n == 6 {
        '6'
    } else if n == 7 {
        '7'
    } else if n == 8 {
        '8'
    } else {
        '9'
    }
}

/// The decimal rendering of a non-negative number, most significant digit
/// first.
pub open spec fn dec_string(n: int) -> Seq<char>
    recommends
        n >= 0,
    decreases n,
{
    if n < 10 {
        seq![dec_digit(n)]
    } else {
        dec_string(n / 10) + seq![dec_digit(n % 10)]
    }
}

/// The decimal digit character of a value below ten.
fn dec_char(n: u16) -> (c: char)
    requires
        n < 10,
    ensures
        c == dec_digit(n as int),
{
    if n == 0 {
        '0'
    } else if n == 1 {
        '1'
    } else if n == 2 {
        '2'
    } else if n == 3 {
        '3'
    } else if n == 4 {
        '4'
    } else if n == 5 {
        '5'
    } else if n == 6 {
        '6'
    } else if n == 7 {
        '7'
    } else if n == 8 {
        '8'
    } else {
        '9'
    }
}

/// Append the decimal rendering of a status code.
fn push_dec_u16(out: &mut String, n: u16)
    ensures
        final(out)@ == old(out)@ + dec_string(n as int),
    decreases n,
{
    if n < 10 {
        out.push(dec_char(n));
        proof {
            assert(out@ =~= old(out)@ + dec_string(n as int));
        }
    } else {
        push_dec_u16(out, n / 10);
        out.push(dec_char(n % 10));
        proof {
            assert(out@ =~= old(out)@ + dec_string(n as int));
        }
    }
}

/// A send failure.  Neither kind is retried by this library: every failure
/// is surfaced once to the caller.
#[derive(Debug)]
pub enum SendError {
    /// The request never got a response (network, TLS, DNS, timeout,
    /// malformed URL); carries the underlying cause's description.
    Transport { cause: String },
    /// A response arrived, but with a status other than 200; carries the
    /// status and the response body text, or a description of the failure
    /// to decode that text.
    HttpStatus { status: u16, body: String },
}

/// The one-line description of a send failure.
pub open spec fn spec_describe(e: SendError) -> Seq<char> {
    match e {
        SendError::Transport { cause } => "transport error: "@ + cause@,
        SendError::HttpStatus { status, body } => "status: "@ + dec_string(status as int)
            + " | text: "@ + body@,
    }
}

impl SendError {
    /// A transport failure from the underlying cause's description.
    pub fn transport(cause: String) -> (e: SendError)
        ensures
            e matches SendError::Transport { cause: c } && c@ == cause@,
    {
        SendError::Transport { cause }
    }

    /// A status failure from a response's status and body text.
    pub fn http_status(status: u16, body: String) -> (e: SendError)
        ensures
            e matches SendError::HttpStatus { status: s, body: b } && s == status && b@ == body@,
    {
        SendError::HttpStatus { status, body }
    }

    /// Render the failure as a one-line description.
    pub fn describe(&self) -> (r: String)
        ensures
            r@ == spec_describe(*self),
    {
        match self {
            SendError::Transport { cause } => {
                let mut out = String::new();
                out.append("transport error: ");
                out.append(cause.as_str());
                proof {
                    assert(out@ =~= spec_describe(*self));
                }
                out
            },
            SendError::HttpStatus { status, body } => {
                let mut out = String::new();
                out.append("status: ");
                push_dec_u16(&mut out, *status);
                out.append(" | text: ");
                out.append(body.as_str());
                proof {
                    assert(out@ =~= spec_describe(*self));
                }
                out
            },
        }
    }
}

/// Whether an HTTP status is the one status this library counts as success.
pub fn is_success(status: u16) -> (r: bool)
    ensures
        r == (status == 200),
{
    status == 200
}

/// Classify a finished round trip: status 200 is success regardless of body
/// content; any other status is a status failure carrying exactly that
/// status and the body text.
pub fn classify_response(status: u16, body: String) -> (r: Result<(), SendError>)
    ensures
        (status == 200) <==> r is Ok,
        r matches Err(e) ==> (e matches SendError::HttpStatus { status: s, body: b } && s == status
            && b@ == body@),
{
    if status == 200 {
        Ok(())
    } else {
        Err(SendError::HttpStatus { status, body })
    }
}

/// Ghost model of a chunked send in progress: the request bodies, in the
/// order they are owed to the wire, and how many have been handed out.
pub struct ChunkedSendModel {
    pub bodies: Seq<Seq<char>>,
    pub next: nat,
}

/// The strictly sequential plan of a chunked send: one request body per
/// group of blocks, every body carrying the same fallback text.  Bodies are
/// handed out one at a time and in order, so a caller that stops on the
/// first failure never obtains — and so never sends — a later chunk.
#[derive(Debug)]
pub struct ChunkedSend {
    bodies: Vec<String>,
    next: usize,
}

impl View for ChunkedSend {
    type V = ChunkedSendModel;

    closed spec fn view(&self) -> ChunkedSendModel {
        ChunkedSendModel {
            bodies: self.bodies@.map_values(|s: String| s@),
            next: self.next as nat,
        }
    }
}

impl ChunkedSend {
    /// The hand-out position never runs past the planned bodies.
    pub open spec fn wf(&self) -> bool {
        self@.next <= self@.bodies.len()
    }

    /// Plan a chunked send of `blocks` in groups of `chunk_size`, every
    /// request body carrying the same fallback `text`.
    pub fn new(text: &str, blocks: &OwnedBlocks, chunk_size: usize) -> (p: ChunkedSend)
        requires
            chunk_size >= 1,
        ensures
            p.wf(),
            p@.next == 0,
            p@.bodies.len() == spec_chunk_count(blocks@.len() as int, chunk_size as int),
            forall|i: int| 0 <= i < p@.bodies.len() ==> p@.bodies[i] == message_json(
                message_model(text@, Some(spec_chunk(blocks@, chunk_size as int, i))),
            ),
    {
        let ghost cs = chunk_size as int;
        let ghost n_spec = blocks@.len() as int;
        let chunks = blocks.chunks(chunk_size);
        let mut bodies: Vec<String> = Vec::new();
        let mut i: usize = 0;
        while i < chunks.len()
            invariant
                chunk_size >= 1,
                cs == chunk_size as int,
                n_spec == blocks@.len() as int,
                chunks@.len() == spec_chunk_count(n_spec, cs),
                forall|k: int| 0 <= k < chunks@.len() ==> #[trigger] blocks_model(chunks@[k]@)
                    == spec_chunk(blocks@, cs, k),
                i <= chunks.len(),
                bodies@.len() == i,
                forall|k: int| 0 <= k < i ==> #[trigger] bodies@[k]@ == message_json(
                    message_model(text@, Some(spec_chunk(blocks@, cs, k))),
                ),
            decreases chunks.len() - i,
        {
            proof {
                assert((i as int) * cs < n_spec && (i as int + 1) * cs > (i as int) * cs)
                    by (nonlinear_arith)
                    requires
                        cs >= 1,
                        0 <= i as int,
                        (i as int) < (n_spec + cs - 1) / cs,
                ;
                assert(spec_chunk(blocks@, cs, i as int).len() >= 1);
            }
            let chunk = &chunks[i];
            let n = chunk.len();
            let mut out = String::new();
            out.append("{\"text\":");
            push_json_string(&mut out, text);
            out.append(",\"blocks\":");
            push_owned_blocks(&mut out, chunk, 0, n);
            out.append("}");
            proof {
                assert(blocks_model(chunk@).subrange(0, n as int) =~= blocks_model(chunk@));
                assert(spec_has_blocks(message_model(text@, Some(spec_chunk(blocks@, cs, i as int)))));
                assert(out@ =~= message_json(
                    message_model(text@, Some(spec_chunk(blocks@, cs, i as int))),
                ));
            }
            bodies.push(out);
            i += 1;
        }
        ChunkedSend { bodies, next: 0 }
    }

    /// How many request bodies have not been handed out yet.
    pub fn remaining(&self) -> (r: usize)
        requires
            self.wf(),
        ensures
            r == self@.bodies.len() - self@.next,
    {
        self.bodies.len() - self.next
    }

    /// The next request body, handed out exactly once and in order; `None`
    /// once every chunk has been handed out.  A caller that performs the
    /// requests as they come, and stops at the first failure, has issued the
    /// chunks strictly sequentially and left all later chunks unsent.
    pub fn next_request(&mut self) -> (r: Option<String>)
        requires
            old(self).wf(),
        ensures
            final(self).wf(),
            final(self)@.bodies == old(self)@.bodies,
            old(self)@.next < old(self)@.bodies.len() ==> (r matches Some(b) && b@ == old(
                self,
            )@.bodies[old(self)@.next as int] && final(self)@.next == old(self)@.next + 1),
            old(self)@.next >= old(self)@.bodies.len() ==> (r is None && final(self)@.next == old(
                self,
            )@.next),
    {
        if self.next < self.bodies.len() {
            let b = self.bodies[self.next].clone();
            self.next = self.next + 1;
            Some(b)
        } else {
            None
        }
    }
}

} // verus!
