//! The JSON wire encoding of the message model.
//!
//! The spec functions here define, character by character, the body that is
//! POSTed to the webhook; the exec functions render a message to exactly that
//! sequence.  Field presence is part of the contract: `text` is always
//! present, `blocks` only when the block sequence is non-empty, and a block's
//! `text` sub-object only when the block carries text.

use vstd::prelude::*;
use vstd::string::*;

use crate::types::{
    Block,
    BlockModel,
    BlockText,
    BlockTextModel,
    MessageModel,
    OwnedBlock,
    OwnedSlackMessageBody,
    SlackMessageBody,
    blocks_model,
    borrowed_blocks_model,
    divider_model,
    message_model,
};

verus! {

/// Relies on `String::push` of std: it appends exactly the one character.
pub assume_specification[ String::push ](s: &mut String, ch: char)
    ensures
        final(s)@ == old(s)@.push(ch),
;

/// The lowercase hex digit of a value below sixteen.
pub open spec fn hex_digit(n: int) -> char {
    if n == 0 {
        '0'
    } else if n == 1 {
        '1'
    } else if n == 2 {
        '2'
    } else if n == 3 {
        '3'
    } else if n == 4 {
        '4'
    } else if n == 5 {
        '5'
    } else if n == 6 {
        '6'
    } else if n == 7 {
        '7'
    } else if n == 8 {
        '8'
    } else if n == 9 {
        '9'
    } else if n == 10 {
        'a'
    } else if n == 11 {
        'b'
    } else if n == 12 {
        'c'
    } else if n == 13 {
        'd'
    } else if n == 14 {
        'e'
    } else {
        'f'
    }
}

/// How one character stands inside a JSON string literal: quotes and
/// backslashes are escaped, the common control characters get their short
/// forms, the remaining control characters a `\u00..` form, and every other
/// character stands for itself.
pub open spec fn escape_char(c: char) -> Seq<char> {
    if c == '"' {
        seq!['\\', '"']
    } else if c == '\\' {
        seq!['\\', '\\']
    } else if c == '\n' {
        seq!['\\', 'n']
    } else if c == '\r' {
        seq!['\\', 'r']
    } else if c == '\t' {
        seq!['\\', 't']
    } else if (c as u32) < 0x20 {
        seq!['\\', 'u', '0', '0', hex_digit((c as u32) as int / 16), hex_digit((c as u32) as int % 16)]
    } else {
        seq![c]
    }
}

/// A whole character sequence, escaped.
pub open spec fn escape_string(s: Seq<char>) -> Seq<char>
    decreases s.len(),
{
    if s.len() == 0 {
        Seq::empty()
    } else {
        escape_string(s.drop_last()) + escape_char(s.last())
    }
}

/// A JSON string literal: the escaped characters between double quotes.
pub open spec fn json_string(s: Seq<char>) -> Seq<char> {
    "\""@ + escape_string(s) + "\""@
}

/// The wire form of a block's text sub-object.
pub open spec fn block_text_json(t: BlockTextModel) -> Seq<char> {
    "{\"type\":\""@ + t.txt_type.spec_token() + "\",\"text\":"@ + json_string(t.text) + "}"@
}

/// The wire form of one block; the `text` field is omitted entirely when the
/// block carries no text.
pub open spec fn block_json(b: BlockModel) -> Seq<char> {
    match b.text {
        None => "{\"type\":\""@ + b.msg_type.spec_token() + "\"}"@,
        Some(t) => "{\"type\":\""@ + b.msg_type.spec_token() + "\",\"text\":"@ + block_text_json(t)
            + "}"@,
    }
}

/// The comma-separated wire forms of a block sequence.
pub open spec fn blocks_json_items(bs: Seq<BlockModel>) -> Seq<char>
    decreases bs.len(),
{
    if bs.len() == 0 {
        Seq::empty()
    } else if bs.len() == 1 {
        block_json(bs[0])
    } else {
        blocks_json_items(bs.drop_last()) + ","@ + block_json(bs.last())
    }
}

/// The wire form of a block sequence: a JSON array.
pub open spec fn blocks_json(bs: Seq<BlockModel>) -> Seq<char> {
    "["@ + blocks_json_items(bs) + "]"@
}

/// Whether a message's wire form carries a `blocks` field at all.
pub open spec fn spec_has_blocks(m: MessageModel) -> bool {
    m.blocks matches Some(bs) && bs.len() > 0
}

/// The wire form of a whole message.  The `blocks` field is omitted
/// entirely, not sent as an empty list or null, when the block sequence is
/// empty or absent.
pub open spec fn message_json(m: MessageModel) -> Seq<char> {
    if spec_has_blocks(m) {
        "{\"text\":"@ + json_string(m.text) + ",\"blocks\":"@ + blocks_json(m.blocks->Some_0)
            + "}"@
    } else {
        "{\"text\":"@ + json_string(m.text) + "}"@
    }
}

/// The lowercase hex digit character of a value below sixteen.
fn hex_char(n: u32) -> (c: char)
    requires
        n < 16,
    ensures
        c == hex_digit(n as int),
{
    if n == 0 {
        '0'
    } else if n == 1 {
        '1'
    } else if n == 2 {
        '2'
    } else if n == 3 {
        '3'
    } else if n == 4 {
        '4'
    } else if n == 5 {
        '5'
    } else if n == 6 {
        '6'
    } else if n == 7 {
        '7'
    } else if n == 8 {
        '8'
    } else if n == 9 {
        '9'
    } else if n == 10 {
        'a'
    } else if n == 11 {
        'b'
    } else if n == 12 {
        'c'
    } else if n == 13 {
        'd'
    } else if n == 14 {
        'e'
    } else {
        'f'
    }
}

/// Append one character in its escaped wire form.
fn push_escaped(out: &mut String, c: char)
    ensures
        final(out)@ == old(out)@ + escape_char(c),
{
    let ghost out0 = out@;
    if c == '"' {
        out.append("\\\"");
        proof {
            reveal_strlit("\\\"");
            assert(out@ =~= out0 + escape_char(c));
        }
    } else if c == '\\' {
        out.append("\\\\");
        proof {
            reveal_strlit("\\\\");
            assert(out@ =~= out0 + escape_char(c));
        }
    } else if c == '\n' {
        out.append("\\n");
        proof {
            reveal_strlit("\\n");
            assert(out@ =~= out0 + escape_char(c));
        }
    } else if c == '\r' {
        out.append("\\r");
        proof {
            reveal_strlit("\\r");
            assert(out@ =~= out0 + escape_char(c));
        }
    } else if c == '\t' {
        out.append("\\t");
        proof {
            reveal_strlit("\\t");
            assert(out@ =~= out0 + escape_char(c));
        }
    } else {
        let v = c as u32;
        if v < 0x20 {
            out.append("\\u00");
            out.push(hex_char(v / 16));
            out.push(hex_char(v % 16));
            proof {
                reveal_strlit("\\u00");
                assert(out@ =~= out0 + escape_char(c));
            }
        } else {
            out.push(c);
            proof {
                assert(out@ =~= out0 + escape_char(c));
            }
        }
    }
}

/// Append a whole string as a JSON string literal.
pub(crate) fn push_json_string(out: &mut String, s: &str)
    ensures
        final(out)@ == old(out)@ + json_string(s@),
{
    let ghost out0 = out@;
    out.append("\"");
    let n = s.unicode_len();
    let mut i: usize = 0;
    while i < n
        invariant
            n == s@.len(),
            i <= n,
            out@ == out0 + "\""@ + escape_string(s@.take(i as int)),
        decreases n - i,
    {
        let c = s.get_char(i);
        push_escaped(out, c);
        proof {
            assert(s@.take(i as int + 1).drop_last() =~= s@.take(i as int));
            assert(s@.take(i as int + 1).last() == s@[i as int]);
            assert(out@ =~= out0 + "\""@ + escape_string(s@.take(i as int + 1)));
        }
        i += 1;
    }
    out.append("\"");
    proof {
        assert(s@.take(n as int) =~= s@);
        assert(out@ =~= out0 + json_string(s@));
    }
}

/// Append the wire form of a block's text sub-object.
fn push_block_text(out: &mut String, t: &BlockText)
    ensures
        final(out)@ == old(out)@ + block_text_json(t@),
{
    let ghost out0 = out@;
    out.append("{\"type\":\"");
    out.append(t.txt_type.token());
    out.append("\",\"text\":");
    push_json_string(out, t.text.as_str());
    out.append("}");
    proof {
        assert(out@ =~= out0 + block_text_json(t@));
    }
}

/// Append the wire form of one block.
fn push_block(out: &mut String, b: &Block)
    ensures
        final(out)@ == old(out)@ + block_json(b@),
{
    let ghost out0 = out@;
    out.append("{\"type\":\"");
    out.append(b.msg_type.token());
    match &b.text {
        None => {
            out.append("\"}");
            proof {
                assert(out@ =~= out0 + block_json(b@));
            }
        },
        Some(t) => {
            out.append("\",\"text\":");
            push_block_text(out, t);
            out.append("}");
            proof {
                assert(out@ =~= out0 + block_json(b@));
            }
        },
    }
}

/// Append the wire form of a borrow-free block sequence.
fn push_blocks(out: &mut String, bs: &Vec<Block>)
    ensures
        final(out)@ == old(out)@ + blocks_json(borrowed_blocks_model(bs@)),
{
    let ghost out0 = out@;
    let ghost models = borrowed_blocks_model(bs@);
    out.append("[");
    let mut i: usize = 0;
    while i < bs.len()
        invariant
            models == borrowed_blocks_model(bs@),
            models.len() == bs@.len(),
            i <= bs.len(),
            out@ == out0 + "["@ + blocks_json_items(models.take(i as int)),
        decreases bs.len() - i,
    {
        if i > 0 {
            out.append(",");
        }
        push_block(out, &bs[i]);
        proof {
            assert(models.take(i as int + 1).drop_last() =~= models.take(i as int));
            assert(models.take(i as int + 1).last() == models[i as int]);
            assert(out@ =~= out0 + "["@ + blocks_json_items(models.take(i as int + 1)));
        }
        i += 1;
    }
    out.append("]");
    proof {
        assert(models.take(models.len() as int) =~= models);
        assert(out@ =~= out0 + blocks_json(models));
    }
}

/// Append the wire form of the `[from, to)` range of an owned block
/// sequence.
pub(crate) fn push_owned_blocks(out: &mut String, bs: &Vec<OwnedBlock>, from: usize, to: usize)
    requires
        from <= to <= bs@.len(),
    ensures
        final(out)@ == old(out)@ + blocks_json(
            blocks_model(bs@).subrange(from as int, to as int),
        ),
{
    let ghost out0 = out@;
    let ghost models = blocks_model(bs@).subrange(from as int, to as int);
    out.append("[");
    let mut i: usize = from;
    while i < to
        invariant
            from <= i <= to <= bs@.len(),
            models == blocks_model(bs@).subrange(from as int, to as int),
            models.len() == to - from,
            out@ == out0 + "["@ + blocks_json_items(models.take(i - from)),
        decreases to - i,
    {
        if i > from {
            out.append(",");
        }
        let b = bs[i].as_block();
        push_block(out, &b);
        proof {
            assert(models.take(i - from + 1).drop_last() =~= models.take(i - from));
            assert(models.take(i - from + 1).last() == models[i - from]);
            assert(models[i - from] == bs@[i as int]@);
            assert(out@ =~= out0 + "["@ + blocks_json_items(models.take(i - from + 1)));
        }
        i += 1;
    }
    out.append("]");
    proof {
        assert(models.take(models.len() as int) =~= models);
        assert(out@ =~= out0 + blocks_json(models));
    }
}

impl SlackMessageBody {
    /// Render this message to its JSON wire form.
    pub fn to_json(&self) -> (r: String)
        ensures
            r@ == message_json(self@),
    {
        let mut out = String::new();
        out.append("{\"text\":");
        push_json_string(&mut out, self.text.as_str());
        match &self.blocks {
            Some(bs) => {
                if bs.len() > 0 {
                    out.append(",\"blocks\":");
                    push_blocks(&mut out, bs);
                }
            },
            None => {},
        }
        out.append("}");
        proof {
            assert(out@ =~= message_json(self@));
        }
        out
    }
}

impl OwnedSlackMessageBody {
    /// Render this message to its JSON wire form; it is the same wire form
    /// that the borrow-free body of the same model renders to.
    pub fn to_json(&self) -> (r: String)
        ensures
            r@ == message_json(self@),
    {
        let mut out = String::new();
        out.append("{\"text\":");
        push_json_string(&mut out, self.text.as_str());
        match &self.blocks {
            Some(bs) => {
                if bs.len() > 0 {
                    let n = bs.len();
                    out.append(",\"blocks\":");
                    push_owned_blocks(&mut out, bs, 0, n);
                    proof {
                        assert(blocks_model(bs@).subrange(0, n as int) =~= blocks_model(bs@));
                    }
                }
            },
            None => {},
        }
        out.append("}");
        proof {
            assert(out@ =~= message_json(self@));
        }
        out
    }
}

impl Block {
    /// Render this one block to its JSON wire form.
    pub fn to_json(&self) -> (r: String)
        ensures
            r@ == block_json(self@),
    {
        let mut out = String::new();
        push_block(&mut out, self);
        out
    }
}

/// An empty block sequence is omitted from the wire form entirely: a message
/// with an empty sequence serializes exactly as one with no sequence at all,
/// and neither wire form carries a `blocks` field.
pub proof fn lemma_empty_blocks_omitted(text: Seq<char>)
    ensures
        message_json(message_model(text, Some(Seq::empty()))) == message_json(
            message_model(text, None),
        ),
        message_json(message_model(text, None)) == "{\"text\":"@ + json_string(text) + "}"@,
{
}

/// A block without text serializes without a `text` field: its whole wire
/// form is the `type` field alone.
pub proof fn lemma_textless_block_omits_text(b: BlockModel)
    requires
        b.text is None,
    ensures
        block_json(b) == "{\"type\":\""@ + b.msg_type.spec_token() + "\"}"@,
{
}

/// A divider block always serializes without a `text` field, to the one
/// fixed wire form.
pub proof fn lemma_divider_wire_form()
    ensures
        block_json(divider_model()) == "{\"type\":\"divider\"}"@,
{
    reveal_strlit("{\"type\":\"");
    reveal_strlit("divider");
    reveal_strlit("\"}");
    reveal_strlit("{\"type\":\"divider\"}");
    assert(block_json(divider_model()) =~= "{\"type\":\"divider\"}"@);
}

} // verus!
