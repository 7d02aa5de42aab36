//! The message data model: render modes, block kinds, blocks and message
//! bodies, together with the ghost models that the wire encoding is stated
//! over.

use vstd::prelude::*;

verus! {

/// How a block's text is interpreted by the receiving platform.
#[derive(Debug, PartialEq, Eq, Structural, Hash, Clone, Copy)]
pub enum TextType {
    PlainText,
    Mrkdwn,
}

/// The kind of a layout block.
#[derive(Debug, PartialEq, Eq, Structural, Hash, Clone, Copy)]
pub enum MsgType {
    Header,
    Section,
    Divider,
}

impl TextType {
    /// The wire token of this render mode: a fixed snake_case string.
    pub open spec fn spec_token(self) -> Seq<char> {
        match self {
            TextType::PlainText => "plain_text"@,
            TextType::Mrkdwn => "mrkdwn"@,
        }
    }

    /// Render this mode as its wire token.
    pub fn token(&self) -> (r: &'static str)
        ensures
            r@ == self.spec_token(),
    {
        match self {
            TextType::PlainText => "plain_text",
            TextType::Mrkdwn => "mrkdwn",
        }
    }
}

impl MsgType {
    /// The wire token of this block kind: a fixed lowercase string.
    pub open spec fn spec_token(self) -> Seq<char> {
        match self {
            MsgType::Header => "header"@,
            MsgType::Section => "section"@,
            MsgType::Divider => "divider"@,
        }
    }

    /// Render this kind as its wire token.
    pub fn token(&self) -> (r: &'static str)
        ensures
            r@ == self.spec_token(),
    {
        match self {
            MsgType::Header => "header",
            MsgType::Section => "section",
            MsgType::Divider => "divider",
        }
    }
}

/// Ghost model of the text carried by a block: a render mode and the
/// character sequence itself.
pub struct BlockTextModel {
    pub txt_type: TextType,
    pub text: Seq<char>,
}

/// Ghost model of one layout block: its kind and its optional text.
pub struct BlockModel {
    pub msg_type: MsgType,
    pub text: Option<BlockTextModel>,
}

/// Ghost model of a whole message body: the fallback text and the optional
/// block sequence.
pub struct MessageModel {
    pub text: Seq<char>,
    pub blocks: Option<Seq<BlockModel>>,
}

/// The model of a whole message from its parts.
pub open spec fn message_model(text: Seq<char>, blocks: Option<Seq<BlockModel>>) -> MessageModel {
    MessageModel { text, blocks }
}

/// The model of a block that carries text in the given mode.
pub open spec fn text_block_model(msg_type: MsgType, txt_type: TextType, text: Seq<char>) -> BlockModel {
    BlockModel { msg_type, text: Some(BlockTextModel { txt_type, text }) }
}

/// The model of a block without text.
pub open spec fn bare_block_model(msg_type: MsgType) -> BlockModel {
    BlockModel { msg_type, text: None }
}

/// The model of a header block: plain text by convention.
pub open spec fn header_model(text: Seq<char>) -> BlockModel {
    text_block_model(MsgType::Header, TextType::PlainText, text)
}

/// The model of a section block: mrkdwn by convention.
pub open spec fn section_model(text: Seq<char>) -> BlockModel {
    text_block_model(MsgType::Section, TextType::Mrkdwn, text)
}

/// The model of a divider block: never any text.
pub open spec fn divider_model() -> BlockModel {
    bare_block_model(MsgType::Divider)
}

/// The models of a sequence of owned blocks.
pub open spec fn blocks_model(s: Seq<OwnedBlock>) -> Seq<BlockModel> {
    s.map_values(|b: OwnedBlock| b@)
}

/// The text of a block, as it stands on the wire.
#[derive(Debug)]
pub struct BlockText {
    pub txt_type: TextType,
    pub text: String,
}

impl View for BlockText {
    type V = BlockTextModel;

    open spec fn view(&self) -> BlockTextModel {
        BlockTextModel { txt_type: self.txt_type, text: self.text@ }
    }
}

/// One layout block of a message.
#[derive(Debug)]
pub struct Block {
    pub msg_type: MsgType,
    pub text: Option<BlockText>,
}

impl View for Block {
    type V = BlockModel;

    open spec fn view(&self) -> BlockModel {
        BlockModel {
            msg_type: self.msg_type,
            text: match self.text {
                Some(t) => Some(t@),
                None => None,
            },
        }
    }
}

impl Block {
    /// Build a block of the given kind; when text is given it carries the
    /// given render mode.
    pub fn new(msg_type: MsgType, txt_type: TextType, text: Option<String>) -> (r: Block)
        ensures
            text matches Some(t) ==> r@ == text_block_model(msg_type, txt_type, t@),
            text is None ==> r@ == bare_block_model(msg_type),
    {
        Block {
            msg_type,
            text: match text {
                Some(text) => Some(BlockText { txt_type, text }),
                None => None,
            },
        }
    }

    /// A header block: plain text by convention.
    pub fn header(text: String) -> (r: Block)
        ensures
            r@ == header_model(text@),
    {
        Block::new(MsgType::Header, TextType::PlainText, Some(text))
    }

    /// A section block: mrkdwn by convention.
    pub fn section(text: String) -> (r: Block)
        ensures
            r@ == section_model(text@),
    {
        Block::new(MsgType::Section, TextType::Mrkdwn, Some(text))
    }

    /// A divider block: carries no text.
    pub fn divider() -> (r: Block)
        ensures
            r@ == divider_model(),
    {
        Block { msg_type: MsgType::Divider, text: None }
    }
}

/// The text carried by an independently owned block.
#[derive(Debug)]
pub struct OwnedBlockText {
    pub txt_type: TextType,
    pub text: String,
}

impl View for OwnedBlockText {
    type V = BlockTextModel;

    open spec fn view(&self) -> BlockTextModel {
        BlockTextModel { txt_type: self.txt_type, text: self.text@ }
    }
}

impl Clone for OwnedBlockText {
    fn clone(&self) -> (r: Self)
        ensures
            r@ == self@,
    {
        OwnedBlockText { txt_type: self.txt_type, text: self.text.clone() }
    }
}

impl OwnedBlockText {
    /// The same text as a borrow-free block text value.
    pub fn as_block_text(&self) -> (r: BlockText)
        ensures
            r@ == self@,
    {
        BlockText { txt_type: self.txt_type, text: self.text.clone() }
    }
}

/// An independently owned layout block, fit for accumulating and chunking.
#[derive(Debug)]
pub struct OwnedBlock {
    pub msg_type: MsgType,
    pub text: Option<OwnedBlockText>,
}

impl View for OwnedBlock {
    type V = BlockModel;

    open spec fn view(&self) -> BlockModel {
        BlockModel {
            msg_type: self.msg_type,
            text: match self.text {
                Some(t) => Some(t@),
                None => None,
            },
        }
    }
}

impl Clone for OwnedBlock {
    fn clone(&self) -> (r: Self)
        ensures
            r@ == self@,
    {
        OwnedBlock {
            msg_type: self.msg_type,
            text: match &self.text {
                Some(t) => Some(t.clone()),
                None => None,
            },
        }
    }
}

impl OwnedBlock {
    /// Build an owned block of the given kind; when text is given it carries
    /// the given render mode.
    pub fn new(msg_type: MsgType, txt_type: TextType, text: Option<String>) -> (r: OwnedBlock)
        ensures
            text matches Some(t) ==> r@ == text_block_model(msg_type, txt_type, t@),
            text is None ==> r@ == bare_block_model(msg_type),
    {
        OwnedBlock {
            msg_type,
            text: match text {
                Some(text) => Some(OwnedBlockText { txt_type, text }),
                None => None,
            },
        }
    }

    /// An owned header block: plain text by convention.
    pub fn header(text: String) -> (r: OwnedBlock)
        ensures
            r@ == header_model(text@),
    {
        OwnedBlock::new(MsgType::Header, TextType::PlainText, Some(text))
    }

    /// An owned section block: mrkdwn by convention.
    pub fn section(text: String) -> (r: OwnedBlock)
        ensures
            r@ == section_model(text@),
    {
        OwnedBlock::new(MsgType::Section, TextType::Mrkdwn, Some(text))
    }

    /// An owned divider block: carries no text.
    pub fn divider() -> (r: OwnedBlock)
        ensures
            r@ == divider_model(),
    {
        OwnedBlock { msg_type: MsgType::Divider, text: None }
    }

    /// The same block as a borrow-free block value; the two forms share one
    /// model and therefore one wire form.
    pub fn as_block(&self) -> (r: Block)
        ensures
            r@ == self@,
    {
        Block {
            msg_type: self.msg_type,
            text: match &self.text {
                Some(t) => Some(t.as_block_text()),
                None => None,
            },
        }
    }
}

/// The models of a sequence of borrow-free blocks.
pub open spec fn borrowed_blocks_model(s: Seq<Block>) -> Seq<BlockModel> {
    s.map_values(|b: Block| b@)
}

/// A message body: the fallback text and an optional sequence of blocks
/// built in place.
#[derive(Debug)]
pub struct SlackMessageBody {
    pub text: String,
    pub blocks: Option<Vec<Block>>,
}

impl View for SlackMessageBody {
    type V = MessageModel;

    open spec fn view(&self) -> MessageModel {
        MessageModel {
            text: self.text@,
            blocks: match self.blocks {
                Some(v) => Some(borrowed_blocks_model(v@)),
                None => None,
            },
        }
    }
}

impl SlackMessageBody {
    /// A message body from explicit parts.
    pub fn new(text: String, blocks: Option<Vec<Block>>) -> (r: SlackMessageBody)
        ensures
            r@.text == text@,
            blocks matches Some(v) ==> r@.blocks == Some(borrowed_blocks_model(v@)),
            blocks is None ==> r@.blocks is None,
    {
        SlackMessageBody { text, blocks }
    }

    /// The "with header" convenience shape: the fallback text repeats the
    /// header, the blocks are the header alone or the header followed by one
    /// section of further detail.
    pub fn with_header(header: String, info: Option<String>) -> (r: SlackMessageBody)
        ensures
            r@.text == header@,
            info matches Some(i) ==> r@.blocks == Some(
                seq![header_model(header@), section_model(i@)],
            ),
            info is None ==> r@.blocks == Some(seq![header_model(header@)]),
    {
        let text = header.clone();
        let ghost info_model: Option<Seq<char>> = match info {
            Some(ref i) => Some(i@),
            None => None,
        };
        let mut v: Vec<Block> = Vec::new();
        v.push(Block::header(header));
        if let Some(i) = info {
            v.push(Block::section(i));
        }
        proof {
            match info_model {
                Some(i) => {
                    assert(borrowed_blocks_model(v@) =~= seq![
                        header_model(text@),
                        section_model(i),
                    ]);
                },
                None => {
                    assert(borrowed_blocks_model(v@) =~= seq![header_model(text@)]);
                },
            }
        }
        SlackMessageBody { text, blocks: Some(v) }
    }

    /// The "markdown only" convenience shape: one mrkdwn section carrying
    /// the same string as the fallback text.
    pub fn mrkdwn(text: String) -> (r: SlackMessageBody)
        ensures
            r@.text == text@,
            r@.blocks == Some(seq![section_model(text@)]),
    {
        let fallback = text.clone();
        let mut v: Vec<Block> = Vec::new();
        v.push(Block::section(text));
        proof {
            assert(borrowed_blocks_model(v@) =~= seq![section_model(fallback@)]);
        }
        SlackMessageBody { text: fallback, blocks: Some(v) }
    }
}

/// A message body over independently owned blocks; it shares its model, and
/// therefore its wire form, with `SlackMessageBody`.
#[derive(Debug)]
pub struct OwnedSlackMessageBody {
    pub text: String,
    pub blocks: Option<Vec<OwnedBlock>>,
}

impl View for OwnedSlackMessageBody {
    type V = MessageModel;

    open spec fn view(&self) -> MessageModel {
        MessageModel {
            text: self.text@,
            blocks: match self.blocks {
                Some(v) => Some(blocks_model(v@)),
                None => None,
            },
        }
    }
}

impl OwnedSlackMessageBody {
    /// An owned message body from explicit parts.
    pub fn new(text: String, blocks: Option<Vec<OwnedBlock>>) -> (r: OwnedSlackMessageBody)
        ensures
            r@.text == text@,
            blocks matches Some(v) ==> r@.blocks == Some(blocks_model(v@)),
            blocks is None ==> r@.blocks is None,
    {
        OwnedSlackMessageBody { text, blocks }
    }
}

/// How many chunks a sequence of the given length splits into, when grouped
/// in runs of `size` (the last run possibly shorter).
pub open spec fn spec_chunk_count(len: int, size: int) -> int
    recommends
        size >= 1,
{
    (len + size - 1) / size
}

/// The model of the `i`-th chunk of `s` under chunk size `size`.
pub open spec fn spec_chunk(s: Seq<BlockModel>, size: int, i: int) -> Seq<BlockModel>
    recommends
        size >= 1,
        0 <= i < spec_chunk_count(s.len() as int, size),
{
    s.subrange(i * size, vstd::math::min((i + 1) * size, s.len() as int))
}

/// Chunking is purely positional: with chunk size `size`, a sequence splits
/// into `spec_chunk_count` consecutive groups; every group but the last has
/// exactly `size` elements, the last carries the remainder, and no group is
/// empty or longer than `size`.
pub proof fn lemma_chunk_sizes(s: Seq<BlockModel>, size: int, i: int)
    requires
        size >= 1,
        0 <= i < spec_chunk_count(s.len() as int, size),
    ensures
        i < spec_chunk_count(s.len() as int, size) - 1 ==> spec_chunk(s, size, i).len() == size,
        i == spec_chunk_count(s.len() as int, size) - 1 ==> spec_chunk(s, size, i).len() == s.len()
            - i * size,
        1 <= spec_chunk(s, size, i).len() <= size,
{
    let n = s.len() as int;
    let cnt = spec_chunk_count(n, size);
    assert(i * size < n && (i + 1) * size == i * size + size) by (nonlinear_arith)
        requires
            size >= 1,
            0 <= i,
            i < (n + size - 1) / size,
            n >= 0,
    ;
    if i < cnt - 1 {
        assert((i + 1) * size < n && (i + 2) * size == (i + 1) * size + size) by (nonlinear_arith)
            requires
                size >= 1,
                0 <= i + 1,
                i + 1 < (n + size - 1) / size,
                n >= 0,
        ;
    } else {
        assert(n <= (i + 1) * size) by (nonlinear_arith)
            requires
                size >= 1,
                n >= 0,
                i + 1 == (n + size - 1) / size,
        ;
    }
}

/// A growable collection of owned blocks, built incrementally and split into
/// fixed-size groups for chunked sending.
#[derive(Debug)]
pub struct OwnedBlocks(Vec<OwnedBlock>);

impl View for OwnedBlocks {
    type V = Seq<BlockModel>;

    closed spec fn view(&self) -> Seq<BlockModel> {
        blocks_model(self.0@)
    }
}

impl Clone for OwnedBlocks {
    fn clone(&self) -> (r: Self)
        ensures
            r@ == self@,
    {
        let mut v: Vec<OwnedBlock> = Vec::new();
        let mut i: usize = 0;
        while i < self.0.len()
            invariant
                i <= self.0.len(),
                v@.len() == i,
                forall|k: int| 0 <= k < i ==> v@[k]@ == self.0@[k]@,
            decreases self.0.len() - i,
        {
            v.push(self.0[i].clone());
            i += 1;
        }
        proof {
            assert(blocks_model(v@) =~= blocks_model(self.0@));
        }
        OwnedBlocks(v)
    }
}

impl Default for OwnedBlocks {
    /// An empty collection.
    fn default() -> (r: Self)
        ensures
            r@ == Seq::<BlockModel>::empty(),
    {
        proof {
            assert(blocks_model(Seq::<OwnedBlock>::empty()) =~= Seq::<BlockModel>::empty());
        }
        OwnedBlocks(Vec::new())
    }
}

impl OwnedBlocks {
    /// Append one block.
    pub fn push(&mut self, block: OwnedBlock)
        ensures
            final(self)@ == old(self)@.push(block@),
    {
        let ghost b = block@;
        self.0.push(block);
        proof {
            assert(blocks_model(self.0@) =~= blocks_model(old(self).0@).push(b));
        }
    }

    /// Append a freshly built block of the given kind and render mode.
    pub fn push_new(&mut self, msg_type: MsgType, txt_type: TextType, text: Option<String>)
        ensures
            text matches Some(t) ==> final(self)@ == old(self)@.push(
                text_block_model(msg_type, txt_type, t@),
            ),
            text is None ==> final(self)@ == old(self)@.push(bare_block_model(msg_type)),
    {
        self.push(OwnedBlock::new(msg_type, txt_type, text));
    }

    /// Append a header block.
    pub fn push_header(&mut self, text: String)
        ensures
            final(self)@ == old(self)@.push(header_model(text@)),
    {
        self.push(OwnedBlock::header(text));
    }

    /// Append a section block.
    pub fn push_section(&mut self, text: String)
        ensures
            final(self)@ == old(self)@.push(section_model(text@)),
    {
        self.push(OwnedBlock::section(text));
    }

    /// Append a divider block.
    pub fn push_divider(&mut self)
        ensures
            final(self)@ == old(self)@.push(divider_model()),
    {
        self.push(OwnedBlock::divider());
    }

    /// Split the collection into consecutive groups of `chunk_size` blocks;
    /// grouping is purely positional and the final group may be shorter.
    pub fn chunks(&self, chunk_size: usize) -> (r: Vec<Vec<OwnedBlock>>)
        requires
            chunk_size >= 1,
        ensures
            r@.len() == spec_chunk_count(self@.len() as int, chunk_size as int),
            forall|i: int| 0 <= i < r@.len() ==> #[trigger] blocks_model(r@[i]@) == spec_chunk(
                self@,
                chunk_size as int,
                i,
            ),
    {
        let ghost cs = chunk_size as int;
        let ghost n_spec = self.0@.len() as int;
        let n = self.0.len();
        let mut r: Vec<Vec<OwnedBlock>> = Vec::new();
        let mut start: usize = 0;
        proof {
            assert(spec_chunk_count(0, cs) == 0) by (nonlinear_arith)
                requires
                    cs >= 1,
            ;
            assert(0int == 0 * cs) by (nonlinear_arith);
        }
        while start < n
            invariant
                n == self.0.len(),
                chunk_size >= 1,
                cs == chunk_size as int,
                n_spec == n as int,
                start <= n,
                start < n ==> start as int == r@.len() * cs,
                start == n ==> r@.len() == spec_chunk_count(n_spec, cs),
                forall|i: int| 0 <= i < r@.len() ==> #[trigger] blocks_model(r@[i]@) == spec_chunk(
                    self@,
                    cs,
                    i,
                ),
            decreases n - start,
        {
            let end = if n - start > chunk_size {
                start + chunk_size
            } else {
                n
            };
            let ghost start0 = start as int;
            let ghost len0 = r@.len() as int;
            let mut chunk: Vec<OwnedBlock> = Vec::new();
            let mut j = start;
            while j < end
                invariant
                    n == self.0.len(),
                    start <= j <= end <= n,
                    chunk@.len() == j - start,
                    forall|k: int| 0 <= k < chunk@.len() ==> #[trigger] chunk@[k]@ == self.0@[
                        start + k
                    ]@,
                decreases end - j,
            {
                chunk.push(self.0[j].clone());
                j += 1;
            }
            proof {
                assert(start0 == len0 * cs);
                assert(end as int == vstd::math::min((len0 + 1) * cs, n_spec)) by (nonlinear_arith)
                    requires
                        cs >= 1,
                        start0 == len0 * cs,
                        start0 < n_spec,
                        n_spec == n as int,
                        end as int == if n_spec - start0 > cs {
                            start0 + cs
                        } else {
                            n_spec
                        },
                ;
                assert(blocks_model(chunk@) =~= spec_chunk(self@, cs, len0));
            }
            r.push(chunk);
            start = end;
            proof {
                if start == n {
                    assert(r@.len() == spec_chunk_count(n_spec, cs)) by (nonlinear_arith)
                        requires
                            cs >= 1,
                            r@.len() == len0 + 1,
                            len0 * cs < n_spec,
                            n_spec <= (len0 + 1) * cs,
                    ;
                } else {
                    assert(end as int == (len0 + 1) * cs);
                    assert(start as int == r@.len() * cs);
                }
            }
        }
        r
    }

    /// Borrow the underlying block vector.
    pub fn inner(&self) -> (r: &Vec<OwnedBlock>)
        ensures
            blocks_model(r@) == self@,
    {
        &self.0
    }

    /// Borrow the underlying block vector mutably.
    pub fn inner_mut(&mut self) -> (r: &mut Vec<OwnedBlock>)
        ensures
            blocks_model(r@) == old(self)@,
            final(self)@ == blocks_model(final(r)@),
    {
        &mut self.0
    }

    /// Give up the collection for its underlying block vector.
    pub fn into_inner(self) -> (r: Vec<OwnedBlock>)
        ensures
            blocks_model(r@) == self@,
    {
        self.0
    }
}

impl From<Vec<OwnedBlock>> for OwnedBlocks {
    /// Wrap an already built block vector.
    fn from(value: Vec<OwnedBlock>) -> (r: OwnedBlocks)
        ensures
            r@ == blocks_model(value@),
    {
        OwnedBlocks(value)
    }
}

impl vstd::std_specs::convert::FromSpecImpl<Vec<OwnedBlock>> for OwnedBlocks {
    open spec fn obeys_from_spec() -> bool {
        true
    }

    closed spec fn from_spec(t: Vec<OwnedBlock>) -> OwnedBlocks {
        OwnedBlocks(t)
    }
}

} // verus!

