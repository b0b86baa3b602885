//! The block and block-header boundary.
//!
//! Blocks and block headers cross the boundary as handles into two tables, one
//! for each kind, and each kind of handle is a type of its own.  The wallet
//! library decodes the raw bytes and renders the hashes; this module decides
//! what a caller gets for each outcome, and keeps the books on what is alive.

use vstd::prelude::*;
use crate::handle::{Handle, HandleTable, Ledger};
use crate::types::{BccResult, RESULT_FAILURE, RESULT_SUCCESS};

verus! {

/// Handle of a block.  It is a type of its own: a block's handle is no block
/// header's handle, though the two tables may issue the same slot and
/// generation.
#[derive(Clone, Copy, Debug, PartialEq, Eq, Structural)]
pub struct BlockPtr(pub Handle);

/// Handle of a block header.
#[derive(Clone, Copy, Debug, PartialEq, Eq, Structural)]
pub struct BlockHeaderPtr(pub Handle);

impl BlockPtr {
    /// The block handle that names nothing.
    pub open spec fn spec_null() -> BlockPtr {
        BlockPtr(Handle::null())
    }

    /// The block handle that names nothing: no table ever issues it.
    #[verifier::when_used_as_spec(spec_null)]
    pub fn null() -> (block: BlockPtr)
        ensures
            block == BlockPtr::null(),
    {
        BlockPtr(Handle::null())
    }
}

impl BlockHeaderPtr {
    /// The block header handle that names nothing.
    pub open spec fn spec_null() -> BlockHeaderPtr {
        BlockHeaderPtr(Handle::null())
    }

    /// The block header handle that names nothing: no table ever issues it.
    #[verifier::when_used_as_spec(spec_null)]
    pub fn null() -> (header: BlockHeaderPtr)
        ensures
            header == BlockHeaderPtr::null(),
    {
        BlockHeaderPtr(Handle::null())
    }
}

/// What this boundary reads of a block header: the display text of the hash of
/// the header before it, and the display text of its own hash, each as the
/// wallet library renders it.
#[derive(Debug)]
pub struct BlockHeader {
    previous_header: Vec<u8>,
    hash: Vec<u8>,
}

/// The two texts of a [`BlockHeader`].
pub struct BlockHeaderText {
    pub previous_header: Seq<u8>,
    pub hash: Seq<u8>,
}

impl View for BlockHeader {
    type V = BlockHeaderText;

    closed spec fn view(&self) -> BlockHeaderText {
        BlockHeaderText { previous_header: self.previous_header@, hash: self.hash@ }
    }
}

/// A copy of `text` in memory of its own.
fn copy_text(text: &Vec<u8>) -> (copy: Vec<u8>)
    ensures
        copy@ == text@,
{
    let mut copy: Vec<u8> = Vec::new();
    let mut i: usize = 0;
    while i < text.len()
        invariant
            i <= text@.len(),
            copy@ == text@.subrange(0, i as int),
        decreases text@.len() - i,
    {
        copy.push(text[i]);
        i += 1;
        assert(copy@ =~= text@.subrange(0, i as int));
    }
    assert(copy@ =~= text@);
    copy
}

impl BlockHeader {
    /// A header with these two display texts.
    pub fn new(previous_header: Vec<u8>, hash: Vec<u8>) -> (header: BlockHeader)
        ensures
            header@.previous_header == previous_header@,
            header@.hash == hash@,
    {
        BlockHeader { previous_header, hash }
    }

    /// The display text of the hash of the header before this one.
    pub fn get_previous_header(&self) -> (text: &Vec<u8>)
        ensures
            text@ == self@.previous_header,
    {
        &self.previous_header
    }

    /// The display text of this header's own hash.
    pub fn compute_hash(&self) -> (text: &Vec<u8>)
        ensures
            text@ == self@.hash,
    {
        &self.hash
    }

    /// A header with the same texts, in memory of its own.
    pub fn copy(&self) -> (header: BlockHeader)
        ensures
            header@ == self@,
    {
        BlockHeader {
            previous_header: copy_text(&self.previous_header),
            hash: copy_text(&self.hash),
        }
    }
}

/// What this boundary reads of a block.  A block is of one of two kinds, and
/// only a main block carries transactions.
#[derive(Debug)]
pub enum Block<T> {
    BoundaryBlock(BlockHeader),
    MainBlock(BlockHeader, Vec<T>),
}

impl<T> Block<T> {
    /// The block's header.
    pub open spec fn spec_header(&self) -> &BlockHeader {
        match self {
            Block::BoundaryBlock(header) => header,
            Block::MainBlock(header, _) => header,
        }
    }

    /// The block's header.
    #[verifier::when_used_as_spec(spec_header)]
    pub fn header(&self) -> (header: &BlockHeader)
        ensures
            header == self.header(),
    {
        match self {
            Block::BoundaryBlock(header) => header,
            Block::MainBlock(header, _) => header,
        }
    }

    /// The transactions that the block carries, where it is of the kind that
    /// carries any.
    pub open spec fn transactions(&self) -> Option<Seq<T>> {
        match self {
            Block::BoundaryBlock(_) => None,
            Block::MainBlock(_, transactions) => Some(transactions@),
        }
    }
}

/// A reference to one transaction of a main block.  It borrows from the block:
/// it names the block and the transaction's place in it, owns nothing, and
/// refers to something only while the block is alive.
#[derive(Clone, Copy, Debug, PartialEq, Eq, Structural)]
pub struct SignedTransactionPtr {
    pub block: BlockPtr,
    pub index: usize,
}

impl SignedTransactionPtr {
    /// The transaction that this reference names among `blocks`, if any.
    pub open spec fn target<T>(self, blocks: Ledger<Block<T>>) -> Option<T> {
        if blocks.live.dom().contains(self.block.0) {
            match blocks.live[self.block.0].transactions() {
                Some(transactions) => if self.index < transactions.len() {
                    Some(transactions[self.index as int])
                } else {
                    None
                },
                None => None,
            }
        } else {
            None
        }
    }

    /// The transaction that this reference names, if its block is alive and has
    /// a transaction at that place.
    pub fn get<'a, T>(&self, blocks: &'a HandleTable<Block<T>>) -> (transaction: Option<&'a T>)
        ensures
            match transaction {
                Some(found) => self.target(blocks@) == Some(*found),
                None => self.target(blocks@) is None,
            },
    {
        if !blocks.contains(self.block.0) {
            return None;
        }
        match blocks.get(self.block.0) {
            Block::BoundaryBlock(_) => None,
            Block::MainBlock(_, transactions) => {
                if self.index < transactions.len() {
                    Some(&transactions[self.index])
                } else {
                    None
                }
            },
        }
    }
}

/// The references to the first `count` transactions of `block`, in block order.
pub open spec fn transaction_spine(block: BlockPtr, count: nat) -> Seq<SignedTransactionPtr> {
    Seq::new(count, |i: int| SignedTransactionPtr { block, index: i as usize })
}

/// Takes in a block that the wallet library decoded from raw bytes.
///
/// `decoded` is the block, or `None` where the bytes were no block.  Raw bytes
/// that were no block change nothing: no handle is written, none is issued.
pub fn bcc_raw_block_decode<T>(
    blocks: &mut HandleTable<Block<T>>,
    decoded: Option<Block<T>>,
    out: &mut BlockPtr,
) -> (result: BccResult)
    requires
        old(blocks).wf(),
    ensures
        final(blocks).wf(),
        match decoded {
            Some(block) => {
                &&& result.0 == RESULT_SUCCESS
                &&& old(blocks)@.is_fresh(final(out).0)
                &&& final(blocks)@ == old(blocks)@.create(final(out).0, block)
            },
            None => {
                &&& result.0 == RESULT_FAILURE
                &&& *final(out) == *old(out)
                &&& final(blocks)@ == old(blocks)@
            },
        },
{
    let block = match decoded {
        Some(block) => block,
        None => {
            return BccResult::failure();
        },
    };
    *out = BlockPtr(blocks.create(block));
    BccResult::success()
}

/// Destroys a block.  References to its transactions refer to nothing from now
/// on.
pub fn bcc_block_delete<T>(blocks: &mut HandleTable<Block<T>>, block: BlockPtr)
    requires
        old(blocks).wf(),
        old(blocks)@.live.dom().contains(block.0),
    ensures
        final(blocks).wf(),
        final(blocks)@ == old(blocks)@.destroy(block.0),
{
    let _destroyed: Block<T> = blocks.destroy(block.0);
}

/// Lists the transactions of a block as an array of references, returned
/// through a pair of out-parameters.  A boundary block has no transactions to
/// list: that is a failure, not an empty array.
///
/// The array belongs to the caller, who gives it back with
/// [`bcc_block_delete_transactions`]; the transactions stay the block's.
pub fn bcc_block_get_transactions<T>(
    blocks: &HandleTable<Block<T>>,
    block: BlockPtr,
    out_pointer: &mut Vec<SignedTransactionPtr>,
    size: &mut usize,
) -> (result: BccResult)
    requires
        blocks@.live.dom().contains(block.0),
    ensures
        match blocks@.live[block.0].transactions() {
            Some(transactions) => {
                &&& result.0 == RESULT_SUCCESS
                &&& final(out_pointer)@ == transaction_spine(block, transactions.len())
                &&& *final(size) == transactions.len()
            },
            None => {
                &&& result.0 == RESULT_FAILURE
                &&& *final(out_pointer) == *old(out_pointer)
                &&& *final(size) == *old(size)
            },
        },
{
    let payload = match blocks.get(block.0) {
        Block::BoundaryBlock(_) => {
            return BccResult::failure();
        },
        Block::MainBlock(_, transactions) => transactions,
    };
    let mut txs: Vec<SignedTransactionPtr> = Vec::new();
    let mut i: usize = 0;
    while i < payload.len()
        invariant
            i <= payload@.len(),
            txs@ == transaction_spine(block, i as nat),
        decreases payload@.len() - i,
    {
        txs.push(SignedTransactionPtr { block, index: i });
        i += 1;
        assert(txs@ =~= transaction_spine(block, i as nat));
    }
    *size = txs.len();
    *out_pointer = txs;
    BccResult::success()
}

/// Takes back an array of references that [`bcc_block_get_transactions`]
/// handed out, by value and in the shape in which it was allocated.  Only the
/// array goes: no block is touched, and no transaction.
pub fn bcc_block_delete_transactions(pointer: Vec<SignedTransactionPtr>, size: usize)
    requires
        pointer@.len() == size,
{
    let _released: Vec<SignedTransactionPtr> = pointer;
}

/// Issues a handle for a copy of a block's header.  The copy owns its memory:
/// it outlives the block, and is retired with [`bcc_block_header_delete`].
pub fn bcc_block_get_header<T>(
    blocks: &HandleTable<Block<T>>,
    block: BlockPtr,
    headers: &mut HandleTable<BlockHeader>,
) -> (header: BlockHeaderPtr)
    requires
        blocks@.live.dom().contains(block.0),
        old(headers).wf(),
    ensures
        final(headers).wf(),
        old(headers)@.is_fresh(header.0),
        final(headers)@ == old(headers)@.create(header.0, final(headers)@.live[header.0]),
        final(headers)@.live[header.0]@ == blocks@.live[block.0].header()@,
{
    let copy: BlockHeader = blocks.get(block.0).header().copy();
    BlockHeaderPtr(headers.create(copy))
}

/// Takes in a block header that the wallet library decoded from raw bytes.
///
/// `decoded` is the header, or `None` where the bytes were no header.  Raw
/// bytes that were no header change nothing: no handle is written, none is
/// issued.
pub fn bcc_raw_block_header_decode(
    headers: &mut HandleTable<BlockHeader>,
    decoded: Option<BlockHeader>,
    out_header: &mut BlockHeaderPtr,
) -> (result: BccResult)
    requires
        old(headers).wf(),
    ensures
        final(headers).wf(),
        match decoded {
            Some(header) => {
                &&& result.0 == RESULT_SUCCESS
                &&& old(headers)@.is_fresh(final(out_header).0)
                &&& final(headers)@ == old(headers)@.create(final(out_header).0, header)
            },
            None => {
                &&& result.0 == RESULT_FAILURE
                &&& *final(out_header) == *old(out_header)
                &&& final(headers)@ == old(headers)@
            },
        },
{
    let header = match decoded {
        Some(header) => header,
        None => {
            return BccResult::failure();
        },
    };
    *out_header = BlockHeaderPtr(headers.create(header));
    BccResult::success()
}

/// A text for a caller that reads up to the first zero byte: the text, then
/// one zero byte, and no zero byte before that.
#[derive(Debug)]
pub struct HashString {
    bytes: Vec<u8>,
}

impl View for HashString {
    type V = Seq<u8>;

    /// The text, without the zero byte that ends it.
    closed spec fn view(&self) -> Seq<u8> {
        self.bytes@.drop_last()
    }
}

impl HashString {
    #[verifier::type_invariant]
    spec fn terminated(self) -> bool {
        &&& self.bytes@.len() > 0
        &&& self.bytes@.last() == 0
        &&& !self.bytes@.drop_last().contains(0)
    }

    /// The zero-terminated copy of `text`, or `None` where `text` holds a zero
    /// byte itself and so cannot be told from a shorter text.
    pub fn new(text: &Vec<u8>) -> (terminated: Option<HashString>)
        ensures
            match terminated {
                Some(string) => string@ == text@ && !text@.contains(0),
                None => text@.contains(0),
            },
    {
        let mut bytes: Vec<u8> = Vec::new();
        let mut i: usize = 0;
        while i < text.len()
            invariant
                i <= text@.len(),
                bytes@ == text@.subrange(0, i as int),
                forall|k: int| 0 <= k < i ==> text@[k] != 0,
            decreases text@.len() - i,
        {
            if text[i] == 0 {
                assert(text@[i as int] == 0);
                return None;
            }
            bytes.push(text[i]);
            i += 1;
            assert(bytes@ =~= text@.subrange(0, i as int));
        }
        assert(bytes@ =~= text@);
        bytes.push(0);
        assert(bytes@.drop_last() =~= text@);
        Some(HashString { bytes })
    }

    /// The bytes as the caller reads them: the text and the zero byte.
    pub fn as_bytes_with_nul(&self) -> (bytes: &Vec<u8>)
        ensures
            bytes@ == self@.push(0),
            !self@.contains(0),
    {
        proof {
            use_type_invariant(self);
            assert(self.bytes@ =~= self.bytes@.drop_last().push(0));
        }
        &self.bytes
    }
}

/// The display text of the hash of the header before `header`, zero-terminated
/// for the caller, who gives it back with [`bcc_block_delete_hash`].  `None`
/// where the text cannot be zero-terminated.
pub fn bcc_block_header_previous_hash(
    headers: &HandleTable<BlockHeader>,
    header: BlockHeaderPtr,
) -> (hash: Option<HashString>)
    requires
        headers@.live.dom().contains(header.0),
    ensures
        match hash {
            Some(string) => {
                &&& string@ == headers@.live[header.0]@.previous_header
                &&& !string@.contains(0)
            },
            None => headers@.live[header.0]@.previous_header.contains(0),
        },
{
    HashString::new(headers.get(header.0).get_previous_header())
}

/// The display text of the hash of `header` itself, zero-terminated for the
/// caller, who gives it back with [`bcc_block_delete_hash`].  `None` where the
/// text cannot be zero-terminated.
pub fn bcc_block_header_compute_hash(
    headers: &HandleTable<BlockHeader>,
    header: BlockHeaderPtr,
) -> (hash: Option<HashString>)
    requires
        headers@.live.dom().contains(header.0),
    ensures
        match hash {
            Some(string) => {
                &&& string@ == headers@.live[header.0]@.hash
                &&& !string@.contains(0)
            },
            None => headers@.live[header.0]@.hash.contains(0),
        },
{
    HashString::new(headers.get(header.0).compute_hash())
}

/// Takes back a text that one of the hash accessors handed out.  It is taken
/// by value, so once, and it is a text: a byte array is given back with
/// the operation for byte arrays.
pub fn bcc_block_delete_hash(hash: HashString) {
    let _released: HashString = hash;
}

/// Destroys a block header.
pub fn bcc_block_header_delete(headers: &mut HandleTable<BlockHeader>, header: BlockHeaderPtr)
    requires
        old(headers).wf(),
        old(headers)@.live.dom().contains(header.0),
    ensures
        final(headers).wf(),
        final(headers)@ == old(headers)@.destroy(header.0),
{
    let _destroyed: BlockHeader = headers.destroy(header.0);
}

/// Each reference that [`bcc_block_get_transactions`] lists for a main block
/// names the transaction at its place in the block.
pub proof fn lemma_spine_names_transactions<T>(blocks: Ledger<Block<T>>, block: BlockPtr, i: int)
    requires
        blocks.live.dom().contains(block.0),
        blocks.live[block.0].transactions() is Some,
        0 <= i < blocks.live[block.0].transactions()->0.len(),
        blocks.live[block.0].transactions()->0.len() <= usize::MAX,
    ensures
        transaction_spine(block, blocks.live[block.0].transactions()->0.len())[i].target(blocks)
            == Some(blocks.live[block.0].transactions()->0[i]),
{
}

/// A reference to a transaction refers to nothing once its block is destroyed,
/// and not again whatever is created later.
pub proof fn lemma_reference_dies_with_block<T>(
    blocks: Ledger<Block<T>>,
    transaction: SignedTransactionPtr,
)
    requires
        blocks.wf(),
        blocks.live.dom().contains(transaction.block.0),
    ensures
        transaction.target(blocks.destroy(transaction.block.0)) is None,
        forall|h: Handle, later: Block<T>|
            blocks.destroy(transaction.block.0).is_fresh(h) ==> transaction.target(
                #[trigger] blocks.destroy(transaction.block.0).create(h, later),
            ) is None,
{
}

} // verus!
