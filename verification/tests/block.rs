use bcc_c::block::{
    bcc_block_delete, bcc_block_delete_hash, bcc_block_delete_transactions, bcc_block_get_header,
    bcc_block_get_transactions, bcc_block_header_compute_hash, bcc_block_header_delete,
    bcc_block_header_previous_hash, bcc_raw_block_decode, bcc_raw_block_header_decode, Block,
    BlockHeader, BlockHeaderPtr, BlockPtr, HashString, SignedTransactionPtr,
};
use bcc_c::handle::HandleTable;
use bcc_c::types::BccResult;

fn header(previous: &str, hash: &str) -> BlockHeader {
    BlockHeader::new(previous.as_bytes().to_vec(), hash.as_bytes().to_vec())
}

fn main_block() -> Block<String> {
    Block::MainBlock(
        header("00aa", "11bb"),
        vec![String::from("tx0"), String::from("tx1"), String::from("tx2")],
    )
}

#[test]
fn bytes_that_are_no_block_write_no_handle() {
    let mut blocks: HandleTable<Block<String>> = HandleTable::new();
    let mut out: BlockPtr = BlockPtr::null();
    let result = bcc_raw_block_decode(&mut blocks, None, &mut out);
    assert_eq!(result, BccResult::failure());
    assert_eq!(out, BlockPtr::null());
    assert!(!blocks.contains(out.0));
}

#[test]
fn bytes_that_are_no_block_leave_an_earlier_handle_in_place() {
    let mut blocks: HandleTable<Block<String>> = HandleTable::new();
    let mut out: BlockPtr = BlockPtr::null();
    assert_eq!(bcc_raw_block_decode(&mut blocks, Some(main_block()), &mut out).code(), 0);
    let earlier: BlockPtr = out;
    assert_eq!(bcc_raw_block_decode(&mut blocks, None, &mut out).code(), 1);
    assert_eq!(out, earlier);
    assert!(blocks.contains(earlier.0));
}

#[test]
fn a_decoded_block_lives_under_the_handle_written() {
    let mut blocks: HandleTable<Block<String>> = HandleTable::new();
    let mut out: BlockPtr = BlockPtr::null();
    let result = bcc_raw_block_decode(&mut blocks, Some(main_block()), &mut out);
    assert_eq!(result, BccResult::success());
    assert_ne!(out, BlockPtr::null());
    assert!(blocks.contains(out.0));
    assert!(matches!(blocks.get(out.0), Block::MainBlock(_, txs) if txs.len() == 3));
    bcc_block_delete(&mut blocks, out);
    assert!(!blocks.contains(out.0));
}

#[test]
fn bytes_that_are_no_header_write_no_handle() {
    let mut headers: HandleTable<BlockHeader> = HandleTable::new();
    let mut out: BlockHeaderPtr = BlockHeaderPtr::null();
    let result = bcc_raw_block_header_decode(&mut headers, None, &mut out);
    assert_eq!(result, BccResult::failure());
    assert_eq!(out, BlockHeaderPtr::null());
    assert!(!headers.contains(out.0));
}

#[test]
fn a_decoded_header_lives_until_it_is_deleted() {
    let mut headers: HandleTable<BlockHeader> = HandleTable::new();
    let mut out: BlockHeaderPtr = BlockHeaderPtr::null();
    let result = bcc_raw_block_header_decode(&mut headers, Some(header("ab", "cd")), &mut out);
    assert_eq!(result, BccResult::success());
    assert!(headers.contains(out.0));
    assert_eq!(headers.get(out.0).get_previous_header(), b"ab");
    assert_eq!(headers.get(out.0).compute_hash(), b"cd");
    bcc_block_header_delete(&mut headers, out);
    assert!(!headers.contains(out.0));
}

#[test]
fn a_boundary_block_has_no_transaction_list() {
    let mut blocks: HandleTable<Block<String>> = HandleTable::new();
    let mut block: BlockPtr = BlockPtr::null();
    bcc_raw_block_decode(&mut blocks, Some(Block::BoundaryBlock(header("p", "h"))), &mut block);
    let sentinel = SignedTransactionPtr { block: BlockPtr::null(), index: 77 };
    let mut spine: Vec<SignedTransactionPtr> = vec![sentinel];
    let mut size: usize = 1;
    let result = bcc_block_get_transactions(&blocks, block, &mut spine, &mut size);
    assert_eq!(result, BccResult::failure());
    assert_eq!(spine, vec![sentinel]);
    assert_eq!(size, 1);
}

#[test]
fn a_main_block_lists_its_transactions_in_order() {
    let mut blocks: HandleTable<Block<String>> = HandleTable::new();
    let mut block: BlockPtr = BlockPtr::null();
    bcc_raw_block_decode(&mut blocks, Some(main_block()), &mut block);
    let mut spine: Vec<SignedTransactionPtr> = Vec::new();
    let mut size: usize = 0;
    let result = bcc_block_get_transactions(&blocks, block, &mut spine, &mut size);
    assert_eq!(result, BccResult::success());
    assert_eq!(size, 3);
    assert_eq!(
        spine,
        vec![
            SignedTransactionPtr { block, index: 0 },
            SignedTransactionPtr { block, index: 1 },
            SignedTransactionPtr { block, index: 2 },
        ]
    );
    assert_eq!(spine[0].get(&blocks), Some(&String::from("tx0")));
    assert_eq!(spine[1].get(&blocks), Some(&String::from("tx1")));
    assert_eq!(spine[2].get(&blocks), Some(&String::from("tx2")));
    bcc_block_delete_transactions(spine, size);
    assert!(blocks.contains(block.0));
}

#[test]
fn a_main_block_without_transactions_lists_none_and_succeeds() {
    let mut blocks: HandleTable<Block<String>> = HandleTable::new();
    let mut block: BlockPtr = BlockPtr::null();
    bcc_raw_block_decode(
        &mut blocks,
        Some(Block::MainBlock(header("p", "h"), Vec::new())),
        &mut block,
    );
    let mut spine: Vec<SignedTransactionPtr> =
        vec![SignedTransactionPtr { block: BlockPtr::null(), index: 0 }];
    let mut size: usize = 1;
    let result = bcc_block_get_transactions(&blocks, block, &mut spine, &mut size);
    assert_eq!(result, BccResult::success());
    assert!(spine.is_empty());
    assert_eq!(size, 0);
}

#[test]
fn references_die_with_their_block() {
    let mut blocks: HandleTable<Block<String>> = HandleTable::new();
    let mut block: BlockPtr = BlockPtr::null();
    bcc_raw_block_decode(&mut blocks, Some(main_block()), &mut block);
    let mut spine: Vec<SignedTransactionPtr> = Vec::new();
    let mut size: usize = 0;
    bcc_block_get_transactions(&blocks, block, &mut spine, &mut size);
    bcc_block_delete(&mut blocks, block);
    assert_eq!(spine[0].get(&blocks), None);
    let mut later: BlockPtr = BlockPtr::null();
    bcc_raw_block_decode(&mut blocks, Some(main_block()), &mut later);
    assert_ne!(later, block);
    assert_eq!(spine[0].get(&blocks), None);
    assert_eq!(spine[2].get(&blocks), None);
}

#[test]
fn a_reference_past_the_last_transaction_names_nothing() {
    let mut blocks: HandleTable<Block<String>> = HandleTable::new();
    let mut block: BlockPtr = BlockPtr::null();
    bcc_raw_block_decode(&mut blocks, Some(main_block()), &mut block);
    assert_eq!(SignedTransactionPtr { block, index: 3 }.get(&blocks), None);
    let mut boundary: BlockPtr = BlockPtr::null();
    bcc_raw_block_decode(&mut blocks, Some(Block::BoundaryBlock(header("p", "h"))), &mut boundary);
    assert_eq!(SignedTransactionPtr { block: boundary, index: 0 }.get(&blocks), None);
}

#[test]
fn the_header_of_a_block_is_a_copy_that_outlives_it() {
    let mut blocks: HandleTable<Block<String>> = HandleTable::new();
    let mut headers: HandleTable<BlockHeader> = HandleTable::new();
    let mut block: BlockPtr = BlockPtr::null();
    bcc_raw_block_decode(&mut blocks, Some(main_block()), &mut block);
    let copy: BlockHeaderPtr = bcc_block_get_header(&blocks, block, &mut headers);
    assert!(headers.contains(copy.0));
    bcc_block_delete(&mut blocks, block);
    assert!(headers.contains(copy.0));
    assert_eq!(headers.get(copy.0).get_previous_header(), b"00aa");
    assert_eq!(headers.get(copy.0).compute_hash(), b"11bb");
    bcc_block_header_delete(&mut headers, copy);
    assert!(!headers.contains(copy.0));
}

#[test]
fn two_headers_of_one_block_are_two_objects() {
    let mut blocks: HandleTable<Block<String>> = HandleTable::new();
    let mut headers: HandleTable<BlockHeader> = HandleTable::new();
    let mut block: BlockPtr = BlockPtr::null();
    bcc_raw_block_decode(&mut blocks, Some(Block::BoundaryBlock(header("p", "h"))), &mut block);
    let first: BlockHeaderPtr = bcc_block_get_header(&blocks, block, &mut headers);
    let second: BlockHeaderPtr = bcc_block_get_header(&blocks, block, &mut headers);
    assert_ne!(first, second);
    bcc_block_header_delete(&mut headers, first);
    assert!(headers.contains(second.0));
    assert_eq!(headers.get(second.0).compute_hash(), b"h");
}

#[test]
fn hashes_are_returned_as_zero_terminated_text() {
    let previous = "5f20df933584822601f9e3f8c024eb5eb252fe8cefb24d1317dc3d432e940ebb";
    let own = "89d9b5a5b8ddc8d7e5a6795e9774d97faf1efea59b2caf7eaf9f8c5b32059df4";
    let mut headers: HandleTable<BlockHeader> = HandleTable::new();
    let mut h: BlockHeaderPtr = BlockHeaderPtr::null();
    bcc_raw_block_header_decode(&mut headers, Some(header(previous, own)), &mut h);

    let text: HashString = bcc_block_header_previous_hash(&headers, h).unwrap();
    let mut expected: Vec<u8> = previous.as_bytes().to_vec();
    expected.push(0);
    assert_eq!(text.as_bytes_with_nul(), &expected);
    assert_eq!(text.as_bytes_with_nul().len(), 65);
    bcc_block_delete_hash(text);

    let text: HashString = bcc_block_header_compute_hash(&headers, h).unwrap();
    let mut expected: Vec<u8> = own.as_bytes().to_vec();
    expected.push(0);
    assert_eq!(text.as_bytes_with_nul(), &expected);
    bcc_block_delete_hash(text);
}

#[test]
fn a_text_with_a_zero_byte_inside_cannot_be_terminated() {
    let mut headers: HandleTable<BlockHeader> = HandleTable::new();
    let mut h: BlockHeaderPtr = BlockHeaderPtr::null();
    let odd = BlockHeader::new(vec![b'a', 0, b'b'], vec![b'c', b'd']);
    bcc_raw_block_header_decode(&mut headers, Some(odd), &mut h);
    assert!(bcc_block_header_previous_hash(&headers, h).is_none());
    assert!(bcc_block_header_compute_hash(&headers, h).is_some());
    assert!(HashString::new(&vec![0]).is_none());
    assert!(HashString::new(&vec![1, 2, 0]).is_none());
}

#[test]
fn an_empty_text_is_one_zero_byte() {
    let text = HashString::new(&Vec::new()).unwrap();
    assert_eq!(text.as_bytes_with_nul(), &vec![0u8]);
}

#[test]
fn a_header_copy_has_the_same_texts() {
    let first = header("prev", "hash");
    let copy = first.copy();
    assert_eq!(copy.get_previous_header(), first.get_previous_header());
    assert_eq!(copy.compute_hash(), first.compute_hash());
}

#[test]
fn the_two_tables_keep_their_handles_apart_by_type() {
    let mut blocks: HandleTable<Block<String>> = HandleTable::new();
    let mut headers: HandleTable<BlockHeader> = HandleTable::new();
    let mut block: BlockPtr = BlockPtr::null();
    let mut head: BlockHeaderPtr = BlockHeaderPtr::null();
    bcc_raw_block_decode(&mut blocks, Some(main_block()), &mut block);
    bcc_raw_block_header_decode(&mut headers, Some(header("p", "h")), &mut head);
    // Each table counts its slots for itself, so the two first handles hold the
    // same slot and generation; what tells them apart is their type.
    assert_eq!(block.0, head.0);
    bcc_block_header_delete(&mut headers, head);
    assert!(blocks.contains(block.0));
    assert!(!headers.contains(head.0));
}

#[test]
fn the_null_handles_name_nothing() {
    let blocks: HandleTable<Block<String>> = HandleTable::new();
    let headers: HandleTable<BlockHeader> = HandleTable::new();
    assert!(BlockPtr::null().0.is_null());
    assert!(BlockHeaderPtr::null().0.is_null());
    assert!(!blocks.contains(BlockPtr::null().0));
    assert!(!headers.contains(BlockHeaderPtr::null().0));
}
