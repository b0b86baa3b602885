//! The mnemonic codec boundary.
//!
//! The wallet library owns the dictionary, the checksum and the set of
//! supported sizes.  This module owns what the boundary adds: which status a
//! caller sees for each thing the wallet library can answer, in which order the
//! wallet library is asked, how often the caller's randomness callback runs,
//! and how a result reaches the caller's out-parameters.

use vstd::prelude::*;
pub use crate::random::RandomSource;
use crate::types::{
    BccBIP39ErrorCode, BccResult, BIP39_INVALID_CHECKSUM, BIP39_INVALID_WORD,
    BIP39_INVALID_WORD_COUNT, BIP39_SUCCESS, RESULT_FAILURE, RESULT_SUCCESS,
};

verus! {

/// Returns a byte array through a pair of out-parameters: the array itself, and
/// its length in bytes as the fixed-width integer that the caller reads.  The
/// array now belongs to the caller, who gives it back with
/// [`bcc_delete_entropy_array`].
pub fn out_return_vector(to_return: Vec<u8>, out_pointer: &mut Vec<u8>, size: &mut u32)
    requires
        to_return@.len() <= u32::MAX,
    ensures
        final(out_pointer)@ == to_return@,
        *final(size) == to_return@.len(),
{
    let length: usize = to_return.len();
    *size = length as u32;
    *out_pointer = to_return;
}

/// Takes back an array that [`out_return_vector`] handed out.  `size` is the
/// length that was written beside it: an array is released in the shape in
/// which it was allocated, and by value, so once.
pub fn bcc_delete_entropy_array(ptr: Vec<u8>, size: u32)
    requires
        ptr@.len() == size,
{
    let _released: Vec<u8> = ptr;
}

/// The last index of the dictionary, which holds one word for each value of
/// eleven bits.
pub const MAX_MNEMONIC_VALUE: u16 = 2047;

/// Writes the word indices that stand for an entropy into the caller's array.
///
/// `mnemonics` is what the wallet library made of the entropy: its words in
/// phrase order, each as its index in the dictionary, or `None` where it does
/// not support an entropy of that length.  The caller's array has one slot for
/// each word.
pub fn bcc_bip39_encode(mnemonics: Option<Vec<u16>>, encoded: &mut [u16]) -> (result: BccResult)
    requires
        mnemonics matches Some(indices) ==> {
            &&& indices@.len() == old(encoded)@.len()
            &&& forall|i: int| 0 <= i < indices@.len() ==> indices@[i] <= MAX_MNEMONIC_VALUE
        },
    ensures
        match mnemonics {
            Some(indices) => {
                &&& result.0 == RESULT_SUCCESS
                &&& final(encoded)@ == indices@
                &&& forall|i: int|
                    0 <= i < final(encoded)@.len() ==> final(encoded)@[i] <= MAX_MNEMONIC_VALUE
            },
            None => result.0 == RESULT_FAILURE && final(encoded)@ == old(encoded)@,
        },
{
    let indices = match mnemonics {
        Some(indices) => indices,
        None => {
            return BccResult::failure();
        },
    };
    let mut i: usize = 0;
    while i < indices.len()
        invariant
            i <= indices@.len(),
            encoded@.len() == indices@.len(),
            forall|k: int| 0 <= k < i ==> encoded@[k] == indices@[k],
        decreases indices@.len() - i,
    {
        encoded[i] = indices[i];
        i += 1;
    }
    assert(encoded@ =~= indices@);
    BccResult::success()
}

/// What decoding a phrase waits for, or the status it ended with.
#[derive(Clone, Copy, Debug, PartialEq, Eq, Structural)]
pub enum MnemonicsStep {
    /// The wallet library is to map every word of the phrase against the
    /// dictionary.  Decoding starts here.
    LookUpWords,
    /// Every word was found; the wallet library is to validate the checksum
    /// that the words embed.
    ValidateChecksum,
    /// Decoding is over, with this status.
    Done(BccBIP39ErrorCode),
}

/// What the wallet library answered to a [`MnemonicsStep`].
#[derive(Debug)]
pub enum MnemonicsEvent {
    /// Every word of the phrase is in the dictionary, and a phrase can have
    /// that number of words.
    WordsFound,
    /// A word of the phrase is not in the dictionary.
    WordMissing,
    /// Every word of the phrase is in the dictionary, but no phrase has that
    /// number of words.
    WordCountUnsupported,
    /// The checksum matches, and this is the entropy.
    ChecksumValid(Vec<u8>),
    /// The checksum does not match.
    ChecksumInvalid,
}

/// The step that follows `step` once `event` has arrived.  An event that does
/// not answer `step` changes nothing.
pub open spec fn mnemonics_next(step: MnemonicsStep, event: MnemonicsEvent) -> MnemonicsStep {
    match (step, event) {
        (MnemonicsStep::LookUpWords, MnemonicsEvent::WordsFound) => MnemonicsStep::ValidateChecksum,
        (MnemonicsStep::LookUpWords, MnemonicsEvent::WordMissing) => MnemonicsStep::Done(
            BccBIP39ErrorCode(BIP39_INVALID_WORD),
        ),
        (MnemonicsStep::LookUpWords, MnemonicsEvent::WordCountUnsupported) => MnemonicsStep::Done(
            BccBIP39ErrorCode(BIP39_INVALID_WORD_COUNT),
        ),
        (MnemonicsStep::ValidateChecksum, MnemonicsEvent::ChecksumValid(_)) => MnemonicsStep::Done(
            BccBIP39ErrorCode(BIP39_SUCCESS),
        ),
        (MnemonicsStep::ValidateChecksum, MnemonicsEvent::ChecksumInvalid) => MnemonicsStep::Done(
            BccBIP39ErrorCode(BIP39_INVALID_CHECKSUM),
        ),
        _ => step,
    }
}

/// One step of retrieving the entropy from a mnemonic phrase.
///
/// The caller starts at [`MnemonicsStep::LookUpWords`], asks the wallet library
/// for what the current step names, and hands its answer in, until the step is
/// [`MnemonicsStep::Done`].  The entropy is written to the out-parameters in
/// the step that ends with success, and in no other.
pub fn bcc_entropy_from_english_mnemonics(
    step: MnemonicsStep,
    event: MnemonicsEvent,
    entropy_ptr: &mut Vec<u8>,
    entropy_size: &mut u32,
) -> (next: MnemonicsStep)
    requires
        event matches MnemonicsEvent::ChecksumValid(entropy) ==> entropy@.len() <= u32::MAX,
    ensures
        next == mnemonics_next(step, event),
        match (step, event) {
            (MnemonicsStep::ValidateChecksum, MnemonicsEvent::ChecksumValid(entropy)) => {
                &&& final(entropy_ptr)@ == entropy@
                &&& *final(entropy_size) == entropy@.len()
            },
            _ => {
                &&& *final(entropy_ptr) == *old(entropy_ptr)
                &&& *final(entropy_size) == *old(entropy_size)
            },
        },
{
    match step {
        MnemonicsStep::LookUpWords => match event {
            MnemonicsEvent::WordsFound => MnemonicsStep::ValidateChecksum,
            MnemonicsEvent::WordMissing => MnemonicsStep::Done(BccBIP39ErrorCode::invalid_word()),
            MnemonicsEvent::WordCountUnsupported => MnemonicsStep::Done(
                BccBIP39ErrorCode::invalid_word_count(),
            ),
            _ => step,
        },
        MnemonicsStep::ValidateChecksum => match event {
            MnemonicsEvent::ChecksumValid(entropy) => {
                out_return_vector(entropy, entropy_ptr, entropy_size);
                MnemonicsStep::Done(BccBIP39ErrorCode::success())
            },
            MnemonicsEvent::ChecksumInvalid => MnemonicsStep::Done(
                BccBIP39ErrorCode::invalid_checksum(),
            ),
            _ => step,
        },
        MnemonicsStep::Done(_) => step,
    }
}

/// The steps that decoding goes through when the wallet library answers with
/// `events`, one after the other, starting from `step`.
pub open spec fn mnemonics_run(step: MnemonicsStep, events: Seq<MnemonicsEvent>) -> MnemonicsStep
    decreases events.len(),
{
    if events.len() == 0 {
        step
    } else {
        mnemonics_run(mnemonics_next(step, events[0]), events.drop_first())
    }
}

/// A phrase with a word outside the dictionary is refused as an invalid word
/// before its checksum is looked at: decoding ends at once, whatever the
/// checksum would have been, and asks for no validation.
pub proof fn lemma_missing_word_ends_decoding(later: Seq<MnemonicsEvent>)
    ensures
        mnemonics_run(MnemonicsStep::LookUpWords, seq![MnemonicsEvent::WordMissing] + later)
            == MnemonicsStep::Done(BccBIP39ErrorCode(BIP39_INVALID_WORD)),
{
    let done = MnemonicsStep::Done(BccBIP39ErrorCode(BIP39_INVALID_WORD));
    let events = seq![MnemonicsEvent::WordMissing] + later;
    assert(events[0] == MnemonicsEvent::WordMissing);
    assert(events.drop_first() =~= later);
    lemma_done_is_final(done, later);
}

/// A phrase of dictionary words in a number that no phrase has is refused as
/// an invalid word count, not as an invalid word, and before its checksum is
/// looked at.
pub proof fn lemma_unsupported_count_ends_decoding(later: Seq<MnemonicsEvent>)
    ensures
        mnemonics_run(
            MnemonicsStep::LookUpWords,
            seq![MnemonicsEvent::WordCountUnsupported] + later,
        ) == MnemonicsStep::Done(BccBIP39ErrorCode(BIP39_INVALID_WORD_COUNT)),
{
    let done = MnemonicsStep::Done(BccBIP39ErrorCode(BIP39_INVALID_WORD_COUNT));
    let events = seq![MnemonicsEvent::WordCountUnsupported] + later;
    assert(events[0] == MnemonicsEvent::WordCountUnsupported);
    assert(events.drop_first() =~= later);
    lemma_done_is_final(done, later);
}

/// Once decoding is over, no event changes its status.
pub proof fn lemma_done_is_final(step: MnemonicsStep, events: Seq<MnemonicsEvent>)
    requires
        step is Done,
    ensures
        mnemonics_run(step, events) == step,
    decreases events.len(),
{
    if events.len() > 0 {
        lemma_done_is_final(step, events.drop_first());
    }
}

/// Where decoding stands once every word of the phrase was found: it waits for
/// the checksum, or has ended with what the checksum said.
pub open spec fn past_lookup(step: MnemonicsStep) -> bool {
    match step {
        MnemonicsStep::LookUpWords => false,
        MnemonicsStep::ValidateChecksum => true,
        MnemonicsStep::Done(code) => code.0 == BIP39_SUCCESS || code.0 == BIP39_INVALID_CHECKSUM,
    }
}

/// A phrase whose words are all in the dictionary is never refused as an
/// invalid word, whatever follows: it succeeds or it is an invalid checksum.
pub proof fn lemma_found_words_exclude_invalid_word(step: MnemonicsStep, events: Seq<MnemonicsEvent>)
    requires
        past_lookup(step),
    ensures
        past_lookup(mnemonics_run(step, events)),
        mnemonics_run(step, events) != MnemonicsStep::Done(BccBIP39ErrorCode(BIP39_INVALID_WORD)),
    decreases events.len(),
{
    if events.len() > 0 {
        lemma_found_words_exclude_invalid_word(mnemonics_next(step, events[0]), events.drop_first());
    }
}

/// A phrase of dictionary words whose checksum does not match is an invalid
/// checksum, whatever is handed in afterwards.
pub proof fn lemma_wrong_checksum_is_reported(later: Seq<MnemonicsEvent>)
    ensures
        mnemonics_run(
            MnemonicsStep::LookUpWords,
            seq![MnemonicsEvent::WordsFound, MnemonicsEvent::ChecksumInvalid] + later,
        ) == MnemonicsStep::Done(BccBIP39ErrorCode(BIP39_INVALID_CHECKSUM)),
{
    let done = MnemonicsStep::Done(BccBIP39ErrorCode(BIP39_INVALID_CHECKSUM));
    let events = seq![MnemonicsEvent::WordsFound, MnemonicsEvent::ChecksumInvalid] + later;
    let rest = seq![MnemonicsEvent::ChecksumInvalid] + later;
    assert(events[0] == MnemonicsEvent::WordsFound);
    assert(events.drop_first() =~= rest);
    assert(rest[0] == MnemonicsEvent::ChecksumInvalid);
    assert(rest.drop_first() =~= later);
    lemma_done_is_final(done, later);
    assert(mnemonics_run(MnemonicsStep::ValidateChecksum, rest) == mnemonics_run(done, later));
    assert(mnemonics_run(MnemonicsStep::LookUpWords, events) == mnemonics_run(
        MnemonicsStep::ValidateChecksum,
        rest,
    ));
}

/// Generates an entropy from the caller's randomness callback.
///
/// `key_size` is what the wallet library made of the word count that the
/// caller asked for: the size in bits of the entropy behind a phrase of so many
/// words, or `None` where it supports no such phrase.  With `None` the callback
/// does not run.  Otherwise it runs once for each whole byte of the entropy,
/// and the entropy is what it returned, first byte first.
pub fn bcc_entropy_from_random<G: Fn() -> u8>(
    key_size: Option<usize>,
    source: &mut RandomSource<G>,
    entropy_ptr: &mut Vec<u8>,
    entropy_size: &mut u32,
) -> (code: BccBIP39ErrorCode)
    requires
        key_size matches Some(bits) ==> bits / 8 <= u32::MAX,
    ensures
        final(source).callback() == old(source).callback(),
        match key_size {
            Some(bits) => {
                &&& code.0 == BIP39_SUCCESS
                &&& final(entropy_ptr)@.len() == bits / 8
                &&& *final(entropy_size) == bits / 8
                &&& final(source).drawn() == old(source).drawn() + final(entropy_ptr)@
                &&& forall|i: int|
                    0 <= i < bits / 8 ==> call_ensures(
                        old(source).callback(),
                        (),
                        #[trigger] final(entropy_ptr)@[i],
                    )
            },
            None => {
                &&& code.0 == BIP39_INVALID_WORD_COUNT
                &&& final(source).drawn() == old(source).drawn()
                &&& *final(entropy_ptr) == *old(entropy_ptr)
                &&& *final(entropy_size) == *old(entropy_size)
            },
        },
{
    let length: usize = match key_size {
        Some(bits) => bits / 8,
        None => {
            return BccBIP39ErrorCode::invalid_word_count();
        },
    };
    let mut entropy: Vec<u8> = Vec::new();
    while entropy.len() < length
        invariant
            entropy@.len() <= length,
            source.callback() == old(source).callback(),
            source.drawn() == old(source).drawn() + entropy@,
            forall|i: int|
                0 <= i < entropy@.len() ==> call_ensures(
                    old(source).callback(),
                    (),
                    #[trigger] entropy@[i],
                ),
        decreases length - entropy@.len(),
    {
        let byte: u8 = source.next_byte();
        entropy.push(byte);
        assert(source.drawn() =~= old(source).drawn() + entropy@);
    }
    out_return_vector(entropy, entropy_ptr, entropy_size);
    BccBIP39ErrorCode::success()
}

/// The entropy is the bytes that the callback returned during the run, and
/// nothing else: two runs in which the callback returns the same bytes give the
/// same entropy, whatever it had returned before.  `before` and `after` are a
/// source's record at the start and at the end of a run.
pub proof fn lemma_entropy_is_what_was_drawn(
    before_a: Seq<u8>,
    after_a: Seq<u8>,
    entropy_a: Seq<u8>,
    before_b: Seq<u8>,
    after_b: Seq<u8>,
    entropy_b: Seq<u8>,
)
    requires
        after_a == before_a + entropy_a,
        after_b == before_b + entropy_b,
        after_a.subrange(before_a.len() as int, after_a.len() as int) == after_b.subrange(
            before_b.len() as int,
            after_b.len() as int,
        ),
    ensures
        entropy_a == entropy_b,
{
    assert(after_a.subrange(before_a.len() as int, after_a.len() as int) =~= entropy_a);
    assert(after_b.subrange(before_b.len() as int, after_b.len() as int) =~= entropy_b);
}

} // verus!
