//! The tokenizer: what a load makes of the attempt to read it, and the
//! tokens that end a sequence, resolved against its vocabulary.

use vstd::prelude::*;
use crate::error::{LoadError, LoadErrorView};
use tokenizers::Tokenizer;

verus! {

/// The tokenizer of the `tokenizers` crate. Nothing inside it is visible
/// here; its vocabulary is spoken of through [`vocabulary`].
#[verifier::external_type_specification]
#[verifier::external_body]
pub struct ExTokenizer(tokenizers::Tokenizer);

/// The vocabulary of a tokenizer, added tokens included: each token's text
/// and its id.
pub uninterp spec fn vocabulary(tokenizer: Tokenizer) -> Map<Seq<char>, u32>;

/// The id of a token in a vocabulary, if the vocabulary has the token.
pub open spec fn lookup(vocab: Map<Seq<char>, u32>, token: Seq<char>) -> Option<u32> {
    if vocab.contains_key(token) {
        Some(vocab[token])
    } else {
        None
    }
}

/// Looks a token up by its exact text. Trusted: `Tokenizer::get_vocab`,
/// asked for the added tokens too, gives the tokenizer's vocabulary as a
/// map, and the id comes from that map by the token's text.
#[verifier::external_body]
fn vocab_id(tokenizer: &Tokenizer, token: &str) -> (id: Option<u32>)
    ensures
        id == lookup(vocabulary(*tokenizer), token@),
{
    tokenizer.get_vocab(true).get(token).copied()
}

/// The spelling of the token that ends a turn in one family of chat
/// formats. It ends a sequence wherever the vocabulary has it, whether or
/// not the chat template declares it.
pub open spec fn spec_turn_end_token() -> Seq<char> {
    "<|eot_id|>"@
}

/// The spelling of the token that ends a turn in one family of chat formats.
pub fn turn_end_token() -> (token: &'static str)
    ensures
        token@ == spec_turn_end_token(),
{
    "<|eot_id|>"
}

/// The ids that end a sequence, from the id of the declared token and the
/// id of the turn-ending token where the vocabulary has one: the declared
/// one first, the other after it unless it is the same id.
pub open spec fn spec_eos_ids(declared: u32, turn_end: Option<u32>) -> Seq<u32> {
    match turn_end {
        Some(id) => if id == declared {
            seq![declared]
        } else {
            seq![declared, id]
        },
        None => seq![declared],
    }
}

/// The ids that end a sequence under a vocabulary, for a chat template
/// that declares `eos_tok`; nothing where the vocabulary lacks that token.
pub open spec fn spec_calculate_eos_tok(vocab: Map<Seq<char>, u32>, eos_tok: Seq<char>) -> Option<
    Seq<u32>,
> {
    match lookup(vocab, eos_tok) {
        Some(declared) => Some(spec_eos_ids(declared, lookup(vocab, spec_turn_end_token()))),
        None => None,
    }
}

/// The ids that end a sequence, from the two lookups.
pub fn eos_ids(declared: u32, turn_end: Option<u32>) -> (ids: Vec<u32>)
    ensures
        ids@ == spec_eos_ids(declared, turn_end),
{
    let mut ids: Vec<u32> = Vec::new();
    ids.push(declared);
    match turn_end {
        Some(id) => {
            if id != declared {
                ids.push(id);
            }
        },
        None => {},
    }
    ids
}

/// Resolves the tokens that end a sequence: the one that the chat template
/// declares, then the turn-ending token where the vocabulary has it. Gives
/// nothing where the vocabulary lacks the declared token.
pub fn calculate_eos_tok(tokenizer: &Tokenizer, eos_tok: &str) -> (resolved: Option<Vec<u32>>)
    ensures
        match resolved {
            Some(ids) => spec_calculate_eos_tok(vocabulary(*tokenizer), eos_tok@) == Some(ids@),
            None => spec_calculate_eos_tok(vocabulary(*tokenizer), eos_tok@) is None,
        },
{
    match vocab_id(tokenizer, eos_tok) {
        Some(declared) => Some(eos_ids(declared, vocab_id(tokenizer, turn_end_token()))),
        None => None,
    }
}

/// What a load makes of the attempt to read the tokenizer from its file:
/// the tokenizer itself, or the tokenizer condition around the words with
/// which its provider refused the file, unchanged.
pub fn tokenizer_outcome(parsed: Result<Tokenizer, String>) -> (r: Result<Tokenizer, LoadError>)
    ensures
        match parsed {
            Ok(tokenizer) => r == Ok::<Tokenizer, LoadError>(tokenizer),
            Err(text) => r matches Err(e) && e@ == LoadErrorView::TokenizerLoadError(text@),
        },
{
    match parsed {
        Ok(tokenizer) => Ok(tokenizer),
        Err(text) => Err(LoadError::TokenizerLoadError(text)),
    }
}

/// The ids that end a sequence start with the declared token's id, hold
/// the turn-ending token's id wherever the vocabulary has that token, hold
/// nothing else, and hold no id twice.
pub proof fn lemma_eos_ids(declared: u32, turn_end: Option<u32>)
    ensures
        ({
            let ids = spec_eos_ids(declared, turn_end);
            &&& 1 <= ids.len() <= 2
            &&& ids[0] == declared
            &&& ids.no_duplicates()
            &&& turn_end matches Some(id) ==> ids.contains(id)
            &&& forall|id: u32| ids.contains(id) ==> id == declared || turn_end == Some(id)
            &&& ids.len() == 2 ==> turn_end == Some(ids[1])
        }),
{
    let ids = spec_eos_ids(declared, turn_end);
    match turn_end {
        Some(id) => {
            if id == declared {
                assert(ids[0] == id);
            } else {
                assert(ids[1] == id);
            }
        },
        None => {},
    }
}

} // verus!
