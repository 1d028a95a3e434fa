//! Decoding that does not trust file names.
//!
//! A file's content is tried against an ordered chain of strategies. This
//! module decides what is tried and in what order; the decoding itself is the
//! caller's work. Each strategy either asks the caller for one decoding or
//! does not apply to the content at all; the first decoding that yields an
//! image decides, and only where every strategy has failed is the content
//! given up as undecodable. No strategy looks at the file's name.

use crate::codec::detect_format;
use crate::codec::detected_format;
use image::ImageFormat;
use vstd::prelude::*;

verus! {

/// One way of turning bytes into an image.
#[derive(Clone, Copy, Debug, PartialEq, Eq)]
pub enum DecodeStrategy {
    /// Read the format off the content's signature, then decode as that format.
    ContentSignature,
    /// Hand the bytes to a decoder that probes the known formats itself.
    FormatAgnostic,
}

/// What the caller is asked to do with the bytes.
#[derive(Clone, Copy, Debug, PartialEq, Eq)]
pub enum Decoding {
    /// Decode them as this format.
    As(ImageFormat),
    /// Decode them as whatever the decoder makes them out to be.
    Any,
}

/// What a strategy asks for, given what the content's signature was found to
/// be. A strategy that goes by the signature asks for nothing where the
/// content bears none.
pub open spec fn asks_given(strategy: DecodeStrategy, detected: Option<ImageFormat>) -> Option<
    Decoding,
> {
    match strategy {
        DecodeStrategy::ContentSignature => match detected {
            Some(format) => Some(Decoding::As(format)),
            None => None,
        },
        DecodeStrategy::FormatAgnostic => Some(Decoding::Any),
    }
}

/// What a strategy asks for on `bytes`.
pub open spec fn asks(strategy: DecodeStrategy, bytes: Seq<u8>) -> Option<Decoding> {
    asks_given(strategy, detected_format(bytes))
}

/// The first position in `chain`, at `from` or behind it, whose strategy asks
/// for a decoding of `bytes`.
pub open spec fn next_applicable(chain: Seq<DecodeStrategy>, bytes: Seq<u8>, from: int) -> Option<
    int,
>
    decreases chain.len() - from,
{
    if from < 0 || from >= chain.len() {
        None
    } else if asks(chain[from], bytes) is Some {
        Some(from)
    } else {
        next_applicable(chain, bytes, from + 1)
    }
}

/// The chain in use: the content's signature first, the format-agnostic decoder as fallback.
pub open spec fn standard_chain() -> Seq<DecodeStrategy> {
    seq![DecodeStrategy::ContentSignature, DecodeStrategy::FormatAgnostic]
}

/// The next attempt is the earliest one left: its strategy applies, and none
/// between `from` and it does. Where there is none, no strategy from `from`
/// on applies.
pub proof fn lemma_next_applicable_is_first(chain: Seq<DecodeStrategy>, bytes: Seq<u8>, from: int)
    requires
        0 <= from,
    ensures
        match next_applicable(chain, bytes, from) {
            Some(position) => {
                &&& from <= position < chain.len()
                &&& asks(chain[position], bytes) is Some
                &&& forall|earlier: int|
                    from <= earlier < position ==> (#[trigger] asks(chain[earlier], bytes)) is None
            },
            None => forall|later: int|
                from <= later < chain.len() ==> (#[trigger] asks(chain[later], bytes)) is None,
        },
    decreases chain.len() - from,
{
    if from < chain.len() && asks(chain[from], bytes) is None {
        lemma_next_applicable_is_first(chain, bytes, from + 1);
    }
}

/// With the standard chain every content gets at least one decoding: by its
/// signature where it bears one, and by the format-agnostic decoder in any case.
pub proof fn lemma_standard_chain_always_asks(bytes: Seq<u8>)
    ensures
        next_applicable(standard_chain(), bytes, 0) == if detected_format(bytes) is Some {
            Some(0int)
        } else {
            Some(1int)
        },
        next_applicable(standard_chain(), bytes, 1) == Some(1int),
        next_applicable(standard_chain(), bytes, 2) is None,
{
    reveal_with_fuel(next_applicable, 3);
}

/// The chain in use.
pub fn default_chain() -> (chain: Vec<DecodeStrategy>)
    ensures
        chain@ == standard_chain(),
{
    let mut chain = Vec::new();
    chain.push(DecodeStrategy::ContentSignature);
    chain.push(DecodeStrategy::FormatAgnostic);
    assert(chain@ =~= standard_chain());
    chain
}

/// What `strategy` asks the caller to do, given the format that the content's
/// signature was found to name, if it names one.
pub fn request_for(strategy: DecodeStrategy, detected: Option<ImageFormat>) -> (asked: Option<
    Decoding,
>)
    ensures
        asked == asks_given(strategy, detected),
{
    match strategy {
        DecodeStrategy::ContentSignature => match detected {
            Some(format) => Some(Decoding::As(format)),
            None => None,
        },
        DecodeStrategy::FormatAgnostic => Some(Decoding::Any),
    }
}

/// What `strategy` asks the caller to do with `bytes`, if it applies to them.
pub fn request(strategy: DecodeStrategy, bytes: &[u8]) -> (asked: Option<Decoding>)
    ensures
        asked == asks(strategy, bytes@),
{
    request_for(strategy, detect_format(bytes))
}

/// The next attempt on `bytes`: the first position in `chain`, at `from` or
/// behind it, whose strategy applies, with what it asks for. `None` where the
/// chain is exhausted.
pub fn next_request(chain: &Vec<DecodeStrategy>, bytes: &[u8], from: usize) -> (next: Option<
    (usize, Decoding),
>)
    ensures
        match next_applicable(chain@, bytes@, from as int) {
            Some(position) => next matches Some((found, asked)) && found == position && Some(
                asked,
            ) == asks(chain@[position], bytes@),
            None => next is None,
        },
{
    let mut position = from;
    while position < chain.len()
        invariant
            from <= position,
            next_applicable(chain@, bytes@, from as int) == next_applicable(
                chain@,
                bytes@,
                position as int,
            ),
        decreases chain.len() - position,
    {
        match request(chain[position], bytes) {
            Some(asked) => {
                return Some((position, asked));
            },
            None => {},
        }
        position = position + 1;
    }
    None
}

} // verus!
