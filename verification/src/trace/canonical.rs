//! Canonical identity: the block of a request must stay canonical until the request is answered.
use crate::error::{
    reorged, reorged_error, unavailable, unavailable_error, RpcError, RpcErrorView, BLOCK_REORGED,
};
use crate::fixed::B256;
use crate::text::{
    decimal, decimal_text, hex_string, hex_text, optional_hash_string, optional_hash_text,
};
use vstd::prelude::*;

verus! {

/// What a lookup of the canonical hash at a height gave: the hash, if there is one, or the text of
/// the provider's error.
#[derive(Debug)]
pub enum HashLookup {
    Found(Option<B256>),
    Failed(String),
}

/// Why a block is not known to be canonical, given the canonical hash at its height.
pub open spec fn canonical_fault(number: u64, expected: B256, lookup: HashLookup) -> Option<
    RpcErrorView,
> {
    match lookup {
        HashLookup::Failed(error) => Some(unavailable(error@)),
        HashLookup::Found(canonical) => if canonical == Some(expected) {
            None
        } else {
            Some(
                reorged(
                    "height "@ + decimal(number as nat) + ": expected "@ + hex_text(expected.0@)
                        + ", got "@ + optional_hash_text(canonical),
                ),
            )
        },
    }
}

/// Verifies that the originally resolved hash is still canonical at its height.
pub fn assert_canonical(number: u64, expected: B256, lookup: &HashLookup) -> (r: Result<
    (),
    RpcError,
>)
    ensures
        match canonical_fault(number, expected, *lookup) {
            None => r is Ok,
            Some(fault) => r matches Err(error) && error@ == fault,
        },
{
    match lookup {
        HashLookup::Failed(error) => Err(unavailable_error(error.clone())),
        HashLookup::Found(canonical) => {
            if *canonical != Some(expected) {
                return Err(
                    reorged_error(
                        String::from_str("height ").concat(decimal_text(number).as_str()).concat(
                            ": expected ",
                        ).concat(hex_string(&expected.0).as_str()).concat(", got ").concat(
                            optional_hash_string(canonical).as_str(),
                        ),
                    ),
                );
            }
            Ok(())
        },
    }
}

/// The error to answer with: the reorg, if the block is known not to be canonical any more,
/// otherwise the original error.
pub open spec fn preferred_error(
    number: u64,
    expected: B256,
    original: RpcErrorView,
    lookup: HashLookup,
) -> RpcErrorView {
    match canonical_fault(number, expected, lookup) {
        Some(fault) if fault.code == BLOCK_REORGED => fault,
        _ => original,
    }
}

/// Rechecks the target identity before returning a post-resolution error.
pub fn prefer_reorg_error(
    number: u64,
    expected: B256,
    original: RpcError,
    lookup: &HashLookup,
) -> (r: RpcError)
    ensures
        r@ == preferred_error(number, expected, original@, *lookup),
{
    match assert_canonical(number, expected, lookup) {
        Err(error) if error.code == BLOCK_REORGED => error,
        _ => original,
    }
}

/// First height of the EVM `BLOCKHASH` window of a block.
pub open spec fn window_start(block_number: u64) -> u64 {
    if block_number >= 256 {
        (block_number - 256) as u64
    } else {
        0
    }
}

/// First height of the EVM `BLOCKHASH` window of a block.
pub fn block_hash_window_start(block_number: u64) -> (r: u64)
    ensures
        r == window_start(block_number),
{
    if block_number >= 256 {
        block_number - 256
    } else {
        0
    }
}

/// What a read of canonical hashes gave: the hashes, or the text of the provider's error.
#[derive(Debug)]
pub enum HashRange {
    Found(Vec<B256>),
    Failed(String),
}

/// The last hash of a range, if there is one.
pub open spec fn last_hash(hashes: Seq<B256>) -> Option<B256> {
    if hashes.len() == 0 {
        None
    } else {
        Some(hashes.last())
    }
}

/// Why hashes are not the complete `BLOCKHASH` window of a block with the given parent.
pub open spec fn hashes_fault(
    block_number: u64,
    expected_parent_hash: B256,
    hashes: Seq<B256>,
) -> Option<RpcErrorView> {
    let start = window_start(block_number);
    let block = "block "@ + decimal(block_number as nat);
    if hashes.len() != block_number - start {
        Some(
            unavailable(
                block + " requires "@ + decimal((block_number - start) as nat)
                    + " canonical hashes in ["@ + decimal(start as nat) + ", "@ + decimal(
                    block_number as nat,
                ) + "), got "@ + decimal(hashes.len()),
            ),
        )
    } else if last_hash(hashes) != Some(expected_parent_hash) {
        Some(
            unavailable(
                block + " expects parent "@ + hex_text(expected_parent_hash.0@)
                    + ", history ends at "@ + optional_hash_text(last_hash(hashes)),
            ),
        )
    } else {
        None
    }
}

/// Why a read of hashes did not give the complete `BLOCKHASH` window of a block with the given
/// parent.
pub open spec fn window_fault(
    block_number: u64,
    expected_parent_hash: B256,
    hashes: HashRange,
) -> Option<RpcErrorView> {
    match hashes {
        HashRange::Failed(error) => Some(unavailable(error@)),
        HashRange::Found(hashes) => hashes_fault(block_number, expected_parent_hash, hashes@),
    }
}

/// Checks that hashes are the complete `BLOCKHASH` window of a block with the given parent.
pub fn check_block_hashes(
    block_number: u64,
    expected_parent_hash: B256,
    hashes: &Vec<B256>,
) -> (r: Result<(), RpcError>)
    ensures
        match hashes_fault(block_number, expected_parent_hash, hashes@) {
            None => r is Ok,
            Some(fault) => r matches Err(error) && error@ == fault,
        },
{
    let start = block_hash_window_start(block_number);
    let expected_len: u64 = block_number - start;
    if hashes.len() as u64 != expected_len {
        return Err(
            unavailable_error(
                String::from_str("block ").concat(decimal_text(block_number).as_str()).concat(
                    " requires ",
                ).concat(decimal_text(expected_len).as_str()).concat(
                    " canonical hashes in [",
                ).concat(decimal_text(start).as_str()).concat(", ").concat(
                    decimal_text(block_number).as_str(),
                ).concat("), got ").concat(decimal_text(hashes.len() as u64).as_str()),
            ),
        );
    }
    let last = if hashes.len() == 0 {
        None
    } else {
        Some(hashes[hashes.len() - 1])
    };
    if last != Some(expected_parent_hash) {
        return Err(
            unavailable_error(
                String::from_str("block ").concat(decimal_text(block_number).as_str()).concat(
                    " expects parent ",
                ).concat(hex_string(&expected_parent_hash.0).as_str()).concat(
                    ", history ends at ",
                ).concat(optional_hash_string(&last).as_str()),
            ),
        );
    }
    Ok(())
}

/// Requires the complete EVM `BLOCKHASH` window from the exact parent-state provider, which was
/// asked for the hashes from [`block_hash_window_start`] up to and without `block_number`.
pub fn validate_block_hash_window(
    block_number: u64,
    expected_parent_hash: B256,
    hashes: &HashRange,
) -> (r: Result<(), RpcError>)
    ensures
        match window_fault(block_number, expected_parent_hash, *hashes) {
            None => r is Ok,
            Some(fault) => r matches Err(error) && error@ == fault,
        },
{
    match hashes {
        HashRange::Found(hashes) => check_block_hashes(block_number, expected_parent_hash, hashes),
        HashRange::Failed(error) => Err(unavailable_error(error.clone())),
    }
}

/// A block that is known not to be canonical is answered with the reorg, whatever else went wrong;
/// in every other case the original error stands.
pub proof fn reorg_is_preferred(
    number: u64,
    expected: B256,
    original: RpcErrorView,
    lookup: HashLookup,
)
    ensures
        lookup matches HashLookup::Found(canonical) && canonical != Some(expected)
            ==> preferred_error(number, expected, original, lookup).code == BLOCK_REORGED,
        !(lookup matches HashLookup::Found(canonical) && canonical != Some(expected))
            ==> preferred_error(number, expected, original, lookup) == original,
{
}

/// A complete window holds the block's parent last, and at most 256 hashes.
pub proof fn complete_window_ends_at_the_parent(
    block_number: u64,
    expected_parent_hash: B256,
    hashes: HashRange,
)
    requires
        window_fault(block_number, expected_parent_hash, hashes) is None,
    ensures
        hashes matches HashRange::Found(found) && {
            &&& 0 < found@.len() <= 256
            &&& found@.len() == block_number - window_start(block_number)
            &&& found@.last() == expected_parent_hash
        },
{
}

/// A block is canonical exactly if the canonical hash at its height was found and is its own. A
/// lookup that failed makes it unavailable, with the error's text; any other hash, or none, is a
/// reorg.
pub proof fn canonical_blocks_are_found_under_their_hash(
    number: u64,
    expected: B256,
    lookup: HashLookup,
)
    ensures
        canonical_fault(number, expected, lookup) is None <==> (lookup matches HashLookup::Found(
            found,
        ) && found matches Some(hash) && hash == expected),
        lookup matches HashLookup::Failed(text) ==> {
            &&& canonical_fault(number, expected, lookup) matches Some(fault)
            &&& fault.code == -32_011
            &&& fault.data == text@
        },
        (lookup matches HashLookup::Found(found) && found != Some(expected)) ==> {
            &&& canonical_fault(number, expected, lookup) matches Some(fault)
            &&& fault.code == -32_010
        },
{
}

/// The window of a block ends right before the block and holds the 256 heights before it, or all of
/// them if there are fewer.
pub proof fn windows_hold_the_heights_before_the_block(block_number: u64)
    ensures
        block_number <= 256 ==> window_start(block_number) == 0,
        block_number > 256 ==> window_start(block_number) + 256 == block_number,
{
}

/// Hashes are a block's complete window exactly if there is one for each of the 256 heights before
/// the block, or for all of them if there are fewer, and the last is the parent's. Anything else
/// makes the history unavailable.
pub proof fn complete_windows_are_accepted_exactly(
    block_number: u64,
    expected_parent_hash: B256,
    hashes: Seq<B256>,
)
    ensures
        hashes_fault(block_number, expected_parent_hash, hashes) is None <==> {
            &&& hashes.len() > 0
            &&& block_number <= 256 ==> hashes.len() == block_number
            &&& block_number > 256 ==> hashes.len() == 256
            &&& hashes[hashes.len() - 1] == expected_parent_hash
        },
        hashes_fault(block_number, expected_parent_hash, hashes) matches Some(fault) ==> fault.code
            == -32_011,
{
}

/// A reorg names the height, the hash that was expected there and what was found instead.
pub proof fn reorgs_name_both_hashes(number: u64, expected: B256, found: B256)
    requires
        found != expected,
    ensures
        ({
            let place = "height "@ + decimal(number as nat) + ": expected "@ + hex_text(expected.0@)
                + ", got "@;
            let other = canonical_fault(number, expected, HashLookup::Found(Some(found)));
            let none = canonical_fault(number, expected, HashLookup::Found(None));
            &&& other matches Some(fault) && fault.data == place + ("Some("@ + hex_text(found.0@)
                + ")"@)
            &&& none matches Some(fault) && fault.data == place + "None"@
        }),
{
}

/// An incomplete window names the heights that it should hold, how many they are and how many hashes
/// were found; a window with another parent names both.
pub proof fn incomplete_windows_say_what_is_missing(
    block_number: u64,
    expected_parent_hash: B256,
    hashes: Seq<B256>,
)
    ensures
        ({
            let wanted = if block_number > 256 {
                256int
            } else {
                block_number as int
            };
            let block = "block "@ + decimal(block_number as nat);
            let fault = hashes_fault(block_number, expected_parent_hash, hashes);
            &&& hashes.len() != wanted ==> {
                &&& fault matches Some(fault)
                &&& fault.data == block + " requires "@ + decimal(wanted as nat)
                    + " canonical hashes in ["@ + decimal((block_number - wanted) as nat) + ", "@
                    + decimal(block_number as nat) + "), got "@ + decimal(hashes.len())
            }
            &&& hashes.len() == wanted && wanted > 0 && hashes[wanted - 1] != expected_parent_hash
                ==> {
                &&& fault matches Some(fault)
                &&& fault.data == block + " expects parent "@ + hex_text(expected_parent_hash.0@)
                    + ", history ends at "@ + ("Some("@ + hex_text(hashes[wanted - 1].0@) + ")"@)
            }
        }),
{
}

} // verus!
