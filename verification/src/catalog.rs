//! The message-kind catalog: the ten fixed-layout record shapes.
//!
//! Each market-data message kind is identified by its single tag byte and
//! has a fixed record size; the kinds fall into three semantic categories.
//! The catalog is pure lookup: it holds no state.

use vstd::prelude::*;

verus! {

/// The three semantic groupings of the ten message kinds; used only for
/// classification, never for decoding.
#[derive(Clone, Copy, Debug, PartialEq, Eq, Structural)]
pub enum MessageCategory {
    Admin,
    Trading,
    Auction,
}

/// Whether `tag` is one of the ten known message tags.
pub open spec fn spec_known_tag(tag: u8) -> bool {
    ||| tag == 83  // 'S' system event
    ||| tag == 68  // 'D' security directory
    ||| tag == 72  // 'H' trading status
    ||| tag == 73  // 'I' retail liquidity indicator
    ||| tag == 79  // 'O' operational halt status
    ||| tag == 80  // 'P' short sale price test status
    ||| tag == 81  // 'Q' quote update
    ||| tag == 84  // 'T' trade report
    ||| tag == 88  // 'X' official price
    ||| tag == 66  // 'B' trade break
    ||| tag == 65  // 'A' auction information
}

/// The fixed record size, in bytes, of the message kind with tag `tag`.
pub open spec fn spec_record_size(tag: u8) -> u16
    recommends
        spec_known_tag(tag),
{
    if tag == 83 {
        10
    } else if tag == 68 {
        31
    } else if tag == 72 {
        22
    } else if tag == 73 {
        18
    } else if tag == 79 {
        18
    } else if tag == 80 {
        19
    } else if tag == 81 {
        42
    } else if tag == 84 {
        38
    } else if tag == 88 {
        26
    } else if tag == 66 {
        38
    } else {
        80
    }
}

/// The semantic category of the message kind with tag `tag`.
pub open spec fn spec_category(tag: u8) -> MessageCategory
    recommends
        spec_known_tag(tag),
{
    if tag == 81 || tag == 84 || tag == 88 || tag == 66 {
        MessageCategory::Trading
    } else if tag == 65 {
        MessageCategory::Auction
    } else {
        MessageCategory::Admin
    }
}

pub fn known_tag(tag: u8) -> (r: bool)
    ensures
        r == spec_known_tag(tag),
{
    tag == 83 || tag == 68 || tag == 72 || tag == 73 || tag == 79 || tag == 80 || tag == 81
        || tag == 84 || tag == 88 || tag == 66 || tag == 65
}

/// The catalog's fixed size for `tag`, or `None` for an unknown tag.
pub fn record_size(tag: u8) -> (r: Option<u16>)
    ensures
        r is Some <==> spec_known_tag(tag),
        spec_known_tag(tag) ==> r == Some(spec_record_size(tag)),
{
    if tag == 83 {
        Some(10)
    } else if tag == 68 {
        Some(31)
    } else if tag == 72 {
        Some(22)
    } else if tag == 73 {
        Some(18)
    } else if tag == 79 {
        Some(18)
    } else if tag == 80 {
        Some(19)
    } else if tag == 81 {
        Some(42)
    } else if tag == 84 {
        Some(38)
    } else if tag == 88 {
        Some(26)
    } else if tag == 66 {
        Some(38)
    } else if tag == 65 {
        Some(80)
    } else {
        None
    }
}

/// The semantic category of `tag`, or `None` for an unknown tag.
pub fn category(tag: u8) -> (r: Option<MessageCategory>)
    ensures
        r is Some <==> spec_known_tag(tag),
        spec_known_tag(tag) ==> r == Some(spec_category(tag)),
{
    if tag == 81 || tag == 84 || tag == 88 || tag == 66 {
        Some(MessageCategory::Trading)
    } else if tag == 65 {
        Some(MessageCategory::Auction)
    } else if known_tag(tag) {
        Some(MessageCategory::Admin)
    } else {
        None
    }
}

} // verus!
