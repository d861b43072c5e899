//! The region of a salon and its textual tag in storage.

use crate::error::{ErrorView, StoreError};
use vstd::prelude::*;
use vstd::string::StringExecFns;

verus! {

/// The district a salon belongs to. Storage holds it as one of two tags.
#[allow(non_camel_case_types)]
#[derive(Debug, Clone, Copy, PartialEq, Eq, Structural)]
pub enum Sector {
    buiucani,
    botanica,
}

/// The tag under which storage holds a region.
pub open spec fn tag_of(region: Sector) -> Seq<char> {
    match region {
        Sector::buiucani => "buiucani"@,
        Sector::botanica => "botanica"@,
    }
}

/// The region that a stored text stands for, if it is a permitted tag.
pub open spec fn region_of(tag: Seq<char>) -> Option<Sector> {
    if tag == "buiucani"@ {
        Some(Sector::buiucani)
    } else if tag == "botanica"@ {
        Some(Sector::botanica)
    } else {
        None
    }
}

impl Sector {
    /// The stored tag of this region.
    pub fn encode(&self) -> (tag: String)
        ensures
            tag@ == tag_of(*self),
    {
        match self {
            Sector::buiucani => String::from_str("buiucani"),
            Sector::botanica => String::from_str("botanica"),
        }
    }
}

/// Reads a stored text as a region. A text that is not one of the two tags
/// is reported with the text itself, never by stopping the program.
pub fn decode(tag: &str) -> (region: Result<Sector, StoreError>)
    ensures
        match region {
            Ok(found) => region_of(tag@) == Some(found),
            Err(error) => region_of(tag@) is None && error@ == ErrorView::DecodeInvariantViolation(
                tag@,
            ),
        },
{
    let stored = String::from_str(tag);
    if stored == String::from_str("buiucani") {
        Ok(Sector::buiucani)
    } else if stored == String::from_str("botanica") {
        Ok(Sector::botanica)
    } else {
        Err(StoreError::DecodeInvariantViolation(stored))
    }
}

/// The two tags differ, so no text stands for both regions.
pub proof fn lemma_tags_differ()
    ensures
        tag_of(Sector::buiucani) != tag_of(Sector::botanica),
{
    reveal_strlit("buiucani");
    reveal_strlit("botanica");
    assert("buiucani"@[1] == 'u');
    assert("botanica"@[1] == 'o');
}

/// Encoding a region and decoding the tag gives the region back.
pub proof fn lemma_decode_encode(region: Sector)
    ensures
        region_of(tag_of(region)) == Some(region),
{
    lemma_tags_differ();
}

/// Decoding a permitted tag and encoding the region gives the tag back, and
/// exactly the two tags decode at all.
pub proof fn lemma_encode_decode(tag: Seq<char>)
    ensures
        region_of(tag) is Some <==> (tag == tag_of(Sector::buiucani) || tag == tag_of(
            Sector::botanica,
        )),
        region_of(tag) matches Some(region) ==> tag_of(region) == tag,
{
}

} // verus!
