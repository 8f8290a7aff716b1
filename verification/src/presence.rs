//! The presence a client shows, and the user records the peer sends.
//!
//! These are plain records. Every field that is `None` is absent from the
//! message on the wire.

use vstd::prelude::*;

verus! {

/// `std::time::SystemTime`, carried through as an opaque value.
#[verifier::external_type_specification]
#[verifier::external_body]
pub struct ExSystemTime(std::time::SystemTime);

/// When the activity started and when it will end.
#[derive(Clone, Copy, Debug, Default)]
pub struct Timestamps {
    pub start: Option<std::time::SystemTime>,
    pub end: Option<std::time::SystemTime>,
}

/// Keys and hover texts of the large and small images.
#[derive(Clone, Debug, Default, PartialEq, Eq)]
pub struct Images {
    pub large_key: Option<String>,
    pub large_text: Option<String>,
    pub small_key: Option<String>,
    pub small_text: Option<String>,
}

/// The party the user is in. A party is private unless `public` is set.
#[derive(Clone, Debug, Default, PartialEq, Eq)]
pub struct Party {
    pub id: Option<String>,
    pub size: Option<u32>,
    pub max: Option<u32>,
    pub public: bool,
}

/// Secrets that let other users join or spectate.
#[derive(Clone, Debug, Default, PartialEq, Eq)]
pub struct Secrets {
    pub match_: Option<String>,
    pub join: Option<String>,
    pub spectate: Option<String>,
}

#[derive(Debug, Default)]
pub struct Presence {
    pub state: Option<String>,
    pub details: Option<String>,
    pub timestamps: Option<Timestamps>,
    pub images: Option<Images>,
    pub party: Option<Party>,
    pub secrets: Option<Secrets>,
}

#[derive(Clone, Debug, PartialEq, Eq)]
pub struct User {
    pub id: String,
    pub username: String,
    pub discriminator: String,
    pub avatar: Option<String>,
}

/// Whether a party's visibility is left out of the message: private is what
/// the peer assumes when nothing is said.
pub fn private(value: &bool) -> (omitted: bool)
    ensures
        omitted == !*value,
{
    !*value
}

} // verus!
