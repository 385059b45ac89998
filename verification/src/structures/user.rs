use vstd::prelude::*;
use crate::structures::flags::Flags;
use crate::structures::snowflake::Snowflake;

verus! {

/// A Discord user, as the gateway describes it.
#[derive(Clone, Debug, PartialEq, Eq, PartialOrd, Ord)]
pub struct User {
    pub id: Snowflake,
    pub username: String,
    pub discriminator: String,
    pub global_name: Option<String>,
    pub avatar: Option<String>,
    pub bot: Option<bool>,
    pub system: Option<bool>,
    pub mfa_enabled: Option<bool>,
    pub banner: Option<String>,
    pub accent_color: Option<i64>,
    pub locale: Option<String>,
    pub verified: Option<bool>,
    pub email: Option<String>,
    pub flags: Option<Flags>,
    pub premium_type: Option<i64>,
    pub public_flags: Option<Flags>,
}

} // verus!
