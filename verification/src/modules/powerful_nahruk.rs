//! A word-filter module: a free-text message holding one of the trigger
//! substrings is answered with a blocking notice, and nothing else is.
//! The trigger substrings and the notice are the fixed-locale texts of the
//! deployment.

use vstd::prelude::*;
use vstd::string::*;

use crate::text::{contains_sub, spec_contains_sub};

verus! {

/// The module that blocks messages holding a trigger word.
pub struct PowerfulNahrukModule;

/// The message holds one of the trigger substrings.
pub open spec fn spec_nahruk_triggers(s: Seq<char>) -> bool {
    ||| spec_contains_sub(s, "украина"@)
    ||| spec_contains_sub(s, "хохол"@)
    ||| spec_contains_sub(s, "хохл"@)
}

/// The blocking notice.
pub open spec fn spec_blocked_text() -> Seq<char> {
    "Ваш нахрюк заблокирован ❌"@
}

impl PowerfulNahrukModule {
    /// A fresh module value; the module itself carries no state.
    pub fn new() -> (m: PowerfulNahrukModule) {
        PowerfulNahrukModule
    }

    /// The blocking notice when the message holds a trigger substring,
    /// and the empty string otherwise.
    pub fn check_nahruk(&self, msg: &str) -> (r: String)
        ensures
            spec_nahruk_triggers(msg@) ==> r@ == spec_blocked_text(),
            !spec_nahruk_triggers(msg@) ==> r@.len() == 0,
            spec_blocked_text().len() > 0,
    {
        proof {
            reveal_strlit("Ваш нахрюк заблокирован ❌");
        }
        if contains_sub(msg, "украина") || contains_sub(msg, "хохол") || contains_sub(
            msg,
            "хохл",
        ) {
            String::from_str("Ваш нахрюк заблокирован ❌")
        } else {
            String::new()
        }
    }
}

} // verus!
