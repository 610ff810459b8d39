//! A reactions module: now and then it attaches one of a fixed pool of
//! reactions to an inbound message, and mostly it does nothing.

use vstd::prelude::*;
use vstd::string::*;

use crate::growth::{random_in_range, random_u64};

verus! {

/// The module that reacts to some messages.
pub struct ReactionsModule;

/// The fixed pool of reactions.
pub open spec fn spec_reaction_pool() -> Seq<Seq<char>> {
    seq![":)"@, ":("@, ":D"@, "xD"@, ":o"@, ":P"@]
}

/// The text is one of the pool's reactions.
pub open spec fn spec_is_reaction(s: Seq<char>) -> bool {
    exists|i: int| 0 <= i < spec_reaction_pool().len() && s == spec_reaction_pool()[i]
}

impl ReactionsModule {
    /// A fresh module value; the module itself carries no state.
    pub fn new() -> (m: ReactionsModule) {
        ReactionsModule
    }

    /// Draws whether to react, and with what: one reaction from the pool
    /// about a tenth of the time, the empty string otherwise.  Every
    /// reaction of the pool is non-empty.
    pub fn react_to_message(&self) -> (r: &'static str)
        ensures
            r@.len() == 0 || spec_is_reaction(r@),
            spec_is_reaction(r@) ==> r@.len() > 0,
    {
        proof {
            reveal_strlit(":)");
            reveal_strlit(":(");
            reveal_strlit(":D");
            reveal_strlit("xD");
            reveal_strlit(":o");
            reveal_strlit(":P");
            reveal_strlit("");
        }
        let draw = random_u64() % 256;
        if draw < 25 {
            let idx = random_in_range(0, 5);
            let r: &'static str = if idx == 0 {
                ":)"
            } else if idx == 1 {
                ":("
            } else if idx == 2 {
                ":D"
            } else if idx == 3 {
                "xD"
            } else if idx == 4 {
                ":o"
            } else {
                ":P"
            };
            proof {
                if idx == 0 {
                    assert(r@ == spec_reaction_pool()[0]);
                } else if idx == 1 {
                    assert(r@ == spec_reaction_pool()[1]);
                } else if idx == 2 {
                    assert(r@ == spec_reaction_pool()[2]);
                } else if idx == 3 {
                    assert(r@ == spec_reaction_pool()[3]);
                } else if idx == 4 {
                    assert(r@ == spec_reaction_pool()[4]);
                } else {
                    assert(r@ == spec_reaction_pool()[5]);
                }
                assert forall|i: int|
                    0 <= i < spec_reaction_pool().len() implies (#[trigger] spec_reaction_pool()[i]).len()
                    > 0 by {
                    if i == 0 {
                    } else if i == 1 {
                    } else if i == 2 {
                    } else if i == 3 {
                    } else if i == 4 {
                    } else {
                    }
                }
            }
            r
        } else {
            ""
        }
    }
}

} // verus!
