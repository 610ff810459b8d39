//! The callback state machine: the tagged wire format of the interactive
//! controls, its encoder and validating decoder, the keyboards, and the
//! handler that interprets an inbound callback action.
//!
//! Every payload is `<action>:<integer>`: `grow` and `back` carry the
//! identity of the player the control belongs to, `remove` the id of the
//! message to delete.  The decoder accepts exactly the encoder's output;
//! a payload with a known action but a mangled integer is a validation
//! failure, a payload with an unknown action an explicit unknown-command
//! response.  Whatever the outcome, the transport acknowledgement of the
//! callback is owed by the caller on every branch.

use vstd::prelude::*;
use vstd::string::*;

use crate::config::GameConfig;
use crate::database::{spec_has_pig, spec_pig_index, spec_pig_row, spec_rank, Database, Pig};
use crate::game::render::{
    bad_payload_text, no_pig_short_text, not_yours_grow_text, not_yours_pig_text,
    spec_bad_payload_text, spec_feed_text, spec_no_pig_short_text, spec_not_yours_grow_text,
    spec_not_yours_pig_text, spec_pig_info_text, spec_unknown_callback_text, storage_error_text,
    unknown_callback_text,
};
use crate::game::{spec_fed, spec_growth_delta_ok, PigGameModule};
use crate::growth::spec_apply_growth;
use crate::modules::{AuthorizationError, Button, Keyboard, ValidationError};
use crate::text::{
    i64_to_string, lemma_parse_inverts_render, parse_i64, spec_dec_int, spec_parse_i64,
};

verus! {

/// One decoded callback action.
#[derive(Clone, Copy, Debug, PartialEq, Eq, Structural)]
pub enum CallbackAction {
    /// Run one growth cycle for the pig of the named player.
    Grow(i64),
    /// Delete the control message, and the named original message where
    /// the acting agent holds the privilege.
    Remove(i64),
    /// Re-render the info view of the named player's pig.
    Back(i64),
}

/// The canonical encoding of an action.
pub open spec fn spec_encode_action(a: CallbackAction) -> Seq<char> {
    match a {
        CallbackAction::Grow(u) => "grow:"@ + spec_dec_int(u as int),
        CallbackAction::Remove(m) => "remove:"@ + spec_dec_int(m as int),
        CallbackAction::Back(u) => "back:"@ + spec_dec_int(u as int),
    }
}

/// The payload opens with one of the three known action names.
pub open spec fn spec_has_action_prefix(s: Seq<char>) -> bool {
    ||| (s.len() >= 5 && s.take(5) == "grow:"@)
    ||| (s.len() >= 7 && s.take(7) == "remove:"@)
    ||| (s.len() >= 5 && s.take(5) == "back:"@)
}

/// The action a payload denotes, if it is a well-formed encoding.
pub open spec fn spec_parse_action(s: Seq<char>) -> Option<CallbackAction> {
    if s.len() >= 5 && s.take(5) == "grow:"@ {
        match spec_parse_i64(s.skip(5)) {
            Some(v) => Some(CallbackAction::Grow(v as i64)),
            None => None,
        }
    } else if s.len() >= 7 && s.take(7) == "remove:"@ {
        match spec_parse_i64(s.skip(7)) {
            Some(v) => Some(CallbackAction::Remove(v as i64)),
            None => None,
        }
    } else if s.len() >= 5 && s.take(5) == "back:"@ {
        match spec_parse_i64(s.skip(5)) {
            Some(v) => Some(CallbackAction::Back(v as i64)),
            None => None,
        }
    } else {
        None
    }
}

/// Decoding inverts encoding: every action's payload decodes back to
/// exactly that action.
pub proof fn lemma_callback_round_trip(a: CallbackAction)
    ensures
        spec_parse_action(spec_encode_action(a)) == Some(a),
{
    reveal_strlit("grow:");
    reveal_strlit("remove:");
    reveal_strlit("back:");
    let s = spec_encode_action(a);
    match a {
        CallbackAction::Grow(u) => {
            assert(s.take(5) =~= "grow:"@);
            assert(s.skip(5) =~= spec_dec_int(u as int));
            lemma_parse_inverts_render(u as int);
        },
        CallbackAction::Remove(m) => {
            assert(s.len() >= 7);
            assert(s.take(7) =~= "remove:"@);
            assert(s.take(5)[0] == 'r');
            assert("grow:"@[0] == 'g');
            assert(s.take(5) != "grow:"@);
            assert(s.skip(7) =~= spec_dec_int(m as int));
            lemma_parse_inverts_render(m as int);
        },
        CallbackAction::Back(u) => {
            assert(s.take(5)[0] == 'b');
            assert("grow:"@[0] == 'g');
            assert(s.take(5) != "grow:"@);
            if s.len() >= 7 {
                assert(s.take(7)[0] == 'b');
                assert("remove:"@[0] == 'r');
                assert(s.take(7) != "remove:"@);
            }
            assert(s.take(5) =~= "back:"@);
            assert(s.skip(5) =~= spec_dec_int(u as int));
            lemma_parse_inverts_render(u as int);
        },
    }
}

/// Whether the string opens with the given prefix.
fn has_prefix(s: &str, prefix: &str) -> (r: bool)
    ensures
        r == (s@.len() >= prefix@.len() && s@.take(prefix@.len() as int) == prefix@),
{
    let sn = s.unicode_len();
    let pn = prefix.unicode_len();
    if sn < pn {
        return false;
    }
    let mut i: usize = 0;
    while i < pn
        invariant
            sn == s@.len(),
            pn == prefix@.len(),
            pn <= sn,
            i <= pn,
            forall|j: int| 0 <= j < i ==> s@[j] == prefix@[j],
        decreases pn - i,
    {
        if s.get_char(i) != prefix.get_char(i) {
            proof {
                assert(s@.take(pn as int)[i as int] == s@[i as int]);
            }
            return false;
        }
        i = i + 1;
    }
    proof {
        assert(s@.take(pn as int) =~= prefix@);
    }
    true
}

/// Encodes an action into its wire payload.
pub fn encode_callback_action(a: &CallbackAction) -> (out: String)
    ensures
        out@ == spec_encode_action(*a),
{
    match a {
        CallbackAction::Grow(u) => {
            let mut out = String::from_str("grow:");
            out.append(i64_to_string(*u).as_str());
            proof {
                assert(out@ =~= spec_encode_action(*a));
            }
            out
        },
        CallbackAction::Remove(m) => {
            let mut out = String::from_str("remove:");
            out.append(i64_to_string(*m).as_str());
            proof {
                assert(out@ =~= spec_encode_action(*a));
            }
            out
        },
        CallbackAction::Back(u) => {
            let mut out = String::from_str("back:");
            out.append(i64_to_string(*u).as_str());
            proof {
                assert(out@ =~= spec_encode_action(*a));
            }
            out
        },
    }
}

/// Decodes a wire payload.  A payload with a known action name but a
/// mangled integer is rejected as malformed; one with no known action name
/// is reported as unknown.
pub fn parse_callback_action(data: &str) -> (r: Result<CallbackAction, ValidationError>)
    ensures
        match spec_parse_action(data@) {
            Some(a) => r == Result::<CallbackAction, ValidationError>::Ok(a),
            None => r == (if spec_has_action_prefix(data@) {
                Result::<CallbackAction, ValidationError>::Err(ValidationError::MalformedPayload)
            } else {
                Result::<CallbackAction, ValidationError>::Err(ValidationError::UnknownAction)
            }),
        },
{
    let n = data.unicode_len();
    if has_prefix(data, "grow:") {
        proof {
            reveal_strlit("grow:");
        }
        let rest = data.substring_char(5, n);
        match parse_i64(rest) {
            Some(v) => Ok(CallbackAction::Grow(v)),
            None => Err(ValidationError::MalformedPayload),
        }
    } else if has_prefix(data, "remove:") {
        proof {
            reveal_strlit("remove:");
        }
        let rest = data.substring_char(7, n);
        match parse_i64(rest) {
            Some(v) => Ok(CallbackAction::Remove(v)),
            None => Err(ValidationError::MalformedPayload),
        }
    } else if has_prefix(data, "back:") {
        proof {
            reveal_strlit("back:");
            reveal_strlit("grow:");
            reveal_strlit("remove:");
        }
        let rest = data.substring_char(5, n);
        match parse_i64(rest) {
            Some(v) => Ok(CallbackAction::Back(v)),
            None => Err(ValidationError::MalformedPayload),
        }
    } else {
        proof {
            reveal_strlit("back:");
            reveal_strlit("grow:");
            reveal_strlit("remove:");
        }
        Err(ValidationError::UnknownAction)
    }
}

/// The identity gate of the callback controls: the acting player must be
/// the player the control was issued for.
pub fn authorize_actor(actor: i64, owner: i64) -> (r: Result<(), AuthorizationError>)
    ensures
        actor == owner <==> r == Result::<(), AuthorizationError>::Ok(()),
        actor != owner <==> r == Result::<(), AuthorizationError>::Err(
            AuthorizationError::NotOwner,
        ),
{
    if actor == owner {
        Ok(())
    } else {
        Err(AuthorizationError::NotOwner)
    }
}

/// The control set under an info view: a grow control for the owner and a
/// remove control naming the command message.
pub open spec fn spec_is_pig_keyboard(k: Keyboard, user_id: i64, command_message_id: i64) -> bool {
    &&& k.rows@.len() == 2
    &&& k.rows@[0]@.len() == 1
    &&& k.rows@[0]@[0].label@ == "Grow!"@
    &&& k.rows@[0]@[0].action@ == spec_encode_action(CallbackAction::Grow(user_id))
    &&& k.rows@[1]@.len() == 1
    &&& k.rows@[1]@[0].label@ == "Delete"@
    &&& k.rows@[1]@[0].action@ == spec_encode_action(CallbackAction::Remove(command_message_id))
}

/// The control set under a growth report: a single back control.
pub open spec fn spec_is_grow_keyboard(k: Keyboard, user_id: i64) -> bool {
    &&& k.rows@.len() == 1
    &&& k.rows@[0]@.len() == 1
    &&& k.rows@[0]@[0].label@ == "Back"@
    &&& k.rows@[0]@[0].action@ == spec_encode_action(CallbackAction::Back(user_id))
}

/// What the handler asks the transport to do, beside the acknowledgement
/// that is owed on every branch.
pub enum CallbackOutcome {
    /// Replace the control message's text and control set.
    Edit { text: String, keyboard: Keyboard },
    /// Show an ephemeral notice to the acting player only.
    Notice { text: String },
    /// Delete the control message; delete the named original message too
    /// when it is given here.
    Delete { original: Option<i64> },
    /// Nothing to do: the callback carried no payload.
    Ignore,
}

/// What interpreting one callback payload leaves behind.  The identity
/// gate of `grow` and `back` rejects any actor other than the player the
/// control was issued for, with no storage change; `remove` deletes the
/// control message and, only under privilege, the original message; a
/// mangled or unknown payload changes nothing and yields the fitting
/// notice.
pub open spec fn spec_callback_post(
    payload: Seq<char>,
    s: Seq<Pig>,
    t: Seq<Pig>,
    r: CallbackOutcome,
    chat_id: i64,
    user_id: i64,
    message_id: i64,
    privileged: bool,
    now_ms: u64,
    c: GameConfig,
) -> bool {
    match spec_parse_action(payload) {
        None => t == s && (r matches CallbackOutcome::Notice { text } && text@ == (
        if spec_has_action_prefix(payload) {
            spec_bad_payload_text()
        } else {
            spec_unknown_callback_text()
        })),
        Some(a) => match a {
            CallbackAction::Grow(owner) => {
                if owner != user_id {
                    t == s && (r matches CallbackOutcome::Notice { text } && text@
                        == spec_not_yours_grow_text())
                } else if spec_has_pig(s, chat_id, user_id) {
                    let at = spec_pig_index(s, chat_id, user_id);
                    let row = spec_pig_row(s, chat_id, user_id);
                    exists|delta: int|
                        #![auto]
                        spec_growth_delta_ok(s, row, delta, c) && t == s.update(
                            at,
                            spec_fed(row, now_ms, delta),
                        ) && (r matches CallbackOutcome::Edit { text, keyboard } && text@
                            == spec_feed_text(
                            row.name@,
                            delta,
                            spec_apply_growth(row.weight as int, delta),
                        ) && spec_is_grow_keyboard(keyboard, user_id))
                } else {
                    t == s && (r matches CallbackOutcome::Notice { text } && text@
                        == spec_no_pig_short_text())
                }
            },
            CallbackAction::Back(owner) => {
                if owner != user_id {
                    t == s && (r matches CallbackOutcome::Notice { text } && text@
                        == spec_not_yours_pig_text())
                } else if spec_has_pig(s, chat_id, user_id) {
                    let row = spec_pig_row(s, chat_id, user_id);
                    t == s && (r matches CallbackOutcome::Edit { text, keyboard } && text@
                        == spec_pig_info_text(row.name@, row.weight as int, spec_rank(s, row))
                        && spec_is_pig_keyboard(keyboard, user_id, message_id))
                } else {
                    t == s && (r matches CallbackOutcome::Notice { text } && text@
                        == spec_no_pig_short_text())
                }
            },
            CallbackAction::Remove(original) => {
                t == s && r == (CallbackOutcome::Delete {
                    original: if privileged {
                        Some(original)
                    } else {
                        None
                    },
                })
            },
        },
    }
}

/// The identity gate: a grow payload issued for one player and acted on
/// by a different player changes no storage row and yields exactly the
/// "not yours" notice.
pub proof fn lemma_callback_identity_gate(
    payload: Seq<char>,
    s: Seq<Pig>,
    t: Seq<Pig>,
    r: CallbackOutcome,
    chat_id: i64,
    user_id: i64,
    message_id: i64,
    privileged: bool,
    now_ms: u64,
    c: GameConfig,
    owner: i64,
)
    requires
        spec_parse_action(payload) == Some(CallbackAction::Grow(owner)),
        owner != user_id,
        spec_callback_post(payload, s, t, r, chat_id, user_id, message_id, privileged, now_ms, c),
    ensures
        t == s,
        r matches CallbackOutcome::Notice { text } && text@ == spec_not_yours_grow_text(),
{
}

impl PigGameModule {
    /// Interprets one inbound callback: decodes the payload, re-validates
    /// the acting player's identity, and produces the edit, notice or
    /// deletion the transport should perform.  The caller owes the
    /// transport acknowledgement of the callback on every branch.
    pub fn handle_callback_query(
        &self,
        data: Option<&str>,
        chat_id: i64,
        user_id: i64,
        message_id: i64,
        privileged: bool,
        now_ms: u64,
        db: &mut Database,
        config: &GameConfig,
    ) -> (r: CallbackOutcome)
        requires
            old(db).wf(),
            config.wf(),
        ensures
            final(db).wf(),
            final(db).loot_rows() == old(db).loot_rows(),
            data is None ==> (r is Ignore && final(db).pig_rows() == old(db).pig_rows()),
            data matches Some(d) ==> spec_callback_post(
                d@,
                old(db).pig_rows(),
                final(db).pig_rows(),
                r,
                chat_id,
                user_id,
                message_id,
                privileged,
                now_ms,
                *config,
            ),
    {
        let payload = match data {
            Some(d) => d,
            None => {
                return CallbackOutcome::Ignore;
            },
        };
        match parse_callback_action(payload) {
            Err(ValidationError::MalformedPayload) => CallbackOutcome::Notice {
                text: bad_payload_text(),
            },
            Err(_) => CallbackOutcome::Notice { text: unknown_callback_text() },
            Ok(CallbackAction::Grow(owner)) => {
                match authorize_actor(user_id, owner) {
                    Err(_) => CallbackOutcome::Notice { text: not_yours_grow_text() },
                    Ok(_) => {
                        match db.get_pig(chat_id, user_id) {
                            Some(mut pig) => {
                                match self.feed_pig(&mut pig, now_ms, db, config) {
                                    Ok(text) => CallbackOutcome::Edit {
                                        text,
                                        keyboard: self.create_grow_keyboard(user_id),
                                    },
                                    Err(_) => CallbackOutcome::Notice {
                                        text: storage_error_text(),
                                    },
                                }
                            },
                            None => CallbackOutcome::Notice { text: no_pig_short_text() },
                        }
                    },
                }
            },
            Ok(CallbackAction::Back(owner)) => {
                match authorize_actor(user_id, owner) {
                    Err(_) => CallbackOutcome::Notice { text: not_yours_pig_text() },
                    Ok(_) => {
                        match db.get_pig(chat_id, user_id) {
                            Some(pig) => {
                                proof {
                                    let s = old(db).pig_rows();
                                    let at = spec_pig_index(s, chat_id, user_id);
                                    assert(0 <= at < s.len());
                                    assert(0 <= s[at].weight);
                                    let row = spec_pig_row(s, chat_id, user_id);
                                    assert(pig == row);
                                    assert(pig.chat_id == chat_id && pig.user_id == user_id);
                                }
                                let text = self.format_pig_info(&pig, db);
                                CallbackOutcome::Edit {
                                    text,
                                    keyboard: self.create_pig_keyboard(user_id, message_id),
                                }
                            },
                            None => CallbackOutcome::Notice { text: no_pig_short_text() },
                        }
                    },
                }
            },
            Ok(CallbackAction::Remove(original)) => {
                CallbackOutcome::Delete {
                    original: if privileged {
                        Some(original)
                    } else {
                        None
                    },
                }
            },
        }
    }

    /// The control set attached to an info view.
    pub fn create_pig_keyboard(&self, user_id: i64, command_message_id: i64) -> (k: Keyboard)
        ensures
            spec_is_pig_keyboard(k, user_id, command_message_id),
    {
        let grow_button = Button {
            label: String::from_str("Grow!"),
            action: encode_callback_action(&CallbackAction::Grow(user_id)),
        };
        let remove_button = Button {
            label: String::from_str("Delete"),
            action: encode_callback_action(&CallbackAction::Remove(command_message_id)),
        };
        let mut row0: Vec<Button> = Vec::new();
        row0.push(grow_button);
        let mut row1: Vec<Button> = Vec::new();
        row1.push(remove_button);
        let mut rows: Vec<Vec<Button>> = Vec::new();
        rows.push(row0);
        rows.push(row1);
        Keyboard { rows }
    }

    /// The control set attached to a growth report.
    pub fn create_grow_keyboard(&self, user_id: i64) -> (k: Keyboard)
        ensures
            spec_is_grow_keyboard(k, user_id),
    {
        let back_button = Button {
            label: String::from_str("Back"),
            action: encode_callback_action(&CallbackAction::Back(user_id)),
        };
        let mut row0: Vec<Button> = Vec::new();
        row0.push(back_button);
        let mut rows: Vec<Vec<Button>> = Vec::new();
        rows.push(row0);
        Keyboard { rows }
    }
}

} // verus!
