//! The message templates of the game: each template exists once as a spec
//! function over character sequences — the statement of what is said — and
//! once as an executable builder proved to produce exactly that text.

use vstd::prelude::*;
use vstd::string::*;

use crate::database::Pig;
use crate::text::{i64_to_string, spec_dec_int, spec_dec_nat, u64_to_string};

verus! {

/// "You already have a pig" — the creation command found an existing row.
pub open spec fn spec_already_have_text(name: Seq<char>, weight: int) -> Seq<char> {
    "You already have a pig: "@ + name + " (weight: "@ + spec_dec_nat(weight as nat) + ")"@
}

pub fn already_have_text(name: &str, weight: i64) -> (out: String)
    requires
        weight >= 0,
    ensures
        out@ == spec_already_have_text(name@, weight as int),
{
    let mut out = String::from_str("You already have a pig: ");
    out.append(name);
    out.append(" (weight: ");
    out.append(u64_to_string(weight as u64).as_str());
    out.append(")");
    proof {
        assert(out@ =~= spec_already_have_text(name@, weight as int));
    }
    out
}

/// The creation announcement.
pub open spec fn spec_created_text(username: Seq<char>, name: Seq<char>, weight: int) -> Seq<
    char,
> {
    "Congratulations! "@ + username + " created a pig: "@ + name + " (weight: "@ + spec_dec_nat(
        weight as nat,
    ) + ")"@
}

pub fn created_text(username: &str, name: &str, weight: i64) -> (out: String)
    requires
        weight >= 0,
    ensures
        out@ == spec_created_text(username@, name@, weight as int),
{
    let mut out = String::from_str("Congratulations! ");
    out.append(username);
    out.append(" created a pig: ");
    out.append(name);
    out.append(" (weight: ");
    out.append(u64_to_string(weight as u64).as_str());
    out.append(")");
    proof {
        assert(out@ =~= spec_created_text(username@, name@, weight as int));
    }
    out
}

/// Creation failed in the store.
pub open spec fn spec_create_failed_text() -> Seq<char> {
    "Could not create your pig."@
}

pub fn create_failed_text() -> (out: String)
    ensures
        out@ == spec_create_failed_text(),
{
    String::from_str("Could not create your pig.")
}

/// The generic internal-error report for a storage failure.
pub open spec fn spec_storage_error_text() -> Seq<char> {
    "Storage error, try again later."@
}

pub fn storage_error_text() -> (out: String)
    ensures
        out@ == spec_storage_error_text(),
{
    String::from_str("Storage error, try again later.")
}

/// The growth report: one template per sign of the delta.
pub open spec fn spec_feed_text(name: Seq<char>, delta: int, weight: int) -> Seq<char> {
    if delta > 0 {
        "Your pig "@ + name + " gained "@ + spec_dec_nat(delta as nat) + " kg. It now weighs "@
            + spec_dec_nat(weight as nat) + " kg."@
    } else if delta < 0 {
        "Your pig "@ + name + " lost "@ + spec_dec_nat((-delta) as nat) + " kg. It now weighs "@
            + spec_dec_nat(weight as nat) + " kg."@
    } else {
        "Your pig "@ + name + " did not gain anything. It still weighs "@ + spec_dec_nat(
            weight as nat,
        ) + " kg."@
    }
}

pub fn feed_text(name: &str, delta: i64, weight: i64) -> (out: String)
    requires
        weight >= 0,
        delta > i64::MIN,
    ensures
        out@ == spec_feed_text(name@, delta as int, weight as int),
{
    let mut out = String::from_str("Your pig ");
    out.append(name);
    if delta > 0 {
        out.append(" gained ");
        out.append(u64_to_string(delta as u64).as_str());
        out.append(" kg. It now weighs ");
        out.append(u64_to_string(weight as u64).as_str());
        out.append(" kg.");
    } else if delta < 0 {
        out.append(" lost ");
        out.append(u64_to_string((-delta) as u64).as_str());
        out.append(" kg. It now weighs ");
        out.append(u64_to_string(weight as u64).as_str());
        out.append(" kg.");
    } else {
        out.append(" did not gain anything. It still weighs ");
        out.append(u64_to_string(weight as u64).as_str());
        out.append(" kg.");
    }
    proof {
        assert(out@ =~= spec_feed_text(name@, delta as int, weight as int));
    }
    out
}

/// The info view of the player's own pig, with its rank (zero when the
/// rank is unknown).
pub open spec fn spec_pig_info_text(name: Seq<char>, weight: int, rank: int) -> Seq<char> {
    "Your pig "@ + name + " weighs "@ + spec_dec_nat(weight as nat) + " kg. Rank in top: "@
        + spec_dec_nat(rank as nat) + "."@
}

pub fn pig_info_text(name: &str, weight: i64, rank: u64) -> (out: String)
    requires
        weight >= 0,
    ensures
        out@ == spec_pig_info_text(name@, weight as int, rank as int),
{
    let mut out = String::from_str("Your pig ");
    out.append(name);
    out.append(" weighs ");
    out.append(u64_to_string(weight as u64).as_str());
    out.append(" kg. Rank in top: ");
    out.append(u64_to_string(rank).as_str());
    out.append(".");
    proof {
        assert(out@ =~= spec_pig_info_text(name@, weight as int, rank as int));
    }
    out
}

/// There is no pig to act on; says how to create one.
pub open spec fn spec_no_pig_text() -> Seq<char> {
    "You have no pig yet! Create one with /pig <name>"@
}

pub fn no_pig_text() -> (out: String)
    ensures
        out@ == spec_no_pig_text(),
{
    String::from_str("You have no pig yet! Create one with /pig <name>")
}

/// The short form used by the read-only statistics view and the callbacks.
pub open spec fn spec_no_pig_short_text() -> Seq<char> {
    "You have no pig!"@
}

pub fn no_pig_short_text() -> (out: String)
    ensures
        out@ == spec_no_pig_short_text(),
{
    String::from_str("You have no pig!")
}

/// The statistics view of a found pig.
pub open spec fn spec_stats_text(name: Seq<char>, owner: Seq<char>, weight: int, barn: int) -> Seq<
    char,
> {
    name + " - owner: "@ + owner + ", weight: "@ + spec_dec_nat(weight as nat) + " kg, barn: "@
        + spec_dec_int(barn)
}

pub fn stats_text(name: &str, owner: &str, weight: i64, barn: i64) -> (out: String)
    requires
        weight >= 0,
    ensures
        out@ == spec_stats_text(name@, owner@, weight as int, barn as int),
{
    let mut out = String::from_str(name);
    out.append(" - owner: ");
    out.append(owner);
    out.append(", weight: ");
    out.append(u64_to_string(weight as u64).as_str());
    out.append(" kg, barn: ");
    out.append(i64_to_string(barn).as_str());
    proof {
        assert(out@ =~= spec_stats_text(name@, owner@, weight as int, barn as int));
    }
    out
}

/// The statistics view of the player's own pig.
pub open spec fn spec_own_stats_text(name: Seq<char>, weight: int, barn: int) -> Seq<char> {
    "Your pig: "@ + name + ", weight: "@ + spec_dec_nat(weight as nat) + " kg, barn: "@
        + spec_dec_int(barn)
}

pub fn own_stats_text(name: &str, weight: i64, barn: i64) -> (out: String)
    requires
        weight >= 0,
    ensures
        out@ == spec_own_stats_text(name@, weight as int, barn as int),
{
    let mut out = String::from_str("Your pig: ");
    out.append(name);
    out.append(", weight: ");
    out.append(u64_to_string(weight as u64).as_str());
    out.append(" kg, barn: ");
    out.append(i64_to_string(barn).as_str());
    proof {
        assert(out@ =~= spec_own_stats_text(name@, weight as int, barn as int));
    }
    out
}

/// No pig of that name was found.
pub open spec fn spec_not_found_text(query: Seq<char>) -> Seq<char> {
    "No pig named '"@ + query + "' was found"@
}

pub fn not_found_text(query: &str) -> (out: String)
    ensures
        out@ == spec_not_found_text(query@),
{
    let mut out = String::from_str("No pig named '");
    out.append(query);
    out.append("' was found");
    proof {
        assert(out@ =~= spec_not_found_text(query@));
    }
    out
}

/// The chat holds no pigs at all.
pub open spec fn spec_top_empty_text() -> Seq<char> {
    "There are no pigs in this chat yet."@
}

pub fn top_empty_text() -> (out: String)
    ensures
        out@ == spec_top_empty_text(),
{
    String::from_str("There are no pigs in this chat yet.")
}

/// One line of the ranking view.
pub open spec fn spec_top_line(pos: int, p: Pig) -> Seq<char> {
    "\n#"@ + spec_dec_nat(pos as nat) + " "@ + p.name@ + " - "@ + spec_dec_nat(p.weight as nat)
        + " kg (owner: "@ + p.owner_name@ + ")"@
}

/// The first `k` lines of the ranking view.
pub open spec fn spec_top_lines(rows: Seq<Pig>, k: int) -> Seq<char>
    decreases k,
{
    if k <= 0 {
        Seq::empty()
    } else {
        spec_top_lines(rows, k - 1) + spec_top_line(k, rows[k - 1])
    }
}

/// The ranking view: a header and one line for each of the top five rows.
pub open spec fn spec_top_text(rows: Seq<Pig>) -> Seq<char> {
    "Top 5 pigs in this chat:"@ + spec_top_lines(
        rows,
        if rows.len() <= 5 {
            rows.len() as int
        } else {
            5
        },
    )
}

pub fn top_text(rows: &Vec<Pig>) -> (out: String)
    requires
        forall|i: int| 0 <= i < rows@.len() ==> (#[trigger] rows@[i]).weight >= 0,
    ensures
        out@ == spec_top_text(rows@),
{
    let mut out = String::from_str("Top 5 pigs in this chat:");
    let limit: usize = if rows.len() <= 5 {
        rows.len()
    } else {
        5
    };
    let mut k: usize = 0;
    while k < limit
        invariant
            limit <= rows@.len(),
            k <= limit,
            forall|i: int| 0 <= i < rows@.len() ==> (#[trigger] rows@[i]).weight >= 0,
            out@ == "Top 5 pigs in this chat:"@ + spec_top_lines(rows@, k as int),
        decreases limit - k,
    {
        out.append("\n#");
        out.append(u64_to_string((k as u64) + 1).as_str());
        out.append(" ");
        out.append(rows[k].name.as_str());
        out.append(" - ");
        out.append(u64_to_string(rows[k].weight as u64).as_str());
        out.append(" kg (owner: ");
        out.append(rows[k].owner_name.as_str());
        out.append(")");
        proof {
            assert(out@ =~= "Top 5 pigs in this chat:"@ + spec_top_lines(rows@, k + 1));
        }
        k = k + 1;
    }
    proof {
        assert(out@ =~= spec_top_text(rows@));
    }
    out
}

/// The rename command was given no name.
pub open spec fn spec_name_prompt_text() -> Seq<char> {
    "Give the pig a name."@
}

pub fn name_prompt_text() -> (out: String)
    ensures
        out@ == spec_name_prompt_text(),
{
    String::from_str("Give the pig a name.")
}

/// The proposed name has too many user-perceived characters.
pub open spec fn spec_name_too_long_text() -> Seq<char> {
    "That name is too long: pick one under 32 characters."@
}

pub fn name_too_long_text() -> (out: String)
    ensures
        out@ == spec_name_too_long_text(),
{
    String::from_str("That name is too long: pick one under 32 characters.")
}

/// The rename succeeded.
pub open spec fn spec_renamed_text(name: Seq<char>) -> Seq<char> {
    "Your pig is now called "@ + name
}

pub fn renamed_text(name: &str) -> (out: String)
    ensures
        out@ == spec_renamed_text(name@),
{
    let mut out = String::from_str("Your pig is now called ");
    out.append(name);
    proof {
        assert(out@ =~= spec_renamed_text(name@));
    }
    out
}

/// The rename command created a pig, since none existed.
pub open spec fn spec_name_created_text(name: Seq<char>) -> Seq<char> {
    "Created a new pig named '"@ + name + "'!"@
}

pub fn name_created_text(name: &str) -> (out: String)
    ensures
        out@ == spec_name_created_text(name@),
{
    let mut out = String::from_str("Created a new pig named '");
    out.append(name);
    out.append("'!");
    proof {
        assert(out@ =~= spec_name_created_text(name@));
    }
    out
}

/// The keyword belongs to this module but names no known action.
pub open spec fn spec_unknown_pig_text() -> Seq<char> {
    "Unknown pig command"@
}

pub fn unknown_pig_text() -> (out: String)
    ensures
        out@ == spec_unknown_pig_text(),
{
    String::from_str("Unknown pig command")
}

/// The grow control belongs to another player.
pub open spec fn spec_not_yours_grow_text() -> Seq<char> {
    "This grow button is not yours!"@
}

pub fn not_yours_grow_text() -> (out: String)
    ensures
        out@ == spec_not_yours_grow_text(),
{
    String::from_str("This grow button is not yours!")
}

/// The info control belongs to another player.
pub open spec fn spec_not_yours_pig_text() -> Seq<char> {
    "This pig is not yours!"@
}

pub fn not_yours_pig_text() -> (out: String)
    ensures
        out@ == spec_not_yours_pig_text(),
{
    String::from_str("This pig is not yours!")
}

/// The callback payload names no known action.
pub open spec fn spec_unknown_callback_text() -> Seq<char> {
    "Unknown command"@
}

pub fn unknown_callback_text() -> (out: String)
    ensures
        out@ == spec_unknown_callback_text(),
{
    String::from_str("Unknown command")
}

/// The callback payload is not a well-formed action encoding.
pub open spec fn spec_bad_payload_text() -> Seq<char> {
    "Malformed callback data"@
}

pub fn bad_payload_text() -> (out: String)
    ensures
        out@ == spec_bad_payload_text(),
{
    String::from_str("Malformed callback data")
}

} // verus!
