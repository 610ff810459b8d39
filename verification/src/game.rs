//! The game session logic: one function per player command, each a
//! transition from the storage state and the inbound event to the new
//! storage state and the message handed back to the transport.
//!
//! The growth action records the feeding timestamp but enforces no
//! cooldown: the configured delays are stored and carried, as the game has
//! always behaved, and closing that gap is a deliberate, separate decision.
//! The starting weight of a fresh creature is a configuration default.

pub mod callbacks;
pub mod render;

use vstd::prelude::*;
use vstd::string::*;

use crate::config::GameConfig;
use crate::database::{
    row_matches, same_but_name, spec_count_chat, spec_has_pig, spec_name_matches, spec_pig_index,
    spec_pig_row, spec_rank, spec_ranked_rows, lemma_pig_index_is, lemma_count_before_lt_chat,
    Database, Pig, StorageError, ROW_LIMIT,
};
use crate::game::callbacks::spec_is_pig_keyboard;
use crate::game::render::{
    already_have_text, create_failed_text, created_text, feed_text, name_created_text,
    name_prompt_text, name_too_long_text, no_pig_short_text, no_pig_text, not_found_text,
    own_stats_text, pig_info_text, renamed_text, spec_already_have_text, spec_create_failed_text,
    spec_created_text, spec_feed_text, spec_name_created_text, spec_name_prompt_text,
    spec_name_too_long_text, spec_no_pig_short_text, spec_no_pig_text, spec_not_found_text,
    spec_own_stats_text, spec_pig_info_text, spec_renamed_text, spec_stats_text,
    spec_top_empty_text, spec_top_text, spec_unknown_pig_text, stats_text, storage_error_text,
    top_empty_text, top_text, unknown_pig_text,
};
use crate::growth::{
    apply_growth, compute_growth_range, random_in_range, sample_growth, spec_apply_growth,
    spec_max_gain, spec_max_loss, WEIGHT_LIMIT,
};
use crate::modules::{Response, ValidationError};
use crate::text::{
    grapheme_count, grapheme_count_of, join_space, spec_join_space, str_eq, views_of,
};

verus! {

/// The behaviour module that owns the creature game.
pub struct PigGameModule;

/// The fixed pool of default creature names.
pub open spec fn spec_default_names() -> Seq<Seq<char>> {
    seq![
        "Oinkers"@,
        "Porkchop"@,
        "Hamlet"@,
        "Truffle"@,
        "Snoutly"@,
        "Baconator"@,
        "Mudball"@,
        "Sir Oinksalot"@,
        "Pigasus"@,
        "Chop"@,
    ]
}

/// The name is one of the defaults.
pub open spec fn spec_is_default_name(nm: Seq<char>) -> bool {
    exists|i: int| 0 <= i < spec_default_names().len() && nm == spec_default_names()[i]
}

/// The name a command uses: the joined arguments, or a default when none
/// were given.
pub open spec fn spec_name_choice(nm: Seq<char>, args: Seq<Seq<char>>) -> bool {
    if args.len() == 0 {
        spec_is_default_name(nm)
    } else {
        nm == spec_join_space(args)
    }
}

/// A freshly created creature row: everything at its starting value.
pub open spec fn spec_new_row(
    p: Pig,
    chat_id: i64,
    user_id: i64,
    owner: Seq<char>,
    name: Seq<char>,
    start_weight: i64,
    id: int,
) -> bool {
    &&& p.id == id
    &&& p.chat_id == chat_id
    &&& p.user_id == user_id
    &&& p.weight == start_weight
    &&& p.name@ == name
    &&& p.owner_name@ == owner
    &&& p.last_feed == 0
    &&& p.last_salo == 0
    &&& p.salo == 0
    &&& !p.poisoned
    &&& p.barn == 0
    &&& p.pigsty == 0
    &&& p.vetclinic == 0
    &&& p.vet_last_pickup == 0
    &&& p.last_weight == 0
    &&& p.avatar_url is None
    &&& p.biolab == 0
    &&& p.butchery == 0
    &&& p.pills == 0
    &&& p.factory == 0
    &&& p.warehouse == 0
    &&& p.institute == 0
}

/// The row after one growth cycle: the feeding timestamp advanced and the
/// sampled delta applied to the weight, everything else untouched.  The
/// stored timestamps are monotonic: a clock reading behind the stored
/// value is clamped to it.
pub open spec fn spec_fed(p: Pig, now_ms: u64, delta: int) -> Pig {
    Pig {
        last_feed: if now_ms >= p.last_feed {
            now_ms
        } else {
            p.last_feed
        },
        weight: spec_apply_growth(p.weight as int, delta) as i64,
        ..p
    }
}

/// The delta lies in the growth range that the formula assigns to `row`
/// among `rows`.
pub open spec fn spec_growth_delta_ok(rows: Seq<Pig>, row: Pig, delta: int, c: GameConfig) -> bool {
    let rank = spec_rank(rows, row);
    let pop = spec_count_chat(rows, row.chat_id) as int;
    -spec_max_loss(
        row.weight as int,
        rank,
        pop,
        c.base_growth_milli as int,
        c.rank_factor_milli as int,
    ) <= delta <= spec_max_gain(row.weight as int, rank, pop, c.weight_factor_milli as int)
}

/// What the creation command leaves behind: an unchanged store and an
/// "already exists" report when the player has a creature, otherwise one
/// new row and the announcement, or the failure report when the store is
/// full.
pub open spec fn spec_pig_cmd_post(
    s: Seq<Pig>,
    t: Seq<Pig>,
    r: Response,
    chat_id: i64,
    user_id: i64,
    username: Seq<char>,
    args: Seq<Seq<char>>,
    c: GameConfig,
) -> bool {
    &&& r.keyboard is None
    &&& !r.reply
    &&& if spec_has_pig(s, chat_id, user_id) {
        let row = spec_pig_row(s, chat_id, user_id);
        t == s && r.text@ == spec_already_have_text(row.name@, row.weight as int)
    } else if s.len() < ROW_LIMIT {
        exists|nm: Seq<char>, p: Pig|
            #![auto]
            spec_name_choice(nm, args) && spec_new_row(
                p,
                chat_id,
                user_id,
                username,
                nm,
                c.start_weight,
                s.len() as int + 1,
            ) && t == s.push(p) && r.text@ == spec_created_text(username, nm, c.start_weight as int)
    } else {
        t == s && r.text@ == spec_create_failed_text()
    }
}

/// What the growth command leaves behind: one growth cycle on the
/// existing creature, or a fresh creature fed once, or the failure report
/// when the store is full.
pub open spec fn spec_grow_cmd_post(
    s: Seq<Pig>,
    t: Seq<Pig>,
    r: Response,
    chat_id: i64,
    user_id: i64,
    username: Seq<char>,
    args: Seq<Seq<char>>,
    now_ms: u64,
    c: GameConfig,
) -> bool {
    &&& r.keyboard is None
    &&& !r.reply
    &&& if spec_has_pig(s, chat_id, user_id) {
        let at = spec_pig_index(s, chat_id, user_id);
        let row = spec_pig_row(s, chat_id, user_id);
        exists|delta: int|
            #![auto]
            spec_growth_delta_ok(s, row, delta, c) && t == s.update(at, spec_fed(row, now_ms, delta))
                && r.text@ == spec_feed_text(
                row.name@,
                delta,
                spec_apply_growth(row.weight as int, delta),
            )
    } else if s.len() < ROW_LIMIT {
        exists|nm: Seq<char>, p: Pig, delta: int|
            #![auto]
            spec_name_choice(nm, args) && spec_new_row(
                p,
                chat_id,
                user_id,
                username,
                nm,
                c.start_weight,
                s.len() as int + 1,
            ) && spec_growth_delta_ok(s.push(p), p, delta, c) && t == s.push(p).update(
                s.len() as int,
                spec_fed(p, now_ms, delta),
            ) && r.text@ == spec_feed_text(nm, delta, spec_apply_growth(p.weight as int, delta))
    } else {
        t == s && r.text@ == spec_create_failed_text()
    }
}

/// What the info command leaves behind: an unchanged store, the info view
/// with the control set for the owner, or the help hint when the player
/// has no creature.
pub open spec fn spec_my_cmd_post(
    s: Seq<Pig>,
    t: Seq<Pig>,
    r: Response,
    chat_id: i64,
    user_id: i64,
    message_id: i64,
) -> bool {
    &&& t == s
    &&& !r.reply
    &&& if spec_has_pig(s, chat_id, user_id) {
        let row = spec_pig_row(s, chat_id, user_id);
        &&& r.text@ == spec_pig_info_text(row.name@, row.weight as int, spec_rank(s, row))
        &&& (r.keyboard matches Some(k) && spec_is_pig_keyboard(k, user_id, message_id))
    } else {
        r.text@ == spec_no_pig_text() && r.keyboard is None
    }
}

/// What the statistics command leaves behind: an unchanged store and the
/// view of the first name match, of the player's own creature, or the
/// fitting absence report.
pub open spec fn spec_pigstats_cmd_post(
    s: Seq<Pig>,
    t: Seq<Pig>,
    r: Response,
    chat_id: i64,
    user_id: i64,
    args: Seq<Seq<char>>,
) -> bool {
    &&& t == s
    &&& !r.reply
    &&& r.keyboard is None
    &&& if args.len() > 0 {
        let q = spec_join_space(args);
        let m = spec_name_matches(s, chat_id, q);
        if m.len() > 0 {
            r.text@ == spec_stats_text(m[0].name@, m[0].owner_name@, m[0].weight as int, m[0].barn as int)
        } else {
            r.text@ == spec_not_found_text(q)
        }
    } else if spec_has_pig(s, chat_id, user_id) {
        let row = spec_pig_row(s, chat_id, user_id);
        r.text@ == spec_own_stats_text(row.name@, row.weight as int, row.barn as int)
    } else {
        r.text@ == spec_no_pig_short_text()
    }
}

/// What the ranking command leaves behind: an unchanged store and the
/// five best rows, or the emptiness report.
pub open spec fn spec_top_cmd_post(s: Seq<Pig>, t: Seq<Pig>, r: Response, chat_id: i64) -> bool {
    &&& t == s
    &&& !r.reply
    &&& r.keyboard is None
    &&& {
        let ranked = spec_ranked_rows(s, chat_id);
        if ranked.len() == 0 {
            r.text@ == spec_top_empty_text()
        } else {
            r.text@ == spec_top_text(ranked)
        }
    }
}

/// What the rename command leaves behind.  A name of 32 or more
/// user-perceived characters is rejected and nothing changes; a shorter
/// one renames the existing creature or creates one under that name.
pub open spec fn spec_name_cmd_post(
    s: Seq<Pig>,
    t: Seq<Pig>,
    r: Response,
    chat_id: i64,
    user_id: i64,
    username: Seq<char>,
    args: Seq<Seq<char>>,
    c: GameConfig,
) -> bool {
    &&& r.keyboard is None
    &&& r.reply
    &&& if args.len() == 0 {
        t == s && r.text@ == spec_name_prompt_text()
    } else {
        let nm = spec_join_space(args);
        if grapheme_count_of(nm) >= 32 {
            t == s && r.text@ == spec_name_too_long_text()
        } else if spec_has_pig(s, chat_id, user_id) {
            let at = spec_pig_index(s, chat_id, user_id);
            &&& t.len() == s.len()
            &&& forall|j: int| 0 <= j < s.len() && j != at ==> t[j] == s[j]
            &&& same_but_name(t[at], s[at])
            &&& t[at].name@ == nm
            &&& r.text@ == spec_renamed_text(nm)
        } else if s.len() < ROW_LIMIT {
            exists|p: Pig|
                #![auto]
                spec_new_row(p, chat_id, user_id, username, nm, c.start_weight, s.len() as int + 1) && t
                    == s.push(p) && r.text@ == spec_name_created_text(nm)
        } else {
            t == s && r.text@ == spec_create_failed_text()
        }
    }
}

/// The whole behaviour of the command dispatcher, keyed on the command
/// keyword: each keyword's clause, and the unknown-command report for any
/// other keyword.
pub open spec fn spec_pig_command_post(
    cmd: Seq<char>,
    s: Seq<Pig>,
    t: Seq<Pig>,
    r: Response,
    chat_id: i64,
    user_id: i64,
    username: Seq<char>,
    args: Seq<Seq<char>>,
    message_id: i64,
    now_ms: u64,
    c: GameConfig,
) -> bool {
    if cmd == "pig"@ {
        spec_pig_cmd_post(s, t, r, chat_id, user_id, username, args, c)
    } else if cmd == "grow"@ {
        spec_grow_cmd_post(s, t, r, chat_id, user_id, username, args, now_ms, c)
    } else if cmd == "my"@ {
        spec_my_cmd_post(s, t, r, chat_id, user_id, message_id)
    } else if cmd == "pigstats"@ {
        spec_pigstats_cmd_post(s, t, r, chat_id, user_id, args)
    } else if cmd == "top"@ {
        spec_top_cmd_post(s, t, r, chat_id)
    } else if cmd == "name"@ {
        spec_name_cmd_post(s, t, r, chat_id, user_id, username, args, c)
    } else {
        t == s && r.text@ == spec_unknown_pig_text() && r.keyboard is None && !r.reply
    }
}

/// Creation is exactly once: when the first creation command has left the
/// player with a creature, a second creation command for the same player
/// leaves the store exactly as it was and answers that the creature
/// already exists — for every store, with no bound.  Below the store's
/// capacity the first command is moreover guaranteed to have added exactly
/// one row.
pub proof fn lemma_creation_exactly_once(
    s: Seq<Pig>,
    t1: Seq<Pig>,
    r1: Response,
    t2: Seq<Pig>,
    r2: Response,
    chat_id: i64,
    user_id: i64,
    username1: Seq<char>,
    username2: Seq<char>,
    args1: Seq<Seq<char>>,
    args2: Seq<Seq<char>>,
    c: GameConfig,
)
    requires
        !spec_has_pig(s, chat_id, user_id),
        spec_pig_cmd_post(s, t1, r1, chat_id, user_id, username1, args1, c),
        spec_pig_cmd_post(t1, t2, r2, chat_id, user_id, username2, args2, c),
    ensures
        spec_has_pig(t1, chat_id, user_id) ==> t2 == t1 && r2.text@ == spec_already_have_text(
            spec_pig_row(t1, chat_id, user_id).name@,
            spec_pig_row(t1, chat_id, user_id).weight as int,
        ),
        s.len() < ROW_LIMIT ==> t1.len() == s.len() + 1 && spec_has_pig(t1, chat_id, user_id),
{
    if s.len() < ROW_LIMIT {
        let (nm, p) = choose|nm: Seq<char>, p: Pig|
            #![auto]
            spec_name_choice(nm, args1) && spec_new_row(
                p,
                chat_id,
                user_id,
                username1,
                nm,
                c.start_weight,
                s.len() as int + 1,
            ) && t1 == s.push(p) && r1.text@ == spec_created_text(
                username1,
                nm,
                c.start_weight as int,
            );
        assert(t1[s.len() as int] == p);
        assert(row_matches(t1[s.len() as int], chat_id, user_id));
        assert(spec_has_pig(t1, chat_id, user_id));
    }
}

/// The read-only info path is idempotent: two successive info commands on
/// the same store change nothing and produce byte-identical output.
pub proof fn lemma_info_idempotent(
    s: Seq<Pig>,
    t1: Seq<Pig>,
    r1: Response,
    t2: Seq<Pig>,
    r2: Response,
    chat_id: i64,
    user_id: i64,
    message_id: i64,
)
    requires
        spec_my_cmd_post(s, t1, r1, chat_id, user_id, message_id),
        spec_my_cmd_post(t1, t2, r2, chat_id, user_id, message_id),
    ensures
        t1 == s,
        t2 == s,
        r2.text@ == r1.text@,
{
}

/// The read-only statistics path is idempotent in the same way.
pub proof fn lemma_stats_idempotent(
    s: Seq<Pig>,
    t1: Seq<Pig>,
    r1: Response,
    t2: Seq<Pig>,
    r2: Response,
    chat_id: i64,
    user_id: i64,
    args: Seq<Seq<char>>,
)
    requires
        spec_pigstats_cmd_post(s, t1, r1, chat_id, user_id, args),
        spec_pigstats_cmd_post(t1, t2, r2, chat_id, user_id, args),
    ensures
        t1 == s,
        t2 == s,
        r2.text@ == r1.text@,
{
}

impl PigGameModule {
    /// A fresh module value; the module itself carries no state.
    pub fn new() -> (m: PigGameModule) {
        PigGameModule
    }

    /// The growth range of one creature, from its score, rank, population
    /// and the tunables; a thin door to the growth engine.
    pub fn calculate_grow_range(
        &self,
        score: i64,
        rank: i64,
        total_players: i64,
        config: &GameConfig,
    ) -> (r: (i64, i64))
        requires
            config.wf(),
            crate::growth::spec_growth_inputs_ok(score as int, rank as int, total_players as int),
        ensures
            r.0 == -spec_max_loss(
                score as int,
                rank as int,
                total_players as int,
                config.base_growth_milli as int,
                config.rank_factor_milli as int,
            ),
            r.1 == spec_max_gain(
                score as int,
                rank as int,
                total_players as int,
                config.weight_factor_milli as int,
            ),
            r.0 <= -15 && 35 <= r.1,
    {
        compute_growth_range(score, rank, total_players, config)
    }

    /// Picks one of the default creature names at random.
    pub fn generate_default_pig_name(&self) -> (s: String)
        ensures
            spec_is_default_name(s@),
    {
        let idx = random_in_range(0, 9);
        let name: &'static str = if idx == 0 {
            "Oinkers"
        } else if idx == 1 {
            "Porkchop"
        } else if idx == 2 {
            "Hamlet"
        } else if idx == 3 {
            "Truffle"
        } else if idx == 4 {
            "Snoutly"
        } else if idx == 5 {
            "Baconator"
        } else if idx == 6 {
            "Mudball"
        } else if idx == 7 {
            "Sir Oinksalot"
        } else if idx == 8 {
            "Pigasus"
        } else {
            "Chop"
        };
        proof {
            assert(spec_default_names().len() == 10);
            if idx == 0 {
                assert(name@ == spec_default_names()[0]);
            } else if idx == 1 {
                assert(name@ == spec_default_names()[1]);
            } else if idx == 2 {
                assert(name@ == spec_default_names()[2]);
            } else if idx == 3 {
                assert(name@ == spec_default_names()[3]);
            } else if idx == 4 {
                assert(name@ == spec_default_names()[4]);
            } else if idx == 5 {
                assert(name@ == spec_default_names()[5]);
            } else if idx == 6 {
                assert(name@ == spec_default_names()[6]);
            } else if idx == 7 {
                assert(name@ == spec_default_names()[7]);
            } else if idx == 8 {
                assert(name@ == spec_default_names()[8]);
            } else {
                assert(name@ == spec_default_names()[9]);
            }
        }
        String::from_str(name)
    }

    /// Checks a proposed display name against the bound on user-perceived
    /// characters.
    pub fn validate_name(&self, name: &str) -> (r: Result<(), ValidationError>)
        ensures
            grapheme_count_of(name@) < 32 <==> r == Result::<(), ValidationError>::Ok(()),
            grapheme_count_of(name@) >= 32 <==> r == Result::<(), ValidationError>::Err(
                ValidationError::NameTooLong,
            ),
    {
        if grapheme_count(name) >= 32 {
            Err(ValidationError::NameTooLong)
        } else {
            Ok(())
        }
    }

    /// Creates a creature for the player with every field at its starting
    /// value; the creation policy for the starting weight comes from the
    /// configuration.
    pub fn create_new_pig(
        &self,
        chat_id: i64,
        user_id: i64,
        owner_name: &str,
        pig_name: &str,
        config: &GameConfig,
        db: &mut Database,
    ) -> (r: Result<Pig, StorageError>)
        requires
            old(db).wf(),
            config.wf(),
        ensures
            final(db).wf(),
            final(db).loot_rows() == old(db).loot_rows(),
            spec_has_pig(old(db).pig_rows(), chat_id, user_id) ==> r == Result::<
                Pig,
                StorageError,
            >::Err(StorageError::DuplicateKey) && final(db).pig_rows() == old(db).pig_rows(),
            !spec_has_pig(old(db).pig_rows(), chat_id, user_id) && old(db).pig_rows().len()
                < ROW_LIMIT ==> (r matches Ok(p) && spec_new_row(
                p,
                chat_id,
                user_id,
                owner_name@,
                pig_name@,
                config.start_weight,
                old(db).pig_rows().len() as int + 1,
            ) && final(db).pig_rows() == old(db).pig_rows().push(p)),
            !spec_has_pig(old(db).pig_rows(), chat_id, user_id) && old(db).pig_rows().len()
                >= ROW_LIMIT ==> r == Result::<Pig, StorageError>::Err(
                StorageError::CapacityExceeded,
            ) && final(db).pig_rows() == old(db).pig_rows(),
    {
        let draft = Pig {
            id: 0,
            chat_id,
            user_id,
            weight: config.start_weight,
            name: String::from_str(pig_name),
            last_feed: 0,
            last_salo: 0,
            owner_name: String::from_str(owner_name),
            salo: 0,
            poisoned: false,
            barn: 0,
            pigsty: 0,
            vetclinic: 0,
            vet_last_pickup: 0,
            last_weight: 0,
            avatar_url: None,
            biolab: 0,
            butchery: 0,
            pills: 0,
            factory: 0,
            warehouse: 0,
            institute: 0,
        };
        db.create_pig(&draft)
    }

    /// One growth cycle: records the feeding timestamp (never moving it
    /// backwards — a lagging clock is clamped to the stored value), reads
    /// the population and the creature's rank, samples a delta from the
    /// engine's range, applies it with the floor at one kilogram, persists
    /// the row, and reports the outcome.
    pub fn feed_pig(&self, pig: &mut Pig, now_ms: u64, db: &mut Database, config: &GameConfig) -> (
        r: Result<String, StorageError>)
        requires
            old(db).wf(),
            config.wf(),
            spec_has_pig(old(db).pig_rows(), old(pig).chat_id, old(pig).user_id),
            *old(pig) == spec_pig_row(old(db).pig_rows(), old(pig).chat_id, old(pig).user_id),
        ensures
            final(db).wf(),
            final(db).loot_rows() == old(db).loot_rows(),
            final(pig).last_feed >= old(pig).last_feed,
            exists|delta: int|
                #![auto]
                spec_growth_delta_ok(old(db).pig_rows(), *old(pig), delta, *config) && *final(pig)
                    == spec_fed(*old(pig), now_ms, delta) && final(db).pig_rows() == old(
                    db,
                ).pig_rows().update(
                    spec_pig_index(old(db).pig_rows(), old(pig).chat_id, old(pig).user_id),
                    *final(pig),
                ) && (r matches Ok(t) && t@ == spec_feed_text(
                    old(pig).name@,
                    delta,
                    spec_apply_growth(old(pig).weight as int, delta),
                )),
    {
        let ghost s = db.pig_rows();
        let ghost at = spec_pig_index(s, pig.chat_id, pig.user_id);
        proof {
            assert(0 <= at < s.len() && row_matches(s[at], old(pig).chat_id, old(pig).user_id));
            assert(s[at] == *old(pig));
            assert(0 <= old(pig).weight <= WEIGHT_LIMIT);
            lemma_count_before_lt_chat(s, *old(pig), at);
        }
        if now_ms >= pig.last_feed {
            pig.last_feed = now_ms;
        }
        let total = db.get_chat_total_players(pig.chat_id);
        let rank = match db.get_pig_rank(pig.chat_id, pig.user_id) {
            Some(rk) => rk,
            None => 1,
        };
        let (min_grow, max_grow) = compute_growth_range(
            pig.weight,
            rank as i64,
            total as i64,
            config,
        );
        let delta = sample_growth(min_grow, max_grow);
        pig.weight = apply_growth(pig.weight, delta);
        match db.update_pig(pig) {
            Ok(_) => {},
            Err(e) => {
                return Err(e);
            },
        }
        let text = feed_text(pig.name.as_str(), delta, pig.weight);
        proof {
            let dd = delta as int;
            assert(old(pig).id == at + 1);
            assert(*pig == spec_fed(*old(pig), now_ms, dd));
            assert(db.pig_rows() == old(db).pig_rows().update(at, *pig));
            assert(spec_growth_delta_ok(old(db).pig_rows(), *old(pig), dd, *config));
            assert(text@ == spec_feed_text(
                old(pig).name@,
                dd,
                spec_apply_growth(old(pig).weight as int, dd),
            ));
        }
        Ok(text)
    }

    /// The info view of one creature: its name, weight, and rank in its
    /// chat (zero when it has no rank).  Read-only.
    pub fn format_pig_info(&self, pig: &Pig, db: &Database) -> (out: String)
        requires
            db.wf(),
            0 <= pig.weight,
        ensures
            out@ == spec_pig_info_text(
                pig.name@,
                pig.weight as int,
                if spec_has_pig(db.pig_rows(), pig.chat_id, pig.user_id) {
                    spec_rank(db.pig_rows(), spec_pig_row(db.pig_rows(), pig.chat_id, pig.user_id))
                } else {
                    0
                },
            ),
    {
        let rank: u64 = match db.get_pig_rank(pig.chat_id, pig.user_id) {
            Some(rk) => rk,
            None => 0,
        };
        pig_info_text(pig.name.as_str(), pig.weight, rank)
    }

    /// Dispatches one command of this module: creation, growth, the info
    /// view, statistics, the ranking, or the rename.  Read-only commands
    /// leave the store untouched.
    pub fn handle_pig_command(
        &self,
        chat_id: i64,
        user_id: i64,
        username: &str,
        command: &str,
        args: &Vec<String>,
        message_id: i64,
        now_ms: u64,
        db: &mut Database,
        config: &GameConfig,
    ) -> (r: Response)
        requires
            old(db).wf(),
            config.wf(),
        ensures
            final(db).wf(),
            final(db).loot_rows() == old(db).loot_rows(),
            spec_pig_command_post(
                command@,
                old(db).pig_rows(),
                final(db).pig_rows(),
                r,
                chat_id,
                user_id,
                username@,
                views_of(args@),
                message_id,
                now_ms,
                *config,
            ),
    {
        proof {
            reveal_strlit("pig");
            reveal_strlit("grow");
            reveal_strlit("my");
            reveal_strlit("pigstats");
            reveal_strlit("top");
            reveal_strlit("name");
            // The six keywords are pairwise distinct: their lengths and
            // first characters witness it.
            assert("pig"@.len() == 3 && "my"@.len() == 2 && "pigstats"@.len() == 8 && "top"@.len()
                == 3 && "grow"@.len() == 4 && "name"@.len() == 4);
            assert("pig"@[0] == 'p' && "top"@[0] == 't' && "grow"@[0] == 'g' && "name"@[0] == 'n');
        }
        if str_eq(command, "pig") {
            let pig_name: String = if args.len() == 0 {
                self.generate_default_pig_name()
            } else {
                join_space(args)
            };
            proof {
                assert(views_of(args@).len() == args@.len());
                assert(spec_name_choice(pig_name@, views_of(args@)));
            }
            match db.get_pig(chat_id, user_id) {
                Some(existing) => {
                    proof {
                        let at = spec_pig_index(db.pig_rows(), chat_id, user_id);
                        assert(0 <= at < db.pig_rows().len());
                        assert(0 <= db.pig_rows()[at].weight);
                    }
                    Response {
                        text: already_have_text(existing.name.as_str(), existing.weight),
                        keyboard: None,
                        reply: false,
                    }
                },
                None => {
                    match self.create_new_pig(
                        chat_id,
                        user_id,
                        username,
                        pig_name.as_str(),
                        config,
                        db,
                    ) {
                        Ok(created) => {
                            proof {
                                assert(spec_new_row(
                                    created,
                                    chat_id,
                                    user_id,
                                    username@,
                                    pig_name@,
                                    config.start_weight,
                                    old(db).pig_rows().len() as int + 1,
                                ));
                            }
                            Response {
                                text: created_text(
                                    username,
                                    pig_name.as_str(),
                                    config.start_weight,
                                ),
                                keyboard: None,
                                reply: false,
                            }
                        },
                        Err(_) => Response {
                            text: create_failed_text(),
                            keyboard: None,
                            reply: false,
                        },
                    }
                },
            }
        } else if str_eq(command, "grow") {
            let pig_name: String = if args.len() == 0 {
                self.generate_default_pig_name()
            } else {
                join_space(args)
            };
            proof {
                assert(views_of(args@).len() == args@.len());
                assert(spec_name_choice(pig_name@, views_of(args@)));
            }
            match db.get_pig(chat_id, user_id) {
                Some(mut pig) => {
                    match self.feed_pig(&mut pig, now_ms, db, config) {
                        Ok(text) => Response { text, keyboard: None, reply: false },
                        Err(_) => Response {
                            text: storage_error_text(),
                            keyboard: None,
                            reply: false,
                        },
                    }
                },
                None => {
                    match self.create_new_pig(
                        chat_id,
                        user_id,
                        username,
                        pig_name.as_str(),
                        config,
                        db,
                    ) {
                        Ok(mut pig) => {
                            let ghost created_row = pig;
                            let ghost mid = db.pig_rows();
                            proof {
                                lemma_pig_index_is(
                                    db.pig_rows(),
                                    chat_id,
                                    user_id,
                                    db.pig_rows().len() - 1,
                                );
                                assert(spec_new_row(
                                    created_row,
                                    chat_id,
                                    user_id,
                                    username@,
                                    pig_name@,
                                    config.start_weight,
                                    old(db).pig_rows().len() as int + 1,
                                ));
                            }
                            match self.feed_pig(&mut pig, now_ms, db, config) {
                                Ok(text) => {
                                    proof {
                                        assert(mid == old(db).pig_rows().push(created_row));
                                        assert(spec_pig_index(mid, chat_id, user_id) == old(
                                            db,
                                        ).pig_rows().len() as int);
                                    }
                                    Response { text, keyboard: None, reply: false }
                                },
                                Err(_) => Response {
                                    text: storage_error_text(),
                                    keyboard: None,
                                    reply: false,
                                },
                            }
                        },
                        Err(_) => Response {
                            text: create_failed_text(),
                            keyboard: None,
                            reply: false,
                        },
                    }
                },
            }
        } else if str_eq(command, "my") {
            match db.get_pig(chat_id, user_id) {
                Some(pig) => {
                    proof {
                        let at = spec_pig_index(db.pig_rows(), chat_id, user_id);
                        assert(0 <= at < db.pig_rows().len());
                        assert(0 <= db.pig_rows()[at].weight);
                    }
                    let text = self.format_pig_info(&pig, db);
                    proof {
                        let s = old(db).pig_rows();
                        let row = spec_pig_row(s, chat_id, user_id);
                        assert(pig == row);
                        assert(pig.chat_id == chat_id && pig.user_id == user_id);
                        assert(text@ == spec_pig_info_text(
                            row.name@,
                            row.weight as int,
                            spec_rank(s, row),
                        ));
                    }
                    let kb = self.create_pig_keyboard(user_id, message_id);
                    Response { text, keyboard: Some(kb), reply: false }
                },
                None => Response { text: no_pig_text(), keyboard: None, reply: false },
            }
        } else if str_eq(command, "pigstats") {
            if args.len() > 0 {
                let query = join_space(args);
                let matches = db.find_pig_by_name(chat_id, query.as_str());
                if matches.len() > 0 {
                    let p = &matches[0];
                    Response {
                        text: stats_text(p.name.as_str(), p.owner_name.as_str(), p.weight, p.barn),
                        keyboard: None,
                        reply: false,
                    }
                } else {
                    Response { text: not_found_text(query.as_str()), keyboard: None, reply: false }
                }
            } else {
                match db.get_pig(chat_id, user_id) {
                    Some(pig) => {
                        proof {
                            let at = spec_pig_index(db.pig_rows(), chat_id, user_id);
                            assert(0 <= at < db.pig_rows().len());
                            assert(0 <= db.pig_rows()[at].weight);
                        }
                        Response {
                            text: own_stats_text(pig.name.as_str(), pig.weight, pig.barn),
                            keyboard: None,
                            reply: false,
                        }
                    },
                    None => Response {
                        text: no_pig_short_text(),
                        keyboard: None,
                        reply: false,
                    },
                }
            }
        } else if str_eq(command, "top") {
            let ranked = db.get_chat_pigs_ranked(chat_id);
            if ranked.len() == 0 {
                Response { text: top_empty_text(), keyboard: None, reply: false }
            } else {
                Response { text: top_text(&ranked), keyboard: None, reply: false }
            }
        } else if str_eq(command, "name") {
            if args.len() == 0 {
                Response { text: name_prompt_text(), keyboard: None, reply: true }
            } else {
                let new_name = join_space(args);
                match self.validate_name(new_name.as_str()) {
                    Err(_) => Response { text: name_too_long_text(), keyboard: None, reply: true },
                    Ok(_) => {
                        match db.get_pig(chat_id, user_id) {
                            Some(_) => {
                                match db.update_pig_name(chat_id, user_id, new_name.as_str()) {
                                    Ok(_) => Response {
                                        text: renamed_text(new_name.as_str()),
                                        keyboard: None,
                                        reply: true,
                                    },
                                    Err(_) => Response {
                                        text: storage_error_text(),
                                        keyboard: None,
                                        reply: true,
                                    },
                                }
                            },
                            None => {
                                match self.create_new_pig(
                                    chat_id,
                                    user_id,
                                    username,
                                    new_name.as_str(),
                                    config,
                                    db,
                                ) {
                                    Ok(created) => {
                                        proof {
                                            assert(spec_new_row(
                                                created,
                                                chat_id,
                                                user_id,
                                                username@,
                                                new_name@,
                                                config.start_weight,
                                                old(db).pig_rows().len() as int + 1,
                                            ));
                                        }
                                        Response {
                                            text: name_created_text(new_name.as_str()),
                                            keyboard: None,
                                            reply: true,
                                        }
                                    },
                                    Err(_) => Response {
                                        text: create_failed_text(),
                                        keyboard: None,
                                        reply: true,
                                    },
                                }
                            },
                        }
                    },
                }
            }
        } else {
            Response { text: unknown_pig_text(), keyboard: None, reply: false }
        }
    }
}

} // verus!
