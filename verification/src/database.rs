//! The storage gateway: typed rows for the two persisted entity kinds and a
//! verified in-memory table for each, with the ranking queries the game
//! needs.
//!
//! The persistence *transport* (a connection pool, migrations, timeouts) is
//! a collaborator outside this crate; the gateway here is the contract that
//! the game logic is verified against.  Rows are never deleted, so a row's
//! surrogate id is its insertion position plus one, and the ranking
//! tiebreak — descending weight, then ascending id — is exactly insertion
//! order among equal weights.
//!
//! Any storage failure is surfaced as a [`StorageError`] and never swallowed;
//! the callers report it to the user as a generic internal error.

use vstd::prelude::*;
use vstd::string::*;

use crate::growth::WEIGHT_LIMIT;
use crate::text::{contains_sub, lower_of, lowercase, spec_contains_sub};

verus! {

/// Largest number of rows a table holds; a machine bound.
pub const ROW_LIMIT: i64 = 1000000000000;

/// A failure of the storage gateway.
#[derive(Clone, Copy, Debug, PartialEq, Eq, Structural)]
pub enum StorageError {
    /// An insert would duplicate the (chat, player) key.
    DuplicateKey,
    /// An update found no row under the given key.
    NoSuchRow,
    /// The table is full.
    CapacityExceeded,
}

/// One creature row: the per-player game entity of one chat.
#[derive(Debug)]
pub struct Pig {
    /// Surrogate id; the insertion position plus one.
    pub id: i64,
    /// Chat scope of the composite natural key.
    pub chat_id: i64,
    /// Player scope of the composite natural key.
    pub user_id: i64,
    /// The ranking score.  Always within `[0, WEIGHT_LIMIT]` when stored.
    pub weight: i64,
    /// Display name; bounded by the rename command, not by the store.
    pub name: String,
    /// Timestamp of the last feeding action, in milliseconds.
    pub last_feed: u64,
    /// Timestamp of the last lard action, in milliseconds.
    pub last_salo: u64,
    /// Display name of the owning player.
    pub owner_name: String,
    /// Lard counter.
    pub salo: i64,
    /// Whether the creature is currently poisoned.
    pub poisoned: bool,
    /// Upgrade level: barn.
    pub barn: i64,
    /// Upgrade level: pigsty.
    pub pigsty: i64,
    /// Upgrade level: veterinary clinic.
    pub vetclinic: i64,
    /// Timestamp of the last veterinary pickup, in milliseconds.
    pub vet_last_pickup: u64,
    /// The weight before the last growth event.
    pub last_weight: i64,
    /// Optional display reference.
    pub avatar_url: Option<String>,
    /// Upgrade level: biolab.
    pub biolab: i64,
    /// Upgrade level: butchery.
    pub butchery: i64,
    /// Pills counter.
    pub pills: i64,
    /// Upgrade level: factory.
    pub factory: i64,
    /// Upgrade level: warehouse.
    pub warehouse: i64,
    /// Upgrade level: institute.
    pub institute: i64,
}

impl Pig {
    /// A field-for-field copy of the row.
    pub fn duplicate(&self) -> (p: Pig)
        ensures
            p == *self,
    {
        Pig {
            id: self.id,
            chat_id: self.chat_id,
            user_id: self.user_id,
            weight: self.weight,
            name: self.name.clone(),
            last_feed: self.last_feed,
            last_salo: self.last_salo,
            owner_name: self.owner_name.clone(),
            salo: self.salo,
            poisoned: self.poisoned,
            barn: self.barn,
            pigsty: self.pigsty,
            vetclinic: self.vetclinic,
            vet_last_pickup: self.vet_last_pickup,
            last_weight: self.last_weight,
            avatar_url: match &self.avatar_url {
                Some(u) => Some(u.clone()),
                None => None,
            },
            biolab: self.biolab,
            butchery: self.butchery,
            pills: self.pills,
            factory: self.factory,
            warehouse: self.warehouse,
            institute: self.institute,
        }
    }
}

/// One loot row: a chat-scoped, owner-scoped collectible.  The structured
/// attribute blobs are carried as raw text and the global identifier as a
/// 128-bit value; the gateway stores and returns them without reading them.
pub struct Loot {
    /// Surrogate id; the insertion position plus one.
    pub id: i64,
    /// Chat scope.
    pub chat_id: i64,
    /// Owning player.
    pub owner: i64,
    /// Display name.
    pub name: String,
    /// Display icon.
    pub icon: String,
    /// Free-text description.
    pub description: Option<String>,
    /// Class name.
    pub class_name: String,
    /// Class icon.
    pub class_icon: String,
    /// Item weight, in thousandths.
    pub weight_milli: i64,
    /// Open-ended attribute blob, carried as text.
    pub base_stats: String,
    /// Open-ended rarity blob, carried as text.
    pub rarity: String,
    /// Globally unique identifier.
    pub uuid: u128,
}

impl Loot {
    /// A field-for-field copy of the row.
    pub fn duplicate(&self) -> (l: Loot)
        ensures
            l == *self,
    {
        Loot {
            id: self.id,
            chat_id: self.chat_id,
            owner: self.owner,
            name: self.name.clone(),
            icon: self.icon.clone(),
            description: match &self.description {
                Some(d) => Some(d.clone()),
                None => None,
            },
            class_name: self.class_name.clone(),
            class_icon: self.class_icon.clone(),
            weight_milli: self.weight_milli,
            base_stats: self.base_stats.clone(),
            rarity: self.rarity.clone(),
            uuid: self.uuid,
        }
    }
}

/// The row under the composite natural key (chat, player).
pub open spec fn row_matches(p: Pig, chat_id: i64, user_id: i64) -> bool {
    p.chat_id == chat_id && p.user_id == user_id
}

/// Some row carries the key.
pub open spec fn spec_has_pig(s: Seq<Pig>, chat_id: i64, user_id: i64) -> bool {
    exists|i: int| 0 <= i < s.len() && row_matches(s[i], chat_id, user_id)
}

/// The position of the row carrying the key (unique under
/// [`spec_keys_unique`]).
pub open spec fn spec_pig_index(s: Seq<Pig>, chat_id: i64, user_id: i64) -> int {
    choose|i: int| 0 <= i < s.len() && row_matches(s[i], chat_id, user_id)
}

/// The row carrying the key.
pub open spec fn spec_pig_row(s: Seq<Pig>, chat_id: i64, user_id: i64) -> Pig {
    s[spec_pig_index(s, chat_id, user_id)]
}

/// No two rows share the (chat, player) key.
pub open spec fn spec_keys_unique(s: Seq<Pig>) -> bool {
    forall|i: int, j: int|
        #![trigger s[i], s[j]]
        0 <= i < j < s.len() ==> !(s[i].chat_id == s[j].chat_id && s[i].user_id == s[j].user_id)
}

/// The row belongs to the chat.
pub open spec fn spec_in_chat(p: Pig, chat_id: i64) -> bool {
    p.chat_id == chat_id
}

/// How many rows belong to the chat: the ranking denominator.
pub open spec fn spec_count_chat(s: Seq<Pig>, chat_id: i64) -> nat
    decreases s.len(),
{
    if s.len() == 0 {
        0
    } else {
        spec_count_chat(s.drop_last(), chat_id) + if spec_in_chat(s.last(), chat_id) {
            1nat
        } else {
            0nat
        }
    }
}

/// `q` ranks strictly ahead of `p`: same chat and either more weight, or
/// equal weight and an earlier insertion (smaller id).
pub open spec fn spec_ranked_before(q: Pig, p: Pig) -> bool {
    q.chat_id == p.chat_id && (q.weight > p.weight || (q.weight == p.weight && q.id < p.id))
}

/// How many rows rank strictly ahead of `me`.
pub open spec fn spec_count_before(s: Seq<Pig>, me: Pig) -> nat
    decreases s.len(),
{
    if s.len() == 0 {
        0
    } else {
        spec_count_before(s.drop_last(), me) + if spec_ranked_before(s.last(), me) {
            1nat
        } else {
            0nat
        }
    }
}

/// The 1-based rank of `me` among the rows of its chat.
pub open spec fn spec_rank(s: Seq<Pig>, me: Pig) -> int {
    1 + spec_count_before(s, me) as int
}

/// Inserts `p` into a weight-descending sequence, after every row of at
/// least its weight: equal weights keep insertion order.
pub open spec fn spec_sorted_insert(r: Seq<Pig>, p: Pig) -> Seq<Pig>
    decreases r.len(),
{
    if r.len() == 0 {
        seq![p]
    } else if r[0].weight >= p.weight {
        seq![r[0]].add(spec_sorted_insert(r.drop_first(), p))
    } else {
        seq![p].add(r)
    }
}

/// The chat's rows ordered by descending weight, ties by ascending id.
pub open spec fn spec_ranked_rows(s: Seq<Pig>, chat_id: i64) -> Seq<Pig>
    decreases s.len(),
{
    if s.len() == 0 {
        Seq::empty()
    } else {
        let prev = spec_ranked_rows(s.drop_last(), chat_id);
        if spec_in_chat(s.last(), chat_id) {
            spec_sorted_insert(prev, s.last())
        } else {
            prev
        }
    }
}

/// The chat's rows whose lowercase name holds the lowercase needle — the
/// case-insensitive substring match of the name search — in storage order.
pub open spec fn spec_name_matches(s: Seq<Pig>, chat_id: i64, needle: Seq<char>) -> Seq<Pig>
    decreases s.len(),
{
    if s.len() == 0 {
        Seq::empty()
    } else {
        let prev = spec_name_matches(s.drop_last(), chat_id, needle);
        if spec_in_chat(s.last(), chat_id) && spec_contains_sub(
            lower_of(s.last().name@),
            lower_of(needle),
        ) {
            prev.push(s.last())
        } else {
            prev
        }
    }
}

/// The loot rows of one owner in one chat, in storage order.
pub open spec fn spec_user_loot(s: Seq<Loot>, chat_id: i64, owner: i64) -> Seq<Loot>
    decreases s.len(),
{
    if s.len() == 0 {
        Seq::empty()
    } else {
        let prev = spec_user_loot(s.drop_last(), chat_id, owner);
        if s.last().chat_id == chat_id && s.last().owner == owner {
            prev.push(s.last())
        } else {
            prev
        }
    }
}

/// A weight-descending sequence.
pub open spec fn spec_sorted_desc(r: Seq<Pig>) -> bool {
    forall|i: int, j: int| #![trigger r[i], r[j]] 0 <= i < j < r.len() ==> r[i].weight >= r[j].weight
}

/// The two rows agree on every field but the display name.
pub open spec fn same_but_name(p: Pig, q: Pig) -> bool {
    &&& p.id == q.id
    &&& p.chat_id == q.chat_id
    &&& p.user_id == q.user_id
    &&& p.weight == q.weight
    &&& p.last_feed == q.last_feed
    &&& p.last_salo == q.last_salo
    &&& p.owner_name == q.owner_name
    &&& p.salo == q.salo
    &&& p.poisoned == q.poisoned
    &&& p.barn == q.barn
    &&& p.pigsty == q.pigsty
    &&& p.vetclinic == q.vetclinic
    &&& p.vet_last_pickup == q.vet_last_pickup
    &&& p.last_weight == q.last_weight
    &&& p.avatar_url == q.avatar_url
    &&& p.biolab == q.biolab
    &&& p.butchery == q.butchery
    &&& p.pills == q.pills
    &&& p.factory == q.factory
    &&& p.warehouse == q.warehouse
    &&& p.institute == q.institute
}

/// The persistence gateway: one table per entity kind.
pub struct Database {
    pigs: Vec<Pig>,
    loot: Vec<Loot>,
}

impl Database {
    /// The creature rows, in insertion order.
    pub closed spec fn pig_rows(&self) -> Seq<Pig> {
        self.pigs@
    }

    /// The loot rows, in insertion order.
    pub closed spec fn loot_rows(&self) -> Seq<Loot> {
        self.loot@
    }

    /// The table invariant: bounded size, ids equal to position plus one,
    /// stored weights within the engine's bounds, and at most one creature
    /// row per (chat, player) key.
    pub open spec fn wf(&self) -> bool {
        &&& self.pig_rows().len() <= ROW_LIMIT
        &&& forall|i: int|
            0 <= i < self.pig_rows().len() ==> (#[trigger] self.pig_rows()[i]).id == i + 1
        &&& forall|i: int|
            0 <= i < self.pig_rows().len() ==> 0 <= (#[trigger] self.pig_rows()[i]).weight
                <= WEIGHT_LIMIT
        &&& spec_keys_unique(self.pig_rows())
        &&& self.loot_rows().len() <= ROW_LIMIT
        &&& forall|i: int|
            0 <= i < self.loot_rows().len() ==> (#[trigger] self.loot_rows()[i]).id == i + 1
    }

    /// An empty gateway.
    pub fn new() -> (db: Database)
        ensures
            db.wf(),
            db.pig_rows() == Seq::<Pig>::empty(),
            db.loot_rows() == Seq::<Loot>::empty(),
    {
        Database { pigs: Vec::new(), loot: Vec::new() }
    }

    /// Returns the single row under the key, or nothing; absence is not an
    /// error.
    pub fn get_pig(&self, chat_id: i64, user_id: i64) -> (r: Option<Pig>)
        requires
            self.wf(),
        ensures
            match r {
                Some(p) => spec_has_pig(self.pig_rows(), chat_id, user_id) && p == spec_pig_row(
                    self.pig_rows(),
                    chat_id,
                    user_id,
                ),
                None => !spec_has_pig(self.pig_rows(), chat_id, user_id),
            },
    {
        let n = self.pigs.len();
        let mut i: usize = 0;
        while i < n
            invariant
                n == self.pig_rows().len(),
                self.wf(),
                forall|j: int| 0 <= j < i ==> !row_matches(self.pig_rows()[j], chat_id, user_id),
            decreases n - i,
        {
            if self.pigs[i].chat_id == chat_id && self.pigs[i].user_id == user_id {
                let p = self.pigs[i].duplicate();
                proof {
                    lemma_pig_index_is(self.pig_rows(), chat_id, user_id, i as int);
                }
                return Some(p);
            }
            i = i + 1;
        }
        None
    }

    /// Inserts a creature row and returns it with its surrogate id set.
    /// Fails with [`StorageError::DuplicateKey`] when a row under the key
    /// already exists, and with [`StorageError::CapacityExceeded`] when the
    /// table is full; the store is unchanged on failure.
    pub fn create_pig(&mut self, pig: &Pig) -> (r: Result<Pig, StorageError>)
        requires
            old(self).wf(),
            0 <= pig.weight <= WEIGHT_LIMIT,
        ensures
            final(self).wf(),
            final(self).loot_rows() == old(self).loot_rows(),
            spec_has_pig(old(self).pig_rows(), pig.chat_id, pig.user_id) ==> r == Result::<
                Pig,
                StorageError,
            >::Err(StorageError::DuplicateKey) && final(self).pig_rows() == old(self).pig_rows(),
            !spec_has_pig(old(self).pig_rows(), pig.chat_id, pig.user_id) && old(
                self,
            ).pig_rows().len() >= ROW_LIMIT ==> r == Result::<Pig, StorageError>::Err(
                StorageError::CapacityExceeded,
            ) && final(self).pig_rows() == old(self).pig_rows(),
            !spec_has_pig(old(self).pig_rows(), pig.chat_id, pig.user_id) && old(
                self,
            ).pig_rows().len() < ROW_LIMIT ==> {
                let created = Pig { id: (old(self).pig_rows().len() + 1) as i64, ..*pig };
                r == Result::<Pig, StorageError>::Ok(created) && final(self).pig_rows() == old(
                    self,
                ).pig_rows().push(created)
            },
    {
        let existing = self.get_pig(pig.chat_id, pig.user_id);
        if existing.is_some() {
            return Err(StorageError::DuplicateKey);
        }
        let n = self.pigs.len();
        if n as u64 >= ROW_LIMIT as u64 {
            return Err(StorageError::CapacityExceeded);
        }
        let mut created = pig.duplicate();
        created.id = (n as i64) + 1;
        let returned = created.duplicate();
        self.pigs.push(created);
        proof {
            let s = old(self).pig_rows();
            let t = self.pig_rows();
            assert forall|a: int| 0 <= a < t.len() implies (#[trigger] t[a]).id == a + 1 by {
                if a < s.len() {
                    assert(t[a] == s[a]);
                }
            }
            assert forall|a: int| 0 <= a < t.len() implies 0 <= (#[trigger] t[a]).weight
                <= WEIGHT_LIMIT by {
                if a < s.len() {
                    assert(t[a] == s[a]);
                }
            }
            assert forall|a: int, j: int|
                #![trigger t[a], t[j]]
            0 <= a < j < t.len() implies !(t[a].chat_id == t[j].chat_id && t[a].user_id
                == t[j].user_id) by {
                if j < s.len() {
                    assert(t[a] == s[a] && t[j] == s[j]);
                } else {
                    assert(t[a] == s[a]);
                    assert(!row_matches(s[a], pig.chat_id, pig.user_id));
                }
            }
        }
        Ok(returned)
    }

    /// Replaces every mutable field of the row under the key (the id is
    /// kept) and returns the post-update row.  Fails with
    /// [`StorageError::NoSuchRow`] when no row carries the key; there is no
    /// upsert.
    pub fn update_pig(&mut self, pig: &Pig) -> (r: Result<Pig, StorageError>)
        requires
            old(self).wf(),
            0 <= pig.weight <= WEIGHT_LIMIT,
        ensures
            final(self).wf(),
            final(self).loot_rows() == old(self).loot_rows(),
            !spec_has_pig(old(self).pig_rows(), pig.chat_id, pig.user_id) ==> r == Result::<
                Pig,
                StorageError,
            >::Err(StorageError::NoSuchRow) && final(self).pig_rows() == old(self).pig_rows(),
            spec_has_pig(old(self).pig_rows(), pig.chat_id, pig.user_id) ==> {
                let at = spec_pig_index(old(self).pig_rows(), pig.chat_id, pig.user_id);
                let updated = Pig { id: (at + 1) as i64, ..*pig };
                r == Result::<Pig, StorageError>::Ok(updated) && final(self).pig_rows() == old(
                    self,
                ).pig_rows().update(at, updated)
            },
    {
        let n = self.pigs.len();
        let mut i: usize = 0;
        while i < n
            invariant
                n == self.pig_rows().len(),
                self.wf(),
                self == old(self),
                0 <= pig.weight <= WEIGHT_LIMIT,
                forall|j: int| 0 <= j < i ==> !row_matches(self.pig_rows()[j], pig.chat_id, pig.user_id),
            decreases n - i,
        {
            if self.pigs[i].chat_id == pig.chat_id && self.pigs[i].user_id == pig.user_id {
                let mut updated = pig.duplicate();
                updated.id = (i as i64) + 1;
                let returned = updated.duplicate();
                let ghost updated_row = updated;
                proof {
                    lemma_pig_index_is(self.pig_rows(), pig.chat_id, pig.user_id, i as int);
                }
                self.pigs[i] = updated;
                proof {
                    assert(self.pig_rows()[i as int] == updated_row);
                    assert(updated_row.weight == pig.weight);
                }
                proof {
                    let s = old(self).pig_rows();
                    let t = self.pig_rows();
                    assert forall|a: int| 0 <= a < t.len() implies (#[trigger] t[a]).id == a + 1 by {
                        if a != i {
                            assert(t[a] == s[a]);
                        }
                    }
                    assert forall|a: int| 0 <= a < t.len() implies 0 <= (#[trigger] t[a]).weight
                        && t[a].weight <= WEIGHT_LIMIT by {
                        if a != i {
                            assert(t[a] == s[a]);
                            assert(0 <= s[a].weight <= WEIGHT_LIMIT);
                        } else {
                            assert(t[a] == updated_row);
                            assert(updated_row.weight == pig.weight);
                        }
                    }
                    assert forall|a: int, b: int|
                        #![trigger t[a], t[b]]
                    0 <= a < b < t.len() implies !(t[a].chat_id == t[b].chat_id && t[a].user_id
                        == t[b].user_id) by {
                        assert(row_matches(s[i as int], pig.chat_id, pig.user_id));
                        if a != i {
                            assert(t[a] == s[a]);
                        }
                        if b != i {
                            assert(t[b] == s[b]);
                        }
                    }
                }
                return Ok(returned);
            }
            i = i + 1;
        }
        Err(StorageError::NoSuchRow)
    }

    /// Partial update: replaces only the display name of the row under the
    /// key.  Fails with [`StorageError::NoSuchRow`] when no row carries it.
    pub fn update_pig_name(&mut self, chat_id: i64, user_id: i64, new_name: &str) -> (r: Result<
        (),
        StorageError,
    >)
        requires
            old(self).wf(),
        ensures
            final(self).wf(),
            final(self).loot_rows() == old(self).loot_rows(),
            !spec_has_pig(old(self).pig_rows(), chat_id, user_id) ==> r == Result::<
                (),
                StorageError,
            >::Err(StorageError::NoSuchRow) && final(self).pig_rows() == old(self).pig_rows(),
            spec_has_pig(old(self).pig_rows(), chat_id, user_id) ==> {
                let at = spec_pig_index(old(self).pig_rows(), chat_id, user_id);
                &&& r == Result::<(), StorageError>::Ok(())
                &&& final(self).pig_rows().len() == old(self).pig_rows().len()
                &&& forall|j: int|
                    0 <= j < old(self).pig_rows().len() && j != at ==> final(self).pig_rows()[j]
                        == old(self).pig_rows()[j]
                &&& same_but_name(final(self).pig_rows()[at], old(self).pig_rows()[at])
                &&& final(self).pig_rows()[at].name@ == new_name@
            },
    {
        let n = self.pigs.len();
        let mut i: usize = 0;
        while i < n
            invariant
                n == self.pig_rows().len(),
                self.wf(),
                self == old(self),
                forall|j: int| 0 <= j < i ==> !row_matches(self.pig_rows()[j], chat_id, user_id),
            decreases n - i,
        {
            if self.pigs[i].chat_id == chat_id && self.pigs[i].user_id == user_id {
                proof {
                    lemma_pig_index_is(self.pig_rows(), chat_id, user_id, i as int);
                }
                let mut renamed = self.pigs[i].duplicate();
                renamed.name = String::from_str(new_name);
                self.pigs[i] = renamed;
                proof {
                    let s = old(self).pig_rows();
                    let t = self.pig_rows();
                    assert forall|a: int| 0 <= a < t.len() implies (#[trigger] t[a]).id == a + 1 by {
                        if a != i {
                            assert(t[a] == s[a]);
                        }
                    }
                    assert forall|a: int| 0 <= a < t.len() implies 0 <= (#[trigger] t[a]).weight
                        <= WEIGHT_LIMIT by {
                        if a != i {
                            assert(t[a] == s[a]);
                        }
                    }
                    assert(t[i as int].chat_id == s[i as int].chat_id && t[i as int].user_id
                        == s[i as int].user_id);
                    assert forall|a: int, b: int|
                        #![trigger t[a], t[b]]
                    0 <= a < b < t.len() implies !(t[a].chat_id == t[b].chat_id && t[a].user_id
                        == t[b].user_id) by {
                        if a != i {
                            assert(t[a] == s[a]);
                        }
                        if b != i {
                            assert(t[b] == s[b]);
                        }
                    }
                }
                return Ok(());
            }
            i = i + 1;
        }
        Err(StorageError::NoSuchRow)
    }

    /// The chat's population: how many creature rows the chat holds.
    pub fn get_chat_total_players(&self, chat_id: i64) -> (n: u64)
        requires
            self.wf(),
        ensures
            n == spec_count_chat(self.pig_rows(), chat_id),
            n <= self.pig_rows().len(),
    {
        let len = self.pigs.len();
        let mut i: usize = 0;
        let mut count: u64 = 0;
        while i < len
            invariant
                len == self.pig_rows().len(),
                self.wf(),
                i <= len,
                count == spec_count_chat(self.pig_rows().take(i as int), chat_id),
                count <= i,
            decreases len - i,
        {
            proof {
                assert(self.pig_rows().take(i + 1).drop_last() =~= self.pig_rows().take(i as int));
                assert(self.pig_rows().take(i + 1).last() == self.pig_rows()[i as int]);
            }
            if self.pigs[i].chat_id == chat_id {
                count = count + 1;
            }
            i = i + 1;
        }
        proof {
            assert(self.pig_rows().take(len as int) =~= self.pig_rows());
        }
        count
    }

    /// The 1-based rank of the player's creature in its chat, by descending
    /// weight (ties broken by ascending id), or nothing when the player has
    /// no creature.  A returned rank always lies between one and the chat's
    /// population.
    pub fn get_pig_rank(&self, chat_id: i64, user_id: i64) -> (r: Option<u64>)
        requires
            self.wf(),
        ensures
            match r {
                Some(rank) => spec_has_pig(self.pig_rows(), chat_id, user_id) && rank == spec_rank(
                    self.pig_rows(),
                    spec_pig_row(self.pig_rows(), chat_id, user_id),
                ) && 1 <= rank <= spec_count_chat(self.pig_rows(), chat_id),
                None => !spec_has_pig(self.pig_rows(), chat_id, user_id),
            },
    {
        let me = match self.get_pig(chat_id, user_id) {
            Some(p) => p,
            None => {
                return None;
            },
        };
        let len = self.pigs.len();
        let mut i: usize = 0;
        let mut before: u64 = 0;
        while i < len
            invariant
                len == self.pig_rows().len(),
                self.wf(),
                i <= len,
                before == spec_count_before(self.pig_rows().take(i as int), me),
                before <= i,
            decreases len - i,
        {
            proof {
                assert(self.pig_rows().take(i + 1).drop_last() =~= self.pig_rows().take(i as int));
                assert(self.pig_rows().take(i + 1).last() == self.pig_rows()[i as int]);
            }
            let q = &self.pigs[i];
            if q.chat_id == me.chat_id && (q.weight > me.weight || (q.weight == me.weight && q.id
                < me.id)) {
                before = before + 1;
            }
            i = i + 1;
        }
        proof {
            assert(self.pig_rows().take(len as int) =~= self.pig_rows());
            let at = spec_pig_index(self.pig_rows(), chat_id, user_id);
            lemma_count_before_lt_chat(self.pig_rows(), me, at);
        }
        Some(before + 1)
    }

    /// All creature rows of the chat, ordered by descending weight, ties by
    /// ascending id (insertion order).
    pub fn get_chat_pigs_ranked(&self, chat_id: i64) -> (v: Vec<Pig>)
        requires
            self.wf(),
        ensures
            v@ == spec_ranked_rows(self.pig_rows(), chat_id),
            spec_sorted_desc(v@),
            v@.len() == spec_count_chat(self.pig_rows(), chat_id),
            forall|a: int| 0 <= a < v@.len() ==> 0 <= (#[trigger] v@[a]).weight <= WEIGHT_LIMIT,
            forall|a: int| 0 <= a < v@.len() ==> spec_in_chat(#[trigger] v@[a], chat_id),
    {
        let len = self.pigs.len();
        let mut out: Vec<Pig> = Vec::new();
        let mut i: usize = 0;
        while i < len
            invariant
                len == self.pig_rows().len(),
                self.wf(),
                i <= len,
                out@ == spec_ranked_rows(self.pig_rows().take(i as int), chat_id),
                spec_sorted_desc(out@),
                out@.len() == spec_count_chat(self.pig_rows().take(i as int), chat_id),
                out@.len() <= i,
                forall|a: int| 0 <= a < out@.len() ==> 0 <= (#[trigger] out@[a]).weight
                    <= WEIGHT_LIMIT,
                forall|a: int| 0 <= a < out@.len() ==> spec_in_chat(#[trigger] out@[a], chat_id),
            decreases len - i,
        {
            proof {
                assert(self.pig_rows().take(i + 1).drop_last() =~= self.pig_rows().take(i as int));
                assert(self.pig_rows().take(i + 1).last() == self.pig_rows()[i as int]);
            }
            if self.pigs[i].chat_id == chat_id {
                let p = self.pigs[i].duplicate();
                let ghost prev = out@;
                let mut pos: usize = 0;
                while pos < out.len() && out[pos].weight >= p.weight
                    invariant
                        out@ == prev,
                        pos <= out@.len(),
                        forall|a: int| 0 <= a < pos ==> (#[trigger] out@[a].weight) >= p.weight,
                    decreases out@.len() - pos,
                {
                    pos = pos + 1;
                }
                proof {
                    lemma_sorted_insert_at(prev, p, pos as int);
                    lemma_sorted_insert_sorted(prev, p, pos as int);
                }
                out.insert(pos, p);
                proof {
                    assert forall|a: int| 0 <= a < out@.len() implies 0 <= (
                    #[trigger] out@[a]).weight <= WEIGHT_LIMIT && spec_in_chat(
                        out@[a],
                        chat_id,
                    ) by {
                        if a < pos {
                            assert(out@[a] == prev[a]);
                        } else if a > pos {
                            assert(out@[a] == prev[a - 1]);
                        } else {
                            assert(out@[a] == p);
                        }
                    }
                }
            }
            i = i + 1;
        }
        proof {
            assert(self.pig_rows().take(len as int) =~= self.pig_rows());
        }
        out
    }

    /// The chat's creature rows whose name holds the given text as a
    /// case-insensitive substring (both sides folded through the standard
    /// lowercase mapping), in storage order.
    pub fn find_pig_by_name(&self, chat_id: i64, name: &str) -> (v: Vec<Pig>)
        requires
            self.wf(),
        ensures
            v@ == spec_name_matches(self.pig_rows(), chat_id, name@),
            forall|a: int| 0 <= a < v@.len() ==> 0 <= (#[trigger] v@[a]).weight <= WEIGHT_LIMIT,
    {
        let len = self.pigs.len();
        let needle_low = lowercase(name);
        let mut out: Vec<Pig> = Vec::new();
        let mut i: usize = 0;
        while i < len
            invariant
                len == self.pig_rows().len(),
                self.wf(),
                i <= len,
                needle_low@ == lower_of(name@),
                out@ == spec_name_matches(self.pig_rows().take(i as int), chat_id, name@),
                forall|a: int| 0 <= a < out@.len() ==> 0 <= (#[trigger] out@[a]).weight
                    <= WEIGHT_LIMIT,
            decreases len - i,
        {
            proof {
                assert(self.pig_rows().take(i + 1).drop_last() =~= self.pig_rows().take(i as int));
                assert(self.pig_rows().take(i + 1).last() == self.pig_rows()[i as int]);
            }
            if self.pigs[i].chat_id == chat_id && contains_sub(
                lowercase(self.pigs[i].name.as_str()).as_str(),
                needle_low.as_str(),
            ) {
                let p = self.pigs[i].duplicate();
                out.push(p);
            }
            i = i + 1;
        }
        proof {
            assert(self.pig_rows().take(len as int) =~= self.pig_rows());
        }
        out
    }

    /// The loot rows of one owner in one chat, in storage order.
    pub fn get_user_loot(&self, chat_id: i64, user_id: i64) -> (v: Vec<Loot>)
        requires
            self.wf(),
        ensures
            v@ == spec_user_loot(self.loot_rows(), chat_id, user_id),
    {
        let len = self.loot.len();
        let mut out: Vec<Loot> = Vec::new();
        let mut i: usize = 0;
        while i < len
            invariant
                len == self.loot_rows().len(),
                self.wf(),
                i <= len,
                out@ == spec_user_loot(self.loot_rows().take(i as int), chat_id, user_id),
            decreases len - i,
        {
            proof {
                assert(self.loot_rows().take(i + 1).drop_last() =~= self.loot_rows().take(i as int));
                assert(self.loot_rows().take(i + 1).last() == self.loot_rows()[i as int]);
            }
            if self.loot[i].chat_id == chat_id && self.loot[i].owner == user_id {
                let l = self.loot[i].duplicate();
                out.push(l);
            }
            i = i + 1;
        }
        proof {
            assert(self.loot_rows().take(len as int) =~= self.loot_rows());
        }
        out
    }

    /// Inserts a loot row and returns it with its surrogate id set.  Fails
    /// with [`StorageError::CapacityExceeded`] when the table is full; the
    /// store is unchanged on failure.
    pub fn add_loot(&mut self, loot: &Loot) -> (r: Result<Loot, StorageError>)
        requires
            old(self).wf(),
        ensures
            final(self).wf(),
            final(self).pig_rows() == old(self).pig_rows(),
            old(self).loot_rows().len() >= ROW_LIMIT ==> r == Result::<Loot, StorageError>::Err(
                StorageError::CapacityExceeded,
            ) && final(self).loot_rows() == old(self).loot_rows(),
            old(self).loot_rows().len() < ROW_LIMIT ==> {
                let created = Loot { id: (old(self).loot_rows().len() + 1) as i64, ..*loot };
                r == Result::<Loot, StorageError>::Ok(created) && final(self).loot_rows() == old(
                    self,
                ).loot_rows().push(created)
            },
    {
        let n = self.loot.len();
        if n as u64 >= ROW_LIMIT as u64 {
            return Err(StorageError::CapacityExceeded);
        }
        let mut created = loot.duplicate();
        created.id = (n as i64) + 1;
        let returned = created.duplicate();
        self.loot.push(created);
        Ok(returned)
    }
}

/// Under unique keys, a matching position is the position every
/// key-directed spec function speaks of.
pub proof fn lemma_pig_index_is(s: Seq<Pig>, chat_id: i64, user_id: i64, i: int)
    requires
        spec_keys_unique(s),
        0 <= i < s.len(),
        row_matches(s[i], chat_id, user_id),
    ensures
        spec_has_pig(s, chat_id, user_id),
        spec_pig_index(s, chat_id, user_id) == i,
        spec_pig_row(s, chat_id, user_id) == s[i],
{
    assert(spec_has_pig(s, chat_id, user_id));
    let k = spec_pig_index(s, chat_id, user_id);
    assert(0 <= k < s.len() && row_matches(s[k], chat_id, user_id));
    if k != i {
        if k < i {
            assert(!(s[k].chat_id == s[i].chat_id && s[k].user_id == s[i].user_id));
        } else {
            assert(!(s[i].chat_id == s[k].chat_id && s[i].user_id == s[k].user_id));
        }
    }
}

/// Rows ranked ahead of a stored row are rows of its chat other than
/// itself, so a stored row's rank never exceeds the chat's population.
pub proof fn lemma_count_before_lt_chat(s: Seq<Pig>, me: Pig, at: int)
    requires
        0 <= at < s.len(),
        s[at] == me,
    ensures
        spec_count_before(s, me) < spec_count_chat(s, me.chat_id),
    decreases s.len(),
{
    lemma_count_before_le_chat(s, me);
    if at == s.len() - 1 {
        lemma_count_before_le_chat(s.drop_last(), me);
        assert(!spec_ranked_before(s.last(), me));
        assert(spec_in_chat(s.last(), me.chat_id));
    } else {
        lemma_count_before_lt_chat(s.drop_last(), me, at);
    }
}

/// Every row ranked ahead of `me` lies in `me`'s chat.
pub proof fn lemma_count_before_le_chat(s: Seq<Pig>, me: Pig)
    ensures
        spec_count_before(s, me) <= spec_count_chat(s, me.chat_id),
    decreases s.len(),
{
    if s.len() > 0 {
        lemma_count_before_le_chat(s.drop_last(), me);
    }
}

/// Inserting after exactly the leading rows of at least the new row's
/// weight is insertion at that position.
pub proof fn lemma_sorted_insert_at(r: Seq<Pig>, p: Pig, pos: int)
    requires
        0 <= pos <= r.len(),
        forall|a: int| 0 <= a < pos ==> (#[trigger] r[a].weight) >= p.weight,
        pos == r.len() || r[pos].weight < p.weight,
    ensures
        spec_sorted_insert(r, p) == r.insert(pos, p),
    decreases r.len(),
{
    if r.len() == 0 {
        assert(spec_sorted_insert(r, p) =~= r.insert(0, p));
    } else if pos == 0 {
        assert(r[0].weight < p.weight);
        assert(spec_sorted_insert(r, p) =~= r.insert(0, p));
    } else {
        assert(r[0].weight >= p.weight);
        lemma_sorted_insert_at(r.drop_first(), p, pos - 1);
        assert(seq![r[0]].add(r.drop_first().insert(pos - 1, p)) =~= r.insert(pos, p));
    }
}

/// Insertion loses nothing: what was in the sequence, and the new row,
/// are in the inserted sequence.
proof fn lemma_sorted_insert_contains(r: Seq<Pig>, p: Pig, x: Pig)
    requires
        r.contains(x) || x == p,
    ensures
        spec_sorted_insert(r, p).contains(x),
    decreases r.len(),
{
    let out = spec_sorted_insert(r, p);
    if r.len() == 0 {
        assert(out[0] == p);
    } else if r[0].weight >= p.weight {
        let rest = spec_sorted_insert(r.drop_first(), p);
        if x == r[0] {
            assert(out[0] == x);
        } else {
            if r.contains(x) {
                let j = choose|j: int| 0 <= j < r.len() && r[j] == x;
                assert(r.drop_first()[j - 1] == x);
                assert(r.drop_first().contains(x));
            }
            lemma_sorted_insert_contains(r.drop_first(), p, x);
            let k = choose|k: int| 0 <= k < rest.len() && rest[k] == x;
            assert(out[k + 1] == rest[k]);
        }
    } else {
        if x == p {
            assert(out[0] == p);
        } else {
            let j = choose|j: int| 0 <= j < r.len() && r[j] == x;
            assert(out[j + 1] == r[j]);
        }
    }
}

/// The ranked listing is complete: every row of the chat appears in it.
pub proof fn lemma_ranked_rows_complete(s: Seq<Pig>, chat_id: i64, i: int)
    requires
        0 <= i < s.len(),
        spec_in_chat(s[i], chat_id),
    ensures
        spec_ranked_rows(s, chat_id).contains(s[i]),
    decreases s.len(),
{
    let prev = spec_ranked_rows(s.drop_last(), chat_id);
    if i == s.len() - 1 {
        lemma_sorted_insert_contains(prev, s.last(), s[i]);
    } else {
        assert(s.drop_last()[i] == s[i]);
        lemma_ranked_rows_complete(s.drop_last(), chat_id, i);
        if spec_in_chat(s.last(), chat_id) {
            lemma_sorted_insert_contains(prev, s.last(), s[i]);
        }
    }
}

/// Inserting into a weight-descending sequence at the position the previous
/// lemma describes keeps it weight-descending.
pub proof fn lemma_sorted_insert_sorted(r: Seq<Pig>, p: Pig, pos: int)
    requires
        spec_sorted_desc(r),
        0 <= pos <= r.len(),
        forall|a: int| 0 <= a < pos ==> (#[trigger] r[a].weight) >= p.weight,
        pos == r.len() || r[pos].weight < p.weight,
    ensures
        spec_sorted_desc(r.insert(pos, p)),
{
    let t = r.insert(pos, p);
    assert forall|i: int, j: int| 0 <= i < j < t.len() implies #[trigger] t[i].weight
        >= #[trigger] t[j].weight by {
        if i < pos {
            assert(t[i] == r[i]);
        } else if i == pos {
            assert(t[i] == p);
        } else {
            assert(t[i] == r[i - 1]);
        }
        if j < pos {
            assert(t[j] == r[j]);
        } else if j == pos {
            assert(t[j] == p);
        } else {
            assert(t[j] == r[j - 1]);
        }
    }
}

} // verus!
