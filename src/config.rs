//! The bot tokens and the mapping between Telegram chats and Discord channels.
//!
//! The mapping text is a comma-separated list of `telegram_chat_id:discord_channel_id`
//! entries. An entry that does not split into exactly two parts at `:` is skipped; an entry
//! that does but whose parts are not integers makes the whole configuration invalid. Where an
//! id appears in more than one entry, the later entry wins.
use std::collections::HashMap;
use vstd::prelude::*;

use crate::text::{i64_of, parse_i64, parse_u64, split_on, split_spec, u64_of, views};

verus! {

broadcast use vstd::std_specs::hash::group_hash_axioms;

/// Why a configuration was refused.
#[derive(Debug)]
pub enum ConfigError {
    /// A two-part mapping entry whose parts are not a Telegram chat id and a Discord
    /// channel id; it holds the entry.
    Mapping(String),
}

/// The pair a two-part entry declares, if both parts are integers; `None` for an entry that
/// is skipped, `Some(None)` for one that is malformed.
pub open spec fn entry_pair(entry: Seq<char>) -> Option<Option<(i64, u64)>> {
    let parts = split_spec(entry, ':');
    if parts.len() != 2 {
        None
    } else {
        match (i64_of(parts[0]), u64_of(parts[1])) {
            (Some(t), Some(d)) => Some(Some((t, d))),
            _ => Some(None),
        }
    }
}

/// The `(telegram, discord)` pairs that the entries declare, in order, or the first
/// malformed entry.
pub open spec fn mapping_pairs(entries: Seq<Seq<char>>) -> Result<Seq<(i64, u64)>, Seq<char>>
    decreases entries.len(),
{
    if entries.len() == 0 {
        Ok(Seq::empty())
    } else {
        match mapping_pairs(entries.drop_last()) {
            Err(e) => Err(e),
            Ok(ps) => match entry_pair(entries.last()) {
                None => Ok(ps),
                Some(None) => Err(entries.last()),
                Some(Some(p)) => Ok(ps.push(p)),
            },
        }
    }
}

/// The pairs that a whole mapping text declares.
pub open spec fn text_pairs(text: Seq<char>) -> Result<Seq<(i64, u64)>, Seq<char>> {
    mapping_pairs(split_spec(text, ','))
}

/// An entry that does not split into exactly two parts at `:` adds nothing and breaks
/// nothing: the entries around it declare the same pairs with it as without it.
pub proof fn lemma_skipped_entry(before: Seq<Seq<char>>, entry: Seq<char>, after: Seq<Seq<char>>)
    requires
        split_spec(entry, ':').len() != 2,
    ensures
        mapping_pairs(before.push(entry) + after) == mapping_pairs(before + after),
    decreases after.len(),
{
    if after.len() == 0 {
        assert(before.push(entry) + after =~= before.push(entry));
        assert(before + after =~= before);
        assert(before.push(entry).drop_last() =~= before);
    } else {
        let init = after.drop_last();
        lemma_skipped_entry(before, entry, init);
        assert((before.push(entry) + after).drop_last() =~= before.push(entry) + init);
        assert((before + after).drop_last() =~= before + init);
        assert((before.push(entry) + after).last() == after.last());
        assert((before + after).last() == after.last());
    }
}

/// Telegram chat id to Discord channel id, each pair inserted in order.
pub open spec fn telegram_map(ps: Seq<(i64, u64)>) -> Map<i64, u64>
    decreases ps.len(),
{
    if ps.len() == 0 {
        Map::empty()
    } else {
        telegram_map(ps.drop_last()).insert(ps.last().0, ps.last().1)
    }
}

/// Discord channel id to Telegram chat id, each pair inserted in order.
pub open spec fn discord_map(ps: Seq<(i64, u64)>) -> Map<u64, i64>
    decreases ps.len(),
{
    if ps.len() == 0 {
        Map::empty()
    } else {
        discord_map(ps.drop_last()).insert(ps.last().1, ps.last().0)
    }
}

/// No Telegram chat id and no Discord channel id occurs twice among the pairs.
pub open spec fn no_duplicate_ids(ps: Seq<(i64, u64)>) -> bool {
    forall|i: int, j: int|
        0 <= i < j < ps.len() ==> #[trigger] ps[i].0 != #[trigger] ps[j].0 && ps[i].1 != ps[j].1
}

/// Built from pairs with no repeated id, the mapping sends each Telegram chat to its Discord
/// channel and that channel back to the same chat.
pub proof fn lemma_bijection(ps: Seq<(i64, u64)>, k: int)
    requires
        no_duplicate_ids(ps),
        0 <= k < ps.len(),
    ensures
        telegram_map(ps).contains_key(ps[k].0),
        telegram_map(ps)[ps[k].0] == ps[k].1,
        discord_map(ps).contains_key(ps[k].1),
        discord_map(ps)[ps[k].1] == ps[k].0,
    decreases ps.len(),
{
    if k < ps.len() - 1 {
        let init = ps.drop_last();
        assert(no_duplicate_ids(init)) by {
            assert forall|i: int, j: int| 0 <= i < j < init.len() implies #[trigger] init[i].0
                != #[trigger] init[j].0 && init[i].1 != init[j].1 by {
                assert(init[i] == ps[i] && init[j] == ps[j]);
            }
        }
        lemma_bijection(init, k);
        assert(ps[k] == init[k]);
        assert(ps[k].0 != ps[ps.len() - 1].0 && ps[k].1 != ps[ps.len() - 1].1);
    }
}

/// The configuration the bots run with.
#[derive(Debug, Clone)]
pub struct Config {
    discord_token: String,
    telegram_token: String,
    discord_to_telegram: HashMap<u64, i64>,
    telegram_to_discord: HashMap<i64, u64>,
}

impl Config {
    /// The Discord bot token.
    pub closed spec fn discord_token_view(&self) -> Seq<char> {
        self.discord_token@
    }

    /// The Telegram bot token.
    pub closed spec fn telegram_token_view(&self) -> Seq<char> {
        self.telegram_token@
    }

    /// Which Telegram chat each linked Discord channel goes to.
    pub closed spec fn to_telegram(&self) -> Map<u64, i64> {
        self.discord_to_telegram@
    }

    /// Which Discord channel each linked Telegram chat goes to.
    pub closed spec fn to_discord(&self) -> Map<i64, u64> {
        self.telegram_to_discord@
    }

    /// Builds the configuration from the two bot tokens and the mapping text.
    pub fn new(chat_mappings: &str, discord_token: String, telegram_token: String) -> (r: Result<
        Config,
        ConfigError,
    >)
        ensures
            match text_pairs(chat_mappings@) {
                Ok(ps) => r matches Ok(c) && c.to_discord() == telegram_map(ps) && c.to_telegram()
                    == discord_map(ps) && c.discord_token_view() == discord_token@
                    && c.telegram_token_view() == telegram_token@,
                Err(entry) => r matches Err(ConfigError::Mapping(e)) && e@ == entry,
            },
    {
        let entries = split_on(chat_mappings, ',');
        let mut discord_to_telegram: HashMap<u64, i64> = HashMap::new();
        let mut telegram_to_discord: HashMap<i64, u64> = HashMap::new();
        let ghost mut ps: Seq<(i64, u64)> = Seq::empty();
        let mut i: usize = 0;
        while i < entries.len()
            invariant
                i <= entries.len(),
                views(entries@) == split_spec(chat_mappings@, ','),
                mapping_pairs(views(entries@).subrange(0, i as int)) == Ok::<
                    Seq<(i64, u64)>,
                    Seq<char>,
                >(ps),
                telegram_to_discord@ == telegram_map(ps),
                discord_to_telegram@ == discord_map(ps),
            decreases entries.len() - i,
        {
            let entry = entries[i].as_str();
            let parts = split_on(entry, ':');
            proof {
                assert(views(entries@).subrange(0, i + 1).drop_last() =~= views(
                    entries@,
                ).subrange(0, i as int));
                assert(views(entries@).subrange(0, i + 1).last() == entry@);
            }
            if parts.len() == 2 {
                let t = parse_i64(parts[0].as_str());
                let d = parse_u64(parts[1].as_str());
                proof {
                    assert(views(parts@)[0] == parts@[0]@);
                    assert(views(parts@)[1] == parts@[1]@);
                }
                match (t, d) {
                    (Some(t), Some(d)) => {
                        telegram_to_discord.insert(t, d);
                        discord_to_telegram.insert(d, t);
                        proof {
                            let ps0 = ps;
                            ps = ps.push((t, d));
                            assert(ps.drop_last() =~= ps0);
                        }
                    },
                    _ => {
                        proof {
                            assert(mapping_pairs(views(entries@).subrange(0, i + 1)) == Err::<
                                Seq<(i64, u64)>,
                                Seq<char>,
                            >(entry@));
                            lemma_malformed_prefix(views(entries@), i as int + 1);
                            assert(views(entries@).subrange(0, entries@.len() as int) =~= views(
                                entries@,
                            ));
                        }
                        return Err(ConfigError::Mapping(entries[i].clone()));
                    },
                }
            }
            i = i + 1;
        }
        proof {
            assert(views(entries@).subrange(0, entries@.len() as int) =~= views(entries@));
        }
        Ok(Config { discord_token, telegram_token, discord_to_telegram, telegram_to_discord })
    }

    /// Returns the Discord bot token.
    pub fn discord(&self) -> (r: &str)
        ensures
            r@ == self.discord_token_view(),
    {
        self.discord_token.as_str()
    }

    /// Returns the Telegram bot token.
    pub fn telegram(&self) -> (r: &str)
        ensures
            r@ == self.telegram_token_view(),
    {
        self.telegram_token.as_str()
    }

    /// The Telegram chat linked to a Discord channel.
    pub fn telegram_chat_id(&self, discord_channel_id: &u64) -> (r: Option<i64>)
        ensures
            r == (if self.to_telegram().contains_key(*discord_channel_id) {
                Some(self.to_telegram()[*discord_channel_id])
            } else {
                None
            }),
    {
        match self.discord_to_telegram.get(discord_channel_id) {
            Some(t) => Some(*t),
            None => None,
        }
    }

    /// The Discord channel linked to a Telegram chat.
    pub fn discord_channel_id(&self, telegram_chat_id: &i64) -> (r: Option<u64>)
        ensures
            r == (if self.to_discord().contains_key(*telegram_chat_id) {
                Some(self.to_discord()[*telegram_chat_id])
            } else {
                None
            }),
    {
        match self.telegram_to_discord.get(telegram_chat_id) {
            Some(d) => Some(*d),
            None => None,
        }
    }
}

/// Once a prefix of the entries holds a malformed entry, every longer prefix fails with the
/// same entry.
proof fn lemma_malformed_prefix(entries: Seq<Seq<char>>, n: int)
    requires
        0 <= n <= entries.len(),
        mapping_pairs(entries.subrange(0, n)) is Err,
    ensures
        mapping_pairs(entries) == mapping_pairs(entries.subrange(0, n)),
    decreases entries.len() - n,
{
    if n < entries.len() {
        assert(entries.subrange(0, n + 1).drop_last() =~= entries.subrange(0, n));
        lemma_malformed_prefix(entries, n + 1);
    } else {
        assert(entries.subrange(0, n) =~= entries);
    }
}

} // verus!
