//! The progression model: a character's level and experience, and the
//! carry-over rule that converts granted experience into level-ups.

use vstd::prelude::*;
use crate::config::Config;
use crate::config::configured;
use crate::config::clone_string_vec;

verus! {

/// Experience required to advance from `level` to the next level.
pub open spec fn threshold_spec(level: int) -> int {
    25 + 10 * (level - 1)
}

/// Total experience consumed by all the level-ups that brought a character
/// from level 1 up to `level`.
pub open spec fn consumed_below(level: int) -> int
    decreases level,
{
    if level <= 1 {
        0
    } else {
        consumed_below(level - 1) + threshold_spec(level - 1)
    }
}

/// Overall progress represented by a `(level, xp)` pair: every point of
/// experience ever granted is either consumed by a past level-up or still
/// carried in `xp`.
pub open spec fn total_progress(level: int, xp: int) -> int {
    consumed_below(level) + xp
}

/// The states the progression model may be in: levels start at 1, the
/// carried experience sits strictly below the next threshold, and the
/// threshold itself is representable as a `u32`.
pub open spec fn progress_wf(level: int, xp: int) -> bool {
    &&& 1 <= level
    &&& 0 <= xp < threshold_spec(level)
    &&& threshold_spec(level) <= u32::MAX
}

/// Thresholds grow strictly with the level.
pub proof fn lemma_threshold_strictly_increasing(l1: int, l2: int)
    requires
        1 <= l1 < l2,
    ensures
        threshold_spec(l1) < threshold_spec(l2),
{
}

proof fn lemma_consumed_below_monotone(a: int, b: int)
    requires
        1 <= a <= b,
    ensures
        consumed_below(a) <= consumed_below(b),
    decreases b - a,
{
    if a < b {
        lemma_consumed_below_monotone(a, b - 1);
    }
}

/// A given amount of total progress corresponds to exactly one valid
/// `(level, xp)` pair, so replaying the same grants from the same starting
/// state always lands on the same level and the same carried experience.
pub proof fn lemma_progress_determined(l1: int, x1: int, l2: int, x2: int)
    requires
        1 <= l1,
        0 <= x1 < threshold_spec(l1),
        1 <= l2,
        0 <= x2 < threshold_spec(l2),
        total_progress(l1, x1) == total_progress(l2, x2),
    ensures
        l1 == l2,
        x1 == x2,
{
    if l1 < l2 {
        assert(consumed_below(l1 + 1) == consumed_below(l1) + threshold_spec(l1));
        lemma_consumed_below_monotone(l1 + 1, l2);
    } else if l2 < l1 {
        assert(consumed_below(l2 + 1) == consumed_below(l2) + threshold_spec(l2));
        lemma_consumed_below_monotone(l2 + 1, l1);
    }
}

/// An inventory entry on the character sheet: selecting it dispatches its
/// command if one is present, and is a purely informational no-op otherwise.
pub struct PocketItem {
    pub name: String,
    pub description: String,
    pub command: Option<Vec<String>>,
}

impl PocketItem {
    /// The wallet pocket every character starts with: bound to the
    /// configured wallet command, or to the plain `grin-wallet` call when
    /// none is configured.
    pub fn grin_wallet(command: Option<&Vec<String>>) -> (item: PocketItem)
        ensures
            item.name@ == "Grin Wallet"@,
            item.description@ == "Shielded grin-wallet client"@,
            match command {
                Some(cmd) => item.command matches Some(c) && c@ == cmd@,
                None => item.command matches Some(c) && c@.len() == 1
                    && c@[0]@ == "grin-wallet"@,
            },
    {
        let cmd: Vec<String> = match command {
            Some(cmd) => clone_string_vec(cmd),
            None => {
                let mut v: Vec<String> = Vec::new();
                v.push(String::from_str("grin-wallet"));
                v
            },
        };
        PocketItem {
            name: String::from_str("Grin Wallet"),
            description: String::from_str("Shielded grin-wallet client"),
            command: Some(cmd),
        }
    }
}

/// The player character: identity, progression state, cosmetic attributes
/// and the pocket inventory.
pub struct Character {
    pub name: String,
    pub level: u32,
    pub xp: u32,
    pub clothing: Vec<String>,
    pub pockets: Vec<PocketItem>,
}

impl Character {
    /// The progression invariant, restored after every grant of experience.
    pub open spec fn wf(self) -> bool {
        progress_wf(self.level as int, self.xp as int)
    }

    /// A fresh character: level 1 with no experience, wearing the
    /// configured clothing or the default outfit, with the wallet as the
    /// only pocket item.
    pub fn new(config: &Config, name: String) -> (c: Character)
        ensures
            c.name == name,
            c.level == 1,
            c.xp == 0,
            c.wf(),
            config.character.clothing@.len() > 0 ==> c.clothing@ == config.character.clothing@,
            config.character.clothing@.len() == 0 ==> c.clothing@.len() == 3
                && c.clothing@[0]@ == "Aurora-weave jacket"@
                && c.clothing@[1]@ == "Carbon-thread boots"@
                && c.clothing@[2]@ == "Holographic lapel pin"@,
            c.pockets@.len() == 1,
            c.pockets@[0].name@ == "Grin Wallet"@,
            c.pockets@[0].description@ == "Shielded grin-wallet client"@,
            configured(config.actions.grin_wallet) ==> (c.pockets@[0].command matches Some(v)
                && Some(v@) == (match config.actions.grin_wallet {
                    Some(cmd) => Some(cmd@),
                    None => None,
                })),
            !configured(config.actions.grin_wallet) ==> (c.pockets@[0].command matches Some(v)
                && v@.len() == 1 && v@[0]@ == "grin-wallet"@),
    {
        let clothing: Vec<String> = if config.character.clothing.len() == 0 {
            let mut v: Vec<String> = Vec::new();
            v.push(String::from_str("Aurora-weave jacket"));
            v.push(String::from_str("Carbon-thread boots"));
            v.push(String::from_str("Holographic lapel pin"));
            v
        } else {
            clone_string_vec(&config.character.clothing)
        };
        let mut pockets: Vec<PocketItem> = Vec::new();
        pockets.push(PocketItem::grin_wallet(config.actions.grin_wallet_command()));
        Character { name, level: 1, xp: 0, clothing, pockets }
    }

    /// Experience required to reach the next level from the current one.
    pub fn experience_to_next_level(&self) -> (t: u32)
        requires
            1 <= self.level,
            threshold_spec(self.level as int) <= u32::MAX,
        ensures
            t == threshold_spec(self.level as int),
    {
        25 + (self.level - 1) * 10
    }

    /// Add `amount` experience, then carry over across as many thresholds
    /// as the new sum covers. Returns the new level if at least one
    /// level-up occurred, and `None` otherwise.
    pub fn gain_xp(&mut self, amount: u32) -> (leveled: Option<u32>)
        requires
            old(self).wf(),
            old(self).xp + amount <= u32::MAX,
            old(self).xp + amount == u32::MAX
                ==> threshold_spec(old(self).level as int) < u32::MAX,
        ensures
            final(self).wf(),
            final(self).name == old(self).name,
            final(self).clothing == old(self).clothing,
            final(self).pockets == old(self).pockets,
            old(self).level <= final(self).level,
            total_progress(final(self).level as int, final(self).xp as int)
                == total_progress(old(self).level as int, old(self).xp as int) + amount,
            leveled is Some <==> old(self).level < final(self).level,
            match leveled {
                Some(l) => l == final(self).level,
                None => final(self).level == old(self).level
                    && final(self).xp == old(self).xp + amount,
            },
            amount == 0 ==> final(self).level == old(self).level
                && final(self).xp == old(self).xp && leveled is None,
    {
        let ghost start = *self;
        self.xp = self.xp + amount;
        let mut leveled: Option<u32> = None;
        loop
            invariant
                1 <= self.level,
                threshold_spec(self.level as int) <= u32::MAX,
                self.xp == u32::MAX ==> threshold_spec(self.level as int) < u32::MAX,
                start.level <= self.level,
                self.name == start.name,
                self.clothing == start.clothing,
                self.pockets == start.pockets,
                total_progress(self.level as int, self.xp as int)
                    == total_progress(start.level as int, start.xp as int) + amount,
                leveled is Some <==> start.level < self.level,
                leveled matches Some(l) ==> l == self.level,
                self.level == start.level ==> self.xp == start.xp + amount,
            ensures
                self.xp < threshold_spec(self.level as int),
            decreases self.xp,
        {
            let threshold = self.experience_to_next_level();
            if self.xp < threshold {
                break;
            }
            assert(threshold_spec(self.level as int + 1) <= u32::MAX) by {
                assert(threshold_spec(self.level as int) < u32::MAX);
                assert(10 * (self.level as int) + 15 < u32::MAX);
                assert(10 * (self.level as int) <= u32::MAX - 16);
                assert(self.level as int <= 429496727);
            }
            assert(consumed_below(self.level as int + 1)
                == consumed_below(self.level as int) + threshold_spec(self.level as int));
            self.xp = self.xp - threshold;
            self.level = self.level + 1;
            leveled = Some(self.level);
        }
        proof {
            if amount == 0 {
                lemma_progress_determined(
                    self.level as int,
                    self.xp as int,
                    start.level as int,
                    start.xp as int,
                );
            }
        }
        leveled
    }
}

} // verus!
