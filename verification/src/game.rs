//! The game state: current location, the loaded configuration and the
//! character, and the experience-reward bookkeeping every menu action
//! goes through.

use vstd::prelude::*;
use crate::character::Character;
use crate::character::threshold_spec;
use crate::character::total_progress;
use crate::config::Config;
use crate::config::configured;
use crate::location::Location;

verus! {

/// What a grant of experience reports back to the menu: nothing for a
/// zero grant, the new level after a level-up, or the updated progress.
#[derive(Clone, Copy, Debug, PartialEq, Eq, Structural)]
pub enum RewardNote {
    /// A zero grant: no change and no message.
    Silent,
    /// At least one threshold was crossed; the payload is the new level.
    LevelUp(u32),
    /// No threshold was crossed: the grant, the carried experience and
    /// the current threshold, for a progress message.
    Progress { amount: u32, xp: u32, threshold: u32 },
}

/// The whole mutable state of a run: where the player is, what was
/// configured, and who the player is.
pub struct Game {
    pub location: Location,
    pub config: Config,
    pub character: Character,
}

impl Game {
    /// A fresh game: a new character built from the configuration and the
    /// derived display name, starting in the town square.
    pub fn new(config: Config, name: String) -> (g: Game)
        ensures
            g.location == Location::TownSquare,
            g.config == config,
            g.character.name == name,
            g.character.level == 1,
            g.character.xp == 0,
            g.character.wf(),
            config.character.clothing@.len() > 0
                ==> g.character.clothing@ == config.character.clothing@,
            config.character.clothing@.len() == 0 ==> g.character.clothing@.len() == 3
                && g.character.clothing@[0]@ == "Aurora-weave jacket"@
                && g.character.clothing@[1]@ == "Carbon-thread boots"@
                && g.character.clothing@[2]@ == "Holographic lapel pin"@,
            g.character.pockets@.len() == 1,
            g.character.pockets@[0].name@ == "Grin Wallet"@,
            g.character.pockets@[0].description@ == "Shielded grin-wallet client"@,
            configured(config.actions.grin_wallet) ==> (g.character.pockets@[0].command
                matches Some(v) && Some(v@) == (match config.actions.grin_wallet {
                Some(cmd) => Some(cmd@),
                None => None,
            })),
            !configured(config.actions.grin_wallet) ==> (g.character.pockets@[0].command
                matches Some(v) && v@.len() == 1 && v@[0]@ == "grin-wallet"@),
    {
        let character = Character::new(&config, name);
        Game { location: Location::TownSquare, config, character }
    }

    /// Grant experience for a performed action and say what to report: a
    /// zero amount changes nothing and reports nothing, a level-up
    /// reports the new level, and anything else reports the progress
    /// toward the next threshold.
    pub fn reward_xp(&mut self, amount: u32) -> (note: RewardNote)
        requires
            old(self).character.wf(),
            old(self).character.xp + amount <= u32::MAX,
            old(self).character.xp + amount == u32::MAX
                ==> threshold_spec(old(self).character.level as int) < u32::MAX,
        ensures
            final(self).location == old(self).location,
            final(self).config == old(self).config,
            final(self).character.wf(),
            final(self).character.name == old(self).character.name,
            final(self).character.clothing == old(self).character.clothing,
            final(self).character.pockets == old(self).character.pockets,
            amount == 0 ==> final(self).character == old(self).character
                && note == RewardNote::Silent,
            amount > 0 ==> total_progress(
                final(self).character.level as int,
                final(self).character.xp as int,
            ) == total_progress(
                old(self).character.level as int,
                old(self).character.xp as int,
            ) + amount,
            old(self).character.level <= final(self).character.level,
            amount > 0 && final(self).character.level > old(self).character.level
                ==> note == RewardNote::LevelUp(final(self).character.level),
            amount > 0 && final(self).character.level == old(self).character.level
                ==> final(self).character.xp == old(self).character.xp + amount
                    && note == (RewardNote::Progress {
                    amount,
                    xp: final(self).character.xp,
                    threshold: threshold_spec(final(self).character.level as int) as u32,
                }),
    {
        if amount == 0 {
            return RewardNote::Silent;
        }
        match self.character.gain_xp(amount) {
            Some(new_level) => RewardNote::LevelUp(new_level),
            None => {
                let threshold = self.character.experience_to_next_level();
                RewardNote::Progress { amount, xp: self.character.xp, threshold }
            },
        }
    }
}

} // verus!
