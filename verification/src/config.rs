//! The configuration model: a slot per named action holding an optional
//! argument-vector command, the ordered list of chest tools, and initial
//! character attributes. A slot whose vector is absent or empty counts as
//! unconfigured.

use vstd::prelude::*;
use crate::text::is_unicode_whitespace;
use crate::text::has_visible_char;

verus! {

/// Whether an action slot holds a usable command: present and non-empty.
pub open spec fn configured(slot: Option<Vec<String>>) -> bool {
    slot matches Some(cmd) && cmd@.len() > 0
}

/// Copy a command vector element by element.
pub(crate) fn clone_string_vec(v: &Vec<String>) -> (r: Vec<String>)
    ensures
        r@ == v@,
{
    let mut r: Vec<String> = Vec::new();
    let mut i: usize = 0;
    while i < v.len()
        invariant
            0 <= i <= v.len(),
            r@ == v@.subrange(0, i as int),
        decreases v.len() - i,
    {
        r.push(v[i].clone());
        proof {
            assert(v@.subrange(0, i as int).push(v@[i as int]) =~= v@.subrange(0, i + 1));
        }
        i = i + 1;
    }
    proof {
        assert(v@.subrange(0, v@.len() as int) =~= v@);
    }
    r
}

/// A chest tool: a display name and the command it launches.
pub struct NamedCommand {
    pub name: String,
    pub command: Vec<String>,
}

impl NamedCommand {
    /// A tool is usable only when its name is not blank and its command is
    /// not empty; anything else is filtered out of the chest menu.
    pub open spec fn is_valid_spec(self) -> bool {
        &&& exists|k: int| 0 <= k < self.name@.len() && !is_unicode_whitespace(self.name@[k])
        &&& self.command@.len() > 0
    }

    /// Whether this tool may appear in the chest menu.
    pub fn is_valid(&self) -> (r: bool)
        ensures
            r == self.is_valid_spec(),
    {
        has_visible_char(self.name.as_str()) && !self.command.is_empty()
    }

    /// The tool's command, or `None` when the command vector is empty.
    pub fn command(&self) -> (r: Option<&Vec<String>>)
        ensures
            r is Some <==> self.command@.len() > 0,
            r matches Some(c) ==> *c == self.command,
    {
        if self.command.is_empty() {
            None
        } else {
            Some(&self.command)
        }
    }
}

/// The chest-menu entries of `s` before `n`, as indices into `s`, in order.
pub open spec fn valid_indices_upto(s: Seq<NamedCommand>, n: int) -> Seq<usize>
    decreases n,
{
    if n <= 0 {
        Seq::empty()
    } else {
        valid_indices_upto(s, n - 1) + if s[n - 1].is_valid_spec() {
            seq![(n - 1) as usize]
        } else {
            Seq::empty()
        }
    }
}

/// Indices of the tools that the chest menu shows, in configuration order:
/// exactly the valid ones.
pub fn valid_tool_indices(tools: &Vec<NamedCommand>) -> (r: Vec<usize>)
    ensures
        r@ == valid_indices_upto(tools@, tools@.len() as int),
        forall|k: int|
            0 <= k < r@.len() ==> r@[k] < tools@.len() && tools@[r@[k] as int].is_valid_spec(),
{
    let mut r: Vec<usize> = Vec::new();
    let mut i: usize = 0;
    while i < tools.len()
        invariant
            0 <= i <= tools.len(),
            r@ == valid_indices_upto(tools@, i as int),
            forall|k: int|
                0 <= k < r@.len() ==> r@[k] < tools@.len() && tools@[r@[k] as int].is_valid_spec(),
        decreases tools.len() - i,
    {
        if tools[i].is_valid() {
            r.push(i);
            proof {
                assert(valid_indices_upto(tools@, i as int).push(i as usize)
                    =~= valid_indices_upto(tools@, i + 1));
            }
        } else {
            proof {
                assert(valid_indices_upto(tools@, i as int)
                    =~= valid_indices_upto(tools@, i + 1));
            }
        }
        i = i + 1;
    }
    r
}

/// The command slot of each of the eight named actions, and the ordered
/// chest-tool list.
pub struct ActionsConfig {
    pub search_tombs: Option<Vec<String>>,
    pub check_mail: Option<Vec<String>>,
    pub activate_screensaver: Option<Vec<String>>,
    pub computer_terminal: Option<Vec<String>>,
    pub lay_down: Option<Vec<String>>,
    pub chest_tools: Vec<NamedCommand>,
    pub closet_launcher: Option<Vec<String>>,
    pub explore_world: Option<Vec<String>>,
    pub grin_wallet: Option<Vec<String>>,
}

/// Resolve an action slot to its usable command, treating an absent and an
/// empty vector alike as unconfigured.
fn nonempty_command(slot: &Option<Vec<String>>) -> (r: Option<&Vec<String>>)
    ensures
        r is Some <==> configured(*slot),
        r matches Some(c) ==> *slot == Some(*c),
{
    match slot {
        Some(cmd) => {
            if cmd.len() > 0 {
                Some(cmd)
            } else {
                None
            }
        },
        None => None,
    }
}

impl ActionsConfig {
    /// The configured tomb-search command, if usable.
    pub fn search_tombs_command(&self) -> (r: Option<&Vec<String>>)
        ensures
            r is Some <==> configured(self.search_tombs),
            r matches Some(c) ==> self.search_tombs == Some(*c),
    {
        nonempty_command(&self.search_tombs)
    }

    /// The configured mail command, if usable.
    pub fn check_mail_command(&self) -> (r: Option<&Vec<String>>)
        ensures
            r is Some <==> configured(self.check_mail),
            r matches Some(c) ==> self.check_mail == Some(*c),
    {
        nonempty_command(&self.check_mail)
    }

    /// The configured screensaver command, if usable.
    pub fn activate_screensaver_command(&self) -> (r: Option<&Vec<String>>)
        ensures
            r is Some <==> configured(self.activate_screensaver),
            r matches Some(c) ==> self.activate_screensaver == Some(*c),
    {
        nonempty_command(&self.activate_screensaver)
    }

    /// The configured computer command, if usable.
    pub fn computer_terminal_command(&self) -> (r: Option<&Vec<String>>)
        ensures
            r is Some <==> configured(self.computer_terminal),
            r matches Some(c) ==> self.computer_terminal == Some(*c),
    {
        nonempty_command(&self.computer_terminal)
    }

    /// The configured short-rest command, if usable.
    pub fn lay_down_command(&self) -> (r: Option<&Vec<String>>)
        ensures
            r is Some <==> configured(self.lay_down),
            r matches Some(c) ==> self.lay_down == Some(*c),
    {
        nonempty_command(&self.lay_down)
    }

    /// The configured chest tools, in order, unfiltered.
    pub fn chest_tools(&self) -> (r: &Vec<NamedCommand>)
        ensures
            r == &self.chest_tools,
    {
        &self.chest_tools
    }

    /// The configured closet command, if usable.
    pub fn closet_launcher_command(&self) -> (r: Option<&Vec<String>>)
        ensures
            r is Some <==> configured(self.closet_launcher),
            r matches Some(c) ==> self.closet_launcher == Some(*c),
    {
        nonempty_command(&self.closet_launcher)
    }

    /// The configured exploration command, if usable.
    pub fn explore_world_command(&self) -> (r: Option<&Vec<String>>)
        ensures
            r is Some <==> configured(self.explore_world),
            r matches Some(c) ==> self.explore_world == Some(*c),
    {
        nonempty_command(&self.explore_world)
    }

    /// The configured wallet command, if usable.
    pub fn grin_wallet_command(&self) -> (r: Option<&Vec<String>>)
        ensures
            r is Some <==> configured(self.grin_wallet),
            r matches Some(c) ==> self.grin_wallet == Some(*c),
    {
        nonempty_command(&self.grin_wallet)
    }
}

impl Default for ActionsConfig {
    /// Every action unconfigured and no chest tools.
    fn default() -> (r: ActionsConfig)
        ensures
            r.search_tombs is None,
            r.check_mail is None,
            r.activate_screensaver is None,
            r.computer_terminal is None,
            r.lay_down is None,
            r.chest_tools@.len() == 0,
            r.closet_launcher is None,
            r.explore_world is None,
            r.grin_wallet is None,
    {
        ActionsConfig {
            search_tombs: None,
            check_mail: None,
            activate_screensaver: None,
            computer_terminal: None,
            lay_down: None,
            chest_tools: Vec::new(),
            closet_launcher: None,
            explore_world: None,
            grin_wallet: None,
        }
    }
}

/// Initial character attributes from the configuration file.
pub struct CharacterConfig {
    pub clothing: Vec<String>,
}

impl Default for CharacterConfig {
    /// No clothing configured; the character falls back to its defaults.
    fn default() -> (r: CharacterConfig)
        ensures
            r.clothing@.len() == 0,
    {
        CharacterConfig { clothing: Vec::new() }
    }
}

/// The whole configuration, immutable after load.
pub struct Config {
    pub actions: ActionsConfig,
    pub character: CharacterConfig,
}

impl Default for Config {
    /// The configuration used when no file is readable or parsing fails.
    fn default() -> (r: Config)
        ensures
            r.actions.search_tombs is None,
            r.actions.check_mail is None,
            r.actions.activate_screensaver is None,
            r.actions.computer_terminal is None,
            r.actions.lay_down is None,
            r.actions.chest_tools@.len() == 0,
            r.actions.closet_launcher is None,
            r.actions.explore_world is None,
            r.actions.grin_wallet is None,
            r.character.clothing@.len() == 0,
    {
        Config { actions: Default::default(), character: Default::default() }
    }
}

} // verus!
