//! The action dispatcher: resolving each named action to its configured
//! command or to its documented built-in fallback, and the pieces of the
//! built-in tomb search (candidate directories and entry filtering).

use vstd::prelude::*;
use crate::config::ActionsConfig;
use crate::config::configured;
use crate::location::MenuAction;
use crate::text::is_unicode_whitespace;
use crate::text::has_visible_char;

verus! {

/// How a menu action is carried out: run a command synchronously and
/// capture its output, spawn it attached to the terminal, or fall back to
/// a built-in behaviour.
pub enum ActionPlan<'a> {
    /// Run this command, blocking, and report its combined output.
    Capture(&'a Vec<String>),
    /// Spawn this command attached to the terminal, without waiting.
    Spawn(&'a Vec<String>),
    /// Scan the candidate tomb directories and report what was found.
    TombScan,
    /// Print this message and do nothing else.
    Notice(&'static str),
    /// Run the built-in screensaver.
    BuiltinScreensaver,
    /// Open the chest submenu over the configured tools.
    ChestMenu,
}

/// Resolve a menu action against the configuration: a configured command
/// is dispatched (captured for the tomb search, spawned for the rest),
/// an unconfigured action falls back to its documented built-in
/// behaviour, and the chest always opens its submenu.
pub fn action_plan<'a>(actions: &'a ActionsConfig, action: MenuAction) -> (r: ActionPlan<'a>)
    ensures
        match action {
            MenuAction::SearchTombs => if configured(actions.search_tombs) {
                r matches ActionPlan::Capture(c) && actions.search_tombs == Some(*c)
            } else {
                r is TombScan
            },
            MenuAction::CheckMail => if configured(actions.check_mail) {
                r matches ActionPlan::Spawn(c) && actions.check_mail == Some(*c)
            } else {
                r matches ActionPlan::Notice(m) && m@
                    == "No mail command configured. Add one under [actions] -> check_mail in lord_config.toml."@
            },
            MenuAction::UseComputer => if configured(actions.computer_terminal) {
                r matches ActionPlan::Spawn(c) && actions.computer_terminal == Some(*c)
            } else {
                r matches ActionPlan::Notice(m) && m@
                    == "No computer command configured. Assign actions.computer_terminal to launch VMware, virt-manager, etc."@
            },
            MenuAction::OpenChest => r is ChestMenu,
            MenuAction::OpenCloset => if configured(actions.closet_launcher) {
                r matches ActionPlan::Spawn(c) && actions.closet_launcher == Some(*c)
            } else {
                r matches ActionPlan::Notice(m) && m@
                    == "No closet launcher configured. Set actions.closet_launcher to your preferred game hub."@
            },
            MenuAction::ExploreWorld => if configured(actions.explore_world) {
                r matches ActionPlan::Spawn(c) && actions.explore_world == Some(*c)
            } else {
                r matches ActionPlan::Notice(m) && m@
                    == "No exploration route configured. Point actions.explore_world at a browser like Firefox."@
            },
            MenuAction::LayDown => if configured(actions.lay_down) {
                r matches ActionPlan::Spawn(c) && actions.lay_down == Some(*c)
            } else {
                r matches ActionPlan::Notice(m) && m@
                    == "You stretch out on the cot. A moment of calm washes over you."@
            },
            MenuAction::Screensaver => if configured(actions.activate_screensaver) {
                r matches ActionPlan::Spawn(c) && actions.activate_screensaver == Some(*c)
            } else {
                r is BuiltinScreensaver
            },
        },
{
    match action {
        MenuAction::SearchTombs => match actions.search_tombs_command() {
            Some(cmd) => ActionPlan::Capture(cmd),
            None => ActionPlan::TombScan,
        },
        MenuAction::CheckMail => match actions.check_mail_command() {
            Some(cmd) => ActionPlan::Spawn(cmd),
            None => ActionPlan::Notice(
                "No mail command configured. Add one under [actions] -> check_mail in lord_config.toml.",
            ),
        },
        MenuAction::UseComputer => match actions.computer_terminal_command() {
            Some(cmd) => ActionPlan::Spawn(cmd),
            None => ActionPlan::Notice(
                "No computer command configured. Assign actions.computer_terminal to launch VMware, virt-manager, etc.",
            ),
        },
        MenuAction::OpenChest => ActionPlan::ChestMenu,
        MenuAction::OpenCloset => match actions.closet_launcher_command() {
            Some(cmd) => ActionPlan::Spawn(cmd),
            None => ActionPlan::Notice(
                "No closet launcher configured. Set actions.closet_launcher to your preferred game hub.",
            ),
        },
        MenuAction::ExploreWorld => match actions.explore_world_command() {
            Some(cmd) => ActionPlan::Spawn(cmd),
            None => ActionPlan::Notice(
                "No exploration route configured. Point actions.explore_world at a browser like Firefox.",
            ),
        },
        MenuAction::LayDown => match actions.lay_down_command() {
            Some(cmd) => ActionPlan::Spawn(cmd),
            None => ActionPlan::Notice(
                "You stretch out on the cot. A moment of calm washes over you.",
            ),
        },
        MenuAction::Screensaver => match actions.activate_screensaver_command() {
            Some(cmd) => ActionPlan::Spawn(cmd),
            None => ActionPlan::BuiltinScreensaver,
        },
    }
}

/// What the tomb search prints after capturing a configured command's
/// output: the output itself, or a placeholder when it is all whitespace.
pub fn capture_report<'a>(output: &'a str) -> (r: &'a str)
    ensures
        (exists|k: int| 0 <= k < output@.len() && !is_unicode_whitespace(output@[k]))
            ==> r == output,
        !(exists|k: int| 0 <= k < output@.len() && !is_unicode_whitespace(output@[k]))
            ==> r@ == "The command completed without output."@,
{
    if has_visible_char(output) {
        output
    } else {
        "The command completed without output."
    }
}

/// The hint printed when no candidate directory held a tomb.
pub fn no_tombs_message() -> (r: &'static str)
    ensures
        r@ == "No tombs were discovered. Configure a search command in lord_config.toml if you rely on the tomb CLI."@,
{
    "No tombs were discovered. Configure a search command in lord_config.toml if you rely on the tomb CLI."
}

/// The candidate configuration files, first readable match wins: a
/// working-directory file, then a per-user file under the home directory.
pub fn config_paths(home: Option<&str>) -> (r: Vec<String>)
    ensures
        r@.len() == (if home is Some { 2int } else { 1int }),
        r@[0]@ == "lord_config.toml"@,
        home matches Some(h) ==> r@[1]@ == h@ + "/.config/lord/config.toml"@,
{
    let mut r: Vec<String> = Vec::new();
    r.push(String::from_str("lord_config.toml"));
    match home {
        Some(h) => {
            r.push(String::from_str(h).concat("/.config/lord/config.toml"));
        },
        None => {},
    }
    r
}

/// The candidate directories of the built-in tomb search: two beside the
/// working directory, and two more under the home directory when it is
/// known.
pub fn tomb_search_paths(home: Option<&str>) -> (r: Vec<String>)
    ensures
        r@.len() == (if home is Some { 4int } else { 2int }),
        r@[0]@ == "tombs"@,
        r@[1]@ == "vaults"@,
        home matches Some(h) ==> r@[2]@ == h@ + "/tombs"@,
        home matches Some(h) ==> r@[3]@ == h@ + "/.local/share/tombs"@,
{
    let mut r: Vec<String> = Vec::new();
    r.push(String::from_str("tombs"));
    r.push(String::from_str("vaults"));
    match home {
        Some(h) => {
            r.push(String::from_str(h).concat("/tombs"));
            r.push(String::from_str(h).concat("/.local/share/tombs"));
        },
        None => {},
    }
    r
}

/// Where the file name of a path starts: just after its last separator.
pub open spec fn file_name_start(s: Seq<char>) -> int
    decreases s.len(),
{
    if s.len() == 0 {
        0
    } else if s[s.len() - 1] == '/' {
        s.len() as int
    } else {
        file_name_start(s.drop_last())
    }
}

/// Index of the last dot of a path, or -1 when it has none.
pub open spec fn last_dot(s: Seq<char>) -> int
    decreases s.len(),
{
    if s.len() == 0 {
        -1
    } else if s[s.len() - 1] == '.' {
        s.len() - 1
    } else {
        last_dot(s.drop_last())
    }
}

/// Whether the path's file name has the extension `tomb`: a dot after the
/// first character of the file name, followed exactly by `tomb`.
pub open spec fn has_tomb_ext_spec(s: Seq<char>) -> bool {
    let d = last_dot(s);
    d >= file_name_start(s) + 1 && s.subrange(d + 1, s.len() as int) == seq!['t', 'o', 'm', 'b']
}

fn find_file_name_start(s: &str) -> (r: usize)
    ensures
        r == file_name_start(s@),
{
    let n = s.unicode_len();
    proof {
        assert(s@.subrange(0, n as int) =~= s@);
    }
    let mut j: usize = n;
    while j > 0
        invariant
            0 <= j <= n,
            n == s@.len(),
            file_name_start(s@) == file_name_start(s@.subrange(0, j as int)),
        decreases j,
    {
        if s.get_char(j - 1) == '/' {
            proof {
                assert(s@.subrange(0, j as int)[j - 1] == '/');
            }
            return j;
        }
        proof {
            assert(s@.subrange(0, j as int).drop_last() =~= s@.subrange(0, j - 1));
        }
        j = j - 1;
    }
    proof {
        assert(s@.subrange(0, 0) =~= Seq::<char>::empty());
    }
    0
}

fn find_last_dot(s: &str) -> (r: Option<usize>)
    ensures
        r is None ==> last_dot(s@) == -1,
        r matches Some(d) ==> d == last_dot(s@) && d < s@.len(),
{
    let n = s.unicode_len();
    proof {
        assert(s@.subrange(0, n as int) =~= s@);
    }
    let mut j: usize = n;
    while j > 0
        invariant
            0 <= j <= n,
            n == s@.len(),
            last_dot(s@) == last_dot(s@.subrange(0, j as int)),
        decreases j,
    {
        if s.get_char(j - 1) == '.' {
            proof {
                assert(s@.subrange(0, j as int)[j - 1] == '.');
            }
            return Some(j - 1);
        }
        proof {
            assert(s@.subrange(0, j as int).drop_last() =~= s@.subrange(0, j - 1));
        }
        j = j - 1;
    }
    proof {
        assert(s@.subrange(0, 0) =~= Seq::<char>::empty());
    }
    None
}

/// Whether a path's file name carries the `tomb` extension.
pub fn has_tomb_ext(s: &str) -> (r: bool)
    ensures
        r == has_tomb_ext_spec(s@),
{
    let n = s.unicode_len();
    let f = find_file_name_start(s);
    let d = match find_last_dot(s) {
        Some(d) => d,
        None => {
            return false;
        },
    };
    if d <= f {
        return false;
    }
    if n - (d + 1) != 4 {
        proof {
            assert(s@.subrange(d + 1, n as int).len() != 4);
        }
        return false;
    }
    let r = s.get_char(d + 1) == 't' && s.get_char(d + 2) == 'o' && s.get_char(d + 3) == 'm'
        && s.get_char(d + 4) == 'b';
    proof {
        let ext = s@.subrange(d + 1, n as int);
        let tomb = seq!['t', 'o', 'm', 'b'];
        if r {
            assert(ext =~= tomb);
        } else {
            if ext == tomb {
                assert(ext[0] == 't' && ext[1] == 'o' && ext[2] == 'm' && ext[3] == 'b');
            }
        }
    }
    r
}

/// One directory entry handed to the built-in tomb search: the entry's
/// path and whether it is itself a directory.
pub struct TombEntry {
    pub path: String,
    pub is_dir: bool,
}

impl TombEntry {
    /// The built-in search reports an entry that is a directory or whose
    /// file name has the `tomb` extension.
    pub open spec fn is_tomb_match(self) -> bool {
        self.is_dir || has_tomb_ext_spec(self.path@)
    }
}

/// The paths among the first `n` entries that the built-in search
/// reports, in directory order.
pub open spec fn tomb_matches_upto(s: Seq<TombEntry>, n: int) -> Seq<String>
    decreases n,
{
    if n <= 0 {
        Seq::empty()
    } else {
        tomb_matches_upto(s, n - 1) + if s[n - 1].is_tomb_match() {
            seq![s[n - 1].path]
        } else {
            Seq::empty()
        }
    }
}

/// Filter one directory's entries down to the paths the built-in tomb
/// search reports: directories, and files with the `tomb` extension.
pub fn tomb_matches(entries: &Vec<TombEntry>) -> (r: Vec<String>)
    ensures
        r@ == tomb_matches_upto(entries@, entries@.len() as int),
{
    let mut r: Vec<String> = Vec::new();
    let mut i: usize = 0;
    while i < entries.len()
        invariant
            0 <= i <= entries.len(),
            r@ == tomb_matches_upto(entries@, i as int),
        decreases entries.len() - i,
    {
        if entries[i].is_dir || has_tomb_ext(entries[i].path.as_str()) {
            r.push(entries[i].path.clone());
            proof {
                assert(tomb_matches_upto(entries@, i as int).push(entries@[i as int].path)
                    =~= tomb_matches_upto(entries@, i + 1));
            }
        } else {
            proof {
                assert(tomb_matches_upto(entries@, i as int)
                    =~= tomb_matches_upto(entries@, i + 1));
            }
        }
        i = i + 1;
    }
    r
}

} // verus!
