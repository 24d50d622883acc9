//! Static configuration: an optional mapping from display name to desired
//! source name, loaded once at startup and read-only thereafter.

use vstd::prelude::*;

verus! {

/// One configured display: which monitor it names and which source it wants.
#[derive(Debug)]
pub struct ScreenConfig {
    pub monitor: String,
    pub source: String,
}

/// The whole static configuration: one entry per configured display.
/// Reading and parsing the configuration file is the unverified shell's
/// business; the shell hands the parsed value in.
#[derive(Debug)]
pub struct Config {
    pub screens: Vec<ScreenConfig>,
}

/// The first configuration entry whose monitor name equals `monitor`,
/// if any.
pub open spec fn entry_for_spec(screens: Seq<ScreenConfig>, monitor: Seq<char>) -> Option<
    ScreenConfig,
>
    decreases screens.len(),
{
    if screens.len() == 0 {
        None
    } else if screens.first().monitor@ == monitor {
        Some(screens.first())
    } else {
        entry_for_spec(screens.drop_first(), monitor)
    }
}

/// `entry_for_spec` finds an entry exactly when some entry carries the
/// monitor name.
pub proof fn lemma_entry_for_spec_some(screens: Seq<ScreenConfig>, monitor: Seq<char>)
    ensures
        (entry_for_spec(screens, monitor) is Some) <==> (exists|i: int|
            0 <= i < screens.len() && screens[i].monitor@ == monitor),
    decreases screens.len(),
{
    if screens.len() > 0 {
        lemma_entry_for_spec_some(screens.drop_first(), monitor);
        if screens.first().monitor@ == monitor {
            assert(screens[0].monitor@ == monitor);
        } else if exists|i: int| 0 <= i < screens.len() && screens[i].monitor@ == monitor {
            let i = choose|i: int| 0 <= i < screens.len() && screens[i].monitor@ == monitor;
            assert(screens.drop_first()[i - 1].monitor@ == monitor);
        }
    }
}

impl Config {
    /// The first entry for the given monitor name, if the configuration has
    /// one.
    pub fn entry_for(&self, monitor: &String) -> (r: Option<&ScreenConfig>)
        ensures
            match r {
                Some(entry) => entry_for_spec(self.screens@, monitor@) == Some(*entry),
                None => entry_for_spec(self.screens@, monitor@) is None,
            },
    {
        let n = self.screens.len();
        proof {
            assert(self.screens@.skip(0) =~= self.screens@);
        }
        for i in 0..n
            invariant
                n == self.screens@.len(),
                entry_for_spec(self.screens@, monitor@) == entry_for_spec(
                    self.screens@.skip(i as int),
                    monitor@,
                ),
        {
            proof {
                assert(self.screens@.skip(i as int).first() == self.screens@[i as int]);
                assert(self.screens@.skip(i as int).drop_first() =~= self.screens@.skip(
                    i as int + 1,
                ));
            }
            if self.screens[i].monitor.eq(monitor) {
                return Some(&self.screens[i]);
            }
        }
        None
    }
}

/// Whether a monitor should get a window at all: with no configuration every
/// monitor is used; with one, only the monitors it names.
pub open spec fn monitor_enabled_spec(config: Option<Config>, monitor: Seq<char>) -> bool {
    match config {
        None => true,
        Some(c) => exists|i: int| 0 <= i < c.screens@.len() && c.screens@[i].monitor@ == monitor,
    }
}

/// Decide whether to create a window for the monitor with the given name.
pub fn monitor_enabled(config: &Option<Config>, monitor: &String) -> (r: bool)
    ensures
        r == monitor_enabled_spec(*config, monitor@),
{
    match config {
        None => true,
        Some(c) => {
            proof {
                lemma_entry_for_spec_some(c.screens@, monitor@);
            }
            c.entry_for(monitor).is_some()
        },
    }
}

} // verus!
