//! Source selection for one display.
//!
//! On every update tick a display with no assigned source picks one: a
//! configured source name wins over discovery order; without a matching
//! configuration entry the first discovered source is used; with nothing
//! discovered the display stays unassigned and retries next tick.

use vstd::prelude::*;

use crate::config::{entry_for_spec, Config, ScreenConfig};
use crate::source::NdiSource;

verus! {

/// The first source in discovery order whose name equals `want`, if any.
pub open spec fn first_source_named(sources: Seq<NdiSource>, want: Seq<char>) -> Option<NdiSource>
    decreases sources.len(),
{
    if sources.len() == 0 {
        None
    } else if sources.first().name@ == want {
        Some(sources.first())
    } else {
        first_source_named(sources.drop_first(), want)
    }
}

/// First-available fallback: the first discovered source, if any.
pub open spec fn fallback_selection(sources: Seq<NdiSource>) -> Option<NdiSource> {
    if sources.len() > 0 {
        Some(sources.first())
    } else {
        None
    }
}

/// The source a display named `monitor` selects, given the configuration and
/// the latest catalog:
/// 1. with a configuration entry for the monitor, the first source whose
///    name matches that entry exactly — or none, if no source matches;
/// 2. otherwise the first discovered source;
/// 3. with an empty catalog, none.
pub open spec fn selection_spec(
    config: Option<Config>,
    monitor: Seq<char>,
    sources: Seq<NdiSource>,
) -> Option<NdiSource> {
    match config {
        Some(c) => match entry_for_spec(c.screens@, monitor) {
            Some(entry) => first_source_named(sources, entry.source@),
            None => fallback_selection(sources),
        },
        None => fallback_selection(sources),
    }
}

/// What the name search finds: a source only when one bears the wanted
/// name — then the earliest such source in discovery order — and nothing
/// exactly when no discovered source bears it.
pub proof fn lemma_first_source_named_correct(sources: Seq<NdiSource>, want: Seq<char>)
    ensures
        match first_source_named(sources, want) {
            Some(s) => exists|i: int|
                {
                    &&& 0 <= i < sources.len()
                    &&& #[trigger] sources[i] == s
                    &&& s.name@ == want
                    &&& forall|j: int| 0 <= j < i ==> sources[j].name@ != want
                },
            None => forall|i: int| 0 <= i < sources.len() ==> sources[i].name@ != want,
        },
    decreases sources.len(),
{
    if sources.len() > 0 && sources.first().name@ != want {
        lemma_first_source_named_correct(sources.drop_first(), want);
        let sub = sources.drop_first();
        match first_source_named(sources, want) {
            Some(s) => {
                let i = choose|i: int|
                    {
                        &&& 0 <= i < sub.len()
                        &&& #[trigger] sub[i] == s
                        &&& s.name@ == want
                        &&& forall|j: int| 0 <= j < i ==> sub[j].name@ != want
                    };
                assert(sources[i + 1] == s);
                assert(forall|j: int| 0 < j < i + 1 ==> sources[j].name@ == sub[j - 1].name@);
            },
            None => {
                assert(forall|i: int|
                    0 < i < sources.len() ==> sources[i].name@ == sub[i - 1].name@);
            },
        }
    }
}

/// Configuration precedence: when the configuration names a source for the
/// display, discovery order never decides.  The display selects the first
/// discovered source bearing exactly the configured name; when no
/// discovered source bears it, the display selects nothing at all — it
/// stays unassigned until a later discovery tick includes that name.
pub proof fn lemma_config_overrides_discovery_order(
    config: Option<Config>,
    monitor: Seq<char>,
    sources: Seq<NdiSource>,
    entry: ScreenConfig,
)
    requires
        config matches Some(c) && entry_for_spec(c.screens@, monitor) == Some(entry),
    ensures
        match selection_spec(config, monitor, sources) {
            Some(s) => s.name@ == entry.source@,
            None => forall|i: int| 0 <= i < sources.len() ==> sources[i].name@ != entry.source@,
        },
{
    lemma_first_source_named_correct(sources, entry.source@);
}

/// Find the first source with the wanted name, cloning it out of the catalog.
fn find_source_named(sources: &Vec<NdiSource>, want: &String) -> (r: Option<NdiSource>)
    ensures
        r == first_source_named(sources@, want@),
{
    let n = sources.len();
    proof {
        assert(sources@.skip(0) =~= sources@);
    }
    for i in 0..n
        invariant
            n == sources@.len(),
            first_source_named(sources@, want@) == first_source_named(
                sources@.skip(i as int),
                want@,
            ),
    {
        proof {
            assert(sources@.skip(i as int).first() == sources@[i as int]);
            assert(sources@.skip(i as int).drop_first() =~= sources@.skip(i as int + 1));
        }
        if sources[i].name.eq(want) {
            return Some(sources[i].clone());
        }
    }
    None
}

/// Select the source for the display named `monitor`, exactly as
/// `selection_spec` says.
pub fn select_source(
    config: &Option<Config>,
    monitor: &String,
    sources: &Vec<NdiSource>,
) -> (r: Option<NdiSource>)
    ensures
        r == selection_spec(*config, monitor@, sources@),
{
    let entry = match config {
        Some(c) => c.entry_for(monitor),
        None => None,
    };
    match entry {
        Some(entry) => find_source_named(sources, &entry.source),
        None => {
            if sources.len() > 0 {
                Some(sources[0].clone())
            } else {
                None
            }
        },
    }
}

} // verus!
