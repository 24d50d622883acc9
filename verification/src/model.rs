//! Per-display state and the orchestrator that drives all displays.
//!
//! A [`Screen`] is one display's state: its monitor name, the last frame it
//! received, its assigned source and its renderer bookkeeping.  The
//! [`Model`] owns every screen, the static configuration and the latest
//! source catalog, and runs the per-tick update cycle.  The unverified shell
//! owns the windows, surfaces and channels: it feeds each tick the frame
//! taken from each display's slot and sends each returned reassignment
//! command to that display's receiver.

use vstd::prelude::*;

use crate::config::Config;
use crate::frame::Frame;
use crate::renderer::{prepare_spec, ImageRenderer, RenderPlan};
use crate::select::{select_source, selection_spec};
use crate::source::NdiSource;

verus! {

/// One display: its monitor's name, the consumer-side view of its frame
/// pipeline, and its render state.
#[derive(Debug)]
pub struct Screen {
    pub monitor: String,
    pub image: Option<Frame>,
    pub selected_source: Option<NdiSource>,
    pub image_renderer: ImageRenderer,
    pub ui_open: bool,
    pub fullscreen: bool,
}

/// What one screen's update tick decided: the source to send to its
/// receiver, if one was just assigned, and whether a redraw is due.
#[derive(Debug)]
pub struct ScreenUpdate {
    pub reassign: Option<NdiSource>,
    pub redraw: bool,
}

/// A screen after one update tick: a newly taken frame replaces the held
/// image, and an unassigned screen takes the selected source.  An assigned
/// source is sticky: it is never re-selected.
pub open spec fn updated_screen(
    s: Screen,
    config: Option<Config>,
    sources: Seq<NdiSource>,
    incoming: Option<Frame>,
) -> Screen {
    Screen {
        monitor: s.monitor,
        image: if incoming is Some {
            incoming
        } else {
            s.image
        },
        selected_source: if s.selected_source is Some {
            s.selected_source
        } else {
            selection_spec(config, s.monitor@, sources)
        },
        image_renderer: s.image_renderer,
        ui_open: s.ui_open,
        fullscreen: s.fullscreen,
    }
}

/// The reassignment command one screen's update tick sends to its receiver:
/// the freshly selected source when the screen was unassigned, nothing
/// otherwise.
pub open spec fn update_command(
    s: Screen,
    config: Option<Config>,
    sources: Seq<NdiSource>,
) -> Option<NdiSource> {
    if s.selected_source is Some {
        None
    } else {
        selection_spec(config, s.monitor@, sources)
    }
}

impl Screen {
    /// A fresh binding for one display, as built once at startup: no source
    /// assigned yet, a blank frame at the default size so something is
    /// shown until video arrives, and the renderer's texture sized to
    /// match.
    pub fn new(monitor: String) -> (s: Screen)
        ensures
            s.monitor == monitor,
            s.selected_source is None,
            s.image matches Some(f) && f.width == 1920 && f.height == 1080 && f.wf() && (
            forall|k: int| 0 <= k < f.data@.len() ==> f.data@[k] == 0),
            s.image_renderer.texture_width == 1920,
            s.image_renderer.texture_height == 1080,
            !s.ui_open,
            !s.fullscreen,
    {
        Screen {
            monitor,
            image: Some(crate::frame::blank_frame(1920, 1080)),
            selected_source: None,
            image_renderer: ImageRenderer::new(1920, 1080),
            ui_open: false,
            fullscreen: false,
        }
    }

    /// One update tick for this screen.
    ///
    /// If no source is assigned, one is selected from the configuration and
    /// the catalog; a successful selection is recorded — so it is not
    /// repeated next tick — and returned, to be sent to this display's
    /// receiver.  A frame taken from the display's slot, handed in as
    /// `incoming`, replaces the held image and asks for a redraw.
    pub fn update(
        &mut self,
        sources: &Vec<NdiSource>,
        config: &Option<Config>,
        incoming: Option<Frame>,
    ) -> (out: ScreenUpdate)
        ensures
            *final(self) == updated_screen(*old(self), *config, sources@, incoming),
            out.reassign == update_command(*old(self), *config, sources@),
            out.redraw == (incoming is Some),
    {
        let reassign = if self.selected_source.is_none() {
            match select_source(config, &self.monitor, sources) {
                Some(source) => {
                    self.selected_source = Some(source.clone());
                    Some(source)
                },
                None => None,
            }
        } else {
            None
        };
        let redraw = incoming.is_some();
        match incoming {
            Some(frame) => {
                self.image = Some(frame);
            },
            None => {},
        }
        ScreenUpdate { reassign, redraw }
    }

    /// Assign a source to this screen outright, as the settings overlay
    /// does when one is picked by hand: the handle is recorded, so the
    /// per-tick selection will not override it, and returned to be sent to
    /// this display's receiver.
    pub fn assign(&mut self, source: NdiSource) -> (cmd: NdiSource)
        ensures
            final(self).selected_source == Some(cmd),
            cmd == source,
            final(self).monitor == old(self).monitor,
            final(self).image == old(self).image,
            final(self).image_renderer == old(self).image_renderer,
            final(self).ui_open == old(self).ui_open,
            final(self).fullscreen == old(self).fullscreen,
    {
        self.selected_source = Some(source.clone());
        source
    }

    /// Draw this screen: when a frame is held, plan its rendering — the
    /// texture is re-created only on a resolution change — and make the
    /// window full-screen.  With no frame yet, nothing is drawn and the last
    /// rendered image stays on the display.
    pub fn draw(&mut self) -> (plan: Option<RenderPlan>)
        ensures
            (match old(self).image {
                Some(f) => {
                    &&& plan == Some(prepare_spec(old(self).image_renderer, f.width, f.height).0)
                    &&& final(self).image_renderer == prepare_spec(
                        old(self).image_renderer,
                        f.width,
                        f.height,
                    ).1
                },
                None => plan is None && final(self).image_renderer == old(self).image_renderer,
            }),
            final(self).fullscreen,
            final(self).monitor == old(self).monitor,
            final(self).image == old(self).image,
            final(self).selected_source == old(self).selected_source,
            final(self).ui_open == old(self).ui_open,
    {
        let plan = match &self.image {
            Some(frame) => Some(self.image_renderer.prepare(frame)),
            None => None,
        };
        self.fullscreen = true;
        plan
    }
}

/// The orchestrator: every screen, the configuration, and the latest
/// catalog.
#[derive(Debug)]
pub struct Model {
    pub config: Option<Config>,
    pub screens: Vec<Screen>,
    pub sources: Vec<NdiSource>,
}

impl Model {
    /// Replace the source catalog wholesale, as happens whenever a
    /// discovery tick's message arrives.  There is no incremental diffing.
    pub fn set_sources(&mut self, sources: Vec<NdiSource>)
        ensures
            final(self).sources == sources,
            final(self).config == old(self).config,
            final(self).screens == old(self).screens,
    {
        self.sources = sources;
    }

    /// One update tick over all screens, in order.  `incoming[i]` is the
    /// frame the shell took from screen `i`'s slot this tick, if any; the
    /// returned `cmds[i]` carries the reassignment command to send to
    /// screen `i`'s receiver, if any, and whether that screen should be
    /// redrawn.  No screen's failure to select affects another screen.
    pub fn update(&mut self, incoming: Vec<Option<Frame>>) -> (cmds: Vec<ScreenUpdate>)
        requires
            incoming@.len() == old(self).screens@.len(),
        ensures
            final(self).config == old(self).config,
            final(self).sources == old(self).sources,
            final(self).screens@.len() == old(self).screens@.len(),
            cmds@.len() == old(self).screens@.len(),
            forall|i: int|
                0 <= i < old(self).screens@.len() ==> {
                    &&& final(self).screens@[i] == updated_screen(
                        old(self).screens@[i],
                        old(self).config,
                        old(self).sources@,
                        incoming@[i],
                    )
                    &&& cmds@[i].reassign == update_command(
                        old(self).screens@[i],
                        old(self).config,
                        old(self).sources@,
                    )
                    &&& cmds@[i].redraw == (incoming@[i] is Some)
                },
    {
        let mut incoming = incoming;
        let ghost screens0 = self.screens@;
        let ghost incoming0 = incoming@;
        let n = self.screens.len();
        let mut cmds: Vec<ScreenUpdate> = Vec::new();
        proof {
            assert(incoming@ =~= incoming0.skip(0));
        }
        for i in 0..n
            invariant
                n == self.screens@.len(),
                n == screens0.len(),
                n == incoming0.len(),
                self.config == old(self).config,
                self.sources == old(self).sources,
                screens0 == old(self).screens@,
                incoming@ =~= incoming0.skip(i as int),
                cmds@.len() == i,
                forall|k: int|
                    #![all_triggers]
                    0 <= k < i ==> {
                        &&& self.screens@[k] == updated_screen(
                            screens0[k],
                            old(self).config,
                            old(self).sources@,
                            incoming0[k],
                        )
                        &&& cmds@[k].reassign == update_command(
                            screens0[k],
                            old(self).config,
                            old(self).sources@,
                        )
                        &&& cmds@[k].redraw == (incoming0[k] is Some)
                    },
                forall|k: int| #![all_triggers] i <= k < n ==> self.screens@[k] == screens0[k],
        {
            let inc = incoming.remove(0);
            proof {
                assert(inc == incoming0[i as int]);
                assert(incoming@ =~= incoming0.skip(i as int + 1));
                assert(self.screens@[i as int] == screens0[i as int]);
            }
            let out = self.screens[i].update(&self.sources, &self.config, inc);
            cmds.push(out);
            proof {
                assert(self.screens@[i as int] == updated_screen(
                    screens0[i as int],
                    old(self).config,
                    old(self).sources@,
                    incoming0[i as int],
                ));
                assert(cmds@[i as int].reassign == update_command(
                    screens0[i as int],
                    old(self).config,
                    old(self).sources@,
                ));
            }
        }
        cmds
    }
}

} // verus!
