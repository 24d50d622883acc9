use ndi_client::config::{Config, ScreenConfig};
use ndi_client::frame::{Frame, PixelLayout};
use ndi_client::model::{Model, Screen};
use ndi_client::renderer::ImageRenderer;
use ndi_client::source::NdiSource;

fn source(name: &str, id: u64) -> NdiSource {
    NdiSource { name: name.to_owned(), id }
}

fn screen(monitor: &str) -> Screen {
    Screen {
        monitor: monitor.to_owned(),
        image: None,
        selected_source: None,
        image_renderer: ImageRenderer::new(1920, 1080),
        ui_open: false,
        fullscreen: false,
    }
}

fn frame(byte: u8) -> Frame {
    Frame { data: vec![byte; 4], width: 1, height: 1, layout: PixelLayout::Rgba8 }
}

#[test]
fn unassigned_screen_selects_and_reports_once() {
    let mut model = Model {
        config: None,
        screens: vec![screen("DP-1")],
        sources: vec![source("CAM2", 0), source("CAM1", 1)],
    };
    let cmds = model.update(vec![None]);
    assert_eq!(cmds.len(), 1);
    assert_eq!(cmds[0].reassign.as_ref().unwrap().name, "CAM2");
    assert_eq!(model.screens[0].selected_source.as_ref().unwrap().name, "CAM2");

    // The source is sticky: the next tick selects nothing anew.
    let cmds = model.update(vec![None]);
    assert!(cmds[0].reassign.is_none());
    assert_eq!(model.screens[0].selected_source.as_ref().unwrap().name, "CAM2");
}

#[test]
fn config_entry_drives_selection_per_screen() {
    let config = Some(Config {
        screens: vec![ScreenConfig { monitor: "DP-1".to_owned(), source: "CAM1".to_owned() }],
    });
    let mut model = Model {
        config,
        screens: vec![screen("DP-1"), screen("DP-2")],
        sources: vec![source("CAM2", 0), source("CAM1", 1)],
    };
    let cmds = model.update(vec![None, None]);
    // DP-1 follows its configuration entry, DP-2 falls back to discovery order.
    assert_eq!(cmds[0].reassign.as_ref().unwrap().name, "CAM1");
    assert_eq!(cmds[1].reassign.as_ref().unwrap().name, "CAM2");
}

#[test]
fn unsatisfiable_config_leaves_screen_unassigned_until_source_appears() {
    let config = Some(Config {
        screens: vec![ScreenConfig { monitor: "DP-1".to_owned(), source: "CAM9".to_owned() }],
    });
    let mut model = Model {
        config,
        screens: vec![screen("DP-1")],
        sources: vec![source("CAM1", 0), source("CAM2", 1)],
    };
    let cmds = model.update(vec![None]);
    assert!(cmds[0].reassign.is_none());
    assert!(model.screens[0].selected_source.is_none());

    // A later discovery tick includes the wanted source.
    model.set_sources(vec![source("CAM1", 0), source("CAM9", 2)]);
    let cmds = model.update(vec![None]);
    assert_eq!(cmds[0].reassign.as_ref().unwrap().name, "CAM9");
    assert_eq!(model.screens[0].selected_source.as_ref().unwrap().id, 2);
}

#[test]
fn incoming_frame_replaces_image_and_asks_for_redraw() {
    let mut s = screen("DP-1");
    let out = s.update(&Vec::new(), &None, Some(frame(5)));
    assert!(out.redraw);
    assert_eq!(s.image.as_ref().unwrap().data, vec![5; 4]);

    // No new frame: the held image stays and no redraw is requested.
    let out = s.update(&Vec::new(), &None, None);
    assert!(!out.redraw);
    assert_eq!(s.image.as_ref().unwrap().data, vec![5; 4]);
}

#[test]
fn draw_plans_render_of_held_frame_and_goes_fullscreen() {
    let mut s = screen("DP-1");
    s.update(&Vec::new(), &None, Some(frame(8)));
    let plan = s.draw().unwrap();
    assert!(plan.realloc); // 1x1 frame against the 1920x1080 starting texture
    assert_eq!((plan.width, plan.height), (1, 1));
    assert!(s.fullscreen);

    let second = s.draw().unwrap();
    assert!(!second.realloc);
}

#[test]
fn draw_without_frame_draws_nothing() {
    let mut s = screen("DP-1");
    assert!(s.draw().is_none());
    assert!(s.fullscreen);
}

#[test]
fn explicit_assignment_is_recorded_and_sticky() {
    let mut s = screen("DP-1");
    let cmd = s.assign(source("CAM7", 9));
    assert_eq!(cmd.id, 9);
    assert_eq!(s.selected_source.as_ref().unwrap().id, 9);

    // The per-tick selection leaves a hand-picked source alone.
    let out = s.update(&vec![source("CAM1", 0)], &None, None);
    assert!(out.reassign.is_none());
    assert_eq!(s.selected_source.as_ref().unwrap().id, 9);
}

#[test]
fn fresh_screen_shows_blank_default_size_frame() {
    let s = Screen::new("DP-1".to_owned());
    assert_eq!(s.monitor, "DP-1");
    assert!(s.selected_source.is_none());
    let image = s.image.as_ref().unwrap();
    assert_eq!((image.width, image.height), (1920, 1080));
    assert_eq!(image.data.len(), 1920 * 1080 * 4);
    assert!(image.data.iter().all(|&b| b == 0));
    assert_eq!(
        (s.image_renderer.texture_width, s.image_renderer.texture_height),
        (1920, 1080)
    );
    assert!(!s.ui_open);
    assert!(!s.fullscreen);
}

#[test]
fn set_sources_replaces_catalog_wholesale() {
    let mut model = Model { config: None, screens: Vec::new(), sources: vec![source("CAM1", 0)] };
    model.set_sources(vec![source("CAM5", 4), source("CAM6", 5)]);
    assert_eq!(model.sources.len(), 2);
    assert_eq!(model.sources[0].name, "CAM5");
}
