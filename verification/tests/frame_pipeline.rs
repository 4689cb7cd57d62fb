use scene_sandbox::color::{ColorState, Rgb, UNIT};
use scene_sandbox::frame::{frame_tick, FrameInput};
use scene_sandbox::gizmo::{apply_drag, spin_shapes};
use scene_sandbox::panel::PanelInput;
use scene_sandbox::pick::{process_events, PickEvent, PickPipeline};
use scene_sandbox::selection::SelectionState;
use scene_sandbox::store::{initial_scene, ObjectId, ObjectKind, Store};
use scene_sandbox::transform::{DragDelta, Quat, Transform, Vec3};

fn idle_panel() -> PanelInput {
    PanelInput {
        randomize_clicked: false,
        confirm_clicked: false,
        r_edit: None,
        g_edit: None,
        b_edit: None,
    }
}

fn idle_input() -> FrameInput {
    FrameInput {
        hit: None,
        press: false,
        release: false,
        panel: idle_panel(),
        drag: DragDelta::zero(),
    }
}

#[test]
fn initial_scene_has_cube_light_camera() {
    let s = initial_scene();
    assert_eq!(s.objects.len(), 3);
    assert_eq!(s.objects[0].kind, ObjectKind::Shape);
    assert_eq!(s.objects[0].material, Some(Rgb { r: UNIT, g: UNIT, b: UNIT }));
    assert_eq!(s.objects[1].kind, ObjectKind::Light);
    assert_eq!(s.objects[1].material, None);
    assert_eq!(s.objects[2].kind, ObjectKind::Camera);
    assert_eq!(s.objects[2].material, None);
}

#[test]
fn initial_scene_placement_is_the_fixed_constant() {
    let s = initial_scene();
    let unit_scale = Vec3 { x: UNIT, y: UNIT, z: UNIT };
    assert_eq!(
        s.objects[0].transform,
        Transform {
            pos: Vec3 { x: 0, y: 2000, z: 5000 },
            rot: Quat { w: 924, x: -383, y: 0, z: 0 },
            scale: unit_scale,
        }
    );
    assert_eq!(
        s.objects[1].transform,
        Transform {
            pos: Vec3 { x: 8000, y: 16000, z: 8000 },
            rot: Quat { w: UNIT, x: 0, y: 0, z: 0 },
            scale: unit_scale,
        }
    );
    assert_eq!(
        s.objects[2].transform,
        Transform {
            pos: Vec3 { x: 0, y: 6000, z: 12000 },
            rot: Quat { w: UNIT, x: 0, y: 0, z: 0 },
            scale: unit_scale,
        }
    );
    // Two runs give the identical scene: placement consumes no input.
    let again = initial_scene();
    assert_eq!(s.objects, again.objects);
}

#[test]
fn hover_fires_once_per_entry() {
    let mut p = PickPipeline::default();
    let a = ObjectId { idx: 0 };
    let first = p.frame(Some(a), false, false);
    assert_eq!(first, vec![PickEvent::Hover(a)]);
    // The same object under the pointer next frame is not newly hovered.
    let second = p.frame(Some(a), false, false);
    assert_eq!(second, vec![]);
}

#[test]
fn press_emits_select_before_click() {
    let mut p = PickPipeline::default();
    let a = ObjectId { idx: 1 };
    let _ = p.frame(Some(a), false, false);
    let pressed = p.frame(Some(a), true, false);
    assert_eq!(pressed, vec![PickEvent::Select(a)]);
    let released = p.frame(Some(a), false, true);
    assert_eq!(released, vec![PickEvent::Click(a)]);
}

#[test]
fn press_and_release_in_one_frame_keeps_temporal_order() {
    let mut p = PickPipeline::default();
    let a = ObjectId { idx: 0 };
    let events = p.frame(Some(a), true, true);
    assert_eq!(
        events,
        vec![PickEvent::Hover(a), PickEvent::Select(a), PickEvent::Click(a)]
    );
}

#[test]
fn release_elsewhere_is_no_click() {
    let mut p = PickPipeline::default();
    let a = ObjectId { idx: 0 };
    let b = ObjectId { idx: 1 };
    let _ = p.frame(Some(a), true, false);
    let events = p.frame(Some(b), false, true);
    // The pointer moved to another object before the release: a new hover,
    // no completed click.
    assert_eq!(events, vec![PickEvent::Hover(b)]);
}

#[test]
fn click_event_selects_and_shows_panel() {
    let a = ObjectId { idx: 2 };
    let events = vec![PickEvent::Hover(a), PickEvent::Click(a)];
    let mut sel = SelectionState::default();
    process_events(&events, &mut sel);
    assert_eq!(sel.selected, Some(a));
    assert!(sel.panel_visible);
}

#[test]
fn hover_alone_changes_nothing() {
    let events = vec![PickEvent::Hover(ObjectId { idx: 2 })];
    let mut sel = SelectionState::default();
    process_events(&events, &mut sel);
    assert_eq!(sel.selected, None);
    assert!(!sel.panel_visible);
}

#[test]
fn zero_delta_drag_keeps_transform_bit_for_bit() {
    let mut store = initial_scene();
    let sel = SelectionState {
        selected: Some(ObjectId { idx: 0 }),
        panel_visible: true,
    };
    let before = store.get_transform(ObjectId { idx: 0 });
    apply_drag(&sel, &mut store, &DragDelta::zero());
    let after = store.get_transform(ObjectId { idx: 0 });
    assert_eq!(before, after);
}

#[test]
fn drag_translates_selected_object_only() {
    let mut store = initial_scene();
    let sel = SelectionState {
        selected: Some(ObjectId { idx: 0 }),
        panel_visible: true,
    };
    let light_before = store.get_transform(ObjectId { idx: 1 });
    let mut d = DragDelta::zero();
    d.translate = Vec3 { x: 100, y: -50, z: 0 };
    apply_drag(&sel, &mut store, &d);
    let cube = store.get_transform(ObjectId { idx: 0 });
    assert_eq!(cube.pos, Vec3 { x: 100, y: 1950, z: 5000 });
    assert_eq!(store.get_transform(ObjectId { idx: 1 }), light_before);
}

#[test]
fn drag_scales_multiplicatively() {
    let mut store = Store::new();
    let t = Transform {
        pos: Vec3 { x: 0, y: 0, z: 0 },
        rot: Quat { w: UNIT, x: 0, y: 0, z: 0 },
        scale: Vec3 { x: 2000, y: 2000, z: 2000 },
    };
    let id = store.spawn(ObjectKind::Shape, t, None);
    let sel = SelectionState { selected: Some(id), panel_visible: false };
    let mut d = DragDelta::zero();
    // Halve every axis: the factor 0.5 in fixed point.
    d.scale = Vec3 { x: 500, y: 500, z: 500 };
    apply_drag(&sel, &mut store, &d);
    assert_eq!(store.get_transform(id).scale, Vec3 { x: 1000, y: 1000, z: 1000 });
}

#[test]
fn no_selection_drops_the_drag() {
    let mut store = initial_scene();
    let before = store.objects.clone();
    let sel = SelectionState::default();
    let mut d = DragDelta::zero();
    d.translate = Vec3 { x: 100, y: 100, z: 100 };
    apply_drag(&sel, &mut store, &d);
    assert_eq!(store.objects, before);
}

#[test]
fn spin_turns_shapes_and_nothing_else() {
    let mut store = initial_scene();
    let light_before = store.get_transform(ObjectId { idx: 1 });
    let cam_before = store.get_transform(ObjectId { idx: 2 });
    let cube_before = store.get_transform(ObjectId { idx: 0 });
    // A quarter turn about y in fixed point: (cos 45, 0, sin 45, 0).
    let rot = Quat { w: 707, x: 0, y: 707, z: 0 };
    spin_shapes(&mut store, &rot);
    let cube = store.get_transform(ObjectId { idx: 0 });
    assert_eq!(cube.pos, cube_before.pos);
    assert_eq!(cube.scale, cube_before.scale);
    assert_ne!(cube.rot, cube_before.rot);
    assert_eq!(store.get_transform(ObjectId { idx: 1 }), light_before);
    assert_eq!(store.get_transform(ObjectId { idx: 2 }), cam_before);
}

#[test]
fn spin_by_identity_keeps_rotation() {
    let mut store = initial_scene();
    let cube_before = store.get_transform(ObjectId { idx: 0 });
    let rot = Quat { w: UNIT, x: 0, y: 0, z: 0 };
    spin_shapes(&mut store, &rot);
    assert_eq!(store.get_transform(ObjectId { idx: 0 }), cube_before);
}

#[test]
fn click_is_observable_in_the_same_frame() {
    // A press-release over the cube within frame N: the informational
    // panel is shown to the panel stage of frame N, never delayed.
    let mut pipe = PickPipeline::default();
    let mut sel = SelectionState::default();
    let mut color = ColorState::default();
    let mut store = initial_scene();
    let mut input = idle_input();
    input.hit = Some(ObjectId { idx: 0 });
    input.press = true;
    input.release = true;
    let (events, shown) = frame_tick(&mut pipe, &mut sel, &mut color, &mut store, &input);
    assert!(events.contains(&PickEvent::Click(ObjectId { idx: 0 })));
    assert!(shown);
    assert!(sel.panel_visible);
    assert_eq!(sel.selected, Some(ObjectId { idx: 0 }));
}

#[test]
fn color_edit_reaches_renderer_in_the_same_frame() {
    let mut pipe = PickPipeline::default();
    let mut sel = SelectionState::default();
    let mut color = ColorState::default();
    let mut store = initial_scene();
    let mut input = idle_input();
    input.panel.r_edit = Some(250);
    input.panel.g_edit = Some(600);
    let (_, _) = frame_tick(&mut pipe, &mut sel, &mut color, &mut store, &input);
    assert!(!color.dirty);
    assert_eq!(color.rgb, Rgb { r: 250, g: 600, b: UNIT });
    assert_eq!(store.objects[0].material, Some(Rgb { r: 250, g: 600, b: UNIT }));
}

#[test]
fn idle_frame_changes_nothing() {
    let mut pipe = PickPipeline::default();
    let mut sel = SelectionState::default();
    let mut color = ColorState::default();
    let mut store = initial_scene();
    let before = store.objects.clone();
    let (events, shown) = frame_tick(&mut pipe, &mut sel, &mut color, &mut store, &idle_input());
    assert_eq!(events, vec![]);
    assert!(!shown);
    assert_eq!(store.objects, before);
    assert_eq!(sel.selected, None);
}

#[test]
fn frame_applies_drag_to_the_selected_object() {
    let mut pipe = PickPipeline::default();
    let mut sel = SelectionState::default();
    let mut color = ColorState::default();
    let mut store = initial_scene();
    let mut click = idle_input();
    click.hit = Some(ObjectId { idx: 0 });
    click.press = true;
    click.release = true;
    frame_tick(&mut pipe, &mut sel, &mut color, &mut store, &click);
    let light_before = store.get_transform(ObjectId { idx: 1 });
    let mut dragging = idle_input();
    dragging.drag.translate = Vec3 { x: 0, y: 0, z: -2500 };
    frame_tick(&mut pipe, &mut sel, &mut color, &mut store, &dragging);
    let cube = store.get_transform(ObjectId { idx: 0 });
    assert_eq!(cube.pos, Vec3 { x: 0, y: 2000, z: 2500 });
    assert_eq!(store.get_transform(ObjectId { idx: 1 }), light_before);
}

#[test]
fn confirm_hides_the_panel_and_keeps_the_selection() {
    let mut pipe = PickPipeline::default();
    let mut sel = SelectionState::default();
    let mut color = ColorState::default();
    let mut store = initial_scene();
    let mut click = idle_input();
    click.hit = Some(ObjectId { idx: 0 });
    click.press = true;
    click.release = true;
    frame_tick(&mut pipe, &mut sel, &mut color, &mut store, &click);
    assert!(sel.panel_visible);
    let mut confirm = idle_input();
    confirm.panel.confirm_clicked = true;
    let (_, shown) = frame_tick(&mut pipe, &mut sel, &mut color, &mut store, &confirm);
    // The panel was shown this frame and is hidden for the next one; the
    // selection stays.
    assert!(shown);
    assert!(!sel.panel_visible);
    assert_eq!(sel.selected, Some(ObjectId { idx: 0 }));
}

#[test]
fn clicks_in_later_frames_retrigger_the_panel() {
    // Frame 1: click on the cube; frame 2: idle; frame 3: click on the
    // light. The selection moves, the panel stays visible throughout.
    let mut pipe = PickPipeline::default();
    let mut sel = SelectionState::default();
    let mut color = ColorState::default();
    let mut store = initial_scene();
    let mut click_cube = idle_input();
    click_cube.hit = Some(ObjectId { idx: 0 });
    click_cube.press = true;
    click_cube.release = true;
    frame_tick(&mut pipe, &mut sel, &mut color, &mut store, &click_cube);
    assert!(sel.panel_visible);
    frame_tick(&mut pipe, &mut sel, &mut color, &mut store, &idle_input());
    let mut click_light = idle_input();
    click_light.hit = Some(ObjectId { idx: 1 });
    click_light.press = true;
    click_light.release = true;
    frame_tick(&mut pipe, &mut sel, &mut color, &mut store, &click_light);
    assert_eq!(sel.selected, Some(ObjectId { idx: 1 }));
    assert!(sel.panel_visible);
}
