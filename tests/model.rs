use vr_tracking::model::{
    get_model_components, get_model_full, get_tracker_capabilities, get_tracker_models,
    load_model, model_layout, ComponentModelInfo, DeviceClass, ModelLayout, ModelLoadStatus, ModelLookup, ModelSource,
    PartLoad, TextureData, TextureLookup,
};

fn part(name: &str, v: u8) -> ComponentModelInfo<u8> {
    ComponentModelInfo {
        component_name: Some(name.to_string()),
        vertices: vec![v, v + 1],
        indices: vec![0, 1, 0],
        texture: None,
    }
}

fn texture() -> TextureData {
    TextureData { data: vec![255, 0, 0, 255], size: (1, 1) }
}

fn resident(texture: TextureLookup) -> ModelLookup<u8> {
    ModelLookup::Resident { vertices: vec![7, 8, 9], indices: vec![0, 1, 2], texture }
}

#[test]
fn pending_component_keeps_whole_model_pending() {
    let loads = vec![
        PartLoad::Ready(part("a", 1)),
        PartLoad::Ready(part("b", 3)),
        PartLoad::Pending,
    ];
    assert_eq!(get_model_components(loads), ModelLoadStatus::Pending);
}

#[test]
fn all_components_ready_are_published_in_order() {
    let loads = vec![
        PartLoad::Ready(part("body", 1)),
        PartLoad::Ready(part("trigger", 3)),
        PartLoad::Ready(part("grip", 5)),
    ];
    assert_eq!(
        get_model_components(loads),
        ModelLoadStatus::Available(vec![part("body", 1), part("trigger", 3), part("grip", 5)])
    );
}

#[test]
fn failed_component_makes_model_unavailable() {
    let loads = vec![PartLoad::Pending, PartLoad::Ready(part("a", 1)), PartLoad::Failed];
    assert_eq!(get_model_components(loads), ModelLoadStatus::Unavailable);
    let loads: Vec<PartLoad<u8>> = vec![PartLoad::Failed];
    assert_eq!(get_model_components(loads), ModelLoadStatus::Unavailable);
}

#[test]
fn whole_model_drops_its_name() {
    let status = get_model_full(PartLoad::Ready(part("vr_controller", 4)));
    let mut expected = part("vr_controller", 4);
    expected.component_name = None;
    assert_eq!(status, ModelLoadStatus::Available(vec![expected]));
    assert_eq!(get_model_full::<u8>(PartLoad::Pending), ModelLoadStatus::Pending);
    assert_eq!(get_model_full::<u8>(PartLoad::Failed), ModelLoadStatus::Unavailable);
}

#[test]
fn tracker_models_by_source() {
    assert_eq!(
        get_tracker_models::<u8>(ModelSource::NoRenderModel),
        ModelLoadStatus::Unavailable
    );
    let whole = get_tracker_models(ModelSource::Monolithic(PartLoad::Ready(part("hmd", 2))));
    let mut expected = part("hmd", 2);
    expected.component_name = None;
    assert_eq!(whole, ModelLoadStatus::Available(vec![expected]));
    let comps = get_tracker_models(ModelSource::Components(vec![
        PartLoad::Ready(part("a", 1)),
        PartLoad::Pending,
    ]));
    assert_eq!(comps, ModelLoadStatus::Pending);
}

#[test]
fn terminal_status_repeats_on_requery() {
    let query = || {
        get_tracker_models(ModelSource::Components(vec![
            PartLoad::Ready(part("a", 1)),
            PartLoad::Ready(part("b", 3)),
        ]))
    };
    let first = query();
    assert!(matches!(first, ModelLoadStatus::Available(_)));
    assert_eq!(query(), first);
    assert_eq!(get_tracker_models::<u8>(ModelSource::NoRenderModel), ModelLoadStatus::Unavailable);
    assert_eq!(get_tracker_models::<u8>(ModelSource::NoRenderModel), ModelLoadStatus::Unavailable);
}

#[test]
fn load_model_outcomes() {
    let name = || Some("body".to_string());
    assert_eq!(load_model::<u8>(name(), ModelLookup::Failed), PartLoad::Failed);
    assert_eq!(load_model::<u8>(name(), ModelLookup::NotResident), PartLoad::Pending);
    assert_eq!(load_model(name(), resident(TextureLookup::Loading)), PartLoad::Pending);
    let geometry_only = ComponentModelInfo {
        component_name: name(),
        vertices: vec![7, 8, 9],
        indices: vec![0, 1, 2],
        texture: None,
    };
    assert_eq!(
        load_model(name(), resident(TextureLookup::NoTexture)),
        PartLoad::Ready(geometry_only)
    );
    let geometry_only = ComponentModelInfo {
        component_name: name(),
        vertices: vec![7, 8, 9],
        indices: vec![0, 1, 2],
        texture: None,
    };
    assert_eq!(
        load_model(name(), resident(TextureLookup::Failed)),
        PartLoad::Ready(geometry_only)
    );
    assert_eq!(
        load_model(name(), resident(TextureLookup::Ready(texture()))),
        PartLoad::Ready(ComponentModelInfo {
            component_name: name(),
            vertices: vec![7, 8, 9],
            indices: vec![0, 1, 2],
            texture: Some(texture()),
        })
    );
}

#[test]
fn capabilities_count_parts_and_camera() {
    let c = get_tracker_capabilities(None, DeviceClass::Controller);
    assert_eq!(c.render_model_components, 0);
    assert!(!c.is_camera);
    let c = get_tracker_capabilities(Some(0), DeviceClass::Hmd);
    assert_eq!(c.render_model_components, 1);
    assert!(c.is_camera);
    let c = get_tracker_capabilities(Some(1), DeviceClass::GenericTracker);
    assert_eq!(c.render_model_components, 1);
    let c = get_tracker_capabilities(Some(5), DeviceClass::TrackingReference);
    assert_eq!(c.render_model_components, 5);
    assert!(!c.is_camera);
}

#[test]
fn layout_follows_declared_components() {
    assert_eq!(model_layout(None), ModelLayout::NoModel);
    assert_eq!(model_layout(Some(0)), ModelLayout::Whole);
    assert_eq!(model_layout(Some(1)), ModelLayout::Components(1));
    assert_eq!(model_layout(Some(3)), ModelLayout::Components(3));
}

#[test]
fn empty_component_list_is_unavailable() {
    let loads: Vec<PartLoad<u8>> = vec![];
    assert_eq!(get_model_components(loads), ModelLoadStatus::Unavailable);
    assert_eq!(
        get_tracker_models::<u8>(ModelSource::Components(vec![])),
        ModelLoadStatus::Unavailable
    );
}
