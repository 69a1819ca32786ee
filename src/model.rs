use vstd::prelude::*;

verus! {

/// Raw texture bytes with the texture's width and height in pixels.
#[derive(Debug, PartialEq)]
pub struct TextureData {
    pub data: Vec<u8>,
    pub size: (u16, u16),
}

/// One renderable part of a device: its geometry and, where it has one, its
/// diffuse texture. `T` is the consumer's vertex type: the resolver carries
/// vertices along without reading them.
#[derive(Debug, PartialEq)]
pub struct ComponentModelInfo<T> {
    pub component_name: Option<String>,
    pub vertices: Vec<T>,
    pub indices: Vec<u16>,
    pub texture: Option<TextureData>,
}

/// Where loading a device's render model stands.
#[derive(Debug, PartialEq)]
pub enum ModelLoadStatus<T> {
    /// Some part is still loading: ask again on a later frame.
    Pending,
    /// The device has no model, or loading it failed for good.
    Unavailable,
    /// Every part is loaded, in component order.
    Available(Vec<ComponentModelInfo<T>>),
}

/// The abstract value of a [`ModelLoadStatus`].
pub enum ModelStatusView<T> {
    Pending,
    Unavailable,
    Available(Seq<ComponentModelInfo<T>>),
}

impl<T> View for ModelLoadStatus<T> {
    type V = ModelStatusView<T>;

    open spec fn view(&self) -> ModelStatusView<T> {
        match self {
            ModelLoadStatus::Pending => ModelStatusView::Pending,
            ModelLoadStatus::Unavailable => ModelStatusView::Unavailable,
            ModelLoadStatus::Available(parts) => ModelStatusView::Available(parts@),
        }
    }
}

/// What the runtime reports of a model's diffuse texture.
#[derive(Debug, PartialEq)]
pub enum TextureLookup {
    /// The model has no diffuse texture.
    NoTexture,
    /// The texture is still being loaded.
    Loading,
    /// Loading the texture failed.
    Failed,
    /// The texture is loaded.
    Ready(TextureData),
}

/// What the runtime reports when asked for a model's geometry by name.
#[derive(Debug, PartialEq)]
pub enum ModelLookup<T> {
    /// The request failed for good.
    Failed,
    /// The model is not loaded yet.
    NotResident,
    /// The model is loaded, with its vertices already in the consumer's format.
    Resident { vertices: Vec<T>, indices: Vec<u16>, texture: TextureLookup },
}

/// The outcome of loading one part of a model.
#[derive(Debug, PartialEq)]
pub enum PartLoad<T> {
    Failed,
    Pending,
    Ready(ComponentModelInfo<T>),
}

/// What the runtime reports of a device's render model, with the loads of
/// its parts.
#[derive(Debug, PartialEq)]
pub enum ModelSource<T> {
    /// The device exposes no render-model name.
    NoRenderModel,
    /// The model declares no components: the load of the model as a whole.
    Monolithic(PartLoad<T>),
    /// The loads of the declared components, in component order. Loading may
    /// stop after the first one that failed. An empty list gives no model.
    Components(Vec<PartLoad<T>>),
}

/// The part that a model lookup yields for a part called `name`: a failed
/// lookup fails, a model or texture still loading leaves the part pending, and
/// a missing or failed texture leaves the geometry alone.
pub open spec fn part_of_lookup<T>(name: Option<String>, lookup: ModelLookup<T>) -> PartLoad<T> {
    match lookup {
        ModelLookup::Failed => PartLoad::Failed,
        ModelLookup::NotResident => PartLoad::Pending,
        ModelLookup::Resident { vertices, indices, texture } => match texture {
            TextureLookup::Loading => PartLoad::Pending,
            TextureLookup::Ready(t) => PartLoad::Ready(
                ComponentModelInfo { component_name: name, vertices, indices, texture: Some(t) },
            ),
            _ => PartLoad::Ready(
                ComponentModelInfo { component_name: name, vertices, indices, texture: None },
            ),
        },
    }
}

/// A part with its component name cleared.
pub open spec fn without_name<T>(info: ComponentModelInfo<T>) -> ComponentModelInfo<T> {
    ComponentModelInfo {
        component_name: None,
        vertices: info.vertices,
        indices: info.indices,
        texture: info.texture,
    }
}

/// The status of a model loaded as a whole: a whole-device model is not a
/// component, so it carries no component name.
pub open spec fn whole_status<T>(load: PartLoad<T>) -> ModelStatusView<T> {
    match load {
        PartLoad::Failed => ModelStatusView::Unavailable,
        PartLoad::Pending => ModelStatusView::Pending,
        PartLoad::Ready(info) => ModelStatusView::Available(seq![without_name(info)]),
    }
}

/// Whether some part failed.
pub open spec fn any_failed<T>(loads: Seq<PartLoad<T>>) -> bool {
    exists|i: int| 0 <= i < loads.len() && loads[i] is Failed
}

/// Whether some part is still loading.
pub open spec fn any_pending<T>(loads: Seq<PartLoad<T>>) -> bool {
    exists|i: int| 0 <= i < loads.len() && loads[i] is Pending
}

/// The loaded parts, in order; meaningful when every part is ready.
pub open spec fn ready_parts<T>(loads: Seq<PartLoad<T>>) -> Seq<ComponentModelInfo<T>> {
    loads.map_values(|l: PartLoad<T>| l->Ready_0)
}

/// The status of a model made of components: unavailable if it has no
/// component or any part failed, else pending if any part is still loading,
/// else every part in order.
pub open spec fn components_status<T>(loads: Seq<PartLoad<T>>) -> ModelStatusView<T> {
    if loads.len() == 0 || any_failed(loads) {
        ModelStatusView::Unavailable
    } else if any_pending(loads) {
        ModelStatusView::Pending
    } else {
        ModelStatusView::Available(ready_parts(loads))
    }
}

/// The status of a device's render model.
pub open spec fn model_status<T>(source: ModelSource<T>) -> ModelStatusView<T> {
    match source {
        ModelSource::NoRenderModel => ModelStatusView::Unavailable,
        ModelSource::Monolithic(load) => whole_status(load),
        ModelSource::Components(loads) => components_status(loads@),
    }
}

/// How a device's render model is to be loaded.
#[derive(Clone, Copy, Debug, PartialEq, Eq, Structural)]
pub enum ModelLayout {
    /// The device exposes no render-model name: there is nothing to load.
    NoModel,
    /// The model declares no components: load it as a whole.
    Whole,
    /// Load each of that many named components.
    Components(u32),
}

/// The layout of a device's render model, from the component count that it
/// declares (`None` when the device exposes no render-model name).
pub open spec fn layout_of(declared_components: Option<u32>) -> ModelLayout {
    match declared_components {
        None => ModelLayout::NoModel,
        Some(n) => if n == 0 {
            ModelLayout::Whole
        } else {
            ModelLayout::Components(n)
        },
    }
}

/// Decides how a device's render model is loaded.
pub fn model_layout(declared_components: Option<u32>) -> (r: ModelLayout)
    ensures
        r == layout_of(declared_components),
{
    match declared_components {
        None => ModelLayout::NoModel,
        Some(0) => ModelLayout::Whole,
        Some(n) => ModelLayout::Components(n),
    }
}

/// Builds the part called `name` from what the runtime reported of its model.
pub fn load_model<T>(name: Option<String>, lookup: ModelLookup<T>) -> (r: PartLoad<T>)
    ensures
        r == part_of_lookup(name, lookup),
{
    match lookup {
        ModelLookup::Failed => PartLoad::Failed,
        ModelLookup::NotResident => PartLoad::Pending,
        ModelLookup::Resident { vertices, indices, texture } => match texture {
            TextureLookup::Loading => PartLoad::Pending,
            TextureLookup::Ready(t) => PartLoad::Ready(
                ComponentModelInfo { component_name: name, vertices, indices, texture: Some(t) },
            ),
            TextureLookup::NoTexture => PartLoad::Ready(
                ComponentModelInfo { component_name: name, vertices, indices, texture: None },
            ),
            TextureLookup::Failed => PartLoad::Ready(
                ComponentModelInfo { component_name: name, vertices, indices, texture: None },
            ),
        },
    }
}

/// The status of a model that declares no components, from the load of the
/// model as a whole.
pub fn get_model_full<T>(load: PartLoad<T>) -> (r: ModelLoadStatus<T>)
    ensures
        r@ == whole_status(load),
{
    match load {
        PartLoad::Failed => ModelLoadStatus::Unavailable,
        PartLoad::Pending => ModelLoadStatus::Pending,
        PartLoad::Ready(info) => {
            let ghost whole = info;
            let mut info = info;
            info.component_name = None;
            let mut parts: Vec<ComponentModelInfo<T>> = Vec::new();
            parts.push(info);
            assert(parts@ =~= seq![without_name(whole)]);
            ModelLoadStatus::Available(parts)
        },
    }
}

/// The status of a model made of components, from the loads of its
/// components in order. No partial list is ever published: one part still
/// loading leaves the whole model pending, and one failed part makes it
/// unavailable, as does an empty list: a model without components is loaded
/// as a whole, never as a list of components.
pub fn get_model_components<T>(loads: Vec<PartLoad<T>>) -> (r: ModelLoadStatus<T>)
    ensures
        r@ == components_status(loads@),
{
    if loads.len() == 0 {
        return ModelLoadStatus::Unavailable;
    }
    let ghost all = loads@;
    let total: usize = loads.len();
    let mut rest = loads;
    let mut parts: Vec<ComponentModelInfo<T>> = Vec::new();
    let mut pending = false;
    let mut k: usize = 0;
    while rest.len() > 0
        invariant
            all == loads@,
            all.len() == total,
            k <= total,
            rest@ == all.skip(k as int),
            !any_failed(all.take(k as int)),
            pending == any_pending(all.take(k as int)),
            !pending ==> parts@ == ready_parts(all.take(k as int)),
        decreases rest.len(),
    {
        let ghost before = all.take(k as int);
        assert(k < total);
        let load = rest.remove(0);
        assert(load == all[k as int]);
        let ghost after = all.take(k + 1);
        assert(after =~= before.push(load));
        let ghost this = load;
        match load {
            PartLoad::Failed => {
                assert(all[k as int] is Failed);
                assert(any_failed(all));
                return ModelLoadStatus::Unavailable;
            },
            PartLoad::Pending => {
                pending = true;
            },
            PartLoad::Ready(info) => {
                if !pending {
                    parts.push(info);
                }
            },
        }
        proof {
            assert forall|i: int| 0 <= i < k implies before[i] == after[i] by {}
            assert forall|i: int| 0 <= i < after.len() && after[i] is Failed implies false by {
                if i < k {
                    assert(before[i] == after[i]);
                }
            }
            if this is Pending {
                assert(after[k as int] is Pending);
            }
            if any_pending(before) {
                let w = choose|w: int| 0 <= w < before.len() && before[w] is Pending;
                assert(after[w] is Pending);
            }
            if !pending {
                assert forall|i: int| 0 <= i < after.len() && after[i] is Pending implies false by {
                    if i < k {
                        assert(before[i] == after[i]);
                    }
                }
                assert(parts@ =~= ready_parts(after));
            }
        }
        k += 1;
    }
    assert(all.take(k as int) =~= all);
    if pending {
        ModelLoadStatus::Pending
    } else {
        ModelLoadStatus::Available(parts)
    }
}

/// The status of a device's render model: unavailable without a render-model
/// name, else that of the whole model or of its components.
pub fn get_tracker_models<T>(source: ModelSource<T>) -> (r: ModelLoadStatus<T>)
    ensures
        r@ == model_status(source),
{
    match source {
        ModelSource::NoRenderModel => ModelLoadStatus::Unavailable,
        ModelSource::Monolithic(load) => get_model_full(load),
        ModelSource::Components(loads) => get_model_components(loads),
    }
}

/// How a part may stand on a later query when no loaded asset is evicted: a
/// loaded part stays loaded with the same data, a failed one stays failed, and
/// a pending one may have become anything.
pub open spec fn part_settled<T>(earlier: PartLoad<T>, later: PartLoad<T>) -> bool {
    match earlier {
        PartLoad::Failed => later is Failed,
        PartLoad::Pending => true,
        PartLoad::Ready(info) => later == PartLoad::Ready(info),
    }
}

/// How a device's model may stand on a later query for the same device
/// configuration when no loaded asset is evicted.
pub open spec fn source_settled<T>(earlier: ModelSource<T>, later: ModelSource<T>) -> bool {
    match earlier {
        ModelSource::NoRenderModel => later is NoRenderModel,
        ModelSource::Monolithic(a) => later matches ModelSource::Monolithic(b) && part_settled(
            a,
            b,
        ),
        ModelSource::Components(a) => later matches ModelSource::Components(b) && a@.len()
            == b@.len() && forall|i: int|
            0 <= i < a@.len() ==> part_settled(#[trigger] a@[i], b@[i]),
    }
}

/// Once a device's model is available or unavailable, every later query for
/// the same device configuration, with no loaded asset evicted, gives the same
/// status.
pub proof fn lemma_terminal_status_is_stable<T>(earlier: ModelSource<T>, later: ModelSource<T>)
    requires
        source_settled(earlier, later),
        !(model_status(earlier) is Pending),
    ensures
        model_status(later) == model_status(earlier),
{
    if let ModelSource::Components(a) = earlier {
        let b = later->Components_0;
        if any_failed(a@) {
            let w = choose|w: int| 0 <= w < a@.len() && a@[w] is Failed;
            assert(part_settled(a@[w], b@[w]));
            assert(b@[w] is Failed);
        } else {
            assert forall|i: int| 0 <= i < a@.len() implies a@[i] is Ready by {
                if !(a@[i] is Ready) {
                    assert(a@[i] is Pending);
                }
            }
            assert forall|i: int| 0 <= i < a@.len() implies b@[i] == a@[i] by {
                assert(part_settled(a@[i], b@[i]));
            }
            assert(b@ =~= a@);
        }
    }
}

/// The class of a tracked device.
#[derive(Clone, Copy, Debug, PartialEq, Eq, Structural)]
pub enum DeviceClass {
    Invalid,
    Hmd,
    Controller,
    GenericTracker,
    TrackingReference,
    DisplayRedirect,
}

/// What a tracked device offers: the number of parts of its render model
/// (none, one whole model, or that many named components) and whether it is
/// the head-mounted display that carries the camera.
#[derive(Clone, Copy, Debug, PartialEq, Eq, Structural)]
pub struct TrackerCapabilities {
    pub render_model_components: u32,
    pub is_camera: bool,
}

/// The number of render-model parts reported for a device: none without a
/// render-model name, else its declared components, and at least one.
pub open spec fn model_part_count(declared_components: Option<u32>) -> u32 {
    match declared_components {
        None => 0,
        Some(n) => if n == 0 {
            1
        } else {
            n
        },
    }
}

/// The capabilities of a device, from the component count that its render
/// model declares (`None` when it exposes no render-model name) and its class.
pub fn get_tracker_capabilities(declared_components: Option<u32>, class: DeviceClass) -> (r:
    TrackerCapabilities)
    ensures
        r.render_model_components == model_part_count(declared_components),
        r.is_camera == (class == DeviceClass::Hmd),
{
    let render_model_components = match declared_components {
        None => 0,
        Some(n) => if n > 1 {
            n
        } else {
            1
        },
    };
    TrackerCapabilities { render_model_components, is_camera: class == DeviceClass::Hmd }
}

} // verus!
