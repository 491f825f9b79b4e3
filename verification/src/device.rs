//! Choosing the device, and what the runtime on it consists of.

use crate::resources::{push_each, push_live, HandleKind, Teardown};
#[allow(unused_imports)]
use crate::resources::{each, live};
use vstd::prelude::*;

verus! {

/// Queue capability: graphics.
pub const QUEUE_GRAPHICS: u32 = 1;

/// A queue family of a device.
#[derive(Clone, Copy, Debug, PartialEq, Eq, Structural)]
pub struct QueueFamily {
    pub queue_count: u32,
    pub flags: u32,
}

/// The DRM node that a device renders through.
#[derive(Clone, Copy, Debug, PartialEq, Eq, Structural)]
pub struct DrmNode {
    pub has_render: bool,
    pub render_major: i64,
    pub render_minor: i64,
}

/// A device that can draw and present.
#[derive(Clone, Copy, Debug, PartialEq, Eq, Structural)]
pub struct DeviceCandidate {
    pub drm_match: bool,
    pub graphics_queue_family: u32,
    pub present_queue_family: u32,
}

/// What is asked next about presenting from a queue family.
#[derive(Clone, Copy, Debug, PartialEq, Eq, Structural)]
pub enum ProbeStep {
    AskCompositor,
    AskSurface { index: usize },
    Unsupported,
    Supported,
}

/// The device that was chosen.
#[derive(Clone, Copy, Debug, PartialEq, Eq, Structural)]
pub struct SelectedDevice {
    pub index: usize,
    pub graphics_queue_family: u32,
    pub present_queue_family: u32,
}

/// What the runtime asks of the instance.
#[derive(Clone, Copy, Debug, PartialEq, Eq, Structural)]
pub struct InstanceOptions {
    pub validation_layer: bool,
    pub debug_messenger: bool,
}

/// Whether every extension that is needed is there.
pub open spec fn all_available(available: Seq<Vec<u8>>, needed: Seq<Vec<u8>>) -> bool {
    forall|index: int| #![trigger needed[index]]
        0 <= index < needed.len() ==> is_available(available, needed[index]@)
}

/// Whether an extension is there.
pub open spec fn is_available(available: Seq<Vec<u8>>, name: Seq<u8>) -> bool {
    exists|index: int| 0 <= index < available.len() && #[trigger] available[index]@ == name
}

/// Whether a queue family can draw.
pub open spec fn draws(family: QueueFamily) -> bool {
    family.queue_count > 0 && family.flags & QUEUE_GRAPHICS == QUEUE_GRAPHICS
}

/// The indices of the queue families that can draw.
pub open spec fn drawing_families(families: Seq<QueueFamily>) -> Seq<u32>
    decreases families.len(),
{
    if families.len() == 0 {
        seq![]
    } else if draws(families.last()) {
        drawing_families(families.drop_last()).push((families.len() - 1) as u32)
    } else {
        drawing_families(families.drop_last())
    }
}

/// How a device is ranked: first the one that the compositor uses, then one that
/// draws and presents from one queue family.
pub open spec fn rank(candidate: DeviceCandidate) -> int {
    (if candidate.drm_match {
        0int
    } else {
        2
    }) + (if candidate.graphics_queue_family == candidate.present_queue_family {
        0int
    } else {
        1
    })
}

/// Whether two byte strings are the same.
fn same_bytes(left: &Vec<u8>, right: &Vec<u8>) -> (same: bool)
    ensures
        same == (left@ == right@),
{
    if left.len() != right.len() {
        return false;
    }
    for index in 0..left.len()
        invariant
            left@.len() == right@.len(),
            forall|at: int| 0 <= at < index ==> left@[at] == right@[at],
    {
        if left[index] != right[index] {
            return false;
        }
    }
    assert(left@ =~= right@);
    true
}

/// Whether every extension that is needed is there.
pub fn has_extensions(available: &Vec<Vec<u8>>, needed: &Vec<Vec<u8>>) -> (all: bool)
    ensures
        all == all_available(available@, needed@),
{
    for index in 0..needed.len()
        invariant
            forall|at: int| #![trigger needed@[at]]
                0 <= at < index ==> is_available(available@, needed@[at]@),
    {
        let mut found: bool = false;
        let name = &needed[index];
        for candidate in 0..available.len()
            invariant
                found == exists|at: int| 0 <= at < candidate && #[trigger] available@[at]@
                    == name@,
        {
            if same_bytes(&available[candidate], name) {
                found = true;
            }
        }
        if !found {
            assert(!is_available(available@, needed@[index as int]@));
            return false;
        }
    }
    true
}

/// The indices of the queue families that can draw.
pub fn graphics_families(families: &[QueueFamily]) -> (indices: Vec<u32>)
    requires
        families@.len() <= u32::MAX,
    ensures
        indices@ == drawing_families(families@),
{
    let mut indices: Vec<u32> = Vec::new();
    assert(families@.take(0) =~= Seq::<QueueFamily>::empty());
    for index in 0..families.len()
        invariant
            families@.len() <= u32::MAX,
            indices@ == drawing_families(families@.take(index as int)),
    {
        let family: QueueFamily = families[index];
        assert(families@.take(index + 1).drop_last() =~= families@.take(index as int));
        if family.queue_count > 0 && family.flags & QUEUE_GRAPHICS == QUEUE_GRAPHICS {
            indices.push(index as u32);
        }
    }
    assert(families@.take(families@.len() as int) =~= families@);
    indices
}

/// Whether a queue family can present to every surface: one that has queues, that
/// the compositor takes (`compositor`, once asked) and that every surface takes.
/// `surfaces` holds the replies so far; the first refusal settles it.
pub fn probe_presentation(
    family: QueueFamily,
    compositor: Option<bool>,
    surfaces: &[bool],
    surface_count: usize,
) -> (step: ProbeStep)
    requires
        surfaces@.len() <= surface_count,
    ensures
        step == (if family.queue_count == 0 || compositor == Some(false) {
            ProbeStep::Unsupported
        } else if compositor is None {
            ProbeStep::AskCompositor
        } else if surfaces@.contains(false) {
            ProbeStep::Unsupported
        } else if surfaces@.len() < surface_count {
            ProbeStep::AskSurface { index: surfaces@.len() as usize }
        } else {
            ProbeStep::Supported
        }),
{
    if family.queue_count == 0 {
        return ProbeStep::Unsupported;
    }
    match compositor {
        None => ProbeStep::AskCompositor,
        Some(takes) => {
            if !takes {
                return ProbeStep::Unsupported;
            }
            for index in 0..surfaces.len()
                invariant
                    family.queue_count != 0,
                    compositor == Some(true),
                    forall|at: int| 0 <= at < index ==> surfaces@[at],
            {
                if !surfaces[index] {
                    assert(surfaces@[index as int] == false);
                    return ProbeStep::Unsupported;
                }
            }
            if surfaces.len() < surface_count {
                ProbeStep::AskSurface { index: surfaces.len() }
            } else {
                ProbeStep::Supported
            }
        },
    }
}

/// The queue families to draw and to present from: the first drawing family that
/// can also present, else the first of each. Without a family of either kind there
/// is no choice.
pub fn choose_queue_families(graphics: &[u32], present: &[u32]) -> (chosen: Option<(u32, u32)>)
    ensures
        chosen is Some <==> graphics@.len() > 0 && present@.len() > 0,
        chosen matches Some((drawing, presenting)) ==> {
            ||| drawing == presenting && exists|index: int|
                0 <= index < graphics@.len() && drawing == #[trigger] graphics@[index]
                    && present@.contains(drawing) && forall|earlier: int|
                    0 <= earlier < index ==> !present@.contains(#[trigger] graphics@[earlier])
            ||| drawing == graphics@[0] && presenting == present@[0] && forall|index: int|
                0 <= index < graphics@.len() ==> !present@.contains(#[trigger] graphics@[index])
        },
{
    if present.len() == 0 {
        return None;
    }
    let fallback_present: u32 = present[0];
    for index in 0..graphics.len()
        invariant
            present@.len() > 0,
            forall|earlier: int|
                0 <= earlier < index ==> !present@.contains(#[trigger] graphics@[earlier]),
    {
        let family: u32 = graphics[index];
        for at in 0..present.len()
            invariant
                0 <= index < graphics@.len(),
                family == graphics@[index as int],
                present@.len() > 0,
                forall|earlier: int|
                    0 <= earlier < index ==> !present@.contains(#[trigger] graphics@[earlier]),
                forall|earlier: int| 0 <= earlier < at ==> present@[earlier] != family,
        {
            if present[at] == family {
                assert(present@.contains(family));
                assert(graphics@[index as int] == family);
                return Some((family, family));
            }
        }
        assert(!present@.contains(family));
    }
    if graphics.len() == 0 {
        return None;
    }
    Some((graphics[0], fallback_present))
}

/// Whether a device renders through the node that the compositor names; all zero
/// names none.
pub fn drm_matches(compositor_drm: (u32, u32), node: &DrmNode) -> (matches: bool)
    ensures
        matches == (!(compositor_drm.0 == 0 && compositor_drm.1 == 0) && node.has_render
            && node.render_major == compositor_drm.0 && node.render_minor == compositor_drm.1),
{
    !(compositor_drm.0 == 0 && compositor_drm.1 == 0) && node.has_render && node.render_major
        == compositor_drm.0 as i64 && node.render_minor == compositor_drm.1 as i64
}

/// The key that devices are sorted by: false sorts first.
pub fn device_candidate_sort_key(drm_match: bool, unified_queue: bool) -> (key: (bool, bool))
    ensures
        key == (!drm_match, !unified_queue),
{
    (!drm_match, !unified_queue)
}

/// Whether a device is worth considering: what it draws and presents from, and
/// whether it is the one that the compositor uses.
pub fn assess_device(
    graphics: &[u32],
    present: &[u32],
    compositor_drm: (u32, u32),
    node: &DrmNode,
) -> (candidate: Option<DeviceCandidate>)
    ensures
        candidate is Some <==> graphics@.len() > 0 && present@.len() > 0,
        candidate matches Some(found) ==> {
            &&& found.drm_match == (!(compositor_drm.0 == 0 && compositor_drm.1 == 0)
                && node.has_render && node.render_major == compositor_drm.0 && node.render_minor
                == compositor_drm.1)
            &&& {
                ||| found.graphics_queue_family == found.present_queue_family && exists|index: int|
                    0 <= index < graphics@.len() && found.graphics_queue_family
                        == #[trigger] graphics@[index] && present@.contains(
                        found.graphics_queue_family,
                    ) && forall|earlier: int|
                        0 <= earlier < index ==> !present@.contains(#[trigger] graphics@[earlier])
                ||| found.graphics_queue_family == graphics@[0] && found.present_queue_family
                    == present@[0] && forall|index: int|
                    0 <= index < graphics@.len() ==> !present@.contains(
                        #[trigger] graphics@[index],
                    )
            }
        },
{
    match choose_queue_families(graphics, present) {
        Some((graphics_queue_family, present_queue_family)) => Some(
            DeviceCandidate {
                drm_match: drm_matches(compositor_drm, node),
                graphics_queue_family,
                present_queue_family,
            },
        ),
        None => None,
    }
}

fn key_before(left: (bool, bool), right: (bool, bool)) -> (before: bool)
    ensures
        before == ((!left.0 && right.0) || (left.0 == right.0 && !left.1 && right.1)),
{
    if left.0 != right.0 {
        !left.0
    } else {
        !left.1 && right.1
    }
}

/// The best device: of those ranked best, the first. An entry without a candidate
/// stands for a device that is not considered.
pub fn select_physical_device(candidates: &[Option<DeviceCandidate>]) -> (selected: Option<
    SelectedDevice,
>)
    ensures
        match selected {
            None => forall|index: int|
                0 <= index < candidates@.len() ==> #[trigger] candidates@[index] is None,
            Some(device) => {
                &&& device.index < candidates@.len()
                &&& candidates@[device.index as int] matches Some(best)
                &&& device.graphics_queue_family == best.graphics_queue_family
                &&& device.present_queue_family == best.present_queue_family
                &&& forall|index: int|
                    0 <= index < candidates@.len() && #[trigger] candidates@[index] is Some
                        ==> rank(best) <= rank(candidates@[index]->0)
                &&& forall|index: int|
                    0 <= index < device.index && #[trigger] candidates@[index] is Some ==> rank(
                        best,
                    ) < rank(candidates@[index]->0)
            },
        },
{
    let mut best: Option<usize> = None;
    for index in 0..candidates.len()
        invariant
            best is None ==> forall|at: int|
                0 <= at < index ==> #[trigger] candidates@[at] is None,
            best matches Some(chosen) ==> {
                &&& chosen < index
                &&& candidates@[chosen as int] matches Some(device)
                &&& forall|at: int|
                    0 <= at < index && #[trigger] candidates@[at] is Some ==> rank(device) <= rank(
                        candidates@[at]->0,
                    )
                &&& forall|at: int|
                    0 <= at < chosen && #[trigger] candidates@[at] is Some ==> rank(device) < rank(
                        candidates@[at]->0,
                    )
            },
    {
        if let Some(candidate) = candidates[index] {
            let key = device_candidate_sort_key(
                candidate.drm_match,
                candidate.graphics_queue_family == candidate.present_queue_family,
            );
            let better: bool = match best {
                None => true,
                Some(chosen) => match candidates[chosen] {
                    Some(other) => key_before(
                        key,
                        device_candidate_sort_key(
                            other.drm_match,
                            other.graphics_queue_family == other.present_queue_family,
                        ),
                    ),
                    None => true,
                },
            };
            if better {
                best = Some(index);
            }
        }
    }
    match best {
        None => None,
        Some(index) => match candidates[index] {
            Some(candidate) => Some(
                SelectedDevice {
                    index,
                    graphics_queue_family: candidate.graphics_queue_family,
                    present_queue_family: candidate.present_queue_family,
                },
            ),
            None => None,
        },
    }
}

/// The device that the compositor uses is chosen over all others, whatever queue
/// families it offers.
pub proof fn compositor_device_comes_first(used: DeviceCandidate, other: DeviceCandidate)
    requires
        used.drm_match,
        !other.drm_match,
    ensures
        rank(used) < rank(other),
{
}

/// What the runtime asks of the instance: messages only where both the layer that
/// sends them and the extension that carries them are there, and neither but in a
/// debug build.
pub fn instance_options(debug_build: bool, layer: bool, extension: bool) -> (options:
    InstanceOptions)
    ensures
        options.validation_layer == (debug_build && layer),
        options.debug_messenger == (debug_build && layer && extension),
{
    let validation_layer: bool = debug_build && layer;
    let debug_utils: bool = debug_build && extension;
    InstanceOptions { validation_layer, debug_messenger: validation_layer && debug_utils }
}

/// The queue families that the device is created with: each once.
pub fn queue_families(graphics_family: u32, present_family: u32) -> (families: Vec<u32>)
    ensures
        families@ == (if graphics_family == present_family {
            seq![graphics_family]
        } else {
            seq![graphics_family, present_family]
        }),
{
    let mut families: Vec<u32> = Vec::new();
    families.push(graphics_family);
    if present_family != graphics_family {
        families.push(present_family);
    }
    families
}

/// Why a runtime is not even started.
#[derive(Clone, Copy, Debug, PartialEq, Eq, Structural)]
pub enum RuntimeError {
    /// There is no surface to present to.
    NoSurfaces,
}

/// How far a runtime has been built.
#[derive(Clone, Copy, Debug, PartialEq, Eq, Structural)]
pub enum RuntimeStage {
    Instance,
    Surfaces,
    Selection,
    Device,
    Complete,
}

/// What building a runtime needs next.
#[derive(Debug)]
pub enum RuntimeRequest {
    CreateInstance,
    /// Create a graphics surface for the output.
    CreateSurface { output: u32 },
    SelectDevice,
    /// Create the device with one queue of each family.
    CreateDevice { index: usize, families: Vec<u32> },
    /// Everything is there.
    Complete,
}

/// A runtime in the making.
#[derive(Debug)]
pub struct RuntimeBuild {
    pub stage: RuntimeStage,
    pub outputs: Vec<u32>,
    pub instance: u64,
    /// The graphics surfaces, in the order of the outputs.
    pub surfaces: Vec<u64>,
    pub selected: Option<SelectedDevice>,
    pub device: u64,
}

impl RuntimeBuild {
    /// As many surfaces exist as the stage says.
    pub open spec fn wf(self) -> bool {
        match self.stage {
            RuntimeStage::Instance => self.surfaces@.len() == 0 && self.outputs@.len() > 0,
            RuntimeStage::Surfaces => self.surfaces@.len() < self.outputs@.len(),
            RuntimeStage::Selection => self.surfaces@.len() == self.outputs@.len(),
            RuntimeStage::Device | RuntimeStage::Complete => self.surfaces@.len()
                == self.outputs@.len() && self.selected is Some,
        }
    }

    /// Starts a runtime that presents to the surfaces of these outputs.
    pub fn begin(outputs: Vec<u32>) -> (result: Result<RuntimeBuild, RuntimeError>)
        ensures
            result is Err <==> outputs@.len() == 0,
            result is Err ==> result->Err_0 == RuntimeError::NoSurfaces,
            result is Ok ==> {
                let build = result->Ok_0;
                &&& build.wf()
                &&& build.stage is Instance
                &&& build.outputs == outputs
                &&& build.instance == 0
                &&& build.surfaces@.len() == 0
                &&& build.selected is None
                &&& build.device == 0
            },
    {
        if outputs.len() == 0 {
            return Err(RuntimeError::NoSurfaces);
        }
        Ok(
            RuntimeBuild {
                stage: RuntimeStage::Instance,
                outputs,
                instance: 0,
                surfaces: Vec::new(),
                selected: None,
                device: 0,
            },
        )
    }

    /// What is needed next.
    pub fn request(&self) -> (request: RuntimeRequest)
        requires
            self.wf(),
        ensures
            match self.stage {
                RuntimeStage::Instance => request is CreateInstance,
                RuntimeStage::Surfaces => request == (RuntimeRequest::CreateSurface {
                    output: self.outputs@[self.surfaces@.len() as int],
                }),
                RuntimeStage::Selection => request is SelectDevice,
                RuntimeStage::Device => {
                    let device = self.selected->0;
                    &&& request is CreateDevice
                    &&& request->index == device.index
                    &&& request->families@ == (if device.graphics_queue_family
                        == device.present_queue_family {
                        seq![device.graphics_queue_family]
                    } else {
                        seq![device.graphics_queue_family, device.present_queue_family]
                    })
                },
                RuntimeStage::Complete => request is Complete,
            },
    {
        match self.stage {
            RuntimeStage::Instance => RuntimeRequest::CreateInstance,
            RuntimeStage::Surfaces => RuntimeRequest::CreateSurface {
                output: self.outputs[self.surfaces.len()],
            },
            RuntimeStage::Selection => RuntimeRequest::SelectDevice,
            RuntimeStage::Device => {
                let device: SelectedDevice = self.selected.unwrap();
                RuntimeRequest::CreateDevice {
                    index: device.index,
                    families: queue_families(
                        device.graphics_queue_family,
                        device.present_queue_family,
                    ),
                }
            },
            RuntimeStage::Complete => RuntimeRequest::Complete,
        }
    }

    /// Records the instance, the next surface or the device that was created.
    pub fn created(&mut self, handle: u64)
        requires
            old(self).wf(),
            old(self).stage is Instance || old(self).stage is Surfaces || old(self).stage is Device,
        ensures
            final(self).wf(),
            final(self).surfaces@ == (if old(self).stage is Surfaces {
                old(self).surfaces@.push(handle)
            } else {
                old(self).surfaces@
            }),
            *final(self) == (RuntimeBuild {
                stage: match old(self).stage {
                    RuntimeStage::Instance => RuntimeStage::Surfaces,
                    RuntimeStage::Surfaces => if old(self).surfaces@.len() + 1 < old(
                        self,
                    ).outputs@.len() {
                        RuntimeStage::Surfaces
                    } else {
                        RuntimeStage::Selection
                    },
                    _ => RuntimeStage::Complete,
                },
                instance: if old(self).stage is Instance {
                    handle
                } else {
                    old(self).instance
                },
                surfaces: final(self).surfaces,
                device: if old(self).stage is Device {
                    handle
                } else {
                    old(self).device
                },
                ..*old(self)
            }),
    {
        match self.stage {
            RuntimeStage::Instance => {
                self.instance = handle;
                self.stage = RuntimeStage::Surfaces;
            },
            RuntimeStage::Surfaces => {
                self.surfaces.push(handle);
                if self.surfaces.len() >= self.outputs.len() {
                    self.stage = RuntimeStage::Selection;
                }
            },
            _ => {
                self.device = handle;
                self.stage = RuntimeStage::Complete;
            },
        }
    }

    /// Records the device that was chosen.
    pub fn device_selected(&mut self, device: SelectedDevice)
        requires
            old(self).wf(),
            old(self).stage is Selection,
        ensures
            final(self).wf(),
            *final(self) == (RuntimeBuild {
                stage: RuntimeStage::Device,
                selected: Some(device),
                ..*old(self)
            }),
    {
        self.selected = Some(device);
        self.stage = RuntimeStage::Device;
    }

    /// What is taken down where the next step fails: the surfaces in the order of
    /// their creation, and the instance.
    pub fn rollback(&self) -> (steps: Vec<Teardown>)
        ensures
            steps@ == each(HandleKind::Surface, self.surfaces@) + live(
                HandleKind::Instance,
                self.instance,
            ),
    {
        let mut steps: Vec<Teardown> = Vec::new();
        push_each(&mut steps, HandleKind::Surface, &self.surfaces);
        push_live(&mut steps, HandleKind::Instance, self.instance);
        assert(steps@ =~= each(HandleKind::Surface, self.surfaces@) + live(
            HandleKind::Instance,
            self.instance,
        ));
        steps
    }
}

/// What is taken down when the runtime goes, in order. The device must be idle by
/// then.
pub fn runtime_teardown(device: u64, messenger: Option<u64>, instance: u64) -> (steps: Vec<
    Teardown,
>)
    ensures
        steps@ == seq![Teardown { kind: HandleKind::Device, handle: device }] + (match messenger {
            Some(handle) => seq![Teardown { kind: HandleKind::DebugMessenger, handle }],
            None => seq![],
        }) + seq![Teardown { kind: HandleKind::Instance, handle: instance }],
{
    let mut steps: Vec<Teardown> = Vec::new();
    steps.push(Teardown { kind: HandleKind::Device, handle: device });
    if let Some(handle) = messenger {
        steps.push(Teardown { kind: HandleKind::DebugMessenger, handle });
    }
    steps.push(Teardown { kind: HandleKind::Instance, handle: instance });
    steps
}

/// The device of the compositor is chosen where there is one; of those that match alike,
/// one that draws and presents from a single queue family; of those that are alike in
/// both, the first. A device that can draw and present is chosen wherever there is one,
/// with its own queue families.
pub proof fn best_device_is_chosen(
    candidates: &[Option<DeviceCandidate>],
    selected: Option<SelectedDevice>,
    index: int,
)
    requires
        call_ensures(select_physical_device, (candidates,), selected),
        0 <= index < candidates@.len(),
        candidates@[index] is Some,
    ensures
        selected is Some,
        ({
            let device = selected->0;
            let other = candidates@[index]->0;
            let best = candidates@[device.index as int]->0;
            let unified = best.graphics_queue_family == best.present_queue_family;
            let other_unified = other.graphics_queue_family == other.present_queue_family;
            &&& device.index < candidates@.len()
            &&& candidates@[device.index as int] is Some
            &&& device.graphics_queue_family == best.graphics_queue_family
            &&& device.present_queue_family == best.present_queue_family
            &&& other.drm_match ==> best.drm_match
            &&& other.drm_match == best.drm_match && other_unified ==> unified
            &&& other.drm_match == best.drm_match && other_unified == unified ==> device.index
                <= index
        }),
{
}

/// A device is of the compositor exactly where it renders through the node that the
/// compositor names, and a compositor that names none has none.
pub proof fn compositor_device_is_recognized(
    compositor_drm: (u32, u32),
    node: DrmNode,
    matched: bool,
)
    requires
        call_ensures(drm_matches, (compositor_drm, &node), matched),
    ensures
        compositor_drm == (0u32, 0u32) ==> !matched,
        !node.has_render ==> !matched,
        matched ==> node.render_major == compositor_drm.0 && node.render_minor == compositor_drm.1,
        node.has_render && compositor_drm != (0u32, 0u32) && node.render_major == compositor_drm.0
            && node.render_minor == compositor_drm.1 ==> matched,
{
}

/// A device is sorted before another one that does not match the compositor, and before
/// one that matches alike and needs two queue families.
pub proof fn sort_key_puts_the_better_first(
    drm_match: bool,
    unified_queue: bool,
    key: (bool, bool),
    other_match: bool,
    other_unified: bool,
    other: (bool, bool),
)
    requires
        call_ensures(device_candidate_sort_key, (drm_match, unified_queue), key),
        call_ensures(device_candidate_sort_key, (other_match, other_unified), other),
    ensures
        drm_match && !other_match ==> !key.0 && other.0,
        drm_match == other_match ==> key.0 == other.0,
        drm_match == other_match && unified_queue && !other_unified ==> !key.1 && other.1,
        unified_queue == other_unified ==> key.1 == other.1,
{
}

/// What is drawn and presented from is among the families that can: one family for both
/// where one can do both.
pub proof fn queue_families_can_do_their_work(
    graphics: &[u32],
    present: &[u32],
    chosen: Option<(u32, u32)>,
    both: u32,
)
    requires
        call_ensures(choose_queue_families, (graphics, present), chosen),
    ensures
        chosen is None <==> graphics@.len() == 0 || present@.len() == 0,
        chosen matches Some((drawing, presenting)) ==> {
            &&& graphics@.contains(drawing)
            &&& present@.contains(presenting)
            &&& graphics@.contains(both) && present@.contains(both) ==> drawing == presenting
        },
{
    if let Some((drawing, presenting)) = chosen {
        assert(graphics@.len() > 0 && present@.len() > 0);
        assert(graphics@.contains(graphics@[0]));
        assert(present@.contains(present@[0]));
        if graphics@.contains(both) && present@.contains(both) {
            let index = graphics@.index_of(both);
            assert(present@.contains(graphics@[index]));
        }
    }
}

/// The families that can draw are those with queues for graphics, in order and each
/// once.
pub proof fn drawing_families_are_listed(
    families: &[QueueFamily],
    indices: Vec<u32>,
    family: u32,
)
    requires
        call_ensures(graphics_families, (families,), indices),
        families@.len() <= u32::MAX,
    ensures
        indices@.contains(family) <==> family < families@.len() && families@[family as int].queue_count
            > 0 && families@[family as int].flags & 1 == 1,
        forall|left: int, right: int|
            0 <= left < right < indices@.len() ==> #[trigger] indices@[left]
                < #[trigger] indices@[right],
{
    listed_families_can_draw(families@, family);
}

proof fn listed_families_can_draw(families: Seq<QueueFamily>, family: u32)
    requires
        families.len() <= u32::MAX,
    ensures
        ({
            let listed = drawing_families(families);
            &&& listed.contains(family) <==> family < families.len()
                && families[family as int].queue_count > 0 && families[family as int].flags & 1 == 1
            &&& forall|at: int| 0 <= at < listed.len() ==> #[trigger] listed[at] < families.len()
            &&& forall|left: int, right: int|
                0 <= left < right < listed.len() ==> #[trigger] listed[left]
                    < #[trigger] listed[right]
        }),
    decreases families.len(),
{
    if families.len() > 0 {
        let shorter = families.drop_last();
        listed_families_can_draw(shorter, family);
        let earlier = drawing_families(shorter);
        let listed = drawing_families(families);
        let last = (families.len() - 1) as u32;
        if draws(families.last()) {
            assert(listed == earlier.push(last));
            assert(listed[listed.len() - 1] == last);
            vstd::seq_lib::lemma_seq_contains_after_push(earlier, last, family);
        }
        if family < last {
            assert(shorter[family as int] == families[family as int]);
        }
    }
}

/// A family presents only where it has queues, the compositor takes it and every surface
/// does; every surface is asked until one refuses.
pub proof fn every_surface_is_asked(
    family: QueueFamily,
    compositor: Option<bool>,
    surfaces: &[bool],
    surface_count: usize,
    step: ProbeStep,
)
    requires
        call_ensures(probe_presentation, (family, compositor, surfaces, surface_count), step),
        surfaces@.len() <= surface_count,
    ensures
        step is Supported ==> family.queue_count > 0 && compositor == Some(true) && surfaces@.len()
            == surface_count && forall|at: int| 0 <= at < surfaces@.len() ==> #[trigger] surfaces@[at],
        family.queue_count > 0 && compositor == Some(true) && surfaces@.len() == surface_count && (
        forall|at: int| 0 <= at < surfaces@.len() ==> #[trigger] surfaces@[at]) ==> step
            is Supported,
        step matches ProbeStep::AskSurface { index } ==> index == surfaces@.len() && index
            < surface_count,
        step is AskCompositor ==> compositor is None && family.queue_count > 0,
        family.queue_count == 0 ==> step is Unsupported,
        compositor == Some(false) ==> step is Unsupported,
{
    if let Some(takes) = compositor {
        assert(takes || compositor == Some(false));
    }
    if !surfaces@.contains(false) {
        assert forall|at: int| 0 <= at < surfaces@.len() implies #[trigger] surfaces@[at] by {
            assert(surfaces@.contains(surfaces@[at]));
        }
    } else {
        let at = surfaces@.index_of(false);
        assert(!surfaces@[at]);
    }
}

/// A device is considered exactly where it can draw and present.
pub proof fn considered_devices_draw_and_present(
    graphics: &[u32],
    present: &[u32],
    compositor_drm: (u32, u32),
    node: DrmNode,
    candidate: Option<DeviceCandidate>,
    matched: bool,
)
    requires
        call_ensures(assess_device, (graphics, present, compositor_drm, &node), candidate),
        call_ensures(drm_matches, (compositor_drm, &node), matched),
    ensures
        candidate is Some <==> graphics@.len() > 0 && present@.len() > 0,
        candidate matches Some(found) ==> {
            &&& found.drm_match == matched
            &&& graphics@.contains(found.graphics_queue_family)
            &&& present@.contains(found.present_queue_family)
        },
{
    if graphics@.len() > 0 && present@.len() > 0 {
        assert(graphics@.contains(graphics@[0]));
        assert(present@.contains(present@[0]));
    }
}

/// An extension that is missing is noticed, and one that is there is found.
pub proof fn missing_extensions_are_noticed(
    available: Vec<Vec<u8>>,
    needed: Vec<Vec<u8>>,
    all: bool,
    index: int,
)
    requires
        call_ensures(has_extensions, (&available, &needed), all),
        0 <= index < needed@.len(),
    ensures
        all ==> exists|at: int|
            0 <= at < available@.len() && (#[trigger] available@[at])@ == needed@[index]@,
        (forall|at: int|
            0 <= at < available@.len() ==> (#[trigger] available@[at])@ != needed@[index]@)
            ==> !all,
        (forall|want: int|
            0 <= want < needed@.len() ==> exists|at: int|
                0 <= at < available@.len() && (#[trigger] available@[at])@ == (
                #[trigger] needed@[want])@) ==> all,
{
    if all {
        assert(is_available(available@, needed@[index]@));
    }
    if forall|want: int|
        0 <= want < needed@.len() ==> exists|at: int|
            0 <= at < available@.len() && (#[trigger] available@[at])@ == (#[trigger] needed@[want])@ {
        assert forall|want: int|
            #![trigger needed@[want]]
            0 <= want < needed@.len() implies is_available(available@, needed@[want]@) by {}
    }
}

/// The device is created with every queue family that is used, each once.
pub proof fn device_has_the_families_in_use(
    graphics_family: u32,
    present_family: u32,
    families: Vec<u32>,
)
    requires
        call_ensures(queue_families, (graphics_family, present_family), families),
    ensures
        families@.contains(graphics_family),
        families@.contains(present_family),
        families@.no_duplicates(),
        families@.len() <= 2,
        graphics_family == present_family ==> families@.len() == 1,
{
    assert(families@[0] == graphics_family);
    if graphics_family != present_family {
        assert(families@[1] == present_family);
    }
}

/// Messages are asked for only in a debug build, and only where both the layer that
/// sends them and the extension that carries them are there.
pub proof fn messages_need_layer_and_extension(
    debug_build: bool,
    layer: bool,
    extension: bool,
    options: InstanceOptions,
)
    requires
        call_ensures(instance_options, (debug_build, layer, extension), options),
    ensures
        options.validation_layer <==> debug_build && layer,
        options.debug_messenger <==> debug_build && layer && extension,
{
}

/// A runtime is made of an instance, a surface for every output, in order, a device that
/// was chosen and nothing else; what was created so far goes where a step fails, the
/// surfaces before the instance.
pub proof fn runtime_is_made_of_what_was_requested(
    build: &mut RuntimeBuild,
    request: RuntimeRequest,
    handle: u64,
    steps: Vec<Teardown>,
    index: int,
)
    requires
        old(build).wf(),
        old(build).stage is Instance || old(build).stage is Surfaces || old(build).stage is Device,
        call_ensures(RuntimeBuild::request, (&*old(build),), request),
        call_ensures(RuntimeBuild::created, (build, handle), ()),
        call_ensures(RuntimeBuild::rollback, (&*final(build),), steps),
        handle != 0,
    ensures
        match request {
            RuntimeRequest::CreateInstance => final(build).instance == handle && final(build).stage
                is Surfaces,
            RuntimeRequest::CreateSurface { output } => {
                &&& output == old(build).outputs@[old(build).surfaces@.len() as int]
                &&& final(build).surfaces@ == old(build).surfaces@.push(handle)
                &&& final(build).stage is Selection <==> final(build).surfaces@.len()
                    == old(build).outputs@.len()
            },
            RuntimeRequest::CreateDevice { index: chosen, families } => {
                &&& old(build).selected matches Some(device) && device.index == chosen
                    && families@.contains(device.graphics_queue_family) && families@.contains(
                    device.present_queue_family,
                )
                &&& final(build).device == handle
                &&& final(build).stage is Complete
            },
            _ => false,
        },
        0 <= index < final(build).surfaces@.len() ==> steps@.contains(
            Teardown { kind: HandleKind::Surface, handle: final(build).surfaces@[index] },
        ),
        final(build).instance != 0 ==> steps@.len() > 0 && steps@.last() == (Teardown {
            kind: HandleKind::Instance,
            handle: final(build).instance,
        }),
        steps@.len() <= final(build).surfaces@.len() + 1,
{
    let surfaces = each(HandleKind::Surface, final(build).surfaces@);
    if 0 <= index < final(build).surfaces@.len() {
        assert(surfaces[index] == steps@[index]);
    }
    if let RuntimeRequest::CreateDevice { index: chosen, families } = request {
        let device = old(build).selected->0;
        assert(families@[0] == device.graphics_queue_family);
        if device.graphics_queue_family != device.present_queue_family {
            assert(families@[1] == device.present_queue_family);
        }
    }
}

/// A runtime needs an output to present to, and its device goes before the instance that
/// it was made from.
pub proof fn runtime_goes_in_order(
    outputs: Vec<u32>,
    begun: Result<RuntimeBuild, RuntimeError>,
    device: u64,
    messenger: Option<u64>,
    instance: u64,
    steps: Vec<Teardown>,
)
    requires
        call_ensures(RuntimeBuild::begin, (outputs,), begun),
        call_ensures(runtime_teardown, (device, messenger, instance), steps),
    ensures
        begun is Err <==> outputs@.len() == 0,
        begun matches Ok(build) ==> build.outputs@ == outputs@ && build.surfaces@.len() == 0
            && build.stage is Instance && build.instance == 0 && build.device == 0
            && build.selected is None,
        steps@[0] == (Teardown { kind: HandleKind::Device, handle: device }),
        steps@.last() == (Teardown { kind: HandleKind::Instance, handle: instance }),
        messenger matches Some(handle) ==> steps@.len() == 3 && steps@[1] == (Teardown {
            kind: HandleKind::DebugMessenger,
            handle,
        }),
        messenger is None ==> steps@.len() == 2,
{
}

/// The device that was chosen is the one that is created next, with its own families.
pub proof fn chosen_device_is_created(
    build: &mut RuntimeBuild,
    device: SelectedDevice,
    request: RuntimeRequest,
)
    requires
        old(build).wf(),
        old(build).stage is Selection,
        call_ensures(RuntimeBuild::device_selected, (build, device), ()),
        call_ensures(RuntimeBuild::request, (&*final(build),), request),
    ensures
        final(build).surfaces@ == old(build).surfaces@,
        final(build).instance == old(build).instance,
        request matches RuntimeRequest::CreateDevice { index, families } && index == device.index
            && families@.contains(device.graphics_queue_family) && families@.contains(
            device.present_queue_family,
        ),
{
    if let RuntimeRequest::CreateDevice { index, families } = request {
        assert(families@[0] == device.graphics_queue_family);
        if device.graphics_queue_family != device.present_queue_family {
            assert(families@[1] == device.present_queue_family);
        }
    }
}

/// A device is considered with the families that are chosen for it: the first one that
/// draws and presents where there is one, else the first that draws and the first that
/// presents.
pub proof fn considered_device_has_its_families(
    graphics: &[u32],
    present: &[u32],
    compositor_drm: (u32, u32),
    node: DrmNode,
    candidate: Option<DeviceCandidate>,
    chosen: Option<(u32, u32)>,
)
    requires
        call_ensures(assess_device, (graphics, present, compositor_drm, &node), candidate),
        call_ensures(choose_queue_families, (graphics, present), chosen),
    ensures
        candidate is Some <==> chosen is Some,
        candidate matches Some(found) ==> chosen == Some(
            (found.graphics_queue_family, found.present_queue_family),
        ),
        chosen matches Some((drawing, presenting)) ==> drawing == presenting || drawing
            == graphics@[0] && presenting == present@[0],
{
    if let Some(found) = candidate {
        let (drawing, presenting) = chosen->0;
        if exists|index: int|
            0 <= index < graphics@.len() && present@.contains(#[trigger] graphics@[index]) {
            let first = choose|index: int|
                0 <= index < graphics@.len() && drawing == #[trigger] graphics@[index]
                    && present@.contains(drawing) && forall|earlier: int|
                    0 <= earlier < index ==> !present@.contains(#[trigger] graphics@[earlier]);
            let other = choose|index: int|
                0 <= index < graphics@.len() && found.graphics_queue_family
                    == #[trigger] graphics@[index] && present@.contains(
                    found.graphics_queue_family,
                ) && forall|earlier: int|
                    0 <= earlier < index ==> !present@.contains(#[trigger] graphics@[earlier]);
            assert(graphics@[first] == drawing);
            assert(graphics@[other] == found.graphics_queue_family);
            assert(first == other);
        }
    }
}

} // verus!
