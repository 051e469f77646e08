//! The inspection of a physical device.
//!
//! An inspection says what to ask the driver next and takes the answers, until the device is
//! accepted or rejected.

use crate::error::{failure_of, Error, Failure};
use crate::memory::MemoryProperties;
use crate::startup::{
    candidate_of, device_extensions_of, device_extensions_suffice, first_family, has_host_memory,
    inspect_device_extensions, inspect_memory, next_queue_family, supports_version, Candidate,
    DeviceExtensions, DeviceFeatures, QueueFamily, SurfaceMaintenance, MAX_QUEUE_FAMILIES,
    REQUIRED_API_VERSION,
};
use crate::vulkan::{ExtensionBits, DEVICE_TYPE_DISCRETE_GPU};
use vstd::prelude::*;

verus! {

/// What an inspection asks next, or how it ended.
#[derive(Clone, Copy, Debug, PartialEq, Eq, Structural)]
pub enum InspectionStep {
    /// Ask for the properties of the device.
    Properties,
    /// Ask for the memory of the device.
    Memory,
    /// Ask for the features of the device, with unified image layouts where there are some.
    Features { unified: bool },
    /// Ask for the queue families of the device.
    Queues,
    /// Ask whether the queue family can present to the surface.
    Support { family: u32 },
    /// The device can be used.
    Accepted(Candidate),
    /// The device cannot be used.
    Rejected(Failure),
}

/// The device lacks something.
pub open spec fn lacking() -> InspectionStep {
    InspectionStep::Rejected(Failure::Reported(Error::Unsupported))
}

/// An inspection of a physical device.
#[derive(Debug)]
pub struct Inspection {
    pub physical_device: u64,
    pub presentation: bool,
    pub maintenance: SurfaceMaintenance,
    pub extensions: DeviceExtensions,
    pub discrete: bool,
    pub features: DeviceFeatures,
    pub families: Vec<QueueFamily>,
}

impl Inspection {
    /// The candidate that the device is, with a queue family.
    pub open spec fn candidate(&self, family: u32) -> Candidate {
        candidate_of(
            self.physical_device,
            family,
            self.discrete,
            self.features,
            self.extensions,
        )
    }

    /// The step that tries the families from `from` on. With a window, the family must present.
    pub open spec fn family_step(&self, from: nat) -> InspectionStep {
        match first_family(self.families@, from) {
            None => lacking(),
            Some(family) => if self.presentation {
                InspectionStep::Support { family }
            } else {
                InspectionStep::Accepted(self.candidate(family))
            },
        }
    }

    /// Starts an inspection. The extensions of the device are asked for first.
    pub fn new(
        physical_device: u64,
        presentation: bool,
        maintenance: SurfaceMaintenance,
    ) -> (r: Self)
        ensures
            r.physical_device == physical_device,
            r.presentation == presentation,
            r.maintenance == maintenance,
            r.extensions == (DeviceExtensions {
                unified_image_layouts: false,
                khr_maintenance: false,
                ext_maintenance: false,
            }),
            !r.discrete,
            forall|other: DeviceFeatures| #[trigger] r.features.within(other),
            r.families@.len() == 0,
    {
        Inspection {
            physical_device,
            presentation,
            maintenance,
            extensions: DeviceExtensions {
                unified_image_layouts: false,
                khr_maintenance: false,
                ext_maintenance: false,
            },
            discrete: false,
            features: DeviceFeatures::none(),
            families: Vec::new(),
        }
    }

    /// Takes the extensions of the device.
    pub fn on_extensions(&mut self, extensions: &Result<Vec<String>, i32>) -> (r: InspectionStep)
        ensures
            match *extensions {
                Err(code) => r == InspectionStep::Rejected(failure_of(code)) && *final(self)
                    == *old(self),
                Ok(list) => if device_extensions_suffice(
                    list@,
                    old(self).maintenance,
                    old(self).presentation,
                ) {
                    &&& r == InspectionStep::Properties
                    &&& *final(self) == (Inspection {
                        extensions: device_extensions_of(list@, old(self).maintenance),
                        ..*old(self)
                    })
                } else {
                    r == lacking() && *final(self) == *old(self)
                },
            },
    {
        match extensions {
            Err(code) => InspectionStep::Rejected(Failure::from_code(*code)),
            Ok(list) => match inspect_device_extensions(list, self.maintenance, self.presentation) {
                Ok(offered) => {
                    self.extensions = offered;
                    InspectionStep::Properties
                },
                Err(error) => InspectionStep::Rejected(Failure::Reported(error)),
            },
        }
    }

    /// Takes the version and the type of the device.
    pub fn on_properties(&mut self, api_version: u32, device_type: i32) -> (r: InspectionStep)
        ensures
            r == (if api_version < REQUIRED_API_VERSION {
                lacking()
            } else {
                InspectionStep::Memory
            }),
            *final(self) == (Inspection {
                discrete: device_type == DEVICE_TYPE_DISCRETE_GPU,
                ..*old(self)
            }),
    {
        self.discrete = device_type == DEVICE_TYPE_DISCRETE_GPU;
        if !supports_version(api_version) {
            return InspectionStep::Rejected(Failure::Reported(Error::Unsupported));
        }
        InspectionStep::Memory
    }

    /// Takes the memory of the device.
    pub fn on_memory(&self, memory: &MemoryProperties, ext: ExtensionBits) -> (r: InspectionStep)
        requires
            memory.wf(),
        ensures
            r == (if has_host_memory(memory, ext) {
                InspectionStep::Features { unified: self.extensions.unified_image_layouts }
            } else {
                lacking()
            }),
    {
        if !inspect_memory(memory, ext) {
            return InspectionStep::Rejected(Failure::Reported(Error::Unsupported));
        }
        InspectionStep::Features { unified: self.extensions.unified_image_layouts }
    }

    /// Takes the features of the device.
    pub fn on_features(&mut self, features: &DeviceFeatures) -> (r: InspectionStep)
        ensures
            r == (if features.suffice(old(self).presentation) {
                InspectionStep::Queues
            } else {
                lacking()
            }),
            *final(self) == (Inspection { features: *features, ..*old(self) }),
    {
        self.features = *features;
        if !features.suffices(self.presentation) {
            return InspectionStep::Rejected(Failure::Reported(Error::Unsupported));
        }
        InspectionStep::Queues
    }

    fn try_family(&self, from: u32) -> (r: InspectionStep)
        requires
            self.families@.len() <= MAX_QUEUE_FAMILIES,
        ensures
            r == self.family_step(from as nat),
    {
        match next_queue_family(&self.families, from) {
            None => InspectionStep::Rejected(Failure::Reported(Error::Unsupported)),
            Some(family) => if self.presentation {
                InspectionStep::Support { family }
            } else {
                self.accept(family)
            },
        }
    }

    fn accept(&self, family: u32) -> (r: InspectionStep)
        ensures
            r == InspectionStep::Accepted(self.candidate(family)),
    {
        InspectionStep::Accepted(
            Candidate::new(
                self.physical_device,
                family,
                self.discrete,
                &self.features,
                self.extensions,
            ),
        )
    }

    /// Takes the queue families of the device.
    pub fn on_queues(&mut self, families: Vec<QueueFamily>) -> (r: InspectionStep)
        ensures
            *final(self) == (Inspection { families, ..*old(self) }),
            r == (if families@.len() > MAX_QUEUE_FAMILIES {
                lacking()
            } else {
                final(self).family_step(0)
            }),
    {
        let too_many = families.len() > MAX_QUEUE_FAMILIES;
        self.families = families;
        if too_many {
            return InspectionStep::Rejected(Failure::Reported(Error::Unsupported));
        }
        self.try_family(0)
    }

    /// Takes whether a queue family can present. If not, the next family is tried.
    pub fn on_support(&self, family: u32, supported: Result<bool, i32>) -> (r: InspectionStep)
        requires
            self.families@.len() <= MAX_QUEUE_FAMILIES,
            family < self.families@.len(),
        ensures
            r == (match supported {
                Err(code) => InspectionStep::Rejected(failure_of(code)),
                Ok(true) => InspectionStep::Accepted(self.candidate(family)),
                Ok(false) => self.family_step((family + 1) as nat),
            }),
    {
        match supported {
            Err(code) => InspectionStep::Rejected(Failure::from_code(code)),
            Ok(supported) => if supported {
                self.accept(family)
            } else {
                self.try_family(family + 1)
            },
        }
    }
}

/// What the families from `from` on come to, by the driver's answers about presenting.
pub open spec fn family_outcome(
    inspection: Inspection,
    from: nat,
    supports: spec_fn(u32) -> Result<bool, i32>,
) -> Result<u32, Failure>
    decreases inspection.families@.len() - from,
{
    if from >= inspection.families@.len() {
        Err(Failure::Reported(Error::Unsupported))
    } else if !inspection.families@[from as int].qualifies() {
        family_outcome(inspection, from + 1, supports)
    } else if !inspection.presentation {
        Ok(from as u32)
    } else {
        match supports(from as u32) {
            Err(code) => Err(failure_of(code)),
            Ok(true) => Ok(from as u32),
            Ok(false) => family_outcome(inspection, from + 1, supports),
        }
    }
}

/// What a step comes to, by the driver's answers about presenting.
pub open spec fn step_outcome(
    inspection: Inspection,
    step: InspectionStep,
    supports: spec_fn(u32) -> Result<bool, i32>,
) -> Result<Candidate, Failure> {
    match step {
        InspectionStep::Accepted(candidate) => Ok(candidate),
        InspectionStep::Rejected(failure) => Err(failure),
        InspectionStep::Support { family } => match family_outcome(
            inspection,
            family as nat,
            supports,
        ) {
            Ok(family) => Ok(inspection.candidate(family)),
            Err(failure) => Err(failure),
        },
        _ => Err(Failure::Reported(Error::Unsupported)),
    }
}

/// The queue family of an accepted device is the first one that qualifies and, with a window, can
/// present: trying them one by one comes to that.
pub proof fn families_tried_in_order(
    inspection: Inspection,
    from: nat,
    supports: spec_fn(u32) -> Result<bool, i32>,
)
    requires
        inspection.families@.len() <= MAX_QUEUE_FAMILIES,
    ensures
        step_outcome(inspection, inspection.family_step(from), supports) == (match family_outcome(
            inspection,
            from,
            supports,
        ) {
            Ok(family) => Ok::<Candidate, Failure>(inspection.candidate(family)),
            Err(failure) => Err::<Candidate, Failure>(failure),
        }),
    decreases inspection.families@.len() - from,
{
    if from < inspection.families@.len() && !inspection.families@[from as int].qualifies() {
        families_tried_in_order(inspection, from + 1, supports);
    }
}

/// The families of a device are tried in order: the next one is the first that qualifies. Without a
/// window it is accepted as it is, and with one it is asked whether it presents. A device without
/// such a family is rejected as lacking something.
pub proof fn qualified_families_are_tried(inspection: Inspection, from: nat)
    requires
        inspection.families@.len() <= MAX_QUEUE_FAMILIES,
    ensures
        match inspection.family_step(from) {
            InspectionStep::Support { family } => {
                &&& inspection.presentation
                &&& from <= family < inspection.families@.len()
                &&& inspection.families@[family as int].qualifies()
                &&& forall|i: int|
                    from <= i < family ==> !(#[trigger] inspection.families@[i]).qualifies()
            },
            InspectionStep::Accepted(candidate) => {
                &&& !inspection.presentation
                &&& from <= candidate.queue_family < inspection.families@.len()
                &&& inspection.families@[candidate.queue_family as int].qualifies()
                &&& candidate.physical_device == inspection.physical_device
                &&& candidate.discrete == inspection.discrete
                &&& candidate == inspection.candidate(candidate.queue_family)
            },
            InspectionStep::Rejected(failure) => {
                &&& failure == Failure::Reported(Error::Unsupported)
                &&& forall|i: int|
                    from <= i < inspection.families@.len() ==> !(
                    #[trigger] inspection.families@[i]).qualifies()
            },
            _ => false,
        },
{
    crate::startup::first_family_is_first(inspection.families@, from);
}

/// A physical device goes on if it has memory that the host can write; its features are then asked
/// for with unified layouts exactly if it has the extension. A family that presents is accepted, and
/// one that does not gives way to the next.
pub proof fn inspections_go_on(
    inspection: &Inspection,
    memory: &MemoryProperties,
    ext: ExtensionBits,
    family: u32,
    supported: Result<bool, i32>,
    first: InspectionStep,
    second: InspectionStep,
)
    requires
        call_ensures(Inspection::on_memory, (inspection, memory, ext), first),
        call_ensures(Inspection::on_support, (inspection, family, supported), second),
    ensures
        first is Features <==> has_host_memory(memory, ext),
        first matches InspectionStep::Features { unified } ==> unified
            == inspection.extensions.unified_image_layouts,
        !has_host_memory(memory, ext) ==> first == InspectionStep::Rejected(
            Failure::Reported(Error::Unsupported),
        ),
        supported == Ok::<bool, i32>(true) ==> (second matches InspectionStep::Accepted(candidate)
            && candidate.queue_family == family && candidate.physical_device
            == inspection.physical_device),
        supported matches Err(code) ==> second == InspectionStep::Rejected(failure_of(code)),
        supported == Ok::<bool, i32>(false) ==> second == inspection.family_step(
            (family + 1) as nat,
        ),
{
}

} // verus!
