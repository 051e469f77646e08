//! The way to a device: which calls to make, one after the other, until there is one.
//!
//! An instance setup settles what the instance is created with. A selection goes through the
//! physical devices until it has found the one to use.

use crate::error::{failure_of, Error, Failure};
use crate::startup::{
    all_listed, consider_candidate, considering_selects, find_debug_aids, inspect_instance,
    instance_serves, is_selection, listed, names, push_name, supports_version,
    surface_maintenance, window_instance_extensions, window_names, Candidate, SurfaceMaintenance,
    DEBUG_UTILS, EXT_SURFACE_MAINTENANCE, KHR_SURFACE_MAINTENANCE, MAX_INSTANCE_LAYERS,
    MAX_PHYSICAL_DEVICES, REQUIRED_API_VERSION, SURFACE_CAPABILITIES, VALIDATION_LAYER,
};
use vstd::prelude::*;

verus! {

/// What an instance setup asks next, or how it ended.
#[derive(Clone, Copy, Debug, PartialEq, Eq, Structural)]
pub enum SetupStep {
    /// Ask for the extensions of the instance.
    Extensions,
    /// Ask for the extensions that the window system needs.
    WindowExtensions,
    /// Ask for the layers of the instance.
    Layers,
    /// Create the instance.
    Create,
    /// There can be no instance.
    Failed(Failure),
}

/// What is lacking cannot be had.
pub open spec fn unsupported() -> SetupStep {
    SetupStep::Failed(Failure::Reported(Error::Unsupported))
}

/// What an instance is created with.
#[derive(Debug)]
pub struct InstanceSetup {
    /// Whether the device draws to a window.
    pub presentation: bool,
    /// Whether to look for what helps to find mistakes.
    pub debug: bool,
    pub maintenance: SurfaceMaintenance,
    /// The extensions that the instance can have.
    pub available: Vec<String>,
    /// The extensions to enable.
    pub extensions: Vec<String>,
    /// The layers to enable.
    pub layers: Vec<String>,
    /// Whether to report messages of the driver.
    pub messenger: bool,
}

impl InstanceSetup {
    /// The step after the extensions for a window are settled.
    pub open spec fn debug_step(&self) -> SetupStep {
        if self.debug {
            SetupStep::Layers
        } else {
            SetupStep::Create
        }
    }

    /// The setup with the extensions that the instance can have.
    pub open spec fn with_extensions(self, list: Vec<String>) -> Self {
        InstanceSetup {
            maintenance: surface_maintenance(list@, self.presentation),
            available: list,
            ..self
        }
    }

    /// The setup is `before` with what a window needs.
    pub open spec fn adds_window(self, before: Self, list: Seq<String>) -> bool {
        &&& names(self.extensions@) == window_names(list, before.maintenance)
        &&& self == (InstanceSetup { extensions: self.extensions, ..before })
    }

    /// The setup is `before` with what helps to find mistakes, as far as there is any.
    pub open spec fn adds_debug_aids(self, before: Self, list: Seq<String>) -> bool {
        &&& self.messenger == listed(before.available@, DEBUG_UTILS@)
        &&& names(self.extensions@) == names(before.extensions@) + (if self.messenger {
            seq![DEBUG_UTILS@]
        } else {
            seq![]
        })
        &&& names(self.layers@) == names(before.layers@) + (if listed(list, VALIDATION_LAYER@) {
            seq![VALIDATION_LAYER@]
        } else {
            seq![]
        })
        &&& self == (InstanceSetup {
            extensions: self.extensions,
            layers: self.layers,
            messenger: self.messenger,
            ..before
        })
    }

    /// Starts a setup. The version of the instance is asked for first.
    pub fn new(presentation: bool, debug: bool) -> (r: Self)
        ensures
            r.presentation == presentation,
            r.debug == debug,
            r.maintenance == (SurfaceMaintenance { khr: false, ext: false }),
            r.available@.len() == 0,
            r.extensions@.len() == 0,
            r.layers@.len() == 0,
            !r.messenger,
    {
        InstanceSetup {
            presentation,
            debug,
            maintenance: SurfaceMaintenance { khr: false, ext: false },
            available: Vec::new(),
            extensions: Vec::new(),
            layers: Vec::new(),
            messenger: false,
        }
    }

    /// Takes the version of the instance. An instance that cannot say has the first one.
    pub fn on_version(&self, version: Result<Option<u32>, i32>) -> (r: SetupStep)
        ensures
            r == (match version {
                Err(code) => SetupStep::Failed(failure_of(code)),
                Ok(None) => unsupported(),
                Ok(Some(version)) => if version < REQUIRED_API_VERSION {
                    unsupported()
                } else {
                    SetupStep::Extensions
                },
            }),
    {
        match version {
            Err(code) => SetupStep::Failed(Failure::from_code(code)),
            Ok(version) => {
                let sufficient = match version {
                    Some(version) => supports_version(version),
                    None => false,
                };
                if sufficient {
                    SetupStep::Extensions
                } else {
                    SetupStep::Failed(Failure::Reported(Error::Unsupported))
                }
            },
        }
    }

    /// Takes the extensions that the instance can have.
    pub fn on_extensions(&mut self, extensions: Result<Vec<String>, i32>) -> (r: SetupStep)
        ensures
            match extensions {
                Err(code) => r == SetupStep::Failed(failure_of(code)) && *final(self)
                    == *old(self),
                Ok(list) => if instance_serves(list@, old(self).presentation) {
                    &&& r == (if old(self).presentation {
                        SetupStep::WindowExtensions
                    } else {
                        old(self).debug_step()
                    })
                    &&& *final(self) == old(self).with_extensions(list)
                } else {
                    r == unsupported() && *final(self) == *old(self)
                },
            },
    {
        match extensions {
            Err(code) => SetupStep::Failed(Failure::from_code(code)),
            Ok(list) => match inspect_instance(&list, self.presentation) {
                Err(error) => SetupStep::Failed(Failure::Reported(error)),
                Ok(maintenance) => {
                    self.maintenance = maintenance;
                    self.available = list;
                    if self.presentation {
                        SetupStep::WindowExtensions
                    } else if self.debug {
                        SetupStep::Layers
                    } else {
                        SetupStep::Create
                    }
                },
            },
        }
    }

    /// Takes the extensions that the window system needs, or why it cannot say.
    pub fn on_window_extensions(&mut self, needed: Result<Vec<String>, Failure>) -> (r: SetupStep)
        ensures
            match needed {
                Err(failure) => r == SetupStep::Failed(failure) && *final(self) == *old(self),
                Ok(list) => if all_listed(old(self).available@, list@) {
                    &&& r == old(self).debug_step()
                    &&& final(self).adds_window(*old(self), list@)
                } else {
                    r == unsupported() && *final(self) == *old(self)
                },
            },
    {
        match needed {
            Err(failure) => SetupStep::Failed(failure),
            Ok(list) => match window_instance_extensions(
                &self.available,
                &list,
                self.maintenance,
            ) {
                Err(error) => SetupStep::Failed(Failure::Reported(error)),
                Ok(extensions) => {
                    self.extensions = extensions;
                    if self.debug {
                        SetupStep::Layers
                    } else {
                        SetupStep::Create
                    }
                },
            },
        }
    }

    /// Takes the layers that the instance can have. What helps to find mistakes is enabled.
    pub fn on_layers(&mut self, layers: Result<Vec<String>, i32>) -> (r: SetupStep)
        ensures
            match layers {
                Err(code) => r == SetupStep::Failed(failure_of(code)) && *final(self)
                    == *old(self),
                Ok(list) => if list@.len() > MAX_INSTANCE_LAYERS {
                    r == unsupported() && *final(self) == *old(self)
                } else {
                    &&& r == SetupStep::Create
                    &&& final(self).adds_debug_aids(*old(self), list@)
                },
            },
    {
        let list = match layers {
            Err(code) => return SetupStep::Failed(Failure::from_code(code)),
            Ok(list) => list,
        };
        match find_debug_aids(&self.available, &list) {
            Err(error) => SetupStep::Failed(Failure::Reported(error)),
            Ok(aids) => {
                if aids.validation {
                    push_name(&mut self.layers, VALIDATION_LAYER);
                }
                if aids.messenger {
                    push_name(&mut self.extensions, DEBUG_UTILS);
                }
                self.messenger = aids.messenger;
                assert(names(self.layers@) =~= names(old(self).layers@) + (if listed(
                    list@,
                    VALIDATION_LAYER@,
                ) {
                    seq![VALIDATION_LAYER@]
                } else {
                    seq![]
                }));
                assert(names(self.extensions@) =~= names(old(self).extensions@) + (
                if self.messenger {
                    seq![DEBUG_UTILS@]
                } else {
                    seq![]
                }));
                SetupStep::Create
            },
        }
    }
}

/// An instance is created with nothing that it does not have: each extension and each layer that
/// the setup has enabled in the end is one of those that were listed. All that the window system
/// needs is enabled, and messages are reported exactly where they were asked for and can be.
pub proof fn instances_are_created_with_what_they_have(
    start: InstanceSetup,
    extensions: Vec<String>,
    window: Seq<String>,
    windowed: InstanceSetup,
    layers: Seq<String>,
    end: InstanceSetup,
)
    requires
        start.extensions@.len() == 0,
        start.layers@.len() == 0,
        !start.messenger,
        instance_serves(extensions@, start.presentation),
        if start.presentation {
            &&& all_listed(extensions@, window)
            &&& windowed.adds_window(start.with_extensions(extensions), window)
        } else {
            windowed == start.with_extensions(extensions)
        },
        if start.debug {
            end.adds_debug_aids(windowed, layers)
        } else {
            end == windowed
        },
    ensures
        all_listed(extensions@, end.extensions@),
        all_listed(layers, end.layers@),
        start.presentation ==> all_listed(end.extensions@, window),
        end.messenger <==> start.debug && listed(extensions@, DEBUG_UTILS@),
        end.messenger ==> listed(end.extensions@, DEBUG_UTILS@),
{
    let enabled = names(end.extensions@);
    let first = names(windowed.extensions@);
    assert(names(start.extensions@) =~= seq![]);
    assert(names(start.layers@) =~= seq![]);
    assert(first.len() <= enabled.len() == end.extensions@.len());
    assert forall|i: int| 0 <= i < end.extensions@.len() implies listed(
        extensions@,
        (#[trigger] end.extensions@[i])@,
    ) by {
        assert(enabled[i] == end.extensions@[i]@);
        assert(i < first.len() ==> enabled[i] == first[i]);
        if start.presentation && i < window.len() {
            assert(enabled[i] == window[i]@);
            assert(listed(extensions@, window[i]@));
        } else if i < first.len() {
            assert(start.presentation);
            assert(first[i] == SURFACE_CAPABILITIES@ || first[i] == KHR_SURFACE_MAINTENANCE@
                || first[i] == EXT_SURFACE_MAINTENANCE@);
        }
    }
    assert forall|i: int| 0 <= i < end.layers@.len() implies listed(
        layers,
        (#[trigger] end.layers@[i])@,
    ) by {
        assert(names(end.layers@)[i] == end.layers@[i]@);
    }
    if start.presentation {
        assert forall|i: int| 0 <= i < window.len() implies listed(
            end.extensions@,
            (#[trigger] window[i])@,
        ) by {
            assert(first[i] == window[i]@);
            assert(enabled[i] == first[i]);
            assert(end.extensions@[i]@ == enabled[i]);
        }
    }
    if end.messenger {
        assert(enabled[first.len() as int] == DEBUG_UTILS@);
        assert(end.extensions@[first.len() as int]@ == DEBUG_UTILS@);
    }
}

/// What a selection asks next, or how it ended.
#[derive(Clone, Copy, Debug, PartialEq, Eq, Structural)]
pub enum SelectionStep {
    /// Inspect the physical device.
    Inspect { physical_device: u64 },
    /// This is the device to use.
    Selected(Candidate),
    /// There is no device to use.
    Failed(Failure),
}

/// What an inspection of a physical device came to.
pub type Inspected = Result<Candidate, Failure>;

/// The device cannot be used, and others may be.
pub open spec fn is_passed_over(inspected: Inspected) -> bool {
    inspected == Err::<Candidate, Failure>(Failure::Reported(Error::Unsupported))
}

/// A selection among the physical devices.
#[derive(Debug)]
pub struct Selection {
    pub devices: Vec<u64>,
    /// The device that is inspected now.
    pub place: usize,
    /// The best candidate so far.
    pub selected: Option<Candidate>,
}

impl Selection {
    /// The search is not over, so no discrete GPU was found.
    pub open spec fn wf(&self) -> bool {
        &&& self.place <= self.devices@.len()
        &&& self.selected matches Some(candidate) ==> !candidate.discrete
    }

    /// The step at the present place.
    pub open spec fn step(&self) -> SelectionStep {
        if self.place < self.devices@.len() {
            SelectionStep::Inspect { physical_device: self.devices@[self.place as int] }
        } else {
            match self.selected {
                Some(candidate) => SelectionStep::Selected(candidate),
                None => SelectionStep::Failed(Failure::Reported(Error::Unsupported)),
            }
        }
    }

    fn next_step(&self) -> (r: SelectionStep)
        requires
            self.place <= self.devices@.len(),
        ensures
            r == self.step(),
    {
        if self.place < self.devices.len() {
            SelectionStep::Inspect { physical_device: self.devices[self.place] }
        } else {
            match self.selected {
                Some(candidate) => SelectionStep::Selected(candidate),
                None => SelectionStep::Failed(Failure::Reported(Error::Unsupported)),
            }
        }
    }

    /// Starts a selection among the physical devices.
    pub fn start(devices: Result<Vec<u64>, i32>) -> (r: (Self, SelectionStep))
        ensures
            r.0.wf(),
            r.0.place == 0,
            r.0.selected is None,
            match devices {
                Err(code) => r.1 == SelectionStep::Failed(failure_of(code)),
                Ok(list) => if list@.len() > MAX_PHYSICAL_DEVICES {
                    r.1 == SelectionStep::Failed(Failure::Reported(Error::Unsupported))
                } else {
                    r.0.devices == list && r.1 == r.0.step()
                },
            },
    {
        match devices {
            Err(code) => (
                Selection { devices: Vec::new(), place: 0, selected: None },
                SelectionStep::Failed(Failure::from_code(code)),
            ),
            Ok(list) => {
                let too_many = list.len() > MAX_PHYSICAL_DEVICES;
                let selection = Selection { devices: list, place: 0, selected: None };
                let step = if too_many {
                    SelectionStep::Failed(Failure::Reported(Error::Unsupported))
                } else {
                    selection.next_step()
                };
                (selection, step)
            },
        }
    }

    /// Takes what the inspection of the device came to. A discrete GPU ends the search, and so does
    /// a failure other than that the device cannot be used.
    pub fn on_inspected(&mut self, inspected: Inspected) -> (r: SelectionStep)
        requires
            old(self).wf(),
            old(self).place < old(self).devices@.len(),
        ensures
            final(self).devices == old(self).devices,
            match inspected {
                Ok(candidate) => if candidate.discrete {
                    r == SelectionStep::Selected(candidate)
                } else {
                    &&& final(self).wf()
                    &&& final(self).place == old(self).place + 1
                    &&& final(self).selected == (if old(self).selected is None {
                        Some(candidate)
                    } else {
                        old(self).selected
                    })
                    &&& r == final(self).step()
                },
                Err(failure) => if is_passed_over(inspected) {
                    &&& final(self).wf()
                    &&& final(self).place == old(self).place + 1
                    &&& final(self).selected == old(self).selected
                    &&& r == final(self).step()
                } else {
                    r == SelectionStep::Failed(failure)
                },
            },
    {
        match inspected {
            Ok(candidate) => {
                if consider_candidate(&mut self.selected, candidate) {
                    return SelectionStep::Selected(candidate);
                }
            },
            Err(failure) => {
                if failure != Failure::Reported(Error::Unsupported) {
                    return SelectionStep::Failed(failure);
                }
            },
        }
        let count = self.devices.len();
        assert(self.place < count);
        self.place = self.place + 1;
        self.next_step()
    }
}

/// What going through the devices from `place` on comes to, where `selected` was the best candidate
/// before.
pub open spec fn selection_from(
    devices: Seq<u64>,
    place: nat,
    selected: Option<Candidate>,
    inspected: spec_fn(u64) -> Inspected,
) -> Inspected
    decreases devices.len() - place,
{
    if place >= devices.len() {
        match selected {
            Some(candidate) => Ok(candidate),
            None => Err(Failure::Reported(Error::Unsupported)),
        }
    } else {
        match inspected(devices[place as int]) {
            Ok(candidate) => if candidate.discrete {
                Ok(candidate)
            } else {
                let best = if selected is None {
                    Some(candidate)
                } else {
                    selected
                };
                selection_from(devices, place + 1, best, inspected)
            },
            Err(failure) => if is_passed_over(Err(failure)) {
                selection_from(devices, place + 1, selected, inspected)
            } else {
                Err(failure)
            },
        }
    }
}

/// The candidates among the first `count` devices.
pub open spec fn candidates_among(
    devices: Seq<u64>,
    count: nat,
    inspected: spec_fn(u64) -> Inspected,
) -> Seq<Candidate>
    decreases count,
{
    if count == 0 {
        seq![]
    } else {
        let before = candidates_among(devices, (count - 1) as nat, inspected);
        match inspected(devices[count - 1]) {
            Ok(candidate) => before.push(candidate),
            Err(_) => before,
        }
    }
}

/// Every device before `place` is a candidate or passed over: the search went past it.
pub open spec fn searched(
    devices: Seq<u64>,
    place: nat,
    inspected: spec_fn(u64) -> Inspected,
) -> bool {
    forall|i: int|
        0 <= i < place ==> (inspected(#[trigger] devices[i]) is Ok || is_passed_over(
            inspected(devices[i]),
        ))
}

/// Going through the devices selects the first discrete GPU or else the first candidate, of the
/// devices that were looked at; and these are all devices unless a discrete GPU ended the search.
pub proof fn selection_is_best(
    devices: Seq<u64>,
    place: nat,
    selected: Option<Candidate>,
    inspected: spec_fn(u64) -> Inspected,
) -> (end: nat)
    requires
        place <= devices.len(),
        searched(devices, place, inspected),
        is_selection(candidates_among(devices, place, inspected), selected),
        selected matches Some(candidate) ==> !candidate.discrete,
    ensures
        place <= end <= devices.len(),
        selection_from(devices, place, selected, inspected) matches Ok(candidate) ==> {
            &&& searched(devices, end, inspected)
            &&& is_selection(candidates_among(devices, end, inspected), Some(candidate))
            &&& end == devices.len() || candidate.discrete
        },
        selection_from(devices, place, selected, inspected) matches Err(failure) ==> {
            ||| end == devices.len() && searched(devices, end, inspected) && candidates_among(
                devices,
                end,
                inspected,
            ).len() == 0 && is_passed_over(Err(failure))
            ||| end < devices.len() && inspected(devices[end as int]) == Err::<Candidate, Failure>(
                failure,
            ) && !is_passed_over(Err(failure))
        },
    decreases devices.len() - place,
{
    if place >= devices.len() {
        place
    } else {
        match inspected(devices[place as int]) {
            Ok(candidate) => {
                let before = candidates_among(devices, place, inspected);
                considering_selects(before, selected, candidate);
                if candidate.discrete {
                    place + 1
                } else {
                    let best = if selected is None {
                        Some(candidate)
                    } else {
                        selected
                    };
                    selection_is_best(devices, place + 1, best, inspected)
                }
            },
            Err(failure) => if is_passed_over(Err(failure)) {
                selection_is_best(devices, place + 1, selected, inspected)
            } else {
                place
            },
        }
    }
}

impl Selection {
    /// What the selection will come to.
    pub open spec fn outcome(&self, inspected: spec_fn(u64) -> Inspected) -> Inspected {
        selection_from(self.devices@, self.place as nat, self.selected, inspected)
    }

    /// Inspecting the devices one after the other comes to what the driver's answers determine: no
    /// step changes it, and the last step says it.
    pub proof fn steps_keep_outcome(
        before: Selection,
        after: Selection,
        inspected: spec_fn(u64) -> Inspected,
    )
        requires
            before.wf(),
            before.place < before.devices@.len(),
            after.devices == before.devices,
            after.place == before.place + 1,
            ({
                let answer = inspected(before.devices@[before.place as int]);
                match answer {
                    Ok(candidate) => !candidate.discrete && after.selected == (
                    if before.selected is None {
                        Some(candidate)
                    } else {
                        before.selected
                    }),
                    Err(_) => is_passed_over(answer) && after.selected == before.selected,
                }
            }),
        ensures
            after.outcome(inspected) == before.outcome(inspected),
            after.step() is Selected ==> after.outcome(inspected) == Ok::<Candidate, Failure>(
                after.step()->Selected_0,
            ),
            after.step() is Failed ==> after.outcome(inspected) == Err::<Candidate, Failure>(
                after.step()->Failed_0,
            ),
    {
    }

    /// An inspection that ends the search says what the selection comes to.
    pub proof fn end_is_outcome(self, inspected: spec_fn(u64) -> Inspected)
        requires
            self.place < self.devices@.len(),
            ({
                let answer = inspected(self.devices@[self.place as int]);
                match answer {
                    Ok(candidate) => candidate.discrete,
                    Err(_) => !is_passed_over(answer),
                }
            }),
        ensures
            self.outcome(inspected) == inspected(self.devices@[self.place as int]),
    {
    }
}

/// An instance goes on exactly if it says its version and that is 1.4 or later.
pub proof fn versions_decide_first(
    setup: &InstanceSetup,
    version: Result<Option<u32>, i32>,
    r: SetupStep,
)
    requires
        call_ensures(InstanceSetup::on_version, (setup, version), r),
    ensures
        r is Extensions <==> (version matches Ok(Some(number)) && number >= 0x40_4000),
        version matches Err(code) ==> r == SetupStep::Failed(failure_of(code)),
        version matches Ok(None) ==> r == SetupStep::Failed(Failure::Reported(Error::Unsupported)),
        r is Extensions || r is Failed,
{
}

} // verus!
