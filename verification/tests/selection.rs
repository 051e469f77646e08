use no_graphics::inspect::{Inspection, InspectionStep};
use no_graphics::memory::{MemoryHeapInfo, MemoryProperties, MemoryTypeInfo};
use no_graphics::setup::{InstanceSetup, Selection, SelectionStep, SetupStep};
use no_graphics::startup::{
    consider_candidate, engine_version, find_debug_aids, has_name, inspect_device_extensions,
    inspect_instance, link_features, required_api_version, supports_version,
    window_instance_extensions, Candidate, DebugAids, DeviceExtensions, DeviceFeatures,
    FeatureGroup, QueueFamily, SurfaceMaintenance,
};
use no_graphics::vulkan::{ExtensionBits, ERROR_DEVICE_LOST};
use no_graphics::{DeviceCaps, DeviceDesc, Error, Failure, Float, Format};

const EXT: ExtensionBits = ExtensionBits {
    sampler_heap_read: 0,
    resource_heap_read: 0,
    descriptor_heap_buffer: 0,
    tile_memory_heap: 0,
};

const BOTH: SurfaceMaintenance = SurfaceMaintenance { khr: true, ext: true };

const UNSUPPORTED: InspectionStep =
    InspectionStep::Rejected(Failure::Reported(Error::Unsupported));

fn list(names: &[&str]) -> Vec<String> {
    names.iter().map(|name| name.to_string()).collect()
}

fn device_names() -> Vec<String> {
    list(&[
        "VK_EXT_descriptor_heap",
        "VK_KHR_device_address_commands",
        "VK_KHR_shader_untyped_pointers",
        "VK_EXT_mesh_shader",
        "VK_KHR_unified_image_layouts",
        "VK_KHR_swapchain",
        "VK_EXT_swapchain_maintenance1",
    ])
}

fn all_features() -> DeviceFeatures {
    let candidate = Candidate {
        physical_device: 1,
        queue_family: 0,
        discrete: false,
        unified_image_layouts: true,
        image_cube_array: true,
        texture_compression_bc: true,
        texture_compression_astc: true,
        texture_compression_etc2: true,
        storage_input_output16: true,
        khr_swapchain_maintenance1: true,
    };
    candidate.enabled_features(true)
}

fn family(queue_flags: u32) -> QueueFamily {
    QueueFamily { queue_count: 1, timestamp_valid_bits: 64, queue_flags }
}

fn inspected(presentation: bool) -> Inspection {
    let mut inspection = Inspection::new(7, presentation, BOTH);
    assert_eq!(inspection.on_extensions(&Ok(device_names())), InspectionStep::Properties);
    assert_eq!(inspection.on_properties(required_api_version(), 2), InspectionStep::Memory);
    assert_eq!(inspection.on_features(&all_features()), InspectionStep::Queues);
    inspection
}

#[test]
fn versions_follow_the_vulkan_encoding() {
    assert_eq!(required_api_version(), ash::vk::make_api_version(0, 1, 4, 0));
    assert_eq!(engine_version(), ash::vk::make_api_version(0, 0, 1, 0));
    assert_eq!((required_api_version(), engine_version()), (0x40_4000, 0x1000));
    assert!(supports_version(ash::vk::make_api_version(0, 1, 4, 321)));
    assert!(supports_version(ash::vk::make_api_version(0, 2, 0, 0)));
    assert!(!supports_version(ash::vk::make_api_version(0, 1, 3, 4095)));
}

#[test]
fn names_are_found_whole() {
    let names = list(&["VK_KHR_swapchain", "VK_KHR_surface"]);
    assert!(has_name(&names, "VK_KHR_surface"));
    assert!(!has_name(&names, "VK_KHR_surfac"));
    assert!(!has_name(&names, "VK_KHR_swapchain_maintenance1"));
    assert!(!has_name(&Vec::new(), ""));
}

#[test]
fn instances_must_maintain_surfaces_for_a_window() {
    let none = SurfaceMaintenance { khr: false, ext: false };
    assert_eq!(inspect_instance(&Vec::new(), false), Ok(none));
    assert_eq!(inspect_instance(&Vec::new(), true), Err(Error::Unsupported));
    let ext = list(&["VK_EXT_surface_maintenance1", "VK_KHR_get_surface_capabilities2"]);
    assert_eq!(inspect_instance(&ext, true), Ok(SurfaceMaintenance { khr: false, ext: true }));
    assert_eq!(inspect_instance(&ext, false), Ok(none));
    let khr = list(&["VK_KHR_surface_maintenance1"]);
    assert_eq!(inspect_instance(&khr, true), Err(Error::Unsupported));
    let many = vec!["x".to_string(); 257];
    assert_eq!(inspect_instance(&many, false), Err(Error::Unsupported));
    assert_eq!(inspect_instance(&many[..256].to_vec(), false), Ok(none));
}

#[test]
fn windows_bring_their_instance_extensions() {
    let have = list(&["VK_KHR_surface", "VK_KHR_xcb_surface"]);
    let enabled = window_instance_extensions(
        &have,
        &list(&["VK_KHR_surface"]),
        SurfaceMaintenance { khr: true, ext: false },
    );
    assert_eq!(
        enabled.unwrap(),
        list(&[
            "VK_KHR_surface",
            "VK_KHR_get_surface_capabilities2",
            "VK_KHR_surface_maintenance1",
        ])
    );
    let missing = window_instance_extensions(&have, &list(&["VK_KHR_wayland_surface"]), BOTH);
    assert_eq!(missing, Err(Error::Unsupported));
}

#[test]
fn debug_aids_are_optional() {
    let extensions = list(&["VK_EXT_debug_utils"]);
    let layers = list(&["VK_LAYER_KHRONOS_validation"]);
    assert_eq!(
        find_debug_aids(&extensions, &layers),
        Ok(DebugAids { messenger: true, validation: true })
    );
    assert_eq!(
        find_debug_aids(&layers, &extensions),
        Ok(DebugAids { messenger: false, validation: false })
    );
    assert_eq!(
        find_debug_aids(&extensions, &vec![String::new(); 65]),
        Err(Error::Unsupported)
    );
}

#[test]
fn device_extensions_are_required() {
    assert_eq!(
        inspect_device_extensions(&device_names(), BOTH, true),
        Ok(DeviceExtensions {
            unified_image_layouts: true,
            khr_maintenance: false,
            ext_maintenance: true,
        })
    );
    for missing in 0..7 {
        let mut names = device_names();
        names.remove(missing);
        // Unified image layouts are optional, and the last two serve a window.
        assert_eq!(inspect_device_extensions(&names, BOTH, true).is_ok(), missing == 4);
        assert_eq!(inspect_device_extensions(&names, BOTH, false).is_ok(), missing >= 4);
    }
    // The instance must maintain surfaces in the same way.
    let khr = SurfaceMaintenance { khr: true, ext: false };
    assert_eq!(inspect_device_extensions(&device_names(), khr, true), Err(Error::Unsupported));
    let mut many = device_names();
    many.resize(513, String::new());
    assert_eq!(inspect_device_extensions(&many, BOTH, false), Err(Error::Unsupported));
}

#[test]
fn features_are_required() {
    let all = all_features();
    assert!(all.suffices(true));
    assert!(!DeviceFeatures::none().suffices(false));
    let plain = DeviceFeatures { swapchain_maintenance1: false, ..all };
    assert!(plain.suffices(false) && !plain.suffices(true));
    let astc = DeviceFeatures { texture_compression_bc: false, ..all };
    assert!(astc.suffices(true));
    assert!(!DeviceFeatures { texture_compression_astc_ldr: false, ..astc }.suffices(true));
    assert!(!DeviceFeatures { maintenance5: false, ..all }.suffices(false));
    assert!(!DeviceFeatures { mesh_shader: false, ..all }.suffices(false));
    assert!(DeviceFeatures { image_cube_array: false, ..all }.suffices(true));
}

#[test]
fn feature_structures_are_linked_where_they_apply() {
    let short = link_features(false, false);
    assert_eq!(short.len(), 9);
    assert_eq!((short[0], short[8]), (FeatureGroup::Core, FeatureGroup::MeshShader));
    let long = link_features(true, true);
    assert_eq!(long.len(), 11);
    assert_eq!(
        long[7..].to_vec(),
        vec![
            FeatureGroup::UntypedPointers,
            FeatureGroup::UnifiedImageLayouts,
            FeatureGroup::MeshShader,
            FeatureGroup::SwapchainMaintenance,
        ]
    );
}

#[test]
fn candidates_enable_what_they_have() {
    let features = DeviceFeatures {
        unified_image_layouts: true,
        texture_compression_astc_ldr: false,
        image_cube_array: false,
        ..all_features()
    };
    let extensions = DeviceExtensions {
        unified_image_layouts: false,
        khr_maintenance: false,
        ext_maintenance: true,
    };
    let candidate = Candidate::new(3, 1, true, &features, extensions);
    // The feature counts only with its extension.
    assert!(!candidate.unified_image_layouts);
    let enabled = candidate.enabled_features(true);
    assert!(!enabled.image_cube_array && !enabled.texture_compression_astc_ldr);
    assert!(enabled.suffices(true) && !candidate.enabled_features(false).swapchain_maintenance1);
    assert_eq!(
        candidate.enabled_extensions(true),
        list(&[
            "VK_EXT_descriptor_heap",
            "VK_KHR_device_address_commands",
            "VK_KHR_shader_untyped_pointers",
            "VK_EXT_mesh_shader",
            "VK_KHR_swapchain",
            "VK_EXT_swapchain_maintenance1",
        ])
    );
    assert_eq!(candidate.enabled_extensions(false).len(), 4);
    let unified = Candidate {
        unified_image_layouts: true,
        khr_swapchain_maintenance1: true,
        ..candidate
    };
    let names = unified.enabled_extensions(true);
    assert_eq!(names[4], "VK_KHR_unified_image_layouts");
    assert_eq!(names[6], "VK_KHR_swapchain_maintenance1");
}

#[test]
fn the_first_discrete_gpu_is_selected() {
    let candidate = |physical_device, discrete| {
        let extensions = DeviceExtensions {
            unified_image_layouts: true,
            khr_maintenance: true,
            ext_maintenance: false,
        };
        Candidate::new(physical_device, 0, discrete, &all_features(), extensions)
    };
    let mut selected = None;
    assert!(!consider_candidate(&mut selected, candidate(1, false)));
    assert!(!consider_candidate(&mut selected, candidate(2, false)));
    assert_eq!(selected.map(|c| c.physical_device), Some(1));
    assert!(consider_candidate(&mut selected, candidate(3, true)));
    assert_eq!(selected.map(|c| c.physical_device), Some(3));
}

#[test]
fn queue_families_are_tried_in_order() {
    let families = vec![
        family(2),
        QueueFamily { queue_count: 0, ..family(3) },
        QueueFamily { timestamp_valid_bits: 36, ..family(3) },
        family(7),
        family(3),
    ];
    let mut windowed = inspected(true);
    assert_eq!(windowed.on_queues(families.clone()), InspectionStep::Support { family: 3 });
    assert_eq!(windowed.on_support(3, Ok(false)), InspectionStep::Support { family: 4 });
    let InspectionStep::Accepted(candidate) = windowed.on_support(4, Ok(true)) else { panic!() };
    assert_eq!((candidate.physical_device, candidate.queue_family), (7, 4));
    assert!(candidate.discrete && candidate.unified_image_layouts);
    assert_eq!(windowed.on_support(4, Ok(false)), UNSUPPORTED);
    assert_eq!(
        windowed.on_support(4, Err(ERROR_DEVICE_LOST)),
        InspectionStep::Rejected(Failure::Reported(Error::DeviceLost))
    );
    let mut headless = inspected(false);
    let InspectionStep::Accepted(candidate) = headless.on_queues(families) else { panic!() };
    assert_eq!(candidate.queue_family, 3);
    assert_eq!(headless.on_queues(vec![family(2)]), UNSUPPORTED);
    assert_eq!(headless.on_queues(vec![family(3); 65]), UNSUPPORTED);
}

#[test]
fn devices_are_rejected_for_what_they_lack() {
    let mut inspection = Inspection::new(7, true, BOTH);
    assert_eq!(inspection.on_extensions(&Ok(Vec::new())), UNSUPPORTED);
    assert_eq!(
        inspection.on_extensions(&Err(-1)),
        InspectionStep::Rejected(Failure::Exhausted)
    );
    assert_eq!(inspection.on_properties(0x40_3fff, 2), UNSUPPORTED);
    assert_eq!(inspection.on_features(&DeviceFeatures::none()), UNSUPPORTED);
    let mut memory = MemoryProperties {
        types: vec![MemoryTypeInfo { property_flags: 1, heap_index: 0 }],
        heaps: vec![MemoryHeapInfo { size: 4096, flags: 0 }],
    };
    assert_eq!(inspection.on_memory(&memory, EXT), UNSUPPORTED);
    memory.types.push(MemoryTypeInfo { property_flags: 6, heap_index: 0 });
    assert_eq!(inspection.on_memory(&memory, EXT), UNSUPPORTED);
    memory.types.push(MemoryTypeInfo { property_flags: 7, heap_index: 0 });
    assert_eq!(
        inspection.on_memory(&memory, EXT),
        InspectionStep::Features { unified: false }
    );
}

#[test]
fn descriptions_have_defaults() {
    let desc = DeviceDesc::default();
    assert_eq!((desc.desired_swapchain_image_count, desc.timestamp_query_count), (2, 256));
    assert_eq!((desc.windowed, desc.swapchain_format), (false, Format::Undefined));
    let caps = DeviceCaps::default();
    assert_eq!((caps.device_name.as_str(), caps.timestamp_period_ns), ("", Float(0)));
}

#[test]
fn a_windowed_instance_is_set_up_step_by_step() {
    let mut setup = InstanceSetup::new(true, true);
    assert_eq!(setup.on_version(Ok(Some(0x40_4001))), SetupStep::Extensions);
    let available = list(&[
        "VK_KHR_surface",
        "VK_EXT_debug_utils",
        "VK_EXT_surface_maintenance1",
        "VK_KHR_get_surface_capabilities2",
    ]);
    assert_eq!(setup.on_extensions(Ok(available)), SetupStep::WindowExtensions);
    assert_eq!(setup.maintenance, SurfaceMaintenance { khr: false, ext: true });
    let needed = list(&["VK_KHR_surface"]);
    assert_eq!(setup.on_window_extensions(Ok(needed)), SetupStep::Layers);
    let layers = list(&["other", "VK_LAYER_KHRONOS_validation"]);
    assert_eq!(setup.on_layers(Ok(layers)), SetupStep::Create);
    assert_eq!(
        setup.extensions,
        list(&[
            "VK_KHR_surface",
            "VK_KHR_get_surface_capabilities2",
            "VK_EXT_surface_maintenance1",
            "VK_EXT_debug_utils",
        ])
    );
    assert_eq!(setup.layers, list(&["VK_LAYER_KHRONOS_validation"]));
    assert!(setup.messenger);
    assert!(setup.extensions.iter().all(|name| has_name(&setup.available, name)));
}

#[test]
fn a_headless_instance_needs_nothing() {
    let mut setup = InstanceSetup::new(false, false);
    assert_eq!(setup.on_extensions(Ok(list(&["VK_EXT_debug_utils"]))), SetupStep::Create);
    assert!(setup.extensions.is_empty() && setup.layers.is_empty() && !setup.messenger);
    let mut debug = InstanceSetup::new(false, true);
    assert_eq!(debug.on_extensions(Ok(Vec::new())), SetupStep::Layers);
    assert_eq!(debug.on_layers(Ok(Vec::new())), SetupStep::Create);
    assert!(!debug.messenger);
}

#[test]
fn instances_fail_for_what_they_lack() {
    let unsupported = SetupStep::Failed(Failure::Reported(Error::Unsupported));
    let lost = SetupStep::Failed(Failure::Reported(Error::DeviceLost));
    let mut setup = InstanceSetup::new(true, true);
    assert_eq!(setup.on_version(Ok(None)), unsupported);
    assert_eq!(setup.on_version(Ok(Some(0x40_3fff))), unsupported);
    assert_eq!(setup.on_version(Err(-1)), SetupStep::Failed(Failure::Exhausted));
    assert_eq!(setup.on_extensions(Ok(Vec::new())), unsupported);
    assert_eq!(setup.on_extensions(Err(ERROR_DEVICE_LOST)), lost);
    assert_eq!(setup.on_window_extensions(Ok(list(&["missing"]))), unsupported);
    assert_eq!(
        setup.on_window_extensions(Err(Failure::Exhausted)),
        SetupStep::Failed(Failure::Exhausted)
    );
    assert_eq!(setup.on_layers(Ok(vec![String::new(); 65])), unsupported);
    assert_eq!(setup.on_layers(Err(ERROR_DEVICE_LOST)), lost);
}

#[test]
fn devices_are_inspected_until_one_is_discrete() {
    let candidate = |physical_device, discrete| {
        let extensions = DeviceExtensions {
            unified_image_layouts: true,
            khr_maintenance: true,
            ext_maintenance: false,
        };
        Candidate::new(physical_device, 0, discrete, &all_features(), extensions)
    };
    let inspect = |physical_device| SelectionStep::Inspect { physical_device };
    let unsupported = Failure::Reported(Error::Unsupported);
    let lost = Failure::Reported(Error::DeviceLost);
    let (mut selection, step) = Selection::start(Ok(vec![1, 2, 3, 4]));
    assert_eq!(step, inspect(1));
    assert_eq!(selection.on_inspected(Err(unsupported)), inspect(2));
    assert_eq!(selection.on_inspected(Ok(candidate(2, false))), inspect(3));
    assert_eq!(
        selection.on_inspected(Ok(candidate(3, true))),
        SelectionStep::Selected(candidate(3, true))
    );
    let (mut selection, _) = Selection::start(Ok(vec![1, 2]));
    selection.on_inspected(Ok(candidate(1, false)));
    assert_eq!(
        selection.on_inspected(Ok(candidate(2, false))),
        SelectionStep::Selected(candidate(1, false))
    );
    let (mut selection, _) = Selection::start(Ok(vec![1]));
    assert_eq!(selection.on_inspected(Err(unsupported)), SelectionStep::Failed(unsupported));
    let (mut selection, _) = Selection::start(Ok(vec![1, 2]));
    assert_eq!(selection.on_inspected(Err(lost)), SelectionStep::Failed(lost));
    assert_eq!(Selection::start(Ok(vec![])).1, SelectionStep::Failed(unsupported));
    assert_eq!(Selection::start(Ok(vec![1; 33])).1, SelectionStep::Failed(unsupported));
    assert_eq!(Selection::start(Err(ERROR_DEVICE_LOST)).1, SelectionStep::Failed(lost));
    assert_eq!(Selection::start(Ok(vec![1; 32])).1, inspect(1));
}
