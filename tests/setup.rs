use framepace::setup::{
    choose_queue_families, first_accepted, merge_extension_names, validation_layers_available,
    QueueFamilySupport,
};

fn family(graphics: bool, present: bool) -> QueueFamilySupport {
    QueueFamilySupport { graphics, present }
}

fn names(list: &[&str]) -> Vec<String> {
    list.iter().map(|s| s.to_string()).collect()
}

#[test]
fn first_accepted_finds_first_true() {
    assert_eq!(first_accepted(&vec![false, true, true]), Some(1));
    assert_eq!(first_accepted(&vec![true]), Some(0));
    assert_eq!(first_accepted(&vec![false, false]), None);
    assert_eq!(first_accepted(&vec![]), None);
}

#[test]
fn one_family_for_graphics_and_present() {
    let families = vec![family(false, false), family(true, true), family(true, false)];
    assert_eq!(choose_queue_families(&families), Some(vec![1]));
}

#[test]
fn separate_families_for_graphics_and_present() {
    let families = vec![family(false, true), family(true, false), family(true, true)];
    assert_eq!(choose_queue_families(&families), Some(vec![1, 0]));
}

#[test]
fn no_family_when_one_capability_is_missing() {
    assert_eq!(choose_queue_families(&vec![family(true, false)]), None);
    assert_eq!(choose_queue_families(&vec![family(false, true)]), None);
    assert_eq!(choose_queue_families(&vec![]), None);
}

#[test]
fn extensions_append_requested_then_debug_utils() {
    let r = merge_extension_names(
        names(&["VK_KHR_surface", "VK_KHR_xcb_surface"]),
        &Some(names(&["VK_KHR_portability_enumeration"])),
        "VK_EXT_debug_utils".to_string(),
    );
    assert_eq!(
        r,
        names(&[
            "VK_KHR_surface",
            "VK_KHR_xcb_surface",
            "VK_KHR_portability_enumeration",
            "VK_EXT_debug_utils"
        ])
    );
}

#[test]
fn debug_utils_not_added_twice() {
    let r = merge_extension_names(
        names(&["VK_KHR_surface"]),
        &Some(names(&["VK_EXT_debug_utils"])),
        "VK_EXT_debug_utils".to_string(),
    );
    assert_eq!(r, names(&["VK_KHR_surface", "VK_EXT_debug_utils"]));
    let r = merge_extension_names(names(&[]), &None, "VK_EXT_debug_utils".to_string());
    assert_eq!(r, names(&["VK_EXT_debug_utils"]));
}

#[test]
fn validation_layers_all_present() {
    let requested = names(&["VK_LAYER_KHRONOS_validation"]);
    let available = names(&["VK_LAYER_MESA_overlay", "VK_LAYER_KHRONOS_validation"]);
    assert!(validation_layers_available(&requested, &available));
}

#[test]
fn validation_layers_missing_one() {
    let requested = names(&["VK_LAYER_KHRONOS_validation", "VK_LAYER_LUNARG_api_dump"]);
    let available = names(&["VK_LAYER_KHRONOS_validation"]);
    assert!(!validation_layers_available(&requested, &available));
    assert!(validation_layers_available(&names(&[]), &names(&[])));
}
