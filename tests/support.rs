use vk_fixer::definitions::{Conclusion, EnvironmentVariables, ImplicitLayer, ImplicitRegistry};
use vk_fixer::probe::{probe_request, ProbeFailure, PROBE_MODE};
use vk_fixer::registry::{
    environment_variables, extract_layer_settings, extract_single_layer_settings,
    implicit_layers_from, is_enabled, layer_status, manual_order, LayerSettings,
    RootLayerSettings,
};
use vk_fixer::remediation::{layers_to_disable, solutions, Solution};

fn layer(name: &str, disable: &str, enable: Option<&str>) -> ImplicitLayer {
    ImplicitLayer {
        settings_path: format!("/layers/{}.json", name),
        registry: ImplicitRegistry::CurrentUser,
        name: name.to_string(),
        description: String::new(),
        disable_environment: disable.to_string(),
        enable_environment: enable.map(|e| e.to_string()),
    }
}

fn strings(items: &[&str]) -> Vec<String> {
    items.iter().map(|s| s.to_string()).collect()
}

fn settings(name: &str, disable: &[&str], enable: Option<&[&str]>) -> LayerSettings {
    LayerSettings {
        name: name.to_string(),
        description: "LunarG HUD layer".to_string(),
        disable_environment: strings(disable),
        enable_environment: enable.map(strings),
    }
}

fn described(s: &[Solution]) -> Vec<(String, bool)> {
    s.iter().map(|s| (s.layer.clone(), s.exclude)).collect()
}

#[test]
fn solutions_for_each_conclusion() {
    let layers = vec![layer("l1", "D1", None), layer("l2", "D2", None)];
    assert!(solutions(&Conclusion::Healthy, &layers).is_empty());
    assert!(solutions(&Conclusion::WeirdHealthy, &layers).is_empty());
    assert!(solutions(&Conclusion::Hopeless, &layers).is_empty());
    assert!(solutions(&Conclusion::Partial { supported_versions: vec![1] }, &layers).is_empty());
    let weird = Conclusion::WeirdBroken { important_layer: "l2".to_string(), exclude: false };
    assert_eq!(described(&solutions(&weird, &layers)), vec![("l2".to_string(), false)]);
    let broken = Conclusion::BrokenLayer { layer: "l1".to_string() };
    assert_eq!(described(&solutions(&broken, &layers)), vec![("l1".to_string(), true)]);
    let partly = Conclusion::PartiallyBrokenLayer { layer: "l2".to_string(), broken_versions: vec![] };
    assert_eq!(described(&solutions(&partly, &layers)), vec![("l2".to_string(), true)]);
    let sym = Conclusion::SymmetricConflict { layers: strings(&["l2", "l1"]) };
    assert_eq!(
        described(&solutions(&sym, &layers)),
        vec![("l2".to_string(), true), ("l1".to_string(), true)]
    );
    let asym = Conclusion::AsymmetricConflict { main_offender: "l1".to_string() };
    assert_eq!(described(&solutions(&asym, &layers)), vec![("l1".to_string(), true)]);
    assert_eq!(
        described(&solutions(&Conclusion::ComplexConflict, &layers)),
        vec![("l1".to_string(), false), ("l2".to_string(), false)]
    );
}

#[test]
fn layers_to_disable_for_exclude_and_keep_only() {
    let layers = vec![layer("l1", "D1", None), layer("l2", "D2", None), layer("l3", "D3", None)];
    let only = Solution { layer: "l2".to_string(), exclude: true };
    assert_eq!(layers_to_disable(&only, &layers), Some(vec![1]));
    let keep = Solution { layer: "l2".to_string(), exclude: false };
    assert_eq!(layers_to_disable(&keep, &layers), Some(vec![0, 2]));
    let unknown = Solution { layer: "l9".to_string(), exclude: true };
    assert_eq!(layers_to_disable(&unknown, &layers), None);
}

#[test]
fn single_layer_settings_become_a_layer() {
    let mut layers = Vec::new();
    let mut errors = Vec::new();
    extract_single_layer_settings(
        &settings("VK_LAYER_LUNARG_overlay", &["DISABLE_LAYER_OVERLAY_1"], Some(&["ENABLE_LAYER_OVERLAY_1"])),
        "./single-layer.json",
        ImplicitRegistry::LocalMachine,
        &mut layers,
        &mut errors,
    );
    assert_eq!(Vec::<String>::new(), errors);
    assert_eq!(vec![ImplicitLayer {
        settings_path: "./single-layer.json".to_string(),
        registry: ImplicitRegistry::LocalMachine,
        name: "VK_LAYER_LUNARG_overlay".to_string(),
        description: "LunarG HUD layer".to_string(),
        disable_environment: "DISABLE_LAYER_OVERLAY_1".to_string(),
        enable_environment: Some("ENABLE_LAYER_OVERLAY_1".to_string()),
    }], layers);
}

#[test]
fn layer_without_disable_variable_is_a_warning() {
    let mut layers = vec![layer("kept", "K", None)];
    let mut errors = vec!["earlier".to_string()];
    extract_single_layer_settings(
        &settings("x", &[], None),
        "/m.json",
        ImplicitRegistry::CurrentUser,
        &mut layers,
        &mut errors,
    );
    assert_eq!(layers.len(), 1);
    assert_eq!(errors, strings(&["earlier", "Layer /m.json has empty disable_environment"]));
}

#[test]
fn manifest_with_single_and_listed_layers() {
    let root = RootLayerSettings {
        layer: Some(settings("first", &["D0"], Some(&[]))),
        layers: Some(vec![
            settings("second", &["D1", "D1b"], None),
            settings("broken", &[], None),
            settings("third", &["D3"], Some(&["E3"])),
        ]),
    };
    let mut layers = Vec::new();
    let mut errors = Vec::new();
    extract_layer_settings(&root, "./multiple-layers.json", ImplicitRegistry::CurrentUser, &mut layers, &mut errors);
    let names: Vec<&str> = layers.iter().map(|l| l.name.as_str()).collect();
    assert_eq!(names, vec!["first", "second", "third"]);
    assert_eq!(layers[0].enable_environment, None);
    assert_eq!(layers[1].disable_environment, "D1");
    assert_eq!(layers[2].enable_environment, Some("E3".to_string()));
    assert_eq!(layers[2].settings_path, "./multiple-layers.json");
    assert_eq!(errors, strings(&["Layer ./multiple-layers.json has empty disable_environment"]));
}

#[test]
fn empty_manifest_declares_nothing() {
    let root = RootLayerSettings { layer: None, layers: None };
    let mut layers = Vec::new();
    let mut errors = Vec::new();
    extract_layer_settings(&root, "/e.json", ImplicitRegistry::CurrentUser, &mut layers, &mut errors);
    assert!(layers.is_empty());
    assert!(errors.is_empty());
}

#[test]
fn enumerations_are_joined_user_first() {
    let user = Ok(vec![layer("u", "DU", None)]);
    let machine = Ok(vec![layer("m1", "D1", None), layer("m2", "D2", None)]);
    let (layers, errors) = implicit_layers_from(user, machine, strings(&["parse"]));
    let names: Vec<&str> = layers.iter().map(|l| l.name.as_str()).collect();
    assert_eq!(names, vec!["u", "m1", "m2"]);
    assert_eq!(errors, strings(&["parse"]));
    let (layers, errors) = implicit_layers_from(
        Err("no user key".to_string()),
        Err("no machine key".to_string()),
        Vec::new(),
    );
    assert!(layers.is_empty());
    assert_eq!(errors, strings(&["no user key", "no machine key"]));
}

#[test]
fn environment_variables_keep_failures_as_messages() {
    let env = environment_variables(Ok(strings(&["A", "B"])), Err("denied".to_string()));
    assert_eq!(env.user, strings(&["A", "B"]));
    assert!(env.system.is_empty());
    assert_eq!(env.errors, strings(&["denied"]));
}

#[test]
fn enabled_layers_depend_on_their_variables() {
    let plain = layer("p", "DP", None);
    let gated = layer("g", "DG", Some("EG"));
    assert!(is_enabled(&plain, &Vec::new()));
    assert!(!is_enabled(&plain, &strings(&["DP"])));
    assert!(!is_enabled(&gated, &Vec::new()));
    assert!(is_enabled(&gated, &strings(&["X", "EG"])));
    assert!(!is_enabled(&gated, &strings(&["EG", "DG"])));
}

#[test]
fn layer_status_notes() {
    let env = EnvironmentVariables {
        user: strings(&["DG"]),
        system: strings(&["DP"]),
        errors: Vec::new(),
    };
    let gated = layer_status(&layer("g", "DG", Some("EG")), &env);
    assert!(gated.disabled_for_user);
    assert!(gated.not_enabled_by_default);
    assert!(!gated.disabled_system_wide);
    let plain = layer_status(&layer("p", "DP", None), &env);
    assert!(!plain.disabled_for_user);
    assert!(!plain.not_enabled_by_default);
    assert!(plain.disabled_system_wide);
}

#[test]
fn manual_order_puts_gated_layers_last() {
    let layers = vec![
        layer("g1", "D1", Some("E1")),
        layer("p1", "D2", None),
        layer("g2", "D3", Some("E3")),
        layer("p2", "D4", None),
    ];
    assert_eq!(manual_order(&layers), vec![1, 3, 0, 2]);
}

#[test]
fn probe_request_needs_mode_and_number() {
    let args = |items: &[&str]| strings(items);
    assert_eq!(PROBE_MODE, "test-app");
    assert_eq!(probe_request(&args(&["exe", "test-app", "4202496"])), Some(4202496));
    assert_eq!(probe_request(&args(&["exe", "test-app", "+7"])), Some(7));
    assert_eq!(probe_request(&args(&["exe", "test-app", "-7"])), None);
    assert_eq!(probe_request(&args(&["exe", "test-app", "4294967296"])), None);
    assert_eq!(probe_request(&args(&["exe", "test-app", ""])), None);
    assert_eq!(probe_request(&args(&["exe", "other", "1"])), None);
    assert_eq!(probe_request(&args(&["exe", "test-app"])), None);
    assert_eq!(probe_request(&args(&["exe", "test-app", "1", "2"])), None);
}

#[test]
fn probe_failures_have_distinct_codes() {
    assert_eq!(ProbeFailure::LoadEntry.exit_code(), -21023);
    assert_eq!(ProbeFailure::CreateInstance.exit_code(), -21024);
    assert_eq!(ProbeFailure::EnumerateDevices.exit_code(), -21025);
    assert_eq!(ProbeFailure::CreateDevice.exit_code(), -21026);
}
