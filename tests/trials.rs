use ash::vk;
use vk_fixer::definitions::{
    level_api_version, ImplicitLayer, ImplicitRegistry, TrialResult, VersionedTrialResults,
};
use vk_fixer::logic::{draw_conclusion, try_draw_conclusion};
use vk_fixer::definitions::{Conclusion, TestResults};
use vk_fixer::trials::{
    merge_output, run_all_trials, run_level_trial, trial_result, ProbeOutcome, EXIT_LAUNCH_FAILED,
    EXIT_NO_CODE, EXIT_WAIT_FAILED,
};

fn layer(name: &str, disable: &str) -> ImplicitLayer {
    ImplicitLayer {
        settings_path: format!("/layers/{}.json", name),
        registry: ImplicitRegistry::LocalMachine,
        name: name.to_string(),
        description: format!("{} description", name),
        disable_environment: disable.to_string(),
        enable_environment: None,
    }
}

fn codes(a: i32, b: i32, c: i32, d: i32) -> VersionedTrialResults {
    VersionedTrialResults {
        vk10: TrialResult { exit_code: a, output: String::new() },
        vk11: TrialResult { exit_code: b, output: String::new() },
        vk12: TrialResult { exit_code: c, output: String::new() },
        vk13: TrialResult { exit_code: d, output: String::new() },
    }
}

// The fake probe reports the markers it was given as its output and the
// minor API version as its exit code.
fn fake_spawn(markers: &Vec<String>, version: u32) -> (String, u32) {
    (markers.join(","), version)
}

fn fake_wait(handle: (String, u32)) -> TrialResult {
    TrialResult { exit_code: vk::api_version_minor(handle.1) as i32, output: handle.0 }
}

#[test]
fn level_versions_match_vulkan_constants() {
    assert_eq!(level_api_version(0), vk::API_VERSION_1_0);
    assert_eq!(level_api_version(1), vk::API_VERSION_1_1);
    assert_eq!(level_api_version(2), vk::API_VERSION_1_2);
    assert_eq!(level_api_version(3), vk::API_VERSION_1_3);
    assert_eq!(level_api_version(2), 4202496);
}

#[test]
fn succeeded_reads_the_right_level() {
    let t = codes(0, 5, 0, -1);
    assert!(t.succeeded(vk::API_VERSION_1_0));
    assert!(!t.succeeded(vk::API_VERSION_1_1));
    assert!(t.succeeded(vk::API_VERSION_1_2));
    assert!(!t.succeeded(vk::API_VERSION_1_3));
    assert!(!t.all_succeeded());
    assert!(!t.all_failed());
    assert!(codes(0, 0, 0, 0).all_succeeded());
    assert!(codes(1, 2, 3, 4).all_failed());
}

#[test]
fn succeeded_except_ignores_listed_versions() {
    let t = codes(0, 5, 0, -1);
    assert!(!t.succeeded_except(&[]));
    assert!(!t.succeeded_except(&[vk::API_VERSION_1_1]));
    assert!(t.succeeded_except(&[vk::API_VERSION_1_1, vk::API_VERSION_1_3]));
    assert!(t.succeeded_except(&[vk::API_VERSION_1_3, 17, vk::API_VERSION_1_1]));
}

#[test]
fn merge_output_stdout_only() {
    assert_eq!(merge_output(b"A".to_vec(), Vec::new()), "A");
}

#[test]
fn merge_output_stderr_only() {
    assert_eq!(merge_output(Vec::new(), b"B".to_vec()), "B");
}

#[test]
fn merge_output_both_streams() {
    assert_eq!(merge_output(b"A".to_vec(), b"B".to_vec()), "Astderr: B");
}

#[test]
fn merge_output_nothing_written() {
    assert_eq!(merge_output(Vec::new(), Vec::new()), "");
}

#[test]
fn merge_output_invalid_utf8() {
    assert_eq!(merge_output(vec![0xff, 0xfe], Vec::new()), "Invalid stdout");
    assert_eq!(merge_output(Vec::new(), vec![0xc3]), "Invalid stderr");
    assert_eq!(merge_output("é".as_bytes().to_vec(), vec![0x80]), "éstderr: Invalid stderr");
}

#[test]
fn trial_result_of_each_outcome() {
    let launched = trial_result(ProbeOutcome::LaunchFailed("no such file".to_string()));
    assert_eq!(launched, TrialResult {
        exit_code: EXIT_LAUNCH_FAILED,
        output: "Failed to launch: no such file".to_string()
    });
    assert_eq!(EXIT_LAUNCH_FAILED, -21021);
    let lost = trial_result(ProbeOutcome::WaitFailed("interrupted".to_string()));
    assert_eq!(lost, TrialResult {
        exit_code: EXIT_WAIT_FAILED,
        output: "Failed to get result: interrupted".to_string()
    });
    assert_eq!(EXIT_WAIT_FAILED, -21020);
    let killed = trial_result(ProbeOutcome::Completed {
        exit_code: None,
        stdout: Vec::new(),
        stderr: b"killed".to_vec(),
    });
    assert_eq!(killed, TrialResult { exit_code: EXIT_NO_CODE, output: "killed".to_string() });
    assert_eq!(EXIT_NO_CODE, -21022);
    let done = trial_result(ProbeOutcome::Completed {
        exit_code: Some(3),
        stdout: b"out".to_vec(),
        stderr: b"err".to_vec(),
    });
    assert_eq!(done, TrialResult { exit_code: 3, output: "outstderr: err".to_string() });
}

#[test]
fn level_trial_probes_each_level_once() {
    let markers = vec!["X".to_string(), "Y".to_string()];
    let t = run_level_trial(&markers, &fake_spawn, &fake_wait);
    assert_eq!(t.vk10, TrialResult { exit_code: 0, output: "X,Y".to_string() });
    assert_eq!(t.vk11, TrialResult { exit_code: 1, output: "X,Y".to_string() });
    assert_eq!(t.vk12, TrialResult { exit_code: 2, output: "X,Y".to_string() });
    assert_eq!(t.vk13, TrialResult { exit_code: 3, output: "X,Y".to_string() });
}

#[test]
fn run_all_trials_follows_the_plan() {
    let layers = vec![layer("a", "DA"), layer("b", "DB"), layer("c", "DC")];
    let r = run_all_trials(&layers, fake_spawn, fake_wait);
    assert_eq!(r.default_result.vk12.output, "");
    assert_eq!(r.clean_result.vk10.output, "DA,DB,DC");
    assert_eq!(r.exclude_results.len(), 3);
    assert_eq!(r.isolation_results.len(), 3);
    let names: Vec<&str> = r.exclude_results.iter().map(|e| e.0.as_str()).collect();
    assert_eq!(names, vec!["a", "b", "c"]);
    let names: Vec<&str> = r.isolation_results.iter().map(|e| e.0.as_str()).collect();
    assert_eq!(names, vec!["a", "b", "c"]);
    assert_eq!(r.exclude_results[1].1.vk13.output, "DB");
    assert_eq!(r.exclude_results[1].1.vk13.exit_code, 3);
    assert_eq!(r.isolation_results[0].1.vk11.output, "DB,DC");
    assert_eq!(r.isolation_results[1].1.vk11.output, "DA,DC");
    assert_eq!(r.isolation_results[2].1.vk11.output, "DA,DB");
}

#[test]
fn run_all_trials_without_layers() {
    let calls = std::cell::Cell::new(0);
    let spawn = |markers: &Vec<String>, version: u32| {
        calls.set(calls.get() + 1);
        fake_spawn(markers, version)
    };
    let r = run_all_trials(&[], spawn, fake_wait);
    assert_eq!(calls.get(), 8);
    assert!(r.exclude_results.is_empty());
    assert!(r.isolation_results.is_empty());
    assert_eq!(r.clean_result.vk10.output, "");
}

#[test]
fn run_all_trials_launches_four_per_trial() {
    let calls = std::cell::Cell::new(0);
    let spawn = |markers: &Vec<String>, version: u32| {
        calls.set(calls.get() + 1);
        fake_spawn(markers, version)
    };
    let layers = vec![layer("a", "DA"), layer("b", "DB")];
    let _ = run_all_trials(&layers, spawn, fake_wait);
    assert_eq!(calls.get(), 4 * (2 + 2 * 2));
}

#[test]
fn isolation_drops_every_copy_of_an_identical_layer() {
    let layers = vec![layer("a", "DA"), layer("a", "DA"), layer("b", "DB")];
    let r = run_all_trials(&layers, fake_spawn, fake_wait);
    assert_eq!(r.isolation_results[0].1.vk10.output, "DB");
    assert_eq!(r.isolation_results[2].1.vk10.output, "DA,DA");
}

#[test]
fn partial_when_first_level_missing() {
    let t = || codes(7, 0, 0, 0);
    let results = TestResults {
        default_result: t(),
        clean_result: t(),
        exclude_results: vec![("x".to_string(), t())],
        isolation_results: vec![("x".to_string(), t())],
    };
    assert_eq!(draw_conclusion(&results), Conclusion::Partial {
        supported_versions: vec![vk::API_VERSION_1_1, vk::API_VERSION_1_2, vk::API_VERSION_1_3]
    });
}

#[test]
fn inconclusive_matrix_has_no_conclusion() {
    // Level 0 and level 1 each pass somewhere and fail somewhere, but no
    // trial is healthy at both.
    let results = TestResults {
        default_result: codes(1, 1, 1, 1),
        clean_result: codes(1, 1, 1, 1),
        exclude_results: vec![("x".to_string(), codes(0, 1, 1, 1))],
        isolation_results: vec![("x".to_string(), codes(1, 0, 1, 1))],
    };
    assert_eq!(try_draw_conclusion(&results), None);
}

#[test]
fn try_draw_conclusion_agrees_with_draw_conclusion() {
    let results = TestResults {
        default_result: codes(0, 0, 0, 0),
        clean_result: codes(0, 0, 3, 0),
        exclude_results: vec![("x".to_string(), codes(0, 0, 3, 0))],
        isolation_results: vec![("x".to_string(), codes(0, 0, 0, 0))],
    };
    assert_eq!(try_draw_conclusion(&results), Some(Conclusion::WeirdHealthy));
    assert_eq!(draw_conclusion(&results), Conclusion::WeirdHealthy);
}

#[test]
fn partially_broken_layer_ignores_unsupported_levels() {
    // Level 3 fails everywhere; layer "y" also breaks level 1.
    let results = TestResults {
        default_result: codes(0, 2, 0, 9),
        clean_result: codes(0, 0, 0, 9),
        exclude_results: vec![
            ("x".to_string(), codes(0, 2, 0, 9)),
            ("y".to_string(), codes(0, 0, 0, 9)),
        ],
        isolation_results: vec![
            ("x".to_string(), codes(0, 0, 0, 9)),
            ("y".to_string(), codes(0, 2, 0, 9)),
        ],
    };
    assert_eq!(draw_conclusion(&results), Conclusion::PartiallyBrokenLayer {
        layer: "y".to_string(),
        broken_versions: vec![vk::API_VERSION_1_1],
    });
}

#[test]
fn weird_broken_via_isolation() {
    let results = TestResults {
        default_result: codes(1, 1, 1, 1),
        clean_result: codes(1, 1, 1, 1),
        exclude_results: vec![("x".to_string(), codes(1, 1, 1, 1)), ("y".to_string(), codes(1, 1, 1, 1))],
        isolation_results: vec![("x".to_string(), codes(1, 1, 1, 1)), ("y".to_string(), codes(0, 0, 0, 0))],
    };
    assert_eq!(draw_conclusion(&results), Conclusion::WeirdBroken {
        important_layer: "y".to_string(),
        exclude: false
    });
}

#[test]
fn implicit_layer_equality_compares_every_field() {
    let a = layer("a", "DA");
    let mut b = layer("a", "DA");
    assert!(a == b);
    b.enable_environment = Some("EA".to_string());
    assert!(a != b);
    let mut c = layer("a", "DA");
    c.registry = ImplicitRegistry::CurrentUser;
    assert!(a != c);
}
