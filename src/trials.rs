use vstd::prelude::*;

use vstd::string::StringExecFns;
use vstd::utf8::{decode_utf8, valid_utf8};

use crate::definitions::{
    level_api_version, level_version, same_layer, ImplicitLayer, TestResults, TrialResult,
    VersionedTrialResults,
};

verus! {

/// Whether the marker list `markers` holds exactly the variable names `keys`, in order.
pub open spec fn sets_markers(markers: Vec<String>, keys: Seq<Seq<char>>) -> bool {
    markers@.map_values(|m: String| m@) == keys
}

/// Whether `outcome` is what `wait` gave on a probe that `spawn` launched
/// with `markers` at level `level`.
pub open spec fn probed<H, S, W>(
    spawn: S,
    wait: W,
    markers: Vec<String>,
    level: int,
    outcome: TrialResult,
) -> bool where S: Fn(&Vec<String>, u32) -> H, W: Fn(H) -> TrialResult {
    exists|h: H|
        call_ensures(spawn, (&markers, level_version(level)), h) && #[trigger] call_ensures(
            wait,
            (h,),
            outcome,
        )
}

/// Whether each of the four outcomes of `t` comes from its own probe, launched
/// with `markers` at that level.
pub open spec fn trial_of<H, S, W>(
    spawn: S,
    wait: W,
    markers: Vec<String>,
    t: VersionedTrialResults,
) -> bool where S: Fn(&Vec<String>, u32) -> H, W: Fn(H) -> TrialResult {
    &&& probed(spawn, wait, markers, 0, t.vk10)
    &&& probed(spawn, wait, markers, 1, t.vk11)
    &&& probed(spawn, wait, markers, 2, t.vk12)
    &&& probed(spawn, wait, markers, 3, t.vk13)
}

/// Whether `t` is the trial run with exactly the variables `keys` set.
pub open spec fn ran_with<H, S, W>(
    spawn: S,
    wait: W,
    keys: Seq<Seq<char>>,
    t: VersionedTrialResults,
) -> bool where S: Fn(&Vec<String>, u32) -> H, W: Fn(H) -> TrialResult {
    exists|m: Vec<String>| sets_markers(m, keys) && #[trigger] trial_of(spawn, wait, m, t)
}

/// Whether `spawn` and `wait` may be called on any arguments.
pub open spec fn callable<H, S, W>(spawn: S, wait: W) -> bool where
    S: Fn(&Vec<String>, u32) -> H,
    W: Fn(H) -> TrialResult,
 {
    &&& forall|m: &Vec<String>, v: u32| #[trigger] spawn.requires((m, v))
    &&& forall|h: H| #[trigger] wait.requires((h,))
}

/// The disable variables of all `layers`, in order.
pub open spec fn disable_keys(layers: Seq<ImplicitLayer>) -> Seq<Seq<char>> {
    layers.map_values(|l: ImplicitLayer| l.disable_environment@)
}

/// In order, the disable variables of the first `n` layers, leaving out every
/// layer equal to `only`.
pub open spec fn disable_keys_except(layers: Seq<ImplicitLayer>, only: ImplicitLayer, n: nat) -> Seq<
    Seq<char>,
>
    decreases n,
{
    if n == 0 {
        Seq::empty()
    } else {
        disable_keys_except(layers, only, (n - 1) as nat) + if same_layer(layers[n - 1], only) {
            Seq::empty()
        } else {
            seq![layers[n - 1].disable_environment@]
        }
    }
}

/// Runs one trial: launches the probe at each of the four levels with
/// `markers` set, then waits on each of the four.
pub fn run_level_trial<H, S, W>(markers: &Vec<String>, spawn: &S, wait: &W) -> (r:
    VersionedTrialResults) where S: Fn(&Vec<String>, u32) -> H, W: Fn(H) -> TrialResult
    requires
        callable(*spawn, *wait),
    ensures
        trial_of(*spawn, *wait, *markers, r),
{
    let h10 = spawn(markers, level_api_version(0));
    let h11 = spawn(markers, level_api_version(1));
    let h12 = spawn(markers, level_api_version(2));
    let h13 = spawn(markers, level_api_version(3));
    let vk10 = wait(h10);
    let vk11 = wait(h11);
    let vk12 = wait(h12);
    let vk13 = wait(h13);
    VersionedTrialResults { vk10, vk11, vk12, vk13 }
}

/// The disable variables of all `layers`, in order.
fn all_disable_keys(layers: &[ImplicitLayer]) -> (r: Vec<String>)
    ensures
        sets_markers(r, disable_keys(layers@)),
{
    let mut keys: Vec<String> = Vec::new();
    let mut i: usize = 0;
    while i < layers.len()
        invariant
            i <= layers.len(),
            keys@.map_values(|m: String| m@) == disable_keys(layers@.take(i as int)),
        decreases layers.len() - i,
    {
        let ghost before = keys@;
        keys.push(layers[i].disable_environment.clone());
        assert(keys@.map_values(|m: String| m@) =~= before.map_values(|m: String| m@).push(
            layers@[i as int].disable_environment@,
        ));
        assert(layers@.take(i + 1) =~= layers@.take(i as int).push(layers@[i as int]));
        i += 1;
    }
    assert(layers@.take(layers.len() as int) =~= layers@);
    keys
}

/// The disable variables of every layer that differs from `only`, in order.
fn disable_keys_of_others(layers: &[ImplicitLayer], only: &ImplicitLayer) -> (r: Vec<String>)
    ensures
        sets_markers(r, disable_keys_except(layers@, *only, layers@.len())),
{
    let mut keys: Vec<String> = Vec::new();
    let mut i: usize = 0;
    while i < layers.len()
        invariant
            i <= layers.len(),
            keys@.map_values(|m: String| m@) == disable_keys_except(layers@, *only, i as nat),
        decreases layers.len() - i,
    {
        if layers[i] != *only {
            let ghost before = keys@;
            keys.push(layers[i].disable_environment.clone());
            assert(keys@.map_values(|m: String| m@) =~= before.map_values(|m: String| m@).push(
                layers@[i as int].disable_environment@,
            ));
        }
        i += 1;
    }
    keys
}

/// Runs the whole trial plan for `layers`: the default trial with no marker
/// set, the clean trial with every layer disabled, then for each layer in
/// order an exclusion trial that disables only that layer, and an isolation
/// trial that disables every other layer. `spawn` launches one probe with the
/// given variables set at the given API version, and `wait` collects its outcome.
pub fn run_all_trials<H, S, W>(layers: &[ImplicitLayer], spawn: S, wait: W) -> (r: TestResults)
    where S: Fn(&Vec<String>, u32) -> H, W: Fn(H) -> TrialResult
    requires
        callable(spawn, wait),
    ensures
        ran_with(spawn, wait, Seq::empty(), r.default_result),
        ran_with(spawn, wait, disable_keys(layers@), r.clean_result),
        r.exclude_results@.len() == layers@.len(),
        r.isolation_results@.len() == layers@.len(),
        forall|i: int|
            0 <= i < layers@.len() ==> {
                &&& (#[trigger] r.exclude_results@[i]).0@ == layers@[i].name@
                &&& ran_with(
                    spawn,
                    wait,
                    seq![layers@[i].disable_environment@],
                    r.exclude_results@[i].1,
                )
            },
        forall|i: int|
            0 <= i < layers@.len() ==> {
                &&& (#[trigger] r.isolation_results@[i]).0@ == layers@[i].name@
                &&& ran_with(
                    spawn,
                    wait,
                    disable_keys_except(layers@, layers@[i], layers@.len()),
                    r.isolation_results@[i].1,
                )
            },
{
    let no_markers: Vec<String> = Vec::new();
    let default_result = run_level_trial(&no_markers, &spawn, &wait);
    assert(no_markers@.map_values(|m: String| m@) =~= Seq::<Seq<char>>::empty());
    let all_markers = all_disable_keys(layers);
    let clean_result = run_level_trial(&all_markers, &spawn, &wait);
    let mut exclude_results: Vec<(String, VersionedTrialResults)> = Vec::new();
    let mut i: usize = 0;
    while i < layers.len()
        invariant
            callable(spawn, wait),
            i <= layers.len(),
            exclude_results@.len() == i,
            forall|j: int|
                0 <= j < i ==> {
                    &&& (#[trigger] exclude_results@[j]).0@ == layers@[j].name@
                    &&& ran_with(
                        spawn,
                        wait,
                        seq![layers@[j].disable_environment@],
                        exclude_results@[j].1,
                    )
                },
        decreases layers.len() - i,
    {
        let markers = vec![layers[i].disable_environment.clone()];
        assert(markers@.map_values(|m: String| m@) =~= seq![layers@[i as int].disable_environment@]);
        let trial = run_level_trial(&markers, &spawn, &wait);
        exclude_results.push((layers[i].name.clone(), trial));
        i += 1;
    }
    let mut isolation_results: Vec<(String, VersionedTrialResults)> = Vec::new();
    let mut i: usize = 0;
    while i < layers.len()
        invariant
            callable(spawn, wait),
            i <= layers.len(),
            isolation_results@.len() == i,
            forall|j: int|
                0 <= j < i ==> {
                    &&& (#[trigger] isolation_results@[j]).0@ == layers@[j].name@
                    &&& ran_with(
                        spawn,
                        wait,
                        disable_keys_except(layers@, layers@[j], layers@.len()),
                        isolation_results@[j].1,
                    )
                },
        decreases layers.len() - i,
    {
        let markers = disable_keys_of_others(layers, &layers[i]);
        let trial = run_level_trial(&markers, &spawn, &wait);
        isolation_results.push((layers[i].name.clone(), trial));
        i += 1;
    }
    TestResults { default_result, clean_result, exclude_results, isolation_results }
}

/// Exit code recorded when waiting on a probe process failed.
pub const EXIT_WAIT_FAILED: i32 = -21020;

/// Exit code recorded when a probe process could not be launched.
pub const EXIT_LAUNCH_FAILED: i32 = -21021;

/// Exit code recorded when a probe process ended without an exit code.
pub const EXIT_NO_CODE: i32 = -21022;

/// How one probe process ended, as seen by the process that launched it.
pub enum ProbeOutcome {
    /// The process could not be created; the text describes why.
    LaunchFailed(String),
    /// The process was created but could not be joined; the text describes why.
    WaitFailed(String),
    /// The process ran to completion; `exit_code` is `None` where it was
    /// terminated without one.
    Completed { exit_code: Option<i32>, stdout: Vec<u8>, stderr: Vec<u8> },
}

/// The characters that `bytes` encode, or `fallback` where they are not UTF-8.
pub open spec fn text_or(bytes: Seq<u8>, fallback: Seq<char>) -> Seq<char> {
    if valid_utf8(bytes) {
        decode_utf8(bytes)
    } else {
        fallback
    }
}

/// The output recorded for a probe that wrote `stdout` and `stderr`: the one
/// stream that is not empty, both joined by a marker, or nothing.
pub open spec fn merged_output(stdout: Seq<u8>, stderr: Seq<u8>) -> Seq<char> {
    let out = text_or(stdout, "Invalid stdout"@);
    let err = text_or(stderr, "Invalid stderr"@);
    if stdout.len() == 0 && stderr.len() == 0 {
        Seq::empty()
    } else if stderr.len() == 0 {
        out
    } else if stdout.len() == 0 {
        err
    } else {
        out + "stderr: "@ + err
    }
}

/// The result recorded for a probe that ended as `outcome` describes.
pub open spec fn recorded_result(outcome: ProbeOutcome) -> (int, Seq<char>) {
    match outcome {
        ProbeOutcome::LaunchFailed(detail) => (
            EXIT_LAUNCH_FAILED as int,
            "Failed to launch: "@ + detail@,
        ),
        ProbeOutcome::WaitFailed(detail) => (
            EXIT_WAIT_FAILED as int,
            "Failed to get result: "@ + detail@,
        ),
        ProbeOutcome::Completed { exit_code, stdout, stderr } => (
            match exit_code {
                Some(code) => code as int,
                None => EXIT_NO_CODE as int,
            },
            merged_output(stdout@, stderr@),
        ),
    }
}

/// Relies on `String::from_utf8`: it succeeds exactly on valid UTF-8 and then
/// holds the characters that the bytes encode.
#[verifier::external_body]
fn utf8_text(bytes: Vec<u8>) -> (r: Option<String>)
    ensures
        r is Some <==> valid_utf8(bytes@),
        r matches Some(s) ==> s@ == decode_utf8(bytes@),
{
    String::from_utf8(bytes).ok()
}

/// The text that `bytes` encode, or `fallback` where they are not UTF-8.
fn decode_or(bytes: Vec<u8>, fallback: &str) -> (r: String)
    ensures
        r@ == text_or(bytes@, fallback@),
{
    match utf8_text(bytes) {
        Some(text) => text,
        None => String::from_str(fallback),
    }
}

/// Merges what a probe wrote to its two streams into one output text.
pub fn merge_output(stdout: Vec<u8>, stderr: Vec<u8>) -> (r: String)
    ensures
        r@ == merged_output(stdout@, stderr@),
{
    let out_empty = stdout.len() == 0;
    let err_empty = stderr.len() == 0;
    if out_empty && err_empty {
        String::new()
    } else if err_empty {
        decode_or(stdout, "Invalid stdout")
    } else if out_empty {
        decode_or(stderr, "Invalid stderr")
    } else {
        let mut text = decode_or(stdout, "Invalid stdout");
        let err = decode_or(stderr, "Invalid stderr");
        text.append("stderr: ");
        text.append(err.as_str());
        text
    }
}

/// Concatenates `prefix` and `detail`.
fn prefixed(prefix: &str, detail: String) -> (r: String)
    ensures
        r@ == prefix@ + detail@,
{
    let mut text = String::from_str(prefix);
    text.append(detail.as_str());
    text
}

/// The trial result recorded for a probe that ended as `outcome` describes.
pub fn trial_result(outcome: ProbeOutcome) -> (r: TrialResult)
    ensures
        (r.exit_code as int, r.output@) == recorded_result(outcome),
{
    match outcome {
        ProbeOutcome::LaunchFailed(detail) => TrialResult {
            exit_code: EXIT_LAUNCH_FAILED,
            output: prefixed("Failed to launch: ", detail),
        },
        ProbeOutcome::WaitFailed(detail) => TrialResult {
            exit_code: EXIT_WAIT_FAILED,
            output: prefixed("Failed to get result: ", detail),
        },
        ProbeOutcome::Completed { exit_code, stdout, stderr } => TrialResult {
            exit_code: match exit_code {
                Some(code) => code,
                None => EXIT_NO_CODE,
            },
            output: merge_output(stdout, stderr),
        },
    }
}

} // verus!
