use vstd::prelude::*;

verus! {

/// Relies on ash's `vk::make_api_version`, which packs the four parts of a
/// Vulkan API version into one word by shifting and or-ing them.
pub assume_specification[ ash::vk::make_api_version ](
    variant: u32,
    major: u32,
    minor: u32,
    patch: u32,
) -> (r: u32)
    ensures
        r == ((variant << 29u32) | (major << 22u32) | (minor << 12u32) | patch),
;

/// Number of API levels every trial is run at.
pub const LEVEL_COUNT: usize = 4;

/// The packed API version of level `level` (Vulkan 1.`level`).
pub open spec fn level_version(level: int) -> u32 {
    (4194304 + 4096 * level) as u32
}

/// The level whose packed API version is `version`, or -1 for any other word.
pub open spec fn level_of(version: u32) -> int {
    if version == level_version(0) {
        0
    } else if version == level_version(1) {
        1
    } else if version == level_version(2) {
        2
    } else if version == level_version(3) {
        3
    } else {
        -1
    }
}

/// The packed API version probed at level `level`: Vulkan 1.0, 1.1, 1.2 and 1.3.
pub fn level_api_version(level: usize) -> (r: u32)
    requires
        level < LEVEL_COUNT,
    ensures
        r == level_version(level as int),
        level_of(r) == level,
{
    let minor = level as u32;
    let r = ash::vk::make_api_version(0, 1, minor, 0);
    assert(((0u32 << 29u32) | (1u32 << 22u32) | (minor << 12u32) | 0u32) == 4194304u32 + 4096u32
        * minor) by (bit_vector)
        requires
            minor < 4u32,
    ;
    r
}

/// Where an implicit layer is registered.
#[derive(Debug, Clone, Copy, PartialEq, Eq, Structural)]
pub enum ImplicitRegistry {
    CurrentUser,
    LocalMachine,
}

/// One implicit layer, as read from its manifest.
#[derive(Debug, Clone, Eq)]
pub struct ImplicitLayer {
    /// Path of the manifest file that declares the layer.
    pub settings_path: String,
    pub registry: ImplicitRegistry,
    /// Display name; it identifies the layer throughout a diagnosis.
    pub name: String,
    pub description: String,
    /// Environment variable whose presence keeps the layer inactive.
    pub disable_environment: String,
    /// Environment variable whose presence activates the layer, if it needs one.
    pub enable_environment: Option<String>,
}

/// The model of a layer record: its texts as character sequences.
pub struct LayerView {
    pub settings_path: Seq<char>,
    pub registry: ImplicitRegistry,
    pub name: Seq<char>,
    pub description: Seq<char>,
    pub disable_environment: Seq<char>,
    pub enable_environment: Option<Seq<char>>,
}

impl View for ImplicitLayer {
    type V = LayerView;

    open spec fn view(&self) -> LayerView {
        LayerView {
            settings_path: self.settings_path@,
            registry: self.registry,
            name: self.name@,
            description: self.description@,
            disable_environment: self.disable_environment@,
            enable_environment: match self.enable_environment {
                Some(key) => Some(key@),
                None => None,
            },
        }
    }
}

/// Whether two layer records agree on every field.
pub open spec fn same_layer(a: ImplicitLayer, b: ImplicitLayer) -> bool {
    a@ == b@
}

impl PartialEq for ImplicitLayer {
    fn eq(&self, other: &ImplicitLayer) -> (r: bool) {
        let same_enable = match (&self.enable_environment, &other.enable_environment) {
            (Some(x), Some(y)) => *x == *y,
            (None, None) => true,
            _ => false,
        };
        self.settings_path == other.settings_path && self.registry == other.registry && self.name
            == other.name && self.description == other.description && self.disable_environment
            == other.disable_environment && same_enable
    }
}

impl vstd::std_specs::cmp::PartialEqSpecImpl for ImplicitLayer {
    open spec fn obeys_eq_spec() -> bool {
        true
    }

    open spec fn eq_spec(&self, other: &ImplicitLayer) -> bool {
        same_layer(*self, *other)
    }
}

/// The outcome of one probe process.
#[derive(Debug, Clone, PartialEq, Eq, Default)]
pub struct TrialResult {
    pub exit_code: i32,
    pub output: String,
}

impl TrialResult {
    pub open spec fn succeeded_spec(&self) -> bool {
        self.exit_code == 0
    }
}

/// The outcomes of one trial at each of the four API levels.
#[derive(Debug, Clone, PartialEq, Eq, Default)]
pub struct VersionedTrialResults {
    pub vk10: TrialResult,
    pub vk11: TrialResult,
    pub vk12: TrialResult,
    pub vk13: TrialResult,
}

impl VersionedTrialResults {
    /// The outcome at level `level`.
    pub open spec fn at(&self, level: int) -> TrialResult {
        if level == 0 {
            self.vk10
        } else if level == 1 {
            self.vk11
        } else if level == 2 {
            self.vk12
        } else {
            self.vk13
        }
    }

    /// Whether the probe succeeded at level `level`.
    pub open spec fn ok(&self, level: int) -> bool {
        self.at(level).exit_code == 0
    }

    pub open spec fn all_ok(&self) -> bool {
        self.ok(0) && self.ok(1) && self.ok(2) && self.ok(3)
    }

    pub open spec fn all_bad(&self) -> bool {
        !self.ok(0) && !self.ok(1) && !self.ok(2) && !self.ok(3)
    }

    /// Whether every level succeeded whose API version is not in `ignored`.
    pub open spec fn ok_ignoring(&self, ignored: Seq<u32>) -> bool {
        forall|level: int|
            0 <= level < 4 && !ignored.contains(level_version(level)) ==> #[trigger] self.ok(level)
    }

    pub fn all_succeeded(&self) -> (r: bool)
        ensures
            r == self.all_ok(),
    {
        self.vk10.exit_code == 0 && self.vk11.exit_code == 0 && self.vk12.exit_code == 0
            && self.vk13.exit_code == 0
    }

    pub fn all_failed(&self) -> (r: bool)
        ensures
            r == self.all_bad(),
    {
        self.vk10.exit_code != 0 && self.vk11.exit_code != 0 && self.vk12.exit_code != 0
            && self.vk13.exit_code != 0
    }

    /// Whether the probe succeeded at the level probed with `api_version`.
    pub fn succeeded(&self, api_version: u32) -> (r: bool)
        requires
            level_of(api_version) >= 0,
        ensures
            r == self.ok(level_of(api_version)),
    {
        if api_version == level_api_version(0) {
            self.vk10.exit_code == 0
        } else if api_version == level_api_version(1) {
            self.vk11.exit_code == 0
        } else if api_version == level_api_version(2) {
            self.vk12.exit_code == 0
        } else {
            self.vk13.exit_code == 0
        }
    }

    /// Whether the probe succeeded at every level whose API version is not in
    /// `ignored_api_versions`.
    pub fn succeeded_except(&self, ignored_api_versions: &[u32]) -> (r: bool)
        ensures
            r == self.ok_ignoring(ignored_api_versions@),
    {
        let mut level: usize = 0;
        while level < LEVEL_COUNT
            invariant
                level <= LEVEL_COUNT,
                forall|l: int|
                    0 <= l < level && !ignored_api_versions@.contains(level_version(l))
                        ==> #[trigger] self.ok(l),
            decreases LEVEL_COUNT - level,
        {
            let version = level_api_version(level);
            if !self.succeeded(version) && !contains_version(ignored_api_versions, version) {
                return false;
            }
            level += 1;
        }
        true
    }
}

/// Whether `versions` holds `version`.
pub fn contains_version(versions: &[u32], version: u32) -> (r: bool)
    ensures
        r == versions@.contains(version),
{
    let mut i: usize = 0;
    while i < versions.len()
        invariant
            i <= versions.len(),
            forall|j: int| 0 <= j < i ==> versions@[j] != version,
        decreases versions.len() - i,
    {
        if versions[i] == version {
            return true;
        }
        i += 1;
    }
    false
}

/// The full matrix of trial outcomes of one diagnosis run.
#[derive(Debug, Clone, PartialEq, Eq, Default)]
pub struct TestResults {
    /// The result of running the probe without disabling any implicit layer.
    pub default_result: VersionedTrialResults,
    /// The result of running the probe with every implicit layer disabled.
    pub clean_result: VersionedTrialResults,
    /// One entry per layer, in layer order: the result with only that layer disabled.
    pub exclude_results: Vec<(String, VersionedTrialResults)>,
    /// One entry per layer, in layer order: the result with every other layer disabled.
    pub isolation_results: Vec<(String, VersionedTrialResults)>,
}

/// The environment variables set for the user and for the whole machine.
pub struct EnvironmentVariables {
    pub user: Vec<String>,
    pub system: Vec<String>,
    pub errors: Vec<String>,
}

/// The model of a conclusion: names and versions as plain sequences.
pub enum Diagnosis {
    Healthy,
    WeirdHealthy,
    Hopeless,
    WeirdBroken { important_layer: Seq<char>, exclude: bool },
    Partial { supported_versions: Seq<u32> },
    BrokenLayer { layer: Seq<char> },
    PartiallyBrokenLayer { layer: Seq<char>, broken_versions: Seq<u32> },
    SymmetricConflict { layers: Seq<Seq<char>> },
    AsymmetricConflict { main_offender: Seq<char> },
    ComplexConflict,
}

/// The root cause that a diagnosis run concludes.
#[derive(PartialEq, Eq, Debug, Clone)]
pub enum Conclusion {
    /// All trials succeeded, so the implicit layers are probably fine.
    Healthy,
    /// The default trial (with all implicit layers) succeeded, but not all trials succeeded.
    WeirdHealthy,
    /// All trials failed: the machine appears unable to run any Vulkan application,
    /// but it doesn't seem to be caused by implicit layers.
    Hopeless,
    /// Both the default trial (with all layers) and the clean trial (without any layers) failed,
    /// but not all trials failed.
    WeirdBroken { important_layer: String, exclude: bool },
    /// All trials for some Vulkan version(s) failed, but all others succeeded.
    /// This probably means that the graphics drivers don't support later versions.
    Partial { supported_versions: Vec<u32> },
    /// One of the implicit layers appears to be completely broken (even when all other layers
    /// are disabled).
    BrokenLayer { layer: String },
    /// One of the implicit layers only supports a subset of the Vulkan versions
    /// supported by the graphics drivers.
    PartiallyBrokenLayer { layer: String, broken_versions: Vec<u32> },
    /// Multiple layers are conflicting: the trials succeed when at least 1 of them is disabled.
    SymmetricConflict { layers: Vec<String> },
    /// One layer conflicts with multiple other layers: all trials where both `main_offender` and
    /// another layer were enabled failed. All trials without `main_offender` and with only
    /// `main_offender` succeeded.
    AsymmetricConflict { main_offender: String },
    /// Multiple layers are conflicting with each other. All layers work fine in isolation, but
    /// all trials with more than 1 active layer failed.
    ComplexConflict,
}

impl View for Conclusion {
    type V = Diagnosis;

    open spec fn view(&self) -> Diagnosis {
        match self {
            Conclusion::Healthy => Diagnosis::Healthy,
            Conclusion::WeirdHealthy => Diagnosis::WeirdHealthy,
            Conclusion::Hopeless => Diagnosis::Hopeless,
            Conclusion::WeirdBroken { important_layer, exclude } => Diagnosis::WeirdBroken {
                important_layer: important_layer@,
                exclude: *exclude,
            },
            Conclusion::Partial { supported_versions } => Diagnosis::Partial {
                supported_versions: supported_versions@,
            },
            Conclusion::BrokenLayer { layer } => Diagnosis::BrokenLayer { layer: layer@ },
            Conclusion::PartiallyBrokenLayer { layer, broken_versions } =>
                Diagnosis::PartiallyBrokenLayer { layer: layer@, broken_versions: broken_versions@ },
            Conclusion::SymmetricConflict { layers } => Diagnosis::SymmetricConflict {
                layers: layers@.map_values(|l: String| l@),
            },
            Conclusion::AsymmetricConflict { main_offender } => Diagnosis::AsymmetricConflict {
                main_offender: main_offender@,
            },
            Conclusion::ComplexConflict => Diagnosis::ComplexConflict,
        }
    }
}

/// The screens of the interactive front end, with what each one shows.
#[derive(Eq, PartialEq, Clone, Default)]
pub enum GuiState {
    #[default]
    Initial,
    Manual(bool),
    AutoLayerList,
    AutoResultsTable(TestResults, Vec<ImplicitLayer>),
    AutoConclusion(Conclusion, Vec<ImplicitLayer>, bool),
    AutoFinished(bool),
    AutoFailed(String, bool),
    Exit,
}

} // verus!
