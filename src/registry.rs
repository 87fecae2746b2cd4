use vstd::prelude::*;
use vstd::string::StringExecFns;

use crate::definitions::{EnvironmentVariables, ImplicitLayer, ImplicitRegistry, LayerView};

verus! {

/// One layer as a manifest declares it: the names of its disable variables
/// and, where it has any, of its enable variables.
pub struct LayerSettings {
    pub name: String,
    pub description: String,
    pub disable_environment: Vec<String>,
    pub enable_environment: Option<Vec<String>>,
}

/// A whole manifest: one layer, a list of layers, or both.
pub struct RootLayerSettings {
    pub layer: Option<LayerSettings>,
    pub layers: Option<Vec<LayerSettings>>,
}

/// The views of a list of texts.
pub open spec fn texts(v: Seq<String>) -> Seq<Seq<char>> {
    v.map_values(|s: String| s@)
}

/// The views of a list of layers.
pub open spec fn layer_views(v: Seq<ImplicitLayer>) -> Seq<LayerView> {
    v.map_values(|l: ImplicitLayer| l@)
}

/// The layer that `settings`, read from the manifest at `path`, declares; `None`
/// where it names no disable variable. The first variable named is the one used.
pub open spec fn declared_layer(
    settings: LayerSettings,
    path: Seq<char>,
    registry: ImplicitRegistry,
) -> Option<LayerView> {
    if settings.disable_environment@.len() == 0 {
        None
    } else {
        Some(
            LayerView {
                settings_path: path,
                registry,
                name: settings.name@,
                description: settings.description@,
                disable_environment: settings.disable_environment@[0]@,
                enable_environment: match settings.enable_environment {
                    Some(keys) => if keys@.len() > 0 {
                        Some(keys@[0]@)
                    } else {
                        None
                    },
                    None => None,
                },
            },
        )
    }
}

/// The warning recorded for a manifest at `path` that declares a layer
/// without a disable variable.
pub open spec fn empty_disable_warning(path: Seq<char>) -> Seq<char> {
    "Layer "@ + path + " has empty disable_environment"@
}

/// In order, the layers that `entries` declare.
pub open spec fn declared_layers(
    entries: Seq<LayerSettings>,
    path: Seq<char>,
    registry: ImplicitRegistry,
) -> Seq<LayerView>
    decreases entries.len(),
{
    if entries.len() == 0 {
        Seq::empty()
    } else {
        declared_layers(entries.drop_last(), path, registry) + match declared_layer(
            entries.last(),
            path,
            registry,
        ) {
            Some(layer) => seq![layer],
            None => Seq::empty(),
        }
    }
}

/// In order, the warnings for the entries of `entries` that declare no layer.
pub open spec fn declaration_warnings(entries: Seq<LayerSettings>, path: Seq<char>) -> Seq<
    Seq<char>,
>
    decreases entries.len(),
{
    if entries.len() == 0 {
        Seq::empty()
    } else {
        declaration_warnings(entries.drop_last(), path) + if entries.last().disable_environment@.len()
            == 0 {
            seq![empty_disable_warning(path)]
        } else {
            Seq::empty()
        }
    }
}

/// The single layer entry of a manifest, if it has one.
pub open spec fn single_entry(root: RootLayerSettings) -> Seq<LayerSettings> {
    match root.layer {
        Some(layer) => seq![layer],
        None => Seq::empty(),
    }
}

/// The listed layer entries of a manifest, if it has a list.
pub open spec fn listed_entries(root: RootLayerSettings) -> Seq<LayerSettings> {
    match root.layers {
        Some(layers) => layers@,
        None => Seq::empty(),
    }
}

/// The layer entries of a manifest: its single layer first, then its list.
pub open spec fn manifest_entries(root: RootLayerSettings) -> Seq<LayerSettings> {
    single_entry(root) + listed_entries(root)
}

/// Adds to `dest` the layer that `layer`, read from the manifest at
/// `settings_path`, declares, or to `errors` a warning where it names no
/// disable variable.
pub fn extract_single_layer_settings(
    layer: &LayerSettings,
    settings_path: &str,
    registry: ImplicitRegistry,
    dest: &mut Vec<ImplicitLayer>,
    errors: &mut Vec<String>,
)
    ensures
        layer_views(final(dest)@) == layer_views(old(dest)@) + declared_layers(
            seq![*layer],
            settings_path@,
            registry,
        ),
        texts(final(errors)@) == texts(old(errors)@) + declaration_warnings(
            seq![*layer],
            settings_path@,
        ),
{
    let ghost entries = seq![*layer];
    assert(entries.drop_last() =~= Seq::<LayerSettings>::empty());
    assert(declared_layers(entries.drop_last(), settings_path@, registry) == Seq::<
        LayerView,
    >::empty());
    assert(declaration_warnings(entries.drop_last(), settings_path@) == Seq::<Seq<char>>::empty());
    let ghost old_dest = dest@;
    let ghost old_errors = errors@;
    if layer.disable_environment.len() > 0 {
        let enable_environment = match &layer.enable_environment {
            Some(keys) => if keys.len() > 0 {
                Some(keys[0].clone())
            } else {
                None
            },
            None => None,
        };
        dest.push(
            ImplicitLayer {
                settings_path: String::from_str(settings_path),
                registry,
                name: layer.name.clone(),
                description: layer.description.clone(),
                disable_environment: layer.disable_environment[0].clone(),
                enable_environment,
            },
        );
        assert(layer_views(dest@) =~= layer_views(old_dest) + declared_layers(
            entries,
            settings_path@,
            registry,
        ));
        assert(texts(errors@) =~= texts(old_errors) + declaration_warnings(
            entries,
            settings_path@,
        ));
    } else {
        let mut message = String::from_str("Layer ");
        message.append(settings_path);
        message.append(" has empty disable_environment");
        errors.push(message);
        assert(layer_views(dest@) =~= layer_views(old_dest) + declared_layers(
            entries,
            settings_path@,
            registry,
        ));
        assert(texts(errors@) =~= texts(old_errors) + declaration_warnings(
            entries,
            settings_path@,
        ));
    }
}

proof fn lemma_declared_push(
    entries: Seq<LayerSettings>,
    entry: LayerSettings,
    path: Seq<char>,
    registry: ImplicitRegistry,
)
    ensures
        declared_layers(entries.push(entry), path, registry) == declared_layers(
            entries,
            path,
            registry,
        ) + declared_layers(seq![entry], path, registry),
        declaration_warnings(entries.push(entry), path) == declaration_warnings(entries, path)
            + declaration_warnings(seq![entry], path),
{
    assert(entries.push(entry).drop_last() =~= entries);
    assert(seq![entry].drop_last() =~= Seq::<LayerSettings>::empty());
    assert(declared_layers(Seq::<LayerSettings>::empty(), path, registry) == Seq::<
        LayerView,
    >::empty());
    assert(declaration_warnings(Seq::<LayerSettings>::empty(), path) == Seq::<Seq<char>>::empty());
    assert(declared_layers(seq![entry], path, registry) =~= Seq::<LayerView>::empty()
        + declared_layers(seq![entry], path, registry));
}

/// Adds to `dest`, in manifest order, the layers that the manifest `settings`
/// read from `path` declares, and to `errors` a warning for each entry that
/// names no disable variable.
pub fn extract_layer_settings(
    settings: &RootLayerSettings,
    path: &str,
    registry: ImplicitRegistry,
    dest: &mut Vec<ImplicitLayer>,
    errors: &mut Vec<String>,
)
    ensures
        layer_views(final(dest)@) == layer_views(old(dest)@) + declared_layers(
            manifest_entries(*settings),
            path@,
            registry,
        ),
        texts(final(errors)@) == texts(old(errors)@) + declaration_warnings(
            manifest_entries(*settings),
            path@,
        ),
{
    let ghost old_dest = layer_views(dest@);
    let ghost old_errors = texts(errors@);
    let ghost first = single_entry(*settings);
    assert(declared_layers(Seq::<LayerSettings>::empty(), path@, registry) == Seq::<
        LayerView,
    >::empty());
    assert(declaration_warnings(Seq::<LayerSettings>::empty(), path@) == Seq::<Seq<char>>::empty());
    if let Some(layer) = &settings.layer {
        extract_single_layer_settings(layer, path, registry, dest, errors);
    } else {
        assert(layer_views(dest@) =~= old_dest + declared_layers(first, path@, registry));
        assert(texts(errors@) =~= old_errors + declaration_warnings(first, path@));
    }
    let ghost rest = listed_entries(*settings);
    if let Some(layers) = &settings.layers {
        let mut i: usize = 0;
        assert(first + layers@.take(0) =~= first);
        while i < layers.len()
            invariant
                i <= layers.len(),
                layer_views(dest@) == old_dest + declared_layers(
                    first + layers@.take(i as int),
                    path@,
                    registry,
                ),
                texts(errors@) == old_errors + declaration_warnings(
                    first + layers@.take(i as int),
                    path@,
                ),
            decreases layers.len() - i,
        {
            let ghost done = first + layers@.take(i as int);
            extract_single_layer_settings(&layers[i], path, registry, dest, errors);
            proof {
                lemma_declared_push(done, layers@[i as int], path@, registry);
                assert(done.push(layers@[i as int]) =~= first + layers@.take(i + 1));
                assert(old_dest + declared_layers(done, path@, registry) + declared_layers(
                    seq![layers@[i as int]],
                    path@,
                    registry,
                ) =~= old_dest + declared_layers(done.push(layers@[i as int]), path@, registry));
                assert(old_errors + declaration_warnings(done, path@) + declaration_warnings(
                    seq![layers@[i as int]],
                    path@,
                ) =~= old_errors + declaration_warnings(done.push(layers@[i as int]), path@));
            }
            i += 1;
        }
        assert(layers@.take(layers.len() as int) =~= layers@);
    } else {
        assert(first + rest =~= first);
    }
    assert(manifest_entries(*settings) == first + rest);
}

/// The successful part of an enumeration: its items, or nothing.
pub open spec fn found<T>(r: Result<Vec<T>, String>) -> Seq<T> {
    match r {
        Ok(items) => items@,
        Err(_) => Seq::empty(),
    }
}

/// The failed part of an enumeration: its error message, or nothing.
pub open spec fn failure<T>(r: Result<Vec<T>, String>) -> Seq<Seq<char>> {
    match r {
        Ok(_) => Seq::empty(),
        Err(message) => seq![message@],
    }
}

/// Joins the layers enumerated for the current user and for the machine:
/// the user's layers first, then the machine's; after the `errors` already
/// gathered come the messages of the enumerations that failed, the user's first.
pub fn implicit_layers_from(
    user: Result<Vec<ImplicitLayer>, String>,
    machine: Result<Vec<ImplicitLayer>, String>,
    errors: Vec<String>,
) -> (r: (Vec<ImplicitLayer>, Vec<String>))
    ensures
        r.0@ == found(user) + found(machine),
        texts(r.1@) == texts(errors@) + failure(user) + failure(machine),
{
    let ghost old_errors = texts(errors@);
    let ghost user_view = user;
    let ghost machine_view = machine;
    let mut errors = errors;
    let mut layers: Vec<ImplicitLayer> = Vec::new();
    match user {
        Ok(mut found_layers) => {
            layers.append(&mut found_layers);
        },
        Err(message) => {
            errors.push(message);
        },
    }
    match machine {
        Ok(mut found_layers) => {
            layers.append(&mut found_layers);
        },
        Err(message) => {
            errors.push(message);
        },
    }
    assert(layers@ =~= found(user_view) + found(machine_view));
    assert(texts(errors@) =~= old_errors + failure(user_view) + failure(machine_view));
    (layers, errors)
}

/// Gathers the environment variable names set for the user and for the
/// machine; an enumeration that failed contributes no names and its message.
pub fn environment_variables(
    user: Result<Vec<String>, String>,
    system: Result<Vec<String>, String>,
) -> (r: EnvironmentVariables)
    ensures
        r.user@ == found(user),
        r.system@ == found(system),
        texts(r.errors@) == failure(user) + failure(system),
{
    let ghost user_view = user;
    let ghost system_view = system;
    let mut errors: Vec<String> = Vec::new();
    let user_keys = match user {
        Ok(keys) => keys,
        Err(message) => {
            errors.push(message);
            Vec::new()
        },
    };
    let system_keys = match system {
        Ok(keys) => keys,
        Err(message) => {
            errors.push(message);
            Vec::new()
        },
    };
    assert(user_keys@ =~= found(user_view));
    assert(system_keys@ =~= found(system_view));
    assert(texts(errors@) =~= failure(user_view) + failure(system_view));
    EnvironmentVariables { user: user_keys, system: system_keys, errors }
}

/// Whether `keys` holds the name `key`.
pub fn contains_key(keys: &Vec<String>, key: &String) -> (r: bool)
    ensures
        r == texts(keys@).contains(key@),
{
    let mut i: usize = 0;
    while i < keys.len()
        invariant
            i <= keys.len(),
            forall|j: int| 0 <= j < i ==> keys@[j]@ != key@,
        decreases keys.len() - i,
    {
        if keys[i] == *key {
            assert(texts(keys@)[i as int] == key@);
            return true;
        }
        i += 1;
    }
    assert(!texts(keys@).contains(key@)) by {
        assert forall|j: int| 0 <= j < texts(keys@).len() implies texts(keys@)[j] != key@ by {
            assert(keys@[j]@ != key@);
        }
    }
    false
}

/// Whether a layer is active where exactly the variables named `set_keys`
/// are present: its disable variable is absent, and its enable variable, if
/// it has one, is present.
pub open spec fn layer_active(layer: LayerView, set_keys: Seq<Seq<char>>) -> bool {
    &&& !set_keys.contains(layer.disable_environment)
    &&& match layer.enable_environment {
        Some(key) => set_keys.contains(key),
        None => true,
    }
}

/// Whether `layer` is active where exactly the variables named `set_keys`
/// are present.
pub fn is_enabled(layer: &ImplicitLayer, set_keys: &Vec<String>) -> (r: bool)
    ensures
        r == layer_active(layer@, texts(set_keys@)),
{
    if contains_key(set_keys, &layer.disable_environment) {
        return false;
    }
    match &layer.enable_environment {
        Some(key) => contains_key(set_keys, key),
        None => true,
    }
}

/// What the manual mode shows of one layer.
pub struct LayerStatus {
    /// The layer's disable variable is set for the user.
    pub disabled_for_user: bool,
    /// The layer needs an enable variable that is set neither for the user
    /// nor for the machine, so disabling it has probably no effect.
    pub not_enabled_by_default: bool,
    /// The layer's disable variable is set for the whole machine, so disabling
    /// it has probably no effect.
    pub disabled_system_wide: bool,
}

/// The status of `layer` under the variables `env` lists.
pub fn layer_status(layer: &ImplicitLayer, env: &EnvironmentVariables) -> (r: LayerStatus)
    ensures
        r.disabled_for_user == texts(env.user@).contains(layer.disable_environment@),
        r.not_enabled_by_default == match layer.enable_environment {
            Some(key) => !texts(env.user@).contains(key@) && !texts(env.system@).contains(key@),
            None => false,
        },
        r.disabled_system_wide == texts(env.system@).contains(layer.disable_environment@),
{
    let not_enabled_by_default = match &layer.enable_environment {
        Some(key) => !contains_key(&env.user, key) && !contains_key(&env.system, key),
        None => false,
    };
    LayerStatus {
        disabled_for_user: contains_key(&env.user, &layer.disable_environment),
        not_enabled_by_default,
        disabled_system_wide: contains_key(&env.system, &layer.disable_environment),
    }
}

/// In order, the indices among the first `n` layers of those that have an
/// enable variable (`with_enable`) or that have none (`!with_enable`).
pub open spec fn indices_by_enable(layers: Seq<ImplicitLayer>, with_enable: bool, n: nat) -> Seq<
    usize,
>
    decreases n,
{
    if n == 0 {
        Seq::empty()
    } else {
        indices_by_enable(layers, with_enable, (n - 1) as nat) + if (layers[n
            - 1].enable_environment is Some) == with_enable {
            seq![(n - 1) as usize]
        } else {
            Seq::empty()
        }
    }
}

fn push_indices_by_enable(layers: &[ImplicitLayer], with_enable: bool, order: &mut Vec<usize>)
    ensures
        final(order)@ == old(order)@ + indices_by_enable(layers@, with_enable, layers@.len()),
{
    let ghost start = order@;
    let mut i: usize = 0;
    assert(start =~= start + indices_by_enable(layers@, with_enable, 0));
    while i < layers.len()
        invariant
            i <= layers.len(),
            order@ == start + indices_by_enable(layers@, with_enable, i as nat),
        decreases layers.len() - i,
    {
        if layers[i].enable_environment.is_some() == with_enable {
            order.push(i);
        }
        proof {
            assert(order@ =~= start + indices_by_enable(layers@, with_enable, (i + 1) as nat));
        }
        i += 1;
    }
}

/// The order in which the manual mode lists `layers`, as indices: first the
/// layers without an enable variable, then those with one, each group in
/// the order of `layers`.
pub fn manual_order(layers: &[ImplicitLayer]) -> (r: Vec<usize>)
    ensures
        r@ == indices_by_enable(layers@, false, layers@.len()) + indices_by_enable(
            layers@,
            true,
            layers@.len(),
        ),
{
    let mut order: Vec<usize> = Vec::new();
    push_indices_by_enable(layers, false, &mut order);
    push_indices_by_enable(layers, true, &mut order);
    assert(order@ =~= indices_by_enable(layers@, false, layers@.len()) + indices_by_enable(
        layers@,
        true,
        layers@.len(),
    ));
    order
}

} // verus!
