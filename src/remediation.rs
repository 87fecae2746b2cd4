use vstd::prelude::*;

use crate::definitions::{Conclusion, Diagnosis, ImplicitLayer};

verus! {

/// One way to resolve a diagnosed problem: disable exactly `layer`
/// (`exclude`), or keep only `layer` active and disable all others.
pub struct Solution {
    pub layer: String,
    pub exclude: bool,
}

impl View for Solution {
    type V = (Seq<char>, bool);

    open spec fn view(&self) -> (Seq<char>, bool) {
        (self.layer@, self.exclude)
    }
}

/// The ways out that a diagnosis offers, given the layers that were tested.
pub open spec fn remedies(d: Diagnosis, layers: Seq<ImplicitLayer>) -> Seq<(Seq<char>, bool)> {
    match d {
        Diagnosis::WeirdBroken { important_layer, exclude } => seq![(important_layer, exclude)],
        Diagnosis::BrokenLayer { layer } => seq![(layer, true)],
        Diagnosis::PartiallyBrokenLayer { layer, .. } => seq![(layer, true)],
        Diagnosis::SymmetricConflict { layers: names } => names.map_values(
            |name: Seq<char>| (name, true),
        ),
        Diagnosis::AsymmetricConflict { main_offender } => seq![(main_offender, true)],
        Diagnosis::ComplexConflict => layers.map_values(|l: ImplicitLayer| (l.name@, false)),
        _ => Seq::empty(),
    }
}

/// The solutions to offer for `conclusion`, in order; `layers` are the layers
/// that the trials ran over.
pub fn solutions(conclusion: &Conclusion, layers: &[ImplicitLayer]) -> (r: Vec<Solution>)
    ensures
        r@.map_values(|s: Solution| s@) == remedies(conclusion@, layers@),
{
    let mut r: Vec<Solution> = Vec::new();
    match conclusion {
        Conclusion::WeirdBroken { important_layer, exclude } => {
            r.push(Solution { layer: important_layer.clone(), exclude: *exclude });
        },
        Conclusion::BrokenLayer { layer } => {
            r.push(Solution { layer: layer.clone(), exclude: true });
        },
        Conclusion::PartiallyBrokenLayer { layer, .. } => {
            r.push(Solution { layer: layer.clone(), exclude: true });
        },
        Conclusion::SymmetricConflict { layers: names } => {
            let mut i: usize = 0;
            while i < names.len()
                invariant
                    i <= names.len(),
                    r@.map_values(|s: Solution| s@) == names@.take(i as int).map_values(
                        |name: String| (name@, true),
                    ),
                decreases names.len() - i,
            {
                let ghost before = r@;
                r.push(Solution { layer: names[i].clone(), exclude: true });
                assert(r@.map_values(|s: Solution| s@) =~= before.map_values(|s: Solution| s@).push(
                    (names@[i as int]@, true),
                ));
                assert(names@.take(i + 1) =~= names@.take(i as int).push(names@[i as int]));
                i += 1;
            }
            assert(names@.take(names.len() as int) =~= names@);
            assert(names@.map_values(|name: String| (name@, true)) =~= names@.map_values(
                |l: String| l@,
            ).map_values(|name: Seq<char>| (name, true)));
        },
        Conclusion::AsymmetricConflict { main_offender } => {
            r.push(Solution { layer: main_offender.clone(), exclude: true });
        },
        Conclusion::ComplexConflict => {
            let mut i: usize = 0;
            while i < layers.len()
                invariant
                    i <= layers.len(),
                    r@.map_values(|s: Solution| s@) == layers@.take(i as int).map_values(
                        |l: ImplicitLayer| (l.name@, false),
                    ),
                decreases layers.len() - i,
            {
                let ghost before = r@;
                r.push(Solution { layer: layers[i].name.clone(), exclude: false });
                assert(r@.map_values(|s: Solution| s@) =~= before.map_values(|s: Solution| s@).push(
                    (layers@[i as int].name@, false),
                ));
                assert(layers@.take(i + 1) =~= layers@.take(i as int).push(layers@[i as int]));
                i += 1;
            }
            assert(layers@.take(layers.len() as int) =~= layers@);
        },
        _ => {},
    }
    proof {
        if r@.len() == 1 {
            assert(r@.map_values(|s: Solution| s@) =~= seq![r@[0]@]);
        }
        if r@.len() == 0 {
            assert(r@.map_values(|s: Solution| s@) =~= Seq::empty());
        }
    }
    r
}

/// The index of the first layer at or after `k` named `name`, or -1 if none is.
pub open spec fn first_named(layers: Seq<ImplicitLayer>, name: Seq<char>, k: int) -> int
    decreases layers.len() - k,
{
    if k < 0 || k >= layers.len() {
        -1
    } else if layers[k].name@ == name {
        k
    } else {
        first_named(layers, name, k + 1)
    }
}

/// In order, the indices among the first `n` layers of those not named `name`.
pub open spec fn indices_not_named(layers: Seq<ImplicitLayer>, name: Seq<char>, n: nat) -> Seq<
    usize,
>
    decreases n,
{
    if n == 0 {
        Seq::empty()
    } else {
        indices_not_named(layers, name, (n - 1) as nat) + if layers[n - 1].name@ == name {
            Seq::empty()
        } else {
            seq![(n - 1) as usize]
        }
    }
}

/// The indices of the layers that applying `solution` disables: the first
/// layer of that name, or every layer of another name; `None` where no layer
/// has that name.
pub open spec fn targets(solution: (Seq<char>, bool), layers: Seq<ImplicitLayer>) -> Option<
    Seq<usize>,
> {
    let found = first_named(layers, solution.0, 0);
    if found < 0 {
        None
    } else if solution.1 {
        Some(seq![found as usize])
    } else {
        Some(indices_not_named(layers, solution.0, layers.len()))
    }
}

/// The index of the first layer named `name`.
fn find_named(layers: &[ImplicitLayer], name: &String) -> (r: Option<usize>)
    ensures
        match r {
            Some(i) => i as int == first_named(layers@, name@, 0),
            None => first_named(layers@, name@, 0) == -1,
        },
{
    let mut i: usize = 0;
    while i < layers.len()
        invariant
            i <= layers.len(),
            first_named(layers@, name@, 0) == first_named(layers@, name@, i as int),
        decreases layers.len() - i,
    {
        if layers[i].name == *name {
            return Some(i);
        }
        i += 1;
    }
    None
}

/// The indices into `layers` of the layers to disable in order to apply
/// `solution`, or `None` where no layer bears the solution's name.
pub fn layers_to_disable(solution: &Solution, layers: &[ImplicitLayer]) -> (r: Option<Vec<usize>>)
    ensures
        match r {
            Some(v) => targets(solution@, layers@) == Some(v@),
            None => targets(solution@, layers@) is None,
        },
{
    let found = find_named(layers, &solution.layer);
    let first = match found {
        Some(index) => index,
        None => {
            return None;
        },
    };
    if solution.exclude {
        return Some(vec![first]);
    }
    let mut others: Vec<usize> = Vec::new();
    let mut j: usize = 0;
    while j < layers.len()
        invariant
            j <= layers.len(),
            others@ == indices_not_named(layers@, solution.layer@, j as nat),
        decreases layers.len() - j,
    {
        if layers[j].name != solution.layer {
            others.push(j);
        }
        j += 1;
    }
    Some(others)
}

} // verus!
