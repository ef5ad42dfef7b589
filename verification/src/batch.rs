//! Planning a batch run: the exact list of output files a run produces,
//! one per effect per input file, in catalog order.

use vstd::prelude::*;
use vstd::arithmetic::div_mod::lemma_fundamental_div_mod_converse;
use crate::effects::{catalog, catalog_spec, effect_suffix, suffix_spec, Effect};
use crate::paths::{output_path, output_path_spec};
use crate::stem::{sanitized_name, sanitized_name_spec};

verus! {

/// One planned output: the effect to apply and the path to write it under.
pub struct OutputTask {
    pub effect: Effect,
    pub path: String,
}

/// Whether a planned entry is the right one for the given directory, input
/// name and catalog position.
pub open spec fn task_ok(t: OutputTask, dir: Seq<char>, name: Seq<char>, j: int) -> bool {
    &&& t.effect == catalog_spec()[j]
    &&& t.path@ == output_path_spec(dir, name, suffix_spec(catalog_spec()[j]))
}

/// Plans the outputs for one input file: one task per catalog effect, in
/// catalog order.
pub fn plan_for_file(output_dir: &str, name: &str) -> (r: Vec<OutputTask>)
    ensures
        r@.len() == catalog_spec().len(),
        forall|j: int| 0 <= j < r@.len() ==> task_ok(#[trigger] r@[j], output_dir@, name@, j),
{
    let effects = catalog();
    let mut tasks: Vec<OutputTask> = Vec::new();
    let mut i: usize = 0;
    while i < effects.len()
        invariant
            effects@ == catalog_spec(),
            i <= effects@.len(),
            tasks@.len() == i,
            forall|j: int| 0 <= j < i ==> task_ok(#[trigger] tasks@[j], output_dir@, name@, j),
        decreases effects@.len() - i,
    {
        let e = effects[i];
        let sfx = effect_suffix(&e);
        let path = output_path(output_dir, name, sfx);
        tasks.push(OutputTask { effect: e, path });
        i = i + 1;
    }
    tasks
}

/// Law: a full run plans exactly one output per effect per input file —
/// eighteen per file — and the entry for position `k` carries the effect
/// at catalog position `k % 18` and the path built from the sanitized stem
/// of input file `k / 18`.
pub fn plan_batch(output_dir: &str, input_paths: &Vec<String>) -> (r: Vec<OutputTask>)
    ensures
        r@.len() == 18 * input_paths@.len(),
        forall|k: int| 0 <= k < r@.len() ==> task_ok(
            #[trigger] r@[k],
            output_dir@,
            sanitized_name_spec(input_paths@[k / 18]@),
            k % 18,
        ),
{
    proof {
        assert(catalog_spec().len() == 18);
    }
    let mut all: Vec<OutputTask> = Vec::new();
    let mut f: usize = 0;
    while f < input_paths.len()
        invariant
            f <= input_paths@.len(),
            all@.len() == 18 * f,
            forall|k: int| 0 <= k < all@.len() ==> task_ok(
                #[trigger] all@[k],
                output_dir@,
                sanitized_name_spec(input_paths@[k / 18]@),
                k % 18,
            ),
        decreases input_paths@.len() - f,
    {
        let name = sanitized_name(input_paths[f].as_str());
        let mut tasks = plan_for_file(output_dir, name.as_str());
        let ghost prior = all@;
        let ghost added = tasks@;
        all.append(&mut tasks);
        proof {
            assert forall|k: int| 0 <= k < all@.len() implies task_ok(
                #[trigger] all@[k],
                output_dir@,
                sanitized_name_spec(input_paths@[k / 18]@),
                k % 18,
            ) by {
                if k < prior.len() {
                    assert(all@[k] == prior[k]);
                } else {
                    let j = k - 18 * (f as int);
                    lemma_fundamental_div_mod_converse(k, 18, f as int, j);
                    assert(all@[k] == added[j]);
                    assert(task_ok(added[j], output_dir@, name@, j));
                }
            }
        }
        f = f + 1;
    }
    all
}

/// Law: every transform the batch applies is a pure function of the source
/// pixels, the dimensions and its fixed parameters, so re-running an
/// effect on an unchanged source yields the same buffer.
pub proof fn lemma_effect_rerun_identical(
    e: Effect,
    first: Seq<u8>,
    second: Seq<u8>,
    width: u32,
    height: u32,
)
    requires
        first == second,
    ensures
        crate::effects::effect_pixels_spec(e, first, width, height)
            == crate::effects::effect_pixels_spec(e, second, width, height),
{
}

} // verus!
