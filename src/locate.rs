//! Where the decryption tool is looked for, and which location wins.
use vstd::prelude::*;
use crate::paths::{join, join_path};

verus! {

/// File name of the decryption tool.
pub const TOOL_NAME: &'static str = "logdecrypt";

/// The locations probed for the tool, in order of preference:
/// `<exe_dir>/bin/<tool>`, then `<exe_dir>/<tool>`.
pub open spec fn candidates_of(exe_dir: Seq<char>) -> Seq<Seq<char>> {
    seq![join(join(exe_dir, "bin"@), TOOL_NAME@), join(exe_dir, TOOL_NAME@)]
}

/// The views of a sequence of strings.
pub open spec fn views(v: Seq<String>) -> Seq<Seq<char>> {
    v.map_values(|s: String| s@)
}

/// First index at or after `i` whose flag is set, or the length of `p`.
pub open spec fn first_true_from(p: Seq<bool>, i: int) -> int
    decreases p.len() - i,
{
    if i < 0 || i >= p.len() {
        p.len() as int
    } else if p[i] {
        i
    } else {
        first_true_from(p, i + 1)
    }
}

/// Index of the first location found present, or the number of locations.
pub open spec fn first_present(present: Seq<bool>) -> int {
    first_true_from(present, 0)
}

/// One indented line per probed location.
pub open spec fn probed_lines(cs: Seq<Seq<char>>) -> Seq<char>
    decreases cs.len(),
{
    if cs.len() == 0 {
        Seq::empty()
    } else {
        probed_lines(cs.drop_last()) + "  "@ + cs.last() + "\n"@
    }
}

/// The diagnostic given when no location holds the tool: it lists every
/// probed location and says where to put the tool.
pub open spec fn missing_tool_text(cs: Seq<Seq<char>>) -> Seq<char> {
    "decryption tool not found; looked in:\n"@ + probed_lines(cs)
        + "place the tool at one of these paths"@
}

/// The tool chosen among `candidates`, given which of them exist: the first
/// present one, or the diagnostic that lists them all.
pub open spec fn selection(candidates: Seq<Seq<char>>, present: Seq<bool>) -> Result<
    Seq<char>,
    Seq<char>,
> {
    let k = first_present(present);
    if k < present.len() {
        Ok(candidates[k])
    } else {
        Err(missing_tool_text(candidates))
    }
}

/// With no location present, none is chosen.
pub proof fn lemma_none_present(p: Seq<bool>, i: int)
    requires
        0 <= i <= p.len(),
        forall|j: int| 0 <= j < p.len() ==> !p[j],
    ensures
        first_true_from(p, i) == p.len(),
    decreases p.len() - i,
{
    if i < p.len() {
        lemma_none_present(p, i + 1);
    }
}

/// The locations to probe for the tool, for a program in `exe_dir`.
pub fn tool_candidates(exe_dir: &str) -> (r: Vec<String>)
    ensures
        views(r@) == candidates_of(exe_dir@),
{
    let bin = join_path(exe_dir, "bin");
    let first = join_path(bin.as_str(), TOOL_NAME);
    let second = join_path(exe_dir, TOOL_NAME);
    let r = vec![first, second];
    assert(views(r@) =~= candidates_of(exe_dir@));
    r
}

/// The diagnostic for a tool found nowhere among `candidates`.
pub fn missing_tool_message(candidates: &Vec<String>) -> (r: String)
    ensures
        r@ == missing_tool_text(views(candidates@)),
{
    let mut lines = String::new();
    let mut i: usize = 0;
    assert(views(candidates@.take(0)) =~= Seq::<Seq<char>>::empty());
    while i < candidates.len()
        invariant
            i <= candidates.len(),
            lines@ == probed_lines(views(candidates@.take(i as int))),
        decreases candidates.len() - i,
    {
        let ghost before = views(candidates@.take(i as int));
        lines.append("  ");
        lines.append(candidates[i].as_str());
        lines.append("\n");
        proof {
            let after = views(candidates@.take(i + 1));
            assert(after.drop_last() =~= before);
            assert(after.last() == candidates@[i as int]@);
        }
        i = i + 1;
    }
    assert(candidates@.take(i as int) =~= candidates@);
    let mut r = String::from_str("decryption tool not found; looked in:\n");
    r.append(lines.as_str());
    r.append("place the tool at one of these paths");
    r
}

/// Picks the tool among `candidates` given which of them exist: the first
/// present location wins; with none present the result is the diagnostic
/// that lists every location probed.
pub fn select_tool(candidates: &Vec<String>, present: &Vec<bool>) -> (r: Result<String, String>)
    requires
        candidates.len() == present.len(),
    ensures
        match r {
            Ok(t) => selection(views(candidates@), present@) == Ok::<Seq<char>, Seq<char>>(t@),
            Err(m) => selection(views(candidates@), present@) == Err::<Seq<char>, Seq<char>>(m@),
        },
{
    let mut i: usize = 0;
    while i < present.len()
        invariant
            i <= present.len(),
            candidates.len() == present.len(),
            first_present(present@) == first_true_from(present@, i as int),
        decreases present.len() - i,
    {
        if present[i] {
            let t = candidates[i].clone();
            assert(views(candidates@)[i as int] == t@);
            return Ok(t);
        }
        i = i + 1;
    }
    Err(missing_tool_message(candidates))
}

/// When every location holds the tool, the one under `bin/` is chosen.
pub proof fn bin_location_preferred(exe_dir: Seq<char>, present: Seq<bool>)
    requires
        present.len() == 2,
        present[0],
        present[1],
    ensures
        selection(candidates_of(exe_dir), present) == Ok::<Seq<char>, Seq<char>>(
            join(join(exe_dir, "bin"@), TOOL_NAME@),
        ),
{
}

} // verus!
