//! Output collector: orders a backend's page files by their captured page
//! number.
//!
//! After a backend has run, its workspace holds output files named by page
//! number, next to the input and possibly intermediate files. Given the
//! directory listing and the backend's numbering pattern, the collector
//! keeps exactly the matching names, orders them ascending by page number
//! (ties by listing position), and fails loudly when nothing matched.

use vstd::prelude::*;
use crate::error::RenderError;
use crate::error::spec_message;
use crate::pattern::NamePattern;
use crate::pattern::capture_page_number;
use crate::pattern::spec_page_number;

verus! {

/// The page number of listing entry `i` under the pattern, if its name
/// matches.
pub open spec fn spec_entry_number(
    names: Seq<Vec<u8>>,
    prefix: Seq<u8>,
    suffix: Seq<u8>,
    i: int,
) -> Option<int> {
    spec_page_number(names[i]@, prefix, suffix)
}

/// The page number of listing entry `i`, for entries known to match.
pub open spec fn spec_entry_num_val(
    names: Seq<Vec<u8>>,
    prefix: Seq<u8>,
    suffix: Seq<u8>,
    i: int,
) -> int {
    match spec_entry_number(names, prefix, suffix, i) {
        Option::Some(n) => n,
        Option::None => -1,
    }
}

/// The strict order in which collected entries are returned: ascending page
/// number, ties broken by listing position.
pub open spec fn spec_entry_lt(n1: int, i1: int, n2: int, i2: int) -> bool {
    n1 < n2 || (n1 == n2 && i1 < i2)
}

/// What a collection plan is: exactly the listing positions whose names
/// match the pattern, each exactly once, ordered by `spec_entry_lt` over
/// (page number, listing position).
pub open spec fn spec_is_collection_plan(
    names: Seq<Vec<u8>>,
    prefix: Seq<u8>,
    suffix: Seq<u8>,
    plan: Seq<usize>,
) -> bool {
    &&& forall|a: int|
        0 <= a < plan.len() ==> (#[trigger] plan[a]) < names.len() && spec_entry_number(
            names,
            prefix,
            suffix,
            plan[a] as int,
        ) is Some
    &&& forall|t: int|
        0 <= t < names.len() && spec_entry_number(names, prefix, suffix, t) is Some
            ==> plan.contains(t as usize)
    &&& forall|a: int, b: int|
        #![trigger plan[a], plan[b]]
        0 <= a < b < plan.len() ==> spec_entry_lt(
            spec_entry_num_val(names, prefix, suffix, plan[a] as int),
            plan[a] as int,
            spec_entry_num_val(names, prefix, suffix, plan[b] as int),
            plan[b] as int,
        )
}

/// Order the output files of one render call.
///
/// `names` is the directory listing of the call's workspace, as raw file
/// name bytes. The result is the positions of the names that match the
/// pattern, ordered ascending by captured page number, ties by listing
/// position; reading the files in that order yields the rendered document.
/// Fails when no name matches: a backend that claims success but produced
/// no recognizable pages has broken its output contract.
pub fn collect_plan(names: &Vec<Vec<u8>>, pat: &NamePattern) -> (r: Result<
    Vec<usize>,
    RenderError,
>)
    ensures
        match r {
            Ok(plan) => plan@.len() > 0 && spec_is_collection_plan(
                names@,
                pat.prefix@,
                pat.suffix@,
                plan@,
            ),
            Err(e) => e is OutputContract && spec_message(e)
                == "no output files matched the expected pattern"@ && forall|t: int|
                0 <= t < names@.len() ==> spec_entry_number(
                    names@,
                    pat.prefix@,
                    pat.suffix@,
                    t,
                ) is None,
        },
{
    let mut pairs: Vec<(u32, usize)> = Vec::new();
    let mut i: usize = 0;
    while i < names.len()
        invariant
            0 <= i <= names@.len(),
            forall|a: int|
                0 <= a < pairs@.len() ==> (#[trigger] pairs@[a]).1 < i && spec_entry_number(
                    names@,
                    pat.prefix@,
                    pat.suffix@,
                    pairs@[a].1 as int,
                ) == Some(pairs@[a].0 as int),
            forall|t: int|
                0 <= t < i && spec_entry_number(names@, pat.prefix@, pat.suffix@, t) is Some
                    ==> exists|a: int| 0 <= a < pairs@.len() && (#[trigger] pairs@[a]).1 == t,
            forall|a: int, b: int|
                #![trigger pairs@[a], pairs@[b]]
                0 <= a < b < pairs@.len() ==> spec_entry_lt(
                    pairs@[a].0 as int,
                    pairs@[a].1 as int,
                    pairs@[b].0 as int,
                    pairs@[b].1 as int,
                ),
        decreases names@.len() - i,
    {
        let num_opt = capture_page_number(names[i].as_slice(), pat);
        match num_opt {
            Some(num) => {
                let ghost old_pairs = pairs@;
                let mut p: usize = 0;
                while p < pairs.len() && pairs[p].0 <= num
                    invariant
                        0 <= p <= pairs@.len(),
                        pairs@ == old_pairs,
                        forall|a: int| 0 <= a < p ==> (#[trigger] pairs@[a]).0 <= num,
                    decreases pairs@.len() - p,
                {
                    p += 1;
                }
                proof {
                    assert(p == old_pairs.len() || old_pairs[p as int].0 > num);
                }
                pairs.insert(p, (num, i));
                proof {
                    old_pairs.insert_ensures(p as int, (num, i));
                    let new = pairs@;
                    assert forall|a: int|
                        0 <= a < new.len() implies (#[trigger] new[a]).1 < i + 1
                        && spec_entry_number(names@, pat.prefix@, pat.suffix@, new[a].1 as int)
                        == Some(new[a].0 as int) by {
                        if a < p {
                            assert(new[a] == old_pairs[a]);
                        } else if a > p {
                            assert(new[a] == old_pairs[a - 1]);
                        }
                    }
                    assert forall|t: int|
                        0 <= t < i + 1 && spec_entry_number(
                            names@,
                            pat.prefix@,
                            pat.suffix@,
                            t,
                        ) is Some implies exists|a: int|
                        0 <= a < new.len() && (#[trigger] new[a]).1 == t by {
                        if t == i {
                            assert(new[p as int].1 == t);
                        } else {
                            let a = choose|a: int|
                                0 <= a < old_pairs.len() && (#[trigger] old_pairs[a]).1 == t;
                            if a < p {
                                assert(new[a].1 == t);
                            } else {
                                assert(new[a + 1] == old_pairs[a]);
                                assert(new[a + 1].1 == t);
                            }
                        }
                    }
                    assert forall|a: int, b: int|
                        #![trigger new[a], new[b]]
                        0 <= a < b < new.len() implies spec_entry_lt(
                        new[a].0 as int,
                        new[a].1 as int,
                        new[b].0 as int,
                        new[b].1 as int,
                    ) by {
                        if a < p && b < p {
                            assert(new[a] == old_pairs[a]);
                            assert(new[b] == old_pairs[b]);
                        } else if a < p && b == p {
                            assert(new[a] == old_pairs[a]);
                            assert(old_pairs[a].0 <= num);
                        } else if a < p && b > p {
                            assert(new[a] == old_pairs[a]);
                            assert(new[b] == old_pairs[b - 1]);
                        } else if a == p && b > p {
                            assert(new[b] == old_pairs[b - 1]);
                            assert(old_pairs[p as int].0 <= old_pairs[b - 1].0);
                        } else {
                            assert(new[a] == old_pairs[a - 1]);
                            assert(new[b] == old_pairs[b - 1]);
                        }
                    }
                }
            },
            None => {},
        }
        i += 1;
    }
    if pairs.len() == 0 {
        return Err(
            RenderError::OutputContract("no output files matched the expected pattern".to_owned()),
        );
    }
    let mut plan: Vec<usize> = Vec::new();
    let mut a: usize = 0;
    while a < pairs.len()
        invariant
            0 <= a <= pairs@.len(),
            plan@.len() == a,
            forall|t: int| 0 <= t < a ==> (#[trigger] plan@[t]) == pairs@[t].1,
        decreases pairs@.len() - a,
    {
        let entry = pairs[a];
        plan.push(entry.1);
        a += 1;
    }
    proof {
        assert forall|t: int|
            0 <= t < names@.len() && spec_entry_number(
                names@,
                pat.prefix@,
                pat.suffix@,
                t,
            ) is Some implies plan@.contains(t as usize) by {
            let q = choose|q: int| 0 <= q < pairs@.len() && (#[trigger] pairs@[q]).1 == t;
            assert(plan@[q] == pairs@[q].1);
        }
    }
    Ok(plan)
}

/// Both plans hold the same positions in the same order, up to position
/// `j` of either.
proof fn lemma_plans_agree(
    names: Seq<Vec<u8>>,
    prefix: Seq<u8>,
    suffix: Seq<u8>,
    plan1: Seq<usize>,
    plan2: Seq<usize>,
    j: int,
)
    requires
        spec_is_collection_plan(names, prefix, suffix, plan1),
        spec_is_collection_plan(names, prefix, suffix, plan2),
        0 <= j <= plan1.len(),
        j <= plan2.len(),
    ensures
        forall|t: int| 0 <= t < j ==> plan1[t] == plan2[t],
    decreases j,
{
    if j > 0 {
        lemma_plans_agree(names, prefix, suffix, plan1, plan2, j - 1);
        let x = plan1[j - 1];
        assert(plan2.contains(x));
        let p = choose|p: int| 0 <= p < plan2.len() && plan2[p] == x;
        if p < j - 1 {
            assert(plan1[p] == plan2[p]);
            assert(false);
        }
        let y = plan2[j - 1];
        assert(plan1.contains(y));
        let q = choose|q: int| 0 <= q < plan1.len() && plan1[q] == y;
        if q < j - 1 {
            assert(plan2[q] == plan1[q]);
            assert(false);
        }
        if p > j - 1 && q > j - 1 {
            assert(spec_entry_lt(
                spec_entry_num_val(names, prefix, suffix, y as int),
                y as int,
                spec_entry_num_val(names, prefix, suffix, x as int),
                x as int,
            ));
            assert(spec_entry_lt(
                spec_entry_num_val(names, prefix, suffix, x as int),
                x as int,
                spec_entry_num_val(names, prefix, suffix, y as int),
                y as int,
            ));
            assert(false);
        }
    }
}

/// Collection is index-stable: a listing has at most one plan under a
/// pattern. Two render calls of the same backend and options whose
/// workspaces list the same output files therefore read their pages in the
/// same order, whatever order the backend wrote them in.
pub proof fn lemma_collection_plan_unique(
    names: Seq<Vec<u8>>,
    prefix: Seq<u8>,
    suffix: Seq<u8>,
    plan1: Seq<usize>,
    plan2: Seq<usize>,
)
    requires
        spec_is_collection_plan(names, prefix, suffix, plan1),
        spec_is_collection_plan(names, prefix, suffix, plan2),
    ensures
        plan1 == plan2,
{
    if plan1.len() <= plan2.len() {
        lemma_plans_agree(names, prefix, suffix, plan1, plan2, plan1.len() as int);
    } else {
        lemma_plans_agree(names, prefix, suffix, plan1, plan2, plan2.len() as int);
    }
    if plan1.len() < plan2.len() {
        let y = plan2[plan1.len() as int];
        assert(plan1.contains(y));
        let q = choose|q: int| 0 <= q < plan1.len() && plan1[q] == y;
        assert(plan2[q] == plan1[q]);
        assert(false);
    }
    if plan2.len() < plan1.len() {
        let y = plan1[plan2.len() as int];
        assert(plan2.contains(y));
        let q = choose|q: int| 0 <= q < plan2.len() && plan2[q] == y;
        assert(plan1[q] == plan2[q]);
        assert(false);
    }
    assert(plan1 =~= plan2);
}

} // verus!
