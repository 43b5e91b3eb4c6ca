//! The dependency checker: deciding which of a list of external binaries are
//! not resolvable on the current search path, and the search-path lookups the
//! rest of the crate shares.

use vstd::prelude::*;

verus! {

/// Relies on `which::which`: `Ok` exactly when the named binary resolves to
/// an executable on the current search path, carrying its location. The
/// outcome depends on the machine's state at the moment of the call, so
/// nothing further is promised; a location that does not decode as text is
/// treated as unresolvable.
#[verifier::external_body]
pub(crate) fn locate_binary(name: &String) -> (r: Option<String>) {
    match which::which(name.as_str()) {
        Ok(path) => Some(path.to_string_lossy().into_owned()),
        Err(_) => None,
    }
}

/// Relies on std's `Path::canonicalize`: the absolute form of the path with
/// symbolic links resolved, read from the filesystem, so nothing is promised
/// of the result. A failure or a path that does not decode as text becomes
/// `None`.
#[verifier::external_body]
pub(crate) fn canonical_path(path: &String) -> (r: Option<String>) {
    match std::path::Path::new(path.as_str()).canonicalize() {
        Ok(canonical) => Some(canonical.to_string_lossy().into_owned()),
        Err(_) => None,
    }
}

/// The resolved, canonical location of the named binary on the current
/// search path, or `None` when it cannot be found or canonicalized.
pub(crate) fn resolved_location(name: &String) -> Option<String> {
    match locate_binary(name) {
        Some(path) => canonical_path(&path),
        None => None,
    }
}

/// The names the checker reports missing, given which of `names` resolve:
/// the subsequence of `names` whose `present` flag is false. Extra entries of
/// either sequence beyond the other's length are ignored.
pub open spec fn missing_from_spec(names: Seq<Seq<char>>, present: Seq<bool>) -> Seq<Seq<char>>
    decreases names.len(),
{
    if names.len() == 0 || present.len() == 0 {
        Seq::empty()
    } else if present[0] {
        missing_from_spec(names.skip(1), present.skip(1))
    } else {
        seq![names[0]] + missing_from_spec(names.skip(1), present.skip(1))
    }
}

/// Every name the checker reports missing is one of the names it was given.
pub proof fn lemma_missing_from_subset(names: Seq<Seq<char>>, present: Seq<bool>)
    ensures
        forall|i: int|
            0 <= i < missing_from_spec(names, present).len() ==> names.contains(
                #[trigger] missing_from_spec(names, present)[i],
            ),
    decreases names.len(),
{
    if names.len() == 0 || present.len() == 0 {
    } else {
        lemma_missing_from_subset(names.skip(1), present.skip(1));
        assert forall|i: int| 0 <= i < missing_from_spec(names, present).len() implies names
            .contains(#[trigger] missing_from_spec(names, present)[i]) by {
            let rest = missing_from_spec(names.skip(1), present.skip(1));
            if present[0] {
                assert(rest.contains(rest[i]));
                let j = choose|j: int| 0 <= j < names.skip(1).len() && names.skip(1)[j] == rest[i];
                assert(names[j + 1] == rest[i]);
            } else {
                if i == 0 {
                    assert(names[0] == missing_from_spec(names, present)[0]);
                } else {
                    assert(missing_from_spec(names, present)[i] == rest[i - 1]);
                    assert(rest.contains(rest[i - 1]));
                    let j = choose|j: int|
                        0 <= j < names.skip(1).len() && names.skip(1)[j] == rest[i - 1];
                    assert(names[j + 1] == rest[i - 1]);
                }
            }
        }
    }
}

/// The dependency check is a pure function of the names and of which of them
/// resolve: two checks over the same snapshot of the search path agree.
pub proof fn lemma_dependency_check_deterministic(
    names: Seq<Seq<char>>,
    present: Seq<bool>,
    first: Seq<Seq<char>>,
    second: Seq<Seq<char>>,
)
    requires
        first == missing_from_spec(names, present),
        second == missing_from_spec(names, present),
    ensures
        first == second,
{
}

/// The pure core of the dependency checker: keeps, in order, the names whose
/// `present` flag is false, and reports `None` when every flag is set.
pub fn missing_from(names: &Vec<String>, present: &Vec<bool>) -> (r: Option<Vec<String>>)
    requires
        names@.len() == present@.len(),
    ensures
        ({
            let missing = missing_from_spec(names.deep_view(), present@);
            match r {
                None => missing.len() == 0,
                Some(v) => v.deep_view() == missing && missing.len() > 0,
            }
        }),
{
    let ghost all_names = names.deep_view();
    let ghost all_present = present@;
    let mut collected: Vec<String> = Vec::new();
    let mut i: usize = 0;
    proof {
        assert(all_names.skip(0) =~= all_names);
        assert(all_present.skip(0) =~= all_present);
        assert(collected.deep_view() + missing_from_spec(all_names, all_present)
            =~= missing_from_spec(all_names, all_present));
    }
    while i < names.len()
        invariant
            names@.len() == present@.len(),
            all_names == names.deep_view(),
            all_present == present@,
            0 <= i <= names@.len(),
            missing_from_spec(all_names, all_present) == collected.deep_view()
                + missing_from_spec(all_names.skip(i as int), all_present.skip(i as int)),
        decreases names@.len() - i,
    {
        let ghost tail_names = all_names.skip(i as int);
        let ghost tail_present = all_present.skip(i as int);
        let ghost collected_prev = collected.deep_view();
        proof {
            assert(tail_names[0] == all_names[i as int]);
            assert(tail_present[0] == all_present[i as int]);
            assert(tail_names.skip(1) =~= all_names.skip(i + 1));
            assert(tail_present.skip(1) =~= all_present.skip(i + 1));
        }
        if !present[i] {
            collected.push(names[i].clone());
            proof {
                assert(collected.deep_view() =~= collected_prev.push(all_names[i as int]));
                assert(missing_from_spec(tail_names, tail_present) == seq![all_names[i as int]]
                    + missing_from_spec(all_names.skip(i + 1), all_present.skip(i + 1)));
                assert(collected_prev + (seq![all_names[i as int]] + missing_from_spec(
                    all_names.skip(i + 1),
                    all_present.skip(i + 1),
                )) =~= collected_prev.push(all_names[i as int]) + missing_from_spec(
                    all_names.skip(i + 1),
                    all_present.skip(i + 1),
                ));
            }
        } else {
            proof {
                assert(missing_from_spec(tail_names, tail_present) == missing_from_spec(
                    all_names.skip(i + 1),
                    all_present.skip(i + 1),
                ));
            }
        }
        i += 1;
    }
    proof {
        assert(all_names.skip(i as int) =~= Seq::<Seq<char>>::empty());
        assert(missing_from_spec(all_names.skip(i as int), all_present.skip(i as int)).len() == 0);
        assert(collected.deep_view() =~= missing_from_spec(all_names, all_present));
    }
    if collected.len() == 0 {
        proof {
            assert(collected.deep_view().len() == collected@.len());
        }
        None
    } else {
        proof {
            assert(collected.deep_view().len() == collected@.len());
        }
        Some(collected)
    }
}

/// A scan result agrees with the pure checker over the resolvability
/// snapshot `present`: `None` when nothing was missing, otherwise exactly
/// the missing names.
pub open spec fn checker_outcome(
    names: Seq<Seq<char>>,
    present: Seq<bool>,
    r: Option<Vec<String>>,
) -> bool {
    match r {
        None => missing_from_spec(names, present).len() == 0,
        Some(v) => v.deep_view() == missing_from_spec(names, present) && missing_from_spec(
            names,
            present,
        ).len() > 0,
    }
}

/// Scans `names` against the current search path and returns the subsequence
/// not resolvable, or `None` when everything resolved. The result is the
/// pure checker applied to the resolvability the path showed at this call;
/// the path itself may change between two calls.
pub fn missing_among(names: &Vec<String>) -> (r: Option<Vec<String>>)
    ensures
        exists|present: Seq<bool>|
            present.len() == names@.len() && #[trigger] checker_outcome(
                names.deep_view(),
                present,
                r,
            ),
{
    let mut flags: Vec<bool> = Vec::new();
    let mut i: usize = 0;
    while i < names.len()
        invariant
            0 <= i <= names@.len(),
            flags@.len() == i,
        decreases names@.len() - i,
    {
        let found = locate_binary(&names[i]).is_some();
        flags.push(found);
        i += 1;
    }
    let r = missing_from(names, &flags);
    proof {
        assert(flags@.len() == names@.len());
        assert(checker_outcome(names.deep_view(), flags@, r));
    }
    r
}

} // verus!
