//! The event contract and the supported-revisions invariant.

use vstd::laws_eq::obeys_concrete_eq;
use vstd::prelude::*;
use vstd::std_specs::cmp::PartialEqSpec;

use crate::revision::Revision;

verus! {

/// Do two revision-value lists share a value, as executable equality sees
/// values?
///
/// Membership is phrased over `eq_spec`, the specification of the `==`
/// operator, because that operator is how the overlap is detected.
pub open spec fn revision_sets_intersect<V: PartialEq>(a: Seq<V>, b: Seq<V>) -> bool {
    exists|i: int, j: int|
        0 <= i < a.len() && 0 <= j < b.len() && #[trigger] a[i].eq_spec(#[trigger] &b[j])
}

/// Tests whether one of the first `n` elements of `values` equals `x`.
fn contains_within<V: PartialEq>(values: &Vec<V>, n: usize, x: &V) -> (r: bool)
    requires
        n <= values.len(),
        V::obeys_eq_spec(),
    ensures
        r == exists|i: int| 0 <= i < n && values[i].eq_spec(x),
{
    let mut i: usize = 0;
    while i < n
        invariant
            i <= n <= values.len(),
            V::obeys_eq_spec(),
            forall|k: int| 0 <= k < i ==> !values[k].eq_spec(x),
        decreases n - i,
    {
        if values[i] == *x {
            return true;
        }
        i = i + 1;
    }
    false
}

/// Merges the revision values of a type's current shapes with those of its
/// old shapes, detecting authoring mistakes.
///
/// Two different shapes of the same conceptual event must never share a
/// revision value, so the two lists must be disjoint.  On success the
/// result is `new_values` followed by `old_values`; on overlap the
/// offending revision value is returned instead, and it is up to the
/// caller to report the mistake.  Overlap is reported if and only if the
/// lists intersect.
#[verifier::loop_isolation(false)]
pub fn merge_revision_sets<V: PartialEq>(new_values: Vec<V>, old_values: Vec<V>) -> (r: Result<
    Vec<V>,
    V,
>)
    requires
        V::obeys_eq_spec(),
    ensures
        r matches Ok(merged) ==> merged@ == new_values@ + old_values@
            && !revision_sets_intersect(new_values@, old_values@),
        r matches Err(v) ==> revision_sets_intersect(new_values@, old_values@)
            && (exists|j: int| 0 <= j < old_values@.len() && v == old_values@[j])
            && (exists|i: int| 0 <= i < new_values@.len() && new_values@[i].eq_spec(&v)),
{
    let ghost orig_new = new_values@;
    let ghost orig_old = old_values@;
    let new_count: usize = new_values.len();
    let mut merged = new_values;
    let mut rest = old_values;
    while rest.len() > 0
        invariant
            V::obeys_eq_spec(),
            new_count == orig_new.len(),
            rest@.len() <= orig_old.len(),
            merged@ == orig_new + orig_old.take(orig_old.len() - rest@.len()),
            rest@ == orig_old.skip(orig_old.len() - rest@.len()),
            !revision_sets_intersect(orig_new, orig_old.take(orig_old.len() - rest@.len())),
        decreases rest.len(),
    {
        let ghost done = orig_old.len() - rest@.len();
        let v = rest.remove(0);
        proof {
            assert(v == orig_old[done]);
        }
        if contains_within(&merged, new_count, &v) {
            proof {
                let i = choose|i: int| 0 <= i < new_count && merged@[i].eq_spec(&v);
                assert(merged@[i] == orig_new[i]);
                assert(orig_new[i].eq_spec(&orig_old[done]));
                assert(revision_sets_intersect(orig_new, orig_old));
                assert(v == orig_old[done] && 0 <= done < orig_old.len());
            }
            return Err(v);
        }
        proof {
            assert forall|i: int| 0 <= i < orig_new.len() implies !orig_new[i].eq_spec(&v) by {
                assert(merged@[i] == orig_new[i]);
            }
            assert(!revision_sets_intersect(orig_new, orig_old.take(done + 1))) by {
                if revision_sets_intersect(orig_new, orig_old.take(done + 1)) {
                    let (i, j): (int, int) = choose|i: int, j: int|
                        0 <= i < orig_new.len() && 0 <= j < done + 1
                            && #[trigger] orig_new[i].eq_spec(#[trigger] &orig_old.take(done + 1)[j]);
                    if j < done {
                        assert(orig_old.take(done)[j] == orig_old.take(done + 1)[j]);
                        assert(revision_sets_intersect(orig_new, orig_old.take(done)));
                    } else {
                        assert(orig_old.take(done + 1)[j] == v);
                    }
                }
            }
        }
        merged.push(v);
        proof {
            assert(orig_old.take(done + 1) =~= orig_old.take(done).push(orig_old[done]));
            assert(rest@ =~= orig_old.skip(done + 1));
        }
    }
    proof {
        assert(orig_old.take(orig_old.len() as int) =~= orig_old);
    }
    Ok(merged)
}

/// An event that can be committed to an event stream.
pub trait Event: Revision {
    /// An ID type that is used to uniquely identify event streams.
    type StreamId;

    /// A type that holds old revisions that can be converted to `Self`.
    ///
    /// Use [`crate::revision::Empty`] when the event is yet to have any old
    /// revisions.  Wherever conversion is actually performed, this type is
    /// further required to implement [`crate::revision::Convert`] with
    /// `Event = Self`.
    type OldRevision;

    /// Returns the set of all supported revision values: the union of the
    /// revisions defined by `Self` and by [`Event::OldRevision`].
    ///
    /// The two sets are required to be disjoint; a collision is a mistake
    /// in the event schema itself, not a runtime condition, and is detected
    /// here.  An unverified caller that breaks the disjointness requirement
    /// fails loudly and immediately instead of getting a silently merged
    /// set.
    fn supported_revisions() -> (s: Vec<Self::Value>) where
        Self::OldRevision: Revision<Value = Self::Value>
        requires
            obeys_concrete_eq::<Self::Value>(),
            Self::rev_set().disjoint(<Self::OldRevision as Revision>::rev_set()),
        ensures
            s@.to_set() == Self::rev_set().union(<Self::OldRevision as Revision>::rev_set()),
            s@.no_duplicates(),
    {
        proof {
            reveal(vstd::laws_eq::obeys_concrete_eq);
        }
        let new_revisions = Self::revision_set();
        let old_revisions = <Self::OldRevision as Revision>::revision_set();
        let ghost new_seq = new_revisions@;
        let ghost old_seq = old_revisions@;
        match merge_revision_sets(new_revisions, old_revisions) {
            Ok(merged) => {
                proof {
                    lemma_add_to_set(new_seq, old_seq);
                    lemma_disjoint_concat_no_duplicates(new_seq, old_seq);
                }
                merged
            }
            Err(v) => {
                proof {
                    let i = choose|i: int|
                        0 <= i < new_seq.len() && new_seq[i].eq_spec(&v);
                    assert(new_seq[i] == v);
                    assert(new_seq.to_set().contains(v));
                    let j = choose|j: int| 0 <= j < old_seq.len() && v == old_seq[j];
                    assert(old_seq.to_set().contains(v));
                }
                vstd::pervasive::unreached()
            }
        }
    }
}

/// The set of elements of a concatenation is the union of each part's.
proof fn lemma_add_to_set<V>(a: Seq<V>, b: Seq<V>)
    ensures
        (a + b).to_set() == a.to_set().union(b.to_set()),
{
    assert((a + b).to_set() =~= a.to_set().union(b.to_set())) by {
        assert forall|v: V| a.to_set().union(b.to_set()).contains(v) implies (a
            + b).to_set().contains(v) by {
            if a.to_set().contains(v) {
                let i = choose|i: int| 0 <= i < a.len() && a[i] == v;
                assert((a + b)[i] == v);
            } else {
                let i = choose|i: int| 0 <= i < b.len() && b[i] == v;
                assert((a + b)[a.len() + i] == v);
            }
        }
    }
}

/// Concatenating duplicate-free, element-disjoint sequences gives a
/// duplicate-free sequence.
proof fn lemma_disjoint_concat_no_duplicates<V>(a: Seq<V>, b: Seq<V>)
    requires
        a.no_duplicates(),
        b.no_duplicates(),
        a.to_set().disjoint(b.to_set()),
    ensures
        (a + b).no_duplicates(),
{
    assert forall|i: int, j: int|
        0 <= i < (a + b).len() && 0 <= j < (a + b).len() && i != j implies (a + b)[i] != (a
        + b)[j] by {
        if i < a.len() && j >= a.len() {
            assert(a.to_set().contains(a[i]));
            assert(b.to_set().contains(b[j - a.len()]));
        } else if i >= a.len() && j < a.len() {
            assert(a.to_set().contains(a[j]));
            assert(b.to_set().contains(b[i - a.len()]));
        }
    }
}

} // verus!
