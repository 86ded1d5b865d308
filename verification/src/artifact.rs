//! The build artifact: one entry per built asset, keyed by the digest of the
//! asset's content.

use crate::config::checksum;
use crate::config::digest_of;
use serde_json::Value;
use vstd::prelude::*;
use vstd::seq_lib::to_multiset_contains;
use vstd::string::StringExecFns;

verus! {

/// A JSON value of `serde_json`. The library carries such values and never
/// looks inside.
#[verifier::external_type_specification]
#[verifier::external_body]
pub struct ExValue(Value);

/// The JSON object of `serde_json`.
#[verifier::external_type_specification]
#[verifier::external_body]
#[verifier::reject_recursive_types(K)]
#[verifier::reject_recursive_types(V)]
pub struct ExObject<K, V>(serde_json::Map<K, V>);

/// What a JSON object holds: its values by their keys.
pub uninterp spec fn entries(object: serde_json::Map<String, Value>) -> Map<Seq<char>, Value>;

/// `serde_json::Map::new`: an object without entries.
pub assume_specification[ serde_json::Map::<String, Value>::new ]() -> (object: serde_json::Map<String, Value>)
    ensures
        forall|key: Seq<char>| !entries(object).dom().contains(key),
;

/// `serde_json::Map::insert`: the value is stored under the key, in place of
/// the one that was there, which is handed back.
pub assume_specification[ serde_json::Map::<String, Value>::insert ](
    object: &mut serde_json::Map<String, Value>,
    k: String,
    v: Value,
) -> (previous: Option<Value>)
    ensures
        entries(*final(object)) == entries(*old(object)).insert(k@, v),
        previous == if entries(*old(object)).dom().contains(k@) {
            Some(entries(*old(object))[k@])
        } else {
            None::<Value>
        },
;

/// How the build of one asset ended.
#[derive(Debug)]
pub enum AssetOutcome {
    /// The asset was turned into triangles. `content` is what the file held.
    Built { path: String, content: Vec<u8>, triangles: Value },
    /// The asset could not be built; the others are not affected.
    Failed { path: String, reason: String },
}

/// The line that reports an asset that could not be built.
pub open spec fn failure_text(path: Seq<char>, reason: Seq<char>) -> Seq<char> {
    "Warning `"@ + path + "` could not be built: "@ + reason
}

/// The artifact that `outcomes` merge into, taken in order: every built asset
/// is stored under the digest of its content, a later one in place of an
/// earlier one with the same digest. Failed assets leave no entry.
pub open spec fn artifact_of(outcomes: Seq<AssetOutcome>) -> Map<Seq<char>, Value>
    decreases outcomes.len(),
{
    if outcomes.len() == 0 {
        Map::empty()
    } else {
        let earlier = artifact_of(outcomes.drop_last());
        match outcomes.last() {
            AssetOutcome::Built { path, content, triangles } => earlier.insert(
                digest_of(content@),
                triangles,
            ),
            AssetOutcome::Failed { path, reason } => earlier,
        }
    }
}

/// The warnings that `outcomes` give rise to: one per failed asset, in order.
pub open spec fn failures_of(outcomes: Seq<AssetOutcome>) -> Seq<Seq<char>>
    decreases outcomes.len(),
{
    if outcomes.len() == 0 {
        Seq::empty()
    } else {
        let earlier = failures_of(outcomes.drop_last());
        match outcomes.last() {
            AssetOutcome::Built { path, content, triangles } => earlier,
            AssetOutcome::Failed { path, reason } => earlier.push(failure_text(path@, reason@)),
        }
    }
}

/// Whether two built assets with the same digest always carry the same
/// triangles.
pub open spec fn consistent(outcomes: Seq<AssetOutcome>) -> bool {
    forall|i: int, j: int|
        #![trigger outcomes[i], outcomes[j]]
        0 <= i < outcomes.len() && 0 <= j < outcomes.len() && outcomes[i] is Built
            && outcomes[j] is Built && digest_of(outcomes[i]->Built_content@) == digest_of(
            outcomes[j]->Built_content@,
        ) ==> outcomes[i]->triangles == outcomes[j]->triangles
}

/// Builds the line that reports a failed asset.
pub fn failure_warning(path: &str, reason: &str) -> (line: String)
    ensures
        line@ == failure_text(path@, reason@),
{
    let mut line = String::from_str("Warning `");
    line.append(path);
    line.append("` could not be built: ");
    line.append(reason);
    line
}

/// Folds the workers' outcomes into the artifact and the warnings to print.
pub fn merge(outcomes: Vec<AssetOutcome>) -> (merged: (serde_json::Map<String, Value>, Vec<String>))
    ensures
        entries(merged.0) == artifact_of(outcomes@),
        crate::text::texts(merged.1@) == failures_of(outcomes@),
{
    let mut object = serde_json::Map::new();
    let mut warnings: Vec<String> = Vec::new();
    assert(entries(object) =~= artifact_of(outcomes@.take(0)));
    assert(crate::text::texts(warnings@) =~= failures_of(outcomes@.take(0)));
    for outcome in it: outcomes.into_iter()
        invariant
            it.seq() == outcomes@,
            entries(object) == artifact_of(outcomes@.take(it.index() as int)),
            crate::text::texts(warnings@) == failures_of(outcomes@.take(it.index() as int)),
    {
        let ghost done = outcomes@.take(it.index() as int);
        let ghost now = outcomes@.take(it.index() + 1);
        assert(now.drop_last() =~= done);
        assert(now.last() == outcome);
        match outcome {
            AssetOutcome::Built { path, content, triangles } => {
                let key = checksum(content.as_slice());
                object.insert(key, triangles);
            },
            AssetOutcome::Failed { path, reason } => {
                let line = failure_warning(path.as_str(), reason.as_str());
                warnings.push(line);
                assert(crate::text::texts(warnings@) =~= failures_of(done).push(
                    failure_text(path@, reason@),
                ));
            },
        }
    }
    assert(outcomes@.take(outcomes@.len() as int) =~= outcomes@);
    (object, warnings)
}

/// Whether the asset at `index` was built and is stored under `key`.
pub open spec fn stored_under(outcomes: Seq<AssetOutcome>, index: int, key: Seq<char>) -> bool {
    0 <= index < outcomes.len() && outcomes[index] is Built && digest_of(
        outcomes[index]->Built_content@,
    ) == key
}

/// The artifact has an entry for exactly the digests of the built assets, and
/// among consistent outcomes the entry of each built asset holds that asset's
/// triangles.
pub proof fn lemma_artifact_entries(outcomes: Seq<AssetOutcome>)
    ensures
        forall|key: Seq<char>|
            artifact_of(outcomes).dom().contains(key) <==> exists|index: int|
                stored_under(outcomes, index, key),
        consistent(outcomes) ==> forall|index: int, key: Seq<char>|
            stored_under(outcomes, index, key) ==> artifact_of(outcomes)[key]
                == outcomes[index]->triangles,
    decreases outcomes.len(),
{
    if outcomes.len() > 0 {
        let earlier = outcomes.drop_last();
        let last = outcomes.len() - 1;
        lemma_artifact_entries(earlier);
        assert forall|key: Seq<char>|
            artifact_of(outcomes).dom().contains(key) <==> exists|index: int|
                stored_under(outcomes, index, key) by {
            if artifact_of(outcomes).dom().contains(key) {
                if stored_under(outcomes, last, key) {
                } else {
                    assert(artifact_of(earlier).dom().contains(key));
                    let index = choose|index: int| stored_under(earlier, index, key);
                    assert(earlier[index] == outcomes[index]);
                    assert(stored_under(outcomes, index, key));
                }
            }
            if exists|index: int| stored_under(outcomes, index, key) {
                let index = choose|index: int| stored_under(outcomes, index, key);
                if index < last {
                    assert(earlier[index] == outcomes[index]);
                    assert(stored_under(earlier, index, key));
                    assert(artifact_of(earlier).dom().contains(key));
                }
                assert(artifact_of(outcomes).dom().contains(key));
            }
        }
        if consistent(outcomes) {
            assert(consistent(earlier)) by {
                assert forall|i: int, j: int|
                    #![trigger earlier[i], earlier[j]]
                    0 <= i < earlier.len() && 0 <= j < earlier.len() && earlier[i] is Built
                        && earlier[j] is Built && digest_of(earlier[i]->Built_content@)
                        == digest_of(earlier[j]->Built_content@) implies earlier[i]->triangles
                    == earlier[j]->triangles by {
                    assert(earlier[i] == outcomes[i] && earlier[j] == outcomes[j]);
                }
            }
            assert forall|index: int, key: Seq<char>|
                stored_under(outcomes, index, key) implies artifact_of(outcomes)[key]
                == outcomes[index]->triangles by {
                if stored_under(outcomes, last, key) {
                    assert(outcomes[index]->triangles == outcomes[last]->triangles);
                } else {
                    assert(earlier[index] == outcomes[index]);
                    assert(stored_under(earlier, index, key));
                }
            }
        }
    }
}

/// Merge commutativity. Outcomes that are the same up to their order, and in
/// which assets of one digest carry the same triangles, merge into the same
/// artifact: the order in which the workers finish does not show.
pub proof fn lemma_merge_ignores_order(one: Seq<AssetOutcome>, other: Seq<AssetOutcome>)
    requires
        one.to_multiset() == other.to_multiset(),
        consistent(one),
    ensures
        artifact_of(one) == artifact_of(other),
{
    assert forall|outcome: AssetOutcome| one.contains(outcome) <==> other.contains(outcome) by {
        to_multiset_contains(one, outcome);
        to_multiset_contains(other, outcome);
    }
    assert(consistent(other)) by {
        assert forall|i: int, j: int|
            #![trigger other[i], other[j]]
            0 <= i < other.len() && 0 <= j < other.len() && other[i] is Built && other[j] is Built
                && digest_of(other[i]->Built_content@) == digest_of(
                other[j]->Built_content@,
            ) implies other[i]->triangles == other[j]->triangles by {
            assert(other.contains(other[i]) && other.contains(other[j]));
            let a = choose|a: int| 0 <= a < one.len() && one[a] == other[i];
            let b = choose|b: int| 0 <= b < one.len() && one[b] == other[j];
            assert(one[a]->triangles == one[b]->triangles);
        }
    }
    lemma_artifact_entries(one);
    lemma_artifact_entries(other);
    assert forall|key: Seq<char>|
        artifact_of(one).dom().contains(key) implies artifact_of(other).dom().contains(key)
        && artifact_of(one)[key] == artifact_of(other)[key] by {
        let a = choose|a: int| stored_under(one, a, key);
        assert(one.contains(one[a]));
        let b = choose|b: int| 0 <= b < other.len() && other[b] == one[a];
        assert(stored_under(other, b, key));
    }
    assert forall|key: Seq<char>|
        artifact_of(other).dom().contains(key) implies artifact_of(one).dom().contains(key) by {
        let b = choose|b: int| stored_under(other, b, key);
        assert(other.contains(other[b]));
        let a = choose|a: int| 0 <= a < one.len() && one[a] == other[b];
        assert(stored_under(one, a, key));
    }
    assert(artifact_of(one) =~= artifact_of(other));
}

/// No outcome is lost or made up: the artifact's keys are the digests of the
/// built assets, so that assets with pairwise different digests give as many
/// entries as there are built assets among them.
pub proof fn lemma_one_entry_per_digest(outcomes: Seq<AssetOutcome>)
    requires
        forall|i: int| 0 <= i < outcomes.len() ==> outcomes[i] is Built,
        forall|i: int, j: int|
            #![trigger outcomes[i], outcomes[j]]
            0 <= i < j < outcomes.len() ==> digest_of(outcomes[i]->Built_content@) != digest_of(
                outcomes[j]->Built_content@,
            ),
    ensures
        artifact_of(outcomes).dom().finite(),
        artifact_of(outcomes).dom().len() == outcomes.len(),
    decreases outcomes.len(),
{
    if outcomes.len() > 0 {
        let earlier = outcomes.drop_last();
        let last = outcomes.len() - 1;
        assert forall|i: int, j: int|
            #![trigger earlier[i], earlier[j]]
            0 <= i < j < earlier.len() implies digest_of(earlier[i]->Built_content@) != digest_of(
            earlier[j]->Built_content@,
        ) by {
            assert(earlier[i] == outcomes[i] && earlier[j] == outcomes[j]);
        }
        lemma_one_entry_per_digest(earlier);
        lemma_artifact_entries(earlier);
        let key = digest_of(outcomes[last]->Built_content@);
        if artifact_of(earlier).dom().contains(key) {
            let index = choose|index: int| stored_under(earlier, index, key);
            assert(earlier[index] == outcomes[index]);
            assert(false);
        }
    }
}

} // verus!
