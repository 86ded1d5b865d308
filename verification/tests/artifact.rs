use cazan_cli::artifact::failure_warning;
use cazan_cli::artifact::merge;
use cazan_cli::artifact::AssetOutcome;
use serde_json::Value;

fn built(path: &str, content: &[u8], triangles: u64) -> AssetOutcome {
    AssetOutcome::Built {
        path: path.to_string(),
        content: content.to_vec(),
        triangles: Value::from(triangles),
    }
}

fn failed(path: &str, reason: &str) -> AssetOutcome {
    AssetOutcome::Failed { path: path.to_string(), reason: reason.to_string() }
}

const FIRST: &str = "a7937b64b8caa58f03721bb6bacf5c78cb235febe0e70b1b84cd99541461a08e";
const SECOND: &str = "16367aacb67a4a017c8da8ab95682ccb390863780f7114dda0a0e0c55644c7c4";
const THIRD: &str = "b1e99324505bd32da0e1f85dcf5e19a09db0481e8a15f62c41eb320304a8e927";

#[test]
fn merge_of_nothing_is_empty() {
    let (artifact, warnings) = merge(vec![]);
    assert!(artifact.is_empty());
    assert!(warnings.is_empty());
}

#[test]
fn three_files_give_three_entries_keyed_by_digest() {
    let (artifact, warnings) = merge(vec![
        built("a.png", b"first", 1),
        built("b.png", b"second", 2),
        built("c.png", b"third", 3),
    ]);
    assert!(warnings.is_empty());
    assert_eq!(artifact.len(), 3);
    assert_eq!(artifact.get(FIRST), Some(&Value::from(1u64)));
    assert_eq!(artifact.get(SECOND), Some(&Value::from(2u64)));
    assert_eq!(artifact.get(THIRD), Some(&Value::from(3u64)));
}

#[test]
fn any_order_of_completion_gives_the_same_artifact() {
    let orders: [[usize; 3]; 6] =
        [[0, 1, 2], [0, 2, 1], [1, 0, 2], [1, 2, 0], [2, 0, 1], [2, 1, 0]];
    let contents: [&[u8]; 3] = [b"first", b"second", b"third"];
    let (expected, _) = merge(vec![
        built("a.png", b"first", 1),
        built("b.png", b"second", 2),
        built("c.png", b"third", 3),
    ]);
    for order in orders {
        let outcomes = order
            .iter()
            .map(|&i| built(["a.png", "b.png", "c.png"][i], contents[i], i as u64 + 1))
            .collect();
        let (artifact, _) = merge(outcomes);
        assert_eq!(artifact, expected);
        assert_eq!(
            serde_json::to_string(&artifact).unwrap(),
            serde_json::to_string(&expected).unwrap()
        );
    }
}

#[test]
fn same_content_under_two_paths_is_one_entry() {
    let (artifact, _) = merge(vec![built("a.png", b"first", 1), built("copy.png", b"first", 1)]);
    assert_eq!(artifact.len(), 1);
    assert_eq!(artifact.get(FIRST), Some(&Value::from(1u64)));
}

#[test]
fn later_outcome_wins_a_collision() {
    let (artifact, _) = merge(vec![
        built("a.png", b"first", 1),
        built("b.png", b"second", 2),
        built("a.png", b"first", 9),
    ]);
    assert_eq!(artifact.len(), 2);
    assert_eq!(artifact.get(FIRST), Some(&Value::from(9u64)));
    assert_eq!(artifact.get(SECOND), Some(&Value::from(2u64)));
}

#[test]
fn failed_asset_leaves_no_entry_and_one_warning() {
    let (artifact, warnings) = merge(vec![
        built("a.png", b"first", 1),
        failed("broken.png", "unsupported image"),
        built("c.png", b"third", 3),
        failed("flat.png", "degenerate polygon"),
    ]);
    assert_eq!(artifact.len(), 2);
    assert!(artifact.contains_key(FIRST));
    assert!(artifact.contains_key(THIRD));
    assert_eq!(
        warnings,
        vec![
            "Warning `broken.png` could not be built: unsupported image",
            "Warning `flat.png` could not be built: degenerate polygon",
        ]
    );
}

#[test]
fn failure_warning_text() {
    assert_eq!(failure_warning("x.png", "why"), "Warning `x.png` could not be built: why");
    assert_eq!(failure_warning("", ""), "Warning `` could not be built: ");
}

#[test]
fn triangles_are_stored_as_they_are() {
    let triangles = Value::Array(vec![Value::Array(vec![
        Value::from(1u64),
        Value::from(2u64),
        Value::from(3u64),
    ])]);
    let (artifact, _) = merge(vec![AssetOutcome::Built {
        path: "a.png".to_string(),
        content: b"first".to_vec(),
        triangles: triangles.clone(),
    }]);
    assert_eq!(artifact.get(FIRST), Some(&triangles));
}
