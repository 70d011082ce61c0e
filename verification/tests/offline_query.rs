use offline_verify::json::to_json_string;
use offline_verify::offline_query::{OfflineQuery, QueryError};
use offline_verify::state::{Commitment, StatePath, StateRoot};
use snarkvm_console::network::prelude::TestRng;
use snarkvm_console::network::TestnetV0;
use snarkvm_console::program::state_path::test_helpers::sample_global_state_path;
use snarkvm_console::types::Field;
use std::str::FromStr;

const STATE_ROOT: &str = "sr1wjueje6hy86yw9j4lhl7jwvhjxwunw34paj4k3cn2wm5h5r2syfqd83yw4";

fn sample_path(seed: u64) -> String {
    let commitment = Field::<TestnetV0>::from_str(&format!("{seed}field")).unwrap();
    sample_global_state_path::<TestnetV0>(Some(commitment), &mut TestRng::fixed(seed)).unwrap().to_string()
}

fn commitment(text: &str) -> Commitment {
    Commitment::from_string(text).unwrap()
}

#[test]
fn new_store_has_the_root_and_no_path() {
    let query = OfflineQuery::new(STATE_ROOT).unwrap();
    assert_eq!(query.current_state_root().to_string(), STATE_ROOT);
    assert_eq!(query.current_state_root(), StateRoot::from_string(STATE_ROOT).unwrap());
    assert_eq!(query.len(), 0);
    assert!(query.state_path_at(0).is_none());
    assert_eq!(query.get_state_path_for_commitment(&commitment("1field")), Err(QueryError::NotFound));
}

#[test]
fn malformed_root_is_refused() {
    assert!(OfflineQuery::new("").is_err());
    assert!(OfflineQuery::new("sr1").is_err());
    assert!(OfflineQuery::new("1field").is_err());
    // A transaction id has the length of a state root and another prefix.
    assert_eq!(
        OfflineQuery::new("at1jtk8du0xnt5e92v4hxz8ckys22x5s8dwc5y3uejxwrkev7xqny8sh7wz0e").err(),
        Some("Invalid prefix for a bech32m hash: at".to_string())
    );
    // One character changed breaks the checksum.
    let changed = STATE_ROOT.replace("wjueje", "wjuejf");
    assert!(OfflineQuery::new(&changed).is_err());
}

#[test]
fn added_path_is_found() {
    let mut query = OfflineQuery::new(STATE_ROOT).unwrap();
    let path = sample_path(7);
    assert_eq!(query.add_state_path("7field", &path), Ok(()));
    assert_eq!(query.len(), 1);
    let found = query.get_state_path_for_commitment(&commitment("7field")).unwrap();
    assert_eq!(found.to_string(), path);
    assert_eq!(found, StatePath::from_string(&path).unwrap());
    // The root is fixed when the store is made.
    assert_eq!(query.current_state_root().to_string(), STATE_ROOT);
}

#[test]
fn commitment_that_was_not_added_is_not_found() {
    let mut query = OfflineQuery::new(STATE_ROOT).unwrap();
    query.add_state_path("7field", &sample_path(7)).unwrap();
    assert_eq!(query.get_state_path_for_commitment(&commitment("8field")), Err(QueryError::NotFound));
    assert_eq!(QueryError::NotFound.message(), "State path not found for commitment");
}

#[test]
fn later_path_replaces_earlier() {
    let mut query = OfflineQuery::new(STATE_ROOT).unwrap();
    let first = sample_path(7);
    let second = sample_path(8);
    assert_ne!(first, second);
    query.add_state_path("7field", &first).unwrap();
    query.add_state_path("9field", &first).unwrap();
    query.add_state_path("7field", &second).unwrap();
    assert_eq!(query.len(), 2);
    assert_eq!(query.get_state_path_for_commitment(&commitment("7field")).unwrap().to_string(), second);
    assert_eq!(query.get_state_path_for_commitment(&commitment("9field")).unwrap().to_string(), first);
    // The commitment keeps its place in the order.
    let (at_first, path) = query.state_path_at(0).unwrap();
    assert_eq!(at_first.to_string(), "7field");
    assert_eq!(path.to_string(), second);
    let (at_second, path) = query.state_path_at(1).unwrap();
    assert_eq!(at_second.to_string(), "9field");
    assert_eq!(path.to_string(), first);
    assert!(query.state_path_at(2).is_none());
}

#[test]
fn commitments_are_held_in_canonical_form() {
    let mut query = OfflineQuery::new(STATE_ROOT).unwrap();
    let path = sample_path(7);
    query.add_state_path("7_field", &path).unwrap();
    query.add_state_path("1_000field", &path).unwrap();
    assert_eq!(query.len(), 2);
    assert_eq!(query.state_path_at(0).unwrap().0.to_string(), "7field");
    assert_eq!(query.state_path_at(1).unwrap().0.to_string(), "1000field");
    assert!(query.get_state_path_for_commitment(&commitment("7field")).is_ok());
    assert!(query.get_state_path_for_commitment(&commitment("7__field")).is_ok());
    // A leading zero is not accepted by the decoder.
    assert!(query.add_state_path("007field", &path).is_err());
    // The same commitment in another form replaces, it does not add.
    query.add_state_path("7field", &sample_path(8)).unwrap();
    assert_eq!(query.len(), 2);
}

#[test]
fn malformed_commitment_or_path_is_refused_and_changes_nothing() {
    let mut query = OfflineQuery::new(STATE_ROOT).unwrap();
    let path = sample_path(7);
    query.add_state_path("7field", &path).unwrap();
    assert!(query.add_state_path("7", &path).is_err());
    assert!(query.add_state_path("7u64", &path).is_err());
    assert!(query.add_state_path("", &path).is_err());
    assert!(query.add_state_path("8field", "").is_err());
    assert!(query.add_state_path("8field", STATE_ROOT).is_err());
    assert!(query.add_state_path("8field", &path[..path.len() - 1]).is_err());
    // The commitment is read first: its message is the one returned.
    assert_eq!(query.add_state_path("7", "").err(), query.add_state_path("7", &path).err());
    assert_eq!(query.len(), 1);
    assert_eq!(query.get_state_path_for_commitment(&commitment("7field")).unwrap().to_string(), path);
    assert_eq!(query.get_state_path_for_commitment(&commitment("8field")), Err(QueryError::NotFound));
}

#[test]
fn put_state_path_takes_values_that_were_read() {
    let mut query = OfflineQuery::new(STATE_ROOT).unwrap();
    let path = StatePath::from_string(&sample_path(3)).unwrap();
    query.put_state_path(&commitment("3field"), &path);
    assert_eq!(query.get_state_path_for_commitment(&commitment("3field")), Ok(path));
}

const OFFLINE_QUERY: &str =
    r#"{"state_paths":{},"state_root":"sr1wjueje6hy86yw9j4lhl7jwvhjxwunw34paj4k3cn2wm5h5r2syfqd83yw4"}"#;

#[test]
fn test_to_string_and_from_string() {
    let offline_query = OfflineQuery::new(STATE_ROOT).unwrap();
    assert_eq!(offline_query.to_string(), OFFLINE_QUERY);

    let json: serde_json::Value = serde_json::from_str(OFFLINE_QUERY).unwrap();
    let state_root = json["state_root"].as_str().unwrap();
    let offline_query_from_str = OfflineQuery::from_parts(state_root, &Vec::new()).unwrap();
    assert!(offline_query_from_str.same_as(&offline_query));
    assert_eq!(offline_query_from_str.to_string(), offline_query.to_string());
    assert_eq!(offline_query_from_str.current_state_root(), offline_query.current_state_root());
    assert_eq!(offline_query_from_str.len(), 0);
}

#[test]
fn json_form_lists_the_paths_in_their_order() {
    let mut query = OfflineQuery::new(STATE_ROOT).unwrap();
    let first = sample_path(7);
    let second = sample_path(8);
    query.add_state_path("9field", &first).unwrap();
    assert_eq!(
        query.to_string(),
        format!(r#"{{"state_paths":{{"9field":"{first}"}},"state_root":"{STATE_ROOT}"}}"#)
    );
    query.add_state_path("7field", &second).unwrap();
    query.add_state_path("9field", &second).unwrap();
    assert_eq!(
        query.to_string(),
        format!(r#"{{"state_paths":{{"9field":"{second}","7field":"{second}"}},"state_root":"{STATE_ROOT}"}}"#)
    );
    // The text is the JSON that a JSON writer gives for the same object.
    let mut paths = serde_json::Map::new();
    paths.insert("9field".to_string(), serde_json::Value::String(second.clone()));
    paths.insert("7field".to_string(), serde_json::Value::String(second.clone()));
    let mut object = serde_json::Map::new();
    object.insert("state_paths".to_string(), serde_json::Value::Object(paths));
    object.insert("state_root".to_string(), serde_json::Value::String(STATE_ROOT.to_string()));
    assert_eq!(query.to_string(), serde_json::Value::Object(object).to_string());
}

#[test]
fn store_is_built_again_from_its_parts() {
    let mut query = OfflineQuery::new(STATE_ROOT).unwrap();
    query.add_state_path("9field", &sample_path(7)).unwrap();
    query.add_state_path("7field", &sample_path(8)).unwrap();
    let mut parts = Vec::new();
    let mut index = 0;
    while let Some((commitment, state_path)) = query.state_path_at(index) {
        parts.push((commitment.to_string(), state_path.to_string()));
        index += 1;
    }
    assert_eq!(parts.len(), 2);
    let again = OfflineQuery::from_parts(&query.current_state_root().to_string(), &parts).unwrap();
    assert_eq!(again.to_string(), query.to_string());
    assert_eq!(again.len(), 2);
    assert_eq!(again.state_path_at(0), query.state_path_at(0));
    assert_eq!(again.state_path_at(1), query.state_path_at(1));
}

#[test]
fn parts_are_taken_one_after_the_other() {
    let first = sample_path(7);
    let second = sample_path(8);
    // A later part for the same commitment replaces the earlier one.
    let parts = vec![
        ("7field".to_string(), first.clone()),
        ("9field".to_string(), first.clone()),
        ("7_field".to_string(), second.clone()),
    ];
    let query = OfflineQuery::from_parts(STATE_ROOT, &parts).unwrap();
    assert_eq!(query.len(), 2);
    assert_eq!(query.get_state_path_for_commitment(&commitment("7field")).unwrap().to_string(), second);
    // The first text that is refused gives the message: the root before the parts.
    let bad = vec![("7field".to_string(), first.clone()), ("8".to_string(), first.clone())];
    assert_eq!(OfflineQuery::from_parts(STATE_ROOT, &bad).err(), Commitment::from_string("8").err());
    assert_eq!(OfflineQuery::from_parts("", &bad).err(), StateRoot::from_string("").err());
    assert!(OfflineQuery::from_parts("", &Vec::new()).is_err());
}

#[test]
fn stores_are_the_same_whatever_the_order() {
    let first = sample_path(7);
    let second = sample_path(8);
    let mut one = OfflineQuery::new(STATE_ROOT).unwrap();
    one.add_state_path("7field", &first).unwrap();
    one.add_state_path("9field", &second).unwrap();
    let mut other = OfflineQuery::new(STATE_ROOT).unwrap();
    other.add_state_path("9field", &second).unwrap();
    assert!(!one.same_as(&other));
    assert!(!other.same_as(&one));
    other.add_state_path("7field", &first).unwrap();
    assert_ne!(one.to_string(), other.to_string());
    assert!(one.same_as(&other));
    assert!(other.same_as(&one));
    assert!(one.same_as(&one));
    // Another path for a commitment makes the difference.
    other.add_state_path("7field", &second).unwrap();
    assert!(!one.same_as(&other));
    // So does another commitment with the same path.
    let mut third = OfflineQuery::new(STATE_ROOT).unwrap();
    third.add_state_path("7field", &first).unwrap();
    third.add_state_path("8field", &second).unwrap();
    assert!(!one.same_as(&third));
    // And so does another root.
    let root = "sr1ekees06ce437zyrpy3xryal7wpfsw2zlsvwrr0rrfv3ywc8ehcrs6mjr2t";
    let mut fourth = OfflineQuery::new(root).unwrap();
    fourth.add_state_path("7field", &first).unwrap();
    fourth.add_state_path("9field", &second).unwrap();
    assert!(!one.same_as(&fourth));
    assert!(OfflineQuery::new(root).unwrap().same_as(&OfflineQuery::new(root).unwrap()));
    assert!(!OfflineQuery::new(root).unwrap().same_as(&OfflineQuery::new(STATE_ROOT).unwrap()));
}

#[test]
fn clone_holds_the_same_in_the_same_order() {
    let mut query = OfflineQuery::new(STATE_ROOT).unwrap();
    query.add_state_path("9field", &sample_path(7)).unwrap();
    query.add_state_path("7field", &sample_path(8)).unwrap();
    let clone = query.clone();
    assert_eq!(clone.to_string(), query.to_string());
    assert!(clone.same_as(&query));
    // The clone is a store of its own.
    query.add_state_path("8field", &sample_path(9)).unwrap();
    assert_eq!(clone.len(), 2);
    assert_eq!(query.len(), 3);
    assert!(!clone.same_as(&query));
}

#[test]
fn json_form_reads_back_to_the_same_store() {
    let mut query = OfflineQuery::new(STATE_ROOT).unwrap();
    query.add_state_path("9field", &sample_path(7)).unwrap();
    query.add_state_path("7field", &sample_path(8)).unwrap();
    let text = query.to_string();
    // A JSON reader takes the text apart, the store is built from the parts.
    let json: serde_json::Value = serde_json::from_str(&text).unwrap();
    let state_root = json["state_root"].as_str().unwrap();
    let parts: Vec<(String, String)> = json["state_paths"]
        .as_object()
        .unwrap()
        .iter()
        .map(|(commitment, state_path)| (commitment.clone(), state_path.as_str().unwrap().to_string()))
        .collect();
    let again = OfflineQuery::from_parts(state_root, &parts).unwrap();
    assert!(again.same_as(&query));
    assert_eq!(again.to_string(), text);
    // Writing is a function of what the store holds.
    assert_eq!(query.to_string(), text);
    assert_eq!(query.clone().to_string(), text);
}

#[test]
fn json_string_is_quoted_and_escaped() {
    assert_eq!(to_json_string(""), "\"\"");
    assert_eq!(to_json_string("7field"), "\"7field\"");
    assert_eq!(to_json_string(STATE_ROOT), format!("\"{STATE_ROOT}\""));
    // The quote and the backslash go behind a backslash.
    assert_eq!(to_json_string("a\"b"), "\"a\\\"b\"");
    assert_eq!(to_json_string("a\\b"), "\"a\\\\b\"");
    // The five characters that have a letter.
    assert_eq!(to_json_string("\u{8}\t\n\u{c}\r"), "\"\\b\\t\\n\\f\\r\"");
    // The other characters below the space, in base sixteen and lower case.
    assert_eq!(to_json_string("\u{0}"), "\"\\u0000\"");
    assert_eq!(to_json_string("\u{1}\u{b}\u{e}"), "\"\\u0001\\u000b\\u000e\"");
    assert_eq!(to_json_string("\u{1a}\u{1f}"), "\"\\u001a\\u001f\"");
    // All others as they are: the space, the slash, the last of the ASCII characters, and those beyond.
    assert_eq!(to_json_string(" /\u{7f}"), "\" /\u{7f}\"");
    assert_eq!(to_json_string("é\u{2028}😀"), "\"é\u{2028}😀\"");
    // What is written is what a JSON writer gives, and reads back as the text.
    for text in ["", "plain", "q\"b\\s/", "\u{0}\u{1}\u{7}\u{8}\u{9}\u{a}\u{b}\u{c}\u{d}\u{e}\u{1f} \u{7f}\u{80}é"] {
        assert_eq!(to_json_string(text), serde_json::to_string(text).unwrap());
        assert_eq!(serde_json::from_str::<String>(&to_json_string(text)).unwrap(), text);
    }
}
