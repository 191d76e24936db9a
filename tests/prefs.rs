use rustc_serialize::json::Json;
use solidoak_prefs::{encode_prefs, get_prefs, read_prefs, Prefs, State};

fn strings_of(value: &Json) -> Option<Vec<String>> {
    let mut out = Vec::new();
    for item in value.as_array()? {
        out.push(item.as_string()?.to_string());
    }
    Some(out)
}

// Reads a preferences document back; any shape mismatch is a failure.
fn decode(text: &str) -> Option<Prefs> {
    let doc = Json::from_str(text).ok()?;
    let projects = strings_of(doc.find("projects")?)?;
    let expansions = strings_of(doc.find("expansions")?)?;
    let selection = match doc.find("selection")? {
        Json::Null => None,
        Json::String(s) => Some(s.clone()),
        _ => return None,
    };
    Some(Prefs { projects, expansions, selection })
}

fn sorted(v: &Vec<String>) -> Vec<String> {
    let mut v = v.clone();
    v.sort();
    v
}

fn populated() -> State {
    let mut state = State::new();
    state.insert_project("/home/u/one".to_string());
    state.insert_project("/home/u/two".to_string());
    state.insert_expansion("/home/u/one".to_string());
    state.insert_expansion("/home/u/one/src".to_string());
    state.set_selection(Some("/home/u/one/src/main.rs".to_string()));
    state
}

#[test]
fn new_state_is_empty() {
    let state = State::new();
    assert!(state.projects().is_empty());
    assert!(state.expansions().is_empty());
    assert_eq!(*state.selection(), None);
}

#[test]
fn inserting_twice_keeps_one_entry() {
    let mut state = State::new();
    state.insert_project("/p".to_string());
    state.insert_project("/p".to_string());
    assert_eq!(*state.projects(), vec!["/p".to_string()]);
}

#[test]
fn removing_takes_only_that_path() {
    let mut state = populated();
    state.remove_project(&"/home/u/one".to_string());
    assert_eq!(*state.projects(), vec!["/home/u/two".to_string()]);
    state.remove_expansion(&"/home/u/one/src".to_string());
    assert_eq!(*state.expansions(), vec!["/home/u/one".to_string()]);
    state.remove_expansion(&"/absent".to_string());
    assert_eq!(*state.expansions(), vec!["/home/u/one".to_string()]);
}

#[test]
fn snapshot_keeps_order_and_selection() {
    let prefs = get_prefs(&populated());
    assert_eq!(prefs.projects, vec!["/home/u/one".to_string(), "/home/u/two".to_string()]);
    assert_eq!(prefs.expansions, vec!["/home/u/one".to_string(), "/home/u/one/src".to_string()]);
    assert_eq!(prefs.selection, Some("/home/u/one/src/main.rs".to_string()));
}

#[test]
fn empty_state_encodes_exactly() {
    let text = encode_prefs(&get_prefs(&State::new()));
    assert_eq!(text, "{\n  \"projects\": [],\n  \"expansions\": [],\n  \"selection\": null\n}");
}

#[test]
fn populated_state_encodes_exactly() {
    let prefs = Prefs {
        projects: vec!["/a".to_string(), "/b".to_string()],
        expansions: vec!["/a".to_string()],
        selection: Some("/a/x".to_string()),
    };
    let text = encode_prefs(&prefs);
    assert_eq!(
        text,
        "{\n  \"projects\": [\n    \"/a\",\n    \"/b\"\n  ],\n  \"expansions\": [\n    \"/a\"\n  ],\n  \"selection\": \"/a/x\"\n}"
    );
}

#[test]
fn special_characters_are_escaped() {
    let prefs = Prefs {
        projects: vec!["/a \"q\"\\b".to_string()],
        expansions: vec![],
        selection: None,
    };
    let text = encode_prefs(&prefs);
    assert!(text.contains("\"/a \\\"q\\\"\\\\b\""));
    assert_eq!(decode(&text).unwrap().projects, prefs.projects);
}

#[test]
fn save_then_load_restores_state() {
    let original = populated();
    let text = encode_prefs(&get_prefs(&original));
    let mut fresh = State::new();
    read_prefs(&mut fresh, decode(&text));
    assert_eq!(sorted(fresh.projects()), sorted(original.projects()));
    assert_eq!(sorted(fresh.expansions()), sorted(original.expansions()));
    assert_eq!(fresh.selection(), original.selection());
}

#[test]
fn load_replaces_prior_contents() {
    let mut target = populated();
    let mut source = State::new();
    source.insert_project("/other".to_string());
    let text = encode_prefs(&get_prefs(&source));
    read_prefs(&mut target, decode(&text));
    assert_eq!(*target.projects(), vec!["/other".to_string()]);
    assert!(target.expansions().is_empty());
    assert_eq!(*target.selection(), None);
}

#[test]
fn saving_twice_gives_same_text() {
    let state = populated();
    let first = encode_prefs(&get_prefs(&state));
    let second = encode_prefs(&get_prefs(&state));
    assert_eq!(first, second);
}

#[test]
fn minimal_document_decodes_to_empty_state() {
    let decoded = decode("{\"projects\":[],\"expansions\":[],\"selection\":null}");
    assert!(decoded.is_some());
    let mut state = populated();
    read_prefs(&mut state, decoded);
    assert!(state.projects().is_empty());
    assert!(state.expansions().is_empty());
    assert_eq!(*state.selection(), None);
}

#[test]
fn malformed_document_leaves_state_unchanged() {
    let decoded = decode("{\"projects\": \"not-an-array\"}");
    assert!(decoded.is_none());
    let mut state = populated();
    read_prefs(&mut state, decoded);
    let expected = populated();
    assert_eq!(state.projects(), expected.projects());
    assert_eq!(state.expansions(), expected.expansions());
    assert_eq!(state.selection(), expected.selection());
}

#[test]
fn duplicate_paths_in_document_collapse() {
    let prefs = Prefs {
        projects: vec!["/a".to_string(), "/a".to_string()],
        expansions: vec![],
        selection: Some("/a".to_string()),
    };
    let mut state = State::new();
    read_prefs(&mut state, Some(prefs));
    assert_eq!(*state.projects(), vec!["/a".to_string()]);
    assert_eq!(*state.selection(), Some("/a".to_string()));
}

#[test]
fn control_characters_are_escaped() {
    let prefs = Prefs {
        projects: vec!["a\u{1}b\tc\u{7f}".to_string()],
        expansions: vec![],
        selection: Some("\u{8}\u{c}\r\n".to_string()),
    };
    let text = encode_prefs(&prefs);
    assert!(text.contains("\"a\\u0001b\\tc\\u007f\""));
    assert!(text.contains("\"selection\": \"\\b\\f\\r\\n\""));
    let decoded = decode(&text).unwrap();
    assert_eq!(decoded.projects, prefs.projects);
    assert_eq!(decoded.selection, prefs.selection);
}
