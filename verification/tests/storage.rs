use spotatui::infra::scripting::storage::{
    namespace_from_file, str_less, PluginStorage, StorageFileIssue,
};

fn s(x: &str) -> String {
    x.to_string()
}

#[test]
fn store_reads_back_what_was_written() {
    let mut st = PluginStorage::new();
    st.set(s("a"), s("count"), Some(s("42")));
    st.set(s("a"), s("nested"), Some(s(r#"{"tags":["a","b"],"x":1}"#)));
    assert_eq!(st.get("a", "count"), Some(s("42")));
    assert_eq!(st.get("a", "nested"), Some(s(r#"{"tags":["a","b"],"x":1}"#)));
    st.set(s("a"), s("count"), Some(s("43")));
    assert_eq!(st.get("a", "count"), Some(s("43")));
}

#[test]
fn store_set_none_deletes_key() {
    let mut st = PluginStorage::new();
    st.set(s("a"), s("gone"), Some(s("\"soon\"")));
    st.set(s("a"), s("gone"), None);
    assert_eq!(st.get("a", "gone"), None);
    assert!(st.keys("a").is_empty());
    assert_eq!(st.take_dirty(), vec![s("a")]);
}

#[test]
fn store_keys_come_out_ascending() {
    let mut st = PluginStorage::new();
    for k in ["two", "one", "three", "b", "a", "ab"] {
        st.set(s("p"), s(k), Some(s("1")));
    }
    assert_eq!(st.keys("p"), vec![s("a"), s("ab"), s("b"), s("one"), s("three"), s("two")]);
    assert!(st.remove("p", "one"));
    assert!(!st.remove("p", "one"));
    assert_eq!(st.keys("p"), vec![s("a"), s("ab"), s("b"), s("three"), s("two")]);
}

#[test]
fn store_namespaces_are_isolated() {
    let mut st = PluginStorage::new();
    st.set(s("a"), s("who"), Some(s("\"plugin a\"")));
    st.set(s("b"), s("who"), Some(s("\"plugin b\"")));
    assert_eq!(st.get("a", "who"), Some(s("\"plugin a\"")));
    assert_eq!(st.get("b", "who"), Some(s("\"plugin b\"")));
    let mut dirty = st.take_dirty();
    dirty.sort();
    assert_eq!(dirty, vec![s("a"), s("b")]);
    assert!(st.take_dirty().is_empty());
}

#[test]
fn store_load_and_remove_of_missing_key_leaves_it_clean() {
    let mut st = PluginStorage::new();
    assert!(!st.is_loaded("a"));
    assert_eq!(st.get("a", "x"), None);
    st.load(s("a"), vec![(s("song"), s("\"Nightcall\"")), (s("n"), s("1"))]);
    assert!(st.is_loaded("a"));
    assert_eq!(st.get("a", "song"), Some(s("\"Nightcall\"")));
    assert_eq!(st.keys("a"), vec![s("n"), s("song")]);
    assert!(!st.remove("a", "missing"));
    assert!(st.take_dirty().is_empty());
    let entries = st.entries_of("a").unwrap();
    assert_eq!(entries, vec![(s("n"), s("1")), (s("song"), s("\"Nightcall\""))]);
}

#[test]
fn str_less_orders_like_str() {
    assert!(str_less("a", "ab"));
    assert!(!str_less("ab", "a"));
    assert!(str_less("Z", "a"));
    assert!(!str_less("same", "same"));
    assert_eq!(str_less("é", "z"), "é" < "z");
}

#[test]
fn storage_file_with_an_object_loads_its_entries() {
    let (entries, issue) = namespace_from_file(Some(r#"{"song": "Nightcall", "n": [1, 2]}"#));
    assert_eq!(issue, None);
    let mut entries = entries;
    entries.sort();
    assert_eq!(entries, vec![(s("n"), s("[1,2]")), (s("song"), s("\"Nightcall\""))]);
}

#[test]
fn storage_file_that_is_corrupt_or_not_an_object_starts_empty() {
    let (entries, issue) = namespace_from_file(Some("{not json"));
    assert!(entries.is_empty());
    assert!(matches!(issue, Some(StorageFileIssue::Corrupt(_))));
    let (entries, issue) = namespace_from_file(Some("[1, 2]"));
    assert!(entries.is_empty());
    assert_eq!(issue, Some(StorageFileIssue::NotObject));
    let (entries, issue) = namespace_from_file(None);
    assert!(entries.is_empty());
    assert_eq!(issue, None);
}

#[test]
fn load_file_fills_the_namespace() {
    let mut st = PluginStorage::new();
    assert_eq!(st.load_file(s("a"), Some(r#"{"who": "plugin a"}"#)), None);
    assert_eq!(st.get("a", "who"), Some(s("\"plugin a\"")));
    assert_eq!(st.load_file(s("b"), Some("{not json")).is_some(), true);
    assert!(st.is_loaded("b"));
    assert!(st.keys("b").is_empty());
}
