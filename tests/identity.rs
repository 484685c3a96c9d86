use wallmeter::identity::{
    chars_of, find, first_segment_of, identifier_from_path, member_text, resolve, string_text,
    ResolveError,
};

fn config_for(user: &str, file: &str) -> String {
    format!(
        "{{\"{user}\":{{\"general\":{{\"wallpaperconfig\":{{\"selectedwallpapers\":{{\"Monitor0\":{{\"file\":\"{file}\"}}}}}}}}}}}}"
    )
}

#[test]
fn resolves_identifier_of_selected_wallpaper() {
    let doc = config_for(
        "alice",
        "C:/Program Files (x86)/Steam/steamapps/workshop/content/431960/778899012/scene.json",
    );
    assert_eq!(resolve(&doc, "alice"), Ok("778899012".to_string()));
}

#[test]
fn path_without_anchor_is_not_resolvable() {
    let doc = config_for("alice", "D:/wallpapers/778899012/scene.json");
    assert_eq!(resolve(&doc, "alice"), Err(ResolveError::IdentifierNotResolvable));
}

#[test]
fn other_user_is_not_resolvable() {
    let doc = config_for("alice", "x/431960/778899012/scene.json");
    assert_eq!(resolve(&doc, "bob"), Err(ResolveError::IdentifierNotResolvable));
}

#[test]
fn each_missing_key_is_not_resolvable() {
    let docs = [
        "{}",
        "{\"alice\":{}}",
        "{\"alice\":{\"general\":{}}}",
        "{\"alice\":{\"general\":{\"wallpaperconfig\":{}}}}",
        "{\"alice\":{\"general\":{\"wallpaperconfig\":{\"selectedwallpapers\":{}}}}}",
        "{\"alice\":{\"general\":{\"wallpaperconfig\":{\"selectedwallpapers\":{\"Monitor0\":{}}}}}}",
        "{\"alice\":{\"general\":{\"wallpaperconfig\":{\"selectedwallpapers\":{\"Monitor1\":{\"file\":\"a/431960/5/b\"}}}}}}",
    ];
    for doc in docs {
        assert_eq!(resolve(doc, "alice"), Err(ResolveError::IdentifierNotResolvable), "{doc}");
    }
}

#[test]
fn non_string_file_is_not_resolvable() {
    let doc = "{\"alice\":{\"general\":{\"wallpaperconfig\":{\"selectedwallpapers\":{\"Monitor0\":{\"file\":431960}}}}}}";
    assert_eq!(resolve(doc, "alice"), Err(ResolveError::IdentifierNotResolvable));
}

#[test]
fn non_object_on_the_path_is_not_resolvable() {
    let doc = "{\"alice\":{\"general\":[1,2,3]}}";
    assert_eq!(resolve(doc, "alice"), Err(ResolveError::IdentifierNotResolvable));
}

#[test]
fn text_that_is_not_json_is_unparsable() {
    assert_eq!(resolve("{\"alice\": ", "alice"), Err(ResolveError::ConfigurationUnparsable));
    assert_eq!(resolve("", "alice"), Err(ResolveError::ConfigurationUnparsable));
}

#[test]
fn empty_segment_after_anchor_is_not_resolvable() {
    assert_eq!(identifier_from_path("a/431960//scene.json"), None);
    assert_eq!(identifier_from_path("a/431960/"), None);
}

#[test]
fn identifier_runs_to_end_without_separator() {
    assert_eq!(identifier_from_path("a/431960/12345"), Some("12345".to_string()));
}

#[test]
fn identifier_taken_after_first_anchor() {
    assert_eq!(
        identifier_from_path("x/431960/111/431960/222/scene.json"),
        Some("111".to_string())
    );
    assert_eq!(identifier_from_path("431960/ab431960/x"), Some("ab431960".to_string()));
}

#[test]
fn identifier_with_wide_characters() {
    assert_eq!(
        identifier_from_path("é/431960/ünï/scene.json"),
        Some("ünï".to_string())
    );
}

#[test]
fn find_gives_first_index() {
    let s = chars_of("abcabc");
    assert_eq!(find(&s, &chars_of("bc")), Some(1));
    assert_eq!(find(&s, &chars_of("cd")), None);
    assert_eq!(find(&s, &chars_of("")), Some(0));
    assert_eq!(find(&chars_of("ab"), &chars_of("abc")), None);
}

#[test]
fn first_segment_stops_at_slash() {
    assert_eq!(first_segment_of("abc/def"), "abc");
    assert_eq!(first_segment_of("abc"), "abc");
    assert_eq!(first_segment_of("/abc"), "");
}

#[test]
fn member_text_reads_one_level() {
    let t = member_text("{\"a\":{\"b\":\"c\"},\"d\":1}", "a").unwrap().unwrap();
    assert_eq!(member_text(&t, "b").unwrap().unwrap(), "\"c\"");
    assert_eq!(member_text("{\"a\":1}", "z"), Ok(None));
    assert_eq!(member_text("[1]", "a"), Ok(None));
    assert_eq!(member_text("nope", "a"), Err(ResolveError::ConfigurationUnparsable));
}

#[test]
fn string_text_reads_strings_only() {
    assert_eq!(string_text("\"x/y\""), Some("x/y".to_string()));
    assert_eq!(string_text("12"), None);
    assert_eq!(string_text("{}"), None);
}
