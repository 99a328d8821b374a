use ygg_admin::about::{leaf_delay, leaf_transform, leaves, link_label, outbound_links, tree_caption, tree_touched};
use ygg_admin::runner::{default_source, lang_pill_delay, override_error, override_input, supported_langs, RunnerState};

#[test]
fn languages_and_samples() {
    let langs = supported_langs();
    assert_eq!(langs.len(), 5);
    assert_eq!(langs[4], ("bun", "Bun (TS)"));
    assert!(default_source("go").starts_with("package main"));
    assert_eq!(default_source("cobol"), "");
    assert_eq!(lang_pill_delay(2), 80);
}

#[test]
fn switching_language_replaces_the_source() {
    let mut s = RunnerState::new();
    assert_eq!(s.lang, "python");
    s.source = "print(1)".to_string();
    s.select_lang("python");
    assert_eq!(s.source, "print(1)");
    s.select_lang("rust");
    assert_eq!(s.lang, "rust");
    assert_eq!(s.source, default_source("rust"));
}

#[test]
fn override_box_verdict() {
    assert_eq!(override_error(true, "{}"), "");
    assert_eq!(override_error(false, "   "), "");
    assert_eq!(override_error(false, "{oops"), "overrides JSON 格式错误，已忽略");
    assert_eq!(override_input("  {\"memory_mb\":512} "), "{\"memory_mb\":512}");
}

#[test]
fn world_tree() {
    let l = leaves();
    assert_eq!(l.len(), 24);
    assert_eq!(l[0], (200, 80, -40));
    assert_eq!(leaf_transform(200, 80, -40), "translate(200 80) rotate(-40)");
    assert_eq!(leaf_delay(7), 45);
    assert_eq!(leaf_delay(5), 225);
    assert!(tree_touched(false));
    assert_eq!(tree_caption(true), "一片新叶，一段被留下的记忆");
    assert_eq!(link_label("站点文档", "这棵树是如何长成的"), "站点文档：这棵树是如何长成的（在新标签页打开）");
    assert_eq!(outbound_links()[0].0, "/doc/yggdrasil/index.html");
}
