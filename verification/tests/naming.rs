use emotion_transform::hash::murmurhash2;
use emotion_transform::label::generate_stable_identifier;
use emotion_transform::paths::parent_dir;
use emotion_transform::paths::relative_fragment;
use emotion_transform::registry::EmotionModuleConfig;
use emotion_transform::registry::ImportDeclInfo;
use emotion_transform::registry::ImportSpecifierInfo;
use emotion_transform::resolver::RootPathInfo;
use emotion_transform::transformer::splice_plan;
use emotion_transform::transformer::EmotionOptions;
use emotion_transform::transformer::EmotionTransformer;
use emotion_transform::transformer::SpliceAction;

fn s(text: &str) -> String {
    String::from(text)
}

#[test]
fn murmur_known_values() {
    assert_eq!(murmurhash2(&vec![]), 0);
    assert_eq!(murmurhash2(&b"a".to_vec()), 2456313694);
    assert_eq!(murmurhash2(&b"ab".to_vec()), 446775395);
    assert_eq!(murmurhash2(&b"abc".to_vec()), 324500635);
    assert_eq!(murmurhash2(&b"abcd".to_vec()), 646393889);
    assert_eq!(murmurhash2(&b"hello world".to_vec()), 1151865881);
}

#[test]
fn generate_is_pure() {
    let a = generate_stable_identifier(&s("pkg-a"), &s("/src/button.ts"), 3);
    let b = generate_stable_identifier(&s("pkg-a"), &s("/src/button.ts"), 3);
    assert_eq!(a, b);
}

#[test]
fn generate_exact_value() {
    // murmurhash2 of "pkg-a/src/button.ts" is 734053027.
    let r = generate_stable_identifier(&s("pkg-a"), &s("/src/button.ts"), 0);
    assert_eq!(r, "e7340530270");
    let r1 = generate_stable_identifier(&s("pkg-a"), &s("/src/button.ts"), 1);
    assert_eq!(r1, "e7340530271");
}

#[test]
fn generate_distinct_sequences_distinct_labels() {
    let a = generate_stable_identifier(&s("p"), &s("/f.ts"), 0);
    let b = generate_stable_identifier(&s("p"), &s("/f.ts"), 1);
    assert_ne!(a, b);
}

#[test]
fn parent_dir_cases() {
    assert_eq!(parent_dir(&s("/repo/pkg-a/src/button.ts")), Some(s("/repo/pkg-a/src")));
    assert_eq!(parent_dir(&s("/a")), Some(s("/")));
    assert_eq!(parent_dir(&s("/")), None);
    assert_eq!(parent_dir(&s("abc")), None);
    assert_eq!(parent_dir(&s("")), None);
}

#[test]
fn fragment_strips_root_prefix() {
    let frag = relative_fragment(&s("/repo/pkg-a"), &s("/repo/pkg-a/src/button.ts"));
    assert_eq!(frag, "/src/button.ts");
}

#[test]
fn fragment_at_root_is_root_not_empty() {
    let frag = relative_fragment(&s("/repo/pkg-a"), &s("/repo/pkg-a"));
    assert_eq!(frag, "root");
    assert!(!frag.is_empty());
}

#[test]
fn fragment_trims_repeated_prefix() {
    let frag = relative_fragment(&s("/a"), &s("/a/a/b"));
    assert_eq!(frag, "/b");
}

#[test]
fn fragment_with_unrelated_root_keeps_file() {
    let frag = relative_fragment(&s("/other"), &s("/repo/x.ts"));
    assert_eq!(frag, "/repo/x.ts");
    let empty_root = relative_fragment(&s(""), &s("/repo/x.ts"));
    assert_eq!(empty_root, "/repo/x.ts");
}

fn fresh(path: Option<&str>, source: &str, options: EmotionOptions) -> EmotionTransformer {
    EmotionTransformer::new(options, path.map(String::from), s(source), false, false)
}

fn named(local: &str, imported: Option<&str>) -> ImportSpecifierInfo {
    ImportSpecifierInfo::Named { local: s(local), imported: imported.map(String::from) }
}

fn import_of(src: &str, type_only: bool, specs: Vec<ImportSpecifierInfo>) -> ImportDeclInfo {
    ImportDeclInfo { src: s(src), type_only, specifiers: specs }
}

#[test]
fn aliased_named_import_recognized_by_local_alias() {
    let mut t = fresh(Some("/repo/pkg-a/src/button.ts"), "", EmotionOptions::default());
    t.fold_import_decl(&import_of(
        "@emotion/react",
        false,
        vec![named("styleIt", Some("css"))],
    ));
    assert!(t.is_recognized(&s("styleIt")));
    assert!(!t.is_recognized(&s("css")));
}

#[test]
fn unaliased_named_import_recognized() {
    let mut t = fresh(Some("/f.ts"), "", EmotionOptions::default());
    t.fold_import_decl(&import_of("@emotion/react", false, vec![named("css", None)]));
    assert!(t.is_recognized(&s("css")));
}

#[test]
fn unknown_export_name_not_recognized() {
    let mut t = fresh(Some("/f.ts"), "", EmotionOptions::default());
    t.fold_import_decl(&import_of("@emotion/react", false, vec![named("keyframes", None)]));
    assert!(!t.is_recognized(&s("keyframes")));
}

#[test]
fn type_only_import_ignored() {
    let mut t = fresh(Some("/f.ts"), "", EmotionOptions::default());
    t.fold_import_decl(&import_of("@emotion/react", true, vec![named("css", None)]));
    assert!(!t.is_recognized(&s("css")));
    assert!(!t.should_transform_call(&s("css"), 1));
}

#[test]
fn unknown_module_ignored() {
    let mut t = fresh(Some("/f.ts"), "", EmotionOptions::default());
    t.fold_import_decl(&import_of("some-other-lib", false, vec![named("css", None)]));
    assert!(!t.is_recognized(&s("css")));
}

#[test]
fn default_import_follows_module_declaration() {
    // @emotion/styled declares a default export, @emotion/react does not.
    let mut t = fresh(Some("/f.ts"), "", EmotionOptions::default());
    t.fold_import_decl(&import_of(
        "@emotion/styled",
        false,
        vec![ImportSpecifierInfo::Default { local: s("styled") }],
    ));
    assert!(t.is_recognized(&s("styled")));

    let mut u = fresh(Some("/f.ts"), "", EmotionOptions::default());
    u.fold_import_decl(&import_of(
        "@emotion/react",
        false,
        vec![ImportSpecifierInfo::Default { local: s("emotionCss") }],
    ));
    assert!(!u.is_recognized(&s("emotionCss")));
}

#[test]
fn namespace_import_always_recognized() {
    let mut t = fresh(Some("/f.ts"), "", EmotionOptions::default());
    t.fold_import_decl(&import_of(
        "@emotion/react",
        false,
        vec![ImportSpecifierInfo::Namespace { local: s("emotion") }],
    ));
    assert!(t.is_recognized(&s("emotion")));
}

#[test]
fn custom_module_recognized() {
    let mut options = EmotionOptions::default();
    options.custom_modules = Some(vec![EmotionModuleConfig {
        module_name: s("my-styling"),
        exported_names: vec![s("styleIt")],
        include_sub_path: None,
        has_default_export: None,
    }]);
    let mut t = fresh(Some("/f.ts"), "", options);
    t.fold_import_decl(&import_of("my-styling", false, vec![named("styleIt", None)]));
    assert!(t.is_recognized(&s("styleIt")));
}

#[test]
fn later_custom_config_overrides_builtin_rules() {
    // A custom module sharing @emotion/react's name declares a default
    // export; the later-declared configuration's default rule takes effect.
    let mut options = EmotionOptions::default();
    options.custom_modules = Some(vec![EmotionModuleConfig {
        module_name: s("@emotion/react"),
        exported_names: vec![s("css")],
        include_sub_path: None,
        has_default_export: Some(true),
    }]);
    let mut t = fresh(Some("/f.ts"), "", options);
    t.fold_import_decl(&import_of(
        "@emotion/react",
        false,
        vec![ImportSpecifierInfo::Default { local: s("emotionCss") }],
    ));
    assert!(t.is_recognized(&s("emotionCss")));
}

#[test]
fn should_transform_call_conditions() {
    let mut t = fresh(Some("/f.ts"), "", EmotionOptions::default());
    t.fold_import_decl(&import_of("@emotion/react", false, vec![named("css", None)]));
    assert!(t.should_transform_call(&s("css"), 1));
    assert!(t.should_transform_call(&s("css"), 2));
    assert!(!t.should_transform_call(&s("css"), 0));
    assert!(!t.should_transform_call(&s("other"), 1));

    let mut virt = fresh(None, "", EmotionOptions::default());
    virt.fold_import_decl(&import_of("@emotion/react", false, vec![named("css", None)]));
    assert!(!virt.should_transform_call(&s("css"), 1));
}

#[test]
fn call_site_labels_carry_increasing_sequence() {
    // murmurhash2 of "pkg-a/src/button.ts" is 734053027: the first call in
    // the file ends in 0, the second in 1.
    let mut t = fresh(Some("/repo/pkg-a/src/button.ts"), "", EmotionOptions::default());
    t.fold_import_decl(&import_of("@emotion/react", false, vec![named("css", None)]));
    assert!(t.should_transform_call(&s("css"), 1));
    let root = RootPathInfo::new(s("pkg-a"), s("/repo/pkg-a"));
    let first = t.generate_class_name(Some(root));
    assert_eq!(first, "e7340530270");
    let root_again = RootPathInfo::new(s("pkg-a"), s("/repo/pkg-a"));
    let second = t.generate_class_name(Some(root_again));
    assert_eq!(second, "e7340530271");
}

#[test]
fn file_at_its_root_hashes_root_fragment() {
    // murmurhash2 of "mylibroot" is 442751129.
    let mut t = fresh(Some("/ws/mylib"), "", EmotionOptions::default());
    let root = RootPathInfo::new(s("mylib"), s("/ws/mylib"));
    let label = t.generate_class_name(Some(root));
    assert_eq!(label, "e4427511290");
}

#[test]
fn unresolved_root_falls_back_to_empty_package_and_root_fragment() {
    // murmurhash2 of "root" is 2484197952.
    let mut t = fresh(Some("/anywhere/f.ts"), "", EmotionOptions::default());
    let label = t.generate_class_name(None);
    assert_eq!(label, "e24841979520");
}

#[test]
fn degraded_fallback_hashes_source_text() {
    // murmurhash2 of "abcd" ("ab" + source text "cd") is 646393889.
    let mut t = fresh(None, "cd", EmotionOptions::default());
    let label = t.generate_class_name_degraded(&s("ab"));
    assert_eq!(label, "e6463938890");
    let again = t.generate_class_name_degraded(&s("ab"));
    assert_eq!(again, "e6463938891");
}

#[test]
fn splice_plan_follows_argument_shape() {
    assert!(matches!(splice_plan(1, false), SpliceAction::AppendObjectArgument));
    assert!(matches!(splice_plan(1, true), SpliceAction::AppendObjectArgument));
    assert!(matches!(splice_plan(2, true), SpliceAction::PushIntoSecondArgument));
    assert!(matches!(splice_plan(2, false), SpliceAction::Nothing));
    assert!(matches!(splice_plan(3, true), SpliceAction::Nothing));
    assert!(matches!(splice_plan(0, false), SpliceAction::Nothing));
}

#[test]
fn labels_hold_only_identifier_characters() {
    let r = generate_stable_identifier(&s("@scope/pkg"), &s("/lib/x.ts"), 42);
    assert!(r.starts_with('e'));
    assert!(r.chars().all(|c| c == 'e' || c.is_ascii_digit()));
}

#[test]
fn default_options() {
    let o = EmotionOptions::default();
    assert_eq!(o.enabled, Some(false));
    assert_eq!(o.sourcemap, Some(true));
    assert_eq!(o.auto_label, Some(true));
    assert_eq!(o.label_format, Some(s("[local]")));
    assert_eq!(o.auto_inject, Some(true));
    assert!(o.custom_modules.is_none());
    assert!(o.jsx_factory.is_none());
    assert_eq!(o.jsx_import_source, Some(s("@emotion/react")));
}
