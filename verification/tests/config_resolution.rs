use onetagger_cli::config::{TaggerConfig, AutotaggerOverrides, ResolveWarning, resolve};
use onetagger_cli::tags::{SupportedTag, parse_tags, parse_tag_entry, tag_name, split_commas_exec};
use onetagger_cli::dispatch::Actions;

#[test]
fn defaults_reproduce_builtin_default() {
    let base = TaggerConfig::custom_default();
    let (resolved_config, warnings) = resolve(base.clone(), &AutotaggerOverrides::none());
    assert_eq!(resolved_config, base);
    assert!(warnings.is_empty());
}

#[test]
fn true_boolean_override_wins_over_file_and_default() {
    let mut base = TaggerConfig::custom_default();
    base.overwrite = false;
    let mut ov = AutotaggerOverrides::none();
    ov.overwrite = true;
    let (resolved_config, _) = resolve(base, &ov);
    assert!(resolved_config.overwrite);
}

#[test]
fn absent_cli_flag_never_clobbers_file_value() {
    let mut base = TaggerConfig::custom_default();
    base.overwrite = true;
    base.id3v24 = true;
    base.threads = 4;
    base.filename_template = Some(String::from("%artist% - %title%"));
    let (resolved_config, _) = resolve(base, &AutotaggerOverrides::none());
    assert!(resolved_config.overwrite);
    assert!(resolved_config.id3v24);
    assert_eq!(resolved_config.threads, 4);
    assert_eq!(
        resolved_config.filename_template,
        Some(String::from("%artist% - %title%"))
    );
}

#[test]
fn subfolder_exclusion_forces_off_but_never_on() {
    let mut base = TaggerConfig::custom_default();
    base.include_subfolders = true;
    let mut ov = AutotaggerOverrides::none();
    ov.no_subfolders = true;
    let (resolved_config, _) = resolve(base, &ov);
    assert!(!resolved_config.include_subfolders);

    let mut base_off = TaggerConfig::custom_default();
    base_off.include_subfolders = false;
    let (kept_off, _) = resolve(base_off, &AutotaggerOverrides::none());
    assert!(!kept_off.include_subfolders);
}

#[test]
fn strictness_150_is_rejected_with_warning() {
    let base = TaggerConfig::custom_default();
    let mut ov = AutotaggerOverrides::none();
    ov.strictness = Some(150);
    let (resolved_config, warnings) = resolve(base, &ov);
    assert_eq!(resolved_config.strictness, 80);
    assert_eq!(warnings, vec![ResolveWarning::InvalidStrictness(150)]);
}

#[test]
fn strictness_80_is_applied() {
    let mut base = TaggerConfig::custom_default();
    base.strictness = 50;
    let mut ov = AutotaggerOverrides::none();
    ov.strictness = Some(80);
    let (resolved_config, warnings) = resolve(base, &ov);
    assert_eq!(resolved_config.strictness, 80);
    assert!(warnings.is_empty());
}

#[test]
fn platform_list_override_is_split_on_commas() {
    let base = TaggerConfig::custom_default();
    let mut ov = AutotaggerOverrides::none();
    ov.platforms = Some(String::from("beatport,discogs,traxsource"));
    let (resolved_config, _) = resolve(base, &ov);
    assert_eq!(
        resolved_config.platforms,
        vec![
            String::from("beatport"),
            String::from("discogs"),
            String::from("traxsource")
        ]
    );
}

#[test]
fn tag_list_parses_in_order() {
    let (tags, invalid) = parse_tags("title,artist,albumArt");
    assert_eq!(
        tags,
        vec![
            SupportedTag::Title,
            SupportedTag::Artist,
            SupportedTag::AlbumArt
        ]
    );
    assert!(invalid.is_empty());
}

#[test]
fn invalid_tag_entry_drops_only_itself() {
    let (tags, invalid) = parse_tags("title,notATag,artist");
    assert_eq!(tags, vec![SupportedTag::Title, SupportedTag::Artist]);
    assert_eq!(invalid, vec![String::from("notATag")]);
}

#[test]
fn tag_parsing_is_idempotent_on_canonical_names() {
    let (tags, _) = parse_tags("title,bpm,catalogNumber");
    for t in &tags {
        let name = tag_name(t);
        assert_eq!(parse_tag_entry(name.as_str()), Some(*t));
    }
}

#[test]
fn tag_entry_is_case_normalized_before_matching() {
    assert_eq!(parse_tag_entry("album-art"), Some(SupportedTag::AlbumArt));
    assert_eq!(parse_tag_entry("Album Art"), Some(SupportedTag::AlbumArt));
    assert_eq!(
        parse_tag_entry("catalog_number"),
        Some(SupportedTag::CatalogNumber)
    );
    assert_eq!(parse_tag_entry("bogus entry"), None);
}

#[test]
fn comma_split_keeps_empty_segments() {
    assert_eq!(
        split_commas_exec("a,,b"),
        vec![String::from("a"), String::new(), String::from("b")]
    );
    assert_eq!(split_commas_exec(""), vec![String::new()]);
}

#[test]
fn invalid_tag_warning_carries_the_entry() {
    let base = TaggerConfig::custom_default();
    let mut ov = AutotaggerOverrides::none();
    ov.tags = Some(String::from("title,notATag"));
    let (resolved_config, warnings) = resolve(base, &ov);
    assert_eq!(resolved_config.tags, vec![SupportedTag::Title]);
    assert_eq!(warnings, vec![ResolveWarning::InvalidTag(String::from("notATag"))]);
}

#[test]
fn get_at_config_uses_file_config_as_base() {
    let mut file_config = TaggerConfig::custom_default();
    file_config.threads = 2;
    file_config.camelot = true;
    let mut ov = AutotaggerOverrides::none();
    ov.path = Some(String::from("/music"));
    let action = Actions::Autotagger { overrides: ov };
    let (config, warnings) = action.get_at_config(Some(file_config));
    assert_eq!(config.path, Some(String::from("/music")));
    assert_eq!(config.threads, 2);
    assert!(config.camelot);
    assert!(warnings.is_empty());
}

#[test]
fn get_at_config_falls_back_to_default_base() {
    let action = Actions::Autotagger {
        overrides: AutotaggerOverrides::none(),
    };
    let (config, warnings) = action.get_at_config(None);
    assert_eq!(config, TaggerConfig::custom_default());
    assert!(warnings.is_empty());
}
