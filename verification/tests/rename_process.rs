use onetagger_cli::rename::{RenamerConfig, RenameSource, EntryAction, TemplateError, generate,
    plan_apply, apply_outcome};
use onetagger_cli::process::{DownloadRequest, InvokeError, ProcessOutcome, build_download_spec,
    interpret_exit};
use onetagger_cli::files::{FileSource, PlaylistError, plan_file_source, is_audio_extension,
    is_playlist_extension, validate_playlist_extension};

fn renamer_config(copy: bool, overwrite: bool, keep_subfolders: bool) -> RenamerConfig {
    RenamerConfig {
        path: String::from("/music"),
        out_dir: String::from("/out"),
        template: String::from("%artist% - %title%"),
        copy,
        subfolders: true,
        overwrite,
        separator: String::from(", "),
        keep_subfolders,
    }
}

fn source(path: &str, subpath: &str, rendered: Option<&str>) -> RenameSource {
    RenameSource {
        path: String::from(path),
        subpath: String::from(subpath),
        extension: String::from("mp3"),
        rendered: rendered.map(String::from),
    }
}

#[test]
fn generate_builds_ordered_mapping_without_touching_disk() {
    let files = vec![
        source("/music/a.mp3", "", Some("Artist A - One")),
        source("/music/sub/b.mp3", "sub", Some("Artist B - Two")),
    ];
    let mapping = generate(&files, &renamer_config(false, false, false)).unwrap();
    assert_eq!(mapping.len(), 2);
    assert_eq!(mapping[0].from, "/music/a.mp3");
    assert_eq!(mapping[0].to, "/out/Artist A - One.mp3");
    assert_eq!(mapping[1].from, "/music/sub/b.mp3");
    assert_eq!(mapping[1].to, "/out/Artist B - Two.mp3");
}

#[test]
fn generate_keeps_subfolders_when_configured() {
    let files = vec![source("/music/sub/b.mp3", "sub", Some("B"))];
    let mapping = generate(&files, &renamer_config(false, false, true)).unwrap();
    assert_eq!(mapping[0].to, "/out/sub/B.mp3");
}

#[test]
fn generate_fails_on_unknown_template_field() {
    let files = vec![
        source("/music/a.mp3", "", Some("A")),
        source("/music/b.mp3", "", None),
    ];
    let r = generate(&files, &renamer_config(false, false, false));
    assert_eq!(r, Err(TemplateError::UnknownField));
}

#[test]
fn copy_plan_never_moves_the_source() {
    let plans = plan_apply(&vec![false, false], true, false);
    assert_eq!(plans, vec![EntryAction::CopyFile, EntryAction::CopyFile]);
    let move_plans = plan_apply(&vec![false, false], false, false);
    assert_eq!(move_plans, vec![EntryAction::MoveFile, EntryAction::MoveFile]);
}

#[test]
fn one_existing_destination_fails_alone_and_batch_continues() {
    let plans = plan_apply(&vec![false, true, false], false, false);
    assert_eq!(
        plans,
        vec![
            EntryAction::MoveFile,
            EntryAction::SkipExists,
            EntryAction::MoveFile
        ]
    );
    let outcome = apply_outcome(&plans);
    assert_eq!(outcome.failed, 1);
    assert_eq!(outcome.succeeded, 2);
}

#[test]
fn overwrite_allows_existing_destination() {
    let plans = plan_apply(&vec![true], false, true);
    assert_eq!(plans, vec![EntryAction::MoveFile]);
}

#[test]
fn audio_features_without_credentials_is_rejected_before_spawn() {
    let rq = DownloadRequest {
        url: String::from("https://example.com/watch?v=x"),
        output: String::from("out"),
        confidence: String::from("0.75"),
        enable_auto_tag: false,
        auto_tag_config: None,
        enable_audio_features: true,
        client_id: None,
        client_secret: None,
    };
    let r = build_download_spec(true, &String::from("downloader.py"), &rq);
    assert_eq!(r, Err(InvokeError::InvalidInvocation));
}

#[test]
fn missing_script_is_rejected() {
    let rq = DownloadRequest {
        url: String::from("u"),
        output: String::from("o"),
        confidence: String::from("0.75"),
        enable_auto_tag: false,
        auto_tag_config: None,
        enable_audio_features: false,
        client_id: None,
        client_secret: None,
    };
    let r = build_download_spec(false, &String::from("downloader.py"), &rq);
    assert_eq!(r, Err(InvokeError::ScriptNotFound));
}

#[test]
fn download_argument_list_is_built_in_order() {
    let rq = DownloadRequest {
        url: String::from("https://example.com/playlist"),
        output: String::from("songs"),
        confidence: String::from("0.9"),
        enable_auto_tag: true,
        auto_tag_config: Some(String::from("at.json")),
        enable_audio_features: true,
        client_id: Some(String::from("id")),
        client_secret: Some(String::from("secret")),
    };
    let spec = build_download_spec(true, &String::from("downloader.py"), &rq).unwrap();
    assert_eq!(spec.program, "python");
    assert_eq!(
        spec.args,
        vec![
            String::from("downloader.py"),
            String::from("--url"),
            String::from("https://example.com/playlist"),
            String::from("--output"),
            String::from("songs"),
            String::from("--confidence"),
            String::from("0.9"),
            String::from("--enable-auto-tag"),
            String::from("--auto-tag-config"),
            String::from("at.json"),
            String::from("--enable-audio-features"),
            String::from("--client-id"),
            String::from("id"),
            String::from("--client-secret"),
            String::from("secret"),
        ]
    );
}

#[test]
fn exit_status_maps_to_outcome() {
    assert_eq!(
        interpret_exit(true, String::from("ok"), String::from("")),
        ProcessOutcome::Success(String::from("ok"))
    );
    assert_eq!(
        interpret_exit(false, String::from(""), String::from("boom")),
        ProcessOutcome::Failure(String::from("boom"))
    );
}

#[test]
fn file_source_is_playlist_for_single_file() {
    assert_eq!(plan_file_source(true, true), FileSource::Playlist);
    assert_eq!(
        plan_file_source(false, false),
        FileSource::DirectoryWalk {
            include_subfolders: false
        }
    );
}

#[test]
fn extension_recognition() {
    assert!(is_audio_extension("mp3"));
    assert!(is_audio_extension("flac"));
    assert!(!is_audio_extension("txt"));
    assert!(is_playlist_extension("m3u8"));
    assert!(!is_playlist_extension("mp3"));
}

#[test]
fn unrecognized_playlist_format_is_rejected() {
    assert_eq!(validate_playlist_extension("m3u"), Ok(()));
    assert_eq!(
        validate_playlist_extension("txt"),
        Err(PlaylistError::UnrecognizedFormat)
    );
}
