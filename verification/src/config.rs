//! Configuration resolution: merges the built-in default configuration, an
//! optional file-loaded configuration, and CLI overrides into one canonical
//! job configuration. Later sources win, field by field; a boolean CLI flag
//! overrides only when set to true, and an absent flag never clobbers a
//! value already set by the file or the default. The one asymmetric
//! exception is the subfolder exclusion flag, which forces subfolder
//! inclusion off but never on.

use vstd::prelude::*;
use crate::tags::{SupportedTag, split_commas, split_commas_exec, spec_parse_tags,
    spec_invalid_tags, parse_tags};

verus! {

/// The canonical, fully-resolved set of options governing one tagging run.
/// Immutable once resolved. The matching strictness is held as a percentage
/// in `0..=100` (the delegated engine consumes it as a `[0, 1]` fraction).
#[derive(Clone, Debug, PartialEq)]
pub struct TaggerConfig {
    pub path: Option<String>,
    pub platforms: Vec<String>,
    pub tags: Vec<SupportedTag>,
    pub id3v24: bool,
    pub overwrite: bool,
    pub album_art_file: bool,
    pub merge_genres: bool,
    pub camelot: bool,
    pub short_title: bool,
    pub match_duration: bool,
    pub match_by_id: bool,
    pub enable_shazam: bool,
    pub force_shazam: bool,
    pub skip_tagged: bool,
    pub parse_filename: bool,
    pub only_year: bool,
    pub multiplatform: bool,
    pub threads: u16,
    pub strictness: u8,
    pub max_duration_difference: u64,
    pub filename_template: Option<String>,
    pub include_subfolders: bool,
}

/// Whether `c` is exactly the built-in default configuration.
pub open spec fn is_default_config(c: TaggerConfig) -> bool {
    &&& c.path is None
    &&& c.platforms.deep_view() =~= seq!["beatport"@]
    &&& c.tags@ =~= Seq::<SupportedTag>::empty()
    &&& c.id3v24 == false
    &&& c.overwrite == false
    &&& c.album_art_file == false
    &&& c.merge_genres == false
    &&& c.camelot == false
    &&& c.short_title == false
    &&& c.match_duration == false
    &&& c.match_by_id == false
    &&& c.enable_shazam == false
    &&& c.force_shazam == false
    &&& c.skip_tagged == false
    &&& c.parse_filename == false
    &&& c.only_year == false
    &&& c.multiplatform == false
    &&& c.threads == 16u16
    &&& c.strictness == 80u8
    &&& c.max_duration_difference == 30u64
    &&& c.filename_template is None
    &&& c.include_subfolders == true
}

impl TaggerConfig {
    /// The built-in default configuration, used as the resolution base when
    /// no config file is supplied.
    pub fn custom_default() -> (c: TaggerConfig)
        ensures
            is_default_config(c),
    {
        let mut platforms: Vec<String> = Vec::new();
        platforms.push("beatport".to_owned());
        let c = TaggerConfig {
            path: None,
            platforms,
            tags: Vec::new(),
            id3v24: false,
            overwrite: false,
            album_art_file: false,
            merge_genres: false,
            camelot: false,
            short_title: false,
            match_duration: false,
            match_by_id: false,
            enable_shazam: false,
            force_shazam: false,
            skip_tagged: false,
            parse_filename: false,
            only_year: false,
            multiplatform: false,
            threads: 16,
            strictness: 80,
            max_duration_difference: 30,
            filename_template: None,
            include_subfolders: true,
        };
        proof {
            assert(c.platforms.deep_view() =~= seq!["beatport"@]);
        }
        c
    }
}

/// An error resolving the configuration: the referenced config file is
/// missing or does not parse as the expected schema. Fatal: the action
/// aborts before any work begins.
#[derive(Clone, Debug, PartialEq)]
pub enum ConfigError {
    MissingFile,
    Malformed,
}

/// The CLI-supplied overrides for one autotagger run. A `None` or `false`
/// field was not supplied on the command line and must not change the base
/// configuration; a boolean field overrides only when set to true.
#[derive(Clone, Debug, PartialEq)]
pub struct AutotaggerOverrides {
    pub path: Option<String>,
    pub platforms: Option<String>,
    pub tags: Option<String>,
    pub id3v24: bool,
    pub overwrite: bool,
    pub album_art_file: bool,
    pub merge_genres: bool,
    pub camelot: bool,
    pub short_title: bool,
    pub match_duration: bool,
    pub match_by_id: bool,
    pub enable_shazam: bool,
    pub force_shazam: bool,
    pub skip_tagged: bool,
    pub parse_filename: bool,
    pub only_year: bool,
    pub multiplatform: bool,
    pub threads: Option<u16>,
    pub strictness: Option<u8>,
    pub max_duration_difference: Option<u64>,
    pub filename_template: Option<String>,
    pub no_subfolders: bool,
}

/// Whether no override at all was supplied on the command line.
pub open spec fn is_empty_overrides(ov: AutotaggerOverrides) -> bool {
    &&& ov.path is None
    &&& ov.platforms is None
    &&& ov.tags is None
    &&& ov.id3v24 == false
    &&& ov.overwrite == false
    &&& ov.album_art_file == false
    &&& ov.merge_genres == false
    &&& ov.camelot == false
    &&& ov.short_title == false
    &&& ov.match_duration == false
    &&& ov.match_by_id == false
    &&& ov.enable_shazam == false
    &&& ov.force_shazam == false
    &&& ov.skip_tagged == false
    &&& ov.parse_filename == false
    &&& ov.only_year == false
    &&& ov.multiplatform == false
    &&& ov.threads is None
    &&& ov.strictness is None
    &&& ov.max_duration_difference is None
    &&& ov.filename_template is None
    &&& ov.no_subfolders == false
}

impl AutotaggerOverrides {
    /// The empty override set: nothing supplied on the command line.
    pub fn none() -> (ov: AutotaggerOverrides)
        ensures
            is_empty_overrides(ov),
    {
        AutotaggerOverrides {
            path: None,
            platforms: None,
            tags: None,
            id3v24: false,
            overwrite: false,
            album_art_file: false,
            merge_genres: false,
            camelot: false,
            short_title: false,
            match_duration: false,
            match_by_id: false,
            enable_shazam: false,
            force_shazam: false,
            skip_tagged: false,
            parse_filename: false,
            only_year: false,
            multiplatform: false,
            threads: None,
            strictness: None,
            max_duration_difference: None,
            filename_template: None,
            no_subfolders: false,
        }
    }
}

/// A non-fatal condition met while resolving: an unknown tag entry was
/// dropped, or an out-of-range strictness percentage was ignored.
#[derive(Clone, Debug, PartialEq)]
pub enum ResolveWarning {
    InvalidTag(String),
    InvalidStrictness(u8),
}

/// The mathematical model of a resolve warning.
pub enum SpecWarning {
    InvalidTag(Seq<char>),
    InvalidStrictness(u8),
}

impl View for ResolveWarning {
    type V = SpecWarning;

    open spec fn view(&self) -> SpecWarning {
        match self {
            ResolveWarning::InvalidTag(s) => SpecWarning::InvalidTag(s@),
            ResolveWarning::InvalidStrictness(v) => SpecWarning::InvalidStrictness(*v),
        }
    }
}

impl DeepView for ResolveWarning {
    type V = SpecWarning;

    open spec fn deep_view(&self) -> SpecWarning {
        self.view()
    }
}

/// How the resolved configuration `r` relates to the base configuration
/// `base` and the CLI overrides `ov`: every field of `r` is pinned. A field
/// is overridden only if explicitly supplied; boolean flags override only
/// when true; an out-of-range strictness is ignored; the subfolder
/// exclusion flag alone may force a feature off.
pub open spec fn resolved(base: TaggerConfig, ov: AutotaggerOverrides, r: TaggerConfig) -> bool {
    &&& r.path == (if ov.path is Some {
        Some(ov.path->0)
    } else {
        base.path
    })
    &&& r.platforms.deep_view() == (if ov.platforms is Some {
        split_commas(ov.platforms->0@)
    } else {
        base.platforms.deep_view()
    })
    &&& r.tags@ == (if ov.tags is Some {
        spec_parse_tags(ov.tags->0@)
    } else {
        base.tags@
    })
    &&& r.id3v24 == (ov.id3v24 || base.id3v24)
    &&& r.overwrite == (ov.overwrite || base.overwrite)
    &&& r.album_art_file == (ov.album_art_file || base.album_art_file)
    &&& r.merge_genres == (ov.merge_genres || base.merge_genres)
    &&& r.camelot == (ov.camelot || base.camelot)
    &&& r.short_title == (ov.short_title || base.short_title)
    &&& r.match_duration == (ov.match_duration || base.match_duration)
    &&& r.match_by_id == (ov.match_by_id || base.match_by_id)
    &&& r.enable_shazam == (ov.enable_shazam || base.enable_shazam)
    &&& r.force_shazam == (ov.force_shazam || base.force_shazam)
    &&& r.skip_tagged == (ov.skip_tagged || base.skip_tagged)
    &&& r.parse_filename == (ov.parse_filename || base.parse_filename)
    &&& r.only_year == (ov.only_year || base.only_year)
    &&& r.multiplatform == (ov.multiplatform || base.multiplatform)
    &&& r.threads == (if ov.threads is Some {
        ov.threads->0
    } else {
        base.threads
    })
    &&& r.strictness == (if ov.strictness is Some && ov.strictness->0 <= 100 {
        ov.strictness->0
    } else {
        base.strictness
    })
    &&& r.max_duration_difference == (if ov.max_duration_difference is Some {
        ov.max_duration_difference->0
    } else {
        base.max_duration_difference
    })
    &&& r.filename_template == (if ov.filename_template is Some {
        Some(ov.filename_template->0)
    } else {
        base.filename_template
    })
    &&& r.include_subfolders == (if ov.no_subfolders {
        false
    } else {
        base.include_subfolders
    })
}

/// One `InvalidTag` warning per dropped entry, in entry order.
pub open spec fn invalid_tag_warning_seq(es: Seq<Seq<char>>) -> Seq<SpecWarning> {
    es.map_values(|e: Seq<char>| SpecWarning::InvalidTag(e))
}

/// The warnings that resolving with overrides `ov` emits: one per dropped
/// tag entry, in entry order, then one if an out-of-range strictness
/// percentage was ignored.
pub open spec fn spec_resolve_warnings(ov: AutotaggerOverrides) -> Seq<SpecWarning> {
    (if ov.tags is Some {
        invalid_tag_warning_seq(spec_invalid_tags(ov.tags->0@))
    } else {
        Seq::<SpecWarning>::empty()
    }) + (if ov.strictness is Some && ov.strictness->0 > 100 {
        seq![SpecWarning::InvalidStrictness(ov.strictness->0)]
    } else {
        Seq::<SpecWarning>::empty()
    })
}

/// One `InvalidTag` warning per dropped tag entry, in entry order.
fn invalid_tag_warnings(invalid: &Vec<String>) -> (w: Vec<ResolveWarning>)
    ensures
        w.deep_view() == invalid_tag_warning_seq(invalid.deep_view()),
{
    let mut w: Vec<ResolveWarning> = Vec::new();
    let mut j: usize = 0;
    while j < invalid.len()
        invariant
            j <= invalid.len(),
            w.deep_view().len() == j,
            forall|k: int|
                0 <= k < j ==> w.deep_view()[k] == SpecWarning::InvalidTag(
                    invalid.deep_view()[k],
                ),
        decreases invalid.len() - j,
    {
        let entry = invalid[j].clone();
        let warning = ResolveWarning::InvalidTag(entry);
        let ghost wv = warning.deep_view();
        let ghost wd0 = w.deep_view();
        proof {
            assert(wv == SpecWarning::InvalidTag(invalid.deep_view()[j as int]));
        }
        w.push(warning);
        proof {
            assert(w.deep_view() =~~= wd0.push(wv));
        }
        j = j + 1;
    }
    proof {
        assert(w.deep_view() =~~= invalid_tag_warning_seq(invalid.deep_view()));
    }
    w
}

/// Applies the CLI overrides to the base configuration, field by field.
fn resolve_config(base: TaggerConfig, ov: &AutotaggerOverrides) -> (c: TaggerConfig)
    ensures
        resolved(base, *ov, c),
{
    let resolved_tags: Vec<SupportedTag> = match &ov.tags {
        Some(ts) => {
            let (parsed, _invalid) = parse_tags(ts.as_str());
            parsed
        },
        None => base.tags,
    };
    TaggerConfig {
        path: match &ov.path {
            Some(p) => Some(p.clone()),
            None => base.path,
        },
        platforms: match &ov.platforms {
            Some(p) => split_commas_exec(p.as_str()),
            None => base.platforms,
        },
        tags: resolved_tags,
        id3v24: ov.id3v24 || base.id3v24,
        overwrite: ov.overwrite || base.overwrite,
        album_art_file: ov.album_art_file || base.album_art_file,
        merge_genres: ov.merge_genres || base.merge_genres,
        camelot: ov.camelot || base.camelot,
        short_title: ov.short_title || base.short_title,
        match_duration: ov.match_duration || base.match_duration,
        match_by_id: ov.match_by_id || base.match_by_id,
        enable_shazam: ov.enable_shazam || base.enable_shazam,
        force_shazam: ov.force_shazam || base.force_shazam,
        skip_tagged: ov.skip_tagged || base.skip_tagged,
        parse_filename: ov.parse_filename || base.parse_filename,
        only_year: ov.only_year || base.only_year,
        multiplatform: ov.multiplatform || base.multiplatform,
        threads: match ov.threads {
            Some(t) => t,
            None => base.threads,
        },
        strictness: match ov.strictness {
            Some(s) => if s <= 100 {
                s
            } else {
                base.strictness
            },
            None => base.strictness,
        },
        max_duration_difference: match ov.max_duration_difference {
            Some(m) => m,
            None => base.max_duration_difference,
        },
        filename_template: match &ov.filename_template {
            Some(t) => Some(t.clone()),
            None => base.filename_template,
        },
        include_subfolders: if ov.no_subfolders {
            false
        } else {
            base.include_subfolders
        },
    }
}

/// The warnings the overrides give rise to: one per dropped tag entry, in
/// entry order, then one if an out-of-range strictness was ignored.
fn resolve_warnings(ov: &AutotaggerOverrides) -> (w: Vec<ResolveWarning>)
    ensures
        w.deep_view() == spec_resolve_warnings(*ov),
{
    let mut w: Vec<ResolveWarning> = Vec::new();
    proof {
        assert(w.deep_view() =~= Seq::<SpecWarning>::empty());
    }
    match &ov.tags {
        Some(ts) => {
            let (_parsed, invalid) = parse_tags(ts.as_str());
            w = invalid_tag_warnings(&invalid);
        },
        None => {},
    }
    let ghost tag_warnings: Seq<SpecWarning> = w.deep_view();
    let mut strictness_rejected = false;
    if let Some(s) = ov.strictness {
        if s > 100 {
            strictness_rejected = true;
            let ghost w0 = w.deep_view();
            w.push(ResolveWarning::InvalidStrictness(s));
            proof {
                assert(w.deep_view() =~= w0.push(SpecWarning::InvalidStrictness(s)));
                assert(w.deep_view() =~= tag_warnings + seq![
                    SpecWarning::InvalidStrictness(s),
                ]);
            }
        }
    }
    proof {
        if !strictness_rejected {
            assert(w.deep_view() =~= tag_warnings + Seq::<SpecWarning>::empty());
        }
    }
    w
}

/// Applies the CLI overrides on top of the base configuration, field by
/// field. Never fails: an unknown tag entry or an out-of-range strictness
/// is reported as a warning and skipped, not an error.
pub fn resolve(base: TaggerConfig, ov: &AutotaggerOverrides) -> (r: (
    TaggerConfig,
    Vec<ResolveWarning>,
))
    ensures
        resolved(base, *ov, r.0),
        r.1.deep_view() == spec_resolve_warnings(*ov),
{
    let warnings = resolve_warnings(ov);
    let c = resolve_config(base, ov);
    (c, warnings)
}

/// Resolving from defaults alone reproduces the built-in default
/// configuration exactly: with an empty override set and the default base,
/// every field of the result is the default field.
pub proof fn lemma_defaults_reproduce(
    base: TaggerConfig,
    ov: AutotaggerOverrides,
    r: TaggerConfig,
)
    requires
        resolved(base, ov, r),
        is_default_config(base),
        is_empty_overrides(ov),
    ensures
        is_default_config(r),
{
}

/// Override precedence: a boolean CLI flag set to true always wins over
/// both file and default, and an absent CLI flag (false, or `None`) never
/// changes a value set by the base.
pub proof fn lemma_override_precedence(
    base: TaggerConfig,
    ov: AutotaggerOverrides,
    r: TaggerConfig,
)
    requires
        resolved(base, ov, r),
    ensures
        ov.id3v24 ==> r.id3v24,
        ov.overwrite ==> r.overwrite,
        ov.album_art_file ==> r.album_art_file,
        ov.merge_genres ==> r.merge_genres,
        ov.camelot ==> r.camelot,
        ov.short_title ==> r.short_title,
        ov.match_duration ==> r.match_duration,
        ov.match_by_id ==> r.match_by_id,
        ov.enable_shazam ==> r.enable_shazam,
        ov.force_shazam ==> r.force_shazam,
        ov.skip_tagged ==> r.skip_tagged,
        ov.parse_filename ==> r.parse_filename,
        ov.only_year ==> r.only_year,
        ov.multiplatform ==> r.multiplatform,
        !ov.id3v24 ==> r.id3v24 == base.id3v24,
        !ov.overwrite ==> r.overwrite == base.overwrite,
        !ov.album_art_file ==> r.album_art_file == base.album_art_file,
        !ov.merge_genres ==> r.merge_genres == base.merge_genres,
        !ov.camelot ==> r.camelot == base.camelot,
        !ov.short_title ==> r.short_title == base.short_title,
        !ov.match_duration ==> r.match_duration == base.match_duration,
        !ov.match_by_id ==> r.match_by_id == base.match_by_id,
        !ov.enable_shazam ==> r.enable_shazam == base.enable_shazam,
        !ov.force_shazam ==> r.force_shazam == base.force_shazam,
        !ov.skip_tagged ==> r.skip_tagged == base.skip_tagged,
        !ov.parse_filename ==> r.parse_filename == base.parse_filename,
        !ov.only_year ==> r.only_year == base.only_year,
        !ov.multiplatform ==> r.multiplatform == base.multiplatform,
        ov.path is None ==> r.path == base.path,
        ov.platforms is None ==> r.platforms.deep_view() == base.platforms.deep_view(),
        ov.tags is None ==> r.tags@ == base.tags@,
        ov.threads is None ==> r.threads == base.threads,
        ov.strictness is None ==> r.strictness == base.strictness,
        ov.max_duration_difference is None ==> r.max_duration_difference
            == base.max_duration_difference,
        ov.filename_template is None ==> r.filename_template == base.filename_template,
{
}

/// A strictness override outside `0..=100` leaves the base strictness
/// unchanged and emits a warning; one inside the range is applied as given.
pub proof fn lemma_strictness_override(
    base: TaggerConfig,
    ov: AutotaggerOverrides,
    r: TaggerConfig,
    ws: Seq<SpecWarning>,
)
    requires
        resolved(base, ov, r),
        ws == spec_resolve_warnings(ov),
    ensures
        ov.strictness is Some && ov.strictness->0 > 100 ==> r.strictness == base.strictness
            && ws.contains(SpecWarning::InvalidStrictness(ov.strictness->0)),
        ov.strictness is Some && ov.strictness->0 <= 100 ==> r.strictness == ov.strictness->0,
{
    if ov.strictness is Some && ov.strictness->0 > 100 {
        assert(ws.last() == SpecWarning::InvalidStrictness(ov.strictness->0));
        assert(ws.contains(SpecWarning::InvalidStrictness(ov.strictness->0)));
    }
}

} // verus!
