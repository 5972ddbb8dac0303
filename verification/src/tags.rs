//! Tag-selection parsing. A comma-separated selection string is split into
//! entries; each entry is case-normalized to the engine's camel-case naming
//! convention and parsed into a known tag identifier. An entry that fails
//! to parse is dropped (and reported), never aborting the whole resolution;
//! valid entries keep their order.

use vstd::prelude::*;
use vstd::string::*;
use convert_case::{Casing, Case};

verus! {

/// A known tag identifier that the delegated tagging engine understands.
#[derive(Clone, Copy, Debug, PartialEq, Eq, Structural)]
pub enum SupportedTag {
    Title,
    Artist,
    Album,
    AlbumArtist,
    AlbumArt,
    Genre,
    Style,
    Label,
    ReleaseDate,
    Bpm,
    Key,
    Mood,
    CatalogNumber,
    TrackNumber,
    Duration,
    Isrc,
}

/// The engine's canonical (camel-case) name of a tag.
pub open spec fn canonical_name(t: SupportedTag) -> Seq<char> {
    match t {
        SupportedTag::Title => "title"@,
        SupportedTag::Artist => "artist"@,
        SupportedTag::Album => "album"@,
        SupportedTag::AlbumArtist => "albumArtist"@,
        SupportedTag::AlbumArt => "albumArt"@,
        SupportedTag::Genre => "genre"@,
        SupportedTag::Style => "style"@,
        SupportedTag::Label => "label"@,
        SupportedTag::ReleaseDate => "releaseDate"@,
        SupportedTag::Bpm => "bpm"@,
        SupportedTag::Key => "key"@,
        SupportedTag::Mood => "mood"@,
        SupportedTag::CatalogNumber => "catalogNumber"@,
        SupportedTag::TrackNumber => "trackNumber"@,
        SupportedTag::Duration => "duration"@,
        SupportedTag::Isrc => "isrc"@,
    }
}

/// The tag whose canonical name is exactly `s`, if any.
pub open spec fn spec_match_tag(s: Seq<char>) -> Option<SupportedTag> {
    if s == "title"@ {
        Some(SupportedTag::Title)
    } else if s == "artist"@ {
        Some(SupportedTag::Artist)
    } else if s == "album"@ {
        Some(SupportedTag::Album)
    } else if s == "albumArtist"@ {
        Some(SupportedTag::AlbumArtist)
    } else if s == "albumArt"@ {
        Some(SupportedTag::AlbumArt)
    } else if s == "genre"@ {
        Some(SupportedTag::Genre)
    } else if s == "style"@ {
        Some(SupportedTag::Style)
    } else if s == "label"@ {
        Some(SupportedTag::Label)
    } else if s == "releaseDate"@ {
        Some(SupportedTag::ReleaseDate)
    } else if s == "bpm"@ {
        Some(SupportedTag::Bpm)
    } else if s == "key"@ {
        Some(SupportedTag::Key)
    } else if s == "mood"@ {
        Some(SupportedTag::Mood)
    } else if s == "catalogNumber"@ {
        Some(SupportedTag::CatalogNumber)
    } else if s == "trackNumber"@ {
        Some(SupportedTag::TrackNumber)
    } else if s == "duration"@ {
        Some(SupportedTag::Duration)
    } else if s == "isrc"@ {
        Some(SupportedTag::Isrc)
    } else {
        None
    }
}

/// What the camel-case conversion of the outside case-conversion crate
/// returns for a given character sequence.
pub uninterp spec fn camel_of(s: Seq<char>) -> Seq<char>;

/// Relies on convert_case's `Casing::to_case` with `Case::Camel`: the
/// conversion splits the input on its default word boundaries and joins
/// the words in camel case, a pure function of the input characters alone.
#[verifier::external_body]
fn to_camel(s: &str) -> (r: String)
    ensures
        r@ == camel_of(s@),
{
    s.to_case(Case::Camel)
}

/// Whether two string slices hold the same characters.
pub(crate) fn str_eq(a: &str, b: &str) -> (r: bool)
    ensures
        r == (a@ == b@),
{
    let x: String = a.to_owned();
    let y: String = b.to_owned();
    x == y
}

/// The tag an entry denotes: an exact canonical name matches as it stands;
/// any other entry matches through its camel-case normalization.
pub open spec fn spec_parse_entry(s: Seq<char>) -> Option<SupportedTag> {
    if spec_match_tag(s) is Some {
        spec_match_tag(s)
    } else {
        spec_match_tag(camel_of(s))
    }
}

fn match_tag(s: &str) -> (r: Option<SupportedTag>)
    ensures
        r == spec_match_tag(s@),
{
    if str_eq(s, "title") {
        Some(SupportedTag::Title)
    } else if str_eq(s, "artist") {
        Some(SupportedTag::Artist)
    } else if str_eq(s, "album") {
        Some(SupportedTag::Album)
    } else if str_eq(s, "albumArtist") {
        Some(SupportedTag::AlbumArtist)
    } else if str_eq(s, "albumArt") {
        Some(SupportedTag::AlbumArt)
    } else if str_eq(s, "genre") {
        Some(SupportedTag::Genre)
    } else if str_eq(s, "style") {
        Some(SupportedTag::Style)
    } else if str_eq(s, "label") {
        Some(SupportedTag::Label)
    } else if str_eq(s, "releaseDate") {
        Some(SupportedTag::ReleaseDate)
    } else if str_eq(s, "bpm") {
        Some(SupportedTag::Bpm)
    } else if str_eq(s, "key") {
        Some(SupportedTag::Key)
    } else if str_eq(s, "mood") {
        Some(SupportedTag::Mood)
    } else if str_eq(s, "catalogNumber") {
        Some(SupportedTag::CatalogNumber)
    } else if str_eq(s, "trackNumber") {
        Some(SupportedTag::TrackNumber)
    } else if str_eq(s, "duration") {
        Some(SupportedTag::Duration)
    } else if str_eq(s, "isrc") {
        Some(SupportedTag::Isrc)
    } else {
        None
    }
}

/// Parses one tag-selection entry into a known tag identifier.
pub fn parse_tag_entry(entry: &str) -> (r: Option<SupportedTag>)
    ensures
        r == spec_parse_entry(entry@),
{
    let direct = match_tag(entry);
    if direct.is_some() {
        direct
    } else {
        let normalized = to_camel(entry);
        match_tag(normalized.as_str())
    }
}

/// The engine's canonical name of a tag, as an owned string.
pub fn tag_name(t: &SupportedTag) -> (r: String)
    ensures
        r@ == canonical_name(*t),
{
    match t {
        SupportedTag::Title => "title".to_owned(),
        SupportedTag::Artist => "artist".to_owned(),
        SupportedTag::Album => "album".to_owned(),
        SupportedTag::AlbumArtist => "albumArtist".to_owned(),
        SupportedTag::AlbumArt => "albumArt".to_owned(),
        SupportedTag::Genre => "genre".to_owned(),
        SupportedTag::Style => "style".to_owned(),
        SupportedTag::Label => "label".to_owned(),
        SupportedTag::ReleaseDate => "releaseDate".to_owned(),
        SupportedTag::Bpm => "bpm".to_owned(),
        SupportedTag::Key => "key".to_owned(),
        SupportedTag::Mood => "mood".to_owned(),
        SupportedTag::CatalogNumber => "catalogNumber".to_owned(),
        SupportedTag::TrackNumber => "trackNumber".to_owned(),
        SupportedTag::Duration => "duration".to_owned(),
        SupportedTag::Isrc => "isrc".to_owned(),
    }
}

/// Splitting a character sequence at every comma. The result always holds
/// at least one (possibly empty) segment.
pub open spec fn split_commas(s: Seq<char>) -> Seq<Seq<char>>
    decreases s.len(),
{
    if s.len() == 0 {
        seq![Seq::<char>::empty()]
    } else {
        let rest = split_commas(s.drop_last());
        if s.last() == ',' {
            rest + seq![Seq::<char>::empty()]
        } else {
            rest.update(rest.len() - 1, rest.last().push(s.last()))
        }
    }
}

pub proof fn lemma_split_commas_nonempty(s: Seq<char>)
    ensures
        split_commas(s).len() >= 1,
    decreases s.len(),
{
    if s.len() > 0 {
        lemma_split_commas_nonempty(s.drop_last());
    }
}

/// Splits a selection string at every comma, keeping empty segments.
pub fn split_commas_exec(s: &str) -> (r: Vec<String>)
    ensures
        r.deep_view() == split_commas(s@),
{
    let n: usize = s.unicode_len();
    let mut out: Vec<String> = Vec::new();
    let mut start: usize = 0;
    let mut i: usize = 0;
    proof {
        assert(s@.subrange(0, 0) =~= Seq::<char>::empty());
        assert(out.deep_view().push(s@.subrange(0, 0)) =~~= split_commas(s@.subrange(0, 0)));
    }
    while i < n
        invariant
            n == s@.len(),
            start <= i <= n,
            out.deep_view().push(s@.subrange(start as int, i as int)) == split_commas(
                s@.subrange(0, i as int),
            ),
        decreases n - i,
    {
        let ghost pre = s@.subrange(0, i as int);
        let ghost post = s@.subrange(0, i + 1);
        let c = s.get_char(i);
        proof {
            assert(post.drop_last() =~= pre);
            assert(post.last() == s@[i as int]);
            lemma_split_commas_nonempty(pre);
        }
        if c == ',' {
            let seg = s.substring_char(start, i).to_owned();
            out.push(seg);
            proof {
                assert(out.deep_view() =~~= split_commas(pre));
            }
            start = i + 1;
            proof {
                assert(s@.subrange(start as int, i + 1) =~= Seq::<char>::empty());
                assert(out.deep_view().push(s@.subrange(start as int, i + 1)) =~~= split_commas(
                    post,
                ));
            }
        } else {
            proof {
                assert(s@.subrange(start as int, i as int).push(s@[i as int]) =~= s@.subrange(
                    start as int,
                    i + 1,
                ));
                assert(split_commas(pre).last() == s@.subrange(start as int, i as int));
                assert(out.deep_view().push(s@.subrange(start as int, i + 1)) =~~= split_commas(
                    post,
                ));
            }
        }
        i = i + 1;
    }
    let seg = s.substring_char(start, n).to_owned();
    out.push(seg);
    proof {
        assert(s@.subrange(0, n as int) =~= s@);
        assert(out.deep_view() =~~= split_commas(s@));
    }
    out
}

/// The valid entries of a sequence of entries, parsed, in order.
pub open spec fn parse_entries(es: Seq<Seq<char>>) -> Seq<SupportedTag>
    decreases es.len(),
{
    if es.len() == 0 {
        Seq::empty()
    } else {
        parse_entries(es.drop_last()) + (match spec_parse_entry(es.last()) {
            Some(t) => seq![t],
            None => Seq::empty(),
        })
    }
}

/// The invalid entries of a sequence of entries, in order.
pub open spec fn invalid_entries(es: Seq<Seq<char>>) -> Seq<Seq<char>>
    decreases es.len(),
{
    if es.len() == 0 {
        Seq::empty()
    } else {
        invalid_entries(es.drop_last()) + (match spec_parse_entry(es.last()) {
            Some(t) => Seq::empty(),
            None => seq![es.last()],
        })
    }
}

/// The tags a comma-separated selection string denotes, in order.
pub open spec fn spec_parse_tags(s: Seq<char>) -> Seq<SupportedTag> {
    parse_entries(split_commas(s))
}

/// The entries of a comma-separated selection string that parse to no tag.
pub open spec fn spec_invalid_tags(s: Seq<char>) -> Seq<Seq<char>> {
    invalid_entries(split_commas(s))
}

/// Parses a comma-separated tag-selection string. Returns the recognized
/// tags in entry order, and the entries that were dropped as invalid.
pub fn parse_tags(s: &str) -> (r: (Vec<SupportedTag>, Vec<String>))
    ensures
        r.0@ == spec_parse_tags(s@),
        r.1.deep_view() == spec_invalid_tags(s@),
{
    let entries = split_commas_exec(s);
    let mut tags: Vec<SupportedTag> = Vec::new();
    let mut invalid: Vec<String> = Vec::new();
    let mut i: usize = 0;
    proof {
        assert(entries.deep_view().subrange(0, 0) =~= Seq::<Seq<char>>::empty());
        assert(tags@ =~= parse_entries(entries.deep_view().subrange(0, 0)));
        assert(invalid.deep_view() =~~= invalid_entries(entries.deep_view().subrange(0, 0)));
    }
    while i < entries.len()
        invariant
            i <= entries.len(),
            tags@ == parse_entries(entries.deep_view().subrange(0, i as int)),
            invalid.deep_view() == invalid_entries(entries.deep_view().subrange(0, i as int)),
            entries.deep_view() == split_commas(s@),
        decreases entries.len() - i,
    {
        proof {
            assert(entries.deep_view().subrange(0, i + 1).drop_last() =~= entries.deep_view()
                .subrange(0, i as int));
            assert(entries.deep_view().subrange(0, i + 1).last() == entries.deep_view()[i as int]);
            assert(entries.deep_view()[i as int] == entries@[i as int]@);
        }
        match parse_tag_entry(entries[i].as_str()) {
            Some(t) => {
                tags.push(t);
                proof {
                    assert(tags@ =~= parse_entries(entries.deep_view().subrange(0, i + 1)));
                    assert(invalid.deep_view() =~~= invalid_entries(
                        entries.deep_view().subrange(0, i + 1),
                    ));
                }
            },
            None => {
                invalid.push(entries[i].clone());
                proof {
                    assert(tags@ =~= parse_entries(entries.deep_view().subrange(0, i + 1)));
                    assert(invalid.deep_view() =~~= invalid_entries(
                        entries.deep_view().subrange(0, i + 1),
                    ));
                }
            },
        }
        i = i + 1;
    }
    proof {
        assert(entries.deep_view().subrange(0, entries.len() as int) =~= entries.deep_view());
    }
    (tags, invalid)
}

/// Every entry is either parsed or reported invalid: among `N` entries, one
/// invalid entry drops only itself and the remaining `N - 1` are kept.
pub proof fn lemma_parse_partition(es: Seq<Seq<char>>)
    ensures
        parse_entries(es).len() + invalid_entries(es).len() == es.len(),
    decreases es.len(),
{
    if es.len() > 0 {
        lemma_parse_partition(es.drop_last());
    }
}

/// Parsing a tag's canonical name returns exactly that tag.
pub proof fn lemma_match_canonical(t: SupportedTag)
    ensures
        spec_match_tag(canonical_name(t)) == Some(t),
        spec_parse_entry(canonical_name(t)) == Some(t),
{
    reveal_strlit("title");
    reveal_strlit("artist");
    reveal_strlit("album");
    reveal_strlit("albumArtist");
    reveal_strlit("albumArt");
    reveal_strlit("genre");
    reveal_strlit("style");
    reveal_strlit("label");
    reveal_strlit("releaseDate");
    reveal_strlit("bpm");
    reveal_strlit("key");
    reveal_strlit("mood");
    reveal_strlit("catalogNumber");
    reveal_strlit("trackNumber");
    reveal_strlit("duration");
    reveal_strlit("isrc");
    assert("title"@.len() == 5 && "title"@[0] == 't');
    assert("artist"@.len() == 6 && "artist"@[0] == 'a');
    assert("album"@.len() == 5 && "album"@[0] == 'a');
    assert("albumArtist"@.len() == 11 && "albumArtist"@[0] == 'a');
    assert("albumArt"@.len() == 8 && "albumArt"@[0] == 'a');
    assert("genre"@.len() == 5 && "genre"@[0] == 'g');
    assert("style"@.len() == 5 && "style"@[0] == 's');
    assert("label"@.len() == 5 && "label"@[0] == 'l');
    assert("releaseDate"@.len() == 11 && "releaseDate"@[0] == 'r');
    assert("bpm"@.len() == 3 && "bpm"@[0] == 'b');
    assert("key"@.len() == 3 && "key"@[0] == 'k');
    assert("mood"@.len() == 4 && "mood"@[0] == 'm');
    assert("catalogNumber"@.len() == 13 && "catalogNumber"@[0] == 'c');
    assert("trackNumber"@.len() == 11 && "trackNumber"@[0] == 't');
    assert("duration"@.len() == 8 && "duration"@[0] == 'd');
    assert("isrc"@.len() == 4 && "isrc"@[0] == 'i');
    match t {
        SupportedTag::Title => {
            assert(spec_match_tag(canonical_name(t)) == Some(SupportedTag::Title));
        },
        SupportedTag::Artist => {
            assert(spec_match_tag(canonical_name(t)) == Some(SupportedTag::Artist));
        },
        SupportedTag::Album => {
            assert(spec_match_tag(canonical_name(t)) == Some(SupportedTag::Album));
        },
        SupportedTag::AlbumArtist => {
            assert(spec_match_tag(canonical_name(t)) == Some(SupportedTag::AlbumArtist));
        },
        SupportedTag::AlbumArt => {
            assert(spec_match_tag(canonical_name(t)) == Some(SupportedTag::AlbumArt));
        },
        SupportedTag::Genre => {
            assert(spec_match_tag(canonical_name(t)) == Some(SupportedTag::Genre));
        },
        SupportedTag::Style => {
            assert(spec_match_tag(canonical_name(t)) == Some(SupportedTag::Style));
        },
        SupportedTag::Label => {
            assert(spec_match_tag(canonical_name(t)) == Some(SupportedTag::Label));
        },
        SupportedTag::ReleaseDate => {
            assert(spec_match_tag(canonical_name(t)) == Some(SupportedTag::ReleaseDate));
        },
        SupportedTag::Bpm => {
            assert(spec_match_tag(canonical_name(t)) == Some(SupportedTag::Bpm));
        },
        SupportedTag::Key => {
            assert(spec_match_tag(canonical_name(t)) == Some(SupportedTag::Key));
        },
        SupportedTag::Mood => {
            assert(spec_match_tag(canonical_name(t)) == Some(SupportedTag::Mood));
        },
        SupportedTag::CatalogNumber => {
            assert(spec_match_tag(canonical_name(t)) == Some(SupportedTag::CatalogNumber));
        },
        SupportedTag::TrackNumber => {
            assert(spec_match_tag(canonical_name(t)) == Some(SupportedTag::TrackNumber));
        },
        SupportedTag::Duration => {
            assert(spec_match_tag(canonical_name(t)) == Some(SupportedTag::Duration));
        },
        SupportedTag::Isrc => {
            assert(spec_match_tag(canonical_name(t)) == Some(SupportedTag::Isrc));
        },
    }
}

/// Tag-list parsing is idempotent and order-preserving for valid entries:
/// parsing the canonical names of an already-parsed tag sequence returns
/// that sequence unchanged, with nothing dropped.
pub proof fn lemma_parse_canonical_idempotent(ts: Seq<SupportedTag>)
    ensures
        parse_entries(ts.map_values(|t: SupportedTag| canonical_name(t))) == ts,
        invalid_entries(ts.map_values(|t: SupportedTag| canonical_name(t))) == Seq::<
            Seq<char>,
        >::empty(),
    decreases ts.len(),
{
    let es = ts.map_values(|t: SupportedTag| canonical_name(t));
    if ts.len() == 0 {
        assert(parse_entries(es) =~= ts);
        assert(invalid_entries(es) =~= Seq::<Seq<char>>::empty());
    } else {
        lemma_parse_canonical_idempotent(ts.drop_last());
        lemma_match_canonical(ts.last());
        assert(es.drop_last() =~= ts.drop_last().map_values(
            |t: SupportedTag| canonical_name(t),
        ));
        assert(es.last() == canonical_name(ts.last()));
        assert(parse_entries(es) =~= ts);
        assert(invalid_entries(es) =~= Seq::<Seq<char>>::empty());
    }
}

} // verus!
