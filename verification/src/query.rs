//! Lookup-query construction: turning track metadata into the query the
//! lyrics service understands, with user-directed field suppression.

use vstd::prelude::*;
use vstd::string::StringExecFns;
use crate::model::{MetadataModel, TrackMetadata};
use crate::numfmt::{spec_decimal, u64_to_string};

verus! {

/// Which query fields the user asked to suppress, resolved once from the raw
/// ignore tokens. Artist suppression applies only on the search-fallback
/// path, never to the exact lookup.
#[derive(Debug, Clone, Copy, PartialEq, Eq)]
pub struct IgnoreFlags {
    pub duration: bool,
    pub album: bool,
    pub artist: bool,
}

/// Whether `toks` holds the token `t`.
pub open spec fn has_token(toks: Seq<Seq<char>>, t: Seq<char>) -> bool {
    toks.contains(t)
}

proof fn lemma_contains_push(s: Seq<Seq<char>>, v: Seq<char>, x: Seq<char>)
    ensures
        s.push(v).contains(x) <==> (s.contains(x) || v == x),
{
    if s.contains(x) {
        let j = choose|j: int| 0 <= j < s.len() && s[j] == x;
        assert(s.push(v)[j] == x);
    }
    if v == x {
        assert(s.push(v)[s.len() as int] == x);
    }
    if s.push(v).contains(x) && v != x {
        let j = choose|j: int| 0 <= j < s.push(v).len() && s.push(v)[j] == x;
        assert(s[j] == x);
    }
}

impl IgnoreFlags {
    /// Nothing suppressed.
    pub fn none() -> (r: IgnoreFlags)
        ensures
            !r.duration && !r.album && !r.artist,
    {
        IgnoreFlags { duration: false, album: false, artist: false }
    }

    /// Resolves the raw, case-sensitive ignore tokens. Recognized tokens are
    /// "duration", "album_name"/"album" and "artist_name"/"artist";
    /// unrecognized tokens are ignored without error.
    pub fn from_tokens(tokens: &Vec<String>) -> (r: IgnoreFlags)
        ensures
            r.duration == has_token(tokens.deep_view(), "duration"@),
            r.album == (has_token(tokens.deep_view(), "album_name"@) || has_token(
                tokens.deep_view(),
                "album"@,
            )),
            r.artist == (has_token(tokens.deep_view(), "artist_name"@) || has_token(
                tokens.deep_view(),
                "artist"@,
            )),
    {
        let duration_tok = String::from_str("duration");
        let album_name_tok = String::from_str("album_name");
        let album_tok = String::from_str("album");
        let artist_name_tok = String::from_str("artist_name");
        let artist_tok = String::from_str("artist");
        let ghost toks = tokens.deep_view();
        let mut flags = IgnoreFlags { duration: false, album: false, artist: false };
        let mut i: usize = 0;
        while i < tokens.len()
            invariant
                i <= tokens.len(),
                toks == tokens.deep_view(),
                toks.len() == tokens@.len(),
                forall|j: int| 0 <= j < toks.len() ==> toks[j] == tokens@[j]@,
                duration_tok@ == "duration"@,
                album_name_tok@ == "album_name"@,
                album_tok@ == "album"@,
                artist_name_tok@ == "artist_name"@,
                artist_tok@ == "artist"@,
                flags.duration == has_token(toks.take(i as int), "duration"@),
                flags.album == (has_token(toks.take(i as int), "album_name"@) || has_token(
                    toks.take(i as int),
                    "album"@,
                )),
                flags.artist == (has_token(toks.take(i as int), "artist_name"@) || has_token(
                    toks.take(i as int),
                    "artist"@,
                )),
            decreases tokens.len() - i,
        {
            let tok: &String = &tokens[i];
            if *tok == duration_tok {
                flags.duration = true;
            }
            if *tok == album_name_tok || *tok == album_tok {
                flags.album = true;
            }
            if *tok == artist_name_tok || *tok == artist_tok {
                flags.artist = true;
            }
            proof {
                assert(toks.take(i + 1 as int) =~= toks.take(i as int).push(toks[i as int]));
                lemma_contains_push(toks.take(i as int), toks[i as int], "duration"@);
                lemma_contains_push(toks.take(i as int), toks[i as int], "album_name"@);
                lemma_contains_push(toks.take(i as int), toks[i as int], "album"@);
                lemma_contains_push(toks.take(i as int), toks[i as int], "artist_name"@);
                lemma_contains_push(toks.take(i as int), toks[i as int], "artist"@);
            }
            i = i + 1;
        }
        proof {
            assert(toks.take(tokens@.len() as int) =~= toks);
        }
        flags
    }
}

/// The joined display form of a list of names: the parts in order, separated
/// by `sep`, empty when there are no parts.
pub open spec fn spec_join(parts: Seq<Seq<char>>, sep: Seq<char>) -> Seq<char>
    decreases parts.len(),
{
    if parts.len() == 0 {
        Seq::empty()
    } else if parts.len() == 1 {
        parts[0]
    } else {
        spec_join(parts.drop_last(), sep) + sep + parts.last()
    }
}

/// Joins name parts with a separator, as an artist list is joined into one
/// display string.
pub fn join_names(parts: &Vec<String>, sep: &str) -> (r: String)
    ensures
        r@ == spec_join(parts.deep_view(), sep@),
{
    let ghost ps = parts.deep_view();
    let mut out = String::new();
    let mut i: usize = 0;
    while i < parts.len()
        invariant
            i <= parts.len(),
            ps == parts.deep_view(),
            ps.len() == parts@.len(),
            forall|j: int| 0 <= j < ps.len() ==> ps[j] == parts@[j]@,
            out@ == spec_join(ps.take(i as int), sep@),
        decreases parts.len() - i,
    {
        if i > 0 {
            out.append(sep);
        }
        let part: &String = &parts[i];
        out.append(part.as_str());
        proof {
            assert(ps.take(i + 1 as int).drop_last() =~= ps.take(i as int));
            assert(ps.take(i + 1 as int).last() == ps[i as int]);
            if i == 0 {
                assert(out@ =~= spec_join(ps.take(i + 1 as int), sep@));
            }
        }
        i = i + 1;
    }
    proof {
        assert(ps.take(parts@.len() as int) =~= ps);
    }
    out
}

/// The query sent to the lyrics service for one track.
#[derive(Debug, Clone, PartialEq)]
pub struct LrclibQuery {
    pub track_name: String,
    pub artist_name: String,
    pub album_name: Option<String>,
    pub duration: Option<u64>,
}

/// Mathematical view of [`LrclibQuery`].
pub struct QueryModel {
    pub track: Seq<char>,
    pub artist: Seq<char>,
    pub album: Option<Seq<char>>,
    pub duration: Option<u64>,
}

impl View for LrclibQuery {
    type V = QueryModel;

    open spec fn view(&self) -> QueryModel {
        QueryModel {
            track: self.track_name.deep_view(),
            artist: self.artist_name.deep_view(),
            album: self.album_name.deep_view(),
            duration: self.duration,
        }
    }
}

/// The parameter pairs of the search request: `track_name` always,
/// `artist_name` only when non-empty, `album_name` when present. Duration is
/// never sent on a search; it ranks candidates client-side instead.
pub open spec fn spec_search_pairs(q: QueryModel) -> Seq<(Seq<char>, Seq<char>)> {
    let base = seq![("track_name"@, q.track)];
    let with_artist = if q.artist.len() > 0 {
        base.push(("artist_name"@, q.artist))
    } else {
        base
    };
    match q.album {
        Some(a) => with_artist.push(("album_name"@, a)),
        None => with_artist,
    }
}

/// The parameter pairs of the exact-get request: `track_name` and
/// `artist_name` always — the artist even when empty, since the exact
/// protocol needs it to disambiguate — then `album_name` and `duration` when
/// present. The asymmetry with the search pairs is deliberate.
pub open spec fn spec_get_pairs(q: QueryModel) -> Seq<(Seq<char>, Seq<char>)> {
    let base = seq![("track_name"@, q.track), ("artist_name"@, q.artist)];
    let with_album = match q.album {
        Some(a) => base.push(("album_name"@, a)),
        None => base,
    };
    match q.duration {
        Some(d) => with_album.push(("duration"@, spec_decimal(d as int))),
        None => with_album,
    }
}

/// The hand-built query string of the exact-get request: `track_name` and
/// `artist_name` always (artist even when empty), then `album_name` and
/// `duration` when present.
pub open spec fn spec_get_query_string(q: QueryModel) -> Seq<char> {
    "track_name="@ + q.track + "&artist_name="@ + q.artist + (match q.album {
        Some(a) => "&album_name="@ + a,
        None => Seq::<char>::empty(),
    }) + (match q.duration {
        Some(d) => "&duration="@ + spec_decimal(d as int),
        None => Seq::<char>::empty(),
    })
}

impl LrclibQuery {
    /// Renders the exact-get request as one query string.
    pub fn to_get_query_string(&self) -> (r: String)
        ensures
            r@ == spec_get_query_string(self@),
    {
        let mut query = String::new();
        query.append("track_name=");
        query.append(self.track_name.as_str());
        query.append("&artist_name=");
        query.append(self.artist_name.as_str());
        if let Some(album_name) = &self.album_name {
            query.append("&album_name=");
            query.append(album_name.as_str());
        }
        if let Some(duration) = &self.duration {
            query.append("&duration=");
            let rendered = u64_to_string(*duration);
            query.append(rendered.as_str());
        }
        proof {
            assert(query@ =~= spec_get_query_string(self@));
        }
        query
    }

    /// The parameter pairs of the exact-get request.
    pub fn to_get_query(&self) -> (r: Vec<(String, String)>)
        ensures
            r.deep_view() == spec_get_pairs(self@),
    {
        let mut query: Vec<(String, String)> = Vec::new();
        query.push((String::from_str("track_name"), self.track_name.clone()));
        query.push((String::from_str("artist_name"), self.artist_name.clone()));
        if let Some(album_name) = &self.album_name {
            query.push((String::from_str("album_name"), album_name.clone()));
        }
        if let Some(duration) = &self.duration {
            let key = String::from_str("duration");
            let value = u64_to_string(*duration);
            query.push((key, value));
        }
        proof {
            assert(query.deep_view() =~~= spec_get_pairs(self@));
        }
        query
    }

    /// The parameter pairs of the search request.
    pub fn to_search_query(&self) -> (r: Vec<(String, String)>)
        ensures
            r.deep_view() == spec_search_pairs(self@),
    {
        let mut query: Vec<(String, String)> = Vec::new();
        query.push((String::from_str("track_name"), self.track_name.clone()));
        if self.artist_name.as_str().unicode_len() > 0 {
            query.push((String::from_str("artist_name"), self.artist_name.clone()));
        }
        if let Some(album_name) = &self.album_name {
            query.push((String::from_str("album_name"), album_name.clone()));
        }
        proof {
            assert(query.deep_view() =~~= spec_search_pairs(self@));
        }
        query
    }

    /// Clears the duration field.
    pub fn remove_duration(&mut self)
        ensures
            final(self)@ == (QueryModel { duration: None, ..old(self)@ }),
    {
        self.duration = None;
    }

    /// Clears the album field.
    pub fn remove_album_name(&mut self)
        ensures
            final(self)@ == (QueryModel { album: None, ..old(self)@ }),
    {
        self.album_name = None;
    }
}

/// The query built from metadata under the given suppression flags: title or
/// empty, artists joined with ", " or empty, album and duration carried over
/// unless suppressed. Artist suppression is deliberately absent here: the
/// exact lookup always sends the artist, and only the search-fallback path
/// may clear it.
pub open spec fn spec_build_query(m: MetadataModel, ig: IgnoreFlags) -> QueryModel {
    QueryModel {
        track: match m.title {
            Some(t) => t,
            None => Seq::<char>::empty(),
        },
        artist: match m.artists {
            Some(a) => spec_join(a, ", "@),
            None => Seq::<char>::empty(),
        },
        album: if ig.album {
            None
        } else {
            m.album
        },
        duration: if ig.duration {
            None
        } else {
            m.duration
        },
    }
}

/// Suppression is unconditional: a query built with duration suppressed has
/// no duration, whatever the metadata held, and likewise for the album;
/// without suppression each field carries over unchanged.
pub proof fn lemma_suppression(m: MetadataModel, ig: IgnoreFlags)
    ensures
        ig.duration ==> spec_build_query(m, ig).duration is None,
        ig.album ==> spec_build_query(m, ig).album is None,
        !ig.duration ==> spec_build_query(m, ig).duration == m.duration,
        !ig.album ==> spec_build_query(m, ig).album == m.album,
{
}

/// Builds the lookup query for one track (the Query Builder): initializes
/// every field from the metadata, then clears whatever the flags suppress.
pub fn build_query(meta: &TrackMetadata, ignore: &IgnoreFlags) -> (q: LrclibQuery)
    ensures
        q@ == spec_build_query(meta@, *ignore),
{
    let track_name = match &meta.title {
        Some(t) => t.clone(),
        None => String::new(),
    };
    let artist_name = match &meta.artists {
        Some(a) => join_names(a, ", "),
        None => String::new(),
    };
    let album_name = match &meta.album {
        Some(a) => Some(a.clone()),
        None => None,
    };
    let mut q = LrclibQuery { track_name, artist_name, album_name, duration: meta.duration };
    if ignore.duration {
        q.remove_duration();
    }
    if ignore.album {
        q.remove_album_name();
    }
    q
}

} // verus!
