//! The input resolver: normalizes a raw identifier (canonical scheme,
//! web-player URL, or free text), dispatches on its kind, and provides
//! the pagination engine that fans a playlist, album or artist listing
//! out into individual track references.
use vstd::prelude::*;

use crate::error::ResolveError;
use crate::store::TrackRef;

verus! {

/// Kind segment of a canonical identifier. Show, episode, user and any
/// other unsupported kind are carried as `Other`: reported, never
/// expanded.
#[derive(Clone, Copy, Debug, PartialEq, Eq, Structural)]
pub enum UriKind {
    Track,
    Playlist,
    Album,
    Artist,
    Other,
}

/// A normalized input: either a canonical `<kind, id>` reference, or a
/// free-text search query.
#[derive(Clone, Debug, PartialEq, Eq)]
pub enum ParsedInput {
    Uri { kind: UriKind, id: String },
    Search { query: String },
}

/// A ranked search result offered for external disambiguation.
#[derive(Clone, Debug, PartialEq, Eq)]
pub struct SearchCandidate {
    pub track_id: String,
    pub title: String,
    pub author: String,
}

/// The resolver's outcome: either track references ready for
/// enqueueing, or candidates that need user disambiguation first.
#[derive(Clone, Debug, PartialEq, Eq)]
pub enum Resolution {
    Expanded(Vec<TrackRef>),
    Candidates(Vec<SearchCandidate>),
}

pub open spec fn has_scheme_prefix(s: Seq<char>) -> bool {
    s.len() >= 8 && s.subrange(0, 8) == "spotify:"@
}

/// Index of the first colon at or after `i`, or the length when none.
pub open spec fn first_colon_from(s: Seq<char>, i: int) -> int
    decreases s.len() - i,
{
    if i < 0 || i >= s.len() {
        s.len() as int
    } else if s[i] == ':' {
        i
    } else {
        first_colon_from(s, i + 1)
    }
}

pub open spec fn colon_free_from(s: Seq<char>, i: int) -> bool {
    forall|k: int| i <= k < s.len() ==> s[k] != ':'
}

/// A canonical identifier has exactly three colon-delimited segments:
/// the scheme, then a kind, then an id.
pub open spec fn scheme_uri_valid(s: Seq<char>) -> bool {
    &&& has_scheme_prefix(s)
    &&& first_colon_from(s, 8) < s.len()
    &&& colon_free_from(s, first_colon_from(s, 8) + 1)
}

pub open spec fn scheme_kind(s: Seq<char>) -> Seq<char> {
    s.subrange(8, first_colon_from(s, 8))
}

pub open spec fn scheme_id(s: Seq<char>) -> Seq<char> {
    s.subrange(first_colon_from(s, 8) + 1, s.len() as int)
}

pub open spec fn kind_of(s: Seq<char>) -> UriKind {
    if s == "track"@ {
        UriKind::Track
    } else if s == "playlist"@ {
        UriKind::Playlist
    } else if s == "album"@ {
        UriKind::Album
    } else if s == "artist"@ {
        UriKind::Artist
    } else {
        UriKind::Other
    }
}

proof fn lemma_first_colon(s: Seq<char>, i: int, j: int)
    requires
        0 <= i <= j <= s.len(),
        forall|k: int| i <= k < j ==> s[k] != ':',
        j == s.len() || s[j] == ':',
    ensures
        first_colon_from(s, i) == if j == s.len() {
            s.len() as int
        } else {
            j
        },
    decreases j - i,
{
    if i < j {
        lemma_first_colon(s, i + 1, j);
    }
}

/// What the outside URL parser extracts from a string: the host, and
/// the path split into segments; nothing, where the string is not an
/// absolute URL.
pub uninterp spec fn url_parts(s: Seq<char>) -> Option<(Seq<char>, Seq<Seq<char>>)>;

/// Relies on url::Url::parse for URL recognition, and on Url::host_str
/// and Url::path_segments to read the host and the path segments of a
/// parsed URL. The outcome depends on the input string alone; it is
/// named by `url_parts`. A URL without a host or without a segmented
/// path yields an empty host or no segments respectively.
#[verifier::external_body]
fn parse_web_url(s: &str) -> (r: Option<(String, Vec<String>)>)
    ensures
        match r {
            Some(p) => url_parts(s@) matches Some(q) && q.0 == p.0@ && q.1 =~= p.1@.map_values(
                |x: String| x@,
            ),
            None => url_parts(s@) is None,
        },
{
    let u = match url::Url::parse(s) {
        Ok(u) => u,
        Err(_) => return None,
    };
    let host = match u.host_str() {
        Some(h) => h.to_string(),
        None => String::new(),
    };
    let segs: Vec<String> = match u.path_segments() {
        Some(it) => it.map(|p| p.to_string()).collect(),
        None => Vec::new(),
    };
    Some((host, segs))
}

/// Maps a kind segment to its dispatch kind.
pub fn kind_of_segment(s: &String) -> (k: UriKind)
    ensures
        k == kind_of(s@),
{
    if s.eq(&String::from_str("track")) {
        UriKind::Track
    } else if s.eq(&String::from_str("playlist")) {
        UriKind::Playlist
    } else if s.eq(&String::from_str("album")) {
        UriKind::Album
    } else if s.eq(&String::from_str("artist")) {
        UriKind::Artist
    } else {
        UriKind::Other
    }
}

/// Normalizes a raw input string.
///
/// A string with the canonical scheme must have exactly three
/// colon-delimited segments, or it is invalid. Otherwise the string is
/// parsed as a URL: one with the web-player host and at least two path
/// segments yields those as kind and id, any other URL is invalid, and
/// a string that is no URL at all is a free-text search query — never
/// an error, even if the later search finds nothing.
pub fn classify_input(raw: &str) -> (r: Result<ParsedInput, ResolveError>)
    ensures
        match r {
            Ok(pi) => match pi {
                ParsedInput::Uri { kind, id } => {
                    ||| {
                        &&& scheme_uri_valid(raw@)
                        &&& kind == kind_of(scheme_kind(raw@))
                        &&& id@ == scheme_id(raw@)
                    }
                    ||| {
                        &&& !has_scheme_prefix(raw@)
                        &&& url_parts(raw@) matches Some(p) && p.0 == "open.spotify.com"@
                            && p.1.len() >= 2 && kind == kind_of(p.1[0]) && id@ == p.1[1]
                    }
                },
                ParsedInput::Search { query } => !has_scheme_prefix(raw@) && url_parts(raw@)
                    is None && query@ == raw@,
            },
            Err(e) => {
                &&& e == ResolveError::InvalidUri
                &&& {
                    ||| (has_scheme_prefix(raw@) && !scheme_uri_valid(raw@))
                    ||| {
                        &&& !has_scheme_prefix(raw@)
                        &&& url_parts(raw@) matches Some(p) && (p.0 != "open.spotify.com"@
                            || p.1.len() < 2)
                    }
                }
            },
        },
{
    let n = raw.unicode_len();
    let mut has_prefix = false;
    if n >= 8 {
        let pfx = raw.substring_char(0, 8).to_owned();
        has_prefix = pfx.eq(&String::from_str("spotify:"));
    }
    if has_prefix {
        let mut p: usize = 8;
        let mut found = false;
        while p < n && !found
            invariant
                n == raw@.len(),
                8 <= p <= n,
                forall|k: int| 8 <= k < p ==> raw@[k] != ':',
                found ==> p < n && raw@[p as int] == ':',
            decreases n - p + if found {
                0int
            } else {
                1int
            },
        {
            if raw.get_char(p) == ':' {
                found = true;
            } else {
                p += 1;
            }
        }
        if !found {
            proof {
                lemma_first_colon(raw@, 8, n as int);
            }
            return Err(ResolveError::InvalidUri);
        }
        proof {
            lemma_first_colon(raw@, 8, p as int);
        }
        let mut q: usize = p + 1;
        while q < n
            invariant
                n == raw@.len(),
                p + 1 <= q <= n,
                p < n,
                has_scheme_prefix(raw@),
                raw@[p as int] == ':',
                first_colon_from(raw@, 8) == p,
                forall|k: int| p + 1 <= k < q ==> raw@[k] != ':',
            decreases n - q,
        {
            if raw.get_char(q) == ':' {
                return Err(ResolveError::InvalidUri);
            }
            q += 1;
        }
        let kind_seg = raw.substring_char(8, p).to_owned();
        let id = raw.substring_char(p + 1, n).to_owned();
        let kind = kind_of_segment(&kind_seg);
        return Ok(ParsedInput::Uri { kind, id });
    }
    match parse_web_url(raw) {
        None => Ok(ParsedInput::Search { query: raw.to_owned() }),
        Some((host, segs)) => {
            let host_ok = host.eq(&String::from_str("open.spotify.com"));
            if host_ok && segs.len() >= 2 {
                let kind = kind_of_segment(&segs[0]);
                let id = segs[1].clone();
                proof {
                    let q = url_parts(raw@)->Some_0;
                    assert(q.1[0] == segs@.map_values(|x: String| x@)[0]);
                    assert(q.1[1] == segs@.map_values(|x: String| x@)[1]);
                }
                Ok(ParsedInput::Uri { kind, id })
            } else {
                Err(ResolveError::InvalidUri)
            }
        },
    }
}

/// Wraps search results for external disambiguation, keeping at most
/// the 50 highest-ranked entries.
pub fn search_resolution(results: Vec<SearchCandidate>) -> (r: Resolution)
    ensures
        r matches Resolution::Candidates(v) && v@ =~= (if results@.len() <= 50 {
            results@
        } else {
            results@.subrange(0, 50)
        }),
{
    let mut v = results;
    if v.len() > 50 {
        v.truncate(50);
    }
    Resolution::Candidates(v)
}

/// Items filtered out of a listing page: removed or local tracks come
/// through as nulls and are discarded during fan-out.
pub open spec fn filter_some<T>(s: Seq<Option<T>>) -> Seq<T>
    decreases s.len(),
{
    if s.len() == 0 {
        Seq::<T>::empty()
    } else {
        filter_some(s.drop_last()) + (match s.last() {
            Some(x) => seq![x],
            None => Seq::<T>::empty(),
        })
    }
}

proof fn lemma_filter_some_take_step<T>(s: Seq<Option<T>>, i: int)
    requires
        0 <= i < s.len(),
    ensures
        filter_some(s.take(i + 1)) =~= filter_some(s.take(i)) + (match s[i] {
            Some(x) => seq![x],
            None => Seq::<T>::empty(),
        }),
{
    assert(s.take(i + 1).drop_last() =~= s.take(i));
    assert(s.take(i + 1).last() == s[i]);
}

/// The pagination engine for listing fan-out.
///
/// The driver asks `next_offset`/`page_limit`, requests one page from
/// the metadata client, and feeds the page's items (nulls for
/// non-track entries) together with the total the page reported. The
/// loop terminates exactly when the accumulated offset reaches the
/// latest reported total — the total is re-read from every page, never
/// tracked separately.
pub struct Pager<T> {
    limit: usize,
    offset: usize,
    done: bool,
    items: Vec<T>,
}

impl<T> Pager<T> {
    pub closed spec fn spec_limit(&self) -> nat {
        self.limit as nat
    }

    pub closed spec fn spec_offset(&self) -> nat {
        self.offset as nat
    }

    pub closed spec fn spec_done(&self) -> bool {
        self.done
    }

    pub closed spec fn spec_items(&self) -> Seq<T> {
        self.items@
    }

    pub fn new(limit: usize) -> (p: Pager<T>)
        requires
            1 <= limit,
        ensures
            p.spec_limit() == limit,
            p.spec_offset() == 0,
            !p.spec_done(),
            p.spec_items() =~= Seq::<T>::empty(),
    {
        Pager { limit, offset: 0, done: false, items: Vec::new() }
    }

    /// Offset the next page request must use.
    pub fn next_offset(&self) -> (o: usize)
        ensures
            o == self.spec_offset(),
    {
        self.offset
    }

    /// Page size the next request must ask for.
    pub fn page_limit(&self) -> (l: usize)
        ensures
            l == self.spec_limit(),
    {
        self.limit
    }

    pub fn is_done(&self) -> (d: bool)
        ensures
            d == self.spec_done(),
    {
        self.done
    }

    /// Accumulates one page: keeps the non-null items in order, advances
    /// the offset by the page's full length (nulls included), and stops
    /// exactly when the new offset equals the total this page reported.
    pub fn feed(&mut self, page_items: Vec<Option<T>>, total: usize) -> (done: bool)
        requires
            !old(self).spec_done(),
            old(self).spec_offset() + page_items@.len() <= usize::MAX,
        ensures
            final(self).spec_limit() == old(self).spec_limit(),
            final(self).spec_items() =~= old(self).spec_items() + filter_some(page_items@),
            final(self).spec_offset() == old(self).spec_offset() + page_items@.len(),
            done == (final(self).spec_offset() == total),
            final(self).spec_done() == done,
    {
        let ghost orig = page_items@;
        let count = page_items.len();
        let mut rest = page_items;
        while rest.len() > 0
            invariant
                self.limit == old(self).limit,
                self.offset == old(self).offset,
                self.done == old(self).done,
                rest@.len() <= orig.len(),
                rest@ =~= orig.subrange(orig.len() - rest@.len(), orig.len() as int),
                self.items@ =~= old(self).items@ + filter_some(
                    orig.take(orig.len() - rest@.len()),
                ),
            decreases rest@.len(),
        {
            proof {
                lemma_filter_some_take_step(orig, orig.len() - rest@.len());
                assert(orig[orig.len() - rest@.len()] == rest@[0]);
            }
            let item = rest.remove(0);
            proof {
                assert(rest@ =~= orig.subrange(orig.len() - rest@.len(), orig.len() as int));
            }
            match item {
                Some(x) => self.items.push(x),
                None => (),
            }
        }
        proof {
            assert(orig.take(orig.len() as int) =~= orig);
        }
        self.offset = self.offset + count;
        let done = self.offset == total;
        self.done = done;
        done
    }

    /// The accumulated track references, once the listing is exhausted.
    pub fn into_items(self) -> (v: Vec<T>)
        requires
            self.spec_done(),
        ensures
            v@ =~= self.spec_items(),
    {
        let Pager { items, .. } = self;
        items
    }
}

} // verus!
