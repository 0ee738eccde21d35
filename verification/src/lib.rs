//! A small client library that retrieves the per-day puzzle input of an
//! Advent of Code year and transparently caches it on local disk, so that a
//! repeated request for the same input never re-hits the network.
//!
//! The verified core holds the whole decision logic: day validation, cache
//! key derivation, credential precedence, the release-date gate and the
//! fetch orchestration. The filesystem and the process environment are left
//! to the embedding application, which hands plain values in and out.

use vstd::prelude::*;

pub mod net;
pub mod schedule;
pub mod text;
pub mod token;

pub use token::resolve_token;

verus! {

/// The error taxonomy of the store. Every failure is surfaced as one of
/// these; the library never retries and never recovers silently.
#[derive(Debug, Clone, Copy, PartialEq, Eq, Structural)]
pub enum Error {
    /// Days are 1-indexed: day 0 does not exist.
    DayZero,
    /// The service defines days 1 through 25 only.
    OutOfBounds,
    /// The input for this day has not been released yet.
    NotYetReleased(usize),
    /// The network call did not complete.
    Transport,
    /// The network call completed, but the service answered with a
    /// non-success status.
    Remote,
    /// A cache read or write failed for a reason other than absence.
    Storage,
    /// No usable credential was found at construction time.
    Configuration,
}

/// A `Result` of the store, seen at the specification level: the text as a
/// sequence of characters, or the error unchanged.
pub open spec fn result_view(r: Result<String, Error>) -> Result<Seq<char>, Error> {
    match r {
        Ok(s) => Ok(s@),
        Err(e) => Err(e),
    }
}

/// What a call for `day` returns when the cache already holds `text`:
/// validation still runs first, and on a valid day the cached text is
/// returned unchanged.
pub open spec fn cached_call_result(day: usize, text: Seq<char>) -> Result<Seq<char>, Error> {
    if day == 0 {
        Err(Error::DayZero)
    } else if day > 25 {
        Err(Error::OutOfBounds)
    } else {
        Ok(text)
    }
}

/// What a call for `day` returns on a cache miss: when the release
/// boundary still lies ahead (`blocked`), the miss fails with
/// `NotYetReleased`, and otherwise the network's answer is handed back
/// verbatim.
pub open spec fn miss_call_result(day: usize, blocked: bool, network: Result<Seq<char>, Error>) -> Result<
    Seq<char>,
    Error,
> {
    if blocked {
        Err(Error::NotYetReleased(day))
    } else {
        network
    }
}

/// The cache key of (year, day), relative to the base directory:
/// `<year>/day<NN>.txt` with the day zero-padded to two digits.
pub open spec fn spec_rel_path(year: int, day: int) -> Seq<char> {
    text::spec_dec(year) + "/day"@ + text::spec_pad2(day) + ".txt"@
}

/// The absolute location of the cached artifact of (year, day) under the
/// base directory `base`.
pub open spec fn spec_loc(base: Seq<char>, year: int, day: int) -> Seq<char> {
    base + "/"@ + spec_rel_path(year, day)
}

/// The store: an immutable configuration of year, base cache directory and
/// session token, together with the one HTTP client used for every fetch.
pub struct AoC {
    path: String,
    token: String,
    year: usize,
    client: reqwest::blocking::Client,
}

impl AoC {
    /// The configured year.
    pub closed spec fn spec_year(&self) -> usize {
        self.year
    }

    /// The configured base cache directory.
    pub closed spec fn spec_path(&self) -> Seq<char> {
        self.path@
    }

    /// The configured session token.
    pub closed spec fn spec_token(&self) -> Seq<char> {
        self.token@
    }

    /// The configuration invariant that construction establishes.
    pub open spec fn wf(&self) -> bool {
        self.spec_year() < 3000
    }

    /// Constructs a store for `year` with the given base directory and
    /// session token. Fails only if no HTTP client could be set up.
    pub fn with_path_and_token(year: usize, path: String, token: String) -> (r: Result<Self, Error>)
        requires
            year < 3000,
        ensures
            r matches Ok(a) ==> a.spec_year() == year && a.spec_path() == path@ && a.spec_token()
                == token@ && a.wf(),
            r matches Err(e) ==> e == Error::Transport,
    {
        match net::new_http_client() {
            Ok(client) => Ok(AoC { path, token, year, client }),
            Err(e) => Err(e),
        }
    }

    /// The cache key of `day` under the configured year, relative to the
    /// base directory.
    pub fn cache_rel_path(&self, day: usize) -> (r: String)
        requires
            day < 100,
        ensures
            r@ == spec_rel_path(self.spec_year() as int, day as int),
    {
        let mut s = text::dec_string(self.year);
        s.append("/day");
        s.append(text::pad2_string(day).as_str());
        s.append(".txt");
        proof {
            assert(s@ =~= spec_rel_path(self.spec_year() as int, day as int));
        }
        s
    }

    /// The location of the cached input (or of where it would be cached)
    /// for `day`.
    pub fn loc(&self, day: usize) -> (r: String)
        requires
            day < 100,
        ensures
            r@ == spec_loc(self.spec_path(), self.spec_year() as int, day as int),
    {
        let mut s = self.path.clone();
        s.append("/");
        s.append(self.cache_rel_path(day).as_str());
        proof {
            assert(s@ =~= spec_loc(self.spec_path(), self.spec_year() as int, day as int));
        }
        s
    }

    /// One gated fetch attempt for `day`, judged against the instant `now`:
    /// before the release boundary nothing is fetched and the call fails
    /// with `NotYetReleased`, and if and only if then; from the boundary on,
    /// the network decides between the body, `Transport` and `Remote`.
    pub fn fetch_at(&self, day: usize, now: i64) -> (r: Result<String, Error>)
        requires
            self.wf(),
            1 <= day <= 25,
        ensures
            (now as int) < schedule::spec_release_boundary(self.spec_year() as int, day as int)
                <==> r == Err::<String, Error>(Error::NotYetReleased(day)),
            (r matches Ok(_)) || (r matches Err(e) && (e == Error::NotYetReleased(day) || e
                == Error::Transport || e == Error::Remote)),
    {
        let boundary = schedule::release_timestamp(self.year, day);
        if now < boundary {
            return Err(Error::NotYetReleased(day));
        }
        let url = net::build_url(self.year, day);
        let cookie = net::build_cookie(self.token.as_str());
        let network = net::http_get_text(&self.client, url.as_str(), cookie.as_str());
        Self::settle_miss(day, false, network)
    }

    /// The conclusion of a cache miss for `day`: `blocked` says whether
    /// the release boundary still lay ahead, and `network` holds the
    /// answer of the fetch that was then attempted. A blocked miss fails
    /// with `NotYetReleased`; otherwise the network's answer — in
    /// particular a fetched text — is handed back verbatim.
    pub fn settle_miss(day: usize, blocked: bool, network: Result<String, Error>) -> (r: Result<
        String,
        Error,
    >)
        ensures
            result_view(r) == miss_call_result(day, blocked, result_view(network)),
    {
        if blocked {
            Err(Error::NotYetReleased(day))
        } else {
            network
        }
    }

    /// The read-through step: validates `day`, returns a cached text
    /// unchanged, and only on a miss performs the gated fetch. The caller
    /// hands in the cached artifact, if any, and persists the result of a
    /// successful fetch.
    pub fn read_or_fetch(&self, day: usize, cached: Option<String>) -> (r: Result<String, Error>)
        requires
            self.wf(),
        ensures
            day == 0 ==> r == Err::<String, Error>(Error::DayZero),
            day > 25 ==> r == Err::<String, Error>(Error::OutOfBounds),
            cached matches Some(t) ==> result_view(r) == cached_call_result(day, t@),
            (1 <= day <= 25 && cached is None) ==> ((r matches Ok(_)) || (r matches Err(e) && (e
                == Error::NotYetReleased(day) || e == Error::Transport || e == Error::Remote))),
    {
        if day == 0 {
            return Err(Error::DayZero);
        }
        if day > 25 {
            return Err(Error::OutOfBounds);
        }
        match cached {
            Some(text) => Ok(text),
            None => {
                let now = schedule::now_timestamp();
                self.fetch_at(day, now)
            },
        }
    }
}

/// Law: the store is idempotent once it has succeeded. A successful call
/// stores the text it returns, and a repeated call for the same day finds
/// that text in the cache and returns exactly it again.
pub proof fn lemma_cached_call_idempotent(day: usize, text: Seq<char>)
    requires
        1 <= day <= 25,
    ensures
        cached_call_result(day, text) == Ok::<Seq<char>, Error>(text),
{
}

/// Law: on a cache miss whose gate passes, a successfully fetched text is
/// returned to the caller exactly as the network produced it.
pub proof fn lemma_fetched_text_returned_verbatim(day: usize, text: Seq<char>)
    ensures
        miss_call_result(day, false, Ok(text)) == Ok::<Seq<char>, Error>(text),
{
}

} // verus!
