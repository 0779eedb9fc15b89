//! The issue cache: what is cached, for how long, and under which file names.
//!
//! Entries carry the time they were written and the time they expire, in seconds
//! since the Unix epoch; an entry read back after its expiry is not used. Issues
//! are stored under their (sanitized) key, search results under a hash of their
//! JQL, each profile in a directory of its own.
use vstd::prelude::*;

use crate::api::types::SearchResult;
use crate::history::string_views;
use crate::text::{concat2, copy_str};

verus! {

/// How long entries live by default, in minutes.
pub const DEFAULT_CACHE_TTL_MINUTES: u32 = 30;

/// The default size limit of the cache, in MB.
pub const DEFAULT_MAX_CACHE_SIZE_MB: u64 = 100;

/// Where shown data came from.
#[derive(Debug, Clone, Copy, PartialEq, Eq, Structural)]
pub enum CacheStatus {
    /// Freshly fetched from the API.
    Fresh,
    /// Served from the cache, still valid.
    FromCache,
    /// Served from the cache while offline.
    Offline,
}

impl CacheStatus {
    /// The icon shown for the status.
    pub fn icon(&self) -> (s: &'static str)
        ensures
            s@ == (match *self {
                CacheStatus::Fresh => "●"@,
                CacheStatus::FromCache => "○"@,
                CacheStatus::Offline => "✗"@,
            }),
    {
        match self {
            CacheStatus::Fresh => "●",
            CacheStatus::FromCache => "○",
            CacheStatus::Offline => "✗",
        }
    }

    /// The text shown for the status.
    pub fn text(&self) -> (s: &'static str)
        ensures
            s@ == (match *self {
                CacheStatus::Fresh => "Live"@,
                CacheStatus::FromCache => "Cached"@,
                CacheStatus::Offline => "Offline"@,
            }),
    {
        match self {
            CacheStatus::Fresh => "Live",
            CacheStatus::FromCache => "Cached",
            CacheStatus::Offline => "Offline",
        }
    }

    /// Whether the data came from the cache.
    pub fn is_cached(&self) -> (b: bool)
        ensures
            b == !(*self is Fresh),
    {
        match self {
            CacheStatus::Fresh => false,
            _ => true,
        }
    }
}

/// The system clock's readings, `std::time::SystemTime`, carried opaquely.
#[verifier::external_type_specification]
#[verifier::external_body]
pub struct ExSystemTime(std::time::SystemTime);

/// Reads the system clock: calls `std::time::SystemTime::now`. Nothing is claimed
/// of the reading.
#[verifier::external_body]
fn system_now() -> (t: std::time::SystemTime) {
    std::time::SystemTime::now()
}

/// Calls `SystemTime::duration_since(UNIX_EPOCH)` and takes the whole seconds of the
/// duration (`Duration::as_secs`); `None` when the reading is before the epoch.
/// Nothing is claimed of the value: it depends on the reading.
#[verifier::external_body]
fn secs_since_epoch(t: &std::time::SystemTime) -> (s: Option<u64>) {
    match t.duration_since(std::time::UNIX_EPOCH) {
        Ok(d) => Some(d.as_secs()),
        Err(_) => None,
    }
}

/// The current time in seconds since the epoch (0 when the clock is before it).
pub fn unix_now() -> (t: u64) {
    let reading = system_now();
    match secs_since_epoch(&reading) {
        Some(t) => t,
        None => 0,
    }
}

/// A cached value with the times it was written and expires, in seconds since
/// the epoch.
#[derive(Debug, Clone)]
pub struct CacheEntry<T> {
    /// The cached value.
    pub data: T,
    /// When it was written.
    pub cached_at: u64,
    /// When it expires.
    pub expires_at: u64,
}

/// `a + b`, or `u64::MAX` when that does not fit.
pub open spec fn sat_add(a: u64, b: u64) -> u64 {
    if a + b <= u64::MAX {
        (a + b) as u64
    } else {
        u64::MAX
    }
}

/// Whether an entry expiring at `expires_at` has expired at `now`.
pub open spec fn expired_at(expires_at: u64, now: u64) -> bool {
    now > expires_at
}

/// `a - b`, or 0 when that is negative.
pub open spec fn sat_sub(a: u64, b: u64) -> u64 {
    if a >= b {
        (a - b) as u64
    } else {
        0
    }
}

impl<T> CacheEntry<T> {
    /// An entry written at `now`, living `ttl_secs` seconds (the expiry saturates
    /// at the largest time).
    pub fn new_at(data: T, ttl_secs: u64, now: u64) -> (e: CacheEntry<T>)
        ensures
            e.data == data,
            e.cached_at == now,
            e.expires_at == sat_add(now, ttl_secs),
    {
        CacheEntry { data, cached_at: now, expires_at: now.saturating_add(ttl_secs) }
    }

    /// An entry written now, living `ttl_secs` seconds.
    pub fn new(data: T, ttl_secs: u64) -> (e: CacheEntry<T>)
        ensures
            e.data == data,
            e.expires_at == sat_add(e.cached_at, ttl_secs),
    {
        let now = unix_now();
        Self::new_at(data, ttl_secs, now)
    }

    /// Whether the entry has expired at `now`: strictly after its expiry.
    pub fn is_expired_at(&self, now: u64) -> (b: bool)
        ensures
            b == (now > self.expires_at),
    {
        now > self.expires_at
    }

    /// Whether the entry has expired, by the clock: whether the clock's reading is
    /// past the expiry (never, for an entry that expires at the largest time).
    pub fn is_expired(&self) -> (b: bool)
        ensures
            exists|now: u64| b == #[trigger] expired_at(self.expires_at, now),
    {
        let now = unix_now();
        let b = self.is_expired_at(now);
        assert(b == expired_at(self.expires_at, now));
        b
    }

    /// Seconds since the entry was written, at `now` (0 if written later).
    pub fn age_at(&self, now: u64) -> (s: u64)
        ensures
            s == sat_sub(now, self.cached_at),
    {
        now.saturating_sub(self.cached_at)
    }

    /// Seconds since the entry was written, by the clock's reading (0 if the
    /// reading is earlier).
    pub fn age(&self) -> (s: u64)
        ensures
            exists|now: u64| s == #[trigger] sat_sub(now, self.cached_at),
    {
        let now = unix_now();
        self.age_at(now)
    }

    /// Seconds left before the entry expires, at `now` (0 once expired).
    pub fn time_remaining_at(&self, now: u64) -> (s: u64)
        ensures
            s == sat_sub(self.expires_at, now),
    {
        self.expires_at.saturating_sub(now)
    }

    /// Seconds left before the entry expires, by the clock's reading: at most the
    /// expiry time.
    pub fn time_remaining(&self) -> (s: u64)
        ensures
            exists|now: u64| s == #[trigger] sat_sub(self.expires_at, now),
            s <= self.expires_at,
    {
        let now = unix_now();
        self.time_remaining_at(now)
    }

    /// The value of an entry read back at `now`, unless it has expired.
    pub fn into_valid_at(self, now: u64) -> (r: Option<T>)
        ensures
            now > self.expires_at ==> r is None,
            now <= self.expires_at ==> r == Some(self.data),
    {
        if self.is_expired_at(now) {
            None
        } else {
            Some(self.data)
        }
    }
}

/// Cached search results, with the JQL they answer.
#[derive(Debug, Clone)]
pub struct CachedSearchResult {
    /// The JQL of the search.
    pub jql: String,
    /// The results.
    pub results: SearchResult,
}

/// Cache statistics.
#[derive(Debug, Clone)]
pub struct CacheStats {
    /// Number of cached files.
    pub file_count: u64,
    /// Their total size in bytes.
    pub total_size_bytes: u64,
    /// The size limit in bytes.
    pub max_size_bytes: u64,
    /// Entry lifetime in seconds.
    pub ttl_seconds: u64,
}

/// Why the cache cannot be used.
#[derive(Debug, Clone, PartialEq, Eq)]
pub enum CacheError {
    /// The system names no cache directory.
    NoCacheDirectory,
}

impl CacheError {
    /// The message of the error.
    pub fn to_string(&self) -> (s: String)
        ensures
            s@ == "No cache directory available"@,
    {
        copy_str("No cache directory available")
    }
}

/// The characters that cannot stand in a file name, replaced by '_' in keys.
pub open spec fn unsafe_in_file_name(c: char) -> bool {
    c == '/' || c == '\\' || c == ':' || c == '*' || c == '?' || c == '"' || c == '<' || c == '>'
        || c == '|'
}

/// A key with the characters unsafe in file names replaced by '_'.
pub open spec fn sanitized(key: Seq<char>) -> Seq<char> {
    key.map_values(|c: char| if unsafe_in_file_name(c) { '_' } else { c })
}

/// The file name of a cached issue: its sanitized key with ".json".
pub fn issue_file_name(key: &str) -> (s: String)
    ensures
        s@ == sanitized(key@) + ".json"@,
{
    let n = key.unicode_len();
    let mut out = String::new();
    let mut i: usize = 0;
    while i < n
        invariant
            n == key@.len(),
            i <= n,
            out@ == sanitized(key@.take(i as int)),
        decreases n - i,
    {
        let c = key.get_char(i);
        let d = if c == '/' || c == '\\' || c == ':' || c == '*' || c == '?' || c == '"' || c == '<'
            || c == '>' || c == '|' {
            '_'
        } else {
            c
        };
        crate::text::push_char(&mut out, d);
        proof {
            assert(out@ =~= sanitized(key@.take(i + 1)));
        }
        i += 1;
    }
    proof {
        assert(key@.take(n as int) =~= key@);
    }
    let r = concat2(out.as_str(), ".json");
    r
}

/// The hexadecimal digit of `d` (lower case).
pub open spec fn hex_char(d: nat) -> char {
    if d < 10 {
        ((d + 48) as u8) as char
    } else {
        ((d - 10 + 97) as u8) as char
    }
}

/// The last `k` hexadecimal digits of `n`, most significant first.
pub open spec fn hex_digits(n: nat, k: nat) -> Seq<char>
    decreases k,
{
    if k == 0 {
        Seq::empty()
    } else {
        hex_digits(n / 16, (k - 1) as nat).push(hex_char(n % 16))
    }
}

fn hex_digit(d: u64) -> (c: char)
    requires
        d < 16,
    ensures
        c == hex_char(d as nat),
{
    let b: u8 = if d < 10 {
        (d + 48) as u8
    } else {
        (d - 10 + 97) as u8
    };
    b as char
}

/// `n` in 16 hexadecimal digits, zero-padded (as `{:016x}` writes it).
pub fn to_hex16(n: u64) -> (s: String)
    ensures
        s@ == hex_digits(n as nat, 16),
{
    let mut digits: Vec<char> = Vec::new();
    let mut rest: u64 = n;
    let mut k: u64 = 0;
    while k < 16
        invariant
            k <= 16,
            digits@.len() == k,
            hex_digits(n as nat, 16) == hex_digits(rest as nat, (16 - k) as nat) + digits@.reverse(),
        decreases 16 - k,
    {
        let ghost before = digits@;
        digits.push(hex_digit(rest % 16));
        proof {
            assert(hex_digits(rest as nat, (16 - k) as nat) == hex_digits((rest / 16) as nat, (16 - k - 1) as nat).push(
                hex_char((rest % 16) as nat),
            ));
            assert(hex_digits((rest / 16) as nat, (16 - k - 1) as nat).push(hex_char((rest % 16) as nat)) + before.reverse()
                =~= hex_digits((rest / 16) as nat, (16 - k - 1) as nat) + digits@.reverse());
        }
        rest = rest / 16;
        k += 1;
    }
    let mut s = String::new();
    let mut i: usize = 16;
    while i > 0
        invariant
            i <= 16,
            digits@.len() == 16,
            s@ == digits@.reverse().take(16 - i),
        decreases i,
    {
        crate::text::push_char(&mut s, digits[i - 1]);
        proof {
            assert(s@ =~= digits@.reverse().take(16 - i + 1));
        }
        i -= 1;
    }
    proof {
        assert(hex_digits(rest as nat, 0) =~= Seq::<char>::empty());
        assert(digits@.reverse().take(16) =~= digits@.reverse());
        assert(hex_digits(n as nat, 16) =~= digits@.reverse());
    }
    s
}

/// What `BuildHasher::hash_one` of `BuildHasherDefault<DefaultHasher>` gives for a
/// string.
pub uninterp spec fn str_hash(s: Seq<char>) -> u64;

/// Calls `BuildHasher::hash_one` on `BuildHasherDefault<DefaultHasher>`: the string
/// fed to a fresh `DefaultHasher` (whose keys are fixed), then `Hasher::finish`.
/// Claimed: the result is the name `str_hash` of the string; nothing is said of the
/// hash function itself.
#[verifier::external_body]
fn hash_str(s: &str) -> (h: u64)
    ensures
        h == str_hash(s@),
{
    std::hash::BuildHasher::hash_one(
        &std::hash::BuildHasherDefault::<std::collections::hash_map::DefaultHasher>::default(),
        s,
    )
}

/// The file name of cached search results: the hash of the JQL in 16 hexadecimal
/// digits, with ".json".
pub fn search_file_name(jql: &str) -> (s: String)
    ensures
        s@ == hex_digits(str_hash(jql@) as nat, 16) + ".json"@,
{
    let h = hash_str(jql);
    let hex = to_hex16(h);
    concat2(hex.as_str(), ".json")
}

/// How many of `n` cache files an eviction removes: the oldest quarter, and at
/// least one.
pub fn eviction_count(n: usize) -> (k: usize)
    ensures
        k == (if n / 4 > 1 {
            n / 4
        } else {
            1
        }),
{
    let q = n / 4;
    if q > 1 {
        q
    } else {
        1
    }
}

/// `idx` lists the positions of `times` oldest first; equal times keep their order.
pub open spec fn is_age_order(times: Seq<u128>, idx: Seq<usize>) -> bool {
    &&& idx.len() == times.len()
    &&& forall|k: int| 0 <= k < idx.len() ==> #[trigger] idx[k] < times.len()
    &&& idx.no_duplicates()
    &&& forall|a: int, b: int|
        #![trigger idx[a], idx[b]]
        0 <= a < b < idx.len() ==> times[idx[a] as int] < times[idx[b] as int] || (times[idx[a] as int]
            == times[idx[b] as int] && idx[a] < idx[b])
}

/// The positions of the given modification times, oldest first (equal times in
/// their order): the order in which cache files are evicted.
pub fn oldest_first(times: &Vec<u128>) -> (idx: Vec<usize>)
    ensures
        is_age_order(times@, idx@),
{
    let n = times.len();
    let mut idx: Vec<usize> = Vec::new();
    let mut i: usize = 0;
    while i < n
        invariant
            n == times@.len(),
            i <= n,
            idx@.len() == i,
            forall|k: int| 0 <= k < idx@.len() ==> #[trigger] idx@[k] < i,
            idx@.no_duplicates(),
            forall|a: int, b: int|
                #![trigger idx@[a], idx@[b]]
                0 <= a < b < idx@.len() ==> times@[idx@[a] as int] < times@[idx@[b] as int] || (
                times@[idx@[a] as int] == times@[idx@[b] as int] && idx@[a] < idx@[b]),
        decreases n - i,
    {
        let t = times[i];
        let mut p: usize = 0;
        while p < idx.len() && times[idx[p]] <= t
            invariant
                n == times@.len(),
                i < n,
                p <= idx@.len(),
                forall|k: int| 0 <= k < idx@.len() ==> #[trigger] idx@[k] < i,
                forall|k: int| 0 <= k < p ==> times@[#[trigger] idx@[k] as int] <= t,
            decreases idx.len() - p,
        {
            p += 1;
        }
        let ghost old_idx = idx@;
        proof {
            assert forall|k: int| p <= k < old_idx.len() implies times@[#[trigger] old_idx[k] as int] > t by {
                if p < old_idx.len() {
                    assert(times@[old_idx[p as int] as int] > t);
                    if k > p {
                        assert(old_idx[p as int] != old_idx[k]);
                    }
                }
            }
        }
        idx.insert(p, i);
        proof {
            let new_idx = idx@;
            assert(new_idx == old_idx.insert(p as int, i));
            assert forall|k: int| 0 <= k < new_idx.len() implies #[trigger] new_idx[k] < i + 1 by {
                if k < p {
                    assert(new_idx[k] == old_idx[k]);
                } else if k > p {
                    assert(new_idx[k] == old_idx[k - 1]);
                }
            }
            assert forall|a: int, b: int| 0 <= a < new_idx.len() && 0 <= b < new_idx.len() && a != b implies new_idx[a] != new_idx[b] by {
                let oa = if a < p { a } else { a - 1 };
                let ob = if b < p { b } else { b - 1 };
                if a != p as int && b != p as int {
                    assert(new_idx[a] == old_idx[oa]);
                    assert(new_idx[b] == old_idx[ob]);
                } else if a == p as int {
                    assert(new_idx[b] == old_idx[ob]);
                    assert(old_idx[ob] < i);
                } else {
                    assert(new_idx[a] == old_idx[oa]);
                    assert(old_idx[oa] < i);
                }
            }
            assert forall|a: int, b: int|
                #![trigger new_idx[a], new_idx[b]]
                0 <= a < b < new_idx.len() implies times@[new_idx[a] as int] < times@[new_idx[b] as int] || (
                times@[new_idx[a] as int] == times@[new_idx[b] as int] && new_idx[a] < new_idx[b]) by {
                if b < p {
                    assert(new_idx[a] == old_idx[a] && new_idx[b] == old_idx[b]);
                } else if a > p {
                    assert(new_idx[a] == old_idx[a - 1] && new_idx[b] == old_idx[b - 1]);
                } else if a < p && b > p {
                    assert(new_idx[a] == old_idx[a] && new_idx[b] == old_idx[b - 1]);
                } else if a == p {
                    assert(new_idx[b] == old_idx[b - 1]);
                    assert(times@[old_idx[b - 1] as int] > t);
                } else {
                    assert(new_idx[a] == old_idx[a]);
                    assert(times@[old_idx[a] as int] <= t);
                    assert(old_idx[a] < i);
                }
            }
        }
        i += 1;
    }
    idx
}

/// Calls `dirs::cache_dir`: the user's cache directory, when the platform names one.
/// Nothing is claimed of the answer: it depends on the environment.
#[verifier::external_body]
fn user_cache_dir() -> (d: Option<std::path::PathBuf>) {
    dirs::cache_dir()
}

/// The cache of a profile: where it lives and its settings. Its files lie under
/// "lazyjira"/profile in `cache_root`.
#[derive(Debug)]
pub struct CacheManager {
    /// The user's cache directory, as the platform names it.
    pub cache_root: std::path::PathBuf,
    /// The profile whose cache this is (its directory under "lazyjira").
    pub profile: String,
    /// Entry lifetime in seconds.
    pub ttl_secs: u64,
    /// The size limit in bytes.
    pub max_size_bytes: u64,
}

/// The names, below the cache root, of the directory of a profile's cache.
pub open spec fn profile_dir_names(profile: Seq<char>) -> Seq<Seq<char>> {
    seq!["lazyjira"@, profile]
}

impl CacheManager {
    /// The cache of a profile in the cache directory `cache_root`, with a lifetime
    /// in minutes and the default size limit.
    pub fn in_dir(cache_root: std::path::PathBuf, profile: &str, ttl_minutes: u32) -> (m: CacheManager)
        ensures
            m.cache_root == cache_root,
            m.profile@ == profile@,
            m.ttl_secs == ttl_minutes * 60,
            m.max_size_bytes == DEFAULT_MAX_CACHE_SIZE_MB * 1024 * 1024,
    {
        CacheManager {
            cache_root,
            profile: copy_str(profile),
            ttl_secs: ttl_minutes as u64 * 60,
            max_size_bytes: DEFAULT_MAX_CACHE_SIZE_MB * 1024 * 1024,
        }
    }

    /// The cache of a profile in the user's cache directory, with a lifetime in
    /// minutes and the default size limit; fails with `NoCacheDirectory` when the
    /// platform names no cache directory.
    pub fn new(profile: &str, ttl_minutes: u32) -> (r: Result<CacheManager, CacheError>)
        ensures
            r matches Ok(m) ==> m.profile@ == profile@ && m.ttl_secs == ttl_minutes * 60
                && m.max_size_bytes == DEFAULT_MAX_CACHE_SIZE_MB * 1024 * 1024,
            r matches Err(e) ==> e == CacheError::NoCacheDirectory,
    {
        match user_cache_dir() {
            Some(dir) => Ok(Self::in_dir(dir, profile, ttl_minutes)),
            None => Err(CacheError::NoCacheDirectory),
        }
    }

    /// As `new`, with a size limit in MB.
    pub fn with_max_size(profile: &str, ttl_minutes: u32, max_size_mb: u64) -> (r: Result<
        CacheManager,
        CacheError,
    >)
        requires
            max_size_mb * 1024 * 1024 <= u64::MAX,
        ensures
            r matches Ok(m) ==> m.profile@ == profile@ && m.ttl_secs == ttl_minutes * 60
                && m.max_size_bytes == max_size_mb * 1024 * 1024,
            r matches Err(e) ==> e == CacheError::NoCacheDirectory,
    {
        match Self::new(profile, ttl_minutes) {
            Ok(mut m) => {
                m.max_size_bytes = max_size_mb * 1024 * 1024;
                Ok(m)
            },
            Err(e) => Err(e),
        }
    }

    /// The directory of the profile's cache: the names "lazyjira" and the profile
    /// below `cache_root`.
    pub fn profile_dir(&self) -> (v: Vec<String>)
        ensures
            string_views(v@) == profile_dir_names(self.profile@),
    {
        let mut v: Vec<String> = Vec::new();
        v.push(copy_str("lazyjira"));
        v.push(copy_str(self.profile.as_str()));
        assert(string_views(v@) =~= profile_dir_names(self.profile@));
        v
    }

    /// The file of a cached issue below `cache_root`: `issue_file_name(key)` under
    /// "issues" in the profile's directory.
    pub fn issue_path(&self, key: &str) -> (v: Vec<String>)
        ensures
            string_views(v@) == profile_dir_names(self.profile@).push("issues"@).push(
                sanitized(key@) + ".json"@,
            ),
    {
        let mut v = self.profile_dir();
        let ghost d = v@;
        let issues = copy_str("issues");
        v.push(issues);
        let name = issue_file_name(key);
        let ghost n = name;
        v.push(name);
        proof {
            crate::history::lemma_string_views_push(d, issues);
            crate::history::lemma_string_views_push(d.push(issues), n);
        }
        v
    }

    /// The file of a cached search below `cache_root`: `search_file_name(jql)` under
    /// "search_results" in the profile's directory.
    pub fn search_path(&self, jql: &str) -> (v: Vec<String>)
        ensures
            string_views(v@) == profile_dir_names(self.profile@).push("search_results"@).push(
                hex_digits(str_hash(jql@) as nat, 16) + ".json"@,
            ),
    {
        let mut v = self.search_dir();
        let ghost d = v@;
        let name = search_file_name(jql);
        let ghost n = name;
        v.push(name);
        proof {
            crate::history::lemma_string_views_push(d, n);
        }
        v
    }

    /// The directory of the cached searches below `cache_root`: "search_results" in
    /// the profile's directory.
    pub fn search_dir(&self) -> (v: Vec<String>)
        ensures
            string_views(v@) == profile_dir_names(self.profile@).push("search_results"@),
    {
        let mut v = self.profile_dir();
        let ghost d = v@;
        let dir = copy_str("search_results");
        v.push(dir);
        proof {
            crate::history::lemma_string_views_push(d, dir);
        }
        v
    }

    /// Whether a cache of `size` bytes must be trimmed.
    pub fn over_limit(&self, size: u64) -> (b: bool)
        ensures
            b == (size > self.max_size_bytes),
    {
        size > self.max_size_bytes
    }

    /// The statistics for `file_count` files of `total_size` bytes in all.
    pub fn stats_for(&self, file_count: u64, total_size: u64) -> (s: CacheStats)
        ensures
            s.file_count == file_count,
            s.total_size_bytes == total_size,
            s.max_size_bytes == self.max_size_bytes,
            s.ttl_seconds == self.ttl_secs,
    {
        CacheStats {
            file_count,
            total_size_bytes: total_size,
            max_size_bytes: self.max_size_bytes,
            ttl_seconds: self.ttl_secs,
        }
    }
}


/// An entry is not expired when it is written: its age is zero and its whole
/// lifetime remains (when the expiry does not saturate).
pub proof fn law_fresh_entry(now: u64, ttl: u64)
    requires
        now + ttl <= u64::MAX,
    ensures
        !(now > sat_add(now, ttl)),
        sat_sub(now, now) == 0,
        sat_sub(sat_add(now, ttl), now) == ttl,
{
}

/// An entry stays valid up to its expiry and is expired from the second after.
pub proof fn law_expiry_boundary(expires_at: u64, now: u64)
    ensures
        now <= expires_at ==> !(now > expires_at) && sat_sub(expires_at, now) == expires_at - now,
        now > expires_at ==> sat_sub(expires_at, now) == 0,
{
}

/// Cache file names of issues are safe: no character that a file system could
/// read as a separator or a pattern is left, and the name ends in ".json".
pub proof fn law_issue_file_name_is_safe(key: Seq<char>)
    ensures
        forall|i: int| 0 <= i < key.len() ==> !unsafe_in_file_name(#[trigger] (sanitized(key) + ".json"@)[i]),
        (sanitized(key) + ".json"@).len() == key.len() + 5,
        (sanitized(key) + ".json"@).subrange(key.len() as int, key.len() + 5int) == ".json"@,
{
    reveal_strlit(".json");
    let name = sanitized(key) + ".json"@;
    assert(name.subrange(key.len() as int, key.len() + 5int) =~= ".json"@);
    assert forall|i: int| 0 <= i < key.len() implies !unsafe_in_file_name(#[trigger] name[i]) by {
        assert(name[i] == sanitized(key)[i]);
    }
}

} // verus!
