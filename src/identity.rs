use vstd::prelude::*;
use vstd::string::*;

verus! {

/// The canonical executable-style identifier of the player.
pub open spec fn exe_id() -> Seq<char> {
    "Spotify.exe"@
}

/// The vendor token that a packaged-app identifier starts with.
pub open spec fn vendor_prefix() -> Seq<char> {
    "SpotifyAB"@
}

/// The app token that a packaged-app identifier ends with.
pub open spec fn app_suffix() -> Seq<char> {
    "!Spotify"@
}

pub open spec fn starts_with(s: Seq<char>, p: Seq<char>) -> bool {
    p.len() <= s.len() && s.subrange(0, p.len() as int) == p
}

pub open spec fn ends_with(s: Seq<char>, p: Seq<char>) -> bool {
    p.len() <= s.len() && s.subrange(s.len() - p.len(), s.len() as int) == p
}

/// Whether a source application identifier names the player: the exact
/// executable identifier, or a packaged identifier with the vendor prefix and
/// the app suffix. Comparison is exact and case-sensitive.
pub open spec fn is_target_id(s: Seq<char>) -> bool {
    s == exe_id() || (starts_with(s, vendor_prefix()) && ends_with(s, app_suffix()))
}

/// Whether `pat` occurs in `s` starting at character `start`.
fn occurs_at(s: &str, pat: &str, start: usize) -> (r: bool)
    ensures
        r == (start + pat@.len() <= s@.len() && s@.subrange(
            start as int,
            start + pat@.len(),
        ) == pat@),
{
    let n = s.unicode_len();
    let m = pat.unicode_len();
    if start > n || m > n - start {
        return false;
    }
    let mut i: usize = 0;
    while i < m
        invariant
            i <= m,
            m == pat@.len(),
            n == s@.len(),
            start + m <= n,
            forall|j: int| 0 <= j < i ==> s@[start + j] == pat@[j],
        decreases m - i,
    {
        if s.get_char(start + i) != pat.get_char(i) {
            assert(s@.subrange(start as int, start + m)[i as int] != pat@[i as int]);
            return false;
        }
        i = i + 1;
    }
    assert(s@.subrange(start as int, start + m) =~= pat@);
    true
}

/// Decides whether a session's source application identifier belongs to the
/// player (exact, case-sensitive comparison, no normalization).
pub fn is_spotify(app_id: &str) -> (r: bool)
    ensures
        r == is_target_id(app_id@),
{
    let n = app_id.unicode_len();
    let exe = "Spotify.exe";
    let prefix = "SpotifyAB";
    let suffix = "!Spotify";
    proof {
        reveal_strlit("Spotify.exe");
        reveal_strlit("SpotifyAB");
        reveal_strlit("!Spotify");
    }
    let m = exe.unicode_len();
    if m == n && occurs_at(app_id, exe, 0) {
        assert(app_id@ =~= app_id@.subrange(0, n as int));
        return true;
    }
    proof {
        if app_id@ == exe_id() {
            assert(app_id@.subrange(0, n as int) =~= app_id@);
        }
    }
    let k = suffix.unicode_len();
    if !occurs_at(app_id, prefix, 0) || k > n {
        return false;
    }
    occurs_at(app_id, suffix, n - k)
}

} // verus!
