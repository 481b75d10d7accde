use vstd::prelude::*;

use crate::event::{events_view, Event, EventModel};

verus! {

// ---------------------------------------------------------------------------
// Version strings
// ---------------------------------------------------------------------------
/// Whether a character is an ASCII decimal digit.
pub open spec fn is_digit(c: char) -> bool {
    48 <= c as u32 <= 57
}

/// The value of an ASCII decimal digit.
pub open spec fn digit_val(c: char) -> nat {
    (c as u32 - 48) as nat
}

pub open spec fn all_digits(s: Seq<char>) -> bool {
    forall|i: int| 0 <= i < s.len() ==> is_digit(s[i])
}

/// The number an all-digit string denotes, most significant digit first.
pub open spec fn digits_val(s: Seq<char>) -> nat
    decreases s.len(),
{
    if s.len() == 0 {
        0
    } else {
        digits_val(s.drop_last()) * 10 + digit_val(s.last())
    }
}

/// An optional leading plus sign, accepted by unsigned decimal parsing.
pub open spec fn strip_plus(s: Seq<char>) -> Seq<char> {
    if s.len() > 0 && s[0] == '+' {
        s.skip(1)
    } else {
        s
    }
}

/// The number one dot-separated component denotes: its value when it is a
/// well-formed unsigned decimal that fits, and zero otherwise.
pub open spec fn spec_parse_part(s: Seq<char>) -> u32 {
    let q = strip_plus(s);
    if q.len() > 0 && all_digits(q) && digits_val(q) <= u32::MAX {
        digits_val(q) as u32
    } else {
        0u32
    }
}

/// The index of the first dot in a version string, or its length.
pub open spec fn first_dot(s: Seq<char>) -> nat
    decreases s.len(),
{
    if s.len() == 0 {
        0
    } else if s[0] == '.' {
        0
    } else {
        1 + first_dot(s.skip(1))
    }
}

pub proof fn lemma_first_dot(s: Seq<char>)
    ensures
        first_dot(s) <= s.len(),
        forall|i: int| 0 <= i < first_dot(s) ==> s[i] != '.',
        first_dot(s) < s.len() ==> s[first_dot(s) as int] == '.',
    decreases s.len(),
{
    if s.len() > 0 && s[0] != '.' {
        lemma_first_dot(s.skip(1));
        assert(forall|i: int| 1 <= i < first_dot(s) ==> s[i] == s.skip(1)[i - 1]);
    }
}

/// A version string cut at its dots.
pub open spec fn split_dots(s: Seq<char>) -> Seq<Seq<char>>
    decreases s.len(),
{
    let i = first_dot(s);
    if i >= s.len() {
        seq![s]
    } else {
        seq![s.take(i as int)] + split_dots(s.skip(i as int + 1))
    }
}

/// The numeric components of a dotted version string.
pub open spec fn spec_parse_version(s: Seq<char>) -> Seq<u32> {
    split_dots(s).map_values(|p: Seq<char>| spec_parse_part(p))
}

/// Whether `tgt` denotes a newer version than `cur`: components are
/// compared numerically left to right, a missing component counts as zero,
/// and a strictly longer, otherwise-equal sequence is newer.
pub open spec fn spec_version_newer(cur: Seq<u32>, tgt: Seq<u32>) -> bool
    decreases tgt.len(),
{
    if tgt.len() == 0 {
        false
    } else if cur.len() == 0 {
        true
    } else if tgt[0] > cur[0] {
        true
    } else if tgt[0] < cur[0] {
        false
    } else {
        spec_version_newer(cur.skip(1), tgt.skip(1))
    }
}

/// The version order never puts a version above itself.
pub proof fn lemma_version_order_irreflexive(a: Seq<u32>)
    ensures
        !spec_version_newer(a, a),
    decreases a.len(),
{
    if a.len() > 0 {
        lemma_version_order_irreflexive(a.skip(1));
    }
}

/// The version order is asymmetric: two versions are never each newer than
/// the other.
pub proof fn lemma_version_order_asymmetric(a: Seq<u32>, b: Seq<u32>)
    requires
        spec_version_newer(a, b),
    ensures
        !spec_version_newer(b, a),
    decreases b.len(),
{
    if a.len() > 0 && b.len() > 0 && a[0] == b[0] {
        lemma_version_order_asymmetric(a.skip(1), b.skip(1));
    }
}

/// The version order is transitive.
pub proof fn lemma_version_order_transitive(a: Seq<u32>, b: Seq<u32>, c: Seq<u32>)
    requires
        spec_version_newer(a, b),
        spec_version_newer(b, c),
    ensures
        spec_version_newer(a, c),
    decreases b.len(),
{
    if a.len() > 0 && b.len() > 0 && c.len() > 0 && a[0] == b[0] && b[0] == c[0] {
        lemma_version_order_transitive(a.skip(1), b.skip(1), c.skip(1));
    }
}

/// The version order is total: two distinct component sequences always
/// compare, one way or the other.
pub proof fn lemma_version_order_total(a: Seq<u32>, b: Seq<u32>)
    requires
        !spec_version_newer(a, b),
        !spec_version_newer(b, a),
    ensures
        a == b,
    decreases a.len(),
{
    if a.len() == 0 {
        assert(b.len() == 0);
        assert(a =~= b);
    } else {
        assert(b.len() > 0);
        assert(a[0] == b[0]);
        lemma_version_order_total(a.skip(1), b.skip(1));
        assert(a =~= seq![a[0]] + a.skip(1));
        assert(b =~= seq![b[0]] + b.skip(1));
    }
}

pub proof fn lemma_digits_val_take_monotone(s: Seq<char>, k1: int, k2: int)
    requires
        0 <= k1 <= k2 <= s.len(),
    ensures
        digits_val(s.take(k1)) <= digits_val(s.take(k2)),
    decreases k2 - k1,
{
    if k1 < k2 {
        lemma_digits_val_take_monotone(s, k1, k2 - 1);
        assert(s.take(k2).drop_last() =~= s.take(k2 - 1));
    }
}

/// Parse the component of `s` lying between `start` and `end`: its numeric
/// value when it is a well-formed unsigned decimal that fits in 32 bits,
/// and zero otherwise, as a failed `parse` read as zero would give.
#[verifier::loop_isolation(false)]
fn parse_part(s: &str, start: usize, end: usize) -> (r: u32)
    requires
        start <= end <= s@.len(),
    ensures
        r == spec_parse_part(s@.subrange(start as int, end as int)),
{
    let ghost part = s@.subrange(start as int, end as int);
    let mut i = start;
    if i < end && s.get_char(i) == '+' {
        i += 1;
    }
    let ghost q = strip_plus(part);
    proof {
        assert(q =~= s@.subrange(i as int, end as int));
    }
    if i == end {
        return 0;
    }
    let mut acc: u64 = 0;
    let mut j = i;
    while j < end
        invariant
            i <= j <= end <= s@.len(),
            i < end,
            q =~= s@.subrange(i as int, end as int),
            all_digits(q.take(j - i)),
            acc == digits_val(q.take(j - i)),
            acc <= u32::MAX,
        decreases end - j,
    {
        let c = s.get_char(j);
        let cv = c as u32;
        proof {
            assert(q[j - i] == s@[j as int]);
        }
        if cv < 48 || cv > 57 {
            proof {
                assert(!is_digit(q[j - i]));
                assert(!all_digits(q));
                assert(spec_parse_part(part) == 0);
            }
            return 0;
        }
        let d = (cv - 48) as u64;
        acc = acc * 10 + d;
        proof {
            assert(q.take(j - i + 1).drop_last() =~= q.take(j - i));
            assert(q.take(j - i + 1).last() == q[j - i]);
            assert(digit_val(q[j - i]) == d);
            assert(digits_val(q.take(j - i + 1)) == acc);
            assert forall|k: int| 0 <= k < j - i + 1 implies is_digit(#[trigger] q.take(
                j - i + 1,
            )[k]) by {
                if k < j - i {
                    assert(q.take(j - i + 1)[k] == q.take(j - i)[k]);
                } else {
                    assert(q.take(j - i + 1)[k] == q[j - i]);
                }
            }
        }
        if acc > u32::MAX as u64 {
            proof {
                lemma_digits_val_take_monotone(q, j - i + 1, q.len() as int);
                assert(q.take(q.len() as int) =~= q);
                assert(digits_val(q) > u32::MAX);
                assert(spec_parse_part(part) == 0);
            }
            return 0;
        }
        j += 1;
    }
    proof {
        assert(q.take(j - i) =~= q);
        assert(all_digits(q));
        assert(q.len() > 0);
        assert(spec_parse_part(part) == digits_val(q) as u32);
    }
    acc as u32
}

/// Parse a dotted version string into its numeric components, one per
/// dot-separated part, a malformed part counting as zero.
#[verifier::loop_isolation(false)]
pub fn parse_version(s: &str) -> (r: Vec<u32>)
    ensures
        r@ == spec_parse_version(s@),
{
    let len = s.unicode_len();
    let mut parts: Vec<u32> = Vec::new();
    let mut start: usize = 0;
    let mut done = false;
    proof {
        assert(s@.skip(0) =~= s@);
        assert(parts@ + split_dots(s@).map_values(|p: Seq<char>| spec_parse_part(p))
            =~= spec_parse_version(s@));
    }
    while !done
        invariant
            start <= len,
            len == s@.len(),
            !done ==> spec_parse_version(s@) =~= parts@ + split_dots(
                s@.skip(start as int),
            ).map_values(|p: Seq<char>| spec_parse_part(p)),
            done ==> parts@ =~= spec_parse_version(s@),
        decreases len - start + (if done {
            0int
        } else {
            1int
        }),
    {
        let ghost t = s@.skip(start as int);
        let mut j = start;
        while j < len && s.get_char(j) != '.'
            invariant
                start <= j <= len,
                len == s@.len(),
                forall|k: int| start <= k < j ==> s@[k] != '.',
            decreases len - j,
        {
            j += 1;
        }
        proof {
            lemma_first_dot(t);
            assert(forall|k: int| 0 <= k < j - start ==> t[k] == s@[k + start]);
            assert(first_dot(t) == j - start) by {
                if j < len {
                    assert(t[(j - start) as int] == s@[j as int]);
                    if first_dot(t) < j - start {
                        assert(t[first_dot(t) as int] == '.');
                    }
                } else {
                    if first_dot(t) < t.len() {
                        assert(t[first_dot(t) as int] == '.');
                    }
                }
            }
        }
        if j < len {
            let v = parse_part(s, start, j);
            parts.push(v);
            proof {
                assert(t.take((j - start) as int) =~= s@.subrange(start as int, j as int));
                assert(t.skip((j - start) as int + 1) =~= s@.skip(j as int + 1));
                assert(split_dots(t) =~= seq![s@.subrange(start as int, j as int)] + split_dots(
                    s@.skip(j as int + 1),
                ));
                assert(split_dots(t).map_values(|p: Seq<char>| spec_parse_part(p)) =~= seq![
                    spec_parse_part(s@.subrange(start as int, j as int)),
                ] + split_dots(s@.skip(j as int + 1)).map_values(
                    |p: Seq<char>| spec_parse_part(p),
                ));
            }
            start = j + 1;
        } else {
            let v = parse_part(s, start, len);
            parts.push(v);
            proof {
                assert(t =~= s@.subrange(start as int, len as int));
                assert(split_dots(t) =~= seq![s@.subrange(start as int, len as int)]);
                assert(split_dots(t).map_values(|p: Seq<char>| spec_parse_part(p)) =~= seq![
                    spec_parse_part(s@.subrange(start as int, len as int)),
                ]);
                assert(parts@ =~= spec_parse_version(s@));
            }
            done = true;
        }
    }
    parts
}

/// Whether `target` denotes a newer version than `current`, under the
/// component-wise order with missing components read as zero and a strictly
/// longer, otherwise-equal version counting as newer.
#[verifier::loop_isolation(false)]
pub fn is_newer_version(current: &str, target: &str) -> (r: bool)
    ensures
        r == spec_version_newer(spec_parse_version(current@), spec_parse_version(target@)),
{
    let c = parse_version(current);
    let t = parse_version(target);
    let mut i: usize = 0;
    proof {
        assert(c@.skip(0) =~= c@);
        assert(t@.skip(0) =~= t@);
    }
    while i < t.len() && i < c.len()
        invariant
            i <= t.len(),
            i <= c.len(),
            spec_version_newer(c@, t@) == spec_version_newer(c@.skip(i as int), t@.skip(i as int)),
        decreases t.len() - i,
    {
        let tp = t[i];
        let cp = c[i];
        proof {
            assert(t@.skip(i as int)[0] == t@[i as int]);
            assert(c@.skip(i as int)[0] == c@[i as int]);
        }
        if tp > cp {
            proof {
                assert(spec_version_newer(c@.skip(i as int), t@.skip(i as int)));
            }
            return true;
        }
        if tp < cp {
            proof {
                assert(!spec_version_newer(c@.skip(i as int), t@.skip(i as int)));
            }
            return false;
        }
        proof {
            assert(c@.skip(i as int).skip(1) =~= c@.skip(i as int + 1));
            assert(t@.skip(i as int).skip(1) =~= t@.skip(i as int + 1));
        }
        i += 1;
    }
    if i >= t.len() {
        proof {
            assert(t@.skip(i as int).len() == 0);
        }
        false
    } else {
        proof {
            assert(c@.skip(i as int).len() == 0);
            assert(t@.skip(i as int).len() > 0);
        }
        true
    }
}

// ---------------------------------------------------------------------------
// Release feed
// ---------------------------------------------------------------------------
/// Every occurrence of `p` at the front of `s` removed, as repeated prefix
/// trimming does.
pub open spec fn strip_prefix_rep(s: Seq<char>, p: Seq<char>) -> Seq<char>
    decreases s.len(),
{
    if p.len() > 0 && p.len() <= s.len() && s.take(p.len() as int) == p {
        strip_prefix_rep(s.skip(p.len() as int), p)
    } else {
        s
    }
}

/// Whether `prefix` occurs in `s` at character position `at`.
fn matches_at(s: &str, prefix: &str, at: usize) -> (r: bool)
    ensures
        r == (at + prefix@.len() <= s@.len() && s@.subrange(
            at as int,
            at + prefix@.len(),
        ) == prefix@),
{
    let plen = prefix.unicode_len();
    let slen = s.unicode_len();
    if at > slen || plen > slen - at {
        return false;
    }
    let mut k: usize = 0;
    while k < plen
        invariant
            k <= plen,
            plen == prefix@.len(),
            slen == s@.len(),
            at + plen <= slen,
            forall|m: int| 0 <= m < k ==> s@[at + m] == prefix@[m],
        decreases plen - k,
    {
        if s.get_char(at + k) != prefix.get_char(k) {
            proof {
                assert(s@.subrange(at as int, at + plen)[k as int] == s@[at + k]);
            }
            return false;
        }
        k += 1;
    }
    proof {
        assert(s@.subrange(at as int, at + plen) =~= prefix@);
    }
    true
}

/// The release-feed endpoint for the repository named in the configuration:
/// the leading host prefix is trimmed off and the path is framed into the
/// API's latest-release route.
#[verifier::loop_isolation(false)]
pub fn github_api_releases_url(repository: &str) -> (r: String)
    ensures
        r@ == "https://api.github.com/repos/"@ + strip_prefix_rep(
            repository@,
            "https://github.com/"@,
        ) + "/releases/latest"@,
{
    let prefix = "https://github.com/";
    proof {
        reveal_strlit("https://github.com/");
    }
    let plen = prefix.unicode_len();
    let total = repository.unicode_len();
    let mut start: usize = 0;
    proof {
        assert(repository@.skip(0) =~= repository@);
    }
    while matches_at(repository, prefix, start)
        invariant
            start <= total,
            strip_prefix_rep(repository@, prefix@) == strip_prefix_rep(
                repository@.skip(start as int),
                prefix@,
            ),
        decreases total - start,
    {
        proof {
            assert(repository@.skip(start as int).take(plen as int) =~= repository@.subrange(
                start as int,
                start + plen,
            ));
            assert(repository@.skip(start as int).skip(plen as int) =~= repository@.skip(
                start + plen,
            ));
        }
        start += plen;
    }
    proof {
        if start + plen <= total {
            assert(repository@.skip(start as int).take(plen as int) =~= repository@.subrange(
                start as int,
                start + plen,
            ));
        }
        assert(strip_prefix_rep(repository@.skip(start as int), prefix@) == repository@.skip(
            start as int,
        ));
    }
    let path = repository.substring_char(start, total);
    proof {
        assert(path@ =~= repository@.skip(start as int));
    }
    String::from_str("https://api.github.com/repos/").concat(path).concat("/releases/latest")
}

/// Every occurrence of `c` at the front of `s` removed.
pub open spec fn strip_char_rep(s: Seq<char>, c: char) -> Seq<char>
    decreases s.len(),
{
    if s.len() > 0 && s[0] == c {
        strip_char_rep(s.skip(1), c)
    } else {
        s
    }
}

/// The suffix of `s` after its leading occurrences of `c`.
#[verifier::loop_isolation(false)]
fn trim_leading(s: &str, c: char) -> (r: &str)
    ensures
        r@ == strip_char_rep(s@, c),
{
    let len = s.unicode_len();
    let mut i: usize = 0;
    proof {
        assert(s@.skip(0) =~= s@);
    }
    while i < len && s.get_char(i) == c
        invariant
            i <= len,
            strip_char_rep(s@, c) == strip_char_rep(s@.skip(i as int), c),
        decreases len - i,
    {
        proof {
            assert(s@.skip(i as int).skip(1) =~= s@.skip(i as int + 1));
        }
        i += 1;
    }
    let r = s.substring_char(i, len);
    proof {
        assert(r@ =~= s@.skip(i as int));
    }
    r
}

/// Whether the latest tagged release is an update over the running version:
/// both versions are read with their leading `v` markers removed, and the
/// release's tag is returned exactly when it denotes a newer version.
pub fn check_for_update(current_version: &str, tag_name: &str) -> (r: Option<String>)
    ensures
        ({
            let newer = spec_version_newer(
                spec_parse_version(strip_char_rep(current_version@, 'v')),
                spec_parse_version(strip_char_rep(tag_name@, 'v')),
            );
            match r {
                Some(t) => newer && t@ == tag_name@,
                None => !newer,
            }
        }),
{
    let cur = trim_leading(current_version, 'v');
    let latest = trim_leading(tag_name, 'v');
    if is_newer_version(cur, latest) {
        Some(String::from_str(tag_name))
    } else {
        None
    }
}

/// One asset of a release: its file name and where to fetch it.
pub struct AssetInfo {
    pub name: String,
    pub browser_download_url: String,
}

/// Model of an asset.
pub struct AssetInfoModel {
    pub name: Seq<char>,
    pub browser_download_url: Seq<char>,
}

impl View for AssetInfo {
    type V = AssetInfoModel;

    open spec fn view(&self) -> AssetInfoModel {
        AssetInfoModel { name: self.name@, browser_download_url: self.browser_download_url@ }
    }
}

/// What the release feed reports: the latest tag and its assets.
pub struct ReleaseInfo {
    pub tag_name: String,
    pub assets: Vec<AssetInfo>,
}

/// Model of a release.
pub struct ReleaseInfoModel {
    pub tag_name: Seq<char>,
    pub assets: Seq<AssetInfoModel>,
}

impl View for ReleaseInfo {
    type V = ReleaseInfoModel;

    open spec fn view(&self) -> ReleaseInfoModel {
        ReleaseInfoModel {
            tag_name: self.tag_name@,
            assets: self.assets@.map_values(|a: AssetInfo| a@),
        }
    }
}

/// The name the update payload is published under.
pub open spec fn launcher_asset_name() -> Seq<char> {
    "grav-launcher"@
}

/// The download location of the first asset named exactly `grav-launcher`.
pub open spec fn spec_find_launcher_asset(assets: Seq<AssetInfoModel>) -> Option<Seq<char>>
    decreases assets.len(),
{
    if assets.len() == 0 {
        None
    } else if assets[0].name == launcher_asset_name() {
        Some(assets[0].browser_download_url)
    } else {
        spec_find_launcher_asset(assets.skip(1))
    }
}

/// Find the update payload among a release's assets.
#[verifier::loop_isolation(false)]
pub fn find_launcher_asset(release: &ReleaseInfo) -> (r: Option<String>)
    ensures
        ({
            match r {
                Some(url) => spec_find_launcher_asset(release@.assets) == Some(url@),
                None => spec_find_launcher_asset(release@.assets) is None,
            }
        }),
{
    let wanted = String::from_str("grav-launcher");
    let mut i: usize = 0;
    proof {
        assert(release@.assets.skip(0) =~= release@.assets);
    }
    while i < release.assets.len()
        invariant
            i <= release@.assets.len(),
            spec_find_launcher_asset(release@.assets) == spec_find_launcher_asset(
                release@.assets.skip(i as int),
            ),
        decreases release@.assets.len() - i,
    {
        proof {
            assert(release@.assets.skip(i as int)[0] == release@.assets[i as int]);
            assert(release@.assets.skip(i as int).skip(1) =~= release@.assets.skip(i as int + 1));
        }
        if release.assets[i].name == wanted {
            return Some(release.assets[i].browser_download_url.clone());
        }
        i += 1;
    }
    proof {
        assert(release@.assets.skip(i as int).len() == 0);
    }
    None
}

// ---------------------------------------------------------------------------
// Self-update download
// ---------------------------------------------------------------------------
/// Where the self-update download stands.
pub enum UpdatePhase {
    Idle,
    FetchingRelease,
    RequestingAsset,
    Downloading { downloaded: u64, total: Option<u64> },
    SettingPermissions,
    Stopped,
}

/// Model of a self-update phase.
pub enum UpdatePhaseModel {
    Idle,
    FetchingRelease,
    RequestingAsset,
    Downloading(u64, Option<u64>),
    SettingPermissions,
    Stopped,
}

impl View for UpdatePhase {
    type V = UpdatePhaseModel;

    open spec fn view(&self) -> UpdatePhaseModel {
        match self {
            UpdatePhase::Idle => UpdatePhaseModel::Idle,
            UpdatePhase::FetchingRelease => UpdatePhaseModel::FetchingRelease,
            UpdatePhase::RequestingAsset => UpdatePhaseModel::RequestingAsset,
            UpdatePhase::Downloading { downloaded, total } => UpdatePhaseModel::Downloading(
                *downloaded,
                *total,
            ),
            UpdatePhase::SettingPermissions => UpdatePhaseModel::SettingPermissions,
            UpdatePhase::Stopped => UpdatePhaseModel::Stopped,
        }
    }
}

/// The outcome of one outside step of the self-update download. A
/// `ChunkWritten` of zero bytes means the asset stream ended.
pub enum UpdateInput {
    Start,
    ReleaseFetched(Result<ReleaseInfo, String>),
    AssetRequested(Result<Option<u64>, String>),
    ChunkWritten(Result<u64, String>),
    PermissionsSet(Result<(), String>),
}

/// Model of a self-update input.
pub enum UpdateInputModel {
    Start,
    ReleaseFetched(Result<ReleaseInfoModel, Seq<char>>),
    AssetRequested(Result<Option<u64>, Seq<char>>),
    ChunkWritten(Result<u64, Seq<char>>),
    PermissionsSet(Result<(), Seq<char>>),
}

impl View for UpdateInput {
    type V = UpdateInputModel;

    open spec fn view(&self) -> UpdateInputModel {
        match self {
            UpdateInput::Start => UpdateInputModel::Start,
            UpdateInput::ReleaseFetched(r) => UpdateInputModel::ReleaseFetched(
                match r {
                    Ok(rel) => Ok(rel@),
                    Err(e) => Err(e@),
                },
            ),
            UpdateInput::AssetRequested(r) => UpdateInputModel::AssetRequested(
                crate::launcher::err_view(*r),
            ),
            UpdateInput::ChunkWritten(r) => UpdateInputModel::ChunkWritten(
                crate::launcher::err_view(*r),
            ),
            UpdateInput::PermissionsSet(r) => UpdateInputModel::PermissionsSet(
                crate::launcher::err_view(*r),
            ),
        }
    }
}

/// The outside work the self-update driver owes after a step. `Wait` is
/// returned for an input that does not belong to the current phase, which a
/// correct driver never produces.
pub enum UpdateAction {
    FetchRelease,
    RequestAsset(String),
    ReadChunk,
    SetPermissions,
    Wait,
    Stop,
}

/// Model of a self-update action.
pub enum UpdateActionModel {
    FetchRelease,
    RequestAsset(Seq<char>),
    ReadChunk,
    SetPermissions,
    Wait,
    Stop,
}

impl View for UpdateAction {
    type V = UpdateActionModel;

    open spec fn view(&self) -> UpdateActionModel {
        match self {
            UpdateAction::FetchRelease => UpdateActionModel::FetchRelease,
            UpdateAction::RequestAsset(url) => UpdateActionModel::RequestAsset(url@),
            UpdateAction::ReadChunk => UpdateActionModel::ReadChunk,
            UpdateAction::SetPermissions => UpdateActionModel::SetPermissions,
            UpdateAction::Wait => UpdateActionModel::Wait,
            UpdateAction::Stop => UpdateActionModel::Stop,
        }
    }
}

/// The model of one self-update step.
pub struct UpdateStepModel {
    pub events: Seq<EventModel>,
    pub action: UpdateActionModel,
    pub phase: UpdatePhaseModel,
}

/// A failure of the self-update worker, as the log reports it.
pub open spec fn update_failure(e: Seq<char>) -> Seq<char> {
    "Failed to update launcher: "@ + e
}

/// The transition relation of the self-update download: fetch the release,
/// pick the asset named `grav-launcher`, stream it with progress events
/// carrying the cumulative count and the optional total, then mark the file
/// executable. Every failure is reported as a launcher error and stops the
/// worker; the running session is never ended by it.
pub open spec fn spec_update_step(p: UpdatePhaseModel, i: UpdateInputModel) -> UpdateStepModel {
    match (p, i) {
        (UpdatePhaseModel::Idle, UpdateInputModel::Start) => UpdateStepModel {
            events: Seq::empty(),
            action: UpdateActionModel::FetchRelease,
            phase: UpdatePhaseModel::FetchingRelease,
        },
        (UpdatePhaseModel::FetchingRelease, UpdateInputModel::ReleaseFetched(Ok(rel))) => match
        spec_find_launcher_asset(rel.assets) {
            Some(url) => UpdateStepModel {
                events: seq![EventModel::StartDownloadingLauncherUpdate],
                action: UpdateActionModel::RequestAsset(url),
                phase: UpdatePhaseModel::RequestingAsset,
            },
            None => UpdateStepModel {
                events: seq![
                    EventModel::LauncherError(
                        update_failure(
                            "Could not find launcher binary in release assets"@,
                        ),
                    ),
                ],
                action: UpdateActionModel::Stop,
                phase: UpdatePhaseModel::Stopped,
            },
        },
        (UpdatePhaseModel::FetchingRelease, UpdateInputModel::ReleaseFetched(Err(e))) => UpdateStepModel {
            events: seq![EventModel::LauncherError(update_failure(e))],
            action: UpdateActionModel::Stop,
            phase: UpdatePhaseModel::Stopped,
        },
        (UpdatePhaseModel::RequestingAsset, UpdateInputModel::AssetRequested(Ok(total))) => UpdateStepModel {
            events: seq![EventModel::LauncherDownloadProgress(0u64, total)],
            action: UpdateActionModel::ReadChunk,
            phase: UpdatePhaseModel::Downloading(0u64, total),
        },
        (UpdatePhaseModel::RequestingAsset, UpdateInputModel::AssetRequested(Err(e))) => UpdateStepModel {
            events: seq![EventModel::LauncherError(update_failure(e))],
            action: UpdateActionModel::Stop,
            phase: UpdatePhaseModel::Stopped,
        },
        (
            UpdatePhaseModel::Downloading(d, t),
            UpdateInputModel::ChunkWritten(Ok(n)),
        ) => if n == 0 {
            UpdateStepModel {
                events: Seq::empty(),
                action: UpdateActionModel::SetPermissions,
                phase: UpdatePhaseModel::SettingPermissions,
            }
        } else {
            UpdateStepModel {
                events: seq![EventModel::LauncherDownloadProgress((d + n) as u64, t)],
                action: UpdateActionModel::ReadChunk,
                phase: UpdatePhaseModel::Downloading((d + n) as u64, t),
            }
        },
        (UpdatePhaseModel::Downloading(_, _), UpdateInputModel::ChunkWritten(Err(e))) => UpdateStepModel {
            events: seq![EventModel::LauncherError(update_failure(e))],
            action: UpdateActionModel::Stop,
            phase: UpdatePhaseModel::Stopped,
        },
        (UpdatePhaseModel::SettingPermissions, UpdateInputModel::PermissionsSet(Ok(_))) => UpdateStepModel {
            events: seq![EventModel::LauncherUpdateDownloaded],
            action: UpdateActionModel::Stop,
            phase: UpdatePhaseModel::Stopped,
        },
        (UpdatePhaseModel::SettingPermissions, UpdateInputModel::PermissionsSet(Err(e))) => UpdateStepModel {
            events: seq![EventModel::LauncherError(update_failure(e))],
            action: UpdateActionModel::Stop,
            phase: UpdatePhaseModel::Stopped,
        },
        (other, _) => UpdateStepModel {
            events: Seq::empty(),
            action: UpdateActionModel::Wait,
            phase: other,
        },
    }
}

/// The self-update download as a stepwise machine, driven by one worker
/// thread; the driver performs each returned action and hands its outcome
/// back, and stops as soon as a send on the bus fails.
pub struct UpdateMachine {
    pub phase: UpdatePhase,
}

impl View for UpdateMachine {
    type V = UpdatePhaseModel;

    open spec fn view(&self) -> UpdatePhaseModel {
        self.phase@
    }
}

impl UpdateMachine {
    /// A self-update download that has not started yet.
    pub fn new() -> (m: UpdateMachine)
        ensures
            m@ == UpdatePhaseModel::Idle,
    {
        UpdateMachine { phase: UpdatePhase::Idle }
    }

    /// Fold one outside outcome into the download: returns the events to
    /// put on the bus, in order, and the next outside action owed.
    pub fn step(&mut self, input: UpdateInput) -> (r: (Vec<Event>, UpdateAction))
        requires
            old(self)@ matches UpdatePhaseModel::Downloading(d, _) ==> (input@
                matches UpdateInputModel::ChunkWritten(Ok(n)) ==> d + n <= u64::MAX),
        ensures
            final(self)@ == spec_update_step(old(self)@, input@).phase,
            events_view(r.0@) == spec_update_step(old(self)@, input@).events,
            r.1@ == spec_update_step(old(self)@, input@).action,
    {
        match (&self.phase, input) {
            (UpdatePhase::Idle, UpdateInput::Start) => {
                self.phase = UpdatePhase::FetchingRelease;
                (crate::launcher::no_events(), UpdateAction::FetchRelease)
            },
            (UpdatePhase::FetchingRelease, UpdateInput::ReleaseFetched(Ok(rel))) => {
                match find_launcher_asset(&rel) {
                    Some(url) => {
                        self.phase = UpdatePhase::RequestingAsset;
                        (
                            crate::launcher::one_event(Event::StartDownloadingLauncherUpdate),
                            UpdateAction::RequestAsset(url),
                        )
                    },
                    None => {
                        self.phase = UpdatePhase::Stopped;
                        (
                            crate::launcher::one_event(
                                Event::LauncherError(
                                    String::from_str("Failed to update launcher: ").concat(
                                        "Could not find launcher binary in release assets",
                                    ),
                                ),
                            ),
                            UpdateAction::Stop,
                        )
                    },
                }
            },
            (UpdatePhase::FetchingRelease, UpdateInput::ReleaseFetched(Err(e))) => {
                self.phase = UpdatePhase::Stopped;
                (
                    crate::launcher::one_event(
                        Event::LauncherError(
                            String::from_str("Failed to update launcher: ").concat(e.as_str()),
                        ),
                    ),
                    UpdateAction::Stop,
                )
            },
            (UpdatePhase::RequestingAsset, UpdateInput::AssetRequested(Ok(total))) => {
                self.phase = UpdatePhase::Downloading { downloaded: 0, total };
                (
                    crate::launcher::one_event(Event::LauncherDownloadProgress(0, total)),
                    UpdateAction::ReadChunk,
                )
            },
            (UpdatePhase::RequestingAsset, UpdateInput::AssetRequested(Err(e))) => {
                self.phase = UpdatePhase::Stopped;
                (
                    crate::launcher::one_event(
                        Event::LauncherError(
                            String::from_str("Failed to update launcher: ").concat(e.as_str()),
                        ),
                    ),
                    UpdateAction::Stop,
                )
            },
            (UpdatePhase::Downloading { downloaded, total }, UpdateInput::ChunkWritten(Ok(n)))
                => {
                if n == 0 {
                    self.phase = UpdatePhase::SettingPermissions;
                    (crate::launcher::no_events(), UpdateAction::SetPermissions)
                } else {
                    let new_total = *downloaded + n;
                    let t = *total;
                    self.phase = UpdatePhase::Downloading { downloaded: new_total, total: t };
                    (
                        crate::launcher::one_event(
                            Event::LauncherDownloadProgress(new_total, t),
                        ),
                        UpdateAction::ReadChunk,
                    )
                }
            },
            (UpdatePhase::Downloading { .. }, UpdateInput::ChunkWritten(Err(e))) => {
                self.phase = UpdatePhase::Stopped;
                (
                    crate::launcher::one_event(
                        Event::LauncherError(
                            String::from_str("Failed to update launcher: ").concat(e.as_str()),
                        ),
                    ),
                    UpdateAction::Stop,
                )
            },
            (UpdatePhase::SettingPermissions, UpdateInput::PermissionsSet(Ok(()))) => {
                self.phase = UpdatePhase::Stopped;
                (
                    crate::launcher::one_event(Event::LauncherUpdateDownloaded),
                    UpdateAction::Stop,
                )
            },
            (UpdatePhase::SettingPermissions, UpdateInput::PermissionsSet(Err(e))) => {
                self.phase = UpdatePhase::Stopped;
                (
                    crate::launcher::one_event(
                        Event::LauncherError(
                            String::from_str("Failed to update launcher: ").concat(e.as_str()),
                        ),
                    ),
                    UpdateAction::Stop,
                )
            },
            (_, _) => { (crate::launcher::no_events(), UpdateAction::Wait) },
        }
    }
}

/// The result of driving the self-update download over a whole input trace.
pub struct UpdateRunModel {
    pub events: Seq<EventModel>,
    pub phase: UpdatePhaseModel,
}

/// Fold a whole input trace through the self-update transition relation.
pub open spec fn spec_update_run(p: UpdatePhaseModel, inputs: Seq<UpdateInputModel>)
    -> UpdateRunModel
    decreases inputs.len(),
{
    if inputs.len() == 0 {
        UpdateRunModel { events: Seq::empty(), phase: p }
    } else {
        let s = spec_update_step(p, inputs[0]);
        let rest = spec_update_run(s.phase, inputs.skip(1));
        UpdateRunModel { events: s.events + rest.events, phase: rest.phase }
    }
}

/// The model of a trace of successfully written self-update chunks.
pub open spec fn update_chunk_inputs(chunks: Seq<u64>) -> Seq<UpdateInputModel> {
    chunks.map_values(|n: u64| UpdateInputModel::ChunkWritten(Ok(n)))
}

/// While chunks of the launcher-update asset keep arriving, the download
/// reports exactly one progress event per chunk, carrying the cumulative
/// byte count and the unchanged total, and the cumulative counts are
/// non-decreasing.
pub proof fn lemma_update_progress_monotone(d: u64, t: Option<u64>, chunks: Seq<u64>)
    requires
        forall|i: int| 0 <= i < chunks.len() ==> chunks[i] > 0,
        d + crate::launcher::total_bytes(chunks) <= u64::MAX,
    ensures
        ({
            let run = spec_update_run(UpdatePhaseModel::Downloading(d, t), update_chunk_inputs(chunks));
            run.phase == UpdatePhaseModel::Downloading(
                (d + crate::launcher::total_bytes(chunks)) as u64,
                t,
            ) && run.events.len() == chunks.len() && (forall|i: int|
                0 <= i < chunks.len() ==> run.events[i] == EventModel::LauncherDownloadProgress(
                    (d + crate::launcher::total_bytes(chunks.take(i + 1))) as u64,
                    t,
                )) && (forall|i: int, j: int|
                0 <= i <= j < chunks.len() ==> run.events[i]->LauncherDownloadProgress_0
                    <= run.events[j]->LauncherDownloadProgress_0)
        }),
    decreases chunks.len(),
{
    let run = spec_update_run(UpdatePhaseModel::Downloading(d, t), update_chunk_inputs(chunks));
    if chunks.len() == 0 {
        assert(chunks.take(0) =~= chunks);
    } else {
        let n = chunks[0];
        crate::launcher::lemma_total_bytes_nonneg(chunks.skip(1));
        let d1 = (d + n) as u64;
        let s = spec_update_step(
            UpdatePhaseModel::Downloading(d, t),
            UpdateInputModel::ChunkWritten(Ok(n)),
        );
        assert(update_chunk_inputs(chunks)[0] == UpdateInputModel::ChunkWritten(Ok(n)));
        assert(s.phase == UpdatePhaseModel::Downloading(d1, t));
        assert(update_chunk_inputs(chunks).skip(1) =~= update_chunk_inputs(chunks.skip(1)));
        lemma_update_progress_monotone(d1, t, chunks.skip(1));
        let rest = spec_update_run(
            UpdatePhaseModel::Downloading(d1, t),
            update_chunk_inputs(chunks.skip(1)),
        );
        assert forall|i: int| 0 <= i < chunks.len() implies run.events[i]
            == EventModel::LauncherDownloadProgress(
            (d + crate::launcher::total_bytes(chunks.take(i + 1))) as u64,
            t,
        ) by {
            assert(chunks.take(i + 1) =~= seq![n] + chunks.skip(1).take(i));
            crate::launcher::lemma_total_bytes_concat(seq![n], chunks.skip(1).take(i));
            assert(seq![n].skip(1) =~= Seq::<u64>::empty());
            assert(crate::launcher::total_bytes(Seq::<u64>::empty()) == 0);
            assert(crate::launcher::total_bytes(seq![n]) == n);
            if i == 0 {
                assert(chunks.skip(1).take(0) =~= Seq::<u64>::empty());
                assert(run.events[0] == s.events[0]);
            } else {
                assert(run.events[i] == rest.events[i - 1]);
                crate::launcher::lemma_total_bytes_take_monotone(chunks.skip(1), 0, i);
            }
        }
        assert forall|i: int, j: int| 0 <= i <= j < chunks.len() implies run.events[i]->LauncherDownloadProgress_0
            <= run.events[j]->LauncherDownloadProgress_0 by {
            crate::launcher::lemma_total_bytes_take_monotone(chunks, i + 1, j + 1);
            crate::launcher::lemma_total_bytes_nonneg(chunks.take(i + 1));
            crate::launcher::lemma_total_bytes_take_monotone(chunks, j + 1, chunks.len() as int);
            assert(chunks.take(chunks.len() as int) =~= chunks);
        }
    }
}

// ---------------------------------------------------------------------------
// Applying a downloaded update
// ---------------------------------------------------------------------------
/// Whether a file name is a pending update artifact under the fixed naming
/// convention: it starts with `grav-launcher.` and ends with `.new`.
pub open spec fn spec_is_update_artifact_name(name: Seq<char>) -> bool {
    name.len() >= "grav-launcher."@.len() && name.take("grav-launcher."@.len() as int)
        == "grav-launcher."@ && name.len() >= ".new"@.len() && name.skip(
        name.len() - ".new"@.len(),
    ) == ".new"@
}

/// Whether a file name matches the pending-update naming convention.
pub fn is_update_artifact_name(name: &str) -> (r: bool)
    ensures
        r == spec_is_update_artifact_name(name@),
{
    proof {
        reveal_strlit("grav-launcher.");
        reveal_strlit(".new");
    }
    let len = name.unicode_len();
    if !matches_at(name, "grav-launcher.", 0) {
        proof {
            if name@.len() >= 14 {
                assert(name@.take(14) =~= name@.subrange(0, 14));
            }
        }
        return false;
    }
    proof {
        assert(name@.take(14) =~= name@.subrange(0, 14));
    }
    let tail = matches_at(name, ".new", len - 4);
    proof {
        assert(name@.skip(name@.len() - 4) =~= name@.subrange(
            name@.len() - 4,
            name@.len() as int,
        ));
    }
    tail
}

/// The first decision of the update-apply step: when a scan of the
/// executable's directory found a pending artifact, announce that the
/// update is being applied and have the driver rename that artifact over
/// the running executable; when none was found, do nothing.
pub fn plan_apply_update(artifact: Option<String>) -> (r: (Vec<Event>, Option<String>))
    ensures
        events_view(r.0@) == (match artifact {
            Some(_) => seq![EventModel::LauncherApplyingUpdate],
            None => Seq::<EventModel>::empty(),
        }),
        crate::ui::log::opt_string_view(r.1) == crate::ui::log::opt_string_view(artifact),
{
    match artifact {
        Some(p) => (crate::launcher::one_event(Event::LauncherApplyingUpdate), Some(p)),
        None => (crate::launcher::no_events(), None),
    }
}

/// The second decision of the update-apply step: when the rename went
/// through, announce that the update was applied and a restart is needed;
/// a failed rename is left to the driver to surface.
pub fn conclude_apply_update(renamed: Result<(), String>) -> (r: Vec<Event>)
    ensures
        events_view(r@) == (match renamed {
            Ok(_) => seq![EventModel::LauncherUpdateApplied],
            Err(_) => Seq::<EventModel>::empty(),
        }),
{
    match renamed {
        Ok(()) => crate::launcher::one_event(Event::LauncherUpdateApplied),
        Err(_) => crate::launcher::no_events(),
    }
}

} // verus!
