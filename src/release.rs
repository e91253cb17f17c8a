//! Release discovery and asset resolution.

use vstd::prelude::*;
use vstd::string::*;
use crate::text::{concat, contains, ends_with, is_suffix_of, occurs_in, str_eq};
use crate::update::UpdateError;

verus! {

/// The two cores the daemon manages.
#[derive(Clone, Copy, Debug, PartialEq, Eq, Structural)]
pub enum Core {
    Xray,
    Mihomo,
}

/// The CPU architectures that have release assets.
#[derive(Clone, Copy, Debug, PartialEq, Eq, Structural)]
pub enum Arch {
    Arm64,
    Mips,
    MipsLe,
}

pub open spec fn core_name(c: Core) -> Seq<char> {
    match c {
        Core::Xray => "xray"@,
        Core::Mihomo => "mihomo"@,
    }
}

pub open spec fn core_of(name: Seq<char>) -> Option<Core> {
    if name == "xray"@ {
        Some(Core::Xray)
    } else if name == "mihomo"@ {
        Some(Core::Mihomo)
    } else {
        None
    }
}

/// The architecture named as the platform names it (`std::env::consts::ARCH`).
pub open spec fn arch_of(name: Seq<char>) -> Option<Arch> {
    if name == "aarch64"@ {
        Some(Arch::Arm64)
    } else if name == "mips"@ {
        Some(Arch::Mips)
    } else if name == "mipsle"@ {
        Some(Arch::MipsLe)
    } else {
        None
    }
}

impl Core {
    pub fn from_name(name: &str) -> (r: Option<Core>)
        ensures
            r == core_of(name@),
    {
        if str_eq(name, "xray") {
            Some(Core::Xray)
        } else if str_eq(name, "mihomo") {
            Some(Core::Mihomo)
        } else {
            None
        }
    }

    /// The core's name, which is also the name of its binary.
    pub fn name(&self) -> (r: &'static str)
        ensures
            r@ == core_name(*self),
    {
        match self {
            Core::Xray => "xray",
            Core::Mihomo => "mihomo",
        }
    }

    /// The release listing of the primary source.
    pub fn releases_url(&self) -> (r: &'static str)
        ensures
            r@ == match *self {
                Core::Xray => "https://api.github.com/repos/XTLS/Xray-core/releases"@,
                Core::Mihomo => "https://api.github.com/repos/MetaCubeX/mihomo/releases"@,
            },
    {
        match self {
            Core::Xray => "https://api.github.com/repos/XTLS/Xray-core/releases",
            Core::Mihomo => "https://api.github.com/repos/MetaCubeX/mihomo/releases",
        }
    }

    /// The package metadata of the secondary source, which lists versions only.
    pub fn versions_url(&self) -> (r: &'static str)
        ensures
            r@ == match *self {
                Core::Xray => "https://data.jsdelivr.com/v1/package/gh/XTLS/Xray-core"@,
                Core::Mihomo => "https://data.jsdelivr.com/v1/package/gh/MetaCubeX/mihomo"@,
            },
    {
        match self {
            Core::Xray => "https://data.jsdelivr.com/v1/package/gh/XTLS/Xray-core",
            Core::Mihomo => "https://data.jsdelivr.com/v1/package/gh/MetaCubeX/mihomo",
        }
    }
}

impl Arch {
    pub fn from_name(name: &str) -> (r: Option<Arch>)
        ensures
            r == arch_of(name@),
    {
        if str_eq(name, "aarch64") {
            Some(Arch::Arm64)
        } else if str_eq(name, "mips") {
            Some(Arch::Mips)
        } else if str_eq(name, "mipsle") {
            Some(Arch::MipsLe)
        } else {
            None
        }
    }
}

pub open spec fn is_ascii_digit(c: char) -> bool {
    '0' <= c && c <= '9'
}

/// A version in normalized form: one that starts with a digit gets a leading `v`.
pub open spec fn normalized(v: Seq<char>) -> Seq<char> {
    if v.len() > 0 && is_ascii_digit(v[0]) {
        seq!['v'] + v
    } else {
        v
    }
}

pub fn normalize_version(v: &str) -> (r: String)
    ensures
        r@ == normalized(v@),
{
    if v.unicode_len() > 0 {
        let c = v.get_char(0);
        if '0' <= c && c <= '9' {
            proof { reveal_strlit("v"); }
            return concat("v", v);
        }
    }
    String::from_str(v)
}

/// `r` is the part of `s` before the first `c`, or all of `s` if it holds none.
pub open spec fn is_head_before(s: Seq<char>, c: char, r: Seq<char>) -> bool {
    &&& r.len() <= s.len()
    &&& r == s.subrange(0, r.len() as int)
    &&& forall|i: int| 0 <= i < r.len() ==> s[i] != c
    &&& (r.len() == s.len() || s[r.len() as int] == c)
}

pub fn head_before(s: &str, c: char) -> (r: String)
    ensures
        is_head_before(s@, c, r@),
{
    let n = s.unicode_len();
    let mut i: usize = 0;
    while i < n && s.get_char(i) != c
        invariant
            n == s@.len(),
            i <= n,
            forall|k: int| 0 <= k < i ==> s@[k] != c,
        decreases n - i,
    {
        i = i + 1;
    }
    String::from_str(s.substring_char(0, i))
}

/// A downloadable file of a release.
pub struct Asset {
    pub file_name: String,
    pub url: String,
}

/// A release as the primary source lists it.
pub struct GithubRelease {
    pub tag_name: String,
    pub name: String,
    pub published_at: String,
    pub prerelease: bool,
    pub assets: Vec<Asset>,
}

/// A release as it is offered for choice.
pub struct ReleaseInfo {
    pub version: String,
    pub name: String,
    pub published_at: String,
    pub is_prerelease: bool,
}

/// The core whose releases are asked for; an unknown name is an error.
pub fn listing_core(name: &str) -> (r: Result<Core, UpdateError>)
    ensures
        r == match core_of(name@) {
            Some(c) => Ok::<Core, UpdateError>(c),
            None => Err(UpdateError::UnknownCore),
        },
{
    match Core::from_name(name) {
        Some(c) => Ok(c),
        None => Err(UpdateError::UnknownCore),
    }
}

/// At most this many releases are listed.
pub const MAX_RELEASES: usize = 10;

/// The entry listed for a release of the primary source.
pub open spec fn from_github_spec(g: GithubRelease, r: ReleaseInfo) -> bool {
    &&& r.version@ == normalized(g.tag_name@)
    &&& r.name@ == g.name@
    &&& is_head_before(g.published_at@, 'T', r.published_at@)
    &&& r.is_prerelease == g.prerelease
}

/// The entry listed for a bare version of the secondary source: its name is
/// made up from the version, it has no date and is no prerelease.
pub open spec fn from_version_spec(v: Seq<char>, r: ReleaseInfo) -> bool {
    &&& r.version@ == normalized(v)
    &&& r.name@ == "Release "@ + v
    &&& r.published_at@.len() == 0
    &&& !r.is_prerelease
}

pub open spec fn listed_len(n: nat) -> nat {
    if n < MAX_RELEASES { n } else { MAX_RELEASES as nat }
}

fn from_github(g: &GithubRelease) -> (r: ReleaseInfo)
    ensures
        from_github_spec(*g, r),
{
    ReleaseInfo {
        version: normalize_version(g.tag_name.as_str()),
        name: g.name.clone(),
        published_at: head_before(g.published_at.as_str(), 'T'),
        is_prerelease: g.prerelease,
    }
}

fn from_version(v: &String) -> (r: ReleaseInfo)
    ensures
        from_version_spec(v@, r),
{
    proof { reveal_strlit(""); }
    ReleaseInfo {
        version: normalize_version(v.as_str()),
        name: concat("Release ", v.as_str()),
        published_at: String::from_str(""),
        is_prerelease: false,
    }
}

/// The releases to offer: the first ten of the primary listing when it came
/// through, else the first ten versions of the secondary one, else an error.
/// Order is kept.
pub fn list_releases(primary: Option<Vec<GithubRelease>>, secondary: Option<Vec<String>>)
    -> (r: Result<Vec<ReleaseInfo>, UpdateError>)
    ensures
        primary is None && secondary is None <==> r is Err,
        r is Err ==> r == Err::<Vec<ReleaseInfo>, UpdateError>(UpdateError::ReleaseLookupFailed),
        primary matches Some(p) ==> r matches Ok(l) && l@.len() == listed_len(p@.len())
            && forall|i: int| 0 <= i < l@.len() ==> from_github_spec(p@[i], #[trigger] l@[i]),
        primary is None ==> (secondary matches Some(s) ==> r matches Ok(l) && l@.len() == listed_len(s@.len())
            && forall|i: int| 0 <= i < l@.len() ==> from_version_spec(s@[i]@, #[trigger] l@[i])),
{
    if let Some(p) = primary {
        let mut out: Vec<ReleaseInfo> = Vec::new();
        let mut i: usize = 0;
        while i < p.len() && i < MAX_RELEASES
            invariant
                i <= p@.len(),
                i <= MAX_RELEASES,
                out@.len() == i,
                forall|k: int| 0 <= k < i ==> from_github_spec(p@[k], #[trigger] out@[k]),
            decreases p@.len() - i,
        {
            out.push(from_github(&p[i]));
            i = i + 1;
        }
        return Ok(out);
    }
    if let Some(s) = secondary {
        let mut out: Vec<ReleaseInfo> = Vec::new();
        let mut i: usize = 0;
        while i < s.len() && i < MAX_RELEASES
            invariant
                i <= s@.len(),
                i <= MAX_RELEASES,
                out@.len() == i,
                forall|k: int| 0 <= k < i ==> from_version_spec(s@[k]@, #[trigger] out@[k]),
            decreases s@.len() - i,
        {
            out.push(from_version(&s[i]));
            i = i + 1;
        }
        return Ok(out);
    }
    Err(UpdateError::ReleaseLookupFailed)
}

pub open spec fn xray_asset_name(a: Arch) -> Seq<char> {
    match a {
        Arch::Arm64 => "Xray-linux-arm64-v8a.zip"@,
        Arch::Mips => "Xray-linux-mips32.zip"@,
        Arch::MipsLe => "Xray-linux-mips32le.zip"@,
    }
}

/// The flavour that names a mihomo asset in a release listing.
pub open spec fn mihomo_listed_flavour(a: Arch) -> Seq<char> {
    match a {
        Arch::Arm64 => "arm64"@,
        Arch::Mips => "mips-softfloat"@,
        Arch::MipsLe => "mipsle-softfloat"@,
    }
}

/// The flavour of the mihomo asset whose name is built when no listing helps.
pub open spec fn mihomo_built_flavour(a: Arch) -> Seq<char> {
    match a {
        Arch::Arm64 => "arm64"@,
        Arch::Mips => "mips-hardfloat"@,
        Arch::MipsLe => "mipsle-hardfloat"@,
    }
}

pub open spec fn mihomo_asset_name(a: Arch, ver: Seq<char>) -> Seq<char> {
    "mihomo-linux-"@ + mihomo_built_flavour(a) + "-"@ + ver + ".gz"@
}

pub open spec fn download_prefix(c: Core) -> Seq<char> {
    match c {
        Core::Xray => "https://github.com/XTLS/Xray-core/releases/download/"@,
        Core::Mihomo => "https://github.com/MetaCubeX/mihomo/releases/download/"@,
    }
}

/// The release-download address of an asset of a version.
pub open spec fn download_url(c: Core, ver: Seq<char>, file: Seq<char>) -> Seq<char> {
    download_prefix(c) + ver + "/"@ + file
}

/// A listed asset that fits the architecture: a gzip file whose name holds
/// the listing's flavour.
pub open spec fn fits_listing(name: Seq<char>, a: Arch) -> bool {
    occurs_in("mihomo-linux-"@ + mihomo_listed_flavour(a), name) && is_suffix_of(".gz"@, name)
}

/// `i` is the first release tagged `ver`.
pub open spec fn first_release(rels: Seq<GithubRelease>, ver: Seq<char>, i: int) -> bool {
    &&& 0 <= i < rels.len()
    &&& rels[i].tag_name@ == ver
    &&& forall|k: int| 0 <= k < i ==> rels[k].tag_name@ != ver
}

/// A listed asset that can be used: its name fits and it has an address.
pub open spec fn usable(asset: Asset, a: Arch) -> bool {
    fits_listing(asset.file_name@, a) && asset.url@.len() > 0
}

/// `j` is the first usable asset for the architecture.
pub open spec fn first_fitting(assets: Seq<Asset>, a: Arch, j: int) -> bool {
    &&& 0 <= j < assets.len()
    &&& usable(assets[j], a)
    &&& forall|k: int| 0 <= k < j ==> !usable(assets[k], a)
}

/// The listing names an asset for the version and architecture.
pub open spec fn listing_has(rels: Seq<GithubRelease>, ver: Seq<char>, a: Arch) -> bool {
    exists|i: int, j: int| first_release(rels, ver, i) && first_fitting(rels[i].assets@, a, j)
}

/// The releases of a listing; none when the listing could not be had.
pub open spec fn listed(listing: Option<Vec<GithubRelease>>) -> Seq<GithubRelease> {
    match listing {
        Some(l) => l@,
        None => Seq::empty(),
    }
}

/// The asset that resolution yields for `ver` (already normalized).
pub open spec fn resolves_to(c: Core, a: Arch, ver: Seq<char>, rels: Seq<GithubRelease>, r: Asset) -> bool {
    match c {
        Core::Xray => r.file_name@ == xray_asset_name(a) && r.url@ == download_url(c, ver, r.file_name@),
        Core::Mihomo => if listing_has(rels, ver, a) {
            forall|i: int, j: int| first_release(rels, ver, i) && first_fitting(rels[i].assets@, a, j)
                ==> r.file_name@ == rels[i].assets@[j].file_name@ && r.url@ == rels[i].assets@[j].url@
        } else {
            r.file_name@ == mihomo_asset_name(a, ver) && r.url@ == download_url(c, ver, r.file_name@)
        },
    }
}

pub fn find_release(rels: &Vec<GithubRelease>, ver: &str) -> (r: Option<usize>)
    ensures
        match r {
            Some(i) => first_release(rels@, ver@, i as int),
            None => forall|k: int| 0 <= k < rels@.len() ==> rels@[k].tag_name@ != ver@,
        },
{
    let mut i: usize = 0;
    while i < rels.len()
        invariant
            i <= rels@.len(),
            forall|k: int| 0 <= k < i ==> rels@[k].tag_name@ != ver@,
        decreases rels@.len() - i,
    {
        if str_eq(rels[i].tag_name.as_str(), ver) {
            return Some(i);
        }
        i = i + 1;
    }
    None
}

fn listed_flavour(a: Arch) -> (r: &'static str)
    ensures
        r@ == mihomo_listed_flavour(a),
{
    match a {
        Arch::Arm64 => "arm64",
        Arch::Mips => "mips-softfloat",
        Arch::MipsLe => "mipsle-softfloat",
    }
}

fn built_flavour(a: Arch) -> (r: &'static str)
    ensures
        r@ == mihomo_built_flavour(a),
{
    match a {
        Arch::Arm64 => "arm64",
        Arch::Mips => "mips-hardfloat",
        Arch::MipsLe => "mipsle-hardfloat",
    }
}

pub fn find_fitting(assets: &Vec<Asset>, a: Arch) -> (r: Option<usize>)
    ensures
        match r {
            Some(j) => first_fitting(assets@, a, j as int),
            None => forall|k: int| 0 <= k < assets@.len() ==> !usable(assets@[k], a),
        },
{
    let stem = concat("mihomo-linux-", listed_flavour(a));
    let mut j: usize = 0;
    while j < assets.len()
        invariant
            j <= assets@.len(),
            stem@ == "mihomo-linux-"@ + mihomo_listed_flavour(a),
            forall|k: int| 0 <= k < j ==> !usable(assets@[k], a),
        decreases assets@.len() - j,
    {
        let name = assets[j].file_name.as_str();
        if contains(name, stem.as_str()) && ends_with(name, ".gz") && assets[j].url.as_str().unicode_len() > 0 {
            return Some(j);
        }
        j = j + 1;
    }
    None
}

fn xray_name(a: Arch) -> (r: &'static str)
    ensures
        r@ == xray_asset_name(a),
{
    match a {
        Arch::Arm64 => "Xray-linux-arm64-v8a.zip",
        Arch::Mips => "Xray-linux-mips32.zip",
        Arch::MipsLe => "Xray-linux-mips32le.zip",
    }
}

fn prefix_of(c: Core) -> (r: &'static str)
    ensures
        r@ == download_prefix(c),
{
    match c {
        Core::Xray => "https://github.com/XTLS/Xray-core/releases/download/",
        Core::Mihomo => "https://github.com/MetaCubeX/mihomo/releases/download/",
    }
}

fn build_url(c: Core, ver: &str, file: &str) -> (r: String)
    ensures
        r@ == download_url(c, ver@, file@),
{
    let a = concat(prefix_of(c), ver);
    let b = concat(a.as_str(), "/");
    concat(b.as_str(), file)
}

/// The asset to fetch for a normalized version: a fixed name for xray; for
/// mihomo the first fitting asset of the first release tagged with the
/// version in the listing, else a name built from the version.
pub fn asset_for(c: Core, a: Arch, ver: &str, listing: &Option<Vec<GithubRelease>>) -> (r: Asset)
    ensures
        resolves_to(c, a, ver@, listed(*listing), r),
{
    match c {
        Core::Xray => {
            let file_name = String::from_str(xray_name(a));
            let url = build_url(c, ver, file_name.as_str());
            Asset { file_name, url }
        },
        Core::Mihomo => {
            if let Some(rels) = listing {
                if let Some(i) = find_release(rels, ver) {
                    if let Some(j) = find_fitting(&rels[i].assets, a) {
                        let found = &rels[i].assets[j];
                        return Asset { file_name: found.file_name.clone(), url: found.url.clone() };
                    }
                }
            }
            let n1 = concat("mihomo-linux-", built_flavour(a));
            let n2 = concat(n1.as_str(), "-");
            let n3 = concat(n2.as_str(), ver);
            let file_name = concat(n3.as_str(), ".gz");
            let url = build_url(c, ver, file_name.as_str());
            Asset { file_name, url }
        },
    }
}

/// Asset resolution never yields an empty file name or an empty address:
/// for every core, supported architecture, version and listing, the result
/// is a fixed table entry or a built name under the release-download
/// address, or a listed asset whose name holds the listing's flavour and
/// whose address is not empty.
pub proof fn resolved_name_is_never_empty(c: Core, a: Arch, ver: Seq<char>, rels: Seq<GithubRelease>, r: Asset)
    requires
        resolves_to(c, a, ver, rels, r),
    ensures
        r.file_name@.len() > 0,
        r.url@.len() > 0,
{
    reveal_strlit("https://github.com/XTLS/Xray-core/releases/download/");
    reveal_strlit("https://github.com/MetaCubeX/mihomo/releases/download/");
    reveal_strlit("Xray-linux-arm64-v8a.zip");
    reveal_strlit("Xray-linux-mips32.zip");
    reveal_strlit("Xray-linux-mips32le.zip");
    reveal_strlit("mihomo-linux-");
    if c == Core::Mihomo && listing_has(rels, ver, a) {
        let (i, j) = choose|i: int, j: int| first_release(rels, ver, i) && first_fitting(rels[i].assets@, a, j);
        let name = rels[i].assets@[j].file_name@;
        let stem = "mihomo-linux-"@ + mihomo_listed_flavour(a);
        let k = choose|k: int| crate::text::occurs_at(stem, name, k);
        assert(stem.len() > 0);
    }
}

/// What an update request resolves to, before anything is fetched: the
/// normalized version and the asset to download.
pub open spec fn resolution(core: Seq<char>, arch: Seq<char>, version: Seq<char>, rels: Seq<GithubRelease>,
    r: Result<Asset, UpdateError>) -> bool
{
    match (core_of(core), arch_of(arch)) {
        (None, _) => r == Err::<Asset, UpdateError>(UpdateError::AssetNotFound),
        (Some(_), None) => r == Err::<Asset, UpdateError>(UpdateError::UnsupportedArchitecture),
        (Some(c), Some(a)) => r matches Ok(asset) && resolves_to(c, a, normalized(version), rels, asset),
    }
}

/// Resolves the asset of an update request. An unknown core has no asset; an
/// architecture outside the table is an explicit error, never a guess.
pub fn resolve_asset(core: &str, arch: &str, version: &str, listing: &Option<Vec<GithubRelease>>)
    -> (r: Result<Asset, UpdateError>)
    ensures
        resolution(core@, arch@, version@, listed(*listing), r),
        r matches Ok(asset) ==> asset.file_name@.len() > 0 && asset.url@.len() > 0,
{
    let c = match Core::from_name(core) {
        Some(c) => c,
        None => { return Err(UpdateError::AssetNotFound); },
    };
    let a = match Arch::from_name(arch) {
        Some(a) => a,
        None => { return Err(UpdateError::UnsupportedArchitecture); },
    };
    let ver = normalize_version(version);
    let asset = asset_for(c, a, ver.as_str(), listing);
    proof { resolved_name_is_never_empty(c, a, ver@, listed(*listing), asset); }
    Ok(asset)
}

} // verus!
