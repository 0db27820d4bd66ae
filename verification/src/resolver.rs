//! The package-root resolver.
//!
//! Resolution walks ancestor directories of a file looking for the nearest
//! package manifest (`package.json`) and memoizes the directory that holds
//! one.  The walk itself needs the filesystem, which the library does not
//! touch: `find_root` starts a resolution and answers either from the cache
//! or with a request to probe one directory, and `find_root_step` consumes
//! what the caller found there.  The driver loops: probe the named directory,
//! hand the outcome back, until `Found` or `NotFound` comes out.
//!
//! A manifest that is present but unreadable or malformed fails that
//! resolution attempt; it never aborts the transform and it caches nothing.

use vstd::prelude::*;

use crate::paths::spec_parent_dir;
use crate::str_map::StrMap;

verus! {

/// The owning package of a directory: the package's declared name (possibly
/// empty) and the directory that holds its manifest.
pub struct RootPathInfo {
    pub package_name: String,
    pub root_path: String,
}

/// The mathematical content of a `RootPathInfo`.
pub ghost struct RootInfoView {
    pub package_name: Seq<char>,
    pub root_path: Seq<char>,
}

impl View for RootPathInfo {
    type V = RootInfoView;

    open spec fn view(&self) -> RootInfoView {
        RootInfoView { package_name: self.package_name@, root_path: self.root_path@ }
    }
}

impl RootPathInfo {
    /// Packs a package name and a root path.
    pub fn new(package_name: String, root_path: String) -> (r: Self)
        ensures
            r.package_name == package_name,
            r.root_path == root_path,
    {
        RootPathInfo { package_name, root_path }
    }

    /// A copy with the same content.
    pub fn duplicate(&self) -> (r: Self)
        ensures
            r@ == self@,
    {
        RootPathInfo {
            package_name: self.package_name.clone(),
            root_path: self.root_path.clone(),
        }
    }
}

/// The resolver's memoization cache: directory path to owning package.
/// Append-only per key; the first writer wins, so a directory is never
/// remapped to a different value.
pub struct ParentCache {
    map: StrMap<RootPathInfo>,
}

impl ParentCache {
    /// The mapping held.
    pub closed spec fn view(&self) -> Map<Seq<char>, RootInfoView> {
        self.map@
    }

    /// Well-formedness of the backing vector.
    pub closed spec fn wf(&self) -> bool {
        self.map.wf()
    }

    /// The empty cache.
    pub fn new() -> (r: Self)
        ensures
            r.wf(),
            r@ == Map::<Seq<char>, RootInfoView>::empty(),
    {
        ParentCache { map: StrMap::new() }
    }

    /// The cached entry for directory `p`, if any.
    pub fn get(&self, p: &String) -> (r: Option<RootPathInfo>)
        requires
            self.wf(),
        ensures
            match r {
                Some(info) => self@.contains_key(p@) && info@ == self@[p@],
                None => !self@.contains_key(p@),
            },
    {
        match self.map.get(p) {
            Some(info) => Some(info.duplicate()),
            None => None,
        }
    }

    /// Caches `info` for directory `p` unless `p` is already cached: the
    /// first writer wins, so no directory is ever remapped.  Returns the
    /// entry the cache holds for `p` afterwards.
    pub fn insert(&mut self, p: String, info: RootPathInfo) -> (r: RootPathInfo)
        requires
            old(self).wf(),
        ensures
            final (self).wf(),
            final (self)@ == if old(self)@.contains_key(p@) {
                old(self)@
            } else {
                old(self)@.insert(p@, info@)
            },
            final (self)@.contains_key(p@),
            r@ == final (self)@[p@],
    {
        self.map.insert_if_absent(p.clone(), info);
        match self.map.get(&p) {
            Some(stored) => stored.duplicate(),
            None => vstd::pervasive::unreached(),
        }
    }
}

/// What the name of a package manifest is: the `name` member of the JSON
/// object the text denotes, when the text is a JSON object whose `name`
/// member is a string, and nothing otherwise.
pub uninterp spec fn manifest_name_of(s: Seq<char>) -> Option<Seq<char>>;

/// Relies on serde_json::from_str::<Value> and Value::get: parses manifest
/// text and, when it is a JSON object whose "name" member is a string,
/// yields that string.  The result depends on the text alone.
#[verifier::external_body]
fn parse_manifest_name(text: &str) -> (r: Option<String>)
    ensures
        r is Some <==> manifest_name_of(text@) is Some,
        r matches Some(s) ==> manifest_name_of(text@) == Some(s@),
{
    match serde_json::from_str::<serde_json::Value>(text) {
        Ok(v) => match v.get("name") {
            Some(serde_json::Value::String(s)) => Some(s.clone()),
            _ => None,
        },
        Err(_) => None,
    }
}

/// What the driver found when it probed one directory on disk.
pub enum DirProbe {
    /// The directory does not exist.
    Missing,
    /// The directory exists and holds no manifest file.
    NoManifest,
    /// A manifest file is there but could not be read.
    ManifestUnreadable,
    /// The manifest file's text.
    Manifest(String),
}

/// One resolver answer: a result, or a request to probe one directory.
pub enum Resolution {
    /// Resolved: the owning package.
    Found(RootPathInfo),
    /// No ancestor manifest: the caller supplies the fallback identity.
    NotFound,
    /// Probe this directory on disk and call `find_root_step` with the
    /// outcome.
    NeedProbe(String),
}

/// The mathematical content of a `Resolution`.
pub ghost enum ResolutionView {
    Found(RootInfoView),
    NotFound,
    NeedProbe(Seq<char>),
}

impl View for Resolution {
    type V = ResolutionView;

    open spec fn view(&self) -> ResolutionView {
        match self {
            Resolution::Found(info) => ResolutionView::Found(info@),
            Resolution::NotFound => ResolutionView::NotFound,
            Resolution::NeedProbe(d) => ResolutionView::NeedProbe(d@),
        }
    }
}

/// The resolver's answer on reaching directory `d`: the cached entry, or a
/// request to probe `d`.
pub open spec fn spec_check_dir(cache: Map<Seq<char>, RootInfoView>, d: Seq<char>) -> ResolutionView {
    if cache.contains_key(d) {
        ResolutionView::Found(cache[d])
    } else {
        ResolutionView::NeedProbe(d)
    }
}

/// The answer at the start of a resolution of `file`.
pub open spec fn spec_find_root(cache: Map<Seq<char>, RootInfoView>, file: Seq<char>) -> ResolutionView {
    match spec_parent_dir(file) {
        Some(d) => spec_check_dir(cache, d),
        None => ResolutionView::NotFound,
    }
}

/// The cache after one probe outcome for directory `dir` is consumed: only a
/// readable manifest with a name adds an entry, and an already-cached
/// directory keeps its first value.
pub open spec fn spec_step_cache(
    cache: Map<Seq<char>, RootInfoView>,
    dir: Seq<char>,
    probe: DirProbe,
) -> Map<Seq<char>, RootInfoView> {
    match probe {
        DirProbe::Manifest(t) => match manifest_name_of(t@) {
            Some(name) => if cache.contains_key(dir) {
                cache
            } else {
                cache.insert(dir, RootInfoView { package_name: name, root_path: dir })
            },
            None => cache,
        },
        _ => cache,
    }
}

/// The answer after one probe outcome for directory `dir` is consumed: a
/// missing directory or a failed manifest ends the attempt unresolved, a
/// parsed manifest resolves to `dir`, and a directory without a manifest
/// moves the walk to its parent.
pub open spec fn spec_step_result(
    cache: Map<Seq<char>, RootInfoView>,
    dir: Seq<char>,
    probe: DirProbe,
) -> ResolutionView {
    match probe {
        DirProbe::Missing => ResolutionView::NotFound,
        DirProbe::ManifestUnreadable => ResolutionView::NotFound,
        DirProbe::Manifest(t) => match manifest_name_of(t@) {
            Some(_) => ResolutionView::Found(spec_step_cache(cache, dir, probe)[dir]),
            None => ResolutionView::NotFound,
        },
        DirProbe::NoManifest => match spec_parent_dir(dir) {
            Some(d2) => spec_check_dir(cache, d2),
            None => ResolutionView::NotFound,
        },
    }
}

fn check_dir(cache: &ParentCache, d: String) -> (r: Resolution)
    requires
        cache.wf(),
    ensures
        r@ == spec_check_dir(cache@, d@),
{
    match cache.get(&d) {
        Some(info) => Resolution::Found(info),
        None => Resolution::NeedProbe(d),
    }
}

/// Starts resolving the package root that owns `file_path`: the answer comes
/// from the cache when the file's parent directory is cached, and is a probe
/// request otherwise.  A path without a parent directory is unresolvable.
pub fn find_root(cache: &ParentCache, file_path: &String) -> (r: Resolution)
    requires
        cache.wf(),
    ensures
        r@ == spec_find_root(cache@, file_path@),
{
    match crate::paths::parent_dir(file_path) {
        Some(d) => check_dir(cache, d),
        None => Resolution::NotFound,
    }
}

/// Consumes the outcome of probing `dir` and continues the resolution as
/// `spec_step_result` and `spec_step_cache` state: a readable manifest whose
/// name parses is cached (first writer wins) and resolves the walk; a
/// missing directory, or a manifest that is unreadable or without a name,
/// ends the attempt unresolved; a directory without a manifest moves the
/// walk to its parent, answered from the cache when that parent is cached.
pub fn find_root_step(cache: &mut ParentCache, dir: String, probe: DirProbe) -> (r: Resolution)
    requires
        old(cache).wf(),
    ensures
        final (cache).wf(),
        final (cache)@ == spec_step_cache(old(cache)@, dir@, probe),
        r@ == spec_step_result(old(cache)@, dir@, probe),
{
    match probe {
        DirProbe::Missing => Resolution::NotFound,
        DirProbe::ManifestUnreadable => Resolution::NotFound,
        DirProbe::Manifest(text) => {
            match parse_manifest_name(text.as_str()) {
                Some(name) => {
                    let info = RootPathInfo::new(name, dir.clone());
                    let stored = cache.insert(dir, info);
                    Resolution::Found(stored)
                },
                None => Resolution::NotFound,
            }
        },
        DirProbe::NoManifest => {
            match crate::paths::parent_dir(&dir) {
                Some(d2) => check_dir(cache, d2),
                None => Resolution::NotFound,
            }
        },
    }
}

/// A directory resolved once is answered from the cache alone: when the
/// file's parent directory is cached, the resolver returns the cached value
/// and requests no probe, so no manifest is read for it again.
pub proof fn lemma_resolve_memoized(cache: Map<Seq<char>, RootInfoView>, file: Seq<char>)
    requires
        spec_parent_dir(file) is Some,
        cache.contains_key(spec_parent_dir(file)->0),
    ensures
        spec_find_root(cache, file) == ResolutionView::Found(cache[spec_parent_dir(file)->0]),
{
}

/// A resolution that parsed a manifest in `dir` leaves `dir` cached with the
/// value it returned: resolving the same file again is answered from the
/// cache, with the identical result and no further probe.
pub proof fn lemma_resolve_twice(
    cache: Map<Seq<char>, RootInfoView>,
    file: Seq<char>,
    dir: Seq<char>,
    text: String,
)
    requires
        spec_find_root(cache, file) == ResolutionView::NeedProbe(dir),
        spec_step_result(cache, dir, DirProbe::Manifest(text)) is Found,
    ensures
        spec_find_root(spec_step_cache(cache, dir, DirProbe::Manifest(text)), file)
            == spec_step_result(cache, dir, DirProbe::Manifest(text)),
{
}

} // verus!
