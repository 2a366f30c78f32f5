//! Packages of the language: the manifest with its dependencies, installed
//! packages, and the manager's record of what is installed. Reading and
//! writing files is left to the caller, which hands over what it read.

use crate::assoc::AssocList;
use crate::text::{seq_join, views};
use vstd::prelude::*;

verus! {

/// ملف تعريف الحزمة (marjaa.toml)
#[derive(Debug)]
pub struct PackageManifest {
    /// اسم الحزمة
    pub name: String,
    /// الإصدار (Semantic Versioning)
    pub version: String,
    /// الوصف
    pub description: Option<String>,
    /// المؤلفون
    pub authors: Vec<String>,
    /// الترخيص
    pub license: Option<String>,
    /// نقطة الدخول الرئيسية
    pub main: String,
    /// التبعيات
    pub dependencies: AssocList<String>,
    /// تبعيات التطوير
    pub dev_dependencies: AssocList<String>,
    /// الكلمات المفتاحية
    pub keywords: Vec<String>,
    /// المستودع
    pub repository: Option<String>,
    /// الملفات المضمنة
    pub included: Vec<String>,
    /// الملفات المستبعدة
    pub exclude: Vec<String>,
}

/// The versions the dependencies ask for, by package name.
pub open spec fn dependency_map(deps: AssocList<String>) -> Map<Seq<char>, Seq<char>> {
    deps.map().map_values(|v: String| v@)
}

impl PackageManifest {
    /// إنشاء ملف تعريف جديد: entry point `main.mrj`, nothing else set.
    pub fn new(name: &str, version: &str) -> (r: Self)
        ensures
            r.name@ == name@,
            r.version@ == version@,
            r.main@ == "main.mrj"@,
            r.description is None,
            r.license is None,
            r.repository is None,
            r.authors@.len() == 0,
            r.keywords@.len() == 0,
            r.included@.len() == 0,
            r.exclude@.len() == 0,
            r.dependencies.map() == Map::<Seq<char>, String>::empty(),
            r.dev_dependencies.map() == Map::<Seq<char>, String>::empty(),
    {
        PackageManifest {
            name: name.to_string(),
            version: version.to_string(),
            description: None,
            authors: Vec::new(),
            license: None,
            main: String::from_str("main.mrj"),
            dependencies: AssocList::new(),
            dev_dependencies: AssocList::new(),
            keywords: Vec::new(),
            repository: None,
            included: Vec::new(),
            exclude: Vec::new(),
        }
    }

    /// إضافة تبعية, replacing the version asked for before.
    pub fn add_dependency(&mut self, name: &str, version: &str)
        ensures
            dependency_map(final(self).dependencies) == dependency_map(old(self).dependencies).insert(name@, version@),
            final(self).name == old(self).name,
            final(self).version == old(self).version,
            final(self).main == old(self).main,
    {
        let ghost before = self.dependencies.map();
        let value = version.to_string();
        let ghost vv = value;
        self.dependencies.insert(name.to_string(), value);
        assert(dependency_map(self.dependencies) =~= before.map_values(|v: String| v@).insert(name@, version@)) by {
            assert(self.dependencies.map() == before.insert(name@, vv));
        }
    }

    /// إزالة تبعية
    pub fn remove_dependency(&mut self, name: &str)
        ensures
            dependency_map(final(self).dependencies) == dependency_map(old(self).dependencies).remove(name@),
            final(self).name == old(self).name,
            final(self).version == old(self).version,
            final(self).main == old(self).main,
    {
        let ghost before = self.dependencies.map();
        let _ = self.dependencies.remove(name);
        assert(dependency_map(self.dependencies) =~= before.map_values(|v: String| v@).remove(name@));
    }
}

/// حزمة مثبتة
#[derive(Debug)]
pub struct InstalledPackage {
    /// ملف التعريف
    pub manifest: PackageManifest,
    /// مسار التثبيت
    pub install_path: String,
    /// وقت التثبيت
    pub installed_at: u64,
    /// المصدر
    pub source: PackageSource,
}

/// مصدر الحزمة
#[derive(Debug, Clone)]
pub enum PackageSource {
    /// من السجل الرسمي
    Registry,
    /// من Git
    Git { url: String, commit: String },
    /// من مسار محلي
    Local { path: String },
}

/// خطأ في الحزمة
#[derive(Debug, Clone)]
pub enum PackageError {
    /// خطأ I/O
    IoError(String),
    /// خطأ في التحليل
    ParseError(String),
    /// الحزمة غير موجودة
    PackageNotFound(String),
    /// تعارض الإصدارات
    VersionConflict { package: String, required: String, found: String },
    /// تبعية دائرية
    CircularDependency { package: String, chain: Vec<String> },
    /// خطأ في الشبكة
    NetworkError(String),
    /// فشل التثبيت
    InstallFailed { package: String, reason: String },
}

/// The message of a package error.
pub open spec fn package_error_text(e: PackageError) -> Seq<char> {
    match e {
        PackageError::IoError(msg) => "خطأ I/O: "@ + msg@,
        PackageError::ParseError(msg) => "خطأ في التحليل: "@ + msg@,
        PackageError::PackageNotFound(name) => "الحزمة '"@ + name@ + "' غير موجودة"@,
        PackageError::VersionConflict { package, required, found } => "تعارض إصدارات في '"@ + package@
            + "': مطلوب "@ + required@ + "، موجود "@ + found@,
        PackageError::CircularDependency { package, chain } => "تبعية دائرية: "@ + seq_join(
            views(chain@),
            " -> "@,
        ) + " -> "@ + package@,
        PackageError::NetworkError(msg) => "خطأ في الشبكة: "@ + msg@,
        PackageError::InstallFailed { package, reason } => "فشل تثبيت '"@ + package@ + "': "@ + reason@,
    }
}

impl PackageError {
    /// The error's message.
    pub fn to_display_string(&self) -> (r: String)
        ensures
            r@ == package_error_text(*self),
    {
        let mut out = String::new();
        match self {
            PackageError::IoError(msg) => {
                out.append("خطأ I/O: ");
                out.append(msg.as_str());
            },
            PackageError::ParseError(msg) => {
                out.append("خطأ في التحليل: ");
                out.append(msg.as_str());
            },
            PackageError::PackageNotFound(name) => {
                out.append("الحزمة '");
                out.append(name.as_str());
                out.append("' غير موجودة");
            },
            PackageError::VersionConflict { package, required, found } => {
                out.append("تعارض إصدارات في '");
                out.append(package.as_str());
                out.append("': مطلوب ");
                out.append(required.as_str());
                out.append("، موجود ");
                out.append(found.as_str());
            },
            PackageError::CircularDependency { package, chain } => {
                out.append("تبعية دائرية: ");
                let joined = crate::text::join(chain, " -> ");
                out.append(joined.as_str());
                out.append(" -> ");
                out.append(package.as_str());
            },
            PackageError::NetworkError(msg) => {
                out.append("خطأ في الشبكة: ");
                out.append(msg.as_str());
            },
            PackageError::InstallFailed { package, reason } => {
                out.append("فشل تثبيت '");
                out.append(package.as_str());
                out.append("': ");
                out.append(reason.as_str());
            },
        }
        out
    }
}

/// إحصائيات مدير الحزم
#[derive(Debug, Clone, PartialEq, Eq, Structural)]
pub struct PackageManagerStats {
    pub packages_installed: u64,
    pub packages_updated: u64,
    pub packages_removed: u64,
    pub total_download_bytes: u64,
    pub cache_hits: u64,
}

/// Every counter at zero.
pub open spec fn no_package_stats() -> PackageManagerStats {
    PackageManagerStats {
        packages_installed: 0,
        packages_updated: 0,
        packages_removed: 0,
        total_download_bytes: 0,
        cache_hits: 0,
    }
}

impl Default for PackageManagerStats {
    fn default() -> (r: Self)
        ensures
            r == no_package_stats(),
    {
        PackageManagerStats {
            packages_installed: 0,
            packages_updated: 0,
            packages_removed: 0,
            total_download_bytes: 0,
            cache_hits: 0,
        }
    }
}

/// Whether a text is a single path component made of ASCII letters, digits,
/// `_`, `-` and `.` only, starting with a letter or digit: relative on every
/// platform.
pub open spec fn plain_component(s: Seq<char>) -> bool {
    &&& s.len() > 0
    &&& forall|i: int|
        0 <= i < s.len() ==> {
            let c = #[trigger] s[i];
            ('a' <= c <= 'z') || ('A' <= c <= 'Z') || ('0' <= c <= '9') || c == '_' || (i > 0 && (c == '-'
                || c == '.'))
        }
}

/// `path` is `name` joined below `dir`: for every plain component that
/// `dir` ends with, `path` ends with that component, one separator (`/`
/// or `\\`) and `name`.
pub open spec fn joined_below(path: Seq<char>, dir: Seq<char>, name: Seq<char>) -> bool {
    forall|tail: Seq<char>|
        plain_component(tail) && #[trigger] ends_with(dir, tail) ==> ends_with(path, tail + seq!['/'] + name)
            || ends_with(path, tail + seq!['\\'] + name)
}

/// `Path::join`: the path `base` extended by the relative component `name`,
/// as text. The separator it puts between them depends on the platform, and
/// on some platforms the base is normalised first (references to `.` and
/// `..` removed), so the contract states only that, for a plain component,
/// the result ends with `name`, and that a plain component that `base`
/// ends with stays just before it, with one separator between; of the rest
/// before it, and of other components, nothing is stated.
#[verifier::external_body]
pub(crate) fn path_join(base: &str, name: &str) -> (r: String)
    ensures
        plain_component(name@) ==> ends_with(r@, name@),
        plain_component(name@) ==> joined_below(r@, base@, name@),
{
    std::path::Path::new(base).join(name).to_string_lossy().into_owned()
}

/// A package installed under a manager's packages directory, which ends
/// with `marjaa_modules`, lies in that directory: its install path ends
/// with `marjaa_modules`, one separator and the package's name.
pub proof fn law_installed_in_packages_dir(dir: Seq<char>, name: Seq<char>, path: Seq<char>)
    requires
        ends_with(dir, "marjaa_modules"@),
        joined_below(path, dir, name),
    ensures
        ends_with(path, "marjaa_modules"@ + seq!['/'] + name) || ends_with(path, "marjaa_modules"@ + seq!['\\'] + name),
{
    reveal_strlit("marjaa_modules");
    let t = "marjaa_modules"@;
    assert(plain_component(t)) by {
        assert forall|i: int| 0 <= i < t.len() implies {
            let c = #[trigger] t[i];
            ('a' <= c <= 'z') || ('A' <= c <= 'Z') || ('0' <= c <= '9') || c == '_' || (i > 0 && (c == '-'
                || c == '.'))
        } by {
            assert(0 <= i < 14);
        }
    }
}

/// `dirs::cache_dir`: the user's cache directory, as text, when the
/// platform has one. It depends on the environment, so nothing is stated of
/// it.
#[verifier::external_body]
fn user_cache_dir() -> (r: Option<String>) {
    match dirs::cache_dir() {
        Some(dir) => Some(dir.to_string_lossy().into_owned()),
        None => None,
    }
}

/// The text ends with the component after some prefix.
pub open spec fn ends_with(s: Seq<char>, tail: Seq<char>) -> bool {
    s.len() >= tail.len() && s.subrange(s.len() - tail.len(), s.len() as int) == tail
}

/// مدير الحزم
pub struct PackageManager {
    /// مسار الجذر للمشروع
    project_root: String,
    /// مسار الحزم المثبتة
    packages_dir: String,
    /// مسار الكاش
    cache_dir: String,
    /// الحزم المثبتة
    installed: AssocList<InstalledPackage>,
    /// ملف التعريف الحالي
    manifest: Option<PackageManifest>,
    /// الإحصائيات
    stats: PackageManagerStats,
}

/// معلومات حزمة (للبحث)
#[derive(Debug, Clone)]
pub struct PackageInfo {
    pub name: String,
    pub version: String,
    pub description: String,
}

impl PackageManager {
    /// The project's root directory.
    pub closed spec fn spec_project_root(&self) -> Seq<char> {
        self.project_root@
    }

    /// Where packages are installed.
    pub closed spec fn spec_packages_dir(&self) -> Seq<char> {
        self.packages_dir@
    }

    /// Where downloads are cached.
    pub closed spec fn spec_cache_dir(&self) -> Seq<char> {
        self.cache_dir@
    }

    /// The installed packages by name.
    pub closed spec fn spec_installed(&self) -> Map<Seq<char>, InstalledPackage> {
        self.installed.map()
    }

    /// The names of the installed packages, in order of installation.
    pub closed spec fn spec_installed_names(&self) -> Seq<Seq<char>> {
        self.installed.spec_entries().map_values(|e: (String, InstalledPackage)| e.0@)
    }

    /// The installed packages with their names, in order of installation.
    pub closed spec fn spec_installed_entries(&self) -> Seq<(String, InstalledPackage)> {
        self.installed.spec_entries()
    }

    /// The manifest read or created, if any.
    pub closed spec fn spec_manifest(&self) -> Option<PackageManifest> {
        self.manifest
    }

    /// The statistics.
    pub closed spec fn spec_stats(&self) -> PackageManagerStats {
        self.stats
    }

    /// إنشاء مدير حزم جديد for the project at `project_root`: packages go
    /// under its `marjaa_modules`, downloads under `marjaa/cache` in the
    /// user's cache directory (or the current one). Nothing is installed and
    /// no manifest is read.
    pub fn new(project_root: &str) -> (r: Self)
        ensures
            r.spec_project_root() == project_root@,
            ends_with(r.spec_packages_dir(), "marjaa_modules"@),
            ends_with(r.spec_cache_dir(), "cache"@),
            r.spec_installed() == Map::<Seq<char>, InstalledPackage>::empty(),
            r.spec_installed_names().len() == 0,
            r.spec_manifest() is None,
            r.spec_stats() == no_package_stats(),
    {
        proof {
            reveal_strlit("marjaa_modules");
            reveal_strlit("marjaa");
            reveal_strlit("cache");
        }
        let packages_dir = path_join(project_root, "marjaa_modules");
        let base = match user_cache_dir() {
            Some(dir) => dir,
            None => String::from_str("."),
        };
        let marjaa = path_join(base.as_str(), "marjaa");
        let cache_dir = path_join(marjaa.as_str(), "cache");
        let r = PackageManager {
            project_root: project_root.to_string(),
            packages_dir,
            cache_dir,
            installed: AssocList::new(),
            manifest: None,
            stats: PackageManagerStats::default(),
        };
        assert(r.spec_installed_names() =~= Seq::<Seq<char>>::empty());
        r
    }

    /// Records a new project: its manifest names it, at version 0.1.0.
    pub fn record_init(&mut self, name: &str)
        ensures
            final(self).spec_manifest() matches Some(m) && m.name@ == name@ && m.version@ == "0.1.0"@ && m.main@
                == "main.mrj"@ && m.dependencies.map() == Map::<Seq<char>, String>::empty(),
            final(self).spec_installed() == old(self).spec_installed(),
            final(self).spec_stats() == old(self).spec_stats(),
    {
        self.manifest = Some(PackageManifest::new(name, "0.1.0"));
    }

    /// تحميل ملف التعريف: keeps the manifest read from the project.
    pub fn load_manifest(&mut self, manifest: PackageManifest) -> (r: &PackageManifest)
        ensures
            final(self).spec_manifest() == Some(manifest),
            *r == manifest,
            final(self).spec_installed() == old(self).spec_installed(),
            final(self).spec_stats() == old(self).spec_stats(),
    {
        self.manifest = Some(manifest);
        self.manifest.as_ref().unwrap()
    }

    /// تثبيت تبعية, once its files are in place, at time `installed_at`
    /// and at version `version` (any version, `*`, when none is asked): it
    /// is installed from the registry under the packages directory at
    /// version 1.0.0, the manifest (if any) depends on it at that version,
    /// and the install counts. Gives the version recorded.
    pub fn install(&mut self, name: &str, version: Option<&str>, installed_at: u64) -> (r: String)
        requires
            old(self).spec_stats().packages_installed < u64::MAX,
        ensures
            r@ == match version {
                Some(v) => v@,
                None => "*"@,
            },
            final(self).spec_installed().contains_key(name@),
            final(self).spec_installed()[name@].manifest.name@ == name@,
            final(self).spec_installed()[name@].manifest.version@ == "1.0.0"@,
            final(self).spec_installed()[name@].installed_at == installed_at,
            final(self).spec_installed()[name@].source is Registry,
            plain_component(name@) ==> ends_with(final(self).spec_installed()[name@].install_path@, name@),
            plain_component(name@) ==> joined_below(
                final(self).spec_installed()[name@].install_path@,
                old(self).spec_packages_dir(),
                name@,
            ),
            forall|k: Seq<char>| k != name@ ==> #[trigger] final(self).spec_installed().contains_key(k)
                == old(self).spec_installed().contains_key(k),
            forall|k: Seq<char>| k != name@ && old(self).spec_installed().contains_key(k)
                ==> #[trigger] final(self).spec_installed()[k] == old(self).spec_installed()[k],
            match old(self).spec_manifest() {
                Some(m) => (final(self).spec_manifest() matches Some(m2) && dependency_map(m2.dependencies)
                    == dependency_map(m.dependencies).insert(name@, r@) && m2.name == m.name),
                None => final(self).spec_manifest() is None,
            },
            final(self).spec_stats() == (PackageManagerStats {
                packages_installed: (old(self).spec_stats().packages_installed + 1) as u64,
                ..old(self).spec_stats()
            }),
    {
        let version = match version {
            Some(v) => v.to_string(),
            None => String::from_str("*"),
        };
        let installed = InstalledPackage {
            manifest: PackageManifest::new(name, "1.0.0"),
            install_path: path_join(self.packages_dir.as_str(), name),
            installed_at,
            source: PackageSource::Registry,
        };
        self.installed.insert(name.to_string(), installed);
        match self.manifest.take() {
            Some(mut m) => {
                m.add_dependency(name, version.as_str());
                self.manifest = Some(m);
            },
            None => {},
        }
        self.stats.packages_installed = self.stats.packages_installed + 1;
        version
    }

    /// إزالة حزمة, once its files are gone: the manifest (if any) no longer
    /// depends on it, it is no longer installed, and the removal counts.
    pub fn remove(&mut self, name: &str)
        requires
            old(self).spec_stats().packages_removed < u64::MAX,
        ensures
            final(self).spec_installed() == old(self).spec_installed().remove(name@),
            match old(self).spec_manifest() {
                Some(m) => (final(self).spec_manifest() matches Some(m2) && dependency_map(m2.dependencies)
                    == dependency_map(m.dependencies).remove(name@) && m2.name == m.name),
                None => final(self).spec_manifest() is None,
            },
            final(self).spec_stats() == (PackageManagerStats {
                packages_removed: (old(self).spec_stats().packages_removed + 1) as u64,
                ..old(self).spec_stats()
            }),
    {
        match self.manifest.take() {
            Some(mut m) => {
                m.remove_dependency(name);
                self.manifest = Some(m);
            },
            None => {},
        }
        let _ = self.installed.remove(name);
        self.stats.packages_removed = self.stats.packages_removed + 1;
    }

    /// تحديث حزمة: removed, then installed again at any version, at time
    /// `installed_at`; the update counts.
    pub fn update(&mut self, name: &str, installed_at: u64)
        requires
            old(self).spec_stats().packages_updated < u64::MAX,
            old(self).spec_stats().packages_installed < u64::MAX,
            old(self).spec_stats().packages_removed < u64::MAX,
        ensures
            final(self).spec_installed().contains_key(name@),
            final(self).spec_installed()[name@].installed_at == installed_at,
            final(self).spec_installed()[name@].manifest.version@ == "1.0.0"@,
            forall|k: Seq<char>| k != name@ ==> #[trigger] final(self).spec_installed().contains_key(k)
                == old(self).spec_installed().contains_key(k),
            match old(self).spec_manifest() {
                Some(m) => (final(self).spec_manifest() matches Some(m2) && dependency_map(m2.dependencies)
                    == dependency_map(m.dependencies).insert(name@, "*"@) && m2.name == m.name),
                None => final(self).spec_manifest() is None,
            },
            final(self).spec_stats() == (PackageManagerStats {
                packages_installed: (old(self).spec_stats().packages_installed + 1) as u64,
                packages_removed: (old(self).spec_stats().packages_removed + 1) as u64,
                packages_updated: (old(self).spec_stats().packages_updated + 1) as u64,
                ..old(self).spec_stats()
            }),
    {
        self.remove(name);
        let _ = self.install(name, None, installed_at);
        proof {
            reveal_strlit("*");
            match old(self).spec_manifest() {
                Some(m) => {
                    let m2 = self.spec_manifest().unwrap();
                    assert(dependency_map(m2.dependencies) =~= dependency_map(m.dependencies).insert(name@, "*"@));
                },
                None => {},
            }
        }
        self.stats.packages_updated = self.stats.packages_updated + 1;
    }

    /// The number of dependencies the manifest names; none without one.
    pub open spec fn spec_dependency_count(&self) -> nat {
        match self.spec_manifest() {
            Some(m) => m.dependencies.spec_entries().len(),
            None => 0,
        }
    }

    /// The dependencies the manifest names, with their versions.
    fn dependency_pairs(&self) -> (r: Vec<(String, String)>)
        ensures
            r@.len() == self.spec_dependency_count(),
            self.spec_manifest() matches Some(m) ==> forall|j: int|
                0 <= j < r@.len() ==> dependency_map(m.dependencies).contains_key(#[trigger] r@[j].0@)
                    && dependency_map(m.dependencies)[r@[j].0@] == r@[j].1@,
            self.spec_manifest() matches Some(m) ==> forall|k: Seq<char>|
                #[trigger] dependency_map(m.dependencies).contains_key(k) ==> exists|j: int|
                    0 <= j < r@.len() && r@[j].0@ == k,
    {
        let mut out: Vec<(String, String)> = Vec::new();
        match &self.manifest {
            Some(m) => {
                let entries = m.dependencies.entries();
                let mut i: usize = 0;
                while i < entries.len()
                    invariant
                        i <= entries@.len(),
                        entries@ == m.dependencies.spec_entries(),
                        out@.len() == i,
                        forall|j: int|
                            0 <= j < entries@.len() ==> m.dependencies.map().contains_key(#[trigger] entries@[j].0@)
                                && m.dependencies.map()[entries@[j].0@] == entries@[j].1,
                        forall|j: int|
                            0 <= j < i ==> (#[trigger] out@[j]).0@ == entries@[j].0@ && out@[j].1@ == entries@[j].1@,
                    decreases entries@.len() - i,
                {
                    out.push((entries[i].0.clone(), entries[i].1.clone()));
                    i = i + 1;
                }
                proof {
                    assert forall|k: Seq<char>| #[trigger] dependency_map(m.dependencies).contains_key(k) implies exists|
                        j: int,
                    | 0 <= j < out@.len() && out@[j].0@ == k by {
                        assert(crate::assoc::has_key(m.dependencies.spec_entries(), k));
                        let j = choose|j: int| 0 <= j < entries@.len() && entries@[j].0@ == k;
                        assert(out@[j].0@ == k);
                    }
                }
            },
            None => {},
        }
        out
    }

    /// تثبيت جميع التبعيات of the manifest, at time `installed_at`, each
    /// at the version the manifest asks for.
    pub fn install_all(&mut self, installed_at: u64)
        requires
            old(self).spec_stats().packages_installed + old(self).spec_dependency_count() <= u64::MAX,
        ensures
            match old(self).spec_manifest() {
                Some(m) => {
                    &&& final(self).spec_manifest() matches Some(m2) && dependency_map(m2.dependencies)
                        == dependency_map(m.dependencies) && m2.name == m.name
                    &&& forall|k: Seq<char>| #[trigger] dependency_map(m.dependencies).contains_key(k)
                        ==> final(self).spec_installed().contains_key(k)
                },
                None => final(self).spec_manifest() is None && final(self).spec_installed() == old(
                    self,
                ).spec_installed(),
            },
            final(self).spec_stats() == (PackageManagerStats {
                packages_installed: (old(self).spec_stats().packages_installed
                    + old(self).spec_dependency_count()) as u64,
                ..old(self).spec_stats()
            }),
    {
        if self.manifest.is_none() {
            return;
        }
        let pairs = self.dependency_pairs();
        let ghost m0 = self.spec_manifest();
        let ghost dm0 = match m0 {
            Some(m) => dependency_map(m.dependencies),
            None => Map::empty(),
        };
        let mut i: usize = 0;
        while i < pairs.len()
            invariant
                i <= pairs@.len(),
                pairs@.len() == old(self).spec_dependency_count(),
                m0 == old(self).spec_manifest(),
                m0 is Some,
                dm0 == dependency_map(m0.unwrap().dependencies),
                forall|j: int|
                    0 <= j < pairs@.len() ==> dm0.contains_key(#[trigger] pairs@[j].0@) && dm0[pairs@[j].0@]
                        == pairs@[j].1@,
                self.spec_manifest() matches Some(mm) && dependency_map(mm.dependencies) == dm0 && mm.name
                    == m0.unwrap().name,
                forall|j: int| 0 <= j < i ==> self.spec_installed().contains_key(#[trigger] pairs@[j].0@),
                self.spec_stats() == (PackageManagerStats {
                    packages_installed: (old(self).spec_stats().packages_installed + i) as u64,
                    ..old(self).spec_stats()
                }),
                old(self).spec_stats().packages_installed + old(self).spec_dependency_count() <= u64::MAX,
            decreases pairs@.len() - i,
        {
            let ghost before = self.spec_installed();
            let name = pairs[i].0.as_str();
            let version = pairs[i].1.as_str();
            let _ = self.install(name, Some(version), installed_at);
            proof {
                let mm = self.spec_manifest().unwrap();
                assert(dependency_map(mm.dependencies) =~= dm0);
                assert forall|j: int| 0 <= j < i + 1 implies self.spec_installed().contains_key(
                    #[trigger] pairs@[j].0@,
                ) by {
                    if j < i && pairs@[j].0@ != name@ {
                        assert(before.contains_key(pairs@[j].0@));
                    }
                }
            }
            i = i + 1;
        }
        proof {
            if m0 is Some {
                assert forall|k: Seq<char>| #[trigger] dm0.contains_key(k) implies self.spec_installed().contains_key(k) by {
                    let j = choose|j: int| 0 <= j < pairs@.len() && pairs@[j].0@ == k;
                    assert(self.spec_installed().contains_key(pairs@[j].0@));
                }
            }
        }
    }

    /// تحديث جميع الحزم that the manifest depends on, at time
    /// `installed_at`: each is removed and installed again at any version.
    pub fn update_all(&mut self, installed_at: u64)
        requires
            old(self).spec_stats().packages_installed + old(self).spec_dependency_count() <= u64::MAX,
            old(self).spec_stats().packages_removed + old(self).spec_dependency_count() <= u64::MAX,
            old(self).spec_stats().packages_updated + old(self).spec_dependency_count() <= u64::MAX,
        ensures
            match old(self).spec_manifest() {
                Some(m) => {
                    &&& final(self).spec_manifest() matches Some(m2) && m2.name == m.name && dependency_map(
                        m2.dependencies,
                    ).dom() == dependency_map(m.dependencies).dom() && forall|k: Seq<char>| #[trigger]
                        dependency_map(m.dependencies).contains_key(k) ==> dependency_map(m2.dependencies)[k]
                            == "*"@
                    &&& forall|k: Seq<char>| #[trigger] dependency_map(m.dependencies).contains_key(k)
                        ==> final(self).spec_installed().contains_key(k)
                },
                None => final(self).spec_manifest() is None && final(self).spec_installed() == old(
                    self,
                ).spec_installed(),
            },
            final(self).spec_stats() == (PackageManagerStats {
                packages_installed: (old(self).spec_stats().packages_installed
                    + old(self).spec_dependency_count()) as u64,
                packages_removed: (old(self).spec_stats().packages_removed + old(self).spec_dependency_count()) as u64,
                packages_updated: (old(self).spec_stats().packages_updated + old(self).spec_dependency_count()) as u64,
                ..old(self).spec_stats()
            }),
    {
        if self.manifest.is_none() {
            return;
        }
        let pairs = self.dependency_pairs();
        let ghost m0 = self.spec_manifest();
        let ghost dm0 = dependency_map(m0.unwrap().dependencies);
        let mut i: usize = 0;
        while i < pairs.len()
            invariant
                i <= pairs@.len(),
                pairs@.len() == old(self).spec_dependency_count(),
                m0 == old(self).spec_manifest(),
                m0 is Some,
                dm0 == dependency_map(m0.unwrap().dependencies),
                forall|j: int| 0 <= j < pairs@.len() ==> dm0.contains_key(#[trigger] pairs@[j].0@),
                forall|k: Seq<char>| #[trigger] dm0.contains_key(k) ==> exists|j: int| 0 <= j < pairs@.len() && pairs@[j].0@ == k,
                self.spec_manifest() matches Some(mm) && mm.name == m0.unwrap().name && dependency_map(
                    mm.dependencies,
                ).dom() == dm0.dom() && forall|j: int|
                    0 <= j < i ==> dependency_map(mm.dependencies)[#[trigger] pairs@[j].0@] == "*"@,
                forall|j: int| 0 <= j < i ==> self.spec_installed().contains_key(#[trigger] pairs@[j].0@),
                self.spec_stats() == (PackageManagerStats {
                    packages_installed: (old(self).spec_stats().packages_installed + i) as u64,
                    packages_removed: (old(self).spec_stats().packages_removed + i) as u64,
                    packages_updated: (old(self).spec_stats().packages_updated + i) as u64,
                    ..old(self).spec_stats()
                }),
                old(self).spec_stats().packages_installed + old(self).spec_dependency_count() <= u64::MAX,
                old(self).spec_stats().packages_removed + old(self).spec_dependency_count() <= u64::MAX,
                old(self).spec_stats().packages_updated + old(self).spec_dependency_count() <= u64::MAX,
            decreases pairs@.len() - i,
        {
            let ghost before = self.spec_installed();
            let ghost before_deps = dependency_map(self.spec_manifest().unwrap().dependencies);
            let name = pairs[i].0.as_str();
            self.update(name, installed_at);
            proof {
                let mm = self.spec_manifest().unwrap();
                assert(dependency_map(mm.dependencies) == before_deps.insert(name@, "*"@));
                assert(dependency_map(mm.dependencies).dom() =~= dm0.dom());
                assert forall|j: int| 0 <= j < i + 1 implies dependency_map(mm.dependencies)[#[trigger] pairs@[j].0@]
                    == "*"@ by {
                    if pairs@[j].0@ != name@ {
                        assert(before_deps[pairs@[j].0@] == "*"@);
                    }
                }
                assert forall|j: int| 0 <= j < i + 1 implies self.spec_installed().contains_key(
                    #[trigger] pairs@[j].0@,
                ) by {
                    if j < i && pairs@[j].0@ != name@ {
                        assert(before.contains_key(pairs@[j].0@));
                    }
                }
            }
            i = i + 1;
        }
        proof {
            let mm = self.spec_manifest().unwrap();
            assert forall|k: Seq<char>| #[trigger] dm0.contains_key(k) implies self.spec_installed().contains_key(k)
                && dependency_map(mm.dependencies)[k] == "*"@ by {
                let j = choose|j: int| 0 <= j < pairs@.len() && pairs@[j].0@ == k;
                assert(self.spec_installed().contains_key(pairs@[j].0@));
                assert(dependency_map(mm.dependencies)[pairs@[j].0@] == "*"@);
            }
        }
    }

    /// The project's root directory.
    pub fn project_root(&self) -> (r: &str)
        ensures
            r@ == self.spec_project_root(),
    {
        self.project_root.as_str()
    }

    /// Where packages are installed.
    pub fn packages_dir(&self) -> (r: &str)
        ensures
            r@ == self.spec_packages_dir(),
    {
        self.packages_dir.as_str()
    }

    /// The manifest read or created, if any.
    pub fn manifest(&self) -> (r: Option<&PackageManifest>)
        ensures
            match r {
                Some(m) => self.spec_manifest() == Some(*m),
                None => self.spec_manifest() is None,
            },
    {
        match &self.manifest {
            Some(m) => Some(m),
            None => None,
        }
    }

    /// قائمة الحزم المثبتة, in order of installation.
    pub fn list_installed(&self) -> (r: Vec<String>)
        ensures
            views(r@) == self.spec_installed_names(),
    {
        let r = self.installed.keys();
        assert(views(r@) =~= self.spec_installed_names());
        r
    }

    /// البحث عن حزمة: the registry is not consulted; the answer is one
    /// example package named after the query.
    pub fn search(&self, query: &str) -> (r: Vec<PackageInfo>)
        ensures
            r@.len() == 1,
            r@[0].name@ == query@ + "-example"@,
            r@[0].version@ == "1.0.0"@,
            r@[0].description@ == "حزمة مثال"@,
    {
        let mut name = query.to_string();
        name.append("-example");
        let mut out: Vec<PackageInfo> = Vec::new();
        out.push(
            PackageInfo {
                name,
                version: String::from_str("1.0.0"),
                description: String::from_str("حزمة مثال"),
            },
        );
        out
    }

    /// معلومات حزمة
    pub fn info(&self, name: &str) -> (r: Option<&InstalledPackage>)
        ensures
            match r {
                Some(p) => self.spec_installed().contains_key(name@) && *p == self.spec_installed()[name@],
                None => !self.spec_installed().contains_key(name@),
            },
    {
        self.installed.get(name)
    }

    /// التحقق من التحديثات: each installed package, in order, with its
    /// version and the latest one known, 0.0.0.
    pub fn check_updates(&self) -> (r: Vec<(String, String, String)>)
        ensures
            r@.len() == self.spec_installed_entries().len(),
            forall|i: int|
                0 <= i < r@.len() ==> {
                    let e = #[trigger] self.spec_installed_entries()[i];
                    &&& r@[i].0@ == e.0@
                    &&& r@[i].1@ == e.1.manifest.version@
                    &&& r@[i].2@ == "0.0.0"@
                },
    {
        let entries = self.installed.entries();
        let mut out: Vec<(String, String, String)> = Vec::new();
        let mut i: usize = 0;
        while i < entries.len()
            invariant
                i <= entries@.len(),
                entries@ == self.installed.spec_entries(),
                out@.len() == i,
                forall|j: int|
                    0 <= j < i ==> {
                        let e = #[trigger] entries@[j];
                        &&& out@[j].0@ == e.0@
                        &&& out@[j].1@ == e.1.manifest.version@
                        &&& out@[j].2@ == "0.0.0"@
                    },
            decreases entries@.len() - i,
        {
            let e = &entries[i];
            out.push((e.0.clone(), e.1.manifest.version.clone(), String::from_str("0.0.0")));
            i = i + 1;
        }
        out
    }

    /// الإحصائيات
    pub fn stats(&self) -> (r: &PackageManagerStats)
        ensures
            *r == self.spec_stats(),
    {
        &self.stats
    }
}

impl Default for PackageManager {
    fn default() -> (r: Self)
        ensures
            r.spec_project_root() == "."@,
            r.spec_installed() == Map::<Seq<char>, InstalledPackage>::empty(),
            r.spec_installed_names().len() == 0,
            r.spec_manifest() is None,
            r.spec_stats() == no_package_stats(),
    {
        Self::new(".")
    }
}

/// Installing a package and then removing it leaves the manifest's
/// dependencies as they were, when the manifest did not depend on it before.
pub proof fn law_install_then_remove(deps: Map<Seq<char>, Seq<char>>, name: Seq<char>, version: Seq<char>)
    requires
        !deps.contains_key(name),
    ensures
        deps.insert(name, version).remove(name) == deps,
{
    assert(deps.insert(name, version).remove(name) =~= deps);
}

} // verus!
