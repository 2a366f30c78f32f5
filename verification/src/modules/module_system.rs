//! Modules of the language: identifiers, imports and exports, loaded modules,
//! and the manager that caches loaded modules and catches circular loading.
//! Values are the type parameter `V`, compiled code the type parameter `C`.

use crate::assoc::AssocList;
use crate::text::{decimal, has_substring, join, seq_join, str_eq, usize_text, views};
use vstd::prelude::*;

verus! {

/// معرف فريد لوحدة
#[derive(Debug, Clone, Hash, PartialEq, Eq)]
pub struct ModuleId {
    /// اسم الوحدة
    pub name: String,
    /// الإصدار
    pub version: String,
    /// المسار
    pub path: String,
}

/// `Path::file_stem`: the file name of the path without its extension, when
/// the path has a file name that is valid text. The stem is a part of the
/// path's last component, so it is a stretch of the path's text; which
/// characters separate components depends on the platform, so nothing more
/// is stated of it, nor of when there is one.
#[verifier::external_body]
fn path_file_stem(path: &str) -> (r: Option<String>)
    ensures
        r matches Some(s) ==> has_substring(path@, s@),
{
    match std::path::Path::new(path).file_stem() {
        Some(stem) => match stem.to_str() {
            Some(text) => Some(text.to_string()),
            None => None,
        },
        None => None,
    }
}

impl ModuleId {
    pub fn new(name: &str, version: &str, path: &str) -> (r: Self)
        ensures
            r.name@ == name@,
            r.version@ == version@,
            r.path@ == path@,
    {
        ModuleId { name: name.to_string(), version: version.to_string(), path: path.to_string() }
    }

    /// معرف من مسار ملف: named after the file's stem, a stretch of the
    /// path's text (`unknown` when the path has none); version 0.0.0.
    pub fn from_path(path: &str) -> (r: Self)
        ensures
            has_substring(path@, r.name@) || r.name@ == "unknown"@,
            r.version@ == "0.0.0"@,
            r.path@ == path@,
    {
        let stem = path_file_stem(path);
        Self::from_stem(stem, path)
    }

    /// The identifier of the file at `path` whose stem is `stem`: named after
    /// the stem, or `unknown` without one; version 0.0.0.
    pub fn from_stem(stem: Option<String>, path: &str) -> (r: Self)
        ensures
            r.name@ == match stem {
                Some(s) => s@,
                None => "unknown"@,
            },
            r.version@ == "0.0.0"@,
            r.path@ == path@,
    {
        let name = match stem {
            Some(s) => s,
            None => String::from_str("unknown"),
        };
        ModuleId { name, version: String::from_str("0.0.0"), path: path.to_string() }
    }
}

/// نوع الاستيراد
#[derive(Debug, Clone)]
pub enum ImportKind {
    /// استيراد كل شيء (import *)
    All {
        /// الوحدة المستوردة منها
        module: ModuleId,
        /// الاسم المستعار (اختياري)
        alias: Option<String>,
    },
    /// استيراد عناصر محددة
    Named {
        /// العناصر المستوردة (اسم_أصلي -> اسم_محلي)
        items: Vec<(String, String)>,
        /// الوحدة المستوردة منها
        module: ModuleId,
    },
    /// استيراد افتراضي
    Default {
        /// الاسم المحلي
        local_name: String,
        /// الوحدة المستوردة منها
        module: ModuleId,
    },
    /// استيراد الوحدة كاملة ككائن
    Module {
        /// الاسم المحلي
        local_name: String,
        /// الوحدة المستوردة
        module: ModuleId,
    },
}

/// بيان استيراد
#[derive(Debug, Clone)]
pub struct ImportStatement {
    /// نوع الاستيراد
    pub kind: ImportKind,
    /// موقع في الكود
    pub location: SourceLocation,
}

/// موقع في الكود المصدري
#[derive(Debug, Clone)]
pub struct SourceLocation {
    pub file: String,
    pub line: usize,
    pub column: usize,
}

impl Default for SourceLocation {
    fn default() -> (r: Self)
        ensures
            r.file@ == Seq::<char>::empty(),
            r.line == 0,
            r.column == 0,
    {
        SourceLocation { file: String::new(), line: 0, column: 0 }
    }
}

/// نوع التصدير
#[derive(Debug, Clone)]
pub enum ExportKind<V, C> {
    /// تصدير قيمة
    Value { name: String, value: V },
    /// تصدير دالة
    Function { name: String, chunk: C, params: Vec<String> },
    /// تصدير ثابت
    Constant { name: String, value: V },
    /// تصدير نوع (للاستخدام المستقبلي)
    Type { name: String, type_def: TypeDefinition },
    /// إعادة تصدير من وحدة أخرى
    Reexport { name: String, source_module: ModuleId, source_name: String },
}

/// تعريف نوع
#[derive(Debug, Clone)]
pub struct TypeDefinition {
    pub name: String,
    /// (name, type)
    pub fields: Vec<(String, String)>,
}

/// بيان تصدير
#[derive(Debug, Clone)]
pub struct ExportStatement<V, C> {
    /// نوع التصدير
    pub kind: ExportKind<V, C>,
    /// هل هو التصدير الافتراضي
    pub is_default: bool,
    /// الموقع في الكود
    pub location: SourceLocation,
}

/// إحصائيات الوحدة
#[derive(Debug, Clone, PartialEq, Eq, Structural)]
pub struct ModuleStats {
    pub load_time_ms: u64,
    pub compile_time_ms: u64,
    pub size_bytes: usize,
    pub export_count: usize,
    pub import_count: usize,
}

impl Default for ModuleStats {
    fn default() -> (r: Self)
        ensures
            r == (ModuleStats { load_time_ms: 0, compile_time_ms: 0, size_bytes: 0, export_count: 0, import_count: 0 }),
    {
        ModuleStats { load_time_ms: 0, compile_time_ms: 0, size_bytes: 0, export_count: 0, import_count: 0 }
    }
}

/// وحدة محمّلة
#[derive(Debug)]
pub struct Module<V, C> {
    /// معرف الوحدة
    pub id: ModuleId,
    /// الصادرات
    pub exports: AssocList<ExportKind<V, C>>,
    /// التصدير الافتراضي
    pub default_export: Option<String>,
    /// الواردات
    pub imports: Vec<ImportStatement>,
    /// التبعيات
    pub dependencies: Vec<ModuleId>,
    /// مسار الملف المصدري
    pub source_path: String,
    /// الكود المترجم
    pub compiled_chunk: Option<C>,
    /// هل تم تحميلها
    pub loaded: bool,
    /// إحصائيات الوحدة
    pub stats: ModuleStats,
}

impl<V, C> Module<V, C> {
    /// إنشاء وحدة جديدة: no exports, imports or dependencies, not loaded.
    pub fn new(id: ModuleId) -> (r: Self)
        ensures
            r.id == id,
            r.exports.map() == Map::<Seq<char>, ExportKind<V, C>>::empty(),
            r.default_export is None,
            r.imports@.len() == 0,
            r.dependencies@.len() == 0,
            r.source_path@ == Seq::<char>::empty(),
            r.compiled_chunk is None,
            !r.loaded,
            r.stats == (ModuleStats { load_time_ms: 0, compile_time_ms: 0, size_bytes: 0, export_count: 0, import_count: 0 }),
    {
        Module {
            id,
            exports: AssocList::new(),
            default_export: None,
            imports: Vec::new(),
            dependencies: Vec::new(),
            source_path: String::new(),
            compiled_chunk: None,
            loaded: false,
            stats: ModuleStats::default(),
        }
    }

    /// إضافة تصدير: the name now exports `kind`, and becomes the default
    /// export when asked.
    pub fn add_export(&mut self, name: &str, kind: ExportKind<V, C>, is_default: bool)
        ensures
            final(self).exports.map() == old(self).exports.map().insert(name@, kind),
            is_default ==> (final(self).default_export matches Some(d) && d@ == name@),
            !is_default ==> final(self).default_export == old(self).default_export,
            final(self).id == old(self).id,
            final(self).imports == old(self).imports,
            final(self).dependencies == old(self).dependencies,
            final(self).loaded == old(self).loaded,
            final(self).stats == old(self).stats,
    {
        if is_default {
            self.default_export = Some(name.to_string());
        }
        self.exports.insert(name.to_string(), kind);
    }

    /// الحصول على تصدير
    pub fn get_export(&self, name: &str) -> (r: Option<&ExportKind<V, C>>)
        ensures
            match r {
                Some(k) => self.exports.map().contains_key(name@) && *k == self.exports.map()[name@],
                None => !self.exports.map().contains_key(name@),
            },
    {
        self.exports.get(name)
    }

    /// الحصول على التصدير الافتراضي: what the default export's name
    /// exports, if there is one.
    pub fn get_default_export(&self) -> (r: Option<&ExportKind<V, C>>)
        ensures
            match self.default_export {
                Some(n) => match r {
                    Some(k) => self.exports.map().contains_key(n@) && *k == self.exports.map()[n@],
                    None => !self.exports.map().contains_key(n@),
                },
                None => r is None,
            },
    {
        match &self.default_export {
            Some(n) => self.exports.get(n.as_str()),
            None => None,
        }
    }

    /// قائمة أسماء الصادرات, each once, in the order they were first added.
    pub fn export_names(&self) -> (r: Vec<String>)
        ensures
            r@.len() == self.exports.spec_entries().len(),
            forall|i: int| 0 <= i < r@.len() ==> #[trigger] r@[i]@ == self.exports.spec_entries()[i].0@,
    {
        self.exports.keys()
    }
}

/// خطأ في الوحدة
#[derive(Debug, Clone)]
pub enum ModuleError {
    /// الوحدة غير موجودة
    NotFound(String),
    /// تبعية دائرية
    CircularDependency { module: String, chain: Vec<String> },
    /// خطأ في التحليل
    ParseError { file: String, message: String, line: usize },
    /// خطأ في الترجمة
    CompileError { module: String, message: String },
    /// تصدير غير موجود
    ExportNotFound { module: String, export: String },
    /// خطأ I/O
    IoError(String),
}

/// The message of a module error.
pub open spec fn module_error_text(e: ModuleError) -> Seq<char> {
    match e {
        ModuleError::NotFound(name) => "الوحدة '"@ + name@ + "' غير موجودة"@,
        ModuleError::CircularDependency { module, chain } => "تبعية دائرية: "@ + seq_join(views(chain@), " -> "@)
            + " -> "@ + module@,
        ModuleError::ParseError { file, message, line } => "خطأ في تحليل '"@ + file@ + "' السطر "@ + decimal(
            line as nat,
        ) + ": "@ + message@,
        ModuleError::CompileError { module, message } => "خطأ في ترجمة '"@ + module@ + "': "@ + message@,
        ModuleError::ExportNotFound { module, export } => "التصدير '"@ + export@ + "' غير موجود في '"@ + module@
            + "'"@,
        ModuleError::IoError(msg) => "خطأ I/O: "@ + msg@,
    }
}

/// A copy of a list of texts.
fn copy_texts(list: &Vec<String>) -> (r: Vec<String>)
    ensures
        views(r@) == views(list@),
{
    let mut out: Vec<String> = Vec::new();
    let mut i: usize = 0;
    while i < list.len()
        invariant
            i <= list@.len(),
            views(out@) == views(list@.take(i as int)),
        decreases list@.len() - i,
    {
        out.push(list[i].clone());
        assert(views(list@.take(i + 1)) =~= views(list@.take(i as int)).push(list@[i as int]@));
        assert(views(out@) =~= views(list@.take(i + 1)));
        i = i + 1;
    }
    assert(list@.take(list@.len() as int) =~= list@);
    out
}

impl ModuleError {
    /// The error's message.
    pub fn to_display_string(&self) -> (r: String)
        ensures
            r@ == module_error_text(*self),
    {
        let mut out = String::new();
        match self {
            ModuleError::NotFound(name) => {
                out.append("الوحدة '");
                out.append(name.as_str());
                out.append("' غير موجودة");
            },
            ModuleError::CircularDependency { module, chain } => {
                out.append("تبعية دائرية: ");
                let joined = join(chain, " -> ");
                out.append(joined.as_str());
                out.append(" -> ");
                out.append(module.as_str());
            },
            ModuleError::ParseError { file, message, line } => {
                out.append("خطأ في تحليل '");
                out.append(file.as_str());
                out.append("' السطر ");
                let n = usize_text(*line);
                out.append(n.as_str());
                out.append(": ");
                out.append(message.as_str());
            },
            ModuleError::CompileError { module, message } => {
                out.append("خطأ في ترجمة '");
                out.append(module.as_str());
                out.append("': ");
                out.append(message.as_str());
            },
            ModuleError::ExportNotFound { module, export } => {
                out.append("التصدير '");
                out.append(export.as_str());
                out.append("' غير موجود في '");
                out.append(module.as_str());
                out.append("'");
            },
            ModuleError::IoError(msg) => {
                out.append("خطأ I/O: ");
                out.append(msg.as_str());
            },
        }
        out
    }
}

/// نتيجة تحميل وحدة
#[derive(Debug)]
pub struct LoadResult<V, C> {
    pub module: Module<V, C>,
    pub warnings: Vec<String>,
}

/// إحصائيات مدير الوحدات
#[derive(Debug, Clone, PartialEq, Eq, Structural)]
pub struct ModuleManagerStats {
    pub modules_loaded: u64,
    pub total_load_time_ms: u64,
    pub cache_hits: u64,
    pub cache_misses: u64,
    pub circular_dependencies_caught: u64,
}

/// Every counter at zero.
pub open spec fn no_manager_stats() -> ModuleManagerStats {
    ModuleManagerStats {
        modules_loaded: 0,
        total_load_time_ms: 0,
        cache_hits: 0,
        cache_misses: 0,
        circular_dependencies_caught: 0,
    }
}

impl Default for ModuleManagerStats {
    fn default() -> (r: Self)
        ensures
            r == no_manager_stats(),
    {
        ModuleManagerStats {
            modules_loaded: 0,
            total_load_time_ms: 0,
            cache_hits: 0,
            cache_misses: 0,
            circular_dependencies_caught: 0,
        }
    }
}

/// كاش الوحدات
#[derive(Debug)]
struct ModuleCache<C> {
    path_to_id: AssocList<String>,
    compiled: AssocList<C>,
}

/// How loading a module begins.
#[derive(Debug)]
pub enum LoadStart {
    /// The module is loaded already.
    Cached,
    /// Loading it again while it loads would go round in a circle.
    Circular(ModuleError),
    /// Its file is to be found, read, parsed and compiled, then handed to
    /// `finish_load`.
    Proceed,
}

/// مدير الوحدات
pub struct ModuleManager<V, C> {
    /// الوحدات المحمّلة
    modules: AssocList<Module<V, C>>,
    /// مسارات البحث عن الوحدات
    search_paths: Vec<String>,
    /// كاش الوحدات
    cache: ModuleCache<C>,
    /// سلسلة التحليل (لكشف التبعيات الدائرية)
    resolution_stack: Vec<String>,
    /// الإحصائيات
    stats: ModuleManagerStats,
}

/// The file names a module may have, in the order they are tried: the name
/// with `.mrj`, the name with its dots as slashes and `.mrj`, and `mod.mrj`.
pub open spec fn module_candidates(name: Seq<char>) -> Seq<Seq<char>> {
    seq![name + ".mrj"@, dots_as_slashes(name) + ".mrj"@, "mod.mrj"@]
}

/// The text with each `.` replaced by `/`.
pub open spec fn dots_as_slashes(s: Seq<char>) -> Seq<char> {
    s.map_values(|c: char| if c == '.' { '/' } else { c })
}

fn replace_dots(s: &str) -> (r: String)
    ensures
        r@ == dots_as_slashes(s@),
{
    let mut out = String::new();
    let n = s.unicode_len();
    let mut i: usize = 0;
    while i < n
        invariant
            i <= n,
            n == s@.len(),
            out@ == dots_as_slashes(s@.take(i as int)),
        decreases n - i,
    {
        let c = s.get_char(i);
        let d = if c == '.' { '/' } else { c };
        let piece = crate::text::char_text(d);
        out.append(piece.as_str());
        assert(dots_as_slashes(s@.take(i + 1)) =~= dots_as_slashes(s@.take(i as int)).push(d));
        i = i + 1;
    }
    assert(s@.take(n as int) =~= s@);
    out
}

impl<V, C> ModuleManager<V, C> {
    /// The loaded modules by name.
    pub closed spec fn spec_modules(&self) -> Map<Seq<char>, Module<V, C>> {
        self.modules.map()
    }

    /// The names of the loaded modules, in load order.
    pub closed spec fn spec_module_names(&self) -> Seq<Seq<char>> {
        self.modules.spec_entries().map_values(|e: (String, Module<V, C>)| e.0@)
    }

    /// The directories searched, in order.
    pub closed spec fn spec_search_paths(&self) -> Seq<Seq<char>> {
        views(self.search_paths@)
    }

    /// The modules being loaded, outermost first.
    pub closed spec fn spec_resolution_stack(&self) -> Seq<Seq<char>> {
        views(self.resolution_stack@)
    }

    /// The statistics.
    pub closed spec fn spec_stats(&self) -> ModuleManagerStats {
        self.stats
    }

    /// Whether the caches are empty.
    pub closed spec fn spec_cache_empty(&self) -> bool {
        self.cache.path_to_id.map() == Map::<Seq<char>, String>::empty() && self.cache.compiled.map() == Map::<
            Seq<char>,
            C,
        >::empty()
    }

    /// إنشاء مدير وحدات جديد: no module, searching `.`, `modules` and
    /// `lib`.
    pub fn new() -> (r: Self)
        ensures
            r.spec_modules() == Map::<Seq<char>, Module<V, C>>::empty(),
            r.spec_module_names().len() == 0,
            r.spec_search_paths() == seq!["."@, "modules"@, "lib"@],
            r.spec_resolution_stack().len() == 0,
            r.spec_stats() == no_manager_stats(),
            r.spec_cache_empty(),
    {
        let mut search_paths: Vec<String> = Vec::new();
        search_paths.push(String::from_str("."));
        search_paths.push(String::from_str("modules"));
        search_paths.push(String::from_str("lib"));
        let r = ModuleManager {
            modules: AssocList::new(),
            search_paths,
            cache: ModuleCache { path_to_id: AssocList::new(), compiled: AssocList::new() },
            resolution_stack: Vec::new(),
            stats: ModuleManagerStats::default(),
        };
        assert(r.spec_search_paths() =~= seq!["."@, "modules"@, "lib"@]);
        assert(r.spec_resolution_stack() =~= Seq::<Seq<char>>::empty());
        assert(r.spec_module_names() =~= Seq::<Seq<char>>::empty());
        r
    }

    /// إضافة مسار بحث, searched after the others.
    pub fn add_search_path(&mut self, path: &str)
        ensures
            final(self).spec_search_paths() == old(self).spec_search_paths().push(path@),
            final(self).spec_modules() == old(self).spec_modules(),
            final(self).spec_resolution_stack() == old(self).spec_resolution_stack(),
            final(self).spec_stats() == old(self).spec_stats(),
    {
        self.search_paths.push(path.to_string());
        assert(self.spec_search_paths() =~= old(self).spec_search_paths().push(path@));
    }

    /// The directory and file name pairs to try for a module, directory by
    /// directory, each with every candidate file name in order.
    pub fn resolution_order(&self, name: &str) -> (r: Vec<(String, String)>)
        ensures
            r@.len() == self.spec_search_paths().len() * 3,
            forall|i: int, j: int|
                0 <= i < self.spec_search_paths().len() && 0 <= j < 3 ==> (#[trigger] r@[i * 3 + j]).0@
                    == self.spec_search_paths()[i] && r@[i * 3 + j].1@ == module_candidates(name@)[j],
    {
        let mut plain = name.to_string();
        plain.append(".mrj");
        let mut nested = replace_dots(name);
        nested.append(".mrj");
        let own = String::from_str("mod.mrj");
        let ghost cands = module_candidates(name@);
        let mut out: Vec<(String, String)> = Vec::new();
        let mut i: usize = 0;
        while i < self.search_paths.len()
            invariant
                i <= self.search_paths@.len(),
                out@.len() == i * 3,
                plain@ == cands[0],
                nested@ == cands[1],
                own@ == cands[2],
                cands == module_candidates(name@),
                forall|a: int, j: int|
                    0 <= a < i && 0 <= j < 3 ==> (#[trigger] out@[a * 3 + j]).0@ == self.search_paths@[a]@
                        && out@[a * 3 + j].1@ == cands[j],
            decreases self.search_paths@.len() - i,
        {
            let dir = &self.search_paths[i];
            out.push((dir.clone(), plain.clone()));
            out.push((dir.clone(), nested.clone()));
            out.push((dir.clone(), own.clone()));
            assert forall|a: int, j: int| 0 <= a < i + 1 && 0 <= j < 3 implies (#[trigger] out@[a * 3 + j]).0@
                == self.search_paths@[a]@ && out@[a * 3 + j].1@ == cands[j] by {
                if a == i {
                    assert(a * 3 + j == i * 3 + j);
                } else {
                    assert(a * 3 + j < i * 3) by (nonlinear_arith)
                        requires
                            a < i,
                            0 <= j < 3,
                    ;
                }
            }
            i = i + 1;
        }
        out
    }

    /// Whether the module is being loaded.
    fn is_loading(&self, name: &str) -> (r: bool)
        ensures
            r == self.spec_resolution_stack().contains(name@),
    {
        let mut k: usize = 0;
        while k < self.resolution_stack.len()
            invariant
                k <= self.resolution_stack@.len(),
                forall|j: int| 0 <= j < k ==> self.resolution_stack@[j]@ != name@,
            decreases self.resolution_stack@.len() - k,
        {
            if str_eq(self.resolution_stack[k].as_str(), name) {
                assert(views(self.resolution_stack@)[k as int] == name@);
                return true;
            }
            k = k + 1;
        }
        assert(!views(self.resolution_stack@).contains(name@)) by {
            if views(self.resolution_stack@).contains(name@) {
                let j = choose|j: int|
                    0 <= j < views(self.resolution_stack@).len() && views(self.resolution_stack@)[j] == name@;
                assert(self.resolution_stack@[j]@ == name@);
            }
        }
        false
    }

    /// How loading a module begins: a loaded module is a cache hit; one that
    /// is being loaded is a circular dependency; otherwise a cache miss, and
    /// the module joins the modules being loaded.
    pub fn begin_load(&mut self, name: &str) -> (r: LoadStart)
        requires
            old(self).spec_stats().cache_hits < u64::MAX,
            old(self).spec_stats().cache_misses < u64::MAX,
            old(self).spec_stats().circular_dependencies_caught < u64::MAX,
        ensures
            final(self).spec_modules() == old(self).spec_modules(),
            old(self).spec_modules().contains_key(name@) ==> {
                &&& r is Cached
                &&& final(self).spec_stats() == (ModuleManagerStats {
                    cache_hits: (old(self).spec_stats().cache_hits + 1) as u64,
                    ..old(self).spec_stats()
                })
                &&& final(self).spec_resolution_stack() == old(self).spec_resolution_stack()
            },
            !old(self).spec_modules().contains_key(name@) && old(self).spec_resolution_stack().contains(name@)
                ==> {
                &&& r matches LoadStart::Circular(ModuleError::CircularDependency { module, chain }) && module@
                    == name@ && views(chain@) == old(self).spec_resolution_stack()
                &&& final(self).spec_stats() == (ModuleManagerStats {
                    circular_dependencies_caught: (old(self).spec_stats().circular_dependencies_caught + 1) as u64,
                    ..old(self).spec_stats()
                })
                &&& final(self).spec_resolution_stack() == old(self).spec_resolution_stack()
            },
            !old(self).spec_modules().contains_key(name@) && !old(self).spec_resolution_stack().contains(name@)
                ==> {
                &&& r is Proceed
                &&& final(self).spec_stats() == (ModuleManagerStats {
                    cache_misses: (old(self).spec_stats().cache_misses + 1) as u64,
                    ..old(self).spec_stats()
                })
                &&& final(self).spec_resolution_stack() == old(self).spec_resolution_stack().push(name@)
            },
    {
        if self.modules.contains_key(name) {
            self.stats.cache_hits = self.stats.cache_hits + 1;
            return LoadStart::Cached;
        }
        if self.is_loading(name) {
            self.stats.circular_dependencies_caught = self.stats.circular_dependencies_caught + 1;
            return LoadStart::Circular(
                ModuleError::CircularDependency { module: name.to_string(), chain: copy_texts(&self.resolution_stack) },
            );
        }
        self.stats.cache_misses = self.stats.cache_misses + 1;
        self.resolution_stack.push(name.to_string());
        assert(self.spec_resolution_stack() =~= old(self).spec_resolution_stack().push(name@));
        LoadStart::Proceed
    }

    /// Finishes loading a module: it leaves the modules being loaded and is
    /// kept under its name; the load counts, with the time it took.
    pub fn finish_load(&mut self, name: &str, module: Module<V, C>, elapsed_ms: u64)
        requires
            old(self).spec_stats().modules_loaded < u64::MAX,
            old(self).spec_stats().total_load_time_ms + elapsed_ms <= u64::MAX,
        ensures
            final(self).spec_modules() == old(self).spec_modules().insert(name@, module),
            final(self).spec_resolution_stack() == if old(self).spec_resolution_stack().len() > 0 {
                old(self).spec_resolution_stack().drop_last()
            } else {
                old(self).spec_resolution_stack()
            },
            final(self).spec_stats() == (ModuleManagerStats {
                modules_loaded: (old(self).spec_stats().modules_loaded + 1) as u64,
                total_load_time_ms: (old(self).spec_stats().total_load_time_ms + elapsed_ms) as u64,
                ..old(self).spec_stats()
            }),
    {
        let _ = self.resolution_stack.pop();
        assert(self.spec_resolution_stack() =~= if old(self).spec_resolution_stack().len() > 0 {
            old(self).spec_resolution_stack().drop_last()
        } else {
            old(self).spec_resolution_stack()
        });
        self.modules.insert(name.to_string(), module);
        self.stats.modules_loaded = self.stats.modules_loaded + 1;
        self.stats.total_load_time_ms = self.stats.total_load_time_ms + elapsed_ms;
    }

    /// الحصول على وحدة
    pub fn get_module(&self, name: &str) -> (r: Option<&Module<V, C>>)
        ensures
            match r {
                Some(m) => self.spec_modules().contains_key(name@) && *m == self.spec_modules()[name@],
                None => !self.spec_modules().contains_key(name@),
            },
    {
        self.modules.get(name)
    }

    /// تفريغ كاش الوحدات; the loaded modules stay.
    pub fn clear_cache(&mut self)
        ensures
            final(self).spec_cache_empty(),
            final(self).spec_modules() == old(self).spec_modules(),
            final(self).spec_search_paths() == old(self).spec_search_paths(),
            final(self).spec_resolution_stack() == old(self).spec_resolution_stack(),
            final(self).spec_stats() == old(self).spec_stats(),
    {
        self.cache.path_to_id.clear();
        self.cache.compiled.clear();
    }

    /// قائمة الوحدات المحمّلة, in load order.
    pub fn loaded_modules(&self) -> (r: Vec<String>)
        ensures
            views(r@) == self.spec_module_names(),
    {
        let r = self.modules.keys();
        assert(views(r@) =~= self.spec_module_names());
        r
    }

    /// الإحصائيات
    pub fn stats(&self) -> (r: &ModuleManagerStats)
        ensures
            *r == self.spec_stats(),
    {
        &self.stats
    }
}

impl<V, C> Default for ModuleManager<V, C> {
    fn default() -> (r: Self)
        ensures
            r.spec_modules() == Map::<Seq<char>, Module<V, C>>::empty(),
            r.spec_resolution_stack().len() == 0,
            r.spec_stats() == no_manager_stats(),
    {
        Self::new()
    }
}

/// A load that begins and then finishes leaves the modules being loaded as
/// they were before it began, and the module loaded, so that asking for it
/// again is a cache hit.
pub proof fn law_load_round_trip<V, C>(
    loading: Seq<Seq<char>>,
    loaded: Map<Seq<char>, Module<V, C>>,
    name: Seq<char>,
    module: Module<V, C>,
)
    ensures
        ({
            let during = loading.push(name);
            let after = if during.len() > 0 { during.drop_last() } else { during };
            after == loading
        }),
        loaded.insert(name, module).contains_key(name),
        loaded.insert(name, module)[name] == module,
{
    assert(loading.push(name).drop_last() =~= loading);
}

} // verus!
