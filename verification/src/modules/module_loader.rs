//! Loading modules with their exported values: the built-in modules json,
//! math, datetime, regex and file (whose values the caller makes), modules
//! read from files, the cache of loaded modules and the
//! chain of modules being loaded. Values are the type parameter `V`; finding,
//! reading and running a file is left to the caller, who hands back what the
//! module exported.

use crate::assoc::AssocList;
use crate::modules::package_manager::{ends_with, path_join, plain_component};
use crate::text::{decimal, has_substring, occurs_at, seq_join, str_eq, usize_text, views};
use vstd::prelude::*;

verus! {

/// وحدة محمّلة مع صادراتها
#[derive(Debug)]
pub struct LoadedModule<V> {
    /// اسم الوحدة
    pub name: String,
    /// مسار الملف
    pub path: String,
    /// الصادرات (الاسم -> القيمة)
    pub exports: AssocList<V>,
    /// التصدير الافتراضي
    pub default_export: Option<String>,
    /// هل تم تحميلها
    pub loaded: bool,
}

/// The second list has the keys of the first in the same order, each value
/// a clone of the first's.
pub open spec fn copied_exports<V: Clone>(a: AssocList<V>, b: AssocList<V>) -> bool {
    &&& a.spec_entries().len() == b.spec_entries().len()
    &&& forall|i: int|
        0 <= i < b.spec_entries().len() ==> (#[trigger] b.spec_entries()[i]).0@ == a.spec_entries()[i].0@
            && cloned(a.spec_entries()[i].1, b.spec_entries()[i].1)
}

/// Two modules have the same name, path, default export and state, and the
/// second's exports are copies of the first's.
pub open spec fn same_module<V: Clone>(a: LoadedModule<V>, b: LoadedModule<V>) -> bool {
    &&& a.name@ == b.name@
    &&& a.path@ == b.path@
    &&& a.loaded == b.loaded
    &&& a.default_export == b.default_export
    &&& copied_exports(a.exports, b.exports)
}

impl<V> LoadedModule<V> {
    pub fn new(name: &str, path: &str) -> (r: Self)
        ensures
            r.name@ == name@,
            r.path@ == path@,
            r.exports.map() == Map::<Seq<char>, V>::empty(),
            r.default_export is None,
            !r.loaded,
    {
        LoadedModule {
            name: name.to_string(),
            path: path.to_string(),
            exports: AssocList::new(),
            default_export: None,
            loaded: false,
        }
    }

    /// إضافة تصدير, which becomes the default export when asked.
    pub fn add_export(&mut self, name: &str, value: V, is_default: bool)
        ensures
            final(self).exports.map() == old(self).exports.map().insert(name@, value),
            is_default ==> (final(self).default_export matches Some(d) && d@ == name@),
            !is_default ==> final(self).default_export == old(self).default_export,
            final(self).name == old(self).name,
            final(self).path == old(self).path,
            final(self).loaded == old(self).loaded,
    {
        if is_default {
            self.default_export = Some(name.to_string());
        }
        self.exports.insert(name.to_string(), value);
    }

    /// الحصول على تصدير: a clone of the exported value.
    pub fn get_export(&self, name: &str) -> (r: Option<V>)
        where
            V: Clone,
        ensures
            match r {
                Some(v) => self.exports.map().contains_key(name@) && cloned(self.exports.map()[name@], v),
                None => !self.exports.map().contains_key(name@),
            },
    {
        match self.exports.get(name) {
            Some(v) => Some(v.clone()),
            None => None,
        }
    }

    /// الحصول على جميع الصادرات: a copy of every export.
    pub fn get_all_exports(&self) -> (r: AssocList<V>)
        where
            V: Clone,
        ensures
            copied_exports(self.exports, r),
    {
        self.exports.duplicate()
    }

    /// A copy of the module.
    pub fn duplicate(&self) -> (r: Self)
        where
            V: Clone,
        ensures
            same_module(*self, r),
    {
        let default_export = match &self.default_export {
            Some(d) => Some(d.clone()),
            None => None,
        };
        LoadedModule {
            name: self.name.clone(),
            path: self.path.clone(),
            exports: self.exports.duplicate(),
            default_export,
            loaded: self.loaded,
        }
    }
}

/// خطأ التحميل
#[derive(Debug, Clone)]
pub enum LoadError {
    /// الملف غير موجود
    NotFound(String),
    /// خطأ في القراءة
    ReadError(String),
    /// خطأ في التحليل
    ParseError { file: String, message: String, line: usize },
    /// خطأ في التنفيذ
    RuntimeError(String),
    /// تبعية دائرية
    CircularDependency { module: String, chain: Vec<String> },
    /// تصدير غير موجود
    ExportNotFound { module: String, export: String },
}

/// The message of a load error.
pub open spec fn load_error_text(e: LoadError) -> Seq<char> {
    match e {
        LoadError::NotFound(name) => "الوحدة '"@ + name@ + "' غير موجودة"@,
        LoadError::ReadError(msg) => "خطأ في قراءة الملف: "@ + msg@,
        LoadError::ParseError { file, message, line } => "خطأ في تحليل '"@ + file@ + "' السطر "@ + decimal(
            line as nat,
        ) + ": "@ + message@,
        LoadError::RuntimeError(msg) => "خطأ في التنفيذ: "@ + msg@,
        LoadError::CircularDependency { module, chain } => "تبعية دائرية: "@ + seq_join(views(chain@), " -> "@)
            + " -> "@ + module@,
        LoadError::ExportNotFound { module, export } => "التصدير '"@ + export@ + "' غير موجود في '"@ + module@
            + "'"@,
    }
}

impl LoadError {
    /// The error's message.
    pub fn to_display_string(&self) -> (r: String)
        ensures
            r@ == load_error_text(*self),
    {
        let mut out = String::new();
        match self {
            LoadError::NotFound(name) => {
                out.append("الوحدة '");
                out.append(name.as_str());
                out.append("' غير موجودة");
            },
            LoadError::ReadError(msg) => {
                out.append("خطأ في قراءة الملف: ");
                out.append(msg.as_str());
            },
            LoadError::ParseError { file, message, line } => {
                out.append("خطأ في تحليل '");
                out.append(file.as_str());
                out.append("' السطر ");
                let n = usize_text(*line);
                out.append(n.as_str());
                out.append(": ");
                out.append(message.as_str());
            },
            LoadError::RuntimeError(msg) => {
                out.append("خطأ في التنفيذ: ");
                out.append(msg.as_str());
            },
            LoadError::CircularDependency { module, chain } => {
                out.append("تبعية دائرية: ");
                let joined = crate::text::join(chain, " -> ");
                out.append(joined.as_str());
                out.append(" -> ");
                out.append(module.as_str());
            },
            LoadError::ExportNotFound { module, export } => {
                out.append("التصدير '");
                out.append(export.as_str());
                out.append("' غير موجود في '");
                out.append(module.as_str());
                out.append("'");
            },
        }
        out
    }
}

#[derive(Debug, Clone, PartialEq, Eq, Structural)]
pub struct LoaderStats {
    pub modules_loaded: usize,
    pub cache_hits: usize,
    pub cache_misses: usize,
    pub load_errors: usize,
}

/// Every counter at zero.
pub open spec fn no_loader_stats() -> LoaderStats {
    LoaderStats { modules_loaded: 0, cache_hits: 0, cache_misses: 0, load_errors: 0 }
}

impl Default for LoaderStats {
    fn default() -> (r: Self)
        ensures
            r == no_loader_stats(),
    {
        LoaderStats { modules_loaded: 0, cache_hits: 0, cache_misses: 0, load_errors: 0 }
    }
}

/// How loading a module begins.
#[derive(Debug)]
pub enum LoadStep<V> {
    /// The module was loaded before; here is a copy.
    Cached(LoadedModule<V>),
    /// A built-in module, now loaded; here is a copy.
    Builtin(LoadedModule<V>),
    /// The module is being loaded already.
    Refused(LoadError),
    /// The module's file is to be found, read and run by the caller.
    FromFile,
}

/// The file names a module may have, in the order they are tried.
pub open spec fn loader_candidates(name: Seq<char>) -> Seq<Seq<char>> {
    seq![name + ".mrj"@, name + "/mod.mrj"@, name + "/index.mrj"@, "lib"@ + name + ".mrj"@]
}

/// A function or constant of a built-in module. What it is as a value of
/// the language is made by the caller of `ModuleLoader::new`.
#[derive(Debug, Clone, Copy, PartialEq, Eq, Structural)]
pub enum BuiltinFunction {
    JsonEncode,
    JsonDecode,
    JsonValid,
    MathPi,
    MathE,
    MathTau,
    MathRandom,
    DateNow,
    DateDate,
    DateTime,
    RegexMatch,
    RegexFind,
    RegexReplace,
    FileRead,
    FileWrite,
    FileExists,
}

/// The names of the built-in modules, in the order they are registered.
pub open spec fn builtin_module_names() -> Seq<Seq<char>> {
    seq!["json"@, "math"@, "datetime"@, "regex"@, "file"@]
}

/// The exports of the built-in module `json`.
pub open spec fn json_table() -> Seq<(Seq<char>, BuiltinFunction)> {
    seq![
    ("تشفير"@, BuiltinFunction::JsonEncode),
    ("encode"@, BuiltinFunction::JsonEncode),
    ("فك_التشفير"@, BuiltinFunction::JsonDecode),
    ("decode"@, BuiltinFunction::JsonDecode),
    ("صالح"@, BuiltinFunction::JsonValid),
    ("valid"@, BuiltinFunction::JsonValid),
    ]
}

/// The exports of the built-in module `math`.
pub open spec fn math_table() -> Seq<(Seq<char>, BuiltinFunction)> {
    seq![
    ("PI"@, BuiltinFunction::MathPi),
    ("E"@, BuiltinFunction::MathE),
    ("TAU"@, BuiltinFunction::MathTau),
    ("عشوائي"@, BuiltinFunction::MathRandom),
    ("random"@, BuiltinFunction::MathRandom),
    ]
}

/// The exports of the built-in module `datetime`.
pub open spec fn datetime_table() -> Seq<(Seq<char>, BuiltinFunction)> {
    seq![
    ("الآن"@, BuiltinFunction::DateNow),
    ("now"@, BuiltinFunction::DateNow),
    ("تاريخ"@, BuiltinFunction::DateDate),
    ("date"@, BuiltinFunction::DateDate),
    ("وقت"@, BuiltinFunction::DateTime),
    ("time"@, BuiltinFunction::DateTime),
    ]
}

/// The exports of the built-in module `regex`.
pub open spec fn regex_table() -> Seq<(Seq<char>, BuiltinFunction)> {
    seq![
    ("طابق"@, BuiltinFunction::RegexMatch),
    ("match"@, BuiltinFunction::RegexMatch),
    ("ابحث"@, BuiltinFunction::RegexFind),
    ("find"@, BuiltinFunction::RegexFind),
    ("استبدل"@, BuiltinFunction::RegexReplace),
    ("replace"@, BuiltinFunction::RegexReplace),
    ]
}

/// The exports of the built-in module `file`.
pub open spec fn file_table() -> Seq<(Seq<char>, BuiltinFunction)> {
    seq![
    ("اقرأ"@, BuiltinFunction::FileRead),
    ("read"@, BuiltinFunction::FileRead),
    ("اكتب"@, BuiltinFunction::FileWrite),
    ("write"@, BuiltinFunction::FileWrite),
    ("موجود"@, BuiltinFunction::FileExists),
    ("exists"@, BuiltinFunction::FileExists),
    ]
}

/// The exports of a built-in module: each name with the function it
/// stands for. The English names stand for the same functions as the
/// Arabic ones before them.
pub open spec fn builtin_table(module: Seq<char>) -> Seq<(Seq<char>, BuiltinFunction)> {
    if module == "json"@ {
        json_table()
    } else if module == "math"@ {
        math_table()
    } else if module == "datetime"@ {
        datetime_table()
    } else if module == "regex"@ {
        regex_table()
    } else if module == "file"@ {
        file_table()
    } else {
        Seq::empty()
    }
}

/// No two entries of a table have the same name.
pub open spec fn names_distinct(t: Seq<(Seq<char>, BuiltinFunction)>) -> bool {
    forall|i: int, j: int| 0 <= i < j < t.len() ==> t[i].0 != t[j].0
}

/// The exports hold exactly the names of the table, each with a value that
/// `make` gave for the function the name stands for.
pub open spec fn made_exports<V, F: Fn(BuiltinFunction) -> V>(
    make: F,
    table: Seq<(Seq<char>, BuiltinFunction)>,
    exports: Map<Seq<char>, V>,
) -> bool {
    &&& forall|k: Seq<char>| #[trigger]
        exports.contains_key(k) <==> exists|i: int| 0 <= i < table.len() && table[i].0 == k
    &&& forall|i: int|
        0 <= i < table.len() ==> exports.contains_key(#[trigger] table[i].0) && call_ensures(
            make,
            (table[i].1,),
            exports[table[i].0],
        )
}

/// The names of an executable table.
pub open spec fn table_view(t: Seq<(&str, BuiltinFunction)>) -> Seq<(Seq<char>, BuiltinFunction)> {
    t.map_values(|e: (&str, BuiltinFunction)| (e.0@, e.1))
}

/// The exports of a built-in module, each value made by `make`.
fn build_exports<V, F: Fn(BuiltinFunction) -> V>(make: &F, table: &Vec<(&str, BuiltinFunction)>) -> (r: AssocList<
    V,
>)
    requires
        forall|b: BuiltinFunction| call_requires(*make, (b,)),
        names_distinct(table_view(table@)),
    ensures
        made_exports(*make, table_view(table@), r.map()),
{
    let ghost tv = table_view(table@);
    let mut e: AssocList<V> = AssocList::new();
    let mut i: usize = 0;
    while i < table.len()
        invariant
            i <= table@.len(),
            tv == table_view(table@),
            names_distinct(tv),
            forall|b: BuiltinFunction| call_requires(*make, (b,)),
            made_exports(*make, tv.take(i as int), e.map()),
        decreases table@.len() - i,
    {
        let (name, f) = table[i];
        let v = make(f);
        let ghost before = e.map();
        e.insert(String::from_str(name), v);
        proof {
            let pre = tv.take(i as int);
            let post = tv.take(i + 1);
            assert(tv[i as int] == (name@, f));
            assert forall|k: Seq<char>| #[trigger]
                e.map().contains_key(k) <==> exists|j: int| 0 <= j < post.len() && post[j].0 == k by {
                if e.map().contains_key(k) && k != name@ {
                    assert(before.contains_key(k));
                    let j = choose|j: int| 0 <= j < pre.len() && pre[j].0 == k;
                    assert(post[j].0 == k);
                }
                if k == name@ {
                    assert(post[i as int].0 == k);
                }
                if exists|j: int| 0 <= j < post.len() && post[j].0 == k {
                    let j = choose|j: int| 0 <= j < post.len() && post[j].0 == k;
                    if j < i {
                        assert(pre[j].0 == k);
                    }
                }
            }
            assert forall|j: int| 0 <= j < post.len() implies e.map().contains_key(#[trigger] post[j].0)
                && call_ensures(*make, (post[j].1,), e.map()[post[j].0]) by {
                if j < i {
                    assert(pre[j] == post[j]);
                    assert(tv[j].0 != tv[i as int].0);
                }
            }
        }
        i = i + 1;
    }
    assert(tv.take(table@.len() as int) =~= tv);
    e
}

/// The table of `json` names each export once.
proof fn lemma_json_distinct()
    ensures
        names_distinct(json_table()),
{
    reveal_strlit("تشفير");
    reveal_strlit("encode");
    reveal_strlit("فك_التشفير");
    reveal_strlit("decode");
    reveal_strlit("صالح");
    reveal_strlit("valid");
    let t = json_table();
    assert forall|i: int, j: int| 0 <= i < j < t.len() implies t[i].0 != t[j].0 by {
        assert(0 <= i < t.len() && 0 <= j < t.len());
        if t[i].0 == t[j].0 {
            assert(t[i].0.len() == t[j].0.len());
            assert(t[i].0[0] == t[j].0[0]);
            assert(t[i].0[1] == t[j].0[1]);
        }
    }
}

/// The table of `math` names each export once.
proof fn lemma_math_distinct()
    ensures
        names_distinct(math_table()),
{
    reveal_strlit("PI");
    reveal_strlit("E");
    reveal_strlit("TAU");
    reveal_strlit("عشوائي");
    reveal_strlit("random");
    let t = math_table();
    assert forall|i: int, j: int| 0 <= i < j < t.len() implies t[i].0 != t[j].0 by {
        assert(0 <= i < t.len() && 0 <= j < t.len());
        if t[i].0 == t[j].0 {
            assert(t[i].0.len() == t[j].0.len());
            assert(t[i].0[0] == t[j].0[0]);
            assert(t[i].0[1] == t[j].0[1]);
        }
    }
}

/// The table of `datetime` names each export once.
proof fn lemma_datetime_distinct()
    ensures
        names_distinct(datetime_table()),
{
    reveal_strlit("الآن");
    reveal_strlit("now");
    reveal_strlit("تاريخ");
    reveal_strlit("date");
    reveal_strlit("وقت");
    reveal_strlit("time");
    let t = datetime_table();
    assert forall|i: int, j: int| 0 <= i < j < t.len() implies t[i].0 != t[j].0 by {
        assert(0 <= i < t.len() && 0 <= j < t.len());
        if t[i].0 == t[j].0 {
            assert(t[i].0.len() == t[j].0.len());
            assert(t[i].0[0] == t[j].0[0]);
            assert(t[i].0[1] == t[j].0[1]);
        }
    }
}

/// The table of `regex` names each export once.
proof fn lemma_regex_distinct()
    ensures
        names_distinct(regex_table()),
{
    reveal_strlit("طابق");
    reveal_strlit("match");
    reveal_strlit("ابحث");
    reveal_strlit("find");
    reveal_strlit("استبدل");
    reveal_strlit("replace");
    let t = regex_table();
    assert forall|i: int, j: int| 0 <= i < j < t.len() implies t[i].0 != t[j].0 by {
        assert(0 <= i < t.len() && 0 <= j < t.len());
        if t[i].0 == t[j].0 {
            assert(t[i].0.len() == t[j].0.len());
            assert(t[i].0[0] == t[j].0[0]);
            assert(t[i].0[1] == t[j].0[1]);
        }
    }
}

/// The table of `file` names each export once.
proof fn lemma_file_distinct()
    ensures
        names_distinct(file_table()),
{
    reveal_strlit("اقرأ");
    reveal_strlit("read");
    reveal_strlit("اكتب");
    reveal_strlit("write");
    reveal_strlit("موجود");
    reveal_strlit("exists");
    let t = file_table();
    assert forall|i: int, j: int| 0 <= i < j < t.len() implies t[i].0 != t[j].0 by {
        assert(0 <= i < t.len() && 0 <= j < t.len());
        if t[i].0 == t[j].0 {
            assert(t[i].0.len() == t[j].0.len());
            assert(t[i].0[0] == t[j].0[0]);
            assert(t[i].0[1] == t[j].0[1]);
        }
    }
}

/// Each built-in module's name picks its own table, and every table names
/// each export once.
proof fn lemma_tables()
    ensures
        builtin_table(builtin_module_names()[0]) == json_table(),
        builtin_table(builtin_module_names()[1]) == math_table(),
        builtin_table(builtin_module_names()[2]) == datetime_table(),
        builtin_table(builtin_module_names()[3]) == regex_table(),
        builtin_table(builtin_module_names()[4]) == file_table(),
        forall|i: int|
            0 <= i < builtin_module_names().len() ==> names_distinct(
                #[trigger] builtin_table(builtin_module_names()[i]),
            ),
{
    reveal_strlit("json");
    reveal_strlit("math");
    reveal_strlit("datetime");
    reveal_strlit("regex");
    reveal_strlit("file");
    assert("json"@[0] == 'j' && "math"@[0] == 'm' && "datetime"@[0] == 'd' && "regex"@[0] == 'r' && "file"@[0]
        == 'f');
    lemma_json_distinct();
    lemma_math_distinct();
    lemma_datetime_distinct();
    lemma_regex_distinct();
    lemma_file_distinct();
    assert forall|i: int|
        0 <= i < builtin_module_names().len() implies names_distinct(
            #[trigger] builtin_table(builtin_module_names()[i]),
        ) by {
        assert(i == 0 || i == 1 || i == 2 || i == 3 || i == 4);
    }
}

/// The five built-in modules, each with its exports made by `make`.
fn builtin_exports<V, F: Fn(BuiltinFunction) -> V>(make: &F) -> (r: AssocList<AssocList<V>>)
    requires
        forall|b: BuiltinFunction| call_requires(*make, (b,)),
    ensures
        forall|m: Seq<char>| #[trigger] r.map().contains_key(m) <==> builtin_module_names().contains(m),
        forall|i: int|
            0 <= i < builtin_module_names().len() ==> made_exports(
                *make,
                builtin_table(builtin_module_names()[i]),
                r.map()[#[trigger] builtin_module_names()[i]].map(),
            ),
{
    proof {
        lemma_tables();
        reveal_strlit("json");
        reveal_strlit("math");
        reveal_strlit("datetime");
        reveal_strlit("regex");
        reveal_strlit("file");
    }
    let ghost names = builtin_module_names();
    let json_t: Vec<(&str, BuiltinFunction)> = vec![
        ("تشفير", BuiltinFunction::JsonEncode),
        ("encode", BuiltinFunction::JsonEncode),
        ("فك_التشفير", BuiltinFunction::JsonDecode),
        ("decode", BuiltinFunction::JsonDecode),
        ("صالح", BuiltinFunction::JsonValid),
        ("valid", BuiltinFunction::JsonValid),
    ];
    assert(table_view(json_t@) =~= json_table());
    let json = build_exports(make, &json_t);
    let math_t: Vec<(&str, BuiltinFunction)> = vec![
        ("PI", BuiltinFunction::MathPi),
        ("E", BuiltinFunction::MathE),
        ("TAU", BuiltinFunction::MathTau),
        ("عشوائي", BuiltinFunction::MathRandom),
        ("random", BuiltinFunction::MathRandom),
    ];
    assert(table_view(math_t@) =~= math_table());
    let math = build_exports(make, &math_t);
    let date_t: Vec<(&str, BuiltinFunction)> = vec![
        ("الآن", BuiltinFunction::DateNow),
        ("now", BuiltinFunction::DateNow),
        ("تاريخ", BuiltinFunction::DateDate),
        ("date", BuiltinFunction::DateDate),
        ("وقت", BuiltinFunction::DateTime),
        ("time", BuiltinFunction::DateTime),
    ];
    assert(table_view(date_t@) =~= datetime_table());
    let datetime = build_exports(make, &date_t);
    let regex_t: Vec<(&str, BuiltinFunction)> = vec![
        ("طابق", BuiltinFunction::RegexMatch),
        ("match", BuiltinFunction::RegexMatch),
        ("ابحث", BuiltinFunction::RegexFind),
        ("find", BuiltinFunction::RegexFind),
        ("استبدل", BuiltinFunction::RegexReplace),
        ("replace", BuiltinFunction::RegexReplace),
    ];
    assert(table_view(regex_t@) =~= regex_table());
    let regex = build_exports(make, &regex_t);
    let file_t: Vec<(&str, BuiltinFunction)> = vec![
        ("اقرأ", BuiltinFunction::FileRead),
        ("read", BuiltinFunction::FileRead),
        ("اكتب", BuiltinFunction::FileWrite),
        ("write", BuiltinFunction::FileWrite),
        ("موجود", BuiltinFunction::FileExists),
        ("exists", BuiltinFunction::FileExists),
    ];
    assert(table_view(file_t@) =~= file_table());
    let file = build_exports(make, &file_t);
    let mut r: AssocList<AssocList<V>> = AssocList::new();
    r.insert(String::from_str("json"), json);
    r.insert(String::from_str("math"), math);
    r.insert(String::from_str("datetime"), datetime);
    r.insert(String::from_str("regex"), regex);
    r.insert(String::from_str("file"), file);
    assert forall|m: Seq<char>| #[trigger] r.map().contains_key(m) <==> names.contains(m) by {
        if names.contains(m) {
            let i = choose|i: int| 0 <= i < names.len() && names[i] == m;
            assert(i == 0 || i == 1 || i == 2 || i == 3 || i == 4);
        }
        if r.map().contains_key(m) {
            assert(m == names[0] || m == names[1] || m == names[2] || m == names[3] || m == names[4]);
        }
    }
    r
}

/// The file names tried for a module all name it and are module files:
/// each ends with `.mrj` and holds the module's name; the first begins
/// with the name itself, the second and third lie in the module's own
/// directory (the name, then `/`), the third being its `index.mrj`, and the
/// fourth is the name with the `lib` prefix.
pub proof fn law_candidates_name_the_module(name: Seq<char>)
    ensures
        loader_candidates(name).len() == 4,
        forall|j: int|
            0 <= j < 4 ==> has_substring(#[trigger] loader_candidates(name)[j], name) && ends_with(
                loader_candidates(name)[j],
                ".mrj"@,
            ),
        name.is_prefix_of(loader_candidates(name)[0]),
        (name + "/"@).is_prefix_of(loader_candidates(name)[1]),
        (name + "/"@).is_prefix_of(loader_candidates(name)[2]),
        loader_candidates(name)[2] == name + "/index.mrj"@,
        "lib"@.is_prefix_of(loader_candidates(name)[3]),
{
    reveal_strlit(".mrj");
    reveal_strlit("/mod.mrj");
    reveal_strlit("/index.mrj");
    reveal_strlit("lib");
    reveal_strlit("/");
    let c = loader_candidates(name);
    assert(c[0].subrange(0, name.len() as int) =~= name);
    assert((name + "/"@) =~= c[1].subrange(0, name.len() + 1int));
    assert((name + "/"@) =~= c[2].subrange(0, name.len() + 1int));
    assert("lib"@ =~= c[3].subrange(0, 3));
    assert(occurs_at(c[0], name, 0));
    assert(c[1].subrange(0, name.len() as int) =~= name);
    assert(c[2].subrange(0, name.len() as int) =~= name);
    assert(occurs_at(c[1], name, 0));
    assert(occurs_at(c[2], name, 0));
    assert(c[3].subrange(3, 3int + name.len()) =~= name);
    assert(occurs_at(c[3], name, 3));
    assert(c[0].subrange(c[0].len() - 4, c[0].len() as int) =~= ".mrj"@);
    assert(c[1].subrange(c[1].len() - 4, c[1].len() as int) =~= ".mrj"@);
    assert(c[2].subrange(c[2].len() - 4, c[2].len() as int) =~= ".mrj"@);
    assert(c[3].subrange(c[3].len() - 4, c[3].len() as int) =~= ".mrj"@);
    assert forall|j: int|
        0 <= j < 4 implies has_substring(#[trigger] c[j], name) && ends_with(c[j], ".mrj"@) by {
        assert(j == 0 || j == 1 || j == 2 || j == 3);
    }
}

pub struct ModuleLoader<V> {
    /// الوحدات المحمّلة
    loaded_modules: AssocList<LoadedModule<V>>,
    /// مسارات البحث
    search_paths: Vec<String>,
    /// المكتبات المدمجة (Built-in)
    builtin_modules: AssocList<AssocList<V>>,
    /// سلسلة التحميل (لكشف التبعيات الدائرية)
    loading_stack: Vec<String>,
    /// الإحصائيات
    stats: LoaderStats,
}

/// `Path::eq`: whether two paths have the same components. How a path
/// splits into components depends on the platform, so the contract states
/// only that a text equals itself as a path, and that two plain components
/// (one component on every platform) are the same path exactly when their
/// texts are equal.
#[verifier::external_body]
fn same_path(a: &str, b: &str) -> (r: bool)
    ensures
        a@ == b@ ==> r,
        plain_component(a@) && plain_component(b@) ==> r == (a@ == b@),
{
    std::path::Path::new(a) == std::path::Path::new(b)
}

impl<V> ModuleLoader<V> {
    /// The loaded modules by name.
    pub closed spec fn spec_loaded(&self) -> Map<Seq<char>, LoadedModule<V>> {
        self.loaded_modules.map()
    }

    /// The names of the loaded modules, in load order.
    pub closed spec fn spec_loaded_names(&self) -> Seq<Seq<char>> {
        self.loaded_modules.spec_entries().map_values(|e: (String, LoadedModule<V>)| e.0@)
    }

    /// The built-in modules by name, each with its exports.
    pub closed spec fn spec_builtins(&self) -> Map<Seq<char>, AssocList<V>> {
        self.builtin_modules.map()
    }

    /// The directories searched, in order.
    pub closed spec fn spec_search_paths(&self) -> Seq<Seq<char>> {
        views(self.search_paths@)
    }

    /// The modules being loaded, outermost first.
    pub closed spec fn spec_loading(&self) -> Seq<Seq<char>> {
        views(self.loading_stack@)
    }

    /// The statistics.
    pub closed spec fn spec_stats(&self) -> LoaderStats {
        self.stats
    }

    /// إنشاء محمل وحدات جديد. The directories searched are `.`, `modules`
    /// and `lib`; then, when the program's directory is known, its `stdlib`
    /// and `modules/stdlib`; then the directory the environment names for
    /// the standard library, if any; then `src/modules/stdlib`. The modules
    /// json, math, datetime, regex and file are built in, with the exports
    /// of `builtin_table`, each value made by `make`. No module is loaded
    /// yet.
    pub fn new<F: Fn(BuiltinFunction) -> V>(exe_dir: Option<&str>, stdlib_dir: Option<&str>, make: F) -> (r: Self)
        requires
            forall|b: BuiltinFunction| call_requires(make, (b,)),
        ensures
            r.spec_loaded() == Map::<Seq<char>, LoadedModule<V>>::empty(),
            r.spec_loaded_names().len() == 0,
            forall|m: Seq<char>| #[trigger]
                r.spec_builtins().contains_key(m) <==> builtin_module_names().contains(m),
            forall|i: int|
                0 <= i < builtin_module_names().len() ==> made_exports(
                    make,
                    builtin_table(builtin_module_names()[i]),
                    r.spec_builtins()[#[trigger] builtin_module_names()[i]].map(),
                ),
            r.spec_loading().len() == 0,
            r.spec_stats() == no_loader_stats(),
            r.spec_search_paths().len() == 4 + (if exe_dir is Some { 2int } else { 0 }) + (if stdlib_dir is Some {
                1int
            } else {
                0
            }),
            r.spec_search_paths().subrange(0, 3) == seq!["."@, "modules"@, "lib"@],
            r.spec_search_paths().last() == "src/modules/stdlib"@,
            stdlib_dir matches Some(p) ==> r.spec_search_paths()[r.spec_search_paths().len() - 2] == p@,
            exe_dir is Some ==> ends_with(r.spec_search_paths()[3], "stdlib"@) && ends_with(
                r.spec_search_paths()[4],
                "stdlib"@,
            ),
    {
        proof {
            reveal_strlit("stdlib");
            reveal_strlit("modules");
        }
        let mut paths: Vec<String> = Vec::new();
        paths.push(String::from_str("."));
        paths.push(String::from_str("modules"));
        paths.push(String::from_str("lib"));
        match exe_dir {
            Some(d) => {
                paths.push(path_join(d, "stdlib"));
                let nested = path_join(d, "modules");
                paths.push(path_join(nested.as_str(), "stdlib"));
            },
            None => {},
        }
        match stdlib_dir {
            Some(p) => paths.push(p.to_string()),
            None => {},
        }
        paths.push(String::from_str("src/modules/stdlib"));
        let builtin_modules = builtin_exports(&make);
        let r = ModuleLoader {
            loaded_modules: AssocList::new(),
            search_paths: paths,
            builtin_modules,
            loading_stack: Vec::new(),
            stats: LoaderStats::default(),
        };
        assert(r.spec_search_paths().subrange(0, 3) =~= seq!["."@, "modules"@, "lib"@]);
        assert(r.spec_loading() =~= Seq::<Seq<char>>::empty());
        assert(r.spec_loaded_names() =~= Seq::<Seq<char>>::empty());
        r
    }

    /// The names listed as loaded are exactly the loaded modules.
    pub proof fn lemma_loaded_names(&self)
        ensures
            forall|k: Seq<char>| #[trigger]
                self.spec_loaded().contains_key(k) <==> self.spec_loaded_names().contains(k),
    {
        let es = self.loaded_modules.spec_entries();
        let names = self.spec_loaded_names();
        assert forall|k: Seq<char>| #[trigger]
            self.spec_loaded().contains_key(k) <==> names.contains(k) by {
            if self.spec_loaded().contains_key(k) {
                let i = choose|i: int| 0 <= i < es.len() && es[i].0@ == k;
                assert(names[i] == k);
            }
            if names.contains(k) {
                let i = choose|i: int| 0 <= i < names.len() && names[i] == k;
                assert(es[i].0@ == k);
                assert(crate::assoc::has_key(es, k));
            }
        }
    }

    /// إضافة مسار بحث, unless a directory searched already is the same
    /// path.
    pub fn add_search_path(&mut self, path: &str)
        ensures
            final(self).spec_search_paths() == old(self).spec_search_paths() || final(self).spec_search_paths()
                == old(self).spec_search_paths().push(path@),
            old(self).spec_search_paths().contains(path@) ==> final(self).spec_search_paths() == old(
                self,
            ).spec_search_paths(),
            plain_component(path@) && (forall|k: int|
                0 <= k < old(self).spec_search_paths().len() ==> plain_component(
                    #[trigger] old(self).spec_search_paths()[k],
                )) ==> final(self).spec_search_paths() == if old(self).spec_search_paths().contains(path@) {
                old(self).spec_search_paths()
            } else {
                old(self).spec_search_paths().push(path@)
            },
            final(self).spec_loaded() == old(self).spec_loaded(),
            final(self).spec_builtins() == old(self).spec_builtins(),
            final(self).spec_loading() == old(self).spec_loading(),
            final(self).spec_stats() == old(self).spec_stats(),
    {
        let mut i: usize = 0;
        while i < self.search_paths.len()
            invariant
                i <= self.search_paths@.len(),
                forall|j: int| 0 <= j < i ==> self.search_paths@[j]@ != path@,
            decreases self.search_paths@.len() - i,
        {
            if same_path(self.search_paths[i].as_str(), path) {
                proof {
                    if plain_component(path@) && (forall|k: int|
                        0 <= k < views(self.search_paths@).len() ==> plain_component(
                            #[trigger] views(self.search_paths@)[k],
                        )) {
                        assert(plain_component(views(self.search_paths@)[i as int]));
                        assert(views(self.search_paths@)[i as int] == path@);
                    }
                }
                return;
            }
            i = i + 1;
        }
        assert(!views(self.search_paths@).contains(path@)) by {
            if views(self.search_paths@).contains(path@) {
                let j = choose|j: int| 0 <= j < views(self.search_paths@).len() && views(self.search_paths@)[j] == path@;
                assert(self.search_paths@[j]@ == path@);
            }
        }
        self.search_paths.push(path.to_string());
        assert(self.spec_search_paths() =~= old(self).spec_search_paths().push(path@));
    }

    /// تسجيل مكتبة مدمجة: the module named `name` is built in, with these
    /// exports.
    pub fn register_builtin(&mut self, name: &str, exports: AssocList<V>)
        ensures
            final(self).spec_builtins() == old(self).spec_builtins().insert(name@, exports),
            final(self).spec_loaded() == old(self).spec_loaded(),
            final(self).spec_search_paths() == old(self).spec_search_paths(),
            final(self).spec_loading() == old(self).spec_loading(),
            final(self).spec_stats() == old(self).spec_stats(),
    {
        self.builtin_modules.insert(name.to_string(), exports);
    }

    /// Whether the module is built in.
    pub fn is_builtin(&self, name: &str) -> (r: bool)
        ensures
            r == self.spec_builtins().contains_key(name@),
    {
        self.builtin_modules.contains_key(name)
    }

    /// Whether the module is being loaded.
    fn is_loading(&self, name: &str) -> (r: bool)
        ensures
            r == self.spec_loading().contains(name@),
    {
        let mut k: usize = 0;
        while k < self.loading_stack.len()
            invariant
                k <= self.loading_stack@.len(),
                forall|j: int| 0 <= j < k ==> self.loading_stack@[j]@ != name@,
            decreases self.loading_stack@.len() - k,
        {
            if str_eq(self.loading_stack[k].as_str(), name) {
                assert(views(self.loading_stack@)[k as int] == name@);
                return true;
            }
            k = k + 1;
        }
        assert(!views(self.loading_stack@).contains(name@)) by {
            if views(self.loading_stack@).contains(name@) {
                let j = choose|j: int| 0 <= j < views(self.loading_stack@).len() && views(self.loading_stack@)[j] == name@;
                assert(self.loading_stack@[j]@ == name@);
            }
        }
        false
    }

    /// Begins loading a module. A loaded module is a cache hit. A module
    /// being loaded is refused as circular. Otherwise it is a cache miss: a
    /// built-in module is loaded at once, under the path `builtin:` and its
    /// name, with its exports, and counts as loaded; any other module is
    /// left to be read from its file.
    pub fn begin_load(&mut self, name: &str) -> (r: LoadStep<V>)
        where
            V: Clone,
        requires
            old(self).spec_stats().cache_hits < usize::MAX,
            old(self).spec_stats().cache_misses < usize::MAX,
            old(self).spec_stats().modules_loaded < usize::MAX,
        ensures
            final(self).spec_loading() == old(self).spec_loading(),
            final(self).spec_builtins() == old(self).spec_builtins(),
            old(self).spec_loaded().contains_key(name@) ==> {
                &&& r matches LoadStep::Cached(m) && same_module(old(self).spec_loaded()[name@], m)
                &&& final(self).spec_loaded() == old(self).spec_loaded()
                &&& final(self).spec_stats() == (LoaderStats {
                    cache_hits: (old(self).spec_stats().cache_hits + 1) as usize,
                    ..old(self).spec_stats()
                })
            },
            !old(self).spec_loaded().contains_key(name@) && old(self).spec_loading().contains(name@) ==> {
                &&& r matches LoadStep::Refused(LoadError::CircularDependency { module, chain }) && module@ == name@
                    && views(chain@) == old(self).spec_loading()
                &&& final(self).spec_loaded() == old(self).spec_loaded()
                &&& final(self).spec_stats() == old(self).spec_stats()
            },
            !old(self).spec_loaded().contains_key(name@) && !old(self).spec_loading().contains(name@)
                && old(self).spec_builtins().contains_key(name@) ==> {
                &&& r matches LoadStep::Builtin(m) && same_module(final(self).spec_loaded()[name@], m)
                &&& final(self).spec_loaded().contains_key(name@)
                &&& final(self).spec_loaded()[name@].name@ == name@
                &&& final(self).spec_loaded()[name@].path@ == "builtin:"@ + name@
                &&& final(self).spec_loaded()[name@].loaded
                &&& copied_exports(old(self).spec_builtins()[name@], final(self).spec_loaded()[name@].exports)
                &&& final(self).spec_loaded()[name@].default_export is None
                &&& forall|k: Seq<char>| k != name@ ==> #[trigger] final(self).spec_loaded().contains_key(k)
                    == old(self).spec_loaded().contains_key(k)
                &&& final(self).spec_stats() == (LoaderStats {
                    cache_misses: (old(self).spec_stats().cache_misses + 1) as usize,
                    modules_loaded: (old(self).spec_stats().modules_loaded + 1) as usize,
                    ..old(self).spec_stats()
                })
            },
            !old(self).spec_loaded().contains_key(name@) && !old(self).spec_loading().contains(name@)
                && !old(self).spec_builtins().contains_key(name@) ==> {
                &&& r is FromFile
                &&& final(self).spec_loaded() == old(self).spec_loaded()
                &&& final(self).spec_stats() == (LoaderStats {
                    cache_misses: (old(self).spec_stats().cache_misses + 1) as usize,
                    ..old(self).spec_stats()
                })
            },
    {
        match self.loaded_modules.get(name) {
            Some(m) => {
                let copy = m.duplicate();
                self.stats.cache_hits = self.stats.cache_hits + 1;
                return LoadStep::Cached(copy);
            },
            None => {},
        }
        if self.is_loading(name) {
            return LoadStep::Refused(
                LoadError::CircularDependency { module: name.to_string(), chain: copy_texts(&self.loading_stack) },
            );
        }
        self.stats.cache_misses = self.stats.cache_misses + 1;
        let exports = match self.builtin_modules.get(name) {
            Some(e) => e.duplicate(),
            None => {
                return LoadStep::FromFile;
            },
        };
        let mut path = String::from_str("builtin:");
        path.append(name);
        let module = LoadedModule {
            name: name.to_string(),
            path,
            exports,
            default_export: None,
            loaded: true,
        };
        let copy = module.duplicate();
        self.loaded_modules.insert(name.to_string(), module);
        self.stats.modules_loaded = self.stats.modules_loaded + 1;
        LoadStep::Builtin(copy)
    }

    /// The directory and file name pairs to try for a module's file,
    /// directory by directory, each with every candidate name in order.
    pub fn resolution_order(&self, name: &str) -> (r: Vec<(String, String)>)
        ensures
            r@.len() == self.spec_search_paths().len() * 4,
            forall|i: int, j: int|
                0 <= i < self.spec_search_paths().len() && 0 <= j < 4 ==> (#[trigger] r@[i * 4 + j]).0@
                    == self.spec_search_paths()[i] && r@[i * 4 + j].1@ == loader_candidates(name@)[j],
    {
        let mut plain = name.to_string();
        plain.append(".mrj");
        let mut own = name.to_string();
        own.append("/mod.mrj");
        let mut index = name.to_string();
        index.append("/index.mrj");
        let mut lib = String::from_str("lib");
        lib.append(name);
        lib.append(".mrj");
        let ghost cands = loader_candidates(name@);
        let mut out: Vec<(String, String)> = Vec::new();
        let mut i: usize = 0;
        while i < self.search_paths.len()
            invariant
                i <= self.search_paths@.len(),
                out@.len() == i * 4,
                plain@ == cands[0],
                own@ == cands[1],
                index@ == cands[2],
                lib@ == cands[3],
                cands == loader_candidates(name@),
                forall|a: int, j: int|
                    0 <= a < i && 0 <= j < 4 ==> (#[trigger] out@[a * 4 + j]).0@ == self.search_paths@[a]@
                        && out@[a * 4 + j].1@ == cands[j],
            decreases self.search_paths@.len() - i,
        {
            let dir = &self.search_paths[i];
            out.push((dir.clone(), plain.clone()));
            out.push((dir.clone(), own.clone()));
            out.push((dir.clone(), index.clone()));
            out.push((dir.clone(), lib.clone()));
            assert forall|a: int, j: int| 0 <= a < i + 1 && 0 <= j < 4 implies (#[trigger] out@[a * 4 + j]).0@
                == self.search_paths@[a]@ && out@[a * 4 + j].1@ == cands[j] by {
                if a == i {
                    assert(a * 4 + j == i * 4 + j);
                } else {
                    assert(a * 4 + j < i * 4) by (nonlinear_arith)
                        requires
                            a < i,
                            0 <= j < 4,
                    ;
                }
            }
            i = i + 1;
        }
        out
    }

    /// The module's file is about to run: it joins the modules being
    /// loaded.
    pub fn enter_module(&mut self, name: &str)
        ensures
            final(self).spec_loading() == old(self).spec_loading().push(name@),
            final(self).spec_loaded() == old(self).spec_loaded(),
            final(self).spec_builtins() == old(self).spec_builtins(),
            final(self).spec_stats() == old(self).spec_stats(),
    {
        self.loading_stack.push(name.to_string());
        assert(self.spec_loading() =~= old(self).spec_loading().push(name@));
    }

    /// The module's file has run: it leaves the modules being loaded. A run
    /// that failed counts as a load error and gives its error; otherwise the
    /// module is loaded from `path` with the exports it made, counts as
    /// loaded, and a copy is given.
    pub fn finish_module(&mut self, name: &str, path: &str, run: Result<AssocList<V>, LoadError>) -> (r: Result<
        LoadedModule<V>,
        LoadError,
    >)
        where
            V: Clone,
        requires
            old(self).spec_stats().load_errors < usize::MAX,
            old(self).spec_stats().modules_loaded < usize::MAX,
        ensures
            final(self).spec_loading() == if old(self).spec_loading().len() > 0 {
                old(self).spec_loading().drop_last()
            } else {
                old(self).spec_loading()
            },
            final(self).spec_builtins() == old(self).spec_builtins(),
            match run {
                Err(e) => {
                    &&& r == Err::<LoadedModule<V>, LoadError>(e)
                    &&& final(self).spec_loaded() == old(self).spec_loaded()
                    &&& final(self).spec_stats() == (LoaderStats {
                        load_errors: (old(self).spec_stats().load_errors + 1) as usize,
                        ..old(self).spec_stats()
                    })
                },
                Ok(exports) => {
                    &&& r matches Ok(m) && same_module(final(self).spec_loaded()[name@], m)
                    &&& final(self).spec_loaded().contains_key(name@)
                    &&& final(self).spec_loaded()[name@].name@ == name@
                    &&& final(self).spec_loaded()[name@].path@ == path@
                    &&& final(self).spec_loaded()[name@].exports == exports
                    &&& final(self).spec_loaded()[name@].loaded
                    &&& final(self).spec_loaded()[name@].default_export is None
                    &&& forall|k: Seq<char>| k != name@ ==> #[trigger] final(self).spec_loaded().contains_key(k)
                        == old(self).spec_loaded().contains_key(k)
                    &&& final(self).spec_stats() == (LoaderStats {
                        modules_loaded: (old(self).spec_stats().modules_loaded + 1) as usize,
                        ..old(self).spec_stats()
                    })
                },
            },
    {
        let _ = self.loading_stack.pop();
        assert(self.spec_loading() =~= if old(self).spec_loading().len() > 0 {
            old(self).spec_loading().drop_last()
        } else {
            old(self).spec_loading()
        });
        match run {
            Err(e) => {
                self.stats.load_errors = self.stats.load_errors + 1;
                Err(e)
            },
            Ok(exports) => {
                let module = LoadedModule {
                    name: name.to_string(),
                    path: path.to_string(),
                    exports,
                    default_export: None,
                    loaded: true,
                };
                let copy = module.duplicate();
                self.loaded_modules.insert(name.to_string(), module);
                self.stats.modules_loaded = self.stats.modules_loaded + 1;
                Ok(copy)
            },
        }
    }

    /// الحصول على وحدة محمّلة
    pub fn get_module(&self, name: &str) -> (r: Option<&LoadedModule<V>>)
        ensures
            match r {
                Some(m) => self.spec_loaded().contains_key(name@) && *m == self.spec_loaded()[name@],
                None => !self.spec_loaded().contains_key(name@),
            },
    {
        self.loaded_modules.get(name)
    }

    /// الحصول على تصدير من وحدة: a clone of what a loaded module exports
    /// under the name.
    pub fn get_export(&self, module_name: &str, export_name: &str) -> (r: Option<V>)
        where
            V: Clone,
        ensures
            match r {
                Some(v) => self.spec_loaded().contains_key(module_name@) && self.spec_loaded()[module_name@].exports.map().contains_key(
                    export_name@,
                ) && cloned(self.spec_loaded()[module_name@].exports.map()[export_name@], v),
                None => !self.spec_loaded().contains_key(module_name@) || !self.spec_loaded()[module_name@].exports.map().contains_key(
                    export_name@,
                ),
            },
    {
        match self.loaded_modules.get(module_name) {
            Some(m) => m.get_export(export_name),
            None => None,
        }
    }

    /// قائمة الوحدات المحمّلة, in load order.
    pub fn loaded_modules(&self) -> (r: Vec<String>)
        ensures
            views(r@) == self.spec_loaded_names(),
    {
        let r = self.loaded_modules.keys();
        assert(views(r@) =~= self.spec_loaded_names());
        r
    }

    /// الإحصائيات
    pub fn stats(&self) -> (r: &LoaderStats)
        ensures
            *r == self.spec_stats(),
    {
        &self.stats
    }
}

/// A copy of a list of texts.
fn copy_texts(list: &Vec<String>) -> (r: Vec<String>)
    ensures
        views(r@) == views(list@),
{
    let mut out: Vec<String> = Vec::new();
    let mut i: usize = 0;
    while i < list.len()
        invariant
            i <= list@.len(),
            views(out@) == views(list@.take(i as int)),
        decreases list@.len() - i,
    {
        out.push(list[i].clone());
        assert(views(list@.take(i + 1)) =~= views(list@.take(i as int)).push(list@[i as int]@));
        assert(views(out@) =~= views(list@.take(i + 1)));
        i = i + 1;
    }
    assert(list@.take(list@.len() as int) =~= list@);
    out
}

/// A text as a JSON string: between double quotes, with backslash, double
/// quote, newline, carriage return and tab escaped.
pub open spec fn json_quoted(s: Seq<char>) -> Seq<char> {
    seq!['"'] + json_escaped(s) + seq!['"']
}

/// The characters of a text, escaped for a JSON string.
pub open spec fn json_escaped(s: Seq<char>) -> Seq<char>
    decreases s.len(),
{
    if s.len() == 0 {
        Seq::empty()
    } else {
        json_escaped(s.drop_last()) + json_escape_char(s.last())
    }
}

/// One character, escaped for a JSON string.
pub open spec fn json_escape_char(c: char) -> Seq<char> {
    if c == '\\' {
        seq!['\\', '\\']
    } else if c == '"' {
        seq!['\\', '"']
    } else if c == '\n' {
        seq!['\\', 'n']
    } else if c == '\r' {
        seq!['\\', 'r']
    } else if c == '\t' {
        seq!['\\', 't']
    } else {
        seq![c]
    }
}

/// Encodes a text as a JSON string, as the built-in `json` module does.
pub fn json_quote(s: &str) -> (r: String)
    ensures
        r@ == json_quoted(s@),
{
    proof {
        reveal_strlit("\"");
        reveal_strlit("\\\\");
        reveal_strlit("\\\"");
        reveal_strlit("\\n");
        reveal_strlit("\\r");
        reveal_strlit("\\t");
    }
    let mut out = String::from_str("\"");
    let n = s.unicode_len();
    let mut i: usize = 0;
    while i < n
        invariant
            i <= n,
            n == s@.len(),
            out@ == seq!['"'] + json_escaped(s@.take(i as int)),
        decreases n - i,
    {
        let c = s.get_char(i);
        let piece = if c == '\\' {
            String::from_str("\\\\")
        } else if c == '"' {
            String::from_str("\\\"")
        } else if c == '\n' {
            String::from_str("\\n")
        } else if c == '\r' {
            String::from_str("\\r")
        } else if c == '\t' {
            String::from_str("\\t")
        } else {
            crate::text::char_text(c)
        };
        proof {
            reveal_strlit("\\\\");
            reveal_strlit("\\\"");
            reveal_strlit("\\n");
            reveal_strlit("\\r");
            reveal_strlit("\\t");
        }
        assert(piece@ =~= json_escape_char(c));
        out.append(piece.as_str());
        assert(s@.take(i + 1).drop_last() =~= s@.take(i as int));
        assert(out@ =~= seq!['"'] + json_escaped(s@.take(i + 1)));
        i = i + 1;
    }
    assert(s@.take(n as int) =~= s@);
    out.append("\"");
    out
}

} // verus!
