//! The foreign function interface's bookkeeping: the types that cross the
//! boundary and their sizes, function signatures, libraries of declared
//! functions, and the registry of callbacks.

use crate::assoc::AssocList;
use crate::text::views;
use std::collections::HashMap;
use vstd::prelude::*;

verus! {

broadcast use vstd::std_specs::hash::group_hash_axioms;

/// نوع بيانات FFI
#[derive(Debug)]
pub enum FfiType {
    /// void
    Void,
    /// عدد صحيح 32-bit
    Int32,
    /// عدد صحيح 64-bit
    Int64,
    /// عدد عشري 32-bit
    Float32,
    /// عدد عشري 64-bit
    Float64,
    /// مؤشر
    Pointer,
    /// نص (null-terminated)
    String,
    /// منطقي
    Bool,
    /// دالة callback
    Callback(Box<FfiSignature>),
}

/// The size in bytes of a value of the type; texts and callbacks are
/// pointers.
pub open spec fn ffi_size(t: FfiType) -> usize {
    match t {
        FfiType::Void => 0,
        FfiType::Int32 => 4,
        FfiType::Float32 => 4,
        FfiType::Bool => 1,
        _ => 8,
    }
}

/// The Arabic name of a type.
pub open spec fn ffi_name(t: FfiType) -> Seq<char> {
    match t {
        FfiType::Void => "فراغ"@,
        FfiType::Int32 => "عدد_32"@,
        FfiType::Int64 => "عدد_64"@,
        FfiType::Float32 => "عشري_32"@,
        FfiType::Float64 => "عشري_64"@,
        FfiType::Pointer => "مؤشر"@,
        FfiType::String => "نص"@,
        FfiType::Bool => "منطقي"@,
        FfiType::Callback(_) => "دالة"@,
    }
}

impl FfiType {
    /// الحجم بالبايت
    pub fn size(&self) -> (r: usize)
        ensures
            r == ffi_size(*self),
    {
        match self {
            FfiType::Void => 0,
            FfiType::Int32 => 4,
            FfiType::Float32 => 4,
            FfiType::Int64 => 8,
            FfiType::Float64 => 8,
            FfiType::Pointer => 8,
            FfiType::Bool => 1,
            FfiType::String => 8,
            FfiType::Callback(_) => 8,
        }
    }

    /// تمثيل نصي
    pub fn to_string_ar(&self) -> (r: String)
        ensures
            r@ == ffi_name(*self),
    {
        match self {
            FfiType::Void => String::from_str("فراغ"),
            FfiType::Int32 => String::from_str("عدد_32"),
            FfiType::Int64 => String::from_str("عدد_64"),
            FfiType::Float32 => String::from_str("عشري_32"),
            FfiType::Float64 => String::from_str("عشري_64"),
            FfiType::Pointer => String::from_str("مؤشر"),
            FfiType::String => String::from_str("نص"),
            FfiType::Bool => String::from_str("منطقي"),
            FfiType::Callback(_) => String::from_str("دالة"),
        }
    }
}

/// توقيع دالة FFI
#[derive(Debug)]
pub struct FfiSignature {
    /// اسم الدالة
    pub name: String,
    /// نوع الإرجاع
    pub return_type: FfiType,
    /// أنواع المعاملات
    pub param_types: Vec<FfiType>,
    /// هل الدالة متغيرة (variadic)
    pub is_variadic: bool,
}

impl FfiSignature {
    pub fn new(name: &str, return_type: FfiType, params: Vec<FfiType>) -> (r: Self)
        ensures
            r.name@ == name@,
            r.return_type == return_type,
            r.param_types == params,
            !r.is_variadic,
    {
        FfiSignature {
            name: String::from_str(name),
            return_type,
            param_types: params,
            is_variadic: false,
        }
    }

    pub fn variadic(name: &str, return_type: FfiType, params: Vec<FfiType>) -> (r: Self)
        ensures
            r.name@ == name@,
            r.return_type == return_type,
            r.param_types == params,
            r.is_variadic,
    {
        FfiSignature {
            name: String::from_str(name),
            return_type,
            param_types: params,
            is_variadic: true,
        }
    }
}

/// دالة FFI معرفة
#[derive(Debug)]
pub struct FfiFunction {
    /// اسم الدالة
    pub name: String,
    /// التوقيع
    pub signature: FfiSignature,
    /// معرف الدالة
    pub id: u64,
}

/// `i` is the first position of a function with the given name.
pub open spec fn first_named(fs: Seq<FfiFunction>, name: Seq<char>, i: int) -> bool {
    &&& 0 <= i < fs.len()
    &&& fs[i].name@ == name
    &&& forall|j: int| 0 <= j < i ==> fs[j].name@ != name
}

/// Some function has the given name.
pub open spec fn has_named(fs: Seq<FfiFunction>, name: Seq<char>) -> bool {
    exists|i: int| 0 <= i < fs.len() && fs[i].name@ == name
}

/// `after` is `before` with `f` added: it replaces the first function of
/// the same name, or else comes last.
pub open spec fn added_function(before: Seq<FfiFunction>, f: FfiFunction, after: Seq<FfiFunction>) -> bool {
    if has_named(before, f.name@) {
        exists|i: int| first_named(before, f.name@, i) && after == before.update(i, f)
    } else {
        after == before.push(f)
    }
}

/// مكتبة FFI محمّلة
#[derive(Debug)]
pub struct FfiLibrary {
    /// اسم المكتبة
    pub name: String,
    /// المسار
    pub path: String,
    /// الدوال المتاحة, each name held by the first function that has it
    pub functions: Vec<FfiFunction>,
    /// هل تم تحميلها
    pub loaded: bool,
}

impl FfiLibrary {
    pub fn new(name: &str, path: &str) -> (r: Self)
        ensures
            r.name@ == name@,
            r.path@ == path@,
            r.functions@.len() == 0,
            !r.loaded,
    {
        FfiLibrary {
            name: String::from_str(name),
            path: String::from_str(path),
            functions: Vec::new(),
            loaded: false,
        }
    }

    fn position(&self, name: &str) -> (r: Option<usize>)
        ensures
            match r {
                Some(i) => first_named(self.functions@, name@, i as int),
                None => !has_named(self.functions@, name@),
            },
    {
        let mut i: usize = 0;
        while i < self.functions.len()
            invariant
                i <= self.functions@.len(),
                forall|j: int| 0 <= j < i ==> self.functions@[j].name@ != name@,
            decreases self.functions@.len() - i,
        {
            if crate::text::str_eq(self.functions[i].name.as_str(), name) {
                return Some(i);
            }
            i = i + 1;
        }
        None
    }

    /// إضافة دالة
    pub fn add_function(&mut self, func: FfiFunction)
        ensures
            added_function(old(self).functions@, func, final(self).functions@),
            final(self).name == old(self).name,
            final(self).path == old(self).path,
            final(self).loaded == old(self).loaded,
    {
        match self.position(func.name.as_str()) {
            Some(i) => {
                let ghost before = self.functions@;
                self.functions.set(i, func);
                assert(first_named(before, func.name@, i as int));
            },
            None => {
                self.functions.push(func);
            },
        }
    }

    /// الحصول على دالة
    pub fn get_function(&self, name: &str) -> (r: Option<&FfiFunction>)
        ensures
            match r {
                Some(f) => exists|i: int| first_named(self.functions@, name@, i) && *f == self.functions@[i],
                None => !has_named(self.functions@, name@),
            },
    {
        match self.position(name) {
            Some(i) => Some(&self.functions[i]),
            None => None,
        }
    }
}

/// After adding a function, looking its name up gives that function.
pub proof fn law_add_then_get(before: Seq<FfiFunction>, f: FfiFunction, after: Seq<FfiFunction>)
    requires
        added_function(before, f, after),
    ensures
        exists|i: int| first_named(after, f.name@, i) && after[i] == f,
{
    if has_named(before, f.name@) {
        let i = choose|i: int| first_named(before, f.name@, i) && after == before.update(i, f);
        assert(first_named(after, f.name@, i));
    } else {
        let i = before.len() as int;
        assert(after[i] == f);
        assert forall|j: int| 0 <= j < i implies after[j].name@ != f.name@ by {
            assert(after[j] == before[j]);
        }
        assert(first_named(after, f.name@, i));
    }
}

/// معرف callback
pub type CallbackId = u64;

/// مدير callbacks: callbacks are kept under the identifiers handed out at
/// registration, which count up from one and are never reused.
pub struct CallbackManager<F> {
    callbacks: HashMap<CallbackId, F>,
    next_id: CallbackId,
}

impl<F> CallbackManager<F> {
    #[verifier::type_invariant]
    spec fn ids_below_next(self) -> bool {
        &&& self.next_id >= 1
        &&& forall|id: CallbackId| #[trigger] self.callbacks@.contains_key(id) ==> 1 <= id < self.next_id
    }

    /// The registered callbacks by identifier.
    pub closed spec fn spec_callbacks(&self) -> Map<CallbackId, F> {
        self.callbacks@
    }

    /// The identifier that the next registration hands out.
    pub closed spec fn spec_next_id(&self) -> CallbackId {
        self.next_id
    }

    pub fn new() -> (r: Self)
        ensures
            r.spec_callbacks() == Map::<CallbackId, F>::empty(),
            r.spec_next_id() == 1,
    {
        CallbackManager { callbacks: HashMap::new(), next_id: 1 }
    }

    /// تسجيل callback جديد
    pub fn register(&mut self, callback: F) -> (r: CallbackId)
        requires
            old(self).spec_next_id() < u64::MAX,
        ensures
            r == old(self).spec_next_id(),
            !old(self).spec_callbacks().contains_key(r),
            final(self).spec_callbacks() == old(self).spec_callbacks().insert(r, callback),
            final(self).spec_callbacks().len() == old(self).spec_callbacks().len() + 1,
            final(self).spec_next_id() == r + 1,
    {
        proof {
            use_type_invariant(&*self);
            vstd::std_specs::hash::axiom_hashmap_view_finite_dom(self.callbacks);
        }
        let id = self.next_id;
        let mut callbacks: HashMap<CallbackId, F> = HashMap::new();
        std::mem::swap(&mut callbacks, &mut self.callbacks);
        callbacks.insert(id, callback);
        self.next_id = id + 1;
        self.callbacks = callbacks;
        id
    }

    /// إلغاء تسجيل callback
    pub fn unregister(&mut self, id: CallbackId)
        ensures
            final(self).spec_callbacks() == old(self).spec_callbacks().remove(id),
            final(self).spec_next_id() == old(self).spec_next_id(),
    {
        proof {
            use_type_invariant(&*self);
        }
        let mut callbacks: HashMap<CallbackId, F> = HashMap::new();
        std::mem::swap(&mut callbacks, &mut self.callbacks);
        let _ = callbacks.remove(&id);
        self.callbacks = callbacks;
    }

    /// عدد الـ callbacks
    pub fn count(&self) -> (r: usize)
        ensures
            r == self.spec_callbacks().len(),
    {
        self.callbacks.len()
    }

    /// استدعاء callback
    pub fn call<V>(&self, id: CallbackId, args: &[V]) -> (r: Option<V>)
        where
            F: Fn(&[V]) -> V,
        requires
            self.spec_callbacks().contains_key(id) ==> call_requires(self.spec_callbacks()[id], (args,)),
        ensures
            match r {
                Some(v) => self.spec_callbacks().contains_key(id) && call_ensures(
                    self.spec_callbacks()[id],
                    (args,),
                    v,
                ),
                None => !self.spec_callbacks().contains_key(id),
            },
    {
        match self.callbacks.get(&id) {
            Some(cb) => Some(cb(args)),
            None => None,
        }
    }
}

/// Registering a callback under an identifier not in use adds exactly one
/// callback, found under that identifier, and leaves the others as they
/// were.
pub proof fn law_register_adds<F>(m: Map<CallbackId, F>, next: CallbackId, cb: F)
    requires
        m.dom().finite(),
        !m.contains_key(next),
    ensures
        m.insert(next, cb).len() == m.len() + 1,
        m.insert(next, cb).contains_key(next),
        m.insert(next, cb)[next] == cb,
        forall|id: CallbackId| #[trigger] m.contains_key(id) ==> id != next && m.insert(next, cb)[id] == m[id],
{
}

/// Registering twice hands out two different identifiers, and both stay
/// registered.
pub proof fn law_register_distinct<F>(m: Map<CallbackId, F>, next: CallbackId, a: F, b: F)
    requires
        next < u64::MAX - 1,
        !m.contains_key(next),
        !m.contains_key((next + 1) as u64),
    ensures
        next != next + 1,
        m.insert(next, a).insert((next + 1) as u64, b).contains_key(next),
        m.insert(next, a).insert((next + 1) as u64, b)[next] == a,
        m.insert(next, a).insert((next + 1) as u64, b)[(next + 1) as u64] == b,
{
}


/// دالة أصلية مسجلة; what calls it is the type parameter `N`.
pub struct NativeFunction<N> {
    /// الاسم
    pub name: String,
    /// المعاملات
    pub params: Vec<String>,
    /// الدالة
    pub func: N,
}

/// Where a call goes.
#[derive(Debug, Clone, Copy, PartialEq, Eq, Structural)]
pub enum CallTarget {
    /// The native function of that name.
    Native,
    /// The function of the library, with this identifier; until libraries
    /// are called for real, it answers the default value of its return
    /// type.
    Foreign(u64),
}

/// مدير FFI: loaded libraries and their declared functions, native
/// functions, callbacks and statistics.
pub struct FfiManager<N, F> {
    libraries: AssocList<FfiLibrary>,
    callbacks: CallbackManager<F>,
    native_functions: AssocList<NativeFunction<N>>,
    stats: FfiStats,
    next_function_id: u64,
}

/// The message for a library loaded twice.
pub open spec fn already_loaded_text(name: Seq<char>) -> Seq<char> {
    "المكتبة '"@ + name + "' محمّلة بالفعل"@
}

/// The message for an unknown library to close.
pub open spec fn missing_library_text(name: Seq<char>) -> Seq<char> {
    "المكتبة '"@ + name + "' غير موجودة"@
}

/// The message for a library that is not loaded.
pub open spec fn not_loaded_text(name: Seq<char>) -> Seq<char> {
    "المكتبة '"@ + name + "' غير محمّلة"@
}

/// The message for a function a library does not declare.
pub open spec fn missing_function_text(func: Seq<char>, lib: Seq<char>) -> Seq<char> {
    "الدالة '"@ + func + "' غير موجودة في '"@ + lib + "'"@
}

/// The message for a call with the wrong number of arguments.
pub open spec fn arity_text(expected: nat, found: nat) -> Seq<char> {
    "عدد المعاملات غير صحيح: متوقع "@ + crate::text::decimal(expected) + "، وجد "@ + crate::text::decimal(found)
}

fn quoted_message(before: &str, name: &str, after: &str) -> (r: String)
    ensures
        r@ == before@ + name@ + after@,
{
    let mut m = String::from_str(before);
    m.append(name);
    m.append(after);
    m
}

impl<N, F> FfiManager<N, F> {
    /// The loaded libraries by name.
    pub closed spec fn spec_libraries(&self) -> Map<Seq<char>, FfiLibrary> {
        self.libraries.map()
    }

    /// The names of the loaded libraries, in order.
    pub closed spec fn spec_library_names(&self) -> Seq<Seq<char>> {
        self.libraries.spec_entries().map_values(|e: (String, FfiLibrary)| e.0@)
    }

    /// The native functions by name.
    pub closed spec fn spec_natives(&self) -> Map<Seq<char>, NativeFunction<N>> {
        self.native_functions.map()
    }

    /// The registered callbacks.
    pub closed spec fn spec_callbacks(&self) -> Map<CallbackId, F> {
        self.callbacks.spec_callbacks()
    }

    /// The identifier the next registered callback gets.
    pub closed spec fn spec_next_callback(&self) -> CallbackId {
        self.callbacks.spec_next_id()
    }

    /// The statistics.
    pub closed spec fn spec_stats(&self) -> FfiStats {
        self.stats
    }

    /// The identifier the next declared function gets.
    pub closed spec fn spec_next_function_id(&self) -> u64 {
        self.next_function_id
    }

    /// إنشاء مدير FFI جديد: no library, native function or callback.
    pub fn new() -> (r: Self)
        ensures
            r.spec_libraries() == Map::<Seq<char>, FfiLibrary>::empty(),
            r.spec_natives() == Map::<Seq<char>, NativeFunction<N>>::empty(),
            r.spec_callbacks() == Map::<CallbackId, F>::empty(),
            r.spec_next_callback() == 1,
            r.spec_stats() == (FfiStats { libraries_loaded: 0, calls_made: 0, callbacks_registered: 0, errors: 0 }),
            r.spec_next_function_id() == 1,
    {
        FfiManager {
            libraries: AssocList::new(),
            callbacks: CallbackManager::new(),
            native_functions: AssocList::new(),
            stats: FfiStats::default(),
            next_function_id: 1,
        }
    }

    /// تسجيل دالة أصلية under its name, replacing one of the same name.
    pub fn register_native(&mut self, name: &str, params: Vec<String>, func: N)
        ensures
            final(self).spec_natives().contains_key(name@),
            final(self).spec_natives()[name@].name@ == name@,
            final(self).spec_natives()[name@].params == params,
            final(self).spec_natives()[name@].func == func,
            forall|k: Seq<char>| k != name@ ==> #[trigger] final(self).spec_natives().contains_key(k)
                == old(self).spec_natives().contains_key(k),
            final(self).spec_libraries() == old(self).spec_libraries(),
            final(self).spec_stats() == old(self).spec_stats(),
    {
        self.native_functions.insert(name.to_string(), NativeFunction { name: name.to_string(), params, func });
    }

    /// تحميل مكتبة: refused when a library of that name is loaded already.
    pub fn load_library(&mut self, name: &str, path: &str) -> (r: Result<(), String>)
        requires
            old(self).spec_stats().libraries_loaded < u64::MAX,
        ensures
            old(self).spec_libraries().contains_key(name@) ==> {
                &&& r matches Err(m) && m@ == already_loaded_text(name@)
                &&& final(self).spec_libraries() == old(self).spec_libraries()
                &&& final(self).spec_stats() == old(self).spec_stats()
            },
            !old(self).spec_libraries().contains_key(name@) ==> {
                &&& r is Ok
                &&& final(self).spec_libraries().contains_key(name@)
                &&& final(self).spec_libraries()[name@].name@ == name@
                &&& final(self).spec_libraries()[name@].path@ == path@
                &&& final(self).spec_libraries()[name@].loaded
                &&& final(self).spec_libraries()[name@].functions@.len() == 0
                &&& forall|k: Seq<char>| k != name@ ==> #[trigger] final(self).spec_libraries().contains_key(k)
                    == old(self).spec_libraries().contains_key(k)
                &&& final(self).spec_stats() == (FfiStats {
                    libraries_loaded: (old(self).spec_stats().libraries_loaded + 1) as u64,
                    ..old(self).spec_stats()
                })
            },
            final(self).spec_natives() == old(self).spec_natives(),
            final(self).spec_next_function_id() == old(self).spec_next_function_id(),
    {
        if self.libraries.contains_key(name) {
            return Err(quoted_message("المكتبة '", name, "' محمّلة بالفعل"));
        }
        let mut library = FfiLibrary::new(name, path);
        library.loaded = true;
        self.libraries.insert(name.to_string(), library);
        self.stats.libraries_loaded = self.stats.libraries_loaded + 1;
        Ok(())
    }

    /// إغلاق مكتبة: a loaded library is dropped; an unknown one is refused.
    pub fn close_library(&mut self, name: &str) -> (r: Result<(), String>)
        ensures
            old(self).spec_libraries().contains_key(name@) ==> (r is Ok && final(self).spec_libraries()
                == old(self).spec_libraries().remove(name@)),
            !old(self).spec_libraries().contains_key(name@) ==> (r matches Err(m) && m@ == missing_library_text(name@)
                && final(self).spec_libraries() == old(self).spec_libraries()),
            final(self).spec_natives() == old(self).spec_natives(),
            final(self).spec_stats() == old(self).spec_stats(),
            final(self).spec_next_function_id() == old(self).spec_next_function_id(),
    {
        match self.libraries.remove(name) {
            Some(_) => Ok(()),
            None => Err(quoted_message("المكتبة '", name, "' غير موجودة")),
        }
    }

    /// تعريف دالة خارجية: the library declares the function under a fresh
    /// identifier, which is given back; an unknown library is refused.
    pub fn define_function(&mut self, lib_name: &str, func_name: &str, signature: FfiSignature) -> (r: Result<u64, String>)
        requires
            old(self).spec_next_function_id() < u64::MAX,
        ensures
            old(self).spec_libraries().contains_key(lib_name@) ==> {
                let before = old(self).spec_libraries()[lib_name@];
                let after = final(self).spec_libraries()[lib_name@];
                &&& r == Ok::<u64, String>(old(self).spec_next_function_id())
                &&& final(self).spec_next_function_id() == old(self).spec_next_function_id() + 1
                &&& final(self).spec_libraries().contains_key(lib_name@)
                &&& after.name == before.name && after.path == before.path && after.loaded == before.loaded
                &&& exists|f: FfiFunction| f.name@ == func_name@ && f.id == old(self).spec_next_function_id()
                    && f.signature == signature && added_function(before.functions@, f, after.functions@)
                &&& forall|k: Seq<char>| k != lib_name@ ==> #[trigger] final(self).spec_libraries().contains_key(k)
                    == old(self).spec_libraries().contains_key(k)
            },
            !old(self).spec_libraries().contains_key(lib_name@) ==> {
                &&& r matches Err(m) && m@ == not_loaded_text(lib_name@)
                &&& final(self).spec_libraries() == old(self).spec_libraries()
                &&& final(self).spec_next_function_id() == old(self).spec_next_function_id()
            },
            final(self).spec_natives() == old(self).spec_natives(),
            final(self).spec_stats() == old(self).spec_stats(),
    {
        match self.libraries.remove(lib_name) {
            Some(mut lib) => {
                let id = self.next_function_id;
                self.next_function_id = id + 1;
                let func = FfiFunction { name: func_name.to_string(), signature, id };
                let ghost f = func;
                lib.add_function(func);
                let ghost after = lib;
                self.libraries.insert(lib_name.to_string(), lib);
                assert(final_ok(self.libraries.map(), lib_name@, after));
                Ok(id)
            },
            None => Err(quoted_message("المكتبة '", lib_name, "' غير محمّلة")),
        }
    }

    /// Where a call of `func_name` with `arg_count` arguments goes: a
    /// native function of that name first; otherwise the library's declared
    /// function, refused when the library is not loaded, the function is
    /// not declared, or the number of arguments differs from the
    /// parameters of a function that is not variadic. Every call counts.
    pub fn resolve_call(&mut self, lib_name: &str, func_name: &str, arg_count: usize) -> (r: Result<CallTarget, String>)
        requires
            old(self).spec_stats().calls_made < u64::MAX,
        ensures
            final(self).spec_stats() == (FfiStats {
                calls_made: (old(self).spec_stats().calls_made + 1) as u64,
                ..old(self).spec_stats()
            }),
            final(self).spec_libraries() == old(self).spec_libraries(),
            final(self).spec_natives() == old(self).spec_natives(),
            old(self).spec_natives().contains_key(func_name@) ==> r == Ok::<CallTarget, String>(CallTarget::Native),
            !old(self).spec_natives().contains_key(func_name@) && !old(self).spec_libraries().contains_key(lib_name@)
                ==> (r matches Err(m) && m@ == not_loaded_text(lib_name@)),
            !old(self).spec_natives().contains_key(func_name@) && old(self).spec_libraries().contains_key(lib_name@)
                ==> {
                let lib = old(self).spec_libraries()[lib_name@];
                &&& !has_named(lib.functions@, func_name@) ==> (r matches Err(m) && m@ == missing_function_text(
                    func_name@,
                    lib_name@,
                ))
                &&& has_named(lib.functions@, func_name@) ==> exists|i: int|
                    first_named(lib.functions@, func_name@, i) && {
                        let f = lib.functions@[i];
                        if arg_count != f.signature.param_types@.len() && !f.signature.is_variadic {
                            r matches Err(m) && m@ == arity_text(f.signature.param_types@.len(), arg_count as nat)
                        } else {
                            r == Ok::<CallTarget, String>(CallTarget::Foreign(f.id))
                        }
                    }
            },
    {
        self.stats.calls_made = self.stats.calls_made + 1;
        if self.native_functions.contains_key(func_name) {
            return Ok(CallTarget::Native);
        }
        let lib = match self.libraries.get(lib_name) {
            Some(l) => l,
            None => {
                return Err(quoted_message("المكتبة '", lib_name, "' غير محمّلة"));
            },
        };
        let func = match lib.get_function(func_name) {
            Some(f) => f,
            None => {
                let mut m = quoted_message("الدالة '", func_name, "' غير موجودة في '");
                m.append(lib_name);
                m.append("'");
                return Err(m);
            },
        };
        let expected = func.signature.param_types.len();
        if arg_count != expected && !func.signature.is_variadic {
            let mut m = String::from_str("عدد المعاملات غير صحيح: متوقع ");
            m.append(crate::text::usize_text(expected).as_str());
            m.append("، وجد ");
            m.append(crate::text::usize_text(arg_count).as_str());
            return Err(m);
        }
        Ok(CallTarget::Foreign(func.id))
    }

    /// Calls the native function of that name on the arguments; `None` when
    /// there is none. What a call of `resolve_call` answered `Native` runs.
    pub fn call_native<A, R>(&self, name: &str, args: &[A]) -> (r: Option<R>)
        where
            N: Fn(&[A]) -> R,
        requires
            self.spec_natives().contains_key(name@) ==> call_requires(self.spec_natives()[name@].func, (args,)),
        ensures
            match r {
                Some(v) => self.spec_natives().contains_key(name@) && call_ensures(
                    self.spec_natives()[name@].func,
                    (args,),
                    v,
                ),
                None => !self.spec_natives().contains_key(name@),
            },
    {
        match self.native_functions.get(name) {
            Some(native) => Some((native.func)(args)),
            None => None,
        }
    }

    /// تسجيل callback
    pub fn register_callback(&mut self, callback: F) -> (r: CallbackId)
        requires
            old(self).spec_next_callback() < u64::MAX,
            old(self).spec_stats().callbacks_registered < u64::MAX,
        ensures
            r == old(self).spec_next_callback(),
            final(self).spec_callbacks() == old(self).spec_callbacks().insert(r, callback),
            final(self).spec_callbacks().len() == old(self).spec_callbacks().len() + 1,
            final(self).spec_next_callback() == r + 1,
            final(self).spec_stats() == (FfiStats {
                callbacks_registered: (old(self).spec_stats().callbacks_registered + 1) as u64,
                ..old(self).spec_stats()
            }),
    {
        let id = self.callbacks.register(callback);
        self.stats.callbacks_registered = self.stats.callbacks_registered + 1;
        id
    }

    /// إلغاء تسجيل callback
    pub fn unregister_callback(&mut self, id: CallbackId)
        ensures
            final(self).spec_callbacks() == old(self).spec_callbacks().remove(id),
            final(self).spec_next_callback() == old(self).spec_next_callback(),
            final(self).spec_stats() == old(self).spec_stats(),
    {
        self.callbacks.unregister(id);
    }

    /// استدعاء callback
    pub fn call_callback<V>(&self, id: CallbackId, args: &[V]) -> (r: Option<V>)
        where
            F: Fn(&[V]) -> V,
        requires
            self.spec_callbacks().contains_key(id) ==> call_requires(self.spec_callbacks()[id], (args,)),
        ensures
            match r {
                Some(v) => self.spec_callbacks().contains_key(id) && call_ensures(self.spec_callbacks()[id], (args,), v),
                None => !self.spec_callbacks().contains_key(id),
            },
    {
        self.callbacks.call(id, args)
    }

    /// الحصول على الإحصائيات
    pub fn stats(&self) -> (r: &FfiStats)
        ensures
            *r == self.spec_stats(),
    {
        &self.stats
    }

    /// The loaded library of that name.
    pub fn get_library(&self, name: &str) -> (r: Option<&FfiLibrary>)
        ensures
            match r {
                Some(lib) => self.spec_libraries().contains_key(name@) && *lib == self.spec_libraries()[name@],
                None => !self.spec_libraries().contains_key(name@),
            },
    {
        self.libraries.get(name)
    }

    /// قائمة المكتبات
    pub fn list_libraries(&self) -> (r: Vec<String>)
        ensures
            views(r@) == self.spec_library_names(),
    {
        let r = self.libraries.keys();
        assert(views(r@) =~= self.spec_library_names());
        r
    }
}

/// The map holds the library under the name.
spec fn final_ok(m: Map<Seq<char>, FfiLibrary>, name: Seq<char>, lib: FfiLibrary) -> bool {
    m.contains_key(name) && m[name] == lib
}

/// إحصائيات FFI
#[derive(Debug, Clone, Copy, PartialEq, Eq, Structural)]
pub struct FfiStats {
    /// عدد المكتبات المحمّلة
    pub libraries_loaded: u64,
    /// عدد استدعاءات FFI
    pub calls_made: u64,
    /// عدد الـ callbacks المسجلة
    pub callbacks_registered: u64,
    /// عدد الأخطاء
    pub errors: u64,
}

impl Default for FfiStats {
    fn default() -> (r: Self)
        ensures
            r == (FfiStats { libraries_loaded: 0, calls_made: 0, callbacks_registered: 0, errors: 0 }),
    {
        FfiStats { libraries_loaded: 0, calls_made: 0, callbacks_registered: 0, errors: 0 }
    }
}

} // verus!
