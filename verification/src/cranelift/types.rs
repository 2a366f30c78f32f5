//! The types of the language, their sizes, the machine types that values of
//! each type are lowered to, parsing of type names, compatibility and
//! rendering.

use crate::text::{str_eq, trim, trimmed};
use vstd::prelude::*;

verus! {

/// The machine types that values are lowered to: a 64-bit float, an 8-bit
/// integer (booleans) and a 64-bit integer (pointers).
#[derive(Debug, Clone, Copy, PartialEq, Eq, Structural)]
pub enum MachineType {
    F64,
    I8,
    I64,
}

/// أنواع البيانات في لغة المرجع
#[derive(Debug, PartialEq)]
pub enum MarjaaType {
    /// رقم (float 64-bit)
    Number,
    /// نص (UTF-8 string)
    String,
    /// منطقي (boolean)
    Boolean,
    /// قائمة (list)
    List(Box<MarjaaType>),
    /// قاموس (dictionary)
    Dict(Box<MarjaaType>, Box<MarjaaType>),
    /// كائن (object): its fields, in order, each named once
    Object(Vec<(String, MarjaaType)>),
    /// دالة (function)
    Function(Vec<MarjaaType>, Box<MarjaaType>),
    /// لا شيء (null/void)
    Null,
    /// أي نوع (any)
    Any,
    /// نوع مخصص
    Custom(String),
}

/// The size in bytes of a value of the type: eight for numbers and
/// pointers, one for booleans, 24 for lists and dictionaries.
pub open spec fn type_size(t: MarjaaType) -> u32 {
    match t {
        MarjaaType::Boolean => 1,
        MarjaaType::List(_) => 24,
        MarjaaType::Dict(_, _) => 24,
        _ => 8,
    }
}

impl MarjaaType {
    /// الحصول على حجم النوع بالبايت
    pub fn size(&self) -> (r: u32)
        ensures
            r == type_size(*self),
    {
        match self {
            MarjaaType::Number => 8,
            MarjaaType::Boolean => 1,
            MarjaaType::String => 8,
            MarjaaType::List(_) => 24,
            MarjaaType::Dict(_, _) => 24,
            MarjaaType::Null => 8,
            MarjaaType::Any => 8,
            MarjaaType::Custom(_) => 8,
            MarjaaType::Function(_, _) => 8,
            MarjaaType::Object(_) => 8,
        }
    }
}

/// The machine type registered under a type name: numbers as floats,
/// booleans as bytes, texts as pointers; any other name has none.
pub open spec fn registered_type(name: Seq<char>) -> Option<MachineType> {
    if name == "رقم"@ {
        Some(MachineType::F64)
    } else if name == "منطقي"@ {
        Some(MachineType::I8)
    } else if name == "نص"@ {
        Some(MachineType::I64)
    } else {
        None
    }
}

/// The machine type that values of a type are lowered to. Null and any are
/// floats; a custom type is looked up by name, falling back to a float.
pub open spec fn machine_type_of(t: MarjaaType) -> MachineType {
    match t {
        MarjaaType::Number => MachineType::F64,
        MarjaaType::Boolean => MachineType::I8,
        MarjaaType::Null => MachineType::F64,
        MarjaaType::Any => MachineType::F64,
        MarjaaType::Custom(name) => match registered_type(name@) {
            Some(m) => m,
            None => MachineType::F64,
        },
        _ => MachineType::I64,
    }
}

/// Whether a value of type `a` can stand where `e` is expected: `Any` on
/// either side matches, the simple types match themselves, lists and
/// dictionaries match element-wise, custom types by name; nothing else.
pub open spec fn compatible(e: MarjaaType, a: MarjaaType) -> bool
    decreases e,
{
    if e is Any || a is Any {
        true
    } else {
        match e {
            MarjaaType::Number => a is Number,
            MarjaaType::String => a is String,
            MarjaaType::Boolean => a is Boolean,
            MarjaaType::Null => a is Null,
            MarjaaType::List(e1) => match a {
                MarjaaType::List(a1) => compatible(*e1, *a1),
                _ => false,
            },
            MarjaaType::Dict(ek, ev) => match a {
                MarjaaType::Dict(ak, av) => compatible(*ek, *ak) && compatible(*ev, *av),
                _ => false,
            },
            MarjaaType::Custom(n) => match a {
                MarjaaType::Custom(m) => n@ == m@,
                _ => false,
            },
            _ => false,
        }
    }
}

/// The Arabic rendering of a type.
pub open spec fn type_text(t: MarjaaType) -> Seq<char>
    decreases t, 0nat,
{
    match t {
        MarjaaType::Number => "رقم"@,
        MarjaaType::String => "نص"@,
        MarjaaType::Boolean => "منطقي"@,
        MarjaaType::List(inner) => "قائمة["@ + type_text(*inner) + "]"@,
        MarjaaType::Dict(k, v) => "قاموس["@ + type_text(*k) + ": "@ + type_text(*v) + "]"@,
        MarjaaType::Null => "لا_شيء"@,
        MarjaaType::Any => "أي"@,
        MarjaaType::Custom(name) => name@,
        MarjaaType::Function(params, ret) => "دالة("@ + params_text(params@, params@.len()) + ") -> "@
            + type_text(*ret),
        MarjaaType::Object(fields) => "كائن{"@ + fields_text(fields@, fields@.len()) + "}"@,
    }
}

/// The first `k` parameter types, separated by an Arabic comma.
pub open spec fn params_text(ps: Seq<MarjaaType>, k: nat) -> Seq<char>
    decreases ps, k,
{
    if k == 0 || k > ps.len() {
        Seq::empty()
    } else if k == 1 {
        type_text(ps[0])
    } else {
        params_text(ps, (k - 1) as nat) + "، "@ + type_text(ps[k - 1])
    }
}

/// The first `k` fields as `name: type`, separated by an Arabic comma.
pub open spec fn fields_text(fs: Seq<(String, MarjaaType)>, k: nat) -> Seq<char>
    decreases fs, k,
{
    if k == 0 || k > fs.len() {
        Seq::empty()
    } else if k == 1 {
        fs[0].0@ + ": "@ + type_text(fs[0].1)
    } else {
        fields_text(fs, (k - 1) as nat) + "، "@ + fs[k - 1].0@ + ": "@ + type_text(fs[k - 1].1)
    }
}

/// The built-in type named by a (trimmed) text: the Arabic and English
/// names of the simple types, lists and dictionaries; `None` for any other
/// name, which stands for a custom type.
pub open spec fn builtin_type(s: Seq<char>) -> Option<MarjaaType> {
    if s == "رقم"@ || s == "عدد"@ || s == "number"@ || s == "float"@ || s == "f64"@ {
        Some(MarjaaType::Number)
    } else if s == "نص"@ || s == "string"@ || s == "str"@ {
        Some(MarjaaType::String)
    } else if s == "منطقي"@ || s == "bool"@ || s == "boolean"@ {
        Some(MarjaaType::Boolean)
    } else if s == "قائمة"@ || s == "list"@ || s == "array"@ {
        Some(MarjaaType::List(Box::new(MarjaaType::Any)))
    } else if s == "قاموس"@ || s == "dict"@ || s == "map"@ {
        Some(MarjaaType::Dict(Box::new(MarjaaType::String), Box::new(MarjaaType::Any)))
    } else if s == "لا_شيء"@ || s == "null"@ || s == "void"@ {
        Some(MarjaaType::Null)
    } else if s == "أي"@ || s == "any"@ {
        Some(MarjaaType::Any)
    } else {
        None
    }
}

/// The type a text names: a built-in type, or else a custom type named by
/// the trimmed text.
pub open spec fn names_type(s: Seq<char>, t: MarjaaType) -> bool {
    match builtin_type(trimmed(s)) {
        Some(b) => t == b,
        None => t matches MarjaaType::Custom(n) && n@ == trimmed(s),
    }
}

/// نظام الأنواع
pub struct TypeSystem {
    types: Vec<(String, MachineType)>,
}

impl TypeSystem {
    #[verifier::type_invariant]
    spec fn registered(self) -> bool {
        &&& self.types@.len() == 3
        &&& self.types@[0].0@ == "رقم"@ && self.types@[0].1 == MachineType::F64
        &&& self.types@[1].0@ == "منطقي"@ && self.types@[1].1 == MachineType::I8
        &&& self.types@[2].0@ == "نص"@ && self.types@[2].1 == MachineType::I64
    }

    /// إنشاء نظام أنواع جديد
    pub fn new() -> (r: Self) {
        let mut types: Vec<(String, MachineType)> = Vec::new();
        types.push((String::from_str("رقم"), MachineType::F64));
        types.push((String::from_str("منطقي"), MachineType::I8));
        types.push((String::from_str("نص"), MachineType::I64));
        TypeSystem { types }
    }

    fn lookup(&self, name: &str) -> (r: Option<MachineType>)
        ensures
            r == registered_type(name@),
    {
        proof {
            use_type_invariant(self);
            reveal_strlit("رقم");
            reveal_strlit("منطقي");
            reveal_strlit("نص");
        }
        let mut i: usize = 0;
        while i < self.types.len()
            invariant
                i <= self.types@.len(),
                self.types@.len() == 3,
                self.types@[0].0@ == "رقم"@ && self.types@[0].1 == MachineType::F64,
                self.types@[1].0@ == "منطقي"@ && self.types@[1].1 == MachineType::I8,
                self.types@[2].0@ == "نص"@ && self.types@[2].1 == MachineType::I64,
                forall|k: int| 0 <= k < i ==> self.types@[k].0@ != name@,
            decreases self.types@.len() - i,
        {
            if str_eq(self.types[i].0.as_str(), name) {
                return Some(self.types[i].1);
            }
            i = i + 1;
        }
        None
    }

    /// الحصول على نوع الآلة من نوع المرجع
    pub fn get_cranelift_type(&self, marjaa_type: &MarjaaType) -> (r: MachineType)
        ensures
            r == machine_type_of(*marjaa_type),
    {
        match marjaa_type {
            MarjaaType::Number => MachineType::F64,
            MarjaaType::Boolean => MachineType::I8,
            MarjaaType::String => MachineType::I64,
            MarjaaType::Null => MachineType::F64,
            MarjaaType::Any => MachineType::F64,
            MarjaaType::List(_) => MachineType::I64,
            MarjaaType::Dict(_, _) => MachineType::I64,
            MarjaaType::Custom(name) => match self.lookup(name.as_str()) {
                Some(m) => m,
                None => MachineType::F64,
            },
            MarjaaType::Function(_, _) => MachineType::I64,
            MarjaaType::Object(_) => MachineType::I64,
        }
    }

    /// تحويل نوع المرجع من سلسلة نصية
    pub fn parse_type(&self, type_str: &str) -> (r: MarjaaType)
        ensures
            names_type(type_str@, r),
    {
        let t = trim(type_str);
        let s = t.as_str();
        if str_eq(s, "رقم") || str_eq(s, "عدد") || str_eq(s, "number") || str_eq(s, "float") || str_eq(s, "f64") {
            MarjaaType::Number
        } else if str_eq(s, "نص") || str_eq(s, "string") || str_eq(s, "str") {
            MarjaaType::String
        } else if str_eq(s, "منطقي") || str_eq(s, "bool") || str_eq(s, "boolean") {
            MarjaaType::Boolean
        } else if str_eq(s, "قائمة") || str_eq(s, "list") || str_eq(s, "array") {
            MarjaaType::List(Box::new(MarjaaType::Any))
        } else if str_eq(s, "قاموس") || str_eq(s, "dict") || str_eq(s, "map") {
            MarjaaType::Dict(Box::new(MarjaaType::String), Box::new(MarjaaType::Any))
        } else if str_eq(s, "لا_شيء") || str_eq(s, "null") || str_eq(s, "void") {
            MarjaaType::Null
        } else if str_eq(s, "أي") || str_eq(s, "any") {
            MarjaaType::Any
        } else {
            MarjaaType::Custom(t)
        }
    }

    /// التحقق من توافق الأنواع
    pub fn are_types_compatible(&self, expected: &MarjaaType, actual: &MarjaaType) -> (r: bool)
        ensures
            r == compatible(*expected, *actual),
        decreases expected,
    {
        if matches!(expected, MarjaaType::Any) || matches!(actual, MarjaaType::Any) {
            return true;
        }
        match expected {
            MarjaaType::Number => matches!(actual, MarjaaType::Number),
            MarjaaType::String => matches!(actual, MarjaaType::String),
            MarjaaType::Boolean => matches!(actual, MarjaaType::Boolean),
            MarjaaType::Null => matches!(actual, MarjaaType::Null),
            MarjaaType::List(e1) => match actual {
                MarjaaType::List(a1) => self.are_types_compatible(e1, a1),
                _ => false,
            },
            MarjaaType::Dict(ek, ev) => match actual {
                MarjaaType::Dict(ak, av) => self.are_types_compatible(ek, ak)
                    && self.are_types_compatible(ev, av),
                _ => false,
            },
            MarjaaType::Custom(e) => match actual {
                MarjaaType::Custom(a) => str_eq(e.as_str(), a.as_str()),
                _ => false,
            },
            _ => false,
        }
    }

    /// تحويل نوع المرجع إلى سلسلة نصية
    pub fn type_to_string(&self, marjaa_type: &MarjaaType) -> (r: String)
        ensures
            r@ == type_text(*marjaa_type),
        decreases marjaa_type, 1nat,
    {
        match marjaa_type {
            MarjaaType::Number => String::from_str("رقم"),
            MarjaaType::String => String::from_str("نص"),
            MarjaaType::Boolean => String::from_str("منطقي"),
            MarjaaType::List(inner) => {
                let mut s = String::from_str("قائمة[");
                s.append(self.type_to_string(inner).as_str());
                s.append("]");
                s
            },
            MarjaaType::Dict(key, val) => {
                let mut s = String::from_str("قاموس[");
                s.append(self.type_to_string(key).as_str());
                s.append(": ");
                s.append(self.type_to_string(val).as_str());
                s.append("]");
                s
            },
            MarjaaType::Null => String::from_str("لا_شيء"),
            MarjaaType::Any => String::from_str("أي"),
            MarjaaType::Custom(name) => name.clone(),
            MarjaaType::Function(params, ret) => {
                let mut s = String::from_str("دالة(");
                s.append(self.params_to_string(params).as_str());
                s.append(") -> ");
                s.append(self.type_to_string(ret).as_str());
                s
            },
            MarjaaType::Object(fields) => {
                let mut s = String::from_str("كائن{");
                s.append(self.fields_to_string(fields).as_str());
                s.append("}");
                s
            },
        }
    }

    fn params_to_string(&self, params: &Vec<MarjaaType>) -> (r: String)
        ensures
            r@ == params_text(params@, params@.len()),
        decreases params@, 0nat,
    {
        let mut out = String::new();
        let n = params.len();
        let mut i: usize = 0;
        while i < n
            invariant
                n == params@.len(),
                i <= n,
                out@ == params_text(params@, i as nat),
            decreases n - i,
        {
            if i > 0 {
                out.append("، ");
            }
            out.append(self.type_to_string(&params[i]).as_str());
            i = i + 1;
        }
        out
    }

    fn fields_to_string(&self, fields: &Vec<(String, MarjaaType)>) -> (r: String)
        ensures
            r@ == fields_text(fields@, fields@.len()),
        decreases fields@, 0nat,
    {
        let mut out = String::new();
        let n = fields.len();
        let mut i: usize = 0;
        while i < n
            invariant
                n == fields@.len(),
                i <= n,
                out@ == fields_text(fields@, i as nat),
            decreases n - i,
        {
            if i > 0 {
                out.append("، ");
            }
            out.append(fields[i].0.as_str());
            out.append(": ");
            out.append(self.type_to_string(&fields[i].1).as_str());
            i = i + 1;
        }
        out
    }
}

impl Default for TypeSystem {
    fn default() -> (r: Self) {
        Self::new()
    }
}

/// Compatibility is reflexive for every type built from the simple types,
/// lists and dictionaries.
pub proof fn law_compatible_reflexive(t: MarjaaType)
    requires
        simple_structure(t),
    ensures
        compatible(t, t),
    decreases t,
{
    match t {
        MarjaaType::List(e) => law_compatible_reflexive(*e),
        MarjaaType::Dict(k, v) => {
            law_compatible_reflexive(*k);
            law_compatible_reflexive(*v);
        },
        _ => {},
    }
}

/// Dictionary types are compatible exactly when their key types are and
/// their value types are; list types exactly when their element types are.
/// So a dictionary of numbers is not compatible with one of texts.
pub proof fn law_compatible_by_parts(k: MarjaaType, v: MarjaaType, k2: MarjaaType, v2: MarjaaType)
    ensures
        compatible(
            MarjaaType::Dict(Box::new(k), Box::new(v)),
            MarjaaType::Dict(Box::new(k2), Box::new(v2)),
        ) == (compatible(k, k2) && compatible(v, v2)),
        compatible(MarjaaType::List(Box::new(v)), MarjaaType::List(Box::new(v2))) == compatible(v, v2),
        !compatible(MarjaaType::Number, MarjaaType::String),
        !compatible(
            MarjaaType::Dict(Box::new(k), Box::new(MarjaaType::Number)),
            MarjaaType::Dict(Box::new(k2), Box::new(MarjaaType::String)),
        ),
{
    assert(!compatible(MarjaaType::Number, MarjaaType::String));
    assert(!(compatible(k, k2) && compatible(MarjaaType::Number, MarjaaType::String)));
}

/// Compatibility is symmetric.
pub proof fn law_compatible_symmetric(e: MarjaaType, a: MarjaaType)
    ensures
        compatible(e, a) == compatible(a, e),
    decreases e,
{
    match (e, a) {
        (MarjaaType::List(e1), MarjaaType::List(a1)) => law_compatible_symmetric(*e1, *a1),
        (MarjaaType::Dict(ek, ev), MarjaaType::Dict(ak, av)) => {
            law_compatible_symmetric(*ek, *ak);
            law_compatible_symmetric(*ev, *av);
        },
        _ => {},
    }
}

/// A type made only of the simple types, custom names, lists and
/// dictionaries.
pub open spec fn simple_structure(t: MarjaaType) -> bool
    decreases t,
{
    match t {
        MarjaaType::List(e) => simple_structure(*e),
        MarjaaType::Dict(k, v) => simple_structure(*k) && simple_structure(*v),
        MarjaaType::Function(_, _) => false,
        MarjaaType::Object(_) => false,
        _ => true,
    }
}

/// Parsing the rendering of a simple type gives the type back.
pub proof fn law_parse_renders(t: MarjaaType)
    requires
        t is Number || t is String || t is Boolean || t is Null || t is Any,
    ensures
        builtin_type(type_text(t)) == Some(t),
{
    reveal_strlit("رقم");
    reveal_strlit("نص");
    reveal_strlit("منطقي");
    reveal_strlit("لا_شيء");
    reveal_strlit("أي");
    reveal_strlit("عدد");
    reveal_strlit("number");
    reveal_strlit("float");
    reveal_strlit("f64");
    reveal_strlit("string");
    reveal_strlit("str");
    reveal_strlit("bool");
    reveal_strlit("boolean");
    reveal_strlit("قائمة");
    reveal_strlit("list");
    reveal_strlit("array");
    reveal_strlit("قاموس");
    reveal_strlit("dict");
    reveal_strlit("map");
    reveal_strlit("null");
    reveal_strlit("void");
    reveal_strlit("any");
    if t is Number {
        assert(type_text(t) == "رقم"@);
        assert(builtin_type("رقم"@) == Some(MarjaaType::Number));
    } else if t is String {
        assert(type_text(t) == "نص"@);
        assert(builtin_type("نص"@) == Some(MarjaaType::String));
        assert("نص"@ != "رقم"@);
    } else if t is Boolean {
        assert(type_text(t) == "منطقي"@);
        assert("منطقي"@[0] != "float"@[0]);
        assert(builtin_type("منطقي"@) == Some(MarjaaType::Boolean));
    } else if t is Null {
        assert(type_text(t) == "لا_شيء"@);
        assert("لا_شيء"@[0] != "number"@[0]);
        assert("لا_شيء"@[0] != "string"@[0]);
        assert(builtin_type("لا_شيء"@) == Some(MarjaaType::Null));
    } else {
        assert(type_text(t) == "أي"@);
        assert("أي"@[0] != "نص"@[0]);
        assert(builtin_type("أي"@) == Some(MarjaaType::Any));
    }
}

} // verus!
