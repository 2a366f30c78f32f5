use almarjaa::bytecode::ffi::{CallTarget, CallbackManager, FfiFunction, FfiLibrary, FfiManager, FfiSignature, FfiType};

type Native = fn(&[f64]) -> f64;

fn double_first(args: &[f64]) -> f64 {
    match args.first() {
        Some(n) => n * 2.0,
        None => 0.0,
    }
}

#[test]
fn test_callback_manager() {
    let mut manager: CallbackManager<Native> = CallbackManager::new();
    let id = manager.register(double_first);
    let result = manager.call(id, &[5.0]);
    assert_eq!(result, Some(10.0));
    manager.unregister(id);
    assert_eq!(manager.count(), 0);
}

#[test]
fn test_ffi_type_sizes() {
    assert_eq!(FfiType::Int32.size(), 4);
    assert_eq!(FfiType::Int64.size(), 8);
    assert_eq!(FfiType::Float64.size(), 8);
    assert_eq!(FfiType::Void.size(), 0);
}

#[test]
fn test_ffi_signature() {
    let sig = FfiSignature::new("جمع", FfiType::Float64, vec![FfiType::Float64, FfiType::Float64]);
    assert_eq!(sig.name, "جمع");
    assert_eq!(sig.param_types.len(), 2);
    assert!(!sig.is_variadic);
}

#[test]
fn test_ffi_library() {
    let mut lib = FfiLibrary::new("test", "/path/to/lib.so");
    let func = FfiFunction {
        name: "test_func".to_string(),
        signature: FfiSignature::new("test_func", FfiType::Void, vec![]),
        id: 1,
    };
    lib.add_function(func);
    assert!(lib.get_function("test_func").is_some());
    assert!(lib.get_function("nonexistent").is_none());
}

#[test]
fn ffi_library_replaces_same_name() {
    let mut lib = FfiLibrary::new("m", "/lib/m.so");
    lib.add_function(FfiFunction {
        name: "f".to_string(),
        signature: FfiSignature::new("f", FfiType::Int32, vec![]),
        id: 1,
    });
    lib.add_function(FfiFunction {
        name: "f".to_string(),
        signature: FfiSignature::new("f", FfiType::Int64, vec![]),
        id: 2,
    });
    assert_eq!(lib.get_function("f").map(|f| f.id), Some(2));
}

#[test]
fn callback_ids_count_up() {
    let mut manager: CallbackManager<fn(&[f64]) -> f64> = CallbackManager::new();
    fn zero(_: &[f64]) -> f64 {
        0.0
    }
    let a = manager.register(zero);
    let b = manager.register(zero);
    assert_eq!(a, 1);
    assert_eq!(b, 2);
    assert_eq!(manager.count(), 2);
    assert_eq!(manager.call(7, &[1.0]), None);
}

#[test]
fn ffi_type_names_and_callback_size() {
    assert_eq!(FfiType::Bool.size(), 1);
    assert_eq!(FfiType::Float32.to_string_ar(), "عشري_32");
    let cb = FfiType::Callback(Box::new(FfiSignature::variadic("cb", FfiType::Void, vec![])));
    assert_eq!(cb.size(), 8);
    assert_eq!(cb.to_string_ar(), "دالة");
}

#[test]
fn test_ffi_manager_creation() {
    let manager: FfiManager<Native, Native> = FfiManager::new();
    assert_eq!(manager.stats().libraries_loaded, 0);
}

#[test]
fn test_native_function_registration() {
    let mut manager: FfiManager<Native, Native> = FfiManager::new();
    manager.register_native("مضاعفة", vec!["عدد".to_string()], double_first);
    assert_eq!(manager.resolve_call("", "مضاعفة", 1), Ok(CallTarget::Native));
    assert_eq!(manager.call_native("مضاعفة", &[5.0]), Some(10.0));
    assert_eq!(manager.call_native("غيرها", &[5.0]), None);
    assert_eq!(manager.stats().calls_made, 1);
}

#[test]
fn ffi_manager_libraries() {
    let mut manager: FfiManager<Native, Native> = FfiManager::new();
    assert_eq!(manager.load_library("m", "/lib/m.so"), Ok(()));
    assert_eq!(manager.load_library("m", "/lib/m.so"), Err("المكتبة 'm' محمّلة بالفعل".to_string()));
    assert_eq!(manager.stats().libraries_loaded, 1);
    assert_eq!(manager.list_libraries(), vec!["m".to_string()]);
    let lib = manager.get_library("m").unwrap();
    assert_eq!(lib.path, "/lib/m.so");
    assert!(lib.loaded);
    assert!(lib.functions.is_empty());
    assert!(manager.get_library("x").is_none());
    assert_eq!(manager.close_library("x"), Err("المكتبة 'x' غير موجودة".to_string()));
    assert_eq!(manager.close_library("m"), Ok(()));
    assert!(manager.list_libraries().is_empty());
}

#[test]
fn ffi_manager_define_and_resolve() {
    let mut manager: FfiManager<Native, Native> = FfiManager::new();
    let sig = || FfiSignature::new("جمع", FfiType::Float64, vec![FfiType::Float64, FfiType::Float64]);
    assert_eq!(manager.define_function("m", "جمع", sig()), Err("المكتبة 'm' غير محمّلة".to_string()));
    manager.load_library("m", "/lib/m.so").unwrap();
    assert_eq!(manager.define_function("m", "جمع", sig()), Ok(1));
    assert_eq!(manager.define_function("m", "طباعة", FfiSignature::variadic("طباعة", FfiType::Void, vec![FfiType::String])), Ok(2));
    assert_eq!(manager.resolve_call("m", "جمع", 2), Ok(CallTarget::Foreign(1)));
    assert_eq!(manager.resolve_call("m", "جمع", 3), Err("عدد المعاملات غير صحيح: متوقع 2، وجد 3".to_string()));
    assert_eq!(manager.resolve_call("m", "طباعة", 5), Ok(CallTarget::Foreign(2)));
    assert_eq!(manager.resolve_call("m", "طرح", 2), Err("الدالة 'طرح' غير موجودة في 'm'".to_string()));
    assert_eq!(manager.resolve_call("n", "جمع", 2), Err("المكتبة 'n' غير محمّلة".to_string()));
    assert_eq!(manager.stats().calls_made, 5);
}

#[test]
fn ffi_manager_callbacks() {
    let mut manager: FfiManager<Native, Native> = FfiManager::new();
    let id = manager.register_callback(double_first);
    assert_eq!(id, 1);
    assert_eq!(manager.call_callback(id, &[4.0]), Some(8.0));
    manager.unregister_callback(id);
    assert_eq!(manager.call_callback(id, &[4.0]), None);
    assert_eq!(manager.stats().callbacks_registered, 1);
}
