use almarjaa::assoc::AssocList;
use almarjaa::modules::module_loader::{json_quote, BuiltinFunction, LoadError, LoadStep, LoadedModule, ModuleLoader};
use almarjaa::modules::module_system::{
    ExportKind, LoadStart, Module, ModuleError, ModuleId, ModuleManager,
};
use almarjaa::modules::package_manager::{PackageError, PackageManager, PackageManifest};

type TestModule = Module<f64, Vec<u8>>;

/// Names each built-in function by its debug text.
fn named(f: BuiltinFunction) -> String {
    format!("{:?}", f)
}

fn number(_: BuiltinFunction) -> i32 {
    0
}

#[test]
fn test_module_loader_creation() {
    let loader: ModuleLoader<String> = ModuleLoader::new(None, None, named);
    assert!(loader.is_builtin("json"));
    assert!(loader.is_builtin("math"));
}

#[test]
fn builtin_modules_at_creation() {
    let mut loader: ModuleLoader<String> = ModuleLoader::new(None, None, named);
    for m in ["datetime", "regex", "file"] {
        assert!(loader.is_builtin(m));
    }
    assert!(!loader.is_builtin("util"));
    assert!(loader.loaded_modules().is_empty());
    assert_eq!(loader.stats().modules_loaded, 0);
    let math = match loader.begin_load("math") {
        LoadStep::Builtin(m) => m,
        _ => panic!("expected the built-in module"),
    };
    assert_eq!(math.get_export("PI"), Some("MathPi".to_string()));
    assert_eq!(math.get_export("random"), Some("MathRandom".to_string()));
    assert_eq!(math.get_export("عشوائي"), Some("MathRandom".to_string()));
    assert_eq!(math.get_all_exports().len(), 5);
}

#[test]
fn test_load_builtin_json() {
    let mut loader: ModuleLoader<String> = ModuleLoader::new(None, None, named);
    let result = loader.begin_load("json");
    let module = match result {
        LoadStep::Builtin(m) => m,
        _ => panic!("expected the built-in module"),
    };
    assert!(module.exports.contains_key("تشفير"));
    assert!(module.exports.contains_key("فك_التشفير"));
}

#[test]
fn test_json_encode() {
    assert_eq!(json_quote("مرحبا"), "\"مرحبا\"");
}

#[test]
fn json_encode_escapes() {
    assert_eq!(json_quote("a\"b\\c\nd\te\r"), "\"a\\\"b\\\\c\\nd\\te\\r\"");
}

#[test]
fn test_module_id_creation() {
    let id = ModuleId::new("math", "1.0.0", "modules/math.mrj");
    assert_eq!(id.name, "math");
    assert_eq!(id.version, "1.0.0");
}

#[test]
fn module_id_from_path() {
    assert_eq!(ModuleId::from_path("").name, "unknown");
    let id = ModuleId::from_path("modules/math.mrj");
    assert_eq!(id.name, "math");
    assert_eq!(id.version, "0.0.0");
    assert_eq!(id.path, "modules/math.mrj");
    assert_eq!(ModuleId::from_stem(None, "..").name, "unknown");
}

#[test]
fn test_module_creation() {
    let id = ModuleId::new("test", "0.0.0", "test.mrj");
    let module: TestModule = Module::new(id);
    assert!(module.exports.is_empty());
    assert!(!module.loaded);
}

#[test]
fn test_module_exports() {
    let id = ModuleId::new("test", "0.0.0", "test.mrj");
    let mut module: TestModule = Module::new(id);
    module.add_export("pi", ExportKind::Constant { name: "pi".to_string(), value: 3.14159 }, false);
    assert!(module.get_export("pi").is_some());
    assert_eq!(module.exports.len(), 1);
}

#[test]
fn default_export_found_by_name() {
    let mut module: TestModule = Module::new(ModuleId::new("m", "0.0.0", "m.mrj"));
    assert!(module.get_default_export().is_none());
    module.add_export("a", ExportKind::Value { name: "a".to_string(), value: 1.0 }, false);
    module.add_export("b", ExportKind::Value { name: "b".to_string(), value: 2.0 }, true);
    assert!(matches!(module.get_default_export(), Some(ExportKind::Value { value, .. }) if *value == 2.0));
    assert_eq!(module.export_names(), vec!["a".to_string(), "b".to_string()]);
}

#[test]
fn test_module_manager_creation() {
    let manager: ModuleManager<f64, Vec<u8>> = ModuleManager::new();
    assert_eq!(manager.stats().modules_loaded, 0);
    assert!(manager.loaded_modules().is_empty());
}

#[test]
fn test_circular_dependency_detection() {
    let mut manager: ModuleManager<f64, Vec<u8>> = ModuleManager::new();
    assert!(matches!(manager.begin_load("a"), LoadStart::Proceed));
    assert!(matches!(manager.begin_load("b"), LoadStart::Proceed));
    let result = manager.begin_load("a");
    assert!(matches!(result, LoadStart::Circular(ModuleError::CircularDependency { .. })));
    assert_eq!(manager.stats().circular_dependencies_caught, 1);
}

#[test]
fn loaded_module_is_a_cache_hit() {
    let mut manager: ModuleManager<f64, Vec<u8>> = ModuleManager::new();
    assert!(matches!(manager.begin_load("m"), LoadStart::Proceed));
    manager.finish_load("m", Module::new(ModuleId::new("m", "0.0.0", "m.mrj")), 3);
    assert!(matches!(manager.begin_load("m"), LoadStart::Cached));
    assert_eq!(manager.stats().cache_hits, 1);
    assert_eq!(manager.stats().modules_loaded, 1);
    assert_eq!(manager.loaded_modules(), vec!["m".to_string()]);
    manager.clear_cache();
    assert!(manager.get_module("m").is_some());
}

#[test]
fn resolution_order_tries_each_directory() {
    let mut manager: ModuleManager<f64, Vec<u8>> = ModuleManager::new();
    manager.add_search_path("extra");
    let order = manager.resolution_order("a.b");
    assert_eq!(order.len(), 12);
    assert_eq!(order[0], (".".to_string(), "a.b.mrj".to_string()));
    assert_eq!(order[1], (".".to_string(), "a/b.mrj".to_string()));
    assert_eq!(order[2], (".".to_string(), "mod.mrj".to_string()));
    assert_eq!(order[9], ("extra".to_string(), "a.b.mrj".to_string()));
}

#[test]
fn module_error_messages() {
    let e = ModuleError::CircularDependency { module: "a".to_string(), chain: vec!["a".to_string(), "b".to_string()] };
    assert_eq!(e.to_display_string(), "تبعية دائرية: a -> b -> a");
    let e = ModuleError::ParseError { file: "f.mrj".to_string(), message: "x".to_string(), line: 12 };
    assert_eq!(e.to_display_string(), "خطأ في تحليل 'f.mrj' السطر 12: x");
}

#[test]
fn loader_file_modules_and_errors() {
    let mut loader: ModuleLoader<i32> = ModuleLoader::new(Some("/opt/bin"), Some("/std"), number);
    assert!(matches!(loader.begin_load("util"), LoadStep::FromFile));
    loader.enter_module("util");
    let mut exports = AssocList::new();
    exports.insert("x".to_string(), 5);
    let loaded = loader.finish_module("util", "./util.mrj", Ok(exports)).unwrap();
    assert_eq!(loaded.path, "./util.mrj");
    assert_eq!(loader.get_export("util", "x"), Some(5));
    assert!(matches!(loader.begin_load("util"), LoadStep::Cached(_)));
    assert!(matches!(loader.begin_load("bad"), LoadStep::FromFile));
    loader.enter_module("bad");
    let failed = loader.finish_module("bad", "bad.mrj", Err(LoadError::RuntimeError("x".to_string())));
    assert!(failed.is_err());
    assert_eq!(loader.stats().load_errors, 1);
    assert_eq!(loader.stats().modules_loaded, 1);
    let order = loader.resolution_order("m");
    assert_eq!(order[3], (".".to_string(), "libm.mrj".to_string()));
}

#[test]
fn loaded_module_exports() {
    let mut m: LoadedModule<i32> = LoadedModule::new("m", "m.mrj");
    m.add_export("a", 1, true);
    assert_eq!(m.get_export("a"), Some(1));
    assert_eq!(m.default_export, Some("a".to_string()));
    assert_eq!(m.get_all_exports().len(), 1);
}

#[test]
fn test_package_manifest_creation() {
    let manifest = PackageManifest::new("test-package", "1.0.0");
    assert_eq!(manifest.name, "test-package");
    assert_eq!(manifest.version, "1.0.0");
    assert_eq!(manifest.main, "main.mrj");
}

#[test]
fn test_package_manifest_dependencies() {
    let mut manifest = PackageManifest::new("test", "1.0.0");
    manifest.add_dependency("dep1", "1.0");
    manifest.add_dependency("dep2", "2.0");
    assert_eq!(manifest.dependencies.len(), 2);
    assert_eq!(manifest.dependencies.get("dep1"), Some(&"1.0".to_string()));
}

#[test]
fn test_package_manager_stats() {
    let manager = PackageManager::new(".");
    assert_eq!(manager.stats().packages_installed, 0);
    assert!(manager.list_installed().is_empty());
}

#[test]
fn package_install_and_remove_are_recorded() {
    let mut manager = PackageManager::new("proj");
    manager.record_init("demo");
    let version = manager.install("lib1", None, 100);
    assert_eq!(version, "*");
    assert_eq!(manager.list_installed(), vec!["lib1".to_string()]);
    assert_eq!(manager.info("lib1").map(|p| p.installed_at), Some(100));
    assert!(manager.info("lib1").map(|p| p.install_path.ends_with("lib1")).unwrap_or(false));
    assert_eq!(manager.manifest().unwrap().dependencies.get("lib1"), Some(&"*".to_string()));
    let updates = manager.check_updates();
    assert_eq!(updates, vec![("lib1".to_string(), "1.0.0".to_string(), "0.0.0".to_string())]);
    manager.remove("lib1");
    assert!(manager.info("lib1").is_none());
    assert_eq!(manager.manifest().unwrap().dependencies.len(), 0);
    assert_eq!(manager.stats().packages_installed, 1);
    assert_eq!(manager.stats().packages_removed, 1);
    let found = manager.search("http");
    assert_eq!(found[0].name, "http-example");
}

#[test]
fn install_all_and_update_all_follow_the_manifest() {
    let mut manager = PackageManager::new("proj");
    let mut manifest = PackageManifest::new("app", "0.1.0");
    manifest.add_dependency("a", "1.2");
    manifest.add_dependency("b", "3.0");
    manager.load_manifest(manifest);
    manager.install_all(7);
    assert_eq!(manager.stats().packages_installed, 2);
    assert_eq!(manager.list_installed(), vec!["a".to_string(), "b".to_string()]);
    assert_eq!(manager.manifest().unwrap().dependencies.get("a"), Some(&"1.2".to_string()));
    manager.update_all(9);
    assert_eq!(manager.stats().packages_updated, 2);
    assert_eq!(manager.stats().packages_removed, 2);
    assert_eq!(manager.manifest().unwrap().dependencies.get("b"), Some(&"*".to_string()));
    assert_eq!(manager.info("a").map(|p| p.installed_at), Some(9));
}

#[test]
fn package_error_messages() {
    let e = PackageError::VersionConflict {
        package: "p".to_string(),
        required: "1".to_string(),
        found: "2".to_string(),
    };
    assert_eq!(e.to_display_string(), "تعارض إصدارات في 'p': مطلوب 1، موجود 2");
}

#[test]
fn loader_search_paths_added_once() {
    let mut loader: ModuleLoader<i32> = ModuleLoader::new(None, None, number);
    let before = loader.resolution_order("m").len();
    loader.add_search_path("vendor");
    assert_eq!(loader.resolution_order("m").len(), before + 4);
    loader.add_search_path("vendor");
    assert_eq!(loader.resolution_order("m").len(), before + 4);
    loader.add_search_path("modules");
    assert_eq!(loader.resolution_order("m").len(), before + 4);
    assert_eq!(loader.resolution_order("m")[before].0, "vendor");
}
