use ritual::cpp_data::{
    CppEnumValue, CppFunction, CppFunctionArgument, CppItemData, CppTypeData, CppTypeDataKind,
};
use ritual::cpp_type::{
    CppBuiltInNumericType, CppClassType, CppFunctionPointerType, CppPath, CppType,
};
use ritual::database::{Config, Database, DatabaseItem, DatabaseItemSource, ProcessorData};
use ritual::errors::{Error, UnresolvedReason};
use ritual::rust_info::{RustItemKind, RustModule, RustModuleDoc, RustModuleKind};
use ritual::rust_name_resolver::{
    check_type, check_types, has_type, is_cpp_item_resolvable, run, rust_name_resolver_step,
    SkippedItem,
};
use ritual::rust_type::RustPath;

const CLASS_NOT_FOUND: Error = Error::UnresolvedReference(UnresolvedReason::ClassNotFound);
const ENUM_NOT_FOUND: Error = Error::UnresolvedReference(UnresolvedReason::EnumNotFound);
const TEMPLATE_PARAMETER: Error = Error::UnresolvedReference(UnresolvedReason::TemplateParameter);

fn path(text: &str) -> CppPath {
    CppPath::from_str_unchecked(text)
}

fn class(name: &str) -> CppType {
    CppType::Class(CppClassType { path: path(name), template_arguments: None })
}

fn template(name: &str, arguments: Vec<CppType>) -> CppType {
    CppType::Class(CppClassType { path: path(name), template_arguments: Some(arguments) })
}

fn enumeration(name: &str) -> CppType {
    CppType::Enum { path: path(name) }
}

fn parameter() -> CppType {
    CppType::TemplateParameter { nested_level: 0, index: 0, name: "T".to_string() }
}

fn item(cpp_data: CppItemData) -> DatabaseItem {
    DatabaseItem { cpp_data, source: DatabaseItemSource::ImplicitDestructor, ffi_items: None, rust_item: None }
}

fn declaration(name: &str, kind: CppTypeDataKind) -> DatabaseItem {
    item(CppItemData::Type(CppTypeData { path: path(name), kind, doc: None, is_movable: false }))
}

fn function(name: &str, arguments: Vec<CppType>, return_type: CppType) -> DatabaseItem {
    item(CppItemData::Function(CppFunction {
        path: path(name),
        member: None,
        operator: None,
        return_type,
        arguments: arguments
            .into_iter()
            .enumerate()
            .map(|(i, argument_type)| CppFunctionArgument {
                name: format!("arg{}", i),
                argument_type,
                has_default_value: false,
            })
            .collect(),
        allows_variadic_arguments: false,
        declaration_code: None,
        doc: None,
    }))
}

#[test]
fn it_should_check_functions() {
    let func = CppFunction {
        path: CppPath::from_str_unchecked("foo"),
        member: None,
        operator: None,
        return_type: CppType::Void,
        arguments: vec![],
        allows_variadic_arguments: false,
        declaration_code: None,
        doc: None,
    };
    let func_item = DatabaseItem {
        cpp_data: CppItemData::Function(func.clone()),
        source: DatabaseItemSource::ImplicitDestructor,
        ffi_items: None,
        rust_item: None,
    };

    let func2_item = DatabaseItem {
        cpp_data: CppItemData::Function(CppFunction {
            arguments: vec![CppFunctionArgument {
                name: "a".to_string(),
                argument_type: CppType::Class(CppClassType {
                    path: CppPath::from_str_unchecked("C1"),
                    template_arguments: None,
                }),
                has_default_value: false,
            }],
            ..func
        }),
        source: DatabaseItemSource::ImplicitDestructor,
        ffi_items: None,
        rust_item: None,
    };
    let all_items = &[&func_item, &func2_item];
    assert!(is_cpp_item_resolvable(all_items, &func_item.cpp_data).is_ok());
    assert!(is_cpp_item_resolvable(all_items, &func2_item.cpp_data).is_err());

    let class_item = DatabaseItem {
        cpp_data: CppItemData::Type(CppTypeData {
            path: CppPath::from_str_unchecked("C1"),
            kind: CppTypeDataKind::Class,
            doc: None,
            is_movable: false,
        }),
        source: DatabaseItemSource::ImplicitDestructor,
        ffi_items: None,
        rust_item: None,
    };
    let all_items = &[&func_item, &func2_item, &class_item];
    assert!(is_cpp_item_resolvable(all_items, &func_item.cpp_data).is_ok());
    assert!(is_cpp_item_resolvable(all_items, &func2_item.cpp_data).is_ok());
}

#[test]
fn resolver_step_is_named() {
    let step = rust_name_resolver_step();
    assert_eq!(step.name, "rust_name_resolver");
    assert_eq!(step.dependencies, vec!["cpp_checker".to_string()]);
}

#[test]
fn types_are_checked_against_the_declarations() {
    let c = declaration("C", CppTypeDataKind::Class);
    let e = declaration("N::E", CppTypeDataKind::Enum);
    let f = function("f", vec![], CppType::Void);
    let items = [&f, &c, &e];
    let check = |t: &CppType| check_type(&items, t);
    assert_eq!(check(&CppType::Void), Ok(()));
    assert_eq!(check(&CppType::BuiltInNumeric(CppBuiltInNumericType::Bool)), Ok(()));
    assert_eq!(check(&class("C")), Ok(()));
    assert_eq!(check(&class("D")), Err(CLASS_NOT_FOUND));
    // The kind has to fit.
    assert_eq!(check(&class("N::E")), Err(CLASS_NOT_FOUND));
    assert_eq!(check(&enumeration("N::E")), Ok(()));
    assert_eq!(check(&enumeration("C")), Err(ENUM_NOT_FOUND));
    assert_eq!(check(&enumeration("E")), Err(ENUM_NOT_FOUND));
    assert_eq!(check(&parameter()), Err(TEMPLATE_PARAMETER));
    assert_eq!(check(&CppType::new_pointer(true, class("C"))), Ok(()));
    assert_eq!(check(&CppType::new_reference(true, CppType::new_pointer(false, class("D")))), Err(CLASS_NOT_FOUND));
    assert_eq!(check(&CppType::new_pointer(true, parameter())), Err(TEMPLATE_PARAMETER));
    // Template arguments have to be concrete; whether they are declared is not looked at.
    assert_eq!(check(&template("C", vec![class("D"), enumeration("X")])), Ok(()));
    assert_eq!(check(&template("C", vec![class("C"), parameter()])), Err(TEMPLATE_PARAMETER));
    assert_eq!(
        check(&template("C", vec![template("D", vec![CppType::new_pointer(false, parameter())])])),
        Err(TEMPLATE_PARAMETER)
    );
    assert_eq!(check(&template("D", vec![parameter()])), Err(CLASS_NOT_FOUND));
    let pointer = |return_type: CppType, arguments: Vec<CppType>| {
        CppType::FunctionPointer(CppFunctionPointerType {
            return_type: Box::new(return_type),
            arguments,
            allows_variadic_arguments: false,
        })
    };
    assert_eq!(check(&pointer(class("C"), vec![enumeration("N::E"), CppType::Void])), Ok(()));
    assert_eq!(check(&pointer(class("D"), vec![parameter()])), Err(CLASS_NOT_FOUND));
    assert_eq!(check(&pointer(class("C"), vec![parameter(), class("D")])), Err(TEMPLATE_PARAMETER));
    assert_eq!(check(&pointer(class("C"), vec![class("C"), enumeration("X"), class("D")])), Err(ENUM_NOT_FOUND));
    assert_eq!(check_types(&items, &vec![]), Ok(()));
    assert_eq!(check_types(&items, &vec![class("C"), class("D"), parameter()]), Err(CLASS_NOT_FOUND));
    assert!(has_type(&items, &path("C"), CppTypeDataKind::Class));
    assert!(!has_type(&items, &path("C"), CppTypeDataKind::Enum));
    assert!(!has_type(&[], &path("C"), CppTypeDataKind::Class));
}

#[test]
fn only_functions_mention_types() {
    let c = declaration("C", CppTypeDataKind::Class);
    let value = item(CppItemData::EnumValue(CppEnumValue { path: path("E::V"), value: 1, doc: None }));
    assert_eq!(is_cpp_item_resolvable(&[], &c.cpp_data), Ok(()));
    assert_eq!(is_cpp_item_resolvable(&[], &value.cpp_data), Ok(()));
    let f = function("f", vec![class("A"), enumeration("B")], parameter());
    assert_eq!(f.cpp_data.all_involved_types(), vec![class("A"), enumeration("B"), parameter()]);
    assert_eq!(c.cpp_data.all_involved_types(), vec![]);
    // The arguments are checked before the return type.
    assert_eq!(is_cpp_item_resolvable(&[], &f.cpp_data), Err(CLASS_NOT_FOUND));
    assert_eq!(is_cpp_item_resolvable(&[&c], &function("g", vec![class("C")], parameter()).cpp_data), Err(TEMPLATE_PARAMETER));
}

#[test]
fn unresolved_items_are_skipped_not_fatal() {
    let mut done = function("done", vec![class("Unknown")], CppType::Void);
    done.rust_item = Some(RustItemKind::Module(RustModule {
        path: RustPath::from_parts(vec!["lib".to_string(), "done".to_string()]),
        doc: RustModuleDoc { extra_doc: None, cpp_path: None },
        kind: RustModuleKind::Normal,
    }));
    let current = vec![
        function("f0", vec![class("Local")], CppType::Void),
        function("f1", vec![class("Unknown")], CppType::Void),
        declaration("Local", CppTypeDataKind::Class),
        done,
        function("f4", vec![class("FromDep")], enumeration("DepEnum")),
        function("f5", vec![class("Local")], parameter()),
        function("f6", vec![enumeration("Local")], CppType::Void),
    ];
    let data = ProcessorData {
        config: Config::new(),
        current_database: Database { crate_name: "lib".to_string(), items: current },
        dep_databases: vec![
            Database { crate_name: "dep1".to_string(), items: vec![declaration("FromDep", CppTypeDataKind::Class)] },
            Database { crate_name: "dep2".to_string(), items: vec![declaration("DepEnum", CppTypeDataKind::Enum)] },
        ],
    };
    assert_eq!(data.all_items().len(), 9);
    assert_eq!(data.all_items()[7], &data.dep_databases[0].items[0]);
    assert_eq!(data.all_items()[8], &data.dep_databases[1].items[0]);
    assert_eq!(
        run(&data),
        vec![
            SkippedItem { index: 1, error: CLASS_NOT_FOUND },
            SkippedItem { index: 5, error: TEMPLATE_PARAMETER },
            SkippedItem { index: 6, error: ENUM_NOT_FOUND },
        ]
    );
    assert!(run(&data).iter().all(|skipped| skipped.error.recoverable()));
    assert!(!Error::MalformedInput.recoverable());
    assert!(!Error::UnsupportedType.recoverable());
    assert!(!Error::PipelineOrderingError.recoverable());
    let empty = ProcessorData {
        config: Config::new(),
        current_database: Database::empty("lib".to_string()),
        dep_databases: vec![],
    };
    assert_eq!(run(&empty), vec![]);
}

#[test]
fn declarations_are_appended_to_the_database() {
    let mut database = Database::empty("lib".to_string());
    let c = declaration("C", CppTypeDataKind::Class);
    database.add_cpp_data(DatabaseItemSource::ImplicitDestructor, c.cpp_data.clone());
    database.add_cpp_data(
        DatabaseItemSource::CppParser { include_file: "c.h".to_string() },
        function("f", vec![], CppType::Void).cpp_data,
    );
    assert_eq!(database.cpp_items().len(), 2);
    assert_eq!(database.items[0], c);
    assert_eq!(database.items[1].source, DatabaseItemSource::CppParser { include_file: "c.h".to_string() });
    assert!(database.items[1].ffi_items.is_none() && database.items[1].rust_item.is_none());
    assert!(database.items[0].cpp_data.as_type_ref().is_some());
    assert!(database.items[0].cpp_data.as_function_ref().is_none());
    assert!(database.items[1].cpp_data.as_function_ref().is_some());
}
