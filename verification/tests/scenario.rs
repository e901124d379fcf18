use ritual::cpp_data::{
    CppEnumValue, CppFunction, CppFunctionArgument, CppFunctionKind, CppFunctionMemberData,
    CppItemData, CppTypeData, CppTypeDataKind, CppVisibility,
};
use ritual::cpp_ffi_data::{
    CppFfiArgumentMeaning, CppFfiFunction, CppFfiFunctionArgument, CppTypeConversionToFfi,
    CppTypeRole,
};
use ritual::cpp_type::{CppBuiltInNumericType, CppClassType, CppPath, CppType};
use ritual::database::{Config, Database, DatabaseItem, DatabaseItemSource, ProcessorData};
use ritual::processor::{execution_order, ProcessingStep};
use ritual::errors::Error;
use ritual::rust_code_generator::{run, Generator};
use ritual::rust_info::{
    RustDatabase, RustDatabaseItem, RustEnumValue, RustEnumValueDoc, RustFfiWrapperData,
    RustFunction, RustFunctionArgument, RustFunctionKind, RustFunctionScope, RustItemKind,
    RustStruct, RustStructKind, RustWrapperType, RustWrapperTypeDocData, RustWrapperTypeKind,
};
use ritual::rust_name_resolver::{self, rust_name_resolver_step};
use ritual::rust_type::{
    RustFinalType, RustPath, RustPointerLikeTypeKind, RustToFfiTypeConversion, RustType,
};
use ritual::type_allocation_places::{
    set_allocation_places, suggest_allocation_places, AllocationPlace, AllocationPlaceSuggestion,
};

fn cpp_path(text: &str) -> CppPath {
    CppPath::from_str_unchecked(text)
}

fn rust_path(parts: &[&str]) -> RustPath {
    RustPath::from_parts(parts.iter().map(|s| s.to_string()).collect())
}

fn cpp_item(cpp_data: CppItemData) -> DatabaseItem {
    DatabaseItem { cpp_data, source: DatabaseItemSource::ImplicitDestructor, ffi_items: None, rust_item: None }
}

fn class_c() -> CppType {
    CppType::Class(CppClassType { path: cpp_path("C"), template_arguments: None })
}

fn cpp_bool() -> CppType {
    CppType::BuiltInNumeric(CppBuiltInNumericType::Bool)
}

#[test]
fn end_to_end_scenario() {
    // The declarations: an enum with two values, a class, and a method of the
    // class that takes the class by const reference and returns bool.
    let method = CppFunction {
        path: cpp_path("C::same"),
        member: Some(CppFunctionMemberData {
            kind: CppFunctionKind::Regular,
            is_virtual: false,
            is_pure_virtual: false,
            is_const: true,
            is_static: true,
            visibility: CppVisibility::Public,
            is_signal: false,
            is_slot: false,
        }),
        operator: None,
        return_type: cpp_bool(),
        arguments: vec![CppFunctionArgument {
            name: "other".to_string(),
            argument_type: CppType::new_reference(true, class_c()),
            has_default_value: false,
        }],
        allows_variadic_arguments: false,
        declaration_code: None,
        doc: None,
    };
    let declarations = vec![
        cpp_item(CppItemData::Type(CppTypeData {
            path: cpp_path("E"),
            kind: CppTypeDataKind::Enum,
            doc: None,
            is_movable: false,
        })),
        cpp_item(CppItemData::EnumValue(CppEnumValue { path: cpp_path("E::First"), value: 0, doc: None })),
        cpp_item(CppItemData::EnumValue(CppEnumValue { path: cpp_path("E::Second"), value: 1, doc: None })),
        cpp_item(CppItemData::Type(CppTypeData {
            path: cpp_path("C"),
            kind: CppTypeDataKind::Class,
            doc: None,
            is_movable: false,
        })),
        cpp_item(CppItemData::Function(method.clone())),
    ];
    let mut data = ProcessorData {
        config: Config::new(),
        current_database: Database { crate_name: "lib".to_string(), items: declarations },
        dep_databases: vec![],
    };

    // Everything resolves, and the class is never seen behind a pointer.
    assert_eq!(rust_name_resolver::run(&data), vec![]);
    assert_eq!(
        suggest_allocation_places(&data),
        vec![AllocationPlaceSuggestion { path: cpp_path("C"), place: AllocationPlace::Movable }]
    );
    data.config.movable_types.push(cpp_path("C"));
    assert_eq!(set_allocation_places(&mut data), Ok(()));
    let is_movable = match &data.current_database.items[3].cpp_data {
        CppItemData::Type(t) => t.is_movable,
        _ => false,
    };
    assert!(is_movable);
    assert_eq!(suggest_allocation_places(&data), vec![]);

    // The foreign declaration of the method.
    let argument = method.arguments[0].argument_type.to_cpp_ffi_type(CppTypeRole::NotReturnType).unwrap();
    assert_eq!(argument.ffi_type, CppType::new_pointer(true, class_c()));
    assert_eq!(argument.conversion, CppTypeConversionToFfi::ReferenceToPointer);
    assert_eq!(argument.ffi_type.to_cpp_code(None).unwrap(), "const C*");
    let result = method.return_type.to_cpp_ffi_type(CppTypeRole::ReturnType).unwrap();
    assert_eq!(result.ffi_type, cpp_bool());
    assert_eq!(result.conversion, CppTypeConversionToFfi::NoChange);
    let ffi_function = CppFfiFunction {
        path: cpp_path("C_same"),
        arguments: vec![CppFfiFunctionArgument {
            name: "other".to_string(),
            argument_type: argument.clone(),
            meaning: CppFfiArgumentMeaning::Argument(0),
        }],
        return_type: result.clone(),
    };

    // The generated items.
    let rust_c = RustType::Common { path: rust_path(&["lib", "C"]), generic_arguments: None };
    let rust_bool = RustType::Common { path: rust_path(&["bool"]), generic_arguments: None };
    let argument_conversion =
        RustToFfiTypeConversion::from_cpp_conversion(argument.conversion, CppTypeRole::NotReturnType, is_movable);
    assert_eq!(argument_conversion, RustToFfiTypeConversion::RefToPtr);
    let result_conversion =
        RustToFfiTypeConversion::from_cpp_conversion(result.conversion, CppTypeRole::ReturnType, is_movable);
    assert_eq!(result_conversion, RustToFfiTypeConversion::NoConversion);
    let wrapper = RustFunction {
        is_public: true,
        is_unsafe: false,
        path: rust_path(&["lib", "C", "same"]),
        kind: RustFunctionKind::FfiWrapper(RustFfiWrapperData {
            cpp_ffi_function: ffi_function,
            ffi_function_path: rust_path(&["lib", "ffi", "C_same"]),
            return_type_ffi_index: None,
        }),
        arguments: vec![RustFunctionArgument {
            argument_type: RustFinalType::new(
                RustType::PointerLike {
                    kind: RustPointerLikeTypeKind::Pointer,
                    is_const: true,
                    target: Box::new(rust_c.clone()),
                },
                argument_conversion,
                None,
            )
            .unwrap(),
            name: "other".to_string(),
            ffi_index: 0,
        }],
        return_type: RustFinalType::new(rust_bool.clone(), result_conversion, None).unwrap(),
        extra_doc: None,
    };
    // The argument is a const reference in the API, and the result is the
    // same type on both sides.
    assert_eq!(
        wrapper.arguments[0].argument_type.rust_api_type,
        RustType::PointerLike {
            kind: RustPointerLikeTypeKind::Reference { lifetime: None },
            is_const: true,
            target: Box::new(rust_c.clone()),
        }
    );
    assert_eq!(wrapper.return_type.rust_api_type, wrapper.return_type.rust_ffi_type);
    assert_eq!(wrapper.return_type.rust_api_type, rust_bool);
    let enum_value = |name: &str, value: i64| {
        RustDatabaseItem {
            kind: RustItemKind::EnumValue(RustEnumValue {
                path: rust_path(&["lib", "E", name]),
                value,
                doc: RustEnumValueDoc { extra_doc: None, cpp_path: cpp_path("E"), cpp_doc: None },
            }),
            cpp_item_index: None,
        }
    };
    let database = RustDatabase {
        items: vec![
            RustDatabaseItem {
                kind: RustItemKind::Struct(RustStruct {
                    extra_doc: None,
                    path: rust_path(&["lib", "E"]),
                    kind: RustStructKind::WrapperType(RustWrapperType {
                        doc_data: RustWrapperTypeDocData {
                            cpp_path: cpp_path("E"),
                            cpp_doc: None,
                            raw_qt_slot_wrapper: None,
                        },
                        kind: RustWrapperTypeKind::EnumWrapper,
                    }),
                    is_public: true,
                }),
                cpp_item_index: Some(0),
            },
            enum_value("First", 0),
            enum_value("Second", 1),
            RustDatabaseItem {
                kind: RustItemKind::Struct(RustStruct {
                    extra_doc: None,
                    path: rust_path(&["lib", "C"]),
                    kind: RustStructKind::WrapperType(RustWrapperType {
                        doc_data: RustWrapperTypeDocData {
                            cpp_path: cpp_path("C"),
                            cpp_doc: None,
                            raw_qt_slot_wrapper: None,
                        },
                        // The class is movable, so its wrapper holds the sized type.
                        kind: if is_movable {
                            RustWrapperTypeKind::MovableClassWrapper {
                                sized_type_path: rust_path(&["lib", "sized_types", "C"]),
                            }
                        } else {
                            RustWrapperTypeKind::ImmovableClassWrapper {
                                raw_type_path: rust_path(&["lib", "ffi", "C"]),
                            }
                        },
                    }),
                    is_public: true,
                }),
                cpp_item_index: Some(3),
            },
            RustDatabaseItem { kind: RustItemKind::Function(wrapper.clone()), cpp_item_index: Some(4) },
        ],
    };
    let generator = Generator { crate_name: "lib".to_string() };
    // The values of the enum are two named integer constants.
    assert_eq!(
        generator.generate_item(&database.items[1], &database).unwrap(),
        "pub const First: ::E = ::E(0);\n"
    );
    assert_eq!(
        generator.generate_item(&database.items[2], &database).unwrap(),
        "pub const Second: ::E = ::E(1);\n"
    );
    // The wrapper takes a const reference and hands the result on as it is.
    let function_code = "pub fn same(other: &::C) -> bool {\nunsafe { ::ffi::C_same(other as *const ::C) }}\n\n";
    assert_eq!(
        generator.generate_rust_final_function(&wrapper, &RustFunctionScope::Free).unwrap(),
        function_code
    );
    assert_eq!(
        AsRef::<str>::as_ref(&generator.generate_ffi_call(
            &wrapper.arguments,
            &wrapper.return_type,
            match &wrapper.kind {
                RustFunctionKind::FfiWrapper(data) => data,
                _ => unreachable!(),
            },
            false
        )
        .unwrap()),
        "unsafe { ::ffi::C_same(other as *const ::C) }"
    );
    // The class is a movable wrapper type that holds its method.
    let class_code = format!(
        "\n#[repr(C)]\npub struct C(::sized_types::C);\n\nimpl C {{\n{}}}\n\n",
        function_code
    );
    assert_eq!(generator.generate_item(&database.items[3], &database).unwrap(), class_code);
    let enum_code = "\n#[derive(Debug, Clone, Copy, PartialEq, Eq)]\npub struct E(::std::os::raw::c_int);\n\nimpl E {\npub const First: ::E = ::E(0);\npub const Second: ::E = ::E(1);\n}\n\n";
    assert_eq!(generator.generate_item(&database.items[0], &database).unwrap(), enum_code);
    assert_eq!(run("lib", &database).unwrap(), format!("{}{}", enum_code, class_code));
}

#[test]
fn value_results_follow_the_allocation_place() {
    let from = RustToFfiTypeConversion::from_cpp_conversion;
    let value = CppTypeConversionToFfi::ValueToPointer;
    assert_eq!(from(value, CppTypeRole::ReturnType, true), RustToFfiTypeConversion::ValueToPtr);
    assert_eq!(from(value, CppTypeRole::ReturnType, false), RustToFfiTypeConversion::CppBoxToPtr);
    assert_eq!(from(value, CppTypeRole::NotReturnType, true), RustToFfiTypeConversion::ValueToPtr);
    assert_eq!(from(value, CppTypeRole::NotReturnType, false), RustToFfiTypeConversion::ValueToPtr);
    for role in [CppTypeRole::ReturnType, CppTypeRole::NotReturnType] {
        for is_movable in [true, false] {
            assert_eq!(
                from(CppTypeConversionToFfi::NoChange, role, is_movable),
                RustToFfiTypeConversion::NoConversion
            );
            assert_eq!(
                from(CppTypeConversionToFfi::ReferenceToPointer, role, is_movable),
                RustToFfiTypeConversion::RefToPtr
            );
            assert_eq!(
                from(CppTypeConversionToFfi::QFlagsToUInt, role, is_movable),
                RustToFfiTypeConversion::QFlagsToUInt
            );
        }
    }
}

fn step(name: &str, dependencies: &[&str]) -> ProcessingStep {
    ProcessingStep::new(name, dependencies.iter().map(|d| d.to_string()).collect())
}

fn is_order_of(steps: &[ProcessingStep], order: &[usize]) -> bool {
    let mut seen = vec![false; steps.len()];
    for &index in order {
        if index >= steps.len() || seen[index] {
            return false;
        }
        for dependency in &steps[index].dependencies {
            if !steps.iter().enumerate().any(|(i, s)| seen[i] && &s.name == dependency) {
                return false;
            }
        }
        seen[index] = true;
    }
    seen.iter().all(|s| *s)
}

#[test]
fn passes_run_after_what_they_depend_on() {
    assert_eq!(execution_order(&vec![]), Ok(vec![]));
    let steps = vec![
        step("rust_generator", &["rust_name_resolver", "cpp_checker"]),
        rust_name_resolver_step(),
        step("cpp_checker", &["cpp_parser"]),
        step("cpp_parser", &[]),
        step("suggest_allocation_places", &["cpp_parser"]),
    ];
    let order = execution_order(&steps).unwrap();
    assert_eq!(order, vec![3, 2, 1, 0, 4]);
    assert!(is_order_of(&steps, &order));
    assert!(!is_order_of(&steps, &[0, 1, 2, 3, 4]));
    // One pass is enough to satisfy a name that two passes share.
    let twins = vec![step("b", &["a"]), step("a", &[]), step("a", &["b"])];
    let order = execution_order(&twins).unwrap();
    assert!(is_order_of(&twins, &order));
    assert_eq!(order, vec![1, 0, 2]);
}

#[test]
fn unsatisfiable_orders_are_refused() {
    let missing = vec![step("a", &[]), step("b", &["c"])];
    assert_eq!(execution_order(&missing), Err(Error::PipelineOrderingError));
    let own = vec![step("a", &["a"])];
    assert_eq!(execution_order(&own), Err(Error::PipelineOrderingError));
    let circle = vec![step("a", &["c"]), step("b", &["a"]), step("c", &["b"]), step("d", &[])];
    assert_eq!(execution_order(&circle), Err(Error::PipelineOrderingError));
    assert_eq!(execution_order(&vec![rust_name_resolver_step()]), Err(Error::PipelineOrderingError));
    assert_eq!(Error::PipelineOrderingError.message(), "the order of the passes cannot be satisfied");
    assert_eq!(
        Error::UnresolvedReference(ritual::errors::UnresolvedReason::ClassNotFound).message(),
        "unresolved reference: class not found"
    );
}
