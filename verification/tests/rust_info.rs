use ritual::cpp_type::CppPath;
use ritual::errors::Error;
use ritual::rust_info::{
    RustDatabase, RustDatabaseItem, RustEnumValue, RustEnumValueDoc, RustFFIFunction,
    RustFfiClassTypeDoc, RustFunctionCaptionStrategy, RustFunctionKind, RustItemKind, RustModule,
    RustModuleDoc, RustModuleKind, RustPathScope, RustStruct, RustStructKind, RustTraitImpl,
    RustWrapperType, RustWrapperTypeDocData, RustWrapperTypeKind, UnnamedRustFunction,
};
use ritual::rust_type::{
    RustFinalType, RustPath, RustPointerLikeTypeKind, RustToFfiTypeConversion, RustType,
};

fn path(parts: &[&str]) -> RustPath {
    RustPath::from_parts(parts.iter().map(|s| s.to_string()).collect())
}

fn common(parts: &[&str]) -> RustType {
    RustType::Common { path: path(parts), generic_arguments: None }
}

fn module(parts: &[&str]) -> RustItemKind {
    RustItemKind::Module(RustModule {
        path: path(parts),
        doc: RustModuleDoc { extra_doc: None, cpp_path: None },
        kind: RustModuleKind::Normal,
    })
}

fn structure(parts: &[&str], kind: RustStructKind) -> RustItemKind {
    RustItemKind::Struct(RustStruct { extra_doc: None, path: path(parts), kind, is_public: true })
}

fn wrapper_kind() -> RustStructKind {
    RustStructKind::WrapperType(RustWrapperType {
        doc_data: RustWrapperTypeDocData {
            cpp_path: CppPath::from_str_unchecked("E"),
            cpp_doc: None,
            raw_qt_slot_wrapper: None,
        },
        kind: RustWrapperTypeKind::EnumWrapper,
    })
}

fn enum_value(parts: &[&str]) -> RustItemKind {
    RustItemKind::EnumValue(RustEnumValue {
        path: path(parts),
        value: 0,
        doc: RustEnumValueDoc { extra_doc: None, cpp_path: CppPath::from_str_unchecked("E::V"), cpp_doc: None },
    })
}

fn ffi_function(parts: &[&str]) -> RustItemKind {
    RustItemKind::FfiFunction(RustFFIFunction {
        return_type: RustType::EmptyTuple,
        path: path(parts),
        arguments: vec![],
    })
}

fn trait_impl(parent: &[&str]) -> RustItemKind {
    RustItemKind::TraitImpl(RustTraitImpl {
        parent_path: path(parent),
        target_type: common(&["c", "T"]),
        trait_type: common(&["std", "clone", "Clone"]),
        associated_types: vec![],
        functions: vec![],
    })
}

fn item(kind: RustItemKind) -> RustDatabaseItem {
    RustDatabaseItem { kind, cpp_item_index: None }
}

#[test]
fn paths_know_their_relatives() {
    let p = path(&["qt_core", "core", "QPoint"]);
    assert_eq!(p.last(), "QPoint");
    assert_eq!(p.crate_name(), "qt_core");
    assert_eq!(p.len(), 3);
    assert_eq!(p.parent(), Some(path(&["qt_core", "core"])));
    assert_eq!(path(&["qt_core"]).parent(), None);
    assert_eq!(p.join("x".to_string()), path(&["qt_core", "core", "QPoint", "x"]));
    assert!(p.is_child_of(&path(&["qt_core", "core"])));
    assert!(!p.is_child_of(&path(&["qt_core"])));
    assert!(!p.is_child_of(&path(&["qt_core", "other"])));
    assert!(!p.is_child_of(&p));
    assert!(!p.is_child_of(&path(&["qt_core", "core", "QPoint", "x"])));
    assert!(p.same_as(&p.clone()));
    assert!(!p.same_as(&path(&["qt_core", "core"])));
    assert_eq!(p.full_name(Some("qt_core")), "::core::QPoint");
    assert_eq!(p.full_name(Some("qt_gui")), "qt_core::core::QPoint");
    assert_eq!(p.full_name(None), "qt_core::core::QPoint");
    assert_eq!(path(&["qt_core"]).full_name(Some("qt_core")), "::");
    assert_eq!(path(&["qt_core"]).full_name(None), "qt_core");
}

#[test]
fn types_carry_constness_and_lifetimes() {
    let reference = |is_const: bool, lifetime: Option<&str>, target: RustType| RustType::PointerLike {
        kind: RustPointerLikeTypeKind::Reference { lifetime: lifetime.map(|l| l.to_string()) },
        is_const,
        target: Box::new(target),
    };
    let pointer = |is_const: bool, target: RustType| RustType::PointerLike {
        kind: RustPointerLikeTypeKind::Pointer,
        is_const,
        target: Box::new(target),
    };
    let t = common(&["c", "T"]);
    assert!(t.is_const().is_err() && t.last_is_const().is_err());
    assert!(RustType::EmptyTuple.is_empty_tuple() && !t.is_empty_tuple());
    assert_eq!(pointer(true, t.clone()).is_const(), Ok(true));
    assert_eq!(pointer(false, pointer(true, t.clone())).is_const(), Ok(false));
    assert_eq!(pointer(false, pointer(true, t.clone())).last_is_const(), Ok(true));
    assert_eq!(reference(true, None, pointer(false, pointer(false, t.clone()))).last_is_const(), Ok(false));
    assert!(reference(true, None, t.clone()).is_ref());
    assert!(!pointer(true, t.clone()).is_ref() && !t.is_ref());
    assert!(RustPointerLikeTypeKind::Pointer.is_pointer() && !RustPointerLikeTypeKind::Pointer.is_ref());

    let mut changed = pointer(false, t.clone());
    assert_eq!(changed.set_const(true), Ok(()));
    assert_eq!(changed, pointer(true, t.clone()));
    let mut unchanged = t.clone();
    assert!(unchanged.set_const(true).is_err());
    assert_eq!(unchanged, t);

    assert_eq!(reference(true, Some("a"), t.clone()).lifetime(), Some(&"a".to_string()));
    assert_eq!(reference(true, None, t.clone()).lifetime(), None);
    assert_eq!(pointer(true, reference(true, Some("a"), t.clone())).lifetime(), None);
    assert_eq!(t.lifetime(), None);
    assert_eq!(
        reference(false, None, t.clone()).with_lifetime("b".to_string()),
        reference(false, Some("b"), t.clone())
    );
    assert_eq!(
        reference(true, Some("a"), t.clone()).with_lifetime("b".to_string()),
        reference(true, Some("b"), t.clone())
    );
    assert_eq!(pointer(true, t.clone()).with_lifetime("b".to_string()), pointer(true, t.clone()));
    assert_eq!(t.with_lifetime("b".to_string()), t);
    let nested = RustType::FunctionPointer {
        return_type: Box::new(reference(true, Some("a"), t.clone())),
        arguments: vec![RustType::Common { path: path(&["c", "G"]), generic_arguments: Some(vec![t.clone()]) }],
    };
    assert_eq!(nested.duplicate(), nested);
    assert_eq!(nested.clone(), nested);
}

#[test]
fn kinds_are_told_apart() {
    let wrapper = wrapper_kind();
    let ffi_class = RustStructKind::FfiClassType(RustFfiClassTypeDoc {
        cpp_path: CppPath::from_str_unchecked("C"),
        public_rust_path: path(&["c", "C"]),
    });
    let sized = RustStructKind::SizedType(CppPath::from_str_unchecked("C"));
    assert!(wrapper.is_wrapper_type() && !wrapper.is_ffi_type());
    assert!(!ffi_class.is_wrapper_type() && ffi_class.is_ffi_type());
    assert!(!sized.is_wrapper_type() && sized.is_ffi_type());

    let all = [
        module(&["c", "m"]),
        structure(&["c", "W"], wrapper),
        structure(&["c", "F"], ffi_class),
        structure(&["c", "S"], sized),
        enum_value(&["c", "W", "V"]),
        trait_impl(&["c"]),
        ffi_function(&["c", "ffi", "f"]),
    ];
    let flags: Vec<(bool, bool, bool, bool)> = all
        .iter()
        .map(|k| (k.is_module(), k.is_wrapper_type(), k.is_ffi_type(), k.is_ffi_function()))
        .collect();
    assert_eq!(
        flags,
        vec![
            (true, false, false, false),
            (false, true, false, false),
            (false, false, true, false),
            (false, false, true, false),
            (false, false, false, false),
            (false, false, false, false),
            (false, false, false, true),
        ]
    );
    assert!(RustModuleKind::CrateRoot.is_in_separate_file());
    assert!(!RustModuleKind::Ffi.is_in_separate_file());
    assert!(!RustModuleKind::SizedTypes.is_in_separate_file());
    assert!(RustModuleKind::Normal.is_in_separate_file());
    assert_eq!(
        RustFunctionCaptionStrategy::all(),
        vec![
            RustFunctionCaptionStrategy::SelfOnly,
            RustFunctionCaptionStrategy::UnsafeOnly,
            RustFunctionCaptionStrategy::SelfAndArgTypes,
            RustFunctionCaptionStrategy::SelfAndArgNames,
            RustFunctionCaptionStrategy::SelfAndIndex,
        ]
    );
}

#[test]
fn items_are_found_by_path() {
    let database = RustDatabase {
        items: vec![
            item(module(&["c", "m"])),
            item(trait_impl(&["c", "m"])),
            item(structure(&["c", "m", "W"], wrapper_kind())),
            item(enum_value(&["c", "m", "W", "V"])),
            RustDatabaseItem { kind: module(&["c", "m"]), cpp_item_index: Some(4) },
            item(ffi_function(&["c", "m", "f"])),
            item(module(&["c", "n"])),
            item(trait_impl(&["c"])),
        ],
    };
    assert_eq!(database.items[0].path(), Some(&path(&["c", "m"])));
    assert_eq!(database.items[1].path(), None);
    assert_eq!(database.items[3].path(), Some(&path(&["c", "m", "W", "V"])));
    assert_eq!(database.items[5].path(), Some(&path(&["c", "m", "f"])));
    assert!(database.items[0].as_module_ref().is_some());
    assert!(database.items[2].as_module_ref().is_none());
    assert!(database.items[1].is_child_of(&path(&["c", "m"])));
    assert!(!database.items[1].is_child_of(&path(&["c"])));
    assert!(database.items[2].is_child_of(&path(&["c", "m"])));
    assert!(!database.items[3].is_child_of(&path(&["c", "m"])));

    // The first item with the path is the one that is found.
    assert_eq!(database.find(&path(&["c", "m"])), Some(&database.items[0]));
    assert_eq!(database.find(&path(&["c", "m"])).unwrap().cpp_item_index, None);
    assert_eq!(database.find(&path(&["c", "m", "W", "V"])), Some(&database.items[3]));
    assert_eq!(database.find(&path(&["c"])), None);
    assert_eq!(database.find(&path(&["c", "x"])), None);

    assert_eq!(
        database.children(&path(&["c", "m"])),
        vec![&database.items[1], &database.items[2], &database.items[5]]
    );
    assert_eq!(
        database.children(&path(&["c"])),
        vec![&database.items[0], &database.items[4], &database.items[6], &database.items[7]]
    );
    assert_eq!(database.children(&path(&["c", "m", "W"])), vec![&database.items[3]]);
    assert!(database.children(&path(&["c", "n"])).is_empty());
    assert!(RustDatabase::default().items.is_empty());
    assert_eq!(RustDatabase::default().find(&path(&["c"])), None);
}

#[test]
fn scopes_name_new_items() {
    let scope = RustPathScope { path: path(&["c", "m"]), prefix: Some("Q".to_string()) };
    assert_eq!(scope.apply("Point"), path(&["c", "m", "QPoint"]));
    assert_eq!(scope.apply(""), path(&["c", "m", "Q"]));
    let plain = RustPathScope { path: path(&["c"]), prefix: None };
    assert_eq!(plain.apply("point"), path(&["c", "point"]));
}

#[test]
fn unnamed_functions_take_a_path() {
    let unit = RustFinalType {
        rust_api_type: RustType::EmptyTuple,
        rust_ffi_type: RustType::EmptyTuple,
        rust_api_to_ffi_conversion: RustToFfiTypeConversion::NoConversion,
    };
    let unnamed = UnnamedRustFunction {
        is_public: true,
        is_unsafe: true,
        kind: RustFunctionKind::CppDeletableImpl { deleter: path(&["c", "ffi", "delete"]) },
        arguments: vec![],
        return_type: unit.clone(),
        extra_doc: Some("doc".to_string()),
    };
    let named = unnamed.clone().with_path(path(&["c", "T", "delete"]));
    assert_eq!(named.path, path(&["c", "T", "delete"]));
    assert!(named.is_public && named.is_unsafe);
    assert_eq!(named.kind, unnamed.kind);
    assert_eq!(named.arguments, unnamed.arguments);
    assert_eq!(named.return_type, unit);
    assert_eq!(named.extra_doc, Some("doc".to_string()));
}

#[test]
fn api_types_are_paired_with_foreign_types() {
    let t = common(&["c", "T"]);
    let pointer = |is_const: bool| RustType::PointerLike {
        kind: RustPointerLikeTypeKind::Pointer,
        is_const,
        target: Box::new(common(&["c", "T"])),
    };
    let reference = |is_const: bool| RustType::PointerLike {
        kind: RustPointerLikeTypeKind::Reference { lifetime: None },
        is_const,
        target: Box::new(common(&["c", "T"])),
    };
    let pair = |ffi: RustType, conversion: RustToFfiTypeConversion| RustFinalType::new(ffi, conversion, None);
    let expect = |api: RustType, ffi: RustType, conversion: RustToFfiTypeConversion| {
        Ok(RustFinalType { rust_api_type: api, rust_ffi_type: ffi, rust_api_to_ffi_conversion: conversion })
    };
    for conversion in [RustToFfiTypeConversion::NoConversion] {
        assert_eq!(pair(t.clone(), conversion), expect(t.clone(), t.clone(), conversion));
        assert_eq!(pair(pointer(true), conversion), expect(pointer(true), pointer(true), conversion));
        assert_eq!(
            pair(RustType::EmptyTuple, conversion),
            expect(RustType::EmptyTuple, RustType::EmptyTuple, conversion)
        );
    }
    for is_const in [true, false] {
        assert_eq!(
            pair(pointer(is_const), RustToFfiTypeConversion::RefToPtr),
            expect(reference(is_const), pointer(is_const), RustToFfiTypeConversion::RefToPtr)
        );
        assert_eq!(
            pair(pointer(is_const), RustToFfiTypeConversion::OptionRefToPtr),
            expect(
                RustType::Common {
                    path: path(&["std", "option", "Option"]),
                    generic_arguments: Some(vec![reference(is_const)]),
                },
                pointer(is_const),
                RustToFfiTypeConversion::OptionRefToPtr
            )
        );
        assert_eq!(
            pair(pointer(is_const), RustToFfiTypeConversion::ValueToPtr),
            expect(t.clone(), pointer(is_const), RustToFfiTypeConversion::ValueToPtr)
        );
        assert_eq!(
            pair(pointer(is_const), RustToFfiTypeConversion::CppBoxToPtr),
            expect(
                RustType::Common {
                    path: path(&["cpp_utils", "CppBox"]),
                    generic_arguments: Some(vec![t.clone()]),
                },
                pointer(is_const),
                RustToFfiTypeConversion::CppBoxToPtr
            )
        );
    }
    for conversion in [
        RustToFfiTypeConversion::RefToPtr,
        RustToFfiTypeConversion::OptionRefToPtr,
        RustToFfiTypeConversion::ValueToPtr,
        RustToFfiTypeConversion::CppBoxToPtr,
    ] {
        assert_eq!(pair(t.clone(), conversion), Err(Error::MalformedInput));
        assert_eq!(pair(reference(true), conversion), Err(Error::MalformedInput));
        assert_eq!(pair(RustType::EmptyTuple, conversion), Err(Error::MalformedInput));
    }
    // The flags wrapper is what the caller names; the other conversions do
    // not look at it.
    let c_uint = common(&["libc", "c_uint"]);
    let flags = RustType::Common {
        path: path(&["qt_core", "flags", "Flags"]),
        generic_arguments: Some(vec![common(&["c", "AlignmentFlag"])]),
    };
    assert_eq!(
        RustFinalType::new(c_uint.clone(), RustToFfiTypeConversion::QFlagsToUInt, Some(flags.clone())),
        expect(flags.clone(), c_uint.clone(), RustToFfiTypeConversion::QFlagsToUInt)
    );
    assert_eq!(
        RustFinalType::new(c_uint.clone(), RustToFfiTypeConversion::QFlagsToUInt, None),
        Err(Error::MalformedInput)
    );
    assert_eq!(
        RustFinalType::new(c_uint.clone(), RustToFfiTypeConversion::QFlagsToUInt, Some(pointer(true))),
        Err(Error::MalformedInput)
    );
    assert_eq!(
        RustFinalType::new(c_uint.clone(), RustToFfiTypeConversion::QFlagsToUInt, Some(RustType::EmptyTuple)),
        Err(Error::MalformedInput)
    );
    assert_eq!(
        RustFinalType::new(pointer(true), RustToFfiTypeConversion::RefToPtr, Some(flags.clone())),
        expect(reference(true), pointer(true), RustToFfiTypeConversion::RefToPtr)
    );
    assert_eq!(
        RustFinalType::new(c_uint.clone(), RustToFfiTypeConversion::NoConversion, Some(flags)),
        expect(c_uint.clone(), c_uint, RustToFfiTypeConversion::NoConversion)
    );
}
