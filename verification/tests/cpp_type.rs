use ritual::cpp_ffi_data::{CppTypeConversionToFfi, CppTypeRole};
use ritual::cpp_type::{
    CppBuiltInNumericType, CppClassType, CppFunctionPointerType, CppPath, CppSpecificNumericType,
    CppSpecificNumericTypeKind, CppType,
};
use ritual::errors::Error;

fn class(name: &str, template_arguments: Option<Vec<CppType>>) -> CppType {
    CppType::Class(CppClassType {
        path: CppPath::from_str_unchecked(name),
        template_arguments,
    })
}

fn assert_type_to_ffi_unchanged(t: &CppType) {
    for role in &[CppTypeRole::NotReturnType, CppTypeRole::ReturnType] {
        let ffi1 = t.to_cpp_ffi_type(role.clone()).unwrap();
        assert_eq!(&ffi1.original_type, t);
        assert_eq!(&ffi1.ffi_type, t);
        assert_eq!(ffi1.conversion, CppTypeConversionToFfi::NoChange);
    }
}

#[test]
fn void() {
    let type1 = CppType::Void;
    assert_eq!(type1.is_void(), true);
    assert_eq!(type1.is_class(), false);
    assert_eq!(type1.is_template_parameter(), false);
    assert_eq!(type1.to_cpp_code(None).unwrap(), "void");
    assert!(type1.to_cpp_code(Some(&String::new())).is_err());
    assert_type_to_ffi_unchanged(&type1);
    assert!(!type1.needs_allocation_place_variants());
}

#[test]
fn void_ptr() {
    let type1 = CppType::new_pointer(false, CppType::Void);
    assert_eq!(type1.is_void(), false);
    assert_eq!(type1.is_class(), false);
    assert_eq!(type1.is_template_parameter(), false);
    assert_eq!(type1.to_cpp_code(None).unwrap(), "void*");
    assert!(type1.to_cpp_code(Some(&String::new())).is_err());
    assert_type_to_ffi_unchanged(&type1);
    assert!(!type1.needs_allocation_place_variants());
}

#[test]
fn int1() {
    let type1 = CppType::BuiltInNumeric(CppBuiltInNumericType::Int);
    assert_eq!(type1.is_void(), false);
    assert_eq!(type1.is_class(), false);
    assert_eq!(type1.is_template_parameter(), false);
    assert_eq!(type1.to_cpp_code(None).unwrap(), "int");
    assert!(type1.to_cpp_code(Some(&String::new())).is_err());
    assert_type_to_ffi_unchanged(&type1);
    assert!(!type1.needs_allocation_place_variants());
}

#[test]
fn bool_ptr() {
    let type1 = CppType::new_pointer(false, CppType::BuiltInNumeric(CppBuiltInNumericType::Bool));
    assert_eq!(type1.is_void(), false);
    assert_eq!(type1.is_class(), false);
    assert_eq!(type1.is_template_parameter(), false);
    assert_eq!(type1.to_cpp_code(None).unwrap(), "bool*");
    assert!(type1.to_cpp_code(Some(&String::new())).is_err());
    assert_type_to_ffi_unchanged(&type1);
    assert!(!type1.needs_allocation_place_variants());
}

#[test]
fn char_ptr_ptr() {
    let type1 = CppType::new_pointer(
        false,
        CppType::new_pointer(false, CppType::BuiltInNumeric(CppBuiltInNumericType::Char)),
    );
    assert_eq!(type1.is_void(), false);
    assert_eq!(type1.is_class(), false);
    assert_eq!(type1.is_template_parameter(), false);
    assert_eq!(type1.to_cpp_code(None).unwrap(), "char**");
    assert!(type1.to_cpp_code(Some(&String::new())).is_err());
    assert_type_to_ffi_unchanged(&type1);
    assert!(!type1.needs_allocation_place_variants());
}

#[test]
fn qint64() {
    let type1 = CppType::SpecificNumeric(CppSpecificNumericType {
        name: "qint64".to_string(),
        bits: 64,
        kind: CppSpecificNumericTypeKind::Integer { is_signed: true },
    });
    assert_eq!(type1.is_void(), false);
    assert_eq!(type1.is_class(), false);
    assert_eq!(type1.is_template_parameter(), false);
    assert_eq!(type1.to_cpp_code(None).unwrap(), "qint64");
    assert!(type1.to_cpp_code(Some(&String::new())).is_err());
    assert_type_to_ffi_unchanged(&type1);
    assert!(!type1.needs_allocation_place_variants());
}

#[test]
fn quintptr() {
    let type1 = CppType::PointerSizedInteger {
        name: "quintptr".to_string(),
        is_signed: false,
    };
    assert_eq!(type1.is_void(), false);
    assert_eq!(type1.is_class(), false);
    assert_eq!(type1.is_template_parameter(), false);
    assert_eq!(type1.to_cpp_code(None).unwrap(), "quintptr");
    assert!(type1.to_cpp_code(Some(&String::new())).is_err());
    assert_type_to_ffi_unchanged(&type1);
    assert!(!type1.needs_allocation_place_variants());
}

#[test]
fn enum1() {
    let type1 = CppType::Enum {
        path: CppPath::from_str_unchecked("Qt::CaseSensitivity"),
    };
    assert_eq!(type1.is_void(), false);
    assert_eq!(type1.is_class(), false);
    assert_eq!(type1.is_template_parameter(), false);
    assert_eq!(type1.to_cpp_code(None).unwrap(), "Qt::CaseSensitivity");
    assert!(type1.to_cpp_code(Some(&String::new())).is_err());
    assert_type_to_ffi_unchanged(&type1);
    assert!(!type1.needs_allocation_place_variants());
}

#[test]
fn class_value() {
    let type1 = class("QPoint", None);
    assert_eq!(type1.is_void(), false);
    assert_eq!(type1.is_class(), true);
    assert_eq!(type1.is_template_parameter(), false);
    assert_eq!(type1.to_cpp_code(None).unwrap(), "QPoint");
    assert!(type1.to_cpp_code(Some(&String::new())).is_err());

    let ffi_return_type = type1.to_cpp_ffi_type(CppTypeRole::ReturnType).unwrap();
    assert_eq!(&ffi_return_type.original_type, &type1);
    assert_eq!(
        &ffi_return_type.ffi_type,
        &CppType::new_pointer(false, class("QPoint", None)),
    );
    assert_eq!(
        &ffi_return_type.ffi_type.to_cpp_code(None).unwrap(),
        "QPoint*"
    );
    assert_eq!(
        ffi_return_type.conversion,
        CppTypeConversionToFfi::ValueToPointer
    );

    let ffi_arg = type1.to_cpp_ffi_type(CppTypeRole::NotReturnType).unwrap();
    assert_eq!(&ffi_arg.original_type, &type1);
    assert_eq!(
        &ffi_arg.ffi_type,
        &CppType::new_pointer(true, class("QPoint", None))
    );
    assert_eq!(
        &ffi_arg.ffi_type.to_cpp_code(None).unwrap(),
        "const QPoint*"
    );
    assert_eq!(ffi_arg.conversion, CppTypeConversionToFfi::ValueToPointer);
    assert!(type1.needs_allocation_place_variants());
}

#[test]
fn class_const_ref() {
    let type1 = CppType::new_reference(true, class("QRectF", None));
    assert_eq!(type1.is_void(), false);
    assert_eq!(type1.is_class(), true);
    assert_eq!(type1.is_template_parameter(), false);
    assert_eq!(type1.to_cpp_code(None).unwrap(), "const QRectF&");
    assert!(type1.to_cpp_code(Some(&String::new())).is_err());

    for role in &[CppTypeRole::NotReturnType, CppTypeRole::ReturnType] {
        let ffi1 = type1.to_cpp_ffi_type(role.clone()).unwrap();
        assert_eq!(&ffi1.original_type, &type1);
        assert_eq!(
            &ffi1.ffi_type,
            &CppType::new_pointer(true, class("QRectF", None))
        );
        assert_eq!(&ffi1.ffi_type.to_cpp_code(None).unwrap(), "const QRectF*");
        assert_eq!(ffi1.conversion, CppTypeConversionToFfi::ReferenceToPointer);
    }
    assert!(!type1.needs_allocation_place_variants());
}

#[test]
fn class_mut_ref() {
    let type1 = CppType::new_reference(false, class("QRectF", None));
    assert_eq!(type1.is_void(), false);
    assert_eq!(type1.is_class(), true);
    assert_eq!(type1.is_template_parameter(), false);
    assert_eq!(type1.to_cpp_code(None).unwrap(), "QRectF&");
    assert!(type1.to_cpp_code(Some(&String::new())).is_err());

    for role in &[CppTypeRole::NotReturnType, CppTypeRole::ReturnType] {
        let ffi1 = type1.to_cpp_ffi_type(role.clone()).unwrap();
        assert_eq!(&ffi1.original_type, &type1);
        assert_eq!(
            &ffi1.ffi_type,
            &CppType::new_pointer(false, class("QRectF", None))
        );
        assert_eq!(&ffi1.ffi_type.to_cpp_code(None).unwrap(), "QRectF*");
        assert_eq!(ffi1.conversion, CppTypeConversionToFfi::ReferenceToPointer);
    }
    assert!(!type1.needs_allocation_place_variants());
}

#[test]
fn class_mut_ptr() {
    let type1 = CppType::new_pointer(false, class("QObject", None));
    assert_eq!(type1.is_void(), false);
    assert_eq!(type1.is_class(), true);
    assert_eq!(type1.is_template_parameter(), false);
    assert_eq!(type1.to_cpp_code(None).unwrap(), "QObject*");
    assert!(type1.to_cpp_code(Some(&String::new())).is_err());
    assert_type_to_ffi_unchanged(&type1);
    assert!(!type1.needs_allocation_place_variants());
}

#[test]
fn class_with_template_args() {
    let args = Some(vec![class("QString", None)]);
    let type1 = class("QVector", args.clone());
    assert_eq!(type1.is_void(), false);
    assert_eq!(type1.is_class(), true);
    assert_eq!(type1.is_template_parameter(), false);
    assert_eq!(type1.to_cpp_code(None).unwrap(), "QVector< QString >");
    assert!(type1.to_cpp_code(Some(&String::new())).is_err());

    let ffi_return_type = type1.to_cpp_ffi_type(CppTypeRole::ReturnType).unwrap();
    assert_eq!(&ffi_return_type.original_type, &type1);
    assert_eq!(
        &ffi_return_type.ffi_type,
        &CppType::new_pointer(false, class("QVector", args.clone())),
    );
    assert_eq!(
        &ffi_return_type.ffi_type.to_cpp_code(None).unwrap(),
        "QVector< QString >*"
    );
    assert_eq!(
        ffi_return_type.conversion,
        CppTypeConversionToFfi::ValueToPointer
    );

    let ffi_arg = type1.to_cpp_ffi_type(CppTypeRole::NotReturnType).unwrap();
    assert_eq!(&ffi_arg.original_type, &type1);
    assert_eq!(
        &ffi_arg.ffi_type,
        &CppType::new_pointer(true, class("QVector", args.clone()))
    );
    assert_eq!(
        &ffi_arg.ffi_type.to_cpp_code(None).unwrap(),
        "const QVector< QString >*"
    );
    assert_eq!(ffi_arg.conversion, CppTypeConversionToFfi::ValueToPointer);
    assert!(type1.needs_allocation_place_variants());
}

#[test]
fn nested_template_cpp_code() {
    let type1 = class(
        "QHash",
        Some(vec![
            class("QString", None),
            class("QList", Some(vec![class("QString", None)])),
        ]),
    );
    let code = type1.to_cpp_code(None).unwrap();
    assert_eq!(&code, "QHash< QString, QList< QString > >");
    assert!(!code.contains(">>"));
    assert!(!code.contains("<<"));
}

#[test]
fn qflags() {
    let args = Some(vec![class("Qt::AlignmentFlag", None)]);
    let type1 = class("QFlags", args.clone());
    assert_eq!(type1.is_void(), false);
    assert_eq!(type1.is_class(), true);
    assert_eq!(type1.is_template_parameter(), false);
    assert_eq!(
        type1.to_cpp_code(None).unwrap(),
        "QFlags< Qt::AlignmentFlag >"
    );
    assert!(type1.to_cpp_code(Some(&String::new())).is_err());

    for role in &[CppTypeRole::NotReturnType, CppTypeRole::ReturnType] {
        let ffi_type = type1.to_cpp_ffi_type(role.clone()).unwrap();
        assert_eq!(&ffi_type.original_type, &type1);
        assert_eq!(
            &ffi_type.ffi_type,
            &CppType::BuiltInNumeric(CppBuiltInNumericType::UInt),
        );
        assert_eq!(
            &ffi_type.ffi_type.to_cpp_code(None).unwrap(),
            "unsigned int"
        );
        assert_eq!(ffi_type.conversion, CppTypeConversionToFfi::QFlagsToUInt);
    }
    assert!(!type1.needs_allocation_place_variants());
}

fn create_template_parameter_type() -> CppType {
    CppType::new_pointer(
        false,
        CppType::TemplateParameter {
            nested_level: 0,
            index: 0,
            name: "T".into(),
        },
    )
}

#[test]
fn template_parameter() {
    let type1 = create_template_parameter_type();
    assert_eq!(type1.is_void(), false);
    assert_eq!(type1.is_class(), false);
    assert_eq!(type1.is_template_parameter(), true);
    assert!(type1.to_cpp_code(None).is_err());
    assert!(type1.to_cpp_code(Some(&String::new())).is_err());
    assert!(type1.to_cpp_ffi_type(CppTypeRole::NotReturnType).is_err());
    assert!(type1.to_cpp_ffi_type(CppTypeRole::ReturnType).is_err());
    assert!(!type1.needs_allocation_place_variants());
}

#[test]
fn function1() {
    let type1 = CppType::FunctionPointer(CppFunctionPointerType {
        allows_variadic_arguments: false,
        return_type: Box::new(CppType::BuiltInNumeric(CppBuiltInNumericType::Int)),
        arguments: vec![
            CppType::BuiltInNumeric(CppBuiltInNumericType::Int),
            CppType::new_pointer(false, CppType::BuiltInNumeric(CppBuiltInNumericType::Bool)),
        ],
    });
    assert_eq!(type1.is_void(), false);
    assert_eq!(type1.is_class(), false);
    assert_eq!(type1.is_template_parameter(), false);
    let name = "my_name".to_string();
    assert!(type1.to_cpp_code(None).is_err());
    assert_eq!(
        type1.to_cpp_code(Some(&name)).unwrap(),
        "int (*my_name)(int, bool*)"
    );
    assert_type_to_ffi_unchanged(&type1);
    assert!(!type1.needs_allocation_place_variants());
}

#[test]
fn instantiate1() {
    let type1 = CppType::new_reference(
        true,
        CppType::TemplateParameter {
            nested_level: 0,
            index: 0,
            name: "T".into(),
        },
    );
    let type2 = CppType::new_pointer(false, CppType::BuiltInNumeric(CppBuiltInNumericType::Bool));
    let r = type1.instantiate(0, &[type2]).unwrap();
    assert_eq!(
        r,
        CppType::new_reference(
            true,
            CppType::new_pointer(false, CppType::BuiltInNumeric(CppBuiltInNumericType::Bool))
        )
    );
}

#[test]
fn rendering_errors_name_their_cause() {
    let name = "f".to_string();
    assert_eq!(CppType::Void.to_cpp_code(Some(&name)), Err(Error::UnexpectedName));
    let parameter = CppType::TemplateParameter { nested_level: 1, index: 0, name: "T".into() };
    assert_eq!(parameter.to_cpp_code(None), Err(Error::UnsupportedType));
    let pointer = CppType::FunctionPointer(CppFunctionPointerType {
        allows_variadic_arguments: false,
        return_type: Box::new(CppType::Void),
        arguments: vec![],
    });
    assert_eq!(pointer.to_cpp_code(None), Err(Error::MissingName));
    assert_eq!(pointer.to_cpp_code(Some(&name)).unwrap(), "void (*f)()");
    let nested = CppType::new_pointer(false, pointer.clone());
    assert_eq!(nested.to_cpp_code(None), Err(Error::MissingName));
    assert_eq!(nested.to_cpp_code(Some(&name)), Err(Error::UnexpectedName));
    let variadic = CppType::FunctionPointer(CppFunctionPointerType {
        allows_variadic_arguments: true,
        return_type: Box::new(CppType::Void),
        arguments: vec![],
    });
    assert_eq!(variadic.to_cpp_code(Some(&name)), Err(Error::UnsupportedType));
    let taking_pointer = CppType::FunctionPointer(CppFunctionPointerType {
        allows_variadic_arguments: false,
        return_type: Box::new(CppType::Void),
        arguments: vec![pointer],
    });
    assert_eq!(taking_pointer.to_cpp_code(Some(&name)), Err(Error::MissingName));
}

#[test]
fn instantiate_replaces_only_the_given_level() {
    let t = |nested_level: usize, index: usize| CppType::TemplateParameter {
        nested_level,
        index,
        name: "T".into(),
    };
    let generic = class("QMap", Some(vec![t(0, 1), t(1, 0), CppType::new_pointer(true, t(0, 0))]));
    let int_type = CppType::BuiltInNumeric(CppBuiltInNumericType::Int);
    let replacements = [class("QString", None), int_type.clone()];
    let r = generic.instantiate(0, &replacements).unwrap();
    assert_eq!(
        r,
        class(
            "QMap",
            Some(vec![
                int_type.clone(),
                t(1, 0),
                CppType::new_pointer(true, class("QString", None))
            ])
        )
    );
    // Nothing of level 0 is left, so a second round changes nothing.
    assert_eq!(r.instantiate(0, &replacements).unwrap(), r);
    // A type without parameters of the level is handed back as it is.
    assert_eq!(int_type.instantiate(0, &[]).unwrap(), int_type);
    assert_eq!(t(1, 5).instantiate(0, &[]).unwrap(), t(1, 5));
    // A parameter without replacement cannot be instantiated.
    assert_eq!(generic.instantiate(0, &[int_type.clone()]), Err(Error::UnsupportedType));
    let function = CppType::FunctionPointer(CppFunctionPointerType {
        allows_variadic_arguments: false,
        return_type: Box::new(t(0, 0)),
        arguments: vec![t(0, 1)],
    });
    assert_eq!(
        function.instantiate(0, &[CppType::Void, int_type.clone()]).unwrap(),
        CppType::FunctionPointer(CppFunctionPointerType {
            allows_variadic_arguments: false,
            return_type: Box::new(CppType::Void),
            arguments: vec![int_type],
        })
    );
}

#[test]
fn conversion_fails_on_template_parameters_inside() {
    let parameter = CppType::TemplateParameter { nested_level: 0, index: 0, name: "T".into() };
    let holder = class("QList", Some(vec![parameter.clone()]));
    for role in [CppTypeRole::NotReturnType, CppTypeRole::ReturnType] {
        assert_eq!(parameter.to_cpp_ffi_type(role), Err(Error::UnsupportedType));
        assert_eq!(holder.to_cpp_ffi_type(role), Err(Error::UnsupportedType));
        assert_eq!(
            CppType::new_reference(true, holder.clone()).to_cpp_ffi_type(role),
            Err(Error::UnsupportedType)
        );
        assert_eq!(
            class("QFlags", Some(vec![parameter.clone()])).to_cpp_ffi_type(role),
            Err(Error::UnsupportedType)
        );
    }
    assert!(holder.is_or_contains_template_parameter());
    assert_eq!(holder.to_cpp_code(None), Err(Error::UnsupportedType));
}

#[test]
fn references_to_other_types_cross_unchanged() {
    let reference = CppType::new_reference(true, CppType::BuiltInNumeric(CppBuiltInNumericType::Int));
    assert_type_to_ffi_unchanged(&reference);
    assert_eq!(reference.to_cpp_code(None).unwrap(), "const int&");
}

#[test]
fn flags_need_exactly_one_argument() {
    let two = class("QFlags", Some(vec![class("A", None), class("B", None)]));
    let ffi = two.to_cpp_ffi_type(CppTypeRole::NotReturnType).unwrap();
    assert_eq!(ffi.conversion, CppTypeConversionToFfi::ValueToPointer);
    let plain = class("QFlags", None);
    assert!(plain.needs_allocation_place_variants());
    let nested = class("Qt::QFlags", Some(vec![class("A", None)]));
    assert!(nested.needs_allocation_place_variants());
}

#[test]
fn paths_are_read_from_text() {
    let path = CppPath::from_str("Qt::Inner::Value").unwrap();
    assert_eq!(path.items, vec!["Qt".to_string(), "Inner".to_string(), "Value".to_string()]);
    assert_eq!(path.to_cpp_code(), "Qt::Inner::Value");
    assert_eq!(CppPath::from_str(""), Err(Error::MalformedInput));
    assert_eq!(CppPath::from_str("QList<int>"), Err(Error::MalformedInput));
    assert_eq!(CppPath::from_str("a>b"), Err(Error::MalformedInput));
    assert_eq!(CppPath::from_str("a:::b").unwrap().items, vec!["a".to_string(), ":b".to_string()]);
    assert_eq!(path.parent().unwrap().items, vec!["Qt".to_string(), "Inner".to_string()]);
    assert!(CppPath::from_str("x").unwrap().parent().is_none());
    assert!(path.same_as(&CppPath::from_items(vec![
        "Qt".to_string(),
        "Inner".to_string(),
        "Value".to_string()
    ])));
    assert!(!path.same_as(&CppPath::from_str("Qt::Inner").unwrap()));
}

#[test]
fn built_in_numeric_types_have_their_spelling() {
    let expected = [
        (CppBuiltInNumericType::Bool, "bool"),
        (CppBuiltInNumericType::Char, "char"),
        (CppBuiltInNumericType::SChar, "signed char"),
        (CppBuiltInNumericType::UChar, "unsigned char"),
        (CppBuiltInNumericType::WChar, "wchar_t"),
        (CppBuiltInNumericType::Char16, "char16_t"),
        (CppBuiltInNumericType::Char32, "char32_t"),
        (CppBuiltInNumericType::Short, "short"),
        (CppBuiltInNumericType::UShort, "unsigned short"),
        (CppBuiltInNumericType::Int, "int"),
        (CppBuiltInNumericType::UInt, "unsigned int"),
        (CppBuiltInNumericType::Long, "long"),
        (CppBuiltInNumericType::ULong, "unsigned long"),
        (CppBuiltInNumericType::LongLong, "long long"),
        (CppBuiltInNumericType::ULongLong, "unsigned long long"),
        (CppBuiltInNumericType::Int128, "__int128_t"),
        (CppBuiltInNumericType::UInt128, "__uint128_t"),
        (CppBuiltInNumericType::Float, "float"),
        (CppBuiltInNumericType::Double, "double"),
        (CppBuiltInNumericType::LongDouble, "long double"),
    ];
    for (t, code) in expected {
        assert_eq!(t.to_cpp_code(), code);
        assert_eq!(CppType::BuiltInNumeric(t).to_cpp_code(None).unwrap(), code);
    }
}
