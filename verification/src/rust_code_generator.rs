//! Synthesis of the wrapper code: every function here turns a piece of the
//! database of generated items into source text.

use crate::cpp_code::text_result_view;
use crate::errors::Error;
use crate::rust_info::{
    children_of, RustDatabase, RustDatabaseItem, RustEnumValue, RustFFIFunction, RustFfiWrapperData,
    RustFunction, RustFunctionArgument, RustFunctionKind, RustFunctionScope, RustItemKind, RustModule,
    RustStruct, RustStructKind, RustWrapperTypeKind,
};
use crate::rust_type::{
    api_type_result, full_name_of, lemma_pointers_have_last_constness, rust_types_view,
    RustFinalType, RustPath, RustPointerKindModel, RustPointerLikeTypeKind,
    RustToFfiTypeConversion, RustType, RustTypeModel,
};
use crate::processor::{is_without_repetition, lemma_different_numbers_are_few};
use crate::text::{
    decimal, i64_to_string, lemma_decimal_is_injective, lemma_decimal_len, join_seq, join_strings, replace_seq, replace_text, signed_decimal,
    split_seq, split_text, starts_with_seq, strings_view, text_starts_with, u128_to_string,
};
use vstd::prelude::*;
use vstd::string::*;

verus! {

/// The source text of a type as written inside the crate `crate_name`.
pub open spec fn type_code(t: RustTypeModel, crate_name: Seq<char>) -> Seq<char>
    decreases t,
{
    match t {
        RustTypeModel::EmptyTuple => "()"@,
        RustTypeModel::PointerLike { kind, is_const, target } => {
            let target_code = type_code(*target, crate_name);
            match kind {
                RustPointerKindModel::Pointer => if is_const {
                    "*const "@ + target_code
                } else {
                    "*mut "@ + target_code
                },
                RustPointerKindModel::Reference { lifetime } => {
                    let lifetime_text = match lifetime {
                        Some(l) => "'"@ + l + " "@,
                        None => Seq::empty(),
                    };
                    if is_const {
                        "&"@ + lifetime_text + target_code
                    } else {
                        "&"@ + lifetime_text + "mut "@ + target_code
                    }
                },
            }
        },
        RustTypeModel::Common { path, generic_arguments } => {
            let name = full_name_of(path, Some(crate_name));
            match generic_arguments {
                Some(args) => name + "<"@ + join_seq(type_codes(args, crate_name), ", "@) + ">"@,
                None => name,
            }
        },
        RustTypeModel::FunctionPointer { return_type, arguments } => {
            let head = "extern \"C\" fn("@ + join_seq(type_codes(arguments, crate_name), ", "@) + ")"@;
            if *return_type is EmptyTuple {
                head
            } else {
                head + " -> "@ + type_code(*return_type, crate_name)
            }
        },
    }
}

/// The source texts of a sequence of types.
pub open spec fn type_codes(ts: Seq<RustTypeModel>, crate_name: Seq<char>) -> Seq<Seq<char>>
    decreases ts,
{
    if ts.len() == 0 {
        Seq::empty()
    } else {
        type_codes(ts.drop_last(), crate_name).push(type_code(ts.last(), crate_name))
    }
}

/// The source texts of a sequence of types, element by element.
pub proof fn lemma_type_codes(ts: Seq<RustTypeModel>, crate_name: Seq<char>)
    ensures
        type_codes(ts, crate_name).len() == ts.len(),
        forall|i: int|
            #![trigger ts[i]]
            #![trigger type_codes(ts, crate_name)[i]]
            0 <= i < ts.len() ==> type_codes(ts, crate_name)[i] == type_code(ts[i], crate_name),
    decreases ts.len(),
{
    if ts.len() > 0 {
        lemma_type_codes(ts.drop_last(), crate_name);
        assert forall|i: int| 0 <= i < ts.len() implies #[trigger] type_codes(ts, crate_name)[i] == type_code(
            ts[i],
            crate_name,
        ) by {
            if i < ts.len() - 1 {
                assert(ts.drop_last()[i] == ts[i]);
            }
        }
    }
}

/// Renders each type of `types` as written inside the crate `current_crate`.
pub fn rust_types_to_code(types: &Vec<RustType>, current_crate: &str) -> (r: Vec<String>)
    ensures
        strings_view(r@) == type_codes(rust_types_view(types@), current_crate@),
    decreases types,
{
    let mut r: Vec<String> = Vec::new();
    let mut i: usize = 0;
    while i < types.len()
        invariant
            i <= types.len(),
            r.len() == i,
            forall|j: int|
                0 <= j < i ==> r[j]@ == type_code(#[trigger] rust_types_view(types@)[j], current_crate@),
        decreases types.len() - i,
    {
        let code = rust_type_to_code(&types[i], current_crate);
        assert(rust_types_view(types@)[i as int] == types[i as int]@);
        r.push(code);
        i += 1;
    }
    proof {
        lemma_type_codes(rust_types_view(types@), current_crate@);
        assert(strings_view(r@) =~= type_codes(rust_types_view(types@), current_crate@));
    }
    r
}

/// Renders the type `rust_type` as written inside the crate `current_crate`.
pub fn rust_type_to_code(rust_type: &RustType, current_crate: &str) -> (r: String)
    ensures
        r@ == type_code(rust_type@, current_crate@),
    decreases rust_type,
{
    proof {
        rust_type.lemma_model_children();
        reveal_with_fuel(RustType::model, 2);
    }
    match rust_type {
        RustType::EmptyTuple => "()".to_owned(),
        RustType::PointerLike { kind, target, is_const } => {
            let target_code = rust_type_to_code(target, current_crate);
            match kind {
                RustPointerLikeTypeKind::Pointer => {
                    let mut r = if *is_const {
                        "*const ".to_owned()
                    } else {
                        "*mut ".to_owned()
                    };
                    r.append(target_code.as_str());
                    r
                },
                RustPointerLikeTypeKind::Reference { lifetime } => {
                    let mut r = "&".to_owned();
                    match lifetime {
                        Some(lifetime) => {
                            let mut lifetime_text = "'".to_owned();
                            lifetime_text.append(lifetime.as_str());
                            lifetime_text.append(" ");
                            r.append(lifetime_text.as_str());
                        },
                        None => {
                            assert(r@ + Seq::<char>::empty() =~= r@);
                        },
                    }
                    if !*is_const {
                        r.append("mut ");
                    }
                    r.append(target_code.as_str());
                    r
                },
            }
        },
        RustType::Common { path, generic_arguments } => {
            let mut code = path.full_name(Some(current_crate));
            if let Some(args) = generic_arguments {
                let codes = rust_types_to_code(args, current_crate);
                let joined = join_strings(&codes, ", ");
                code.append("<");
                code.append(joined.as_str());
                code.append(">");
            }
            code
        },
        RustType::FunctionPointer { return_type, arguments } => {
            let codes = rust_types_to_code(arguments, current_crate);
            let joined = join_strings(&codes, ", ");
            let mut r = "extern \"C\" fn(".to_owned();
            r.append(joined.as_str());
            r.append(")");
            match &**return_type {
                RustType::EmptyTuple => {},
                return_type => {
                    let code = rust_type_to_code(return_type, current_crate);
                    r.append(" -> ");
                    r.append(code.as_str());
                },
            }
            r
        },
    }
}

/// One line of documentation as a documentation comment. A line that would
/// open an indented code block gets its first space written as a character
/// reference, wherever the opening stands in it.
pub open spec fn doc_line(line: Seq<char>) -> Seq<char> {
    let comment = "/// "@ + line + "\n"@;
    if starts_with_seq(comment, "///     "@) {
        replace_seq(comment, "///     "@, "/// &#32;   "@)
    } else {
        comment
    }
}

/// The lines of a text as documentation comments.
pub open spec fn doc_lines(lines: Seq<Seq<char>>) -> Seq<Seq<char>> {
    Seq::new(lines.len(), |i: int| doc_line(lines[i]))
}

/// A markdown text as documentation comments: nothing for an empty text,
/// else one comment line for each of its lines.
pub open spec fn formatted_doc(doc: Seq<char>) -> Seq<char> {
    if doc.len() == 0 {
        Seq::empty()
    } else {
        join_seq(doc_lines(split_seq(doc, "\n"@)), Seq::empty())
    }
}

/// Writes the markdown text `doc` as documentation comments.
pub fn format_doc(doc: &str) -> (r: String)
    ensures
        r@ == formatted_doc(doc@),
{
    if doc.is_empty() {
        return String::new();
    }
    proof {
        reveal_strlit("");
    }
    let lines = split_text(doc, "\n");
    let mut comments: Vec<String> = Vec::new();
    let mut i: usize = 0;
    while i < lines.len()
        invariant
            i <= lines.len(),
            comments.len() == i,
            forall|j: int| 0 <= j < i ==> comments[j]@ == doc_line(lines[j]@),
        decreases lines.len() - i,
    {
        let mut line = "/// ".to_owned();
        line.append(lines[i].as_str());
        line.append("\n");
        if text_starts_with(line.as_str(), "///     ") {
            line = replace_text(line.as_str(), "///     ", "/// &#32;   ");
        }
        comments.push(line);
        i += 1;
    }
    assert(strings_view(comments@) =~= doc_lines(strings_view(lines@)));
    assert(""@ =~= Seq::<char>::empty());
    join_strings(&comments, "")
}

/// The synthesizer of the code of one crate.
#[derive(Debug, Clone, PartialEq, Eq)]
pub struct Generator {
    /// The name of the crate the code is written for.
    pub crate_name: String,
}

/// The text of one argument of a foreign function declaration.
pub open spec fn ffi_argument_code(name: Seq<char>, argument_type: RustTypeModel, crate_name: Seq<char>) -> Seq<
    char,
> {
    name + ": "@ + type_code(argument_type, crate_name)
}

/// The declaration of the foreign function `func`.
pub open spec fn ffi_function_code(func: RustFFIFunction, crate_name: Seq<char>) -> Seq<char> {
    let arguments = Seq::new(
        func.arguments.len() as nat,
        |i: int| ffi_argument_code(func.arguments[i].name@, func.arguments[i].argument_type@, crate_name),
    );
    let head = "  pub fn "@ + func.path@.last() + "("@ + join_seq(arguments, ", "@) + ")"@;
    if func.return_type@ is EmptyTuple {
        head + ";\n"@
    } else {
        head + " -> "@ + type_code(func.return_type@, crate_name) + ";\n"@
    }
}

impl Generator {
    /// Renders the type `rust_type` as written inside the crate.
    pub fn rust_type_to_code(&self, rust_type: &RustType) -> (r: String)
        ensures
            r@ == type_code(rust_type@, self.crate_name@),
    {
        rust_type_to_code(rust_type, self.crate_name.as_str())
    }

    /// Renders `path` as written inside the crate.
    pub fn rust_path_to_string(&self, path: &RustPath) -> (r: String)
        ensures
            r@ == full_name_of(path@, Some(self.crate_name@)),
    {
        path.full_name(Some(self.crate_name.as_str()))
    }

    /// Renders the declaration of the foreign function `func`.
    pub fn rust_ffi_function_to_code(&self, func: &RustFFIFunction) -> (r: String)
        ensures
            r@ == ffi_function_code(*func, self.crate_name@),
    {
        let mut args: Vec<String> = Vec::new();
        let mut i: usize = 0;
        while i < func.arguments.len()
            invariant
                i <= func.arguments.len(),
                args.len() == i,
                forall|j: int|
                    0 <= j < i ==> args[j]@ == ffi_argument_code(
                        func.arguments[j].name@,
                        func.arguments[j].argument_type@,
                        self.crate_name@,
                    ),
            decreases func.arguments.len() - i,
        {
            let arg = &func.arguments[i];
            let mut text = arg.name.clone();
            text.append(": ");
            text.append(self.rust_type_to_code(&arg.argument_type).as_str());
            args.push(text);
            i += 1;
        }
        assert(strings_view(args@) =~= Seq::new(
            func.arguments.len() as nat,
            |i: int|
                ffi_argument_code(func.arguments[i].name@, func.arguments[i].argument_type@, self.crate_name@),
        ));
        let mut r = "  pub fn ".to_owned();
        r.append(func.path.last().as_str());
        r.append("(");
        r.append(join_strings(&args, ", ").as_str());
        r.append(")");
        match func.return_type {
            RustType::EmptyTuple => {},
            _ => {
                r.append(" -> ");
                r.append(self.rust_type_to_code(&func.return_type).as_str());
            },
        }
        r.append(";\n");
        r
    }
}


/// What opens the unchecked region around an expression: nothing where the
/// surrounding code is unchecked already.
pub open spec fn unsafe_start(in_unsafe_context: bool) -> Seq<char> {
    if in_unsafe_context {
        ""@
    } else {
        "unsafe { "@
    }
}

/// What closes the unchecked region around an expression.
pub open spec fn unsafe_end(in_unsafe_context: bool) -> Seq<char> {
    if in_unsafe_context {
        ""@
    } else {
        " }"@
    }
}

/// The code that makes an owning handle from the pointer `source`.
pub open spec fn owning_handle_code(source: Seq<char>, in_unsafe_context: bool) -> Seq<char> {
    unsafe_start(in_unsafe_context) + "::cpp_utils::CppBox::new("@ + source + ")"@ + unsafe_end(
        in_unsafe_context,
    )
}

/// The constness of the reference on the API side of a reference
/// conversion: that of the API type itself, or, for an optional reference,
/// that of the one generic argument of the API type. There is none where the
/// API type has not that shape.
pub open spec fn api_constness(t: RustFinalType) -> Option<bool> {
    if t.rust_api_to_ffi_conversion == RustToFfiTypeConversion::OptionRefToPtr {
        match t.rust_api_type@ {
            RustTypeModel::Common { generic_arguments: Some(args), .. } => if args.len() == 1 {
                args[0].last_constness()
            } else {
                None
            },
            _ => None,
        }
    } else {
        t.rust_api_type@.last_constness()
    }
}

/// A named type without its generic arguments.
pub open spec fn without_generic_arguments(t: RustTypeModel) -> RustTypeModel {
    match t {
        RustTypeModel::Common { path, .. } => RustTypeModel::Common { path, generic_arguments: None },
        _ => t,
    }
}

/// The code that turns `expression`, a value of the foreign-call type of
/// `t`, into a value of its API type.
///
/// Without a conversion the expression stands for itself. Otherwise the
/// value is first bound to `ffi_result` where `use_ffi_result_var` asks for
/// it, and then: a pointer becomes a reference through `as_ref` or `as_mut`,
/// by the constness of the API type, and a null pointer is a failure unless
/// the reference is optional; a value is read through the pointer; an owning
/// handle is made from the pointer; a flags wrapper is made from the
/// integer. `MalformedInput` is due where the API type has not the shape
/// the conversion needs.
pub open spec fn from_ffi_result(
    t: RustFinalType,
    expression: Seq<char>,
    in_unsafe_context: bool,
    use_ffi_result_var: bool,
    crate_name: Seq<char>,
) -> Result<Seq<char>, Error> {
    let conversion = t.rust_api_to_ffi_conversion;
    let binding = if use_ffi_result_var {
        "let ffi_result = "@ + expression + ";\n"@
    } else {
        ""@
    };
    let source = if use_ffi_result_var {
        "ffi_result"@
    } else {
        expression
    };
    let start = unsafe_start(in_unsafe_context);
    let end = unsafe_end(in_unsafe_context);
    match conversion {
        RustToFfiTypeConversion::NoConversion => Ok(expression),
        RustToFfiTypeConversion::RefToPtr => match api_constness(t) {
            Some(is_const) => Ok(
                binding + (start + source + "."@ + (if is_const {
                    "as_ref"@
                } else {
                    "as_mut"@
                }) + "()"@ + end + ".expect(\"Attempted to convert null pointer to reference\")"@),
            ),
            None => Err(Error::MalformedInput),
        },
        RustToFfiTypeConversion::OptionRefToPtr => match api_constness(t) {
            Some(is_const) => Ok(
                binding + (start + source + "."@ + (if is_const {
                    "as_ref"@
                } else {
                    "as_mut"@
                }) + "()"@ + end + ""@),
            ),
            None => Err(Error::MalformedInput),
        },
        RustToFfiTypeConversion::ValueToPtr => Ok(binding + (start + "*"@ + source + end)),
        RustToFfiTypeConversion::CppBoxToPtr => Ok(binding + owning_handle_code(source, in_unsafe_context)),
        RustToFfiTypeConversion::QFlagsToUInt => if t.rust_api_type@ is Common {
            Ok(
                binding + (type_code(without_generic_arguments(t.rust_api_type@), crate_name)
                    + "::from_int("@ + source + " as i32)"@),
            )
        } else {
            Err(Error::MalformedInput)
        },
    }
}

/// A value whose API type was made from its foreign-call type can always be
/// converted from its foreign form.
pub proof fn lemma_paired_types_convert(
    t: RustFinalType,
    flags_type: Option<RustTypeModel>,
    expression: Seq<char>,
    in_unsafe_context: bool,
    use_ffi_result_var: bool,
    crate_name: Seq<char>,
)
    requires
        api_type_result(t.rust_ffi_type@, t.rust_api_to_ffi_conversion, flags_type) == Ok::<
            RustTypeModel,
            Error,
        >(t.rust_api_type@),
    ensures
        from_ffi_result(t, expression, in_unsafe_context, use_ffi_result_var, crate_name) is Ok,
{
    let api = t.rust_api_type@;
    match t.rust_api_to_ffi_conversion {
        RustToFfiTypeConversion::RefToPtr => {
            lemma_pointers_have_last_constness(api);
        },
        RustToFfiTypeConversion::OptionRefToPtr => {
            let reference = api->Common_generic_arguments->0[0];
            lemma_pointers_have_last_constness(reference);
        },
        _ => {},
    }
}

/// The text of an optional string.
pub open spec fn optional_string(name: Option<&String>) -> Option<Seq<char>> {
    match name {
        Some(n) => Some(n@),
        None => None,
    }
}

/// The declaration of one argument of a generated function.
///
/// The receiver, which is the argument named `self`, is written by the form
/// of its API type: a named type gives `self`, a reference `&self` or
/// `&mut self` with its lifetime, and anything else is refused with
/// `MalformedInput`. Any other argument is written with its name and its API
/// type, and is declared `mut` where it is a value that is passed on through
/// a mutable pointer. With a `lifetime` given, the API type takes it first.
pub open spec fn arg_text_result(arg: RustFunctionArgument, lifetime: Option<Seq<char>>, crate_name: Seq<char>) -> Result<
    Seq<char>,
    Error,
> {
    let declared = arg.argument_type.rust_api_type@;
    let api = match lifetime {
        Some(l) => declared.with_lifetime(l),
        None => declared,
    };
    if arg.name@ == "self"@ {
        match api {
            RustTypeModel::Common { .. } => Ok("self"@),
            RustTypeModel::PointerLike {
                kind: RustPointerKindModel::Reference { lifetime: own },
                is_const,
                ..
            } => {
                let maybe_mut = if is_const {
                    ""@
                } else {
                    "mut "@
                };
                match own {
                    Some(l) => Ok("&'"@ + l + " "@ + maybe_mut + "self"@),
                    None => Ok("&"@ + maybe_mut + "self"@),
                }
            },
            _ => Err(Error::MalformedInput),
        }
    } else {
        let maybe_mut = if declared is Common && arg.argument_type.rust_api_to_ffi_conversion
            == RustToFfiTypeConversion::ValueToPtr && arg.argument_type.rust_ffi_type@.constness() == Some(
            false,
        ) {
            "mut "@
        } else {
            ""@
        };
        Ok(maybe_mut + arg.name@ + ": "@ + type_code(api, crate_name))
    }
}

/// The declarations of the arguments of a generated function, or
/// `MalformedInput` where one of them is a receiver that cannot be written.
pub open spec fn arg_texts_result(
    args: Seq<RustFunctionArgument>,
    lifetime: Option<Seq<char>>,
    crate_name: Seq<char>,
) -> Result<Seq<Seq<char>>, Error> {
    if forall|i: int| 0 <= i < args.len() ==> arg_text_result(#[trigger] args[i], lifetime, crate_name) is Ok {
        Ok(Seq::new(args.len(), |i: int| arg_text_result(args[i], lifetime, crate_name)->Ok_0))
    } else {
        Err(Error::MalformedInput)
    }
}

/// The texts of a list of strings or the error that came in its place.
pub open spec fn texts_result_view(r: Result<Vec<String>, Error>) -> Result<Seq<Seq<char>>, Error> {
    match r {
        Ok(v) => Ok(strings_view(v@)),
        Err(e) => Err(e),
    }
}

impl Generator {
    /// Wraps `expression`, a value of the foreign-call type of `type1`, into
    /// the code that makes a value of its API type from it.
    /// With `in_unsafe_context` set the code is meant for a place that is
    /// unchecked already; with `use_ffi_result_var` set it first binds the
    /// value to the variable `ffi_result`.
    pub fn convert_type_from_ffi(
        &self,
        type1: &RustFinalType,
        expression: String,
        in_unsafe_context: bool,
        use_ffi_result_var: bool,
    ) -> (r: Result<String, Error>)
        ensures
            text_result_view(r) == from_ffi_result(
                *type1,
                expression@,
                in_unsafe_context,
                use_ffi_result_var,
                self.crate_name@,
            ),
    {
        proof {
            type1.rust_api_type.lemma_model_children();
        }
        let (unsafe_start, unsafe_end) = if in_unsafe_context {
            ("", "")
        } else {
            ("unsafe { ", " }")
        };
        let conversion = type1.rust_api_to_ffi_conversion;
        match conversion {
            RustToFfiTypeConversion::NoConversion => {
                return Ok(expression);
            },
            _ => {},
        }
        let (mut code1, source_expr) = if use_ffi_result_var {
            let mut code1 = "let ffi_result = ".to_owned();
            code1.append(expression.as_str());
            code1.append(";\n");
            (code1, "ffi_result".to_owned())
        } else {
            ("".to_owned(), expression)
        };
        let code2 = match conversion {
            RustToFfiTypeConversion::NoConversion => String::new(),
            RustToFfiTypeConversion::RefToPtr | RustToFfiTypeConversion::OptionRefToPtr => {
                let api_is_const = match conversion {
                    RustToFfiTypeConversion::OptionRefToPtr => {
                        match &type1.rust_api_type {
                            RustType::Common { generic_arguments, .. } => {
                                match generic_arguments {
                                    Some(args) => {
                                        if args.len() != 1 {
                                            return Err(Error::MalformedInput);
                                        }
                                        assert(rust_types_view(args@)[0] == args[0]@);
                                        args[0].last_is_const()
                                    },
                                    None => {
                                        return Err(Error::MalformedInput);
                                    },
                                }
                            },
                            _ => {
                                return Err(Error::MalformedInput);
                            },
                        }
                    },
                    _ => type1.rust_api_type.last_is_const(),
                };
                let api_is_const = match api_is_const {
                    Ok(b) => b,
                    Err(e) => {
                        return Err(e);
                    },
                };
                let unwrap_code = match conversion {
                    RustToFfiTypeConversion::RefToPtr => ".expect(\"Attempted to convert null pointer to reference\")",
                    _ => "",
                };
                let mut code2 = unsafe_start.to_owned();
                code2.append(source_expr.as_str());
                code2.append(".");
                code2.append(if api_is_const {
                    "as_ref"
                } else {
                    "as_mut"
                });
                code2.append("()");
                code2.append(unsafe_end);
                code2.append(unwrap_code);
                code2
            },
            RustToFfiTypeConversion::ValueToPtr => {
                let mut code2 = unsafe_start.to_owned();
                code2.append("*");
                code2.append(source_expr.as_str());
                code2.append(unsafe_end);
                code2
            },
            RustToFfiTypeConversion::CppBoxToPtr => {
                let mut code2 = unsafe_start.to_owned();
                code2.append("::cpp_utils::CppBox::new(");
                code2.append(source_expr.as_str());
                code2.append(")");
                code2.append(unsafe_end);
                code2
            },
            RustToFfiTypeConversion::QFlagsToUInt => {
                let qflags_type = match &type1.rust_api_type {
                    RustType::Common { path, .. } => RustType::Common {
                        path: path.clone(),
                        generic_arguments: None,
                    },
                    _ => {
                        return Err(Error::MalformedInput);
                    },
                };
                let mut code2 = self.rust_type_to_code(&qflags_type);
                code2.append("::from_int(");
                code2.append(source_expr.as_str());
                code2.append(" as i32)");
                code2
            },
        };
        code1.append(code2.as_str());
        Ok(code1)
    }

    /// Renders the declaration of one argument of a generated function.
    pub fn arg_text(&self, arg: &RustFunctionArgument, lifetime: Option<&String>) -> (r: Result<String, Error>)
        ensures
            text_result_view(r) == arg_text_result(*arg, optional_string(lifetime), self.crate_name@),
    {
        let api_type = match lifetime {
            Some(lifetime) => arg.argument_type.rust_api_type.with_lifetime(lifetime.clone()),
            None => arg.argument_type.rust_api_type.duplicate(),
        };
        let self_name = "self".to_owned();
        if arg.name == self_name {
            match &api_type {
                RustType::Common { .. } => Ok("self".to_owned()),
                RustType::PointerLike { kind, is_const, .. } => {
                    match kind {
                        RustPointerLikeTypeKind::Reference { lifetime } => {
                            let maybe_mut = if *is_const {
                                ""
                            } else {
                                "mut "
                            };
                            match lifetime {
                                Some(lifetime) => {
                                    let mut r = "&'".to_owned();
                                    r.append(lifetime.as_str());
                                    r.append(" ");
                                    r.append(maybe_mut);
                                    r.append("self");
                                    Ok(r)
                                },
                                None => {
                                    let mut r = "&".to_owned();
                                    r.append(maybe_mut);
                                    r.append("self");
                                    Ok(r)
                                },
                            }
                        },
                        RustPointerLikeTypeKind::Pointer => Err(Error::MalformedInput),
                    }
                },
                _ => Err(Error::MalformedInput),
            }
        } else {
            let mut maybe_mut_declaration = "";
            if let RustType::Common { .. } = arg.argument_type.rust_api_type {
                if arg.argument_type.rust_api_to_ffi_conversion == RustToFfiTypeConversion::ValueToPtr {
                    if let RustType::PointerLike { is_const, .. } = &arg.argument_type.rust_ffi_type {
                        if !*is_const {
                            maybe_mut_declaration = "mut ";
                        }
                    }
                }
            }
            let mut r = maybe_mut_declaration.to_owned();
            r.append(arg.name.as_str());
            r.append(": ");
            r.append(self.rust_type_to_code(&api_type).as_str());
            Ok(r)
        }
    }

    /// Renders the declarations of the arguments of a generated function.
    pub fn arg_texts(&self, args: &[RustFunctionArgument], lifetime: Option<&String>) -> (r: Result<
        Vec<String>,
        Error,
    >)
        ensures
            texts_result_view(r) == arg_texts_result(args@, optional_string(lifetime), self.crate_name@),
    {
        let ghost given = optional_string(lifetime);
        let mut r: Vec<String> = Vec::new();
        let mut i: usize = 0;
        while i < args.len()
            invariant
                i <= args.len(),
                r.len() == i,
                given == optional_string(lifetime),
                forall|j: int|
                    0 <= j < i ==> arg_text_result(#[trigger] args[j], given, self.crate_name@) == Ok::<
                        Seq<char>,
                        Error,
                    >(r[j]@),
            decreases args.len() - i,
        {
            match self.arg_text(&args[i], lifetime) {
                Ok(text) => {
                    r.push(text);
                },
                Err(e) => {
                    assert(!(arg_text_result(args[i as int], given, self.crate_name@) is Ok));
                    return Err(Error::MalformedInput);
                },
            }
            i += 1;
        }
        assert(strings_view(r@) =~= arg_texts_result(args@, given, self.crate_name@)->Ok_0);
        Ok(r)
    }
}


/// The code that hands the argument `arg` to the foreign function.
///
/// Without a conversion the argument is passed by its name. A reference is
/// cast to the foreign pointer type, by way of the const pointer type where
/// a const reference has to go into a mutable pointer. A value is passed by
/// its address, cast to the foreign pointer type. An owning handle gives out
/// the pointer it holds. A flags wrapper is turned into its integer.
/// An optional reference cannot be passed and is refused with
/// `UnsupportedType`; `MalformedInput` is due where a type that has to be a
/// pointer or reference is none.
pub open spec fn argument_code_result(arg: RustFunctionArgument, crate_name: Seq<char>) -> Result<
    Seq<char>,
    Error,
> {
    let name = arg.name@;
    let api = arg.argument_type.rust_api_type@;
    let ffi = arg.argument_type.rust_ffi_type@;
    match arg.argument_type.rust_api_to_ffi_conversion {
        RustToFfiTypeConversion::NoConversion => Ok(name),
        RustToFfiTypeConversion::OptionRefToPtr => Err(Error::UnsupportedType),
        RustToFfiTypeConversion::RefToPtr => match api.constness() {
            None => Err(Error::MalformedInput),
            Some(api_is_const) => if !api_is_const {
                Ok(name + " as "@ + type_code(ffi, crate_name))
            } else {
                match ffi.constness() {
                    None => Err(Error::MalformedInput),
                    Some(ffi_is_const) => if ffi_is_const {
                        Ok(name + " as "@ + type_code(ffi, crate_name))
                    } else {
                        Ok(
                            name + " as "@ + type_code(ffi.with_constness(true), crate_name) + " as "@
                                + type_code(ffi, crate_name),
                        )
                    },
                }
            },
        },
        RustToFfiTypeConversion::ValueToPtr => match ffi.constness() {
            None => Err(Error::MalformedInput),
            Some(is_const) => Ok(
                (if is_const {
                    "&"@
                } else {
                    "&mut "@
                }) + name + " as "@ + type_code(ffi, crate_name),
            ),
        },
        RustToFfiTypeConversion::CppBoxToPtr => match ffi.constness() {
            None => Err(Error::MalformedInput),
            Some(is_const) => Ok(
                name + "."@ + (if is_const {
                    "as_ptr"@
                } else {
                    "as_mut_ptr"@
                }) + "()"@,
            ),
        },
        RustToFfiTypeConversion::QFlagsToUInt => Ok(name + ".to_int() as ::libc::c_uint"@),
    }
}

/// `count` argument places of the foreign function, none of them filled.
pub open spec fn empty_slots(count: nat) -> Seq<Option<Seq<char>>> {
    Seq::new(count, |i: int| None)
}

/// The argument places of the foreign function after the first `count`
/// arguments were put into theirs, a later argument replacing an earlier one
/// in the same place. The first argument whose place does not exist
/// (`MalformedInput`) or whose code cannot be written decides the error.
pub open spec fn slots_result(
    args: Seq<RustFunctionArgument>,
    count: nat,
    slot_count: nat,
    crate_name: Seq<char>,
) -> Result<Seq<Option<Seq<char>>>, Error>
    decreases count,
{
    if count == 0 || count > args.len() {
        Ok(empty_slots(slot_count))
    } else {
        match slots_result(args, (count - 1) as nat, slot_count, crate_name) {
            Err(e) => Err(e),
            Ok(slots) => {
                let arg = args[count - 1];
                if arg.ffi_index >= slot_count {
                    Err(Error::MalformedInput)
                } else {
                    match argument_code_result(arg, crate_name) {
                        Err(e) => Err(e),
                        Ok(code) => Ok(slots.update(arg.ffi_index as int, Some(code))),
                    }
                }
            },
        }
    }
}

/// Once an argument has failed, the arguments after it change nothing.
pub proof fn lemma_slots_error_stays(
    args: Seq<RustFunctionArgument>,
    failed: nat,
    count: nat,
    slot_count: nat,
    crate_name: Seq<char>,
)
    requires
        failed <= count <= args.len(),
        slots_result(args, failed, slot_count, crate_name) is Err,
    ensures
        slots_result(args, count, slot_count, crate_name) == slots_result(args, failed, slot_count, crate_name),
    decreases count,
{
    if count > failed {
        lemma_slots_error_stays(args, failed, (count - 1) as nat, slot_count, crate_name);
    }
}

/// Whether one of the arguments is named `name`.
pub open spec fn is_argument_name(args: Seq<RustFunctionArgument>, name: Seq<char>) -> bool {
    exists|i: int| 0 <= i < args.len() && (#[trigger] args[i]).name@ == name
}

/// The `n`-th name tried for the variable that receives the result:
/// `object`, `object2`, `object3` and so on.
pub open spec fn variable_candidate(n: nat) -> Seq<char> {
    if n <= 1 {
        "object"@
    } else {
        "object"@ + decimal(n)
    }
}

/// The first name from the `n`-th on that no argument has. The search ends
/// after one name more than there are arguments.
pub open spec fn result_variable_from(args: Seq<RustFunctionArgument>, n: nat) -> Seq<char>
    decreases args.len() + 2 - n,
{
    if n > args.len() + 1 || !is_argument_name(args, variable_candidate(n)) {
        variable_candidate(n)
    } else {
        result_variable_from(args, n + 1)
    }
}

/// The name of the variable that receives the result.
pub open spec fn result_variable(args: Seq<RustFunctionArgument>) -> Seq<char> {
    result_variable_from(args, 1)
}

/// Different numbers give different names to try.
pub proof fn lemma_candidates_differ(i: nat, j: nat)
    requires
        1 <= i,
        1 <= j,
        variable_candidate(i) == variable_candidate(j),
    ensures
        i == j,
{
    let stem = "object"@;
    lemma_decimal_len(i);
    lemma_decimal_len(j);
    if i >= 2 && j >= 2 {
        assert(decimal(i) =~= (stem + decimal(i)).subrange(stem.len() as int, (stem + decimal(i)).len() as int));
        assert(decimal(j) =~= (stem + decimal(j)).subrange(stem.len() as int, (stem + decimal(j)).len() as int));
        lemma_decimal_is_injective(i, j);
    } else if i >= 2 {
        assert((stem + decimal(i)).len() != stem.len());
    } else if j >= 2 {
        assert((stem + decimal(j)).len() != stem.len());
    }
}

/// Among one name more than there are arguments, one is the name of no
/// argument.
pub proof fn lemma_some_candidate_is_free(args: Seq<RustFunctionArgument>)
    ensures
        exists|i: nat| 1 <= i <= args.len() + 1 && !is_argument_name(args, #[trigger] variable_candidate(i)),
{
    if forall|i: nat| 1 <= i <= args.len() + 1 ==> is_argument_name(args, #[trigger] variable_candidate(i)) {
        let holders = Seq::new(
            args.len() + 1,
            |k: int|
                choose|a: int| 0 <= a < args.len() && (#[trigger] args[a]).name@ == variable_candidate((k + 1) as nat),
        );
        assert forall|k: int| 0 <= k < holders.len() implies 0 <= (#[trigger] holders[k]) < args.len()
            && args[holders[k]].name@ == variable_candidate((k + 1) as nat) by {
            assert(is_argument_name(args, variable_candidate((k + 1) as nat)));
        }
        assert(is_without_repetition(holders)) by {
            assert forall|k: int, l: int| 0 <= k < l < holders.len() implies (#[trigger] holders[k]) != (
            #[trigger] holders[l]) by {
                if holders[k] == holders[l] {
                    lemma_candidates_differ((k + 1) as nat, (l + 1) as nat);
                }
            }
        }
        lemma_different_numbers_are_few(holders, args.len());
    }
}

/// The search from the `n`-th name on finds a name that no argument has
/// when there is one among the names it tries.
pub proof fn lemma_search_finds_free_name(args: Seq<RustFunctionArgument>, n: nat, free: nat)
    requires
        1 <= n <= free <= args.len() + 1,
        !is_argument_name(args, variable_candidate(free)),
    ensures
        !is_argument_name(args, result_variable_from(args, n)),
    decreases free - n,
{
    if n < free && is_argument_name(args, variable_candidate(n)) {
        lemma_search_finds_free_name(args, n + 1, free);
    }
}

/// The variable that receives the result has the name of no argument.
pub proof fn lemma_result_variable_is_free(args: Seq<RustFunctionArgument>)
    ensures
        !is_argument_name(args, result_variable(args)),
{
    lemma_some_candidate_is_free(args);
    let free = choose|i: nat| 1 <= i <= args.len() + 1 && !is_argument_name(args, #[trigger] variable_candidate(i));
    lemma_search_finds_free_name(args, 1, free);
}

/// The type of the variable that receives the result: the API type, or,
/// where the result is an owning handle, the first generic argument of the
/// API type, without which the input is malformed.
pub open spec fn result_type_code(return_type: RustFinalType, crate_name: Seq<char>) -> Result<
    Seq<char>,
    Error,
> {
    if return_type.rust_api_to_ffi_conversion == RustToFfiTypeConversion::CppBoxToPtr {
        match return_type.rust_api_type@ {
            RustTypeModel::Common { generic_arguments: Some(args), .. } => if args.len() > 0 {
                Ok(type_code(args[0], crate_name))
            } else {
                Err(Error::MalformedInput)
            },
            _ => Err(Error::MalformedInput),
        }
    } else {
        Ok(type_code(return_type.rust_api_type@, crate_name))
    }
}

/// What the body yields of the variable that received the result: the
/// variable itself, or, where the result is an owning handle, the handle
/// made from the pointer to it.
pub open spec fn result_value_code(return_type: RustFinalType, variable: Seq<char>, in_unsafe_context: bool) -> Seq<
    char,
> {
    if return_type.rust_api_to_ffi_conversion == RustToFfiTypeConversion::CppBoxToPtr {
        owning_handle_code("&mut "@ + variable, in_unsafe_context)
    } else {
        variable
    }
}

/// Whether every argument place is filled.
pub open spec fn all_filled(slots: Seq<Option<Seq<char>>>) -> bool {
    forall|i: int| 0 <= i < slots.len() ==> (#[trigger] slots[i]) is Some
}

/// What fills the argument places.
pub open spec fn slot_texts(slots: Seq<Option<Seq<char>>>) -> Seq<Seq<char>> {
    Seq::new(slots.len(), |i: int| slots[i]->0)
}

/// The call of the foreign function with `slots` as its arguments.
pub open spec fn call_code(
    wrapper_data: RustFfiWrapperData,
    slots: Seq<Option<Seq<char>>>,
    in_unsafe_context: bool,
    semicolon: Seq<char>,
    crate_name: Seq<char>,
) -> Seq<char> {
    unsafe_start(in_unsafe_context) + full_name_of(wrapper_data.ffi_function_path@, Some(crate_name))
        + "("@ + join_seq(slot_texts(slots), ", "@) + ")"@ + semicolon + unsafe_end(in_unsafe_context)
}

/// The body of a wrapper function: the call of the foreign function with
/// everything converted on the way in and on the way out.
///
/// Every argument is put into its place among the arguments of the foreign
/// function. Where the foreign function writes its result to a place it is
/// handed, a variable is declared for it, its address goes into that place,
/// and the value of the body is the variable, or the owning handle made
/// from the pointer to it where the result is one. Otherwise the value of
/// the call is converted to the API type. `MalformedInput` is due where a place
/// does not exist or stays empty.
pub open spec fn ffi_call_result(
    arguments: Seq<RustFunctionArgument>,
    return_type: RustFinalType,
    wrapper_data: RustFfiWrapperData,
    in_unsafe_context: bool,
    crate_name: Seq<char>,
) -> Result<Seq<char>, Error> {
    let slot_count = wrapper_data.cpp_ffi_function.arguments.len() as nat;
    match slots_result(arguments, arguments.len(), slot_count, crate_name) {
        Err(e) => Err(e),
        Ok(slots) => match wrapper_data.return_type_ffi_index {
            Some(index) => {
                let variable = result_variable(arguments);
                match result_type_code(return_type, crate_name) {
                    Err(e) => Err(e),
                    Ok(written_type) => if index >= slot_count {
                        Err(Error::MalformedInput)
                    } else {
                        let filled = slots.update(index as int, Some("&mut "@ + variable));
                        if !all_filled(filled) {
                            Err(Error::MalformedInput)
                        } else {
                            Ok(
                                ("{\nlet mut "@ + variable + ": "@ + written_type + " = "@ + unsafe_start(
                                    in_unsafe_context,
                                )
                                    + "::cpp_utils::new_uninitialized::NewUninitialized::new_uninitialized()"@
                                    + unsafe_end(in_unsafe_context) + ";\n"@) + call_code(
                                    wrapper_data,
                                    filled,
                                    in_unsafe_context,
                                    ";"@,
                                    crate_name,
                                ) + (result_value_code(return_type, variable, in_unsafe_context) + "\n}"@),
                            )
                        }
                    },
                }
            },
            None => if !all_filled(slots) {
                Err(Error::MalformedInput)
            } else {
                from_ffi_result(
                    return_type,
                    call_code(wrapper_data, slots, in_unsafe_context, ""@, crate_name),
                    in_unsafe_context,
                    true,
                    crate_name,
                )
            },
        },
    }
}

/// Whether one of the arguments goes to the place `slot`.
pub open spec fn is_place_of_argument(args: Seq<RustFunctionArgument>, slot: int) -> bool {
    exists|k: int| 0 <= k < args.len() && (#[trigger] args[k]).ffi_index == slot
}

/// Where every argument has a place that exists and a code that can be
/// written, putting the first `count` arguments into their places succeeds
/// and fills the place of each of them.
pub proof fn lemma_places_are_filled(
    args: Seq<RustFunctionArgument>,
    count: nat,
    slot_count: nat,
    crate_name: Seq<char>,
)
    requires
        count <= args.len(),
        forall|k: int|
            0 <= k < args.len() ==> (#[trigger] args[k]).ffi_index < slot_count && argument_code_result(
                args[k],
                crate_name,
            ) is Ok,
    ensures
        slots_result(args, count, slot_count, crate_name) is Ok,
        slots_result(args, count, slot_count, crate_name)->Ok_0.len() == slot_count,
        forall|k: int|
            0 <= k < count ==> slots_result(args, count, slot_count, crate_name)->Ok_0[(
            #[trigger] args[k]).ffi_index as int] is Some,
    decreases count,
{
    if count > 0 {
        lemma_places_are_filled(args, (count - 1) as nat, slot_count, crate_name);
        let before = slots_result(args, (count - 1) as nat, slot_count, crate_name)->Ok_0;
        let after = slots_result(args, count, slot_count, crate_name)->Ok_0;
        let last = args[count - 1];
        assert(after == before.update(
            last.ffi_index as int,
            Some(argument_code_result(last, crate_name)->Ok_0),
        ));
        assert forall|k: int| 0 <= k < count implies after[(#[trigger] args[k]).ffi_index as int] is Some by {
            if k < count - 1 {
                assert(before[args[k].ffi_index as int] is Some);
            }
        }
    }
}

/// A class returned by value comes back through the out-location.
///
/// The premises: the result is a value that crosses as a pointer, the place
/// `index` of the foreign function receives it, every other place is that of
/// an argument, every argument has a place and a code that can be written,
/// and no argument is named `object`. Then the body declares the variable
/// `object` of the API type without a value, hands `&mut object` to the
/// place `index`, ends the call with `;`, and has `object` as its value. The
/// value of the call itself is not used.
pub proof fn lemma_value_result_comes_through_out_location(
    arguments: Seq<RustFunctionArgument>,
    return_type: RustFinalType,
    wrapper_data: RustFfiWrapperData,
    index: usize,
    in_unsafe_context: bool,
    crate_name: Seq<char>,
)
    requires
        return_type.rust_api_to_ffi_conversion == RustToFfiTypeConversion::ValueToPtr,
        wrapper_data.return_type_ffi_index == Some(index),
        index < wrapper_data.cpp_ffi_function.arguments.len(),
        forall|k: int|
            0 <= k < arguments.len() ==> (#[trigger] arguments[k]).ffi_index
                < wrapper_data.cpp_ffi_function.arguments.len() && argument_code_result(
                arguments[k],
                crate_name,
            ) is Ok,
        forall|slot: int|
            0 <= slot < wrapper_data.cpp_ffi_function.arguments.len() && slot != index
                ==> #[trigger] is_place_of_argument(arguments, slot),
        !is_argument_name(arguments, "object"@),
    ensures
        ({
            let places = slots_result(
                arguments,
                arguments.len(),
                wrapper_data.cpp_ffi_function.arguments.len() as nat,
                crate_name,
            )->Ok_0;
            let filled = places.update(index as int, Some("&mut "@ + "object"@));
            &&& all_filled(filled)
            &&& filled[index as int] == Some("&mut "@ + "object"@)
            &&& ffi_call_result(arguments, return_type, wrapper_data, in_unsafe_context, crate_name) == Ok::<
                Seq<char>,
                Error,
            >(
                ("{\nlet mut "@ + "object"@ + ": "@ + type_code(return_type.rust_api_type@, crate_name)
                    + " = "@ + unsafe_start(in_unsafe_context)
                    + "::cpp_utils::new_uninitialized::NewUninitialized::new_uninitialized()"@
                    + unsafe_end(in_unsafe_context) + ";\n"@) + call_code(
                    wrapper_data,
                    filled,
                    in_unsafe_context,
                    ";"@,
                    crate_name,
                ) + ("object"@ + "\n}"@),
            )
        }),
{
    let slot_count = wrapper_data.cpp_ffi_function.arguments.len() as nat;
    lemma_places_are_filled(arguments, arguments.len(), slot_count, crate_name);
    let places = slots_result(arguments, arguments.len(), slot_count, crate_name)->Ok_0;
    let filled = places.update(index as int, Some("&mut "@ + "object"@));
    assert forall|slot: int| 0 <= slot < filled.len() implies (#[trigger] filled[slot]) is Some by {
        if slot != index {
            assert(is_place_of_argument(arguments, slot));
            let k = choose|k: int| 0 <= k < arguments.len() && (#[trigger] arguments[k]).ffi_index == slot;
            assert(places[arguments[k].ffi_index as int] is Some);
        }
    }
    assert(variable_candidate(1) == "object"@);
    assert(result_variable(arguments) == "object"@);
}

/// What a list of argument places holds.
pub open spec fn slots_view(slots: Seq<Option<String>>) -> Seq<Option<Seq<char>>> {
    Seq::new(
        slots.len(),
        |i: int|
            match slots[i] {
                Some(s) => Some(s@),
                None => None,
            },
    )
}

impl Generator {
    /// Renders the code that hands the argument `arg` to the foreign
    /// function.
    pub fn argument_code(&self, arg: &RustFunctionArgument) -> (r: Result<String, Error>)
        ensures
            text_result_view(r) == argument_code_result(*arg, self.crate_name@),
    {
        let mut code = arg.name.clone();
        match arg.argument_type.rust_api_to_ffi_conversion {
            RustToFfiTypeConversion::NoConversion => {},
            RustToFfiTypeConversion::OptionRefToPtr => {
                return Err(Error::UnsupportedType);
            },
            RustToFfiTypeConversion::RefToPtr => {
                let api_is_const = match arg.argument_type.rust_api_type.is_const() {
                    Ok(b) => b,
                    Err(e) => {
                        return Err(e);
                    },
                };
                let needs_two_casts = if api_is_const {
                    match arg.argument_type.rust_ffi_type.is_const() {
                        Ok(b) => !b,
                        Err(e) => {
                            return Err(e);
                        },
                    }
                } else {
                    false
                };
                if needs_two_casts {
                    let mut intermediate_type = arg.argument_type.rust_ffi_type.duplicate();
                    match intermediate_type.set_const(true) {
                        Ok(_) => {},
                        Err(e) => {
                            return Err(e);
                        },
                    }
                    code.append(" as ");
                    code.append(self.rust_type_to_code(&intermediate_type).as_str());
                    code.append(" as ");
                    code.append(self.rust_type_to_code(&arg.argument_type.rust_ffi_type).as_str());
                } else {
                    code.append(" as ");
                    code.append(self.rust_type_to_code(&arg.argument_type.rust_ffi_type).as_str());
                }
            },
            RustToFfiTypeConversion::ValueToPtr => {
                let is_const = match arg.argument_type.rust_ffi_type.is_const() {
                    Ok(b) => b,
                    Err(e) => {
                        return Err(e);
                    },
                };
                let mut text = if is_const {
                    "&".to_owned()
                } else {
                    "&mut ".to_owned()
                };
                text.append(code.as_str());
                text.append(" as ");
                text.append(self.rust_type_to_code(&arg.argument_type.rust_ffi_type).as_str());
                code = text;
            },
            RustToFfiTypeConversion::CppBoxToPtr => {
                let is_const = match arg.argument_type.rust_ffi_type.is_const() {
                    Ok(b) => b,
                    Err(e) => {
                        return Err(e);
                    },
                };
                code.append(".");
                code.append(if is_const {
                    "as_ptr"
                } else {
                    "as_mut_ptr"
                });
                code.append("()");
            },
            RustToFfiTypeConversion::QFlagsToUInt => {
                code.append(".to_int() as ::libc::c_uint");
            },
        }
        Ok(code)
    }

    /// Whether one of the arguments is named `name`.
    pub fn has_argument_named(arguments: &[RustFunctionArgument], name: &String) -> (r: bool)
        ensures
            r == is_argument_name(arguments@, name@),
    {
        let mut i: usize = 0;
        while i < arguments.len()
            invariant
                i <= arguments.len(),
                forall|j: int| 0 <= j < i ==> (#[trigger] arguments[j]).name@ != name@,
            decreases arguments.len() - i,
        {
            if arguments[i].name == *name {
                return true;
            }
            i += 1;
        }
        false
    }

    /// The name of the variable that receives the result of the foreign
    /// function: the first of `object`, `object2`, `object3` and so on that
    /// no argument has.
    pub fn result_variable_name(arguments: &[RustFunctionArgument]) -> (r: String)
        ensures
            r@ == result_variable(arguments@),
            !is_argument_name(arguments@, r@),
    {
        proof {
            lemma_result_variable_is_free(arguments@);
        }
        let limit: u128 = arguments.len() as u128 + 1;
        let mut ii: u128 = 1;
        let mut name = "object".to_owned();
        let mut taken = Self::has_argument_named(arguments, &name);
        while ii <= limit && taken
            invariant
                1 <= ii <= limit + 1,
                limit == arguments.len() + 1,
                name@ == variable_candidate(ii as nat),
                taken == is_argument_name(arguments@, name@),
                result_variable(arguments@) == result_variable_from(arguments@, ii as nat),
            decreases limit + 1 - ii,
        {
            ii += 1;
            name = "object".to_owned();
            name.append(u128_to_string(ii).as_str());
            taken = Self::has_argument_named(arguments, &name);
        }
        name
    }

    /// Renders the body of a wrapper function: the call of the foreign
    /// function of `wrapper_data` with `arguments`, giving a value of the
    /// API type of `return_type`. With `in_unsafe_context` set the code is
    /// meant for a place that is unchecked already.
    pub fn generate_ffi_call(
        &self,
        arguments: &[RustFunctionArgument],
        return_type: &RustFinalType,
        wrapper_data: &RustFfiWrapperData,
        in_unsafe_context: bool,
    ) -> (r: Result<String, Error>)
        ensures
            text_result_view(r) == ffi_call_result(
                arguments@,
                *return_type,
                *wrapper_data,
                in_unsafe_context,
                self.crate_name@,
            ),
    {
        let (unsafe_start, unsafe_end) = if in_unsafe_context {
            ("", "")
        } else {
            ("unsafe { ", " }")
        };
        let slot_count = wrapper_data.cpp_ffi_function.arguments.len();
        let mut final_args: Vec<Option<String>> = Vec::new();
        let mut n: usize = 0;
        while n < slot_count
            invariant
                n <= slot_count,
                final_args.len() == n,
                forall|j: int| 0 <= j < n ==> final_args[j] is None,
            decreases slot_count - n,
        {
            final_args.push(None);
            n += 1;
        }
        assert(slots_view(final_args@) =~= empty_slots(slot_count as nat));
        let mut k: usize = 0;
        while k < arguments.len()
            invariant
                k <= arguments.len(),
                final_args.len() == slot_count,
                slot_count == wrapper_data.cpp_ffi_function.arguments.len(),
                slots_result(arguments@, k as nat, slot_count as nat, self.crate_name@) == Ok::<
                    Seq<Option<Seq<char>>>,
                    Error,
                >(slots_view(final_args@)),
            decreases arguments.len() - k,
        {
            let arg = &arguments[k];
            if arg.ffi_index >= final_args.len() {
                proof {
                    lemma_slots_error_stays(
                        arguments@,
                        (k + 1) as nat,
                        arguments@.len(),
                        slot_count as nat,
                        self.crate_name@,
                    );
                }
                return Err(Error::MalformedInput);
            }
            let code = match self.argument_code(arg) {
                Ok(code) => code,
                Err(e) => {
                    proof {
                        lemma_slots_error_stays(
                            arguments@,
                            (k + 1) as nat,
                            arguments@.len(),
                            slot_count as nat,
                            self.crate_name@,
                        );
                    }
                    return Err(e);
                },
            };
            let ghost before = slots_view(final_args@);
            final_args.set(arg.ffi_index, Some(code));
            assert(slots_view(final_args@) =~= before.update(arg.ffi_index as int, Some(code@)));
            k += 1;
        }
        let mut preamble = String::new();
        let mut maybe_result_var_name: Option<String> = None;
        if let Some(i) = wrapper_data.return_type_ffi_index {
            let return_var_name = Self::result_variable_name(arguments);
            let struct_name = match return_type.rust_api_to_ffi_conversion {
                RustToFfiTypeConversion::CppBoxToPtr => {
                    proof {
                        return_type.rust_api_type.lemma_model_children();
                    }
                    match &return_type.rust_api_type {
                        RustType::Common { generic_arguments, .. } => {
                            match generic_arguments {
                                Some(generic_arguments) => {
                                    if generic_arguments.len() == 0 {
                                        return Err(Error::MalformedInput);
                                    }
                                    assert(rust_types_view(generic_arguments@)[0] == generic_arguments[0]@);
                                    self.rust_type_to_code(&generic_arguments[0])
                                },
                                None => {
                                    return Err(Error::MalformedInput);
                                },
                            }
                        },
                        _ => {
                            return Err(Error::MalformedInput);
                        },
                    }
                },
                _ => self.rust_type_to_code(&return_type.rust_api_type),
            };
            preamble.append("{\nlet mut ");
            preamble.append(return_var_name.as_str());
            preamble.append(": ");
            preamble.append(struct_name.as_str());
            preamble.append(" = ");
            preamble.append(unsafe_start);
            preamble.append("::cpp_utils::new_uninitialized::NewUninitialized::new_uninitialized()");
            preamble.append(unsafe_end);
            preamble.append(";\n");
            if i >= final_args.len() {
                return Err(Error::MalformedInput);
            }
            let mut address = "&mut ".to_owned();
            address.append(return_var_name.as_str());
            let ghost before = slots_view(final_args@);
            final_args.set(i, Some(address));
            assert(slots_view(final_args@) =~= before.update(i as int, Some(address@)));
            maybe_result_var_name = Some(return_var_name);
        }
        let ghost filled = slots_view(final_args@);
        let ghost expected = ffi_call_result(
            arguments@,
            *return_type,
            *wrapper_data,
            in_unsafe_context,
            self.crate_name@,
        );
        assert(!all_filled(filled) ==> expected == Err::<Seq<char>, Error>(Error::MalformedInput));
        let mut texts: Vec<String> = Vec::new();
        let mut m: usize = 0;
        while m < final_args.len()
            invariant
                m <= final_args.len(),
                texts.len() == m,
                filled == slots_view(final_args@),
                expected == ffi_call_result(
                    arguments@,
                    *return_type,
                    *wrapper_data,
                    in_unsafe_context,
                    self.crate_name@,
                ),
                !all_filled(filled) ==> expected == Err::<Seq<char>, Error>(Error::MalformedInput),
                forall|j: int| 0 <= j < m ==> (#[trigger] filled[j]) == Some(texts[j]@),
            decreases final_args.len() - m,
        {
            match &final_args[m] {
                Some(text) => {
                    assert(filled[m as int] == Some(text@));
                    texts.push(text.clone());
                },
                None => {
                    assert(filled[m as int] is None);
                    return Err(Error::MalformedInput);
                },
            }
            m += 1;
        }
        assert(strings_view(texts@) =~= slot_texts(filled));
        let mut call = unsafe_start.to_owned();
        call.append(self.rust_path_to_string(&wrapper_data.ffi_function_path).as_str());
        call.append("(");
        call.append(join_strings(&texts, ", ").as_str());
        call.append(")");
        call.append(if maybe_result_var_name.is_some() {
            ";"
        } else {
            ""
        });
        call.append(unsafe_end);
        match maybe_result_var_name {
            Some(name) => {
                let mut code = preamble;
                code.append(call.as_str());
                let mut tail = match return_type.rust_api_to_ffi_conversion {
                    RustToFfiTypeConversion::CppBoxToPtr => {
                        let mut address = "&mut ".to_owned();
                        address.append(name.as_str());
                        let mut handle = unsafe_start.to_owned();
                        handle.append("::cpp_utils::CppBox::new(");
                        handle.append(address.as_str());
                        handle.append(")");
                        handle.append(unsafe_end);
                        handle
                    },
                    _ => name,
                };
                tail.append("\n}");
                code.append(tail.as_str());
                Ok(code)
            },
            None => self.convert_type_from_ffi(return_type, call, in_unsafe_context, true),
        }
    }
}


/// The text of an optional string, which is empty where there is none.
pub open spec fn text_or_empty(text: Option<String>) -> Seq<char> {
    match text {
        Some(s) => s@,
        None => Seq::empty(),
    }
}

/// The API type at position `index` of a function's signature: the
/// arguments come first and the return type last.
pub open spec fn signature_type(func: RustFunction, index: int) -> RustTypeModel {
    if 0 <= index < func.arguments.len() {
        func.arguments[index].argument_type.rust_api_type@
    } else {
        func.return_type.rust_api_type@
    }
}

/// The lifetimes named in the first `count` types of a function's
/// signature, each once, in the order in which they first appear.
pub open spec fn named_lifetimes(func: RustFunction, count: nat) -> Seq<Seq<char>>
    decreases count,
{
    if count == 0 || count > func.arguments.len() + 1 {
        Seq::empty()
    } else {
        let before = named_lifetimes(func, (count - 1) as nat);
        match signature_type(func, count - 1).lifetime() {
            Some(l) => if before.contains(l) {
                before
            } else {
                before.push(l)
            },
            None => before,
        }
    }
}

/// The lifetime parameters of a function: nothing where no lifetime is
/// named.
pub open spec fn lifetimes_text(lifetimes: Seq<Seq<char>>) -> Seq<char> {
    if lifetimes.len() == 0 {
        ""@
    } else {
        "<"@ + join_seq(Seq::new(lifetimes.len(), |i: int| "'"@ + lifetimes[i]), ", "@) + ">"@
    }
}

/// The code of a wrapper function.
///
/// It is made of the documentation, the visibility (none inside a trait
/// implementation), `unsafe` where the function is, the name, the lifetime
/// parameters, the arguments, the return type unless it is the unit type,
/// and the body. Only a function that wraps a foreign function can be
/// rendered; the others are refused with `MalformedInput`.
pub open spec fn final_function_result(func: RustFunction, scope: RustFunctionScope, crate_name: Seq<char>) -> Result<
    Seq<char>,
    Error,
> {
    match func.kind {
        RustFunctionKind::FfiWrapper(data) => match ffi_call_result(
            func.arguments@,
            func.return_type,
            data,
            func.is_unsafe,
            crate_name,
        ) {
            Err(e) => Err(e),
            Ok(body) => match arg_texts_result(func.arguments@, None, crate_name) {
                Err(e) => Err(e),
                Ok(args) => Ok(
                    formatted_doc(text_or_empty(func.extra_doc)) + (if scope is TraitImpl {
                        ""@
                    } else {
                        "pub "@
                    }) + (if func.is_unsafe {
                        "unsafe "@
                    } else {
                        ""@
                    }) + "fn "@ + func.path@.last() + lifetimes_text(
                        named_lifetimes(func, (func.arguments.len() + 1) as nat),
                    ) + "("@ + join_seq(args, ", "@) + ")"@ + (if func.return_type.rust_api_type@ is EmptyTuple {
                        ""@
                    } else {
                        " -> "@ + type_code(func.return_type.rust_api_type@, crate_name)
                    }) + " {\n"@ + body + "}\n\n"@,
                ),
            },
        },
        _ => Err(Error::MalformedInput),
    }
}

/// The constant of an enum value. A value whose path has no parent has no
/// enum to belong to and is refused with `MalformedInput`.
pub open spec fn enum_value_result(value: RustEnumValue, crate_name: Seq<char>) -> Result<Seq<char>, Error> {
    if value.path@.len() <= 1 {
        Err(Error::MalformedInput)
    } else {
        let struct_path = full_name_of(value.path@.drop_last(), Some(crate_name));
        Ok(
            "pub const "@ + value.path@.last() + ": "@ + struct_path + " = "@ + struct_path + "("@
                + signed_decimal(value.value as int) + ");\n"@,
        )
    }
}

/// What stands above the declaration of a wrapper type: the wrapper of an
/// enum is a plain value that can be copied and compared, the wrapper of a
/// class is laid out as the native side lays it out.
pub open spec fn wrapper_attribute(kind: RustWrapperTypeKind) -> Seq<char> {
    match kind {
        RustWrapperTypeKind::EnumWrapper => "#[derive(Debug, Clone, Copy, PartialEq, Eq)]\n"@,
        _ => "#[repr(C)]\n"@,
    }
}

/// The type that a wrapper type wraps: the native integer for an enum, the
/// sized type for a movable class, the raw type for an immovable one.
pub open spec fn wrapped_type_code(kind: RustWrapperTypeKind, crate_name: Seq<char>) -> Seq<char> {
    match kind {
        RustWrapperTypeKind::EnumWrapper => "::std::os::raw::c_int"@,
        RustWrapperTypeKind::MovableClassWrapper { sized_type_path } => full_name_of(
            sized_type_path@,
            Some(crate_name),
        ),
        RustWrapperTypeKind::ImmovableClassWrapper { raw_type_path } => full_name_of(
            raw_type_path@,
            Some(crate_name),
        ),
    }
}

/// The declaration of a wrapper type: its documentation, its attribute, and
/// a struct of one field, named by the last name of its path, public where
/// the type is, that holds the wrapped type. This is so for the wrapper of
/// an enum and for the wrapper of a class, movable or not. The other kinds
/// of struct are no wrapper types and are refused with `MalformedInput`.
pub open spec fn struct_head_result(data: RustStruct, crate_name: Seq<char>) -> Result<Seq<char>, Error> {
    match data.kind {
        RustStructKind::WrapperType(wrapper) => Ok(
            formatted_doc(text_or_empty(data.extra_doc)) + "\n"@ + wrapper_attribute(wrapper.kind) + (
            if data.is_public {
                "pub "@
            } else {
                ""@
            }) + "struct "@ + data.path@.last() + "("@ + wrapped_type_code(wrapper.kind, crate_name)
                + ");\n"@ + "\n"@,
        ),
        _ => Err(Error::MalformedInput),
    }
}

/// The number of names in the path of an item; nothing for an item without
/// a path.
pub open spec fn path_len(item: RustDatabaseItem) -> nat {
    match item.path_view() {
        Some(p) => p.len(),
        None => 0,
    }
}

/// The length of the longest path among `items`.
pub open spec fn longest_path(items: Seq<RustDatabaseItem>) -> nat
    decreases items.len(),
{
    if items.len() == 0 {
        0
    } else {
        let rest = longest_path(items.drop_last());
        let last = path_len(items.last());
        if last > rest {
            last
        } else {
            rest
        }
    }
}

/// How many levels of nesting there can be below a path of `len` names.
pub open spec fn depth_left(items: Seq<RustDatabaseItem>, len: nat) -> nat {
    let longest = longest_path(items);
    if longest >= len {
        (longest - len) as nat
    } else {
        0
    }
}

/// The code of one item of the database with everything that stands inside
/// it.
///
/// A module is a block that holds its children; a wrapper type, of an enum
/// or of a class, is its declaration followed, where it has children, by an
/// `impl` block that holds them; an enum value is a constant; a function is a wrapper
/// function. The declaration of a foreign function is no part of this code:
/// the declarations are listed apart. A trait implementation cannot be
/// rendered and is refused with `MalformedInput`.
pub open spec fn item_result(items: Seq<RustDatabaseItem>, item: RustDatabaseItem, crate_name: Seq<char>) -> Result<
    Seq<char>,
    Error,
>
    decreases depth_left(items, path_len(item)), 1nat, 0nat,
{
    match item.kind {
        RustItemKind::Module(module) => match children_result(
            items,
            module.path@,
            children_of(items, module.path@).len(),
            crate_name,
        ) {
            Err(e) => Err(e),
            Ok(inner) => Ok(
                formatted_doc(text_or_empty(module.doc.extra_doc)) + "\n"@ + "pub mod "@
                    + module.path@.last() + " {\n"@ + inner + "}\n"@,
            ),
        },
        RustItemKind::Struct(data) => match struct_head_result(data, crate_name) {
            Err(e) => Err(e),
            Ok(head) => {
                let count = children_of(items, data.path@).len();
                if count == 0 {
                    Ok(head)
                } else {
                    match children_result(items, data.path@, count, crate_name) {
                        Err(e) => Err(e),
                        Ok(inner) => Ok(
                            head + ("impl "@ + data.path@.last() + " {\n"@ + inner + "}\n"@ + "\n"@),
                        ),
                    }
                }
            },
        },
        RustItemKind::EnumValue(value) => enum_value_result(value, crate_name),
        RustItemKind::Function(func) => final_function_result(func, RustFunctionScope::Free, crate_name),
        RustItemKind::FfiFunction(_) => Ok(Seq::empty()),
        RustItemKind::TraitImpl(_) => Err(Error::MalformedInput),
    }
}

/// The code of the first `count` items that stand directly inside the item
/// at `parent`, one after another; the first that cannot be rendered decides
/// the error. A child is an item with a path one name longer than that of
/// its parent; a trait implementation, which has no path, is refused with
/// `MalformedInput`.
pub open spec fn children_result(
    items: Seq<RustDatabaseItem>,
    parent: Seq<Seq<char>>,
    count: nat,
    crate_name: Seq<char>,
) -> Result<Seq<char>, Error>
    decreases depth_left(items, parent.len()), 0nat, count,
{
    if count == 0 || count > children_of(items, parent).len() {
        Ok(Seq::empty())
    } else {
        match children_result(items, parent, (count - 1) as nat, crate_name) {
            Err(e) => Err(e),
            Ok(before) => {
                let child = children_of(items, parent)[count - 1];
                if depth_left(items, path_len(child)) < depth_left(items, parent.len()) {
                    match item_result(items, child, crate_name) {
                        Err(e) => Err(e),
                        Ok(text) => Ok(before + text),
                    }
                } else {
                    Err(Error::MalformedInput)
                }
            },
        }
    }
}

/// No item has a longer path than the longest.
pub proof fn lemma_longest_path(items: Seq<RustDatabaseItem>, i: int)
    requires
        0 <= i < items.len(),
    ensures
        path_len(items[i]) <= longest_path(items),
    decreases items.len(),
{
    if i < items.len() - 1 {
        assert(items.drop_last()[i] == items[i]);
        lemma_longest_path(items.drop_last(), i);
    }
}

/// Every child of a path is an item of the database that stands in that
/// path.
pub proof fn lemma_children_are_items(items: Seq<RustDatabaseItem>, parent: Seq<Seq<char>>, k: int)
    requires
        0 <= k < children_of(items, parent).len(),
    ensures
        children_of(items, parent)[k].stands_in(parent),
        exists|i: int| 0 <= i < items.len() && #[trigger] items[i] == children_of(items, parent)[k],
    decreases items.len(),
{
    if items.len() > 0 {
        let rest = children_of(items.drop_last(), parent);
        if k < rest.len() {
            lemma_children_are_items(items.drop_last(), parent, k);
            let i = choose|i: int| 0 <= i < items.drop_last().len() && #[trigger] items.drop_last()[i] == rest[k];
            assert(items[i] == children_of(items, parent)[k]);
        } else {
            assert(items[items.len() - 1] == children_of(items, parent)[k]);
        }
    }
}

/// A child with a path lies one level deeper than its parent, so that only
/// a trait implementation is refused for its depth.
pub proof fn lemma_children_are_deeper(items: Seq<RustDatabaseItem>, parent: Seq<Seq<char>>, k: int)
    requires
        0 <= k < children_of(items, parent).len(),
        !(children_of(items, parent)[k].kind is TraitImpl),
    ensures
        path_len(children_of(items, parent)[k]) == parent.len() + 1,
        depth_left(items, path_len(children_of(items, parent)[k])) < depth_left(items, parent.len()),
{
    lemma_children_are_items(items, parent, k);
    let i = choose|i: int| 0 <= i < items.len() && #[trigger] items[i] == children_of(items, parent)[k];
    lemma_longest_path(items, i);
}

/// Once a child has failed, the children after it change nothing.
pub proof fn lemma_children_error_stays(
    items: Seq<RustDatabaseItem>,
    parent: Seq<Seq<char>>,
    failed: nat,
    count: nat,
    crate_name: Seq<char>,
)
    requires
        failed <= count <= children_of(items, parent).len(),
        children_result(items, parent, failed, crate_name) is Err,
    ensures
        children_result(items, parent, count, crate_name) == children_result(items, parent, failed, crate_name),
    decreases count,
{
    if count > failed {
        lemma_children_error_stays(items, parent, failed, (count - 1) as nat, crate_name);
    }
}

impl Generator {
    /// The lifetimes named in the signature of `func`, each once, in the
    /// order in which they first appear.
    pub fn collect_lifetimes(func: &RustFunction) -> (r: Vec<String>)
        ensures
            strings_view(r@) == named_lifetimes(*func, (func.arguments.len() + 1) as nat),
    {
        let mut r: Vec<String> = Vec::new();
        let mut i: usize = 0;
        while i <= func.arguments.len()
            invariant
                i <= func.arguments.len() + 1,
                strings_view(r@) == named_lifetimes(*func, i as nat),
            decreases func.arguments.len() + 1 - i,
        {
            let api_type = if i < func.arguments.len() {
                &func.arguments[i].argument_type.rust_api_type
            } else {
                &func.return_type.rust_api_type
            };
            assert(api_type@ == signature_type(*func, i as int));
            if let Some(lifetime) = api_type.lifetime() {
                let ghost before = strings_view(r@);
                let mut known = false;
                let mut k: usize = 0;
                while k < r.len()
                    invariant
                        k <= r.len(),
                        before == strings_view(r@),
                        known == exists|j: int| 0 <= j < k && before[j] == lifetime@,
                    decreases r.len() - k,
                {
                    if r[k] == *lifetime {
                        assert(before[k as int] == lifetime@);
                        known = true;
                    }
                    k += 1;
                }
                assert(known == before.contains(lifetime@));
                if !known {
                    r.push(lifetime.clone());
                    assert(strings_view(r@) =~= before.push(lifetime@));
                }
            }
            if i == func.arguments.len() {
                return r;
            }
            i += 1;
        }
        r
    }

    /// Renders the code of the wrapper function `func`, which stands in
    /// `scope`.
    pub fn generate_rust_final_function(&self, func: &RustFunction, scope: &RustFunctionScope) -> (r: Result<
        String,
        Error,
    >)
        ensures
            text_result_view(r) == final_function_result(*func, *scope, self.crate_name@),
    {
        let maybe_pub = match scope {
            RustFunctionScope::TraitImpl => "",
            _ => "pub ",
        };
        let maybe_unsafe = if func.is_unsafe {
            "unsafe "
        } else {
            ""
        };
        let body = match &func.kind {
            RustFunctionKind::FfiWrapper(data) => {
                match self.generate_ffi_call(
                    func.arguments.as_slice(),
                    &func.return_type,
                    data,
                    func.is_unsafe,
                ) {
                    Ok(body) => body,
                    Err(e) => {
                        return Err(e);
                    },
                }
            },
            _ => {
                return Err(Error::MalformedInput);
            },
        };
        let args = match self.arg_texts(func.arguments.as_slice(), None) {
            Ok(args) => args,
            Err(e) => {
                return Err(e);
            },
        };
        let all_lifetimes = Self::collect_lifetimes(func);
        let ghost lifetimes = strings_view(all_lifetimes@);
        let lifetimes_code = if all_lifetimes.len() == 0 {
            "".to_owned()
        } else {
            let mut quoted: Vec<String> = Vec::new();
            let mut i: usize = 0;
            while i < all_lifetimes.len()
                invariant
                    i <= all_lifetimes.len(),
                    quoted.len() == i,
                    lifetimes == strings_view(all_lifetimes@),
                    forall|j: int| 0 <= j < i ==> quoted[j]@ == "'"@ + lifetimes[j],
                decreases all_lifetimes.len() - i,
            {
                let mut text = "'".to_owned();
                text.append(all_lifetimes[i].as_str());
                quoted.push(text);
                i += 1;
            }
            assert(strings_view(quoted@) =~= Seq::new(lifetimes.len(), |i: int| "'"@ + lifetimes[i]));
            let mut text = "<".to_owned();
            text.append(join_strings(&quoted, ", ").as_str());
            text.append(">");
            text
        };
        let doc = match &func.extra_doc {
            Some(doc) => format_doc(doc.as_str()),
            None => {
                proof {
                    reveal_strlit("");
                }
                format_doc("")
            },
        };
        let mut r = doc;
        r.append(maybe_pub);
        r.append(maybe_unsafe);
        r.append("fn ");
        r.append(func.path.last().as_str());
        r.append(lifetimes_code.as_str());
        r.append("(");
        r.append(join_strings(&args, ", ").as_str());
        r.append(")");
        match func.return_type.rust_api_type {
            RustType::EmptyTuple => {
                r.append("");
            },
            _ => {
                let mut text = " -> ".to_owned();
                text.append(self.rust_type_to_code(&func.return_type.rust_api_type).as_str());
                r.append(text.as_str());
            },
        }
        r.append(" {\n");
        r.append(body.as_str());
        r.append("}\n\n");
        Ok(r)
    }

    /// Renders the constant of the enum value `value`.
    pub fn generate_enum_value(&self, value: &RustEnumValue) -> (r: Result<String, Error>)
        ensures
            text_result_view(r) == enum_value_result(*value, self.crate_name@),
    {
        let parent = match value.path.parent() {
            Some(parent) => parent,
            None => {
                return Err(Error::MalformedInput);
            },
        };
        let struct_path = self.rust_path_to_string(&parent);
        let mut r = "pub const ".to_owned();
        r.append(value.path.last().as_str());
        r.append(": ");
        r.append(struct_path.as_str());
        r.append(" = ");
        r.append(struct_path.as_str());
        r.append("(");
        r.append(i64_to_string(value.value).as_str());
        r.append(");\n");
        Ok(r)
    }

    /// Renders the declaration of the wrapper type `rust_struct`.
    pub fn generate_struct_head(&self, rust_struct: &RustStruct) -> (r: Result<String, Error>)
        ensures
            text_result_view(r) == struct_head_result(*rust_struct, self.crate_name@),
    {
        let visibility = if rust_struct.is_public {
            "pub "
        } else {
            ""
        };
        match &rust_struct.kind {
            RustStructKind::WrapperType(wrapper) => {
                let mut r = match &rust_struct.extra_doc {
                    Some(doc) => format_doc(doc.as_str()),
                    None => {
                        proof {
                            reveal_strlit("");
                        }
                        format_doc("")
                    },
                };
                r.append("\n");
                let wrapped = match &wrapper.kind {
                    RustWrapperTypeKind::EnumWrapper => {
                        r.append("#[derive(Debug, Clone, Copy, PartialEq, Eq)]\n");
                        "::std::os::raw::c_int".to_owned()
                    },
                    RustWrapperTypeKind::MovableClassWrapper { sized_type_path } => {
                        r.append("#[repr(C)]\n");
                        self.rust_path_to_string(sized_type_path)
                    },
                    RustWrapperTypeKind::ImmovableClassWrapper { raw_type_path } => {
                        r.append("#[repr(C)]\n");
                        self.rust_path_to_string(raw_type_path)
                    },
                };
                r.append(visibility);
                r.append("struct ");
                r.append(rust_struct.path.last().as_str());
                r.append("(");
                r.append(wrapped.as_str());
                r.append(");\n");
                r.append("\n");
                Ok(r)
            },
            _ => Err(Error::MalformedInput),
        }
    }

    /// Renders the items that stand directly inside the item at `parent`,
    /// one after another.
    pub fn generate_children(&self, parent: &RustPath, database: &RustDatabase) -> (r: Result<String, Error>)
        ensures
            text_result_view(r) == children_result(
                database.items@,
                parent@,
                children_of(database.items@, parent@).len(),
                self.crate_name@,
            ),
        decreases depth_left(database.items@, parent@.len()), 0nat, 0nat,
    {
        let ghost items = database.items@;
        let ghost all = children_of(items, parent@);
        let children = database.children(parent);
        let mut r = String::new();
        let mut k: usize = 0;
        while k < children.len()
            invariant
                k <= children.len(),
                items == database.items@,
                all == children_of(items, parent@),
                children.len() == all.len(),
                forall|j: int| 0 <= j < children.len() ==> *children[j] == all[j],
                children_result(items, parent@, k as nat, self.crate_name@) == Ok::<Seq<char>, Error>(r@),
            decreases children.len() - k,
        {
            let child = children[k];
            proof {
                if !(child.kind is TraitImpl) {
                    lemma_children_are_deeper(items, parent@, k as int);
                }
            }
            match child.kind {
                RustItemKind::TraitImpl(_) => {
                    proof {
                        lemma_children_error_stays(
                            items,
                            parent@,
                            (k + 1) as nat,
                            all.len(),
                            self.crate_name@,
                        );
                    }
                    return Err(Error::MalformedInput);
                },
                _ => {},
            }
            match self.generate_item(child, database) {
                Ok(text) => {
                    r.append(text.as_str());
                },
                Err(e) => {
                    proof {
                        lemma_children_error_stays(
                            items,
                            parent@,
                            (k + 1) as nat,
                            all.len(),
                            self.crate_name@,
                        );
                    }
                    return Err(e);
                },
            }
            k += 1;
        }
        Ok(r)
    }

    /// Renders the module `module` with everything that stands inside it.
    pub fn generate_module(&self, module: &RustModule, database: &RustDatabase) -> (r: Result<String, Error>)
        ensures
            text_result_view(r) == item_result(
                database.items@,
                RustDatabaseItem { kind: RustItemKind::Module(*module), cpp_item_index: None },
                self.crate_name@,
            ),
        decreases depth_left(database.items@, module.path@.len()), 0nat, 1nat,
    {
        let inner = match self.generate_children(&module.path, database) {
            Ok(inner) => inner,
            Err(e) => {
                return Err(e);
            },
        };
        let mut r = match &module.doc.extra_doc {
            Some(doc) => format_doc(doc.as_str()),
            None => {
                proof {
                    reveal_strlit("");
                }
                format_doc("")
            },
        };
        r.append("\n");
        r.append("pub mod ");
        r.append(module.path.last().as_str());
        r.append(" {\n");
        r.append(inner.as_str());
        r.append("}\n");
        Ok(r)
    }

    /// Renders the wrapper type `rust_struct` with everything that stands
    /// inside it.
    pub fn generate_struct(&self, rust_struct: &RustStruct, database: &RustDatabase) -> (r: Result<
        String,
        Error,
    >)
        ensures
            text_result_view(r) == item_result(
                database.items@,
                RustDatabaseItem { kind: RustItemKind::Struct(*rust_struct), cpp_item_index: None },
                self.crate_name@,
            ),
        decreases depth_left(database.items@, rust_struct.path@.len()), 0nat, 1nat,
    {
        let mut r = match self.generate_struct_head(rust_struct) {
            Ok(head) => head,
            Err(e) => {
                return Err(e);
            },
        };
        let children = database.children(&rust_struct.path);
        if children.len() > 0 {
            let inner = match self.generate_children(&rust_struct.path, database) {
                Ok(inner) => inner,
                Err(e) => {
                    return Err(e);
                },
            };
            let mut block = "impl ".to_owned();
            block.append(rust_struct.path.last().as_str());
            block.append(" {\n");
            block.append(inner.as_str());
            block.append("}\n");
            block.append("\n");
            r.append(block.as_str());
        }
        Ok(r)
    }

    /// Renders the item `item` of `database` with everything that stands
    /// inside it.
    pub fn generate_item(&self, item: &RustDatabaseItem, database: &RustDatabase) -> (r: Result<String, Error>)
        ensures
            text_result_view(r) == item_result(database.items@, *item, self.crate_name@),
        decreases depth_left(database.items@, path_len(*item)), 1nat, 0nat,
    {
        match item.kind {
            RustItemKind::Module(ref module) => self.generate_module(module, database),
            RustItemKind::Struct(ref data) => self.generate_struct(data, database),
            RustItemKind::EnumValue(ref value) => self.generate_enum_value(value),
            RustItemKind::Function(ref func) => self.generate_rust_final_function(
                func,
                &RustFunctionScope::Free,
            ),
            RustItemKind::FfiFunction(_) => Ok(String::new()),
            RustItemKind::TraitImpl(_) => Err(Error::MalformedInput),
        }
    }
}

/// The declarations of the foreign functions among the first `count` of
/// `items`, one after another.
pub open spec fn ffi_declarations(items: Seq<RustDatabaseItem>, count: nat, crate_name: Seq<char>) -> Seq<char>
    decreases count,
{
    if count == 0 || count > items.len() {
        Seq::empty()
    } else {
        let before = ffi_declarations(items, (count - 1) as nat, crate_name);
        match items[count - 1].kind {
            RustItemKind::FfiFunction(func) => before + ffi_function_code(func, crate_name),
            _ => before,
        }
    }
}

/// Renders the declarations of all foreign functions of `database`, in
/// their order, as written inside the crate `crate_name`. Their names and
/// signatures are what the native side is linked against.
pub fn generate_ffi_declarations(crate_name: &str, database: &RustDatabase) -> (r: String)
    ensures
        r@ == ffi_declarations(database.items@, database.items@.len(), crate_name@),
{
    let generator = Generator { crate_name: crate_name.to_owned() };
    let mut r = String::new();
    let mut i: usize = 0;
    while i < database.items.len()
        invariant
            i <= database.items.len(),
            generator.crate_name@ == crate_name@,
            r@ == ffi_declarations(database.items@, i as nat, crate_name@),
        decreases database.items.len() - i,
    {
        if let RustItemKind::FfiFunction(ref func) = database.items[i].kind {
            r.append(generator.rust_ffi_function_to_code(func).as_str());
        }
        i += 1;
    }
    r
}

/// Renders the code of the crate `crate_name`: every item of `database`
/// that stands directly inside the crate root, with everything inside it.
pub fn run(crate_name: &str, database: &RustDatabase) -> (r: Result<String, Error>)
    ensures
        text_result_view(r) == children_result(
            database.items@,
            seq![crate_name@],
            children_of(database.items@, seq![crate_name@]).len(),
            crate_name@,
        ),
{
    let generator = Generator { crate_name: crate_name.to_owned() };
    let mut parts: Vec<String> = Vec::new();
    parts.push(crate_name.to_owned());
    assert(strings_view(parts@) =~= seq![crate_name@]);
    let root = RustPath::from_parts(parts);
    generator.generate_children(&root, database)
}

} // verus!
