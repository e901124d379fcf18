//! Native types written out as native source text.

use crate::cpp_type::{
    types_view, CppBuiltInNumericType, CppPointerLikeTypeKind, CppType, CppTypeModel,
};
use crate::errors::Error;
use crate::text::{join_seq, join_strings, strings_view};
use vstd::prelude::*;
use vstd::string::*;

verus! {

/// The text of a string result or the error that came in its place.
pub open spec fn text_result_view(r: Result<String, Error>) -> Result<Seq<char>, Error> {
    match r {
        Ok(s) => Ok(s@),
        Err(e) => Err(e),
    }
}

/// The text of an optional string.
pub open spec fn optional_text(name: Option<&String>) -> Option<Seq<char>> {
    match name {
        Some(n) => Some(n@),
        None => None,
    }
}

impl CppTypeModel {
    /// Whether a function pointer occurs anywhere in the type.
    pub open spec fn contains_function_pointer(self) -> bool
        decreases self,
    {
        match self {
            CppTypeModel::FunctionPointer { .. } => true,
            CppTypeModel::Class { template_arguments: Some(args), .. } => exists|i: int|
                0 <= i < args.len() && (#[trigger] args[i]).contains_function_pointer(),
            CppTypeModel::PointerLike { target, .. } => target.contains_function_pointer(),
            _ => false,
        }
    }

    /// The text of a type that takes no declarator name. Where a template
    /// parameter stands its name is written, and a function pointer leaves
    /// no text.
    pub open spec fn plain_code(self) -> Seq<char>
        decreases self,
    {
        match self {
            CppTypeModel::Void => "void"@,
            CppTypeModel::BuiltInNumeric(t) => t.code(),
            CppTypeModel::SpecificNumeric { name, .. } => name,
            CppTypeModel::PointerSizedInteger { name, .. } => name,
            CppTypeModel::Enum { path } => join_seq(path, "::"@),
            CppTypeModel::Class { path, template_arguments } => match template_arguments {
                None => join_seq(path, "::"@),
                Some(args) => join_seq(path, "::"@) + "< "@ + join_seq(plain_codes(args), ", "@)
                    + " >"@,
            },
            CppTypeModel::TemplateParameter { name, .. } => name,
            CppTypeModel::FunctionPointer { .. } => Seq::empty(),
            CppTypeModel::PointerLike { kind, is_const, target } => {
                let inner = if is_const {
                    "const "@ + target.plain_code()
                } else {
                    target.plain_code()
                };
                match kind {
                    CppPointerLikeTypeKind::Pointer => inner + "*"@,
                    CppPointerLikeTypeKind::Reference => inner + "&"@,
                }
            },
        }
    }

    /// The text of a function pointer declared under `name`.
    pub open spec fn declarator_code(self, name: Seq<char>) -> Seq<char>
        recommends
            self is FunctionPointer,
    {
        match self {
            CppTypeModel::FunctionPointer { return_type, arguments, .. } => return_type.plain_code()
                + " (*"@ + name + ")("@ + join_seq(plain_codes(arguments), ", "@) + ")"@,
            _ => Seq::empty(),
        }
    }

    /// What rendering the type gives.
    ///
    /// A name handed to anything but a function pointer is refused with
    /// `UnexpectedName`. Then `MissingName` is due where a function pointer
    /// stands without a name: at the outermost level when none was given, or
    /// anywhere below it. Then `UnsupportedType` is due for a type that holds
    /// a template parameter and for a variadic function pointer. Everything
    /// else has a text.
    pub open spec fn code_result(self, name: Option<Seq<char>>) -> Result<Seq<char>, Error> {
        match self {
            CppTypeModel::FunctionPointer { return_type, arguments, allows_variadic_arguments } => {
                if name is None || return_type.contains_function_pointer() || (exists|i: int|
                    0 <= i < arguments.len() && (#[trigger] arguments[i]).contains_function_pointer()) {
                    Err(Error::MissingName)
                } else if self.contains_template_parameter() || allows_variadic_arguments {
                    Err(Error::UnsupportedType)
                } else {
                    Ok(self.declarator_code(name->0))
                }
            },
            _ => {
                if name is Some {
                    Err(Error::UnexpectedName)
                } else if self.contains_function_pointer() {
                    Err(Error::MissingName)
                } else if self.contains_template_parameter() {
                    Err(Error::UnsupportedType)
                } else {
                    Ok(self.plain_code())
                }
            },
        }
    }
}

/// The plain texts of a sequence of types.
pub open spec fn plain_codes(ts: Seq<CppTypeModel>) -> Seq<Seq<char>>
    decreases ts,
{
    if ts.len() == 0 {
        Seq::empty()
    } else {
        plain_codes(ts.drop_last()).push(ts.last().plain_code())
    }
}

/// The plain texts of a sequence of types, element by element.
pub proof fn lemma_plain_codes(ts: Seq<CppTypeModel>)
    ensures
        plain_codes(ts).len() == ts.len(),
        forall|i: int|
            #![trigger ts[i]]
            #![trigger plain_codes(ts)[i]]
            0 <= i < ts.len() ==> plain_codes(ts)[i] == ts[i].plain_code(),
    decreases ts.len(),
{
    if ts.len() > 0 {
        lemma_plain_codes(ts.drop_last());
        assert forall|i: int| 0 <= i < ts.len() implies #[trigger] plain_codes(ts)[i] == ts[i].plain_code() by {
            if i < ts.len() - 1 {
                assert(ts.drop_last()[i] == ts[i]);
            }
        }
    }
}

/// Rendering fails on every type that holds a template parameter.
pub proof fn lemma_template_parameter_has_no_code(t: CppTypeModel, name: Option<Seq<char>>)
    requires
        t.contains_template_parameter(),
    ensures
        t.code_result(name) is Err,
{
}

/// Whether a function pointer occurs in one of the types.
pub fn any_contains_function_pointer(v: &Vec<CppType>) -> (r: bool)
    ensures
        r == exists|i: int|
            0 <= i < v.len() && (#[trigger] types_view(v@)[i]).contains_function_pointer(),
    decreases v,
{
    let mut i: usize = 0;
    while i < v.len()
        invariant
            i <= v.len(),
            forall|j: int| 0 <= j < i ==> !(#[trigger] types_view(v@)[j]).contains_function_pointer(),
        decreases v.len() - i,
    {
        if v[i].contains_function_pointer() {
            assert(types_view(v@)[i as int].contains_function_pointer());
            return true;
        }
        i += 1;
    }
    false
}

/// Renders each type without a declarator name.
pub fn plain_codes_of(v: &Vec<CppType>) -> (r: Vec<String>)
    ensures
        strings_view(r@) == plain_codes(types_view(v@)),
    decreases v,
{
    let mut r: Vec<String> = Vec::new();
    let mut i: usize = 0;
    while i < v.len()
        invariant
            i <= v.len(),
            r.len() == i,
            forall|j: int| 0 <= j < i ==> r[j]@ == (#[trigger] types_view(v@)[j]).plain_code(),
        decreases v.len() - i,
    {
        let code = v[i].plain_code();
        assert(types_view(v@)[i as int] == v[i as int]@);
        r.push(code);
        i += 1;
    }
    proof {
        lemma_plain_codes(types_view(v@));
        assert(strings_view(r@) =~= plain_codes(types_view(v@)));
    }
    r
}

impl CppType {
    /// Whether a function pointer occurs anywhere in the type.
    pub fn contains_function_pointer(&self) -> (r: bool)
        ensures
            r == self@.contains_function_pointer(),
        decreases self,
    {
        proof {
            self.lemma_model_children();
        }
        match self {
            CppType::FunctionPointer(_) => true,
            CppType::Class(c) => match &c.template_arguments {
                None => false,
                Some(args) => {
                    let r = any_contains_function_pointer(args);
                    proof {
                        let given = self@->Class_template_arguments->0;
                        assert(given == types_view(args@));
                        assert(self@.contains_function_pointer() == (exists|i: int|
                            0 <= i < given.len() && (#[trigger] given[i]).contains_function_pointer()));
                    }
                    r
                },
            },
            CppType::PointerLike { target, .. } => target.contains_function_pointer(),
            _ => false,
        }
    }

    /// The text of the type where it takes no declarator name.
    pub fn plain_code(&self) -> (r: String)
        ensures
            r@ == self@.plain_code(),
        decreases self,
    {
        proof {
            self.lemma_model_children();
        }
        match self {
            CppType::Void => "void".to_owned(),
            CppType::BuiltInNumeric(t) => t.to_cpp_code().to_owned(),
            CppType::SpecificNumeric(t) => t.name.clone(),
            CppType::PointerSizedInteger { name, .. } => name.clone(),
            CppType::Enum { path } => path.to_cpp_code(),
            CppType::Class(c) => {
                let mut r = c.path.to_cpp_code();
                match &c.template_arguments {
                    None => r,
                    Some(args) => {
                        let codes = plain_codes_of(args);
                        let joined = join_strings(&codes, ", ");
                        r.append("< ");
                        r.append(joined.as_str());
                        r.append(" >");
                        r
                    },
                }
            },
            CppType::TemplateParameter { name, .. } => name.clone(),
            CppType::FunctionPointer(_) => String::new(),
            CppType::PointerLike { kind, is_const, target } => {
                let target_code = target.plain_code();
                let mut r = if *is_const {
                    let mut r = "const ".to_owned();
                    r.append(target_code.as_str());
                    r
                } else {
                    target_code
                };
                match kind {
                    CppPointerLikeTypeKind::Pointer => r.append("*"),
                    CppPointerLikeTypeKind::Reference => r.append("&"),
                }
                r
            },
        }
    }

    /// Renders the type as native source text.
    ///
    /// `function_pointer_inner_text` is the declarator name; a function
    /// pointer needs one and no other type takes one.
    pub fn to_cpp_code(&self, function_pointer_inner_text: Option<&String>) -> (r: Result<String, Error>)
        ensures
            text_result_view(r) == self@.code_result(optional_text(function_pointer_inner_text)),
    {
        proof {
            self.lemma_model_children();
        }
        match self {
            CppType::FunctionPointer(f) => {
                let name = match function_pointer_inner_text {
                    None => {
                        return Err(Error::MissingName);
                    },
                    Some(name) => name,
                };
                if f.return_type.contains_function_pointer() || any_contains_function_pointer(
                    &f.arguments,
                ) {
                    return Err(Error::MissingName);
                }
                if self.is_or_contains_template_parameter() || f.allows_variadic_arguments {
                    return Err(Error::UnsupportedType);
                }
                let mut r = f.return_type.plain_code();
                let codes = plain_codes_of(&f.arguments);
                let joined = join_strings(&codes, ", ");
                r.append(" (*");
                r.append(name.as_str());
                r.append(")(");
                r.append(joined.as_str());
                r.append(")");
                Ok(r)
            },
            _ => {
                if function_pointer_inner_text.is_some() {
                    Err(Error::UnexpectedName)
                } else if self.contains_function_pointer() {
                    Err(Error::MissingName)
                } else if self.is_or_contains_template_parameter() {
                    Err(Error::UnsupportedType)
                } else {
                    Ok(self.plain_code())
                }
            },
        }
    }
}


/// Whether `c` is an angle bracket.
pub open spec fn is_bracket(c: char) -> bool {
    c == '<' || c == '>'
}

/// Whether no angle bracket stands in `s`.
pub open spec fn bracket_free(s: Seq<char>) -> bool {
    forall|i: int| 0 <= i < s.len() ==> !is_bracket(#[trigger] s[i])
}

/// Whether `s` holds neither `<<` nor `>>`.
pub open spec fn no_double_bracket(s: Seq<char>) -> bool {
    forall|i: int| 0 <= i < s.len() - 1 ==> !(is_bracket(#[trigger] s[i]) && s[i] == s[i + 1])
}

impl CppTypeModel {
    /// Whether no name in the type holds an angle bracket: none of the
    /// identifiers of its paths, and none of the names of numeric types and
    /// template parameters.
    pub open spec fn has_plain_names(self) -> bool
        decreases self,
    {
        match self {
            CppTypeModel::SpecificNumeric { name, .. } => bracket_free(name),
            CppTypeModel::PointerSizedInteger { name, .. } => bracket_free(name),
            CppTypeModel::TemplateParameter { name, .. } => bracket_free(name),
            CppTypeModel::Enum { path } => forall|i: int| 0 <= i < path.len() ==> bracket_free(#[trigger] path[i]),
            CppTypeModel::Class { path, template_arguments } => {
                &&& forall|i: int| 0 <= i < path.len() ==> bracket_free(#[trigger] path[i])
                &&& match template_arguments {
                    Some(args) => forall|i: int| 0 <= i < args.len() ==> (#[trigger] args[i]).has_plain_names(),
                    None => true,
                }
            },
            CppTypeModel::FunctionPointer { return_type, arguments, .. } => {
                &&& return_type.has_plain_names()
                &&& forall|i: int| 0 <= i < arguments.len() ==> (#[trigger] arguments[i]).has_plain_names()
            },
            CppTypeModel::PointerLike { target, .. } => target.has_plain_names(),
            _ => true,
        }
    }
}

/// Two texts without double brackets give one without when no bracket
/// stands at the seam.
pub proof fn lemma_joint_is_clean(a: Seq<char>, b: Seq<char>)
    requires
        no_double_bracket(a),
        no_double_bracket(b),
        a.len() == 0 || b.len() == 0 || !is_bracket(a.last()) || !is_bracket(b.first()),
    ensures
        no_double_bracket(a + b),
{
    assert forall|i: int| 0 <= i < (a + b).len() - 1 implies !(is_bracket(#[trigger] (a + b)[i]) && (a + b)[i] == (a
        + b)[i + 1]) by {
        if i < a.len() - 1 {
            assert((a + b)[i] == a[i] && (a + b)[i + 1] == a[i + 1]);
        } else if i == a.len() - 1 {
            assert((a + b)[i] == a.last() && (a + b)[i + 1] == b.first());
        } else {
            assert((a + b)[i] == b[i - a.len()] && (a + b)[i + 1] == b[i - a.len() + 1]);
        }
    }
}

/// Texts without brackets joined by a separator without brackets hold no
/// bracket.
pub proof fn lemma_join_is_bracket_free(parts: Seq<Seq<char>>, sep: Seq<char>)
    requires
        forall|i: int| 0 <= i < parts.len() ==> bracket_free(#[trigger] parts[i]),
        bracket_free(sep),
    ensures
        bracket_free(join_seq(parts, sep)),
    decreases parts.len(),
{
    if parts.len() > 1 {
        lemma_join_is_bracket_free(parts.drop_last(), sep);
    }
}

/// Texts without double brackets joined by a separator that neither begins
/// nor ends with a bracket hold no double bracket.
pub proof fn lemma_join_is_clean(parts: Seq<Seq<char>>, sep: Seq<char>)
    requires
        forall|i: int| 0 <= i < parts.len() ==> no_double_bracket(#[trigger] parts[i]),
        no_double_bracket(sep),
        sep.len() > 0,
        !is_bracket(sep.first()),
        !is_bracket(sep.last()),
    ensures
        no_double_bracket(join_seq(parts, sep)),
    decreases parts.len(),
{
    if parts.len() > 1 {
        lemma_join_is_clean(parts.drop_last(), sep);
        let before = join_seq(parts.drop_last(), sep);
        lemma_joint_is_clean(before, sep);
        assert((before + sep).last() == sep.last());
        lemma_joint_is_clean(before + sep, parts.last());
    }
}

/// The spelling of a built-in numeric type holds no bracket.
pub proof fn lemma_built_in_code_is_bracket_free(t: CppBuiltInNumericType)
    ensures
        bracket_free(t.code()),
{
    reveal_strlit("bool");
    reveal_strlit("char");
    reveal_strlit("signed char");
    reveal_strlit("unsigned char");
    reveal_strlit("wchar_t");
    reveal_strlit("char16_t");
    reveal_strlit("char32_t");
    reveal_strlit("short");
    reveal_strlit("unsigned short");
    reveal_strlit("int");
    reveal_strlit("unsigned int");
    reveal_strlit("long");
    reveal_strlit("unsigned long");
    reveal_strlit("long long");
    reveal_strlit("unsigned long long");
    reveal_strlit("__int128_t");
    reveal_strlit("__uint128_t");
    reveal_strlit("float");
    reveal_strlit("double");
    reveal_strlit("long double");
}

/// The text of a type whose names are plain holds neither `<<` nor `>>`.
pub proof fn lemma_plain_code_is_clean(t: CppTypeModel)
    requires
        t.has_plain_names(),
    ensures
        no_double_bracket(t.plain_code()),
    decreases t,
{
    reveal_strlit("::");
    reveal_strlit("< ");
    reveal_strlit(" >");
    reveal_strlit(", ");
    reveal_strlit("const ");
    reveal_strlit("*");
    reveal_strlit("&");
    reveal_strlit("void");
    match t {
        CppTypeModel::BuiltInNumeric(k) => {
            lemma_built_in_code_is_bracket_free(k);
        },
        CppTypeModel::Enum { path } => {
            lemma_join_is_bracket_free(path, "::"@);
        },
        CppTypeModel::Class { path, template_arguments } => {
            lemma_join_is_bracket_free(path, "::"@);
            let name = join_seq(path, "::"@);
            if let Some(args) = template_arguments {
                let codes = plain_codes(args);
                lemma_plain_codes(args);
                assert forall|i: int| 0 <= i < codes.len() implies no_double_bracket(#[trigger] codes[i]) by {
                    lemma_plain_code_is_clean(args[i]);
                }
                lemma_join_is_clean(codes, ", "@);
                let joined = join_seq(codes, ", "@);
                lemma_joint_is_clean(name, "< "@);
                assert((name + "< "@).last() == ' ');
                lemma_joint_is_clean(name + "< "@, joined);
                lemma_joint_is_clean(name + "< "@ + joined, " >"@);
            }
        },
        CppTypeModel::PointerLike { kind, is_const, target } => {
            lemma_plain_code_is_clean(*target);
            let code = target.plain_code();
            let inner = if is_const {
                "const "@ + code
            } else {
                code
            };
            if is_const {
                lemma_joint_is_clean("const "@, code);
            }
            match kind {
                CppPointerLikeTypeKind::Pointer => {
                    lemma_joint_is_clean(inner, "*"@);
                },
                CppPointerLikeTypeKind::Reference => {
                    lemma_joint_is_clean(inner, "&"@);
                },
            }
        },
        _ => {},
    }
}

/// Rendering never gives `<<` or `>>`: the text of a type whose names hold no
/// angle bracket, written under a declarator name that holds none, has no
/// bracket doubled, however deep its template arguments nest.
pub proof fn lemma_code_has_no_double_bracket(t: CppTypeModel, name: Option<Seq<char>>)
    requires
        t.has_plain_names(),
        name matches Some(n) ==> bracket_free(n),
    ensures
        t.code_result(name) matches Ok(code) ==> no_double_bracket(code),
{
    reveal_strlit(" (*");
    reveal_strlit(")(");
    reveal_strlit(")");
    reveal_strlit(", ");
    match t {
        CppTypeModel::FunctionPointer { return_type, arguments, .. } => {
            if t.code_result(name) is Ok {
                let n = name->0;
                lemma_plain_code_is_clean(*return_type);
                let codes = plain_codes(arguments);
                lemma_plain_codes(arguments);
                assert forall|i: int| 0 <= i < codes.len() implies no_double_bracket(#[trigger] codes[i]) by {
                    lemma_plain_code_is_clean(arguments[i]);
                }
                lemma_join_is_clean(codes, ", "@);
                let joined = join_seq(codes, ", "@);
                let a = return_type.plain_code() + " (*"@;
                lemma_joint_is_clean(return_type.plain_code(), " (*"@);
                assert(a.last() == '*');
                lemma_joint_is_clean(a, n);
                let b = a + n;
                lemma_joint_is_clean(b, ")("@);
                let c = b + ")("@;
                assert(c.last() == '(');
                lemma_joint_is_clean(c, joined);
                lemma_joint_is_clean(c + joined, ")"@);
            }
        },
        _ => {
            lemma_plain_code_is_clean(t);
        },
    }
}

} // verus!
