//! Native types and the rules that carry them across the foreign-call boundary.

use crate::errors::Error;
use crate::text::{
    clone_strings, join_seq, join_strings, same_strings, split_seq, split_text, strings_view, to_chars,
};
use vstd::prelude::*;
use vstd::string::*;

verus! {

/// The numeric types built into the native language.
#[derive(Clone, Copy, Debug, PartialEq, Eq, Structural)]
pub enum CppBuiltInNumericType {
    Bool,
    Char,
    SChar,
    UChar,
    WChar,
    Char16,
    Char32,
    Short,
    UShort,
    Int,
    UInt,
    Long,
    ULong,
    LongLong,
    ULongLong,
    Int128,
    UInt128,
    Float,
    Double,
    LongDouble,
}

impl CppBuiltInNumericType {
    /// The native spelling of the type.
    pub open spec fn code(self) -> Seq<char> {
        match self {
            CppBuiltInNumericType::Bool => "bool"@,
            CppBuiltInNumericType::Char => "char"@,
            CppBuiltInNumericType::SChar => "signed char"@,
            CppBuiltInNumericType::UChar => "unsigned char"@,
            CppBuiltInNumericType::WChar => "wchar_t"@,
            CppBuiltInNumericType::Char16 => "char16_t"@,
            CppBuiltInNumericType::Char32 => "char32_t"@,
            CppBuiltInNumericType::Short => "short"@,
            CppBuiltInNumericType::UShort => "unsigned short"@,
            CppBuiltInNumericType::Int => "int"@,
            CppBuiltInNumericType::UInt => "unsigned int"@,
            CppBuiltInNumericType::Long => "long"@,
            CppBuiltInNumericType::ULong => "unsigned long"@,
            CppBuiltInNumericType::LongLong => "long long"@,
            CppBuiltInNumericType::ULongLong => "unsigned long long"@,
            CppBuiltInNumericType::Int128 => "__int128_t"@,
            CppBuiltInNumericType::UInt128 => "__uint128_t"@,
            CppBuiltInNumericType::Float => "float"@,
            CppBuiltInNumericType::Double => "double"@,
            CppBuiltInNumericType::LongDouble => "long double"@,
        }
    }

    /// The native spelling of the type.
    pub fn to_cpp_code(&self) -> (r: &'static str)
        ensures
            r@ == self.code(),
    {
        match self {
            CppBuiltInNumericType::Bool => "bool",
            CppBuiltInNumericType::Char => "char",
            CppBuiltInNumericType::SChar => "signed char",
            CppBuiltInNumericType::UChar => "unsigned char",
            CppBuiltInNumericType::WChar => "wchar_t",
            CppBuiltInNumericType::Char16 => "char16_t",
            CppBuiltInNumericType::Char32 => "char32_t",
            CppBuiltInNumericType::Short => "short",
            CppBuiltInNumericType::UShort => "unsigned short",
            CppBuiltInNumericType::Int => "int",
            CppBuiltInNumericType::UInt => "unsigned int",
            CppBuiltInNumericType::Long => "long",
            CppBuiltInNumericType::ULong => "unsigned long",
            CppBuiltInNumericType::LongLong => "long long",
            CppBuiltInNumericType::ULongLong => "unsigned long long",
            CppBuiltInNumericType::Int128 => "__int128_t",
            CppBuiltInNumericType::UInt128 => "__uint128_t",
            CppBuiltInNumericType::Float => "float",
            CppBuiltInNumericType::Double => "double",
            CppBuiltInNumericType::LongDouble => "long double",
        }
    }
}

/// What a numeric type of fixed width holds.
#[derive(Clone, Copy, Debug, PartialEq, Eq, Structural)]
pub enum CppSpecificNumericTypeKind {
    Integer { is_signed: bool },
    FloatingPoint,
}

/// A numeric type whose width is the same on every platform.
#[derive(Debug, PartialEq, Eq)]
pub struct CppSpecificNumericType {
    pub name: String,
    pub bits: usize,
    pub kind: CppSpecificNumericTypeKind,
}

/// The two indirections of the native language.
#[derive(Clone, Copy, Debug, PartialEq, Eq, Structural)]
pub enum CppPointerLikeTypeKind {
    Pointer,
    Reference,
}

/// A namespace address: identifiers from the outermost scope inwards.
#[derive(Debug, PartialEq, Eq)]
pub struct CppPath {
    pub items: Vec<String>,
}

impl View for CppPath {
    type V = Seq<Seq<char>>;

    open spec fn view(&self) -> Seq<Seq<char>> {
        strings_view(self.items@)
    }
}

impl Clone for CppPath {
    fn clone(&self) -> (r: Self)
        ensures
            r@ == self@,
    {
        CppPath { items: clone_strings(&self.items) }
    }
}

/// Whether `text` can be read as a path: it is not empty and holds no angle
/// bracket.
pub open spec fn is_path_text(text: Seq<char>) -> bool {
    text.len() > 0 && !text.contains('<') && !text.contains('>')
}

impl CppPath {
    /// Reads a path written with `::` between its identifiers. A text that
    /// is empty or holds an angle bracket is refused with `MalformedInput`.
    pub fn from_str(path: &str) -> (r: Result<CppPath, Error>)
        ensures
            match r {
                Ok(p) => is_path_text(path@) && p@ == split_seq(path@, "::"@),
                Err(e) => !is_path_text(path@) && e == Error::MalformedInput,
            },
    {
        let chars = to_chars(path);
        if chars.len() == 0 {
            return Err(Error::MalformedInput);
        }
        let mut i: usize = 0;
        while i < chars.len()
            invariant
                i <= chars.len(),
                chars@ == path@,
                forall|j: int| 0 <= j < i ==> chars[j] != '<' && chars[j] != '>',
            decreases chars.len() - i,
        {
            if chars[i] == '<' || chars[i] == '>' {
                assert(path@.contains(chars[i as int]));
                return Err(Error::MalformedInput);
            }
            i += 1;
        }
        Ok(CppPath { items: split_text(path, "::") })
    }

    /// Reads a path written with `::` between its identifiers.
    pub fn from_str_unchecked(path: &str) -> (r: CppPath)
        requires
            is_path_text(path@),
        ensures
            r@ == split_seq(path@, "::"@),
    {
        CppPath { items: split_text(path, "::") }
    }

    /// The path made of `items`.
    pub fn from_items(items: Vec<String>) -> (r: CppPath)
        ensures
            r@ == strings_view(items@),
    {
        CppPath { items }
    }

    /// Whether both paths hold the same identifiers.
    pub fn same_as(&self, other: &CppPath) -> (r: bool)
        ensures
            r == (self@ == other@),
    {
        same_strings(&self.items, &other.items)
    }

    /// The identifiers joined by `::`.
    pub fn to_cpp_code(&self) -> (r: String)
        ensures
            r@ == join_seq(self@, "::"@),
    {
        join_strings(&self.items, "::")
    }
}

/// An aggregate type, possibly an instance of a template.
#[derive(Debug, PartialEq, Eq)]
pub struct CppClassType {
    pub path: CppPath,
    pub template_arguments: Option<Vec<CppType>>,
}

/// A pointer to a function.
#[derive(Debug, PartialEq, Eq)]
pub struct CppFunctionPointerType {
    pub return_type: Box<CppType>,
    pub arguments: Vec<CppType>,
    pub allows_variadic_arguments: bool,
}

/// A native type.
#[derive(Debug, PartialEq, Eq)]
pub enum CppType {
    Void,
    BuiltInNumeric(CppBuiltInNumericType),
    SpecificNumeric(CppSpecificNumericType),
    PointerSizedInteger { name: String, is_signed: bool },
    Enum { path: CppPath },
    Class(CppClassType),
    TemplateParameter { nested_level: usize, index: usize, name: String },
    FunctionPointer(CppFunctionPointerType),
    PointerLike { kind: CppPointerLikeTypeKind, is_const: bool, target: Box<CppType> },
}

/// The mathematical value of a native type.
#[allow(inconsistent_fields)]
pub enum CppTypeModel {
    Void,
    BuiltInNumeric(CppBuiltInNumericType),
    SpecificNumeric { name: Seq<char>, bits: nat, kind: CppSpecificNumericTypeKind },
    PointerSizedInteger { name: Seq<char>, is_signed: bool },
    Enum { path: Seq<Seq<char>> },
    Class { path: Seq<Seq<char>>, template_arguments: Option<Seq<CppTypeModel>> },
    TemplateParameter { nested_level: nat, index: nat, name: Seq<char> },
    FunctionPointer {
        return_type: Box<CppTypeModel>,
        arguments: Seq<CppTypeModel>,
        allows_variadic_arguments: bool,
    },
    PointerLike { kind: CppPointerLikeTypeKind, is_const: bool, target: Box<CppTypeModel> },
}

/// The values of a sequence of native types.
pub open spec fn types_view(v: Seq<CppType>) -> Seq<CppTypeModel> {
    Seq::new(v.len(), |i: int| v[i]@)
}

impl CppType {
    /// The mathematical value of this type.
    pub open spec fn model(&self) -> CppTypeModel
        decreases self,
    {
        match self {
            CppType::Void => CppTypeModel::Void,
            CppType::BuiltInNumeric(t) => CppTypeModel::BuiltInNumeric(*t),
            CppType::SpecificNumeric(t) => CppTypeModel::SpecificNumeric {
                name: t.name@,
                bits: t.bits as nat,
                kind: t.kind,
            },
            CppType::PointerSizedInteger { name, is_signed } => CppTypeModel::PointerSizedInteger {
                name: name@,
                is_signed: *is_signed,
            },
            CppType::Enum { path } => CppTypeModel::Enum { path: path@ },
            CppType::Class(c) => CppTypeModel::Class {
                path: c.path@,
                template_arguments: match c.template_arguments {
                    None => None,
                    Some(args) => Some(
                        Seq::new(
                            args.len() as nat,
                            |i: int|
                                if 0 <= i < args.len() {
                                    args[i].model()
                                } else {
                                    CppTypeModel::Void
                                },
                        ),
                    ),
                },
            },
            CppType::TemplateParameter { nested_level, index, name } => CppTypeModel::TemplateParameter {
                nested_level: *nested_level as nat,
                index: *index as nat,
                name: name@,
            },
            CppType::FunctionPointer(f) => CppTypeModel::FunctionPointer {
                return_type: Box::new(f.return_type.model()),
                arguments: Seq::new(
                    f.arguments.len() as nat,
                    |i: int|
                        if 0 <= i < f.arguments.len() {
                            f.arguments[i].model()
                        } else {
                            CppTypeModel::Void
                        },
                ),
                allows_variadic_arguments: f.allows_variadic_arguments,
            },
            CppType::PointerLike { kind, is_const, target } => CppTypeModel::PointerLike {
                kind: *kind,
                is_const: *is_const,
                target: Box::new(target.model()),
            },
        }
    }

    /// The template arguments of a class and the arguments of a function
    /// pointer are seen as the values of their elements.
    pub proof fn lemma_model_children(&self)
        ensures
            self matches CppType::Class(c) ==> (match c.template_arguments {
                None => self@->Class_template_arguments is None,
                Some(args) => self@->Class_template_arguments == Some(types_view(args@)),
            }),
            self matches CppType::FunctionPointer(f) ==> self@->FunctionPointer_arguments
                == types_view(f.arguments@),
    {
        match self {
            CppType::Class(c) => {
                if let Some(args) = c.template_arguments {
                    assert(self@->Class_template_arguments->0 =~= types_view(args@));
                }
            },
            CppType::FunctionPointer(f) => {
                assert(self@->FunctionPointer_arguments =~= types_view(f.arguments@));
            },
            _ => {},
        }
    }
}

impl View for CppType {
    type V = CppTypeModel;

    open spec fn view(&self) -> CppTypeModel {
        self.model()
    }
}


impl CppTypeModel {
    /// Whether a template parameter occurs anywhere in the type: such a type
    /// is not concrete.
    pub open spec fn contains_template_parameter(self) -> bool
        decreases self,
    {
        match self {
            CppTypeModel::TemplateParameter { .. } => true,
            CppTypeModel::Class { template_arguments, .. } => match template_arguments {
                Some(args) => exists|i: int|
                    0 <= i < args.len() && (#[trigger] args[i]).contains_template_parameter(),
                None => false,
            },
            CppTypeModel::FunctionPointer { return_type, arguments, .. } => {
                ||| return_type.contains_template_parameter()
                ||| exists|i: int|
                    0 <= i < arguments.len() && (#[trigger] arguments[i]).contains_template_parameter()
            },
            CppTypeModel::PointerLike { target, .. } => target.contains_template_parameter(),
            _ => false,
        }
    }

    /// Whether a template parameter of nesting level `level` occurs in the type.
    pub open spec fn has_parameter_at(self, level: nat) -> bool
        decreases self,
    {
        match self {
            CppTypeModel::TemplateParameter { nested_level, .. } => nested_level == level,
            CppTypeModel::Class { template_arguments: Some(args), .. } => exists|i: int|
                0 <= i < args.len() && (#[trigger] args[i]).has_parameter_at(level),
            CppTypeModel::FunctionPointer { return_type, arguments, .. } => {
                ||| return_type.has_parameter_at(level)
                ||| exists|i: int|
                    0 <= i < arguments.len() && (#[trigger] arguments[i]).has_parameter_at(level)
            },
            CppTypeModel::PointerLike { target, .. } => target.has_parameter_at(level),
            _ => false,
        }
    }

    /// Whether every template parameter of nesting level `level` in the type
    /// has an index below `count`.
    pub open spec fn instantiable(self, level: nat, count: nat) -> bool
        decreases self,
    {
        match self {
            CppTypeModel::TemplateParameter { nested_level, index, .. } => nested_level != level
                || index < count,
            CppTypeModel::Class { template_arguments: Some(args), .. } => forall|i: int|
                0 <= i < args.len() ==> (#[trigger] args[i]).instantiable(level, count),
            CppTypeModel::FunctionPointer { return_type, arguments, .. } => {
                &&& return_type.instantiable(level, count)
                &&& forall|i: int|
                    0 <= i < arguments.len() ==> (#[trigger] arguments[i]).instantiable(level, count)
            },
            CppTypeModel::PointerLike { target, .. } => target.instantiable(level, count),
            _ => true,
        }
    }

    /// The type with every template parameter of nesting level `level`
    /// replaced by the replacement at the parameter's index. Parameters of
    /// other levels, and what is no parameter, stay as they are.
    pub open spec fn instantiated(self, level: nat, replacements: Seq<CppTypeModel>) -> CppTypeModel
        decreases self,
    {
        match self {
            CppTypeModel::TemplateParameter { nested_level, index, .. } => if nested_level == level
                && index < replacements.len() {
                replacements[index as int]
            } else {
                self
            },
            CppTypeModel::Class { path, template_arguments: Some(args) } => CppTypeModel::Class {
                path,
                template_arguments: Some(
                    Seq::new(
                        args.len(),
                        |i: int|
                            if 0 <= i < args.len() {
                                args[i].instantiated(level, replacements)
                            } else {
                                CppTypeModel::Void
                            },
                    ),
                ),
            },
            CppTypeModel::FunctionPointer {
                return_type,
                arguments,
                allows_variadic_arguments,
            } => CppTypeModel::FunctionPointer {
                return_type: Box::new(return_type.instantiated(level, replacements)),
                arguments: Seq::new(
                    arguments.len(),
                    |i: int|
                        if 0 <= i < arguments.len() {
                            arguments[i].instantiated(level, replacements)
                        } else {
                            CppTypeModel::Void
                        },
                ),
                allows_variadic_arguments,
            },
            CppTypeModel::PointerLike { kind, is_const, target } => CppTypeModel::PointerLike {
                kind,
                is_const,
                target: Box::new(target.instantiated(level, replacements)),
            },
            _ => self,
        }
    }

    /// What specialising the type for `replacements` gives: the substituted
    /// type, or `UnsupportedType` when a parameter of that level has no
    /// replacement.
    pub open spec fn instantiate_result(self, level: nat, replacements: Seq<CppTypeModel>) -> Result<
        CppTypeModel,
        Error,
    > {
        if self.instantiable(level, replacements.len()) {
            Ok(self.instantiated(level, replacements))
        } else {
            Err(Error::UnsupportedType)
        }
    }

    /// The type that is left when all pointers and references are taken off.
    pub open spec fn base(self) -> CppTypeModel
        decreases self,
    {
        match self {
            CppTypeModel::PointerLike { target, .. } => target.base(),
            _ => self,
        }
    }
}

/// Substitution leaves a type without parameters of that level unchanged.
pub proof fn lemma_instantiate_identity(t: CppTypeModel, level: nat, replacements: Seq<CppTypeModel>)
    requires
        !t.has_parameter_at(level),
    ensures
        t.instantiable(level, replacements.len()),
        t.instantiated(level, replacements) == t,
        t.instantiate_result(level, replacements) == Ok::<CppTypeModel, Error>(t),
    decreases t,
{
    match t {
        CppTypeModel::Class { path, template_arguments: Some(args) } => {
            assert forall|i: int| 0 <= i < args.len() implies (#[trigger] args[i]).instantiable(
                level,
                replacements.len(),
            ) && args[i].instantiated(level, replacements) == args[i] by {
                lemma_instantiate_identity(args[i], level, replacements);
            }
            assert(t.instantiated(level, replacements)->Class_template_arguments->0 =~= args);
        },
        CppTypeModel::FunctionPointer { return_type, arguments, .. } => {
            lemma_instantiate_identity(*return_type, level, replacements);
            assert forall|i: int| 0 <= i < arguments.len() implies (
            #[trigger] arguments[i]).instantiable(level, replacements.len())
                && arguments[i].instantiated(level, replacements) == arguments[i] by {
                lemma_instantiate_identity(arguments[i], level, replacements);
            }
            assert(t.instantiated(level, replacements)->FunctionPointer_arguments =~= arguments);
        },
        CppTypeModel::PointerLike { target, .. } => {
            lemma_instantiate_identity(*target, level, replacements);
        },
        _ => {},
    }
}

/// When no replacement holds a parameter of the level, the substituted type
/// holds none either.
pub proof fn lemma_instantiated_has_no_parameter(
    t: CppTypeModel,
    level: nat,
    replacements: Seq<CppTypeModel>,
)
    requires
        t.instantiable(level, replacements.len()),
        forall|i: int| 0 <= i < replacements.len() ==> !(#[trigger] replacements[i]).has_parameter_at(level),
    ensures
        !t.instantiated(level, replacements).has_parameter_at(level),
    decreases t,
{
    match t {
        CppTypeModel::Class { path, template_arguments: Some(args) } => {
            assert forall|i: int| 0 <= i < args.len() implies !(#[trigger] args[i]).instantiated(
                level,
                replacements,
            ).has_parameter_at(level) by {
                lemma_instantiated_has_no_parameter(args[i], level, replacements);
            }
        },
        CppTypeModel::FunctionPointer { return_type, arguments, .. } => {
            lemma_instantiated_has_no_parameter(*return_type, level, replacements);
            assert forall|i: int| 0 <= i < arguments.len() implies !(
            #[trigger] arguments[i]).instantiated(level, replacements).has_parameter_at(level) by {
                lemma_instantiated_has_no_parameter(arguments[i], level, replacements);
            }
        },
        CppTypeModel::PointerLike { target, .. } => {
            lemma_instantiated_has_no_parameter(*target, level, replacements);
        },
        _ => {},
    }
}

/// Substitution is idempotent once every parameter of the level is replaced:
/// with replacements that hold no parameter of the level, substituting a
/// second time changes nothing.
pub proof fn lemma_instantiate_idempotent(
    t: CppTypeModel,
    level: nat,
    replacements: Seq<CppTypeModel>,
)
    requires
        t.instantiable(level, replacements.len()),
        forall|i: int| 0 <= i < replacements.len() ==> !(#[trigger] replacements[i]).has_parameter_at(level),
    ensures
        t.instantiated(level, replacements).instantiate_result(level, replacements) == t.instantiate_result(
            level,
            replacements,
        ),
{
    lemma_instantiated_has_no_parameter(t, level, replacements);
    lemma_instantiate_identity(t.instantiated(level, replacements), level, replacements);
}


/// The value of a type or the error that came in its place.
pub open spec fn type_result_view(r: Result<CppType, Error>) -> Result<CppTypeModel, Error> {
    match r {
        Ok(t) => Ok(t@),
        Err(e) => Err(e),
    }
}

/// Copies a list of types.
pub fn clone_types(v: &Vec<CppType>) -> (r: Vec<CppType>)
    ensures
        types_view(r@) == types_view(v@),
        r.len() == v.len(),
    decreases v,
{
    let mut r: Vec<CppType> = Vec::new();
    let mut i: usize = 0;
    while i < v.len()
        invariant
            i <= v.len(),
            r.len() == i,
            forall|j: int| 0 <= j < i ==> r[j]@ == v[j]@,
        decreases v.len() - i,
    {
        r.push(v[i].duplicate());
        i += 1;
    }
    assert(types_view(r@) =~= types_view(v@));
    r
}

/// Whether a template parameter occurs in one of the types.
pub fn any_contains_template_parameter(v: &Vec<CppType>) -> (r: bool)
    ensures
        r == exists|i: int|
            0 <= i < v.len() && (#[trigger] types_view(v@)[i]).contains_template_parameter(),
    decreases v,
{
    let mut i: usize = 0;
    while i < v.len()
        invariant
            i <= v.len(),
            forall|j: int| 0 <= j < i ==> !(#[trigger] types_view(v@)[j]).contains_template_parameter(),
        decreases v.len() - i,
    {
        if v[i].is_or_contains_template_parameter() {
            assert(types_view(v@)[i as int].contains_template_parameter());
            return true;
        }
        i += 1;
    }
    false
}

/// Specialises every type of the list.
pub fn instantiate_all(v: &Vec<CppType>, nested_level: usize, template_arguments: &[CppType]) -> (r:
    Result<Vec<CppType>, Error>)
    ensures
        match r {
            Ok(w) => {
                &&& w.len() == v.len()
                &&& forall|i: int|
                    0 <= i < v.len() ==> {
                        &&& (#[trigger] types_view(v@)[i]).instantiable(
                            nested_level as nat,
                            template_arguments@.len(),
                        )
                        &&& w[i]@ == types_view(v@)[i].instantiated(
                            nested_level as nat,
                            types_view(template_arguments@),
                        )
                    }
            },
            Err(e) => {
                &&& e == Error::UnsupportedType
                &&& exists|i: int|
                    0 <= i < v.len() && !(#[trigger] types_view(v@)[i]).instantiable(
                        nested_level as nat,
                        template_arguments@.len(),
                    )
            },
        },
    decreases v,
{
    let mut w: Vec<CppType> = Vec::new();
    let mut i: usize = 0;
    while i < v.len()
        invariant
            i <= v.len(),
            w.len() == i,
            forall|j: int|
                0 <= j < i ==> {
                    &&& (#[trigger] types_view(v@)[j]).instantiable(
                        nested_level as nat,
                        template_arguments@.len(),
                    )
                    &&& w[j]@ == types_view(v@)[j].instantiated(
                        nested_level as nat,
                        types_view(template_arguments@),
                    )
                },
        decreases v.len() - i,
    {
        match v[i].instantiate(nested_level, template_arguments) {
            Ok(t) => {
                assert(types_view(v@)[i as int] == v[i as int]@);
                w.push(t);
            },
            Err(e) => {
                assert(!types_view(v@)[i as int].instantiable(
                    nested_level as nat,
                    template_arguments@.len(),
                ));
                return Err(e);
            },
        }
        i += 1;
    }
    Ok(w)
}

impl CppType {
    /// A pointer to `target`.
    pub fn new_pointer(is_const: bool, target: CppType) -> (r: CppType)
        ensures
            r@ == (CppTypeModel::PointerLike {
                kind: CppPointerLikeTypeKind::Pointer,
                is_const,
                target: Box::new(target@),
            }),
    {
        CppType::PointerLike {
            kind: CppPointerLikeTypeKind::Pointer,
            is_const,
            target: Box::new(target),
        }
    }

    /// A reference to `target`.
    pub fn new_reference(is_const: bool, target: CppType) -> (r: CppType)
        ensures
            r@ == (CppTypeModel::PointerLike {
                kind: CppPointerLikeTypeKind::Reference,
                is_const,
                target: Box::new(target@),
            }),
    {
        CppType::PointerLike {
            kind: CppPointerLikeTypeKind::Reference,
            is_const,
            target: Box::new(target),
        }
    }

    /// Whether this is `void` itself.
    pub fn is_void(&self) -> (r: bool)
        ensures
            r == (self@ is Void),
    {
        match self {
            CppType::Void => true,
            _ => false,
        }
    }

    /// Whether this is a class, or a pointer or reference that leads to one.
    pub fn is_class(&self) -> (r: bool)
        ensures
            r == (self@.base() is Class),
        decreases self,
    {
        match self {
            CppType::Class(_) => true,
            CppType::PointerLike { target, .. } => target.is_class(),
            _ => false,
        }
    }

    /// Whether this is a template parameter, or a pointer or reference that
    /// leads to one.
    pub fn is_template_parameter(&self) -> (r: bool)
        ensures
            r == (self@.base() is TemplateParameter),
        decreases self,
    {
        match self {
            CppType::TemplateParameter { .. } => true,
            CppType::PointerLike { target, .. } => target.is_template_parameter(),
            _ => false,
        }
    }

    /// Whether this is a function pointer itself.
    pub fn is_function_pointer(&self) -> (r: bool)
        ensures
            r == (self@ is FunctionPointer),
    {
        match self {
            CppType::FunctionPointer(_) => true,
            _ => false,
        }
    }

    /// A copy of the type.
    pub fn duplicate(&self) -> (r: CppType)
        ensures
            r@ == self@,
        decreases self,
    {
        proof {
            self.lemma_model_children();
        }
        let r = match self {
            CppType::Void => CppType::Void,
            CppType::BuiltInNumeric(t) => CppType::BuiltInNumeric(*t),
            CppType::SpecificNumeric(t) => CppType::SpecificNumeric(
                CppSpecificNumericType { name: t.name.clone(), bits: t.bits, kind: t.kind },
            ),
            CppType::PointerSizedInteger { name, is_signed } => CppType::PointerSizedInteger {
                name: name.clone(),
                is_signed: *is_signed,
            },
            CppType::Enum { path } => CppType::Enum { path: path.clone() },
            CppType::Class(c) => {
                let args = match &c.template_arguments {
                    None => None,
                    Some(args) => Some(clone_types(args)),
                };
                CppType::Class(CppClassType { path: c.path.clone(), template_arguments: args })
            },
            CppType::TemplateParameter { nested_level, index, name } => CppType::TemplateParameter {
                nested_level: *nested_level,
                index: *index,
                name: name.clone(),
            },
            CppType::FunctionPointer(f) => CppType::FunctionPointer(
                CppFunctionPointerType {
                    return_type: Box::new(f.return_type.duplicate()),
                    arguments: clone_types(&f.arguments),
                    allows_variadic_arguments: f.allows_variadic_arguments,
                },
            ),
            CppType::PointerLike { kind, is_const, target } => CppType::PointerLike {
                kind: *kind,
                is_const: *is_const,
                target: Box::new(target.duplicate()),
            },
        };
        proof {
            r.lemma_model_children();
        }
        r
    }

    /// Whether a template parameter occurs anywhere in the type.
    pub fn is_or_contains_template_parameter(&self) -> (r: bool)
        ensures
            r == self@.contains_template_parameter(),
        decreases self,
    {
        proof {
            self.lemma_model_children();
        }
        match self {
            CppType::TemplateParameter { .. } => true,
            CppType::Class(c) => match &c.template_arguments {
                None => false,
                Some(args) => {
                    let r = any_contains_template_parameter(args);
                    proof {
                        let given = self@->Class_template_arguments->0;
                        assert(given == types_view(args@));
                        assert(self@.contains_template_parameter() == (exists|i: int|
                            0 <= i < given.len() && (#[trigger] given[i]).contains_template_parameter()));
                    }
                    r
                },
            },
            CppType::FunctionPointer(f) => {
                let a = f.return_type.is_or_contains_template_parameter();
                let b = any_contains_template_parameter(&f.arguments);
                a || b
            },
            CppType::PointerLike { target, .. } => {
                target.is_or_contains_template_parameter()
            },
            _ => false,
        }
    }

    /// Specialises a generic type: every template parameter of nesting level
    /// `nested_level` becomes the type of `template_arguments` at the
    /// parameter's index. Fails with `UnsupportedType` when such a parameter
    /// has no replacement.
    pub fn instantiate(&self, nested_level: usize, template_arguments: &[CppType]) -> (r: Result<
        CppType,
        Error,
    >)
        ensures
            type_result_view(r) == self@.instantiate_result(
                nested_level as nat,
                types_view(template_arguments@),
            ),
        decreases self,
    {
        proof {
            self.lemma_model_children();
        }
        let ghost level = nested_level as nat;
        let ghost replacements = types_view(template_arguments@);
        match self {
            CppType::TemplateParameter { nested_level: own_level, index, name } => {
                if *own_level == nested_level {
                    if *index >= template_arguments.len() {
                        Err(Error::UnsupportedType)
                    } else {
                        Ok(template_arguments[*index].duplicate())
                    }
                } else {
                    Ok(self.duplicate())
                }
            },
            CppType::Class(c) => match &c.template_arguments {
                None => Ok(self.duplicate()),
                Some(args) => {
                    match instantiate_all(args, nested_level, template_arguments) {
                        Ok(new_args) => {
                            let r = CppType::Class(
                                CppClassType { path: c.path.clone(), template_arguments: Some(new_args) },
                            );
                            proof {
                                r.lemma_model_children();
                                assert(r@->Class_template_arguments->0 =~= self@.instantiated(
                                    level,
                                    replacements,
                                )->Class_template_arguments->0);
                            }
                            Ok(r)
                        },
                        Err(e) => Err(e),
                    }
                },
            },
            CppType::FunctionPointer(f) => {
                let return_type = match f.return_type.instantiate(nested_level, template_arguments) {
                    Ok(t) => t,
                    Err(e) => {
                        return Err(e);
                    },
                };
                match instantiate_all(&f.arguments, nested_level, template_arguments) {
                    Ok(new_args) => {
                        let r = CppType::FunctionPointer(
                            CppFunctionPointerType {
                                return_type: Box::new(return_type),
                                arguments: new_args,
                                allows_variadic_arguments: f.allows_variadic_arguments,
                            },
                        );
                        proof {
                            r.lemma_model_children();
                            assert(r@->FunctionPointer_arguments =~= self@.instantiated(
                                level,
                                replacements,
                            )->FunctionPointer_arguments);
                        }
                        Ok(r)
                    },
                    Err(e) => Err(e),
                }
            },
            CppType::PointerLike { kind, is_const, target } => {
                match target.instantiate(nested_level, template_arguments) {
                    Ok(t) => Ok(
                        CppType::PointerLike { kind: *kind, is_const: *is_const, target: Box::new(t) },
                    ),
                    Err(e) => Err(e),
                }
            },
            _ => Ok(self.duplicate()),
        }
    }
}

impl Clone for CppType {
    fn clone(&self) -> (r: Self)
        ensures
            r@ == self@,
    {
        self.duplicate()
    }
}

} // verus!
