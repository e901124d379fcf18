//! Types of the generated language and how they pair with foreign-call types.

use crate::cpp_ffi_data::{CppTypeConversionToFfi, CppTypeRole};
use crate::errors::Error;
use crate::text::{clone_strings, join_seq, join_strings, same_strings, strings_view};
use vstd::prelude::*;
use vstd::string::*;

verus! {

/// A namespace address in the generated language: a crate name followed by
/// the names of nested items. It is never empty.
#[derive(Debug, PartialEq, Eq, Hash)]
pub struct RustPath {
    parts: Vec<String>,
}

impl View for RustPath {
    type V = Seq<Seq<char>>;

    closed spec fn view(&self) -> Seq<Seq<char>> {
        strings_view(self.parts@)
    }
}

/// The text of a path as seen from inside `current_crate`: a path of that
/// crate is written from the crate root, with a leading `::`, any other with
/// all its parts.
pub open spec fn full_name_of(path: Seq<Seq<char>>, current_crate: Option<Seq<char>>) -> Seq<char> {
    if current_crate is Some && path.len() > 0 && path[0] == current_crate->0 {
        "::"@ + join_seq(path.subrange(1, path.len() as int), "::"@)
    } else {
        join_seq(path, "::"@)
    }
}

/// The text of an optional string slice.
pub open spec fn optional_str(name: Option<&str>) -> Option<Seq<char>> {
    match name {
        Some(n) => Some(n@),
        None => None,
    }
}

impl RustPath {
    #[verifier::type_invariant]
    spec fn is_not_empty(self) -> bool {
        self.parts.len() > 0
    }

    /// The path made of `parts`, of which there is at least one.
    pub fn from_parts(parts: Vec<String>) -> (r: RustPath)
        requires
            parts.len() > 0,
        ensures
            r@ == strings_view(parts@),
    {
        RustPath { parts }
    }

    /// The names of the path.
    pub fn parts(&self) -> (r: &Vec<String>)
        ensures
            strings_view(r@) == self@,
            r.len() > 0,
    {
        proof {
            use_type_invariant(self);
        }
        &self.parts
    }

    /// The name of the crate the path starts in.
    pub fn crate_name(&self) -> (r: &String)
        ensures
            r@ == self@[0],
            self@.len() > 0,
    {
        proof {
            use_type_invariant(self);
        }
        &self.parts[0]
    }

    /// The last name of the path.
    pub fn last(&self) -> (r: &String)
        ensures
            r@ == self@.last(),
            self@.len() > 0,
    {
        proof {
            use_type_invariant(self);
        }
        &self.parts[self.parts.len() - 1]
    }

    /// The number of names in the path.
    pub fn len(&self) -> (r: usize)
        ensures
            r == self@.len(),
            r > 0,
    {
        proof {
            use_type_invariant(self);
        }
        self.parts.len()
    }

    /// The path of the enclosing item, which a path of one name has not.
    pub fn parent(&self) -> (r: Option<RustPath>)
        ensures
            match r {
                Some(p) => self@.len() > 1 && p@ == self@.drop_last(),
                None => self@.len() == 1,
            },
    {
        proof {
            use_type_invariant(self);
        }
        if self.parts.len() > 1 {
            let mut parts = clone_strings(&self.parts);
            parts.pop();
            let r = RustPath { parts };
            assert(r@ =~= self@.drop_last()) by {
                assert forall|i: int| 0 <= i < r@.len() implies r@[i] == self@.drop_last()[i] by {
                    assert(strings_view(self.parts@)[i] == self.parts@[i]@);
                }
            }
            Some(r)
        } else {
            None
        }
    }

    /// The path of the item `name` inside this one.
    pub fn join(&self, name: String) -> (r: RustPath)
        ensures
            r@ == self@.push(name@),
    {
        proof {
            use_type_invariant(self);
        }
        let mut parts = clone_strings(&self.parts);
        let ghost before = parts@;
        parts.push(name);
        let r = RustPath { parts };
        assert(r@ =~= self@.push(name@)) by {
            assert forall|i: int| 0 <= i < self@.len() implies r@[i] == self@[i] by {
                assert(strings_view(before)[i] == before[i]@);
            }
        }
        r
    }

    /// Whether both paths hold the same names.
    pub fn same_as(&self, other: &RustPath) -> (r: bool)
        ensures
            r == (self@ == other@),
    {
        same_strings(&self.parts, &other.parts)
    }

    /// Whether this path names an item directly inside `parent`.
    pub fn is_child_of(&self, parent: &RustPath) -> (r: bool)
        ensures
            r == (self@.len() == parent@.len() + 1 && self@.drop_last() == parent@),
    {
        proof {
            use_type_invariant(self);
            use_type_invariant(parent);
        }
        if self.parts.len() - 1 != parent.parts.len() {
            return false;
        }
        let mut i: usize = 0;
        while i < parent.parts.len()
            invariant
                i <= parent.parts.len(),
                self.parts.len() == parent.parts.len() + 1,
                forall|j: int| 0 <= j < i ==> self.parts[j]@ == parent.parts[j]@,
            decreases parent.parts.len() - i,
        {
            if self.parts[i] != parent.parts[i] {
                assert(self@.drop_last()[i as int] != parent@[i as int]);
                return false;
            }
            i += 1;
        }
        assert(self@.drop_last() =~= parent@);
        true
    }

    /// The text of the path as seen from inside `current_crate`.
    pub fn full_name(&self, current_crate: Option<&str>) -> (r: String)
        ensures
            r@ == full_name_of(self@, optional_str(current_crate)),
    {
        proof {
            use_type_invariant(self);
        }
        if let Some(current_crate) = current_crate {
            let current = current_crate.to_owned();
            if self.parts[0] == current {
                let mut rest: Vec<String> = Vec::new();
                let mut i: usize = 1;
                while i < self.parts.len()
                    invariant
                        1 <= i <= self.parts.len(),
                        rest.len() == i - 1,
                        forall|j: int| 0 <= j < i - 1 ==> rest[j]@ == self.parts[j + 1]@,
                    decreases self.parts.len() - i,
                {
                    rest.push(self.parts[i].clone());
                    i += 1;
                }
                assert(strings_view(rest@) =~= self@.subrange(1, self@.len() as int));
                let joined = join_strings(&rest, "::");
                let mut r = "::".to_owned();
                r.append(joined.as_str());
                return r;
            }
        }
        join_strings(&self.parts, "::")
    }
}

impl Clone for RustPath {
    fn clone(&self) -> (r: Self)
        ensures
            r@ == self@,
    {
        proof {
            use_type_invariant(self);
        }
        RustPath { parts: clone_strings(&self.parts) }
    }
}

/// The two indirections of the generated language.
#[derive(Debug, PartialEq, Eq)]
pub enum RustPointerLikeTypeKind {
    /// A raw pointer.
    Pointer,
    /// A reference, with its lifetime where it is named.
    Reference { lifetime: Option<String> },
}

/// The mathematical value of a `RustPointerLikeTypeKind`.
pub enum RustPointerKindModel {
    Pointer,
    Reference { lifetime: Option<Seq<char>> },
}

impl View for RustPointerLikeTypeKind {
    type V = RustPointerKindModel;

    open spec fn view(&self) -> RustPointerKindModel {
        match self {
            RustPointerLikeTypeKind::Pointer => RustPointerKindModel::Pointer,
            RustPointerLikeTypeKind::Reference { lifetime } => RustPointerKindModel::Reference {
                lifetime: match lifetime {
                    Some(l) => Some(l@),
                    None => None,
                },
            },
        }
    }
}

impl Clone for RustPointerLikeTypeKind {
    fn clone(&self) -> (r: Self)
        ensures
            r@ == self@,
    {
        match self {
            RustPointerLikeTypeKind::Pointer => RustPointerLikeTypeKind::Pointer,
            RustPointerLikeTypeKind::Reference { lifetime } => RustPointerLikeTypeKind::Reference {
                lifetime: match lifetime {
                    Some(l) => Some(l.clone()),
                    None => None,
                },
            },
        }
    }
}

impl RustPointerLikeTypeKind {
    /// Whether this is the raw pointer.
    pub fn is_pointer(&self) -> (r: bool)
        ensures
            r == (self@ is Pointer),
    {
        match self {
            RustPointerLikeTypeKind::Pointer => true,
            _ => false,
        }
    }

    /// Whether this is a reference.
    pub fn is_ref(&self) -> (r: bool)
        ensures
            r == (self@ is Reference),
    {
        match self {
            RustPointerLikeTypeKind::Reference { .. } => true,
            _ => false,
        }
    }
}

/// A type of the generated language.
#[derive(Debug, PartialEq, Eq)]
pub enum RustType {
    /// The unit type, which stands for `void`.
    EmptyTuple,
    /// A pointer or a reference.
    PointerLike { kind: RustPointerLikeTypeKind, is_const: bool, target: Box<RustType> },
    /// A named type, with its generic arguments where it has any.
    Common { path: RustPath, generic_arguments: Option<Vec<RustType>> },
    /// A pointer to a foreign function.
    FunctionPointer { return_type: Box<RustType>, arguments: Vec<RustType> },
}

/// The mathematical value of a `RustType`.
#[allow(inconsistent_fields)]
pub enum RustTypeModel {
    EmptyTuple,
    PointerLike { kind: RustPointerKindModel, is_const: bool, target: Box<RustTypeModel> },
    Common { path: Seq<Seq<char>>, generic_arguments: Option<Seq<RustTypeModel>> },
    FunctionPointer { return_type: Box<RustTypeModel>, arguments: Seq<RustTypeModel> },
}

/// The values of a sequence of types.
pub open spec fn rust_types_view(v: Seq<RustType>) -> Seq<RustTypeModel> {
    Seq::new(v.len(), |i: int| v[i]@)
}

impl RustType {
    /// The mathematical value of this type.
    pub open spec fn model(&self) -> RustTypeModel
        decreases self,
    {
        match self {
            RustType::EmptyTuple => RustTypeModel::EmptyTuple,
            RustType::PointerLike { kind, is_const, target } => RustTypeModel::PointerLike {
                kind: kind@,
                is_const: *is_const,
                target: Box::new(target.model()),
            },
            RustType::Common { path, generic_arguments } => RustTypeModel::Common {
                path: path@,
                generic_arguments: match generic_arguments {
                    None => None,
                    Some(args) => Some(
                        Seq::new(
                            args.len() as nat,
                            |i: int|
                                if 0 <= i < args.len() {
                                    args[i].model()
                                } else {
                                    RustTypeModel::EmptyTuple
                                },
                        ),
                    ),
                },
            },
            RustType::FunctionPointer { return_type, arguments } => RustTypeModel::FunctionPointer {
                return_type: Box::new(return_type.model()),
                arguments: Seq::new(
                    arguments.len() as nat,
                    |i: int|
                        if 0 <= i < arguments.len() {
                            arguments[i].model()
                        } else {
                            RustTypeModel::EmptyTuple
                        },
                ),
            },
        }
    }

    /// Generic arguments and the arguments of a function pointer are seen as
    /// the values of their elements.
    pub proof fn lemma_model_children(&self)
        ensures
            self matches RustType::Common { generic_arguments, .. } ==> (match generic_arguments {
                None => self@->Common_generic_arguments is None,
                Some(args) => self@->Common_generic_arguments == Some(rust_types_view(args@)),
            }),
            self matches RustType::FunctionPointer { arguments, .. } ==> self@->FunctionPointer_arguments
                == rust_types_view(arguments@),
    {
        match self {
            RustType::Common { generic_arguments, .. } => {
                if let Some(args) = generic_arguments {
                    assert(self@->Common_generic_arguments->0 =~= rust_types_view(args@));
                }
            },
            RustType::FunctionPointer { arguments, .. } => {
                assert(self@->FunctionPointer_arguments =~= rust_types_view(arguments@));
            },
            _ => {},
        }
    }
}

impl View for RustType {
    type V = RustTypeModel;

    open spec fn view(&self) -> RustTypeModel {
        self.model()
    }
}

impl RustTypeModel {
    /// The constness of a pointer or reference; other types have none.
    pub open spec fn constness(self) -> Option<bool> {
        match self {
            RustTypeModel::PointerLike { is_const, .. } => Some(is_const),
            _ => None,
        }
    }

    /// The constness of the innermost pointer or reference of a chain of
    /// them; a type that is no pointer or reference has none.
    pub open spec fn last_constness(self) -> Option<bool>
        decreases self,
    {
        match self {
            RustTypeModel::PointerLike { is_const, target, .. } => if *target is PointerLike {
                target.last_constness()
            } else {
                Some(is_const)
            },
            _ => None,
        }
    }

    /// The type with the constness of its outermost pointer or reference
    /// set to `value`.
    pub open spec fn with_constness(self, value: bool) -> RustTypeModel {
        match self {
            RustTypeModel::PointerLike { kind, is_const, target } => RustTypeModel::PointerLike {
                kind,
                is_const: value,
                target,
            },
            _ => self,
        }
    }

    /// The lifetime named by the type, which only a reference can do.
    pub open spec fn lifetime(self) -> Option<Seq<char>> {
        match self {
            RustTypeModel::PointerLike { kind: RustPointerKindModel::Reference { lifetime }, .. } => lifetime,
            _ => None,
        }
    }

    /// The type with `lifetime` as the lifetime of its outermost reference;
    /// a type that is no reference stays as it is.
    pub open spec fn with_lifetime(self, lifetime: Seq<char>) -> RustTypeModel {
        match self {
            RustTypeModel::PointerLike {
                kind: RustPointerKindModel::Reference { .. },
                is_const,
                target,
            } => RustTypeModel::PointerLike {
                kind: RustPointerKindModel::Reference { lifetime: Some(lifetime) },
                is_const,
                target,
            },
            _ => self,
        }
    }

    /// Whether the type is a reference.
    pub open spec fn is_ref(self) -> bool {
        self matches RustTypeModel::PointerLike { kind: RustPointerKindModel::Reference { .. }, .. }
    }
}

/// Copies a list of types.
pub fn clone_rust_types(v: &Vec<RustType>) -> (r: Vec<RustType>)
    ensures
        rust_types_view(r@) == rust_types_view(v@),
        r.len() == v.len(),
    decreases v,
{
    let mut r: Vec<RustType> = Vec::new();
    let mut i: usize = 0;
    while i < v.len()
        invariant
            i <= v.len(),
            r.len() == i,
            forall|j: int| 0 <= j < i ==> r[j]@ == v[j]@,
        decreases v.len() - i,
    {
        r.push(v[i].duplicate());
        i += 1;
    }
    assert(rust_types_view(r@) =~= rust_types_view(v@));
    r
}

impl RustType {
    /// A copy of the type.
    pub fn duplicate(&self) -> (r: RustType)
        ensures
            r@ == self@,
        decreases self,
    {
        proof {
            self.lemma_model_children();
        }
        let r = match self {
            RustType::EmptyTuple => RustType::EmptyTuple,
            RustType::PointerLike { kind, is_const, target } => RustType::PointerLike {
                kind: kind.clone(),
                is_const: *is_const,
                target: Box::new(target.duplicate()),
            },
            RustType::Common { path, generic_arguments } => RustType::Common {
                path: path.clone(),
                generic_arguments: match generic_arguments {
                    None => None,
                    Some(args) => Some(clone_rust_types(args)),
                },
            },
            RustType::FunctionPointer { return_type, arguments } => RustType::FunctionPointer {
                return_type: Box::new(return_type.duplicate()),
                arguments: clone_rust_types(arguments),
            },
        };
        proof {
            r.lemma_model_children();
        }
        r
    }

    /// Whether this is the unit type.
    pub fn is_empty_tuple(&self) -> (r: bool)
        ensures
            r == (self@ is EmptyTuple),
    {
        match self {
            RustType::EmptyTuple => true,
            _ => false,
        }
    }

    /// Whether the type is a reference.
    pub fn is_ref(&self) -> (r: bool)
        ensures
            r == self@.is_ref(),
    {
        match self {
            RustType::PointerLike { kind, .. } => kind.is_ref(),
            _ => false,
        }
    }

    /// The constness of a pointer or reference. Any other type is refused
    /// with `MalformedInput`.
    pub fn is_const(&self) -> (r: Result<bool, Error>)
        ensures
            match r {
                Ok(b) => self@.constness() == Some(b),
                Err(e) => self@.constness() is None && e == Error::MalformedInput,
            },
    {
        match self {
            RustType::PointerLike { is_const, .. } => Ok(*is_const),
            _ => Err(Error::MalformedInput),
        }
    }

    /// The constness of the innermost pointer or reference of a chain of
    /// them. A type that is no pointer or reference is refused with
    /// `MalformedInput`.
    pub fn last_is_const(&self) -> (r: Result<bool, Error>)
        ensures
            match r {
                Ok(b) => self@.last_constness() == Some(b),
                Err(e) => self@.last_constness() is None && e == Error::MalformedInput,
            },
        decreases self,
    {
        match self {
            RustType::PointerLike { is_const, target, .. } => {
                match &**target {
                    RustType::PointerLike { .. } => target.last_is_const(),
                    _ => Ok(*is_const),
                }
            },
            _ => Err(Error::MalformedInput),
        }
    }

    /// Sets the constness of a pointer or reference. Any other type is
    /// refused with `MalformedInput` and left as it is.
    pub fn set_const(&mut self, value: bool) -> (r: Result<(), Error>)
        ensures
            match r {
                Ok(_) => old(self)@ is PointerLike && final(self)@ == old(self)@.with_constness(value),
                Err(e) => !(old(self)@ is PointerLike) && e == Error::MalformedInput && final(self)@
                    == old(self)@,
            },
    {
        match self {
            RustType::PointerLike { is_const, .. } => {
                *is_const = value;
                Ok(())
            },
            _ => Err(Error::MalformedInput),
        }
    }

    /// The lifetime named by the type.
    pub fn lifetime(&self) -> (r: Option<&String>)
        ensures
            match r {
                Some(l) => self@.lifetime() == Some(l@),
                None => self@.lifetime() is None,
            },
    {
        match self {
            RustType::PointerLike { kind, .. } => match kind {
                RustPointerLikeTypeKind::Reference { lifetime } => match lifetime {
                    Some(l) => Some(l),
                    None => None,
                },
                _ => None,
            },
            _ => None,
        }
    }

    /// The type with `lifetime` as the lifetime of its outermost reference.
    pub fn with_lifetime(&self, lifetime: String) -> (r: RustType)
        ensures
            r@ == self@.with_lifetime(lifetime@),
    {
        match self {
            RustType::PointerLike { kind: RustPointerLikeTypeKind::Reference { .. }, is_const, target } => {
                RustType::PointerLike {
                    kind: RustPointerLikeTypeKind::Reference { lifetime: Some(lifetime) },
                    is_const: *is_const,
                    target: Box::new(target.duplicate()),
                }
            },
            _ => self.duplicate(),
        }
    }
}

impl Clone for RustType {
    fn clone(&self) -> (r: Self)
        ensures
            r@ == self@,
    {
        self.duplicate()
    }
}

/// How a value of the API type becomes a value of the foreign-call type.
#[derive(Clone, Copy, Debug, PartialEq, Eq, Structural)]
pub enum RustToFfiTypeConversion {
    /// Both types are the same.
    NoConversion,
    /// A reference becomes a pointer.
    RefToPtr,
    /// An optional reference becomes a pointer that may be null.
    OptionRefToPtr,
    /// A value is passed through a pointer to it.
    ValueToPtr,
    /// An owning handle gives out the pointer it holds.
    CppBoxToPtr,
    /// A flags wrapper becomes its unsigned integer.
    QFlagsToUInt,
}

/// How a value crosses on the generated side when its native type crosses
/// by `conversion`: unchanged, as a reference, or as a flags wrapper as the
/// native side says; a class by value as a value, but for a result of a
/// class that is not movable, which is handed out as an owning handle.
pub open spec fn conversion_for(conversion: CppTypeConversionToFfi, role: CppTypeRole, is_movable: bool) -> RustToFfiTypeConversion {
    match conversion {
        CppTypeConversionToFfi::NoChange => RustToFfiTypeConversion::NoConversion,
        CppTypeConversionToFfi::ValueToPointer => if role == CppTypeRole::ReturnType && !is_movable {
            RustToFfiTypeConversion::CppBoxToPtr
        } else {
            RustToFfiTypeConversion::ValueToPtr
        },
        CppTypeConversionToFfi::ReferenceToPointer => RustToFfiTypeConversion::RefToPtr,
        CppTypeConversionToFfi::QFlagsToUInt => RustToFfiTypeConversion::QFlagsToUInt,
    }
}

impl RustToFfiTypeConversion {
    /// How a value crosses on the generated side when its native type
    /// crosses by `conversion`. `is_movable` says whether values of the class
    /// may live anywhere.
    pub fn from_cpp_conversion(conversion: CppTypeConversionToFfi, role: CppTypeRole, is_movable: bool) -> (r:
        RustToFfiTypeConversion)
        ensures
            r == conversion_for(conversion, role, is_movable),
    {
        match conversion {
            CppTypeConversionToFfi::NoChange => RustToFfiTypeConversion::NoConversion,
            CppTypeConversionToFfi::ValueToPointer => match role {
                CppTypeRole::ReturnType => if is_movable {
                    RustToFfiTypeConversion::ValueToPtr
                } else {
                    RustToFfiTypeConversion::CppBoxToPtr
                },
                CppTypeRole::NotReturnType => RustToFfiTypeConversion::ValueToPtr,
            },
            CppTypeConversionToFfi::ReferenceToPointer => RustToFfiTypeConversion::RefToPtr,
            CppTypeConversionToFfi::QFlagsToUInt => RustToFfiTypeConversion::QFlagsToUInt,
        }
    }
}

/// A type as the API shows it, the type that crosses the boundary in its
/// place, and the conversion between the two.
#[derive(Clone, Debug, PartialEq, Eq)]
pub struct RustFinalType {
    pub rust_api_type: RustType,
    pub rust_ffi_type: RustType,
    pub rust_api_to_ffi_conversion: RustToFfiTypeConversion,
}


/// The path of the optional type of the generated language.
pub open spec fn option_path() -> Seq<Seq<char>> {
    seq!["std"@, "option"@, "Option"@]
}

/// The path of the owning handle.
pub open spec fn owning_handle_path() -> Seq<Seq<char>> {
    seq!["cpp_utils"@, "CppBox"@]
}

/// The named type `path` with the one generic argument `argument`.
pub open spec fn generic_type(path: Seq<Seq<char>>, argument: RustTypeModel) -> RustTypeModel {
    RustTypeModel::Common { path, generic_arguments: Some(seq![argument]) }
}

/// The model of an optional type.
pub open spec fn optional_type_view(t: Option<RustType>) -> Option<RustTypeModel> {
    match t {
        Some(t) => Some(t@),
        None => None,
    }
}

/// The API type that `conversion` gives to the foreign-call type `ffi`.
///
/// Without a conversion it is the foreign-call type itself. The flags
/// wrapper cannot be told from its integer: it is `flags_type`, which has to
/// be given and to be a named type, else the input is malformed. The other
/// conversions start from a raw pointer: a reference of the same constness
/// to its target, that reference made optional, the target itself, or an
/// owning handle of the target. `MalformedInput` is due where they meet
/// anything but a raw pointer.
pub open spec fn api_type_result(
    ffi: RustTypeModel,
    conversion: RustToFfiTypeConversion,
    flags_type: Option<RustTypeModel>,
) -> Result<RustTypeModel, Error> {
    match conversion {
        RustToFfiTypeConversion::NoConversion => Ok(ffi),
        RustToFfiTypeConversion::QFlagsToUInt => match flags_type {
            Some(t) => if t is Common {
                Ok(t)
            } else {
                Err(Error::MalformedInput)
            },
            None => Err(Error::MalformedInput),
        },
        _ => match ffi {
            RustTypeModel::PointerLike { kind: RustPointerKindModel::Pointer, is_const, target } => {
                let reference = RustTypeModel::PointerLike {
                    kind: RustPointerKindModel::Reference { lifetime: None },
                    is_const,
                    target,
                };
                match conversion {
                    RustToFfiTypeConversion::RefToPtr => Ok(reference),
                    RustToFfiTypeConversion::OptionRefToPtr => Ok(generic_type(option_path(), reference)),
                    RustToFfiTypeConversion::ValueToPtr => Ok(*target),
                    _ => Ok(generic_type(owning_handle_path(), *target)),
                }
            },
            _ => Err(Error::MalformedInput),
        },
    }
}

/// A chain of pointers and references has an innermost constness.
pub proof fn lemma_pointers_have_last_constness(t: RustTypeModel)
    requires
        t is PointerLike,
    ensures
        t.last_constness() is Some,
    decreases t,
{
    if let RustTypeModel::PointerLike { target, .. } = t {
        if *target is PointerLike {
            lemma_pointers_have_last_constness(*target);
        }
    }
}

impl RustFinalType {
    /// Pairs the foreign-call type `rust_ffi_type` with the API type that
    /// `conversion` gives it. `flags_type` is the flags wrapper that the
    /// integer of a flags conversion stands for; the other conversions do
    /// not look at it.
    pub fn new(
        rust_ffi_type: RustType,
        conversion: RustToFfiTypeConversion,
        flags_type: Option<RustType>,
    ) -> (r: Result<RustFinalType, Error>)
        ensures
            match r {
                Ok(pair) => {
                    &&& api_type_result(rust_ffi_type@, conversion, optional_type_view(flags_type)) == Ok::<
                        RustTypeModel,
                        Error,
                    >(pair.rust_api_type@)
                    &&& pair.rust_ffi_type@ == rust_ffi_type@
                    &&& pair.rust_api_to_ffi_conversion == conversion
                },
                Err(e) => api_type_result(rust_ffi_type@, conversion, optional_type_view(flags_type)) == Err::<
                    RustTypeModel,
                    Error,
                >(e),
            },
    {
        let rust_api_type = match conversion {
            RustToFfiTypeConversion::NoConversion => rust_ffi_type.duplicate(),
            RustToFfiTypeConversion::QFlagsToUInt => {
                match flags_type {
                    Some(t) => match t {
                        RustType::Common { .. } => t,
                        _ => {
                            return Err(Error::MalformedInput);
                        },
                    },
                    None => {
                        return Err(Error::MalformedInput);
                    },
                }
            },
            _ => match &rust_ffi_type {
                RustType::PointerLike { kind: RustPointerLikeTypeKind::Pointer, is_const, target } => {
                    match conversion {
                        RustToFfiTypeConversion::RefToPtr => RustType::PointerLike {
                            kind: RustPointerLikeTypeKind::Reference { lifetime: None },
                            is_const: *is_const,
                            target: Box::new(target.duplicate()),
                        },
                        RustToFfiTypeConversion::OptionRefToPtr => {
                            let reference = RustType::PointerLike {
                                kind: RustPointerLikeTypeKind::Reference { lifetime: None },
                                is_const: *is_const,
                                target: Box::new(target.duplicate()),
                            };
                            let mut parts: Vec<String> = Vec::new();
                            parts.push("std".to_owned());
                            parts.push("option".to_owned());
                            parts.push("Option".to_owned());
                            assert(strings_view(parts@) =~= option_path());
                            let mut arguments: Vec<RustType> = Vec::new();
                            arguments.push(reference);
                            assert(rust_types_view(arguments@) =~= seq![reference@]);
                            let r = RustType::Common {
                                path: RustPath::from_parts(parts),
                                generic_arguments: Some(arguments),
                            };
                            proof {
                                r.lemma_model_children();
                            }
                            r
                        },
                        RustToFfiTypeConversion::ValueToPtr => target.duplicate(),
                        _ => {
                            let mut parts: Vec<String> = Vec::new();
                            parts.push("cpp_utils".to_owned());
                            parts.push("CppBox".to_owned());
                            assert(strings_view(parts@) =~= owning_handle_path());
                            let mut arguments: Vec<RustType> = Vec::new();
                            arguments.push(target.duplicate());
                            assert(rust_types_view(arguments@) =~= seq![target@]);
                            let r = RustType::Common {
                                path: RustPath::from_parts(parts),
                                generic_arguments: Some(arguments),
                            };
                            proof {
                                r.lemma_model_children();
                            }
                            r
                        },
                    }
                },
                _ => {
                    return Err(Error::MalformedInput);
                },
            },
        };
        Ok(RustFinalType { rust_api_type, rust_ffi_type, rust_api_to_ffi_conversion: conversion })
    }
}

} // verus!
