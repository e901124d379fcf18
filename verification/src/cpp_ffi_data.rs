//! The foreign-call form of native types and functions.

use crate::cpp_type::{
    CppBuiltInNumericType, CppClassType, CppPath, CppPointerLikeTypeKind, CppType, CppTypeModel,
};
use crate::errors::Error;
use vstd::prelude::*;
use vstd::string::*;

verus! {

/// Position of a type in a foreign function signature.
#[derive(Clone, Copy, Debug, PartialEq, Eq, Structural)]
pub enum CppTypeRole {
    /// The type is the function's return type.
    ReturnType,
    /// The type is an argument type or stands anywhere else.
    NotReturnType,
}

/// How a foreign-call type relates to the type it was derived from.
#[derive(Clone, Copy, Debug, PartialEq, Eq, Structural)]
pub enum CppTypeConversionToFfi {
    /// The type crosses the boundary as it is.
    NoChange,
    /// A value crosses as a pointer to it.
    ValueToPointer,
    /// A reference crosses as a pointer.
    ReferenceToPointer,
    /// A flags wrapper crosses as an unsigned integer.
    QFlagsToUInt,
}

/// A native type together with its foreign-call form.
#[derive(Debug, PartialEq, Eq)]
pub struct CppFfiType {
    /// The type as it was declared.
    pub original_type: CppType,
    /// The type that crosses the boundary.
    pub ffi_type: CppType,
    /// How to get from the one to the other.
    pub conversion: CppTypeConversionToFfi,
}

/// The mathematical value of a `CppFfiType`.
pub struct CppFfiTypeModel {
    pub original_type: CppTypeModel,
    pub ffi_type: CppTypeModel,
    pub conversion: CppTypeConversionToFfi,
}

impl View for CppFfiType {
    type V = CppFfiTypeModel;

    open spec fn view(&self) -> CppFfiTypeModel {
        CppFfiTypeModel {
            original_type: self.original_type@,
            ffi_type: self.ffi_type@,
            conversion: self.conversion,
        }
    }
}

impl Clone for CppFfiType {
    fn clone(&self) -> (r: Self)
        ensures
            r@ == self@,
    {
        CppFfiType {
            original_type: self.original_type.duplicate(),
            ffi_type: self.ffi_type.duplicate(),
            conversion: self.conversion,
        }
    }
}

/// The value of a foreign-call type or the error that came in its place.
pub open spec fn ffi_result_view(r: Result<CppFfiType, Error>) -> Result<CppFfiTypeModel, Error> {
    match r {
        Ok(t) => Ok(t@),
        Err(e) => Err(e),
    }
}

/// The name of the template that wraps an enum into a set of bit flags.
pub open spec fn flags_wrapper_name() -> Seq<char> {
    "QFlags"@
}

impl CppTypeModel {
    /// Whether the type is the flags wrapper idiom: the flags template, by
    /// value, with exactly one template argument.
    pub open spec fn is_flags_wrapper(self) -> bool {
        &&& self matches CppTypeModel::Class { path, template_arguments: Some(args) }
        &&& path == seq![flags_wrapper_name()]
        &&& args.len() == 1
    }

    /// The type that crosses the boundary in place of a concrete type.
    pub open spec fn foreign_type(self, role: CppTypeRole) -> CppTypeModel {
        match self {
            CppTypeModel::Class { .. } => if self.is_flags_wrapper() {
                CppTypeModel::BuiltInNumeric(CppBuiltInNumericType::UInt)
            } else {
                CppTypeModel::PointerLike {
                    kind: CppPointerLikeTypeKind::Pointer,
                    is_const: role == CppTypeRole::NotReturnType,
                    target: Box::new(self),
                }
            },
            CppTypeModel::PointerLike { kind: CppPointerLikeTypeKind::Reference, is_const, target } => if *target is Class {
                CppTypeModel::PointerLike { kind: CppPointerLikeTypeKind::Pointer, is_const, target }
            } else {
                self
            },
            _ => self,
        }
    }

    /// How the foreign-call type of a concrete type relates to it.
    pub open spec fn foreign_conversion(self) -> CppTypeConversionToFfi {
        match self {
            CppTypeModel::Class { .. } => if self.is_flags_wrapper() {
                CppTypeConversionToFfi::QFlagsToUInt
            } else {
                CppTypeConversionToFfi::ValueToPointer
            },
            CppTypeModel::PointerLike { kind: CppPointerLikeTypeKind::Reference, target, .. } => if *target is Class {
                CppTypeConversionToFfi::ReferenceToPointer
            } else {
                CppTypeConversionToFfi::NoChange
            },
            _ => CppTypeConversionToFfi::NoChange,
        }
    }

    /// What converting the type for a foreign call gives: the conversion is
    /// total over concrete types and fails with `UnsupportedType` on every
    /// type that holds a template parameter.
    pub open spec fn foreign_result(self, role: CppTypeRole) -> Result<CppFfiTypeModel, Error> {
        if self.contains_template_parameter() {
            Err(Error::UnsupportedType)
        } else {
            Ok(
                CppFfiTypeModel {
                    original_type: self,
                    ffi_type: self.foreign_type(role),
                    conversion: self.foreign_conversion(),
                },
            )
        }
    }

    /// Whether call sites of the type come in a value and an owning-handle
    /// variant: so for every class by value that is no flags wrapper.
    pub open spec fn needs_allocation_place_variants(self) -> bool {
        self is Class && !self.is_flags_wrapper()
    }
}

/// A pointer to `target` in the model.
pub open spec fn pointer_to(is_const: bool, target: CppTypeModel) -> CppTypeModel {
    CppTypeModel::PointerLike { kind: CppPointerLikeTypeKind::Pointer, is_const, target: Box::new(target) }
}

/// A reference to `target` in the model.
pub open spec fn reference_to(is_const: bool, target: CppTypeModel) -> CppTypeModel {
    CppTypeModel::PointerLike {
        kind: CppPointerLikeTypeKind::Reference,
        is_const,
        target: Box::new(target),
    }
}

/// A concrete class that is no flags wrapper, passed by value, crosses as a
/// pointer to it: a const one as an argument, a mutable one as a result.
pub proof fn lemma_class_by_value_crosses_as_pointer(t: CppTypeModel)
    requires
        t is Class,
        !t.contains_template_parameter(),
        !t.is_flags_wrapper(),
    ensures
        t.foreign_result(CppTypeRole::NotReturnType) == Ok::<CppFfiTypeModel, Error>(
            CppFfiTypeModel {
                original_type: t,
                ffi_type: pointer_to(true, t),
                conversion: CppTypeConversionToFfi::ValueToPointer,
            },
        ),
        t.foreign_result(CppTypeRole::ReturnType) == Ok::<CppFfiTypeModel, Error>(
            CppFfiTypeModel {
                original_type: t,
                ffi_type: pointer_to(false, t),
                conversion: CppTypeConversionToFfi::ValueToPointer,
            },
        ),
{
}

/// A reference to a concrete class crosses as a pointer of the same
/// constness, whatever the role.
pub proof fn lemma_class_reference_crosses_as_pointer(t: CppTypeModel, is_const: bool, role: CppTypeRole)
    requires
        t is Class,
        !t.contains_template_parameter(),
    ensures
        reference_to(is_const, t).foreign_result(role) == Ok::<CppFfiTypeModel, Error>(
            CppFfiTypeModel {
                original_type: reference_to(is_const, t),
                ffi_type: pointer_to(is_const, t),
                conversion: CppTypeConversionToFfi::ReferenceToPointer,
            },
        ),
{
}

/// A concrete type that is neither a class by value nor a reference to a
/// class crosses unchanged, whatever the role.
pub proof fn lemma_other_types_cross_unchanged(t: CppTypeModel, role: CppTypeRole)
    requires
        !t.contains_template_parameter(),
        !(t is Class),
        !(t matches CppTypeModel::PointerLike { kind: CppPointerLikeTypeKind::Reference, target, .. }
            && *target is Class),
    ensures
        t.foreign_result(role) == Ok::<CppFfiTypeModel, Error>(
            CppFfiTypeModel {
                original_type: t,
                ffi_type: t,
                conversion: CppTypeConversionToFfi::NoChange,
            },
        ),
{
}

/// The flags wrapper of a concrete type crosses as the built-in unsigned
/// integer, whatever the role.
pub proof fn lemma_flags_cross_as_unsigned(argument: CppTypeModel, role: CppTypeRole)
    requires
        !argument.contains_template_parameter(),
    ensures
        ({
            let flags = CppTypeModel::Class {
                path: seq![flags_wrapper_name()],
                template_arguments: Some(seq![argument]),
            };
            flags.foreign_result(role) == Ok::<CppFfiTypeModel, Error>(
                CppFfiTypeModel {
                    original_type: flags,
                    ffi_type: CppTypeModel::BuiltInNumeric(CppBuiltInNumericType::UInt),
                    conversion: CppTypeConversionToFfi::QFlagsToUInt,
                },
            )
        }),
{
    let args = seq![argument];
    let flags = CppTypeModel::Class { path: seq![flags_wrapper_name()], template_arguments: Some(args) };
    assert(flags.contains_template_parameter() == (exists|i: int|
        0 <= i < args.len() && (#[trigger] args[i]).contains_template_parameter()));
}

/// The conversion fails on every type that holds a template parameter.
pub proof fn lemma_template_parameter_cannot_cross(t: CppTypeModel, role: CppTypeRole)
    requires
        t.contains_template_parameter(),
    ensures
        t.foreign_result(role) == Err::<CppFfiTypeModel, Error>(Error::UnsupportedType),
{
}

impl CppClassType {
    /// Whether the class is the flags wrapper idiom.
    pub fn is_flags_wrapper(&self) -> (r: bool)
        ensures
            r == ({
                &&& self.path@ == seq![flags_wrapper_name()]
                &&& self.template_arguments matches Some(args)
                &&& args.len() == 1
            }),
    {
        match &self.template_arguments {
            None => false,
            Some(args) => {
                if args.len() != 1 || self.path.items.len() != 1 {
                    false
                } else {
                    let name = "QFlags".to_owned();
                    let r = self.path.items[0] == name;
                    proof {
                        if r {
                            assert(self.path@ =~= seq![flags_wrapper_name()]);
                        } else {
                            assert(self.path@[0] != seq![flags_wrapper_name()][0]);
                        }
                    }
                    r
                }
            },
        }
    }
}

impl CppType {
    /// Converts the type to its foreign-call form.
    ///
    /// A type that holds a template parameter is refused with
    /// `UnsupportedType`. Of the others, a flags wrapper becomes the built-in
    /// unsigned integer, any other class by value a pointer to it (const
    /// unless it is a return type), a reference to a class a pointer of the
    /// same constness, and everything else stays as it is.
    pub fn to_cpp_ffi_type(&self, role: CppTypeRole) -> (r: Result<CppFfiType, Error>)
        ensures
            ffi_result_view(r) == self@.foreign_result(role),
    {
        if self.is_or_contains_template_parameter() {
            return Err(Error::UnsupportedType);
        }
        proof {
            self.lemma_model_children();
        }
        match self {
            CppType::Class(c) => {
                let flags = c.is_flags_wrapper();
                assert(flags == self@.is_flags_wrapper());
                if flags {
                    Ok(
                        CppFfiType {
                            original_type: self.duplicate(),
                            ffi_type: CppType::BuiltInNumeric(CppBuiltInNumericType::UInt),
                            conversion: CppTypeConversionToFfi::QFlagsToUInt,
                        },
                    )
                } else {
                    let is_const = match role {
                        CppTypeRole::NotReturnType => true,
                        CppTypeRole::ReturnType => false,
                    };
                    Ok(
                        CppFfiType {
                            original_type: self.duplicate(),
                            ffi_type: CppType::new_pointer(is_const, self.duplicate()),
                            conversion: CppTypeConversionToFfi::ValueToPointer,
                        },
                    )
                }
            },
            CppType::PointerLike { kind: CppPointerLikeTypeKind::Reference, is_const, target } => {
                assert(self@->PointerLike_target == target@);
                match &**target {
                    CppType::Class(_) => Ok(
                        CppFfiType {
                            original_type: self.duplicate(),
                            ffi_type: CppType::new_pointer(*is_const, target.duplicate()),
                            conversion: CppTypeConversionToFfi::ReferenceToPointer,
                        },
                    ),
                    _ => Ok(
                        CppFfiType {
                            original_type: self.duplicate(),
                            ffi_type: self.duplicate(),
                            conversion: CppTypeConversionToFfi::NoChange,
                        },
                    ),
                }
            },
            _ => Ok(
                CppFfiType {
                    original_type: self.duplicate(),
                    ffi_type: self.duplicate(),
                    conversion: CppTypeConversionToFfi::NoChange,
                },
            ),
        }
    }

    /// Whether call sites of the type come in a value and an owning-handle
    /// variant.
    pub fn needs_allocation_place_variants(&self) -> (r: bool)
        ensures
            r == self@.needs_allocation_place_variants(),
    {
        proof {
            self.lemma_model_children();
        }
        match self {
            CppType::Class(c) => !c.is_flags_wrapper(),
            _ => false,
        }
    }
}

/// What an argument of a foreign function stands for.
#[derive(Clone, Copy, Debug, PartialEq, Eq, Structural)]
pub enum CppFfiArgumentMeaning {
    /// The receiver of a method.
    This,
    /// The argument of the native function at this position.
    Argument(usize),
    /// The location that receives the result.
    ReturnValue,
}

/// An argument of a foreign function.
#[derive(Clone, Debug, PartialEq, Eq)]
pub struct CppFfiFunctionArgument {
    pub name: String,
    pub argument_type: CppFfiType,
    pub meaning: CppFfiArgumentMeaning,
}

/// A foreign function: the form in which a native function is called.
#[derive(Clone, Debug, PartialEq, Eq)]
pub struct CppFfiFunction {
    pub path: CppPath,
    pub arguments: Vec<CppFfiFunctionArgument>,
    pub return_type: CppFfiType,
}

} // verus!
