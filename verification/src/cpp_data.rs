//! Declarations of the native library: types, enum values and functions.

use crate::cpp_type::{types_view, CppPath, CppType, CppTypeModel};
use crate::text::{clone_strings, strings_view};
use vstd::prelude::*;
use vstd::string::*;

verus! {

/// Documentation attached to a native type.
#[derive(Clone, Debug, PartialEq, Eq)]
pub struct CppTypeDoc {
    pub html: String,
    pub url: String,
    pub cross_references: Vec<String>,
}

/// Whether a declared type is an enum or an aggregate.
#[derive(Clone, Copy, Debug, PartialEq, Eq, Structural)]
pub enum CppTypeDataKind {
    Enum,
    Class,
}

impl CppTypeDataKind {
    /// Whether the declared type is an aggregate.
    pub fn is_class(&self) -> (r: bool)
        ensures
            r == (*self == CppTypeDataKind::Class),
    {
        match self {
            CppTypeDataKind::Class => true,
            CppTypeDataKind::Enum => false,
        }
    }

    /// Whether the declared type is an enum.
    pub fn is_enum(&self) -> (r: bool)
        ensures
            r == (*self == CppTypeDataKind::Enum),
    {
        match self {
            CppTypeDataKind::Enum => true,
            CppTypeDataKind::Class => false,
        }
    }
}

/// A type declaration.
#[derive(Clone, Debug, PartialEq, Eq)]
pub struct CppTypeData {
    pub path: CppPath,
    pub kind: CppTypeDataKind,
    pub doc: Option<CppTypeDoc>,
    /// Whether values of the class may live anywhere, not only on the heap.
    pub is_movable: bool,
}

/// One value of an enum.
#[derive(Clone, Debug, PartialEq, Eq)]
pub struct CppEnumValue {
    pub path: CppPath,
    pub value: i64,
    pub doc: Option<String>,
}

/// Who may use a member of a class.
#[derive(Clone, Copy, Debug, PartialEq, Eq, Structural)]
pub enum CppVisibility {
    Public,
    Protected,
    Private,
}

/// What a member function is for.
#[derive(Clone, Copy, Debug, PartialEq, Eq, Structural)]
pub enum CppFunctionKind {
    Regular,
    Constructor,
    Destructor,
}

/// What a function has from being a member of a class.
#[derive(Clone, Copy, Debug, PartialEq, Eq, Structural)]
pub struct CppFunctionMemberData {
    pub kind: CppFunctionKind,
    pub is_virtual: bool,
    pub is_pure_virtual: bool,
    pub is_const: bool,
    pub is_static: bool,
    pub visibility: CppVisibility,
    pub is_signal: bool,
    pub is_slot: bool,
}

/// The operators a function can overload.
#[derive(Clone, Copy, Debug, PartialEq, Eq, Structural)]
pub enum CppOperator {
    Conversion,
    Assignment,
    Addition,
    Subtraction,
    UnaryPlus,
    UnaryMinus,
    Multiplication,
    Division,
    Modulo,
    PrefixIncrement,
    PostfixIncrement,
    PrefixDecrement,
    PostfixDecrement,
    EqualTo,
    NotEqualTo,
    GreaterThan,
    LessThan,
    GreaterThanOrEqualTo,
    LessThanOrEqualTo,
    LogicalNot,
    LogicalAnd,
    LogicalOr,
    BitwiseNot,
    BitwiseAnd,
    BitwiseOr,
    BitwiseXor,
    BitwiseLeftShift,
    BitwiseRightShift,
    Subscript,
    Indirection,
    AddressOf,
    FunctionCall,
    Comma,
}

/// Documentation attached to a native function.
#[derive(Clone, Debug, PartialEq, Eq)]
pub struct CppFunctionDoc {
    pub anchor: String,
    pub html: String,
    pub url: String,
}

/// An argument of a native function.
#[derive(Clone, Debug, PartialEq, Eq)]
pub struct CppFunctionArgument {
    pub name: String,
    pub argument_type: CppType,
    pub has_default_value: bool,
}

/// A function declaration.
#[derive(Clone, Debug, PartialEq, Eq)]
pub struct CppFunction {
    pub path: CppPath,
    pub member: Option<CppFunctionMemberData>,
    pub operator: Option<CppOperator>,
    pub return_type: CppType,
    pub arguments: Vec<CppFunctionArgument>,
    pub allows_variadic_arguments: bool,
    pub declaration_code: Option<String>,
    pub doc: Option<CppFunctionDoc>,
}

/// A declaration.
#[derive(Clone, Debug, PartialEq, Eq)]
pub enum CppItemData {
    Type(CppTypeData),
    EnumValue(CppEnumValue),
    Function(CppFunction),
}

impl CppPath {
    /// The path of the enclosing scope, where there is one.
    pub fn parent(&self) -> (r: Option<CppPath>)
        ensures
            self@.len() <= 1 ==> r is None,
            self@.len() > 1 ==> (r matches Some(p) && p@ == self@.drop_last()),
    {
        if self.items.len() > 1 {
            let mut items = clone_strings(&self.items);
            items.pop();
            let r = CppPath { items };
            assert(r@ =~= self@.drop_last()) by {
                assert forall|i: int| 0 <= i < r@.len() implies r@[i] == self@.drop_last()[i] by {
                    assert(strings_view(self.items@)[i] == self.items@[i]@);
                }
            }
            Some(r)
        } else {
            None
        }
    }
}

impl CppFunction {
    /// The types of the arguments in their order.
    pub open spec fn argument_types(self) -> Seq<CppTypeModel> {
        Seq::new(self.arguments.len() as nat, |i: int| self.arguments[i].argument_type@)
    }

    /// Every type the declaration mentions: the types of its arguments, then
    /// its return type.
    pub open spec fn involved_types(self) -> Seq<CppTypeModel> {
        self.argument_types().push(self.return_type@)
    }

    /// The class the function is a member of.
    pub open spec fn member_of(self) -> Option<Seq<Seq<char>>> {
        if self.member is Some && self.path@.len() > 1 {
            Some(self.path@.drop_last())
        } else {
            None
        }
    }

    /// Whether the function is a virtual member.
    pub open spec fn virtual_member(self) -> bool {
        self.member matches Some(m) && m.is_virtual
    }

    /// The class the function is a member of.
    pub fn class_type(&self) -> (r: Option<CppPath>)
        ensures
            match r {
                Some(p) => self.member_of() == Some(p@),
                None => self.member_of() is None,
            },
    {
        match self.member {
            Some(_) => self.path.parent(),
            None => None,
        }
    }

    /// Whether the function is a virtual member.
    pub fn is_virtual(&self) -> (r: bool)
        ensures
            r == self.virtual_member(),
    {
        match self.member {
            Some(m) => m.is_virtual,
            None => false,
        }
    }

    /// Every type the declaration mentions: the types of its arguments, then
    /// its return type.
    pub fn all_involved_types(&self) -> (r: Vec<CppType>)
        ensures
            types_view(r@) == self.involved_types(),
    {
        let mut r: Vec<CppType> = Vec::new();
        let mut i: usize = 0;
        while i < self.arguments.len()
            invariant
                i <= self.arguments.len(),
                r.len() == i,
                forall|j: int| 0 <= j < i ==> r[j]@ == self.arguments[j].argument_type@,
            decreases self.arguments.len() - i,
        {
            r.push(self.arguments[i].argument_type.duplicate());
            i += 1;
        }
        r.push(self.return_type.duplicate());
        assert(types_view(r@) =~= self.involved_types());
        r
    }
}

impl CppItemData {
    /// Every type the declaration mentions. Only functions mention any.
    pub open spec fn involved_types(self) -> Seq<CppTypeModel> {
        match self {
            CppItemData::Function(f) => f.involved_types(),
            _ => Seq::empty(),
        }
    }

    /// Every type the declaration mentions.
    pub fn all_involved_types(&self) -> (r: Vec<CppType>)
        ensures
            types_view(r@) == self.involved_types(),
    {
        match self {
            CppItemData::Function(f) => f.all_involved_types(),
            _ => {
                let r: Vec<CppType> = Vec::new();
                assert(types_view(r@) =~= self.involved_types());
                r
            },
        }
    }

    /// The type declaration, where the item is one.
    pub fn as_type_ref(&self) -> (r: Option<&CppTypeData>)
        ensures
            match r {
                Some(t) => *self == CppItemData::Type(*t),
                None => !(self is Type),
            },
    {
        match self {
            CppItemData::Type(t) => Some(t),
            _ => None,
        }
    }

    /// The function declaration, where the item is one.
    pub fn as_function_ref(&self) -> (r: Option<&CppFunction>)
        ensures
            match r {
                Some(f) => *self == CppItemData::Function(*f),
                None => !(self is Function),
            },
    {
        match self {
            CppItemData::Function(f) => Some(f),
            _ => None,
        }
    }
}

} // verus!
