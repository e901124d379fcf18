//! The generated API as data: modules, wrapper types, functions and the
//! database that holds them.

use crate::cpp_data::CppTypeDoc;
use crate::cpp_ffi_data::CppFfiFunction;
use crate::cpp_type::{CppPath, CppType};
use crate::rust_type::{RustFinalType, RustPath, RustType};
use vstd::prelude::*;
use vstd::string::*;

verus! {

/// One value of a generated enum.
#[derive(Debug, PartialEq, Eq, Clone)]
pub struct RustEnumValue {
    pub path: RustPath,
    /// The number the value stands for.
    pub value: i64,
    pub doc: RustEnumValueDoc,
}

/// Documentation of an enum value.
#[derive(Debug, PartialEq, Eq, Clone)]
pub struct RustEnumValueDoc {
    pub extra_doc: Option<String>,
    /// The native path of the value.
    pub cpp_path: CppPath,
    pub cpp_doc: Option<String>,
}

/// A slot wrapper on the generated side.
#[derive(Debug, PartialEq, Eq, Clone)]
pub struct RustQtSlotWrapper {
    /// The argument types of the slot.
    pub arguments: Vec<RustFinalType>,
    /// The identifier under which the slot is connected.
    pub receiver_id: String,
    /// The foreign callback of the wrapper.
    pub callback_path: RustPath,
    pub cpp_arguments: Vec<CppType>,
}

/// What a wrapper type wraps.
#[derive(Debug, PartialEq, Eq, Clone)]
pub enum RustWrapperTypeKind {
    EnumWrapper,
    ImmovableClassWrapper { raw_type_path: RustPath },
    MovableClassWrapper { sized_type_path: RustPath },
}

/// What the documentation of a raw slot wrapper is written from.
#[derive(Debug, PartialEq, Eq, Clone)]
pub struct RustRawQtSlotWrapperDocData {
    pub public_wrapper_path: RustPath,
    pub rust_arguments: Vec<RustFinalType>,
    pub cpp_arguments: Vec<CppType>,
}

/// What the documentation of a wrapper type is written from.
#[derive(Debug, PartialEq, Eq, Clone)]
pub struct RustWrapperTypeDocData {
    /// The native type that is wrapped.
    pub cpp_path: CppPath,
    pub cpp_doc: Option<CppTypeDoc>,
    pub raw_qt_slot_wrapper: Option<RustRawQtSlotWrapperDocData>,
}

/// A type that wraps a native enum or class.
#[derive(Debug, PartialEq, Eq, Clone)]
pub struct RustWrapperType {
    pub doc_data: RustWrapperTypeDocData,
    pub kind: RustWrapperTypeKind,
}

/// What the documentation of the foreign form of a class is written from.
#[derive(Debug, PartialEq, Eq, Clone)]
pub struct RustFfiClassTypeDoc {
    pub cpp_path: CppPath,
    pub public_rust_path: RustPath,
}

/// The kinds of generated struct.
#[derive(Debug, PartialEq, Eq, Clone)]
pub enum RustStructKind {
    WrapperType(RustWrapperType),
    QtSlotWrapper(RustQtSlotWrapper),
    FfiClassType(RustFfiClassTypeDoc),
    SizedType(CppPath),
}

impl RustStructKind {
    /// Whether this is a wrapper type.
    pub fn is_wrapper_type(&self) -> (r: bool)
        ensures
            r == (self is WrapperType),
    {
        if let RustStructKind::WrapperType(_) = self {
            true
        } else {
            false
        }
    }

    /// Whether this is the foreign form of a type.
    pub fn is_ffi_type(&self) -> (r: bool)
        ensures
            r == (self is FfiClassType || self is SizedType),
    {
        match *self {
            RustStructKind::FfiClassType(_) | RustStructKind::SizedType(_) => true,
            _ => false,
        }
    }
}

/// A generated struct.
#[derive(Debug, PartialEq, Eq, Clone)]
pub struct RustStruct {
    /// Text put in front of the generated documentation.
    pub extra_doc: Option<String>,
    pub path: RustPath,
    pub kind: RustStructKind,
    pub is_public: bool,
}

/// Where a generated function stands.
#[derive(Debug, PartialEq, Eq, Clone)]
pub enum RustFunctionScope {
    /// Inside `impl T {}`, where `T` is `target_type`.
    Impl { target_type: RustType },
    /// Inside a trait implementation.
    TraitImpl,
    /// At module level.
    Free,
}

/// An argument of a generated function.
#[derive(Debug, PartialEq, Eq, Clone)]
pub struct RustFunctionArgument {
    pub argument_type: RustFinalType,
    pub name: String,
    /// The position of the foreign argument this one is passed as.
    pub ffi_index: usize,
}

/// The two ends a connection can have.
#[derive(Debug, PartialEq, Eq, Clone, Copy, Structural)]
pub enum RustQtReceiverType {
    Signal,
    Slot,
}

/// What a wrapper function needs to know of the foreign function it calls.
#[derive(Debug, PartialEq, Eq, Clone)]
pub struct RustFfiWrapperData {
    pub cpp_ffi_function: CppFfiFunction,
    pub ffi_function_path: RustPath,
    /// The position of the foreign argument that receives the result, where
    /// the foreign function does not return it.
    pub return_type_ffi_index: Option<usize>,
}

/// What a generated function does.
#[derive(Debug, PartialEq, Eq, Clone)]
pub enum RustFunctionKind {
    FfiWrapper(RustFfiWrapperData),
    CppDeletableImpl { deleter: RustPath },
    SignalOrSlotGetter {
        type_path: RustPath,
        cpp_path: CppPath,
        receiver_type: RustQtReceiverType,
        receiver_id: String,
        arguments: Vec<RustType>,
    },
}

/// A generated function that has no name yet.
#[derive(Debug, Clone)]
pub struct UnnamedRustFunction {
    pub is_public: bool,
    pub is_unsafe: bool,
    pub kind: RustFunctionKind,
    pub arguments: Vec<RustFunctionArgument>,
    pub return_type: RustFinalType,
    pub extra_doc: Option<String>,
}

impl UnnamedRustFunction {
    /// The function under the name `path`.
    pub fn with_path(self, path: RustPath) -> (r: RustFunction)
        ensures
            r.path == path,
            r.is_public == self.is_public,
            r.is_unsafe == self.is_unsafe,
            r.kind == self.kind,
            r.arguments == self.arguments,
            r.return_type == self.return_type,
            r.extra_doc == self.extra_doc,
    {
        RustFunction {
            path,
            is_public: self.is_public,
            is_unsafe: self.is_unsafe,
            kind: self.kind,
            arguments: self.arguments,
            return_type: self.return_type,
            extra_doc: self.extra_doc,
        }
    }
}

/// A generated function.
#[derive(Debug, PartialEq, Eq, Clone)]
pub struct RustFunction {
    pub is_public: bool,
    pub is_unsafe: bool,
    pub path: RustPath,
    pub kind: RustFunctionKind,
    pub arguments: Vec<RustFunctionArgument>,
    pub return_type: RustFinalType,
    pub extra_doc: Option<String>,
}

/// The form of a method's receiver.
#[derive(Debug, PartialEq, Eq, Clone, Copy, Hash, Structural)]
pub enum RustFunctionSelfArgKind {
    /// No receiver: a static method or a free function.
    NoSelf,
    /// `&self`.
    ConstRef,
    /// `&mut self`.
    MutRef,
    /// `self`.
    Value,
}

/// The value of an associated type in a trait implementation.
#[derive(Debug, PartialEq, Eq, Clone)]
pub struct RustTraitAssociatedType {
    pub name: String,
    pub value: RustType,
}

/// A trait implementation.
#[derive(Debug, PartialEq, Eq, Clone)]
pub struct RustTraitImpl {
    pub parent_path: RustPath,
    pub target_type: RustType,
    pub trait_type: RustType,
    pub associated_types: Vec<RustTraitAssociatedType>,
    pub functions: Vec<RustFunction>,
}

/// What the documentation of a module is written from.
#[derive(Debug, PartialEq, Eq, Clone)]
pub struct RustModuleDoc {
    pub extra_doc: Option<String>,
    pub cpp_path: Option<CppPath>,
}

/// The role of a module in the generated crate.
#[derive(Debug, PartialEq, Eq, Clone, Copy, Structural)]
pub enum RustModuleKind {
    CrateRoot,
    Ffi,
    SizedTypes,
    Normal,
}

impl RustModuleKind {
    /// Whether the module is written to a file of its own.
    pub fn is_in_separate_file(self) -> (r: bool)
        ensures
            r == (self == RustModuleKind::CrateRoot || self == RustModuleKind::Normal),
    {
        match self {
            RustModuleKind::CrateRoot => true,
            RustModuleKind::Ffi => false,
            RustModuleKind::SizedTypes => false,
            RustModuleKind::Normal => true,
        }
    }
}

/// A generated module.
#[derive(Debug, PartialEq, Eq, Clone)]
pub struct RustModule {
    pub path: RustPath,
    pub doc: RustModuleDoc,
    pub kind: RustModuleKind,
}

/// The ways to tell apart generated methods that would share a name.
#[derive(Debug, Clone, Copy, PartialEq, Eq, Structural)]
pub enum RustFunctionCaptionStrategy {
    /// By the form of the receiver.
    SelfOnly,
    /// Unsafe methods get a suffix, safe ones none.
    UnsafeOnly,
    /// By the form of the receiver and the types of the other arguments.
    SelfAndArgTypes,
    /// By the form of the receiver and the names of the other arguments.
    SelfAndArgNames,
    /// By the form of the receiver and the position of the method.
    SelfAndIndex,
}

impl RustFunctionCaptionStrategy {
    /// All strategies, the preferred ones first.
    pub fn all() -> (r: Vec<RustFunctionCaptionStrategy>)
        ensures
            r@ == seq![
                RustFunctionCaptionStrategy::SelfOnly,
                RustFunctionCaptionStrategy::UnsafeOnly,
                RustFunctionCaptionStrategy::SelfAndArgTypes,
                RustFunctionCaptionStrategy::SelfAndArgNames,
                RustFunctionCaptionStrategy::SelfAndIndex,
            ],
    {
        let mut r: Vec<RustFunctionCaptionStrategy> = Vec::new();
        r.push(RustFunctionCaptionStrategy::SelfOnly);
        r.push(RustFunctionCaptionStrategy::UnsafeOnly);
        r.push(RustFunctionCaptionStrategy::SelfAndArgTypes);
        r.push(RustFunctionCaptionStrategy::SelfAndArgNames);
        r.push(RustFunctionCaptionStrategy::SelfAndIndex);
        assert(r@ =~= seq![
            RustFunctionCaptionStrategy::SelfOnly,
            RustFunctionCaptionStrategy::UnsafeOnly,
            RustFunctionCaptionStrategy::SelfAndArgTypes,
            RustFunctionCaptionStrategy::SelfAndArgNames,
            RustFunctionCaptionStrategy::SelfAndIndex,
        ]);
        r
    }
}

/// An argument of a foreign function declaration.
#[derive(Debug, Clone, Eq, PartialEq)]
pub struct RustFFIArgument {
    pub name: String,
    pub argument_type: RustType,
}

/// A foreign function declaration. Its name and signature must be those of
/// the native symbol on the other side of the boundary.
#[derive(Debug, Clone, Eq, PartialEq)]
pub struct RustFFIFunction {
    pub return_type: RustType,
    pub path: RustPath,
    pub arguments: Vec<RustFFIArgument>,
}

/// A generated item.
#[derive(Debug, Clone, Eq, PartialEq)]
pub enum RustItemKind {
    Module(RustModule),
    Struct(RustStruct),
    EnumValue(RustEnumValue),
    TraitImpl(RustTraitImpl),
    FfiFunction(RustFFIFunction),
    Function(RustFunction),
}

impl RustItemKind {
    /// Whether the item is a foreign function declaration.
    pub fn is_ffi_function(&self) -> (r: bool)
        ensures
            r == (self is FfiFunction),
    {
        if let RustItemKind::FfiFunction(_) = self {
            true
        } else {
            false
        }
    }

    /// Whether this is a wrapper type.
    pub fn is_wrapper_type(&self) -> (r: bool)
        ensures
            r == (self matches RustItemKind::Struct(data) && data.kind is WrapperType),
    {
        if let RustItemKind::Struct(data) = self {
            data.kind.is_wrapper_type()
        } else {
            false
        }
    }

    /// Whether this is the foreign form of a type.
    pub fn is_ffi_type(&self) -> (r: bool)
        ensures
            r == (self matches RustItemKind::Struct(data) && (data.kind is FfiClassType
                || data.kind is SizedType)),
    {
        if let RustItemKind::Struct(data) = self {
            data.kind.is_ffi_type()
        } else {
            false
        }
    }

    /// Whether the item is a module.
    pub fn is_module(&self) -> (r: bool)
        ensures
            r == (self is Module),
    {
        if let RustItemKind::Module(_) = self {
            true
        } else {
            false
        }
    }
}

/// An item of the database of generated items.
#[derive(Debug, Clone, Eq, PartialEq)]
pub struct RustDatabaseItem {
    pub kind: RustItemKind,
    /// The position of the native declaration the item was generated from.
    pub cpp_item_index: Option<usize>,
}

impl RustDatabaseItem {
    /// The path of the item. A trait implementation has none.
    pub open spec fn path_view(self) -> Option<Seq<Seq<char>>> {
        match self.kind {
            RustItemKind::Module(data) => Some(data.path@),
            RustItemKind::Struct(data) => Some(data.path@),
            RustItemKind::EnumValue(data) => Some(data.path@),
            RustItemKind::Function(data) => Some(data.path@),
            RustItemKind::FfiFunction(data) => Some(data.path@),
            RustItemKind::TraitImpl(_) => None,
        }
    }

    /// Whether the item stands directly inside the item at `parent`: a trait
    /// implementation says where it stands, any other item stands where its
    /// path without the last name leads.
    pub open spec fn stands_in(self, parent: Seq<Seq<char>>) -> bool {
        match self.kind {
            RustItemKind::TraitImpl(data) => data.parent_path@ == parent,
            _ => {
                let path = self.path_view()->0;
                path.len() == parent.len() + 1 && path.drop_last() == parent
            },
        }
    }

    /// The path of the item. A trait implementation has none.
    pub fn path(&self) -> (r: Option<&RustPath>)
        ensures
            match r {
                Some(p) => self.path_view() == Some(p@),
                None => self.path_view() is None,
            },
    {
        match self.kind {
            RustItemKind::Module(ref data) => Some(&data.path),
            RustItemKind::Struct(ref data) => Some(&data.path),
            RustItemKind::EnumValue(ref data) => Some(&data.path),
            RustItemKind::Function(ref data) => Some(&data.path),
            RustItemKind::FfiFunction(ref data) => Some(&data.path),
            RustItemKind::TraitImpl(_) => None,
        }
    }

    /// Whether the item stands directly inside the item at `parent`.
    pub fn is_child_of(&self, parent: &RustPath) -> (r: bool)
        ensures
            r == self.stands_in(parent@),
    {
        match self.kind {
            RustItemKind::TraitImpl(ref trait_impl) => trait_impl.parent_path.same_as(parent),
            _ => {
                match self.path() {
                    Some(path) => path.is_child_of(parent),
                    None => false,
                }
            },
        }
    }

    /// The module, where the item is one.
    pub fn as_module_ref(&self) -> (r: Option<&RustModule>)
        ensures
            match r {
                Some(m) => self.kind == RustItemKind::Module(*m),
                None => !(self.kind is Module),
            },
    {
        if let RustItemKind::Module(ref data) = self.kind {
            Some(data)
        } else {
            None
        }
    }
}

/// The database of generated items.
#[derive(Debug, Clone, Eq, PartialEq)]
pub struct RustDatabase {
    pub items: Vec<RustDatabaseItem>,
}

impl Default for RustDatabase {
    fn default() -> (r: Self)
        ensures
            r.items@.len() == 0,
    {
        RustDatabase { items: Vec::new() }
    }
}

/// The items of `items` that stand directly inside the item at `parent`, in
/// their order.
pub open spec fn children_of(items: Seq<RustDatabaseItem>, parent: Seq<Seq<char>>) -> Seq<RustDatabaseItem>
    decreases items.len(),
{
    if items.len() == 0 {
        Seq::empty()
    } else if items.last().stands_in(parent) {
        children_of(items.drop_last(), parent).push(items.last())
    } else {
        children_of(items.drop_last(), parent)
    }
}

impl RustDatabase {
    /// The first item whose path is `path`.
    pub fn find(&self, path: &RustPath) -> (r: Option<&RustDatabaseItem>)
        ensures
            match r {
                Some(item) => exists|i: int|
                    {
                        &&& 0 <= i < self.items.len()
                        &&& *item == #[trigger] self.items[i]
                        &&& item.path_view() == Some(path@)
                        &&& forall|j: int| 0 <= j < i ==> (#[trigger] self.items[j]).path_view() != Some(path@)
                    },
                None => forall|i: int|
                    0 <= i < self.items.len() ==> (#[trigger] self.items[i]).path_view() != Some(path@),
            },
    {
        let mut i: usize = 0;
        while i < self.items.len()
            invariant
                i <= self.items.len(),
                forall|j: int| 0 <= j < i ==> (#[trigger] self.items[j]).path_view() != Some(path@),
            decreases self.items.len() - i,
        {
            let found = match self.items[i].path() {
                Some(p) => p.same_as(path),
                None => false,
            };
            if found {
                return Some(&self.items[i]);
            }
            i += 1;
        }
        None
    }

    /// The items that stand directly inside the item at `path`, in their
    /// order.
    pub fn children(&self, path: &RustPath) -> (r: Vec<&RustDatabaseItem>)
        ensures
            r.len() == children_of(self.items@, path@).len(),
            forall|k: int| 0 <= k < r.len() ==> *r[k] == children_of(self.items@, path@)[k],
    {
        let mut r: Vec<&RustDatabaseItem> = Vec::new();
        let mut i: usize = 0;
        while i < self.items.len()
            invariant
                i <= self.items.len(),
                r.len() == children_of(self.items@.subrange(0, i as int), path@).len(),
                forall|k: int|
                    0 <= k < r.len() ==> *r[k] == children_of(self.items@.subrange(0, i as int), path@)[k],
            decreases self.items.len() - i,
        {
            proof {
                let next = self.items@.subrange(0, i + 1);
                assert(next.drop_last() =~= self.items@.subrange(0, i as int));
                assert(next.last() == self.items@[i as int]);
            }
            if self.items[i].is_child_of(path) {
                r.push(&self.items[i]);
            }
            i += 1;
        }
        assert(self.items@.subrange(0, i as int) =~= self.items@);
        r
    }
}

/// A place where new items are named: a path and a prefix for their names.
#[derive(Debug, Clone, Eq, PartialEq)]
pub struct RustPathScope {
    pub path: RustPath,
    pub prefix: Option<String>,
}

impl RustPathScope {
    /// The path of the item `name` in this scope: the scope's path with one
    /// more name, which is the prefix, where there is one, followed by
    /// `name`.
    pub fn apply(&self, name: &str) -> (r: RustPath)
        ensures
            r@ == self.path@.push(
                match self.prefix {
                    Some(prefix) => prefix@ + name@,
                    None => name@,
                },
            ),
    {
        let full_name = if let Some(ref prefix) = self.prefix {
            let mut full_name = prefix.clone();
            full_name.append(name);
            full_name
        } else {
            name.to_owned()
        };
        self.path.join(full_name)
    }
}

} // verus!
