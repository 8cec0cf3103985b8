//! Type lowering: from the types of the intermediate representation to
//! machine types.

use vstd::prelude::*;
use vstd::string::StringExecFns;
use crate::mir::{PrimitiveType, Type, TypeView};
use crate::ports::InternalError;
use crate::target::{opaque_pointer, target_type_view, TargetType, TargetTypeView};

verus! {

/// The machine type of a primitive: each has one fixed width.
pub open spec fn lower_primitive(p: PrimitiveType) -> TargetTypeView {
    match p {
        PrimitiveType::Void => TargetTypeView::Void,
        PrimitiveType::Byte => TargetTypeView::Int { bits: 8 },
        PrimitiveType::Int => TargetTypeView::Int { bits: 32 },
        PrimitiveType::Long => TargetTypeView::Int { bits: 64 },
        PrimitiveType::Size => TargetTypeView::Int { bits: 64 },
        PrimitiveType::Float => TargetTypeView::Double,
        PrimitiveType::Bool => TargetTypeView::Int { bits: 1 },
        PrimitiveType::Char => TargetTypeView::Int { bits: 32 },
    }
}

/// Whether a type parameter occurs anywhere in the type.
pub open spec fn has_generic(ty: TypeView) -> bool
    decreases ty,
{
    match ty {
        TypeView::Primitive(_) => false,
        TypeView::Pointer { pointee } => has_generic(*pointee),
        TypeView::Array { element, .. } => has_generic(*element),
        TypeView::Struct { .. } => false,
        TypeView::Function { return_type, params } => has_generic(*return_type) || exists|i: int|
            0 <= i < params.len() && has_generic(#[trigger] params[i]),
        TypeView::String => false,
        TypeView::TraitObject { .. } => false,
        TypeView::Generic { .. } => true,
    }
}

/// The name of the opaque aggregate that stands for a structure.
pub open spec fn struct_symbol(name: Seq<char>) -> Seq<char> {
    "struct."@ + name
}

/// The machine type of a type without type parameters.
///
/// A pointer lowers to a pointer to the lowered pointee, an array to an
/// aggregate of the same length, a structure to the opaque aggregate of its
/// name, a function type to a signature of the lowered types. Strings and
/// dynamically dispatched values are opaque pointers at this layer.
pub open spec fn lower_type(ty: TypeView) -> TargetTypeView
    decreases ty,
{
    match ty {
        TypeView::Primitive(p) => lower_primitive(p),
        TypeView::Pointer { pointee } => TargetTypeView::Pointer {
            pointee: Box::new(lower_type(*pointee)),
        },
        TypeView::Array { element, size } => TargetTypeView::Array {
            element: Box::new(lower_type(*element)),
            len: size,
        },
        TypeView::Struct { name } => TargetTypeView::Struct { name: struct_symbol(name) },
        TypeView::Function { return_type, params } => TargetTypeView::Function {
            ret: Box::new(lower_type(*return_type)),
            params: Seq::new(
                params.len(),
                |i: int|
                    if 0 <= i < params.len() {
                        lower_type(params[i])
                    } else {
                        TargetTypeView::Void
                    },
            ),
        },
        TypeView::String => opaque_pointer(),
        TypeView::TraitObject { .. } => opaque_pointer(),
        TypeView::Generic { .. } => opaque_pointer(),
    }
}

/// Lowers a primitive type.
pub fn primitive_to_llvm_type(p: &PrimitiveType) -> (ty: TargetType)
    ensures
        ty@ == lower_primitive(*p),
{
    match p {
        PrimitiveType::Void => TargetType::Void,
        PrimitiveType::Byte => TargetType::Int { bits: 8 },
        PrimitiveType::Int => TargetType::Int { bits: 32 },
        PrimitiveType::Long => TargetType::Int { bits: 64 },
        PrimitiveType::Size => TargetType::Int { bits: 64 },
        PrimitiveType::Float => TargetType::Double,
        PrimitiveType::Bool => TargetType::Int { bits: 1 },
        PrimitiveType::Char => TargetType::Int { bits: 32 },
    }
}

/// The pointer to bytes.
pub fn byte_pointer() -> (ty: TargetType)
    ensures
        ty@ == opaque_pointer(),
{
    reveal_with_fuel(target_type_view, 2);
    TargetType::Pointer { pointee: Box::new(TargetType::Int { bits: 8 }) }
}

/// Lowers a type. A type in which a type parameter occurs is refused:
/// monomorphization should have replaced it.
pub fn mir_type_to_llvm_type(ty: &Type) -> (lowered: Result<TargetType, InternalError>)
    ensures
        has_generic(ty@) ==> lowered == Err::<TargetType, InternalError>(
            InternalError::UnsubstitutedGeneric,
        ),
        !has_generic(ty@) ==> (lowered matches Ok(t) && t@ == lower_type(ty@)),
    decreases ty,
{
    match ty {
        Type::Primitive(p) => Ok(primitive_to_llvm_type(p)),
        Type::Pointer { pointee } => {
            match mir_type_to_llvm_type(pointee) {
                Ok(inner) => Ok(TargetType::Pointer { pointee: Box::new(inner) }),
                Err(e) => Err(e),
            }
        },
        Type::Array { element, size } => {
            match mir_type_to_llvm_type(element) {
                Ok(inner) => Ok(TargetType::Array { element: Box::new(inner), len: *size as u64 }),
                Err(e) => Err(e),
            }
        },
        Type::Struct { name } => {
            let symbol = String::from_str("struct.").concat(name.as_str());
            Ok(TargetType::Struct { name: symbol })
        },
        Type::Function { return_type, params } => {
            let ret = match mir_type_to_llvm_type(return_type) {
                Ok(ret) => ret,
                Err(e) => {
                    return Err(e);
                },
            };
            let mut lowered_params: Vec<TargetType> = Vec::new();
            let mut i: usize = 0;
            while i < params.len()
                invariant
                    *ty matches Type::Function { params: ps, .. } && ps == *params,
                    i <= params@.len(),
                    lowered_params@.len() == i,
                    forall|j: int| 0 <= j < i ==> !has_generic(#[trigger] params@[j]@),
                    forall|j: int|
                        0 <= j < i ==> (#[trigger] lowered_params@[j])@ == lower_type(
                            params@[j]@,
                        ),
                decreases params@.len() - i,
            {
                match mir_type_to_llvm_type(&params[i]) {
                    Ok(p) => {
                        lowered_params.push(p);
                    },
                    Err(e) => {
                        assert(has_generic(ty@->Function_params[i as int]));
                        return Err(e);
                    },
                }
                i = i + 1;
            }
            let lowered = TargetType::Function { ret: Box::new(ret), params: lowered_params };
            assert forall|j: int| 0 <= j < params@.len() implies !has_generic(
                #[trigger] ty@->Function_params[j],
            ) by {
                assert(ty@->Function_params[j] == params@[j]@);
            }
            assert(lowered@->Function_params =~= lower_type(ty@)->Function_params);
            Ok(lowered)
        },
        Type::String => Ok(byte_pointer()),
        Type::TraitObject { .. } => Ok(byte_pointer()),
        Type::Generic { .. } => Err(InternalError::UnsubstitutedGeneric),
    }
}

/// The kinds of machine type.
#[derive(Debug, Clone, Copy, PartialEq, Eq, Structural)]
pub enum TypeKind {
    Void,
    Integer,
    Double,
    Pointer,
    Array,
    Struct,
    Function,
}

/// The kind of a machine type, whatever it is made of.
pub open spec fn kind_of(ty: TargetTypeView) -> TypeKind {
    match ty {
        TargetTypeView::Void => TypeKind::Void,
        TargetTypeView::Int { .. } => TypeKind::Integer,
        TargetTypeView::Double => TypeKind::Double,
        TargetTypeView::Pointer { .. } => TypeKind::Pointer,
        TargetTypeView::Array { .. } => TypeKind::Array,
        TargetTypeView::Struct { .. } => TypeKind::Struct,
        TargetTypeView::Function { .. } => TypeKind::Function,
    }
}

/// Tells which kind of machine type this is.
pub fn get_type_kind(ty: &TargetType) -> (kind: TypeKind)
    ensures
        kind == kind_of(ty@),
{
    match ty {
        TargetType::Void => TypeKind::Void,
        TargetType::Int { .. } => TypeKind::Integer,
        TargetType::Double => TypeKind::Double,
        TargetType::Pointer { .. } => TypeKind::Pointer,
        TargetType::Array { .. } => TypeKind::Array,
        TargetType::Struct { .. } => TypeKind::Struct,
        TargetType::Function { .. } => TypeKind::Function,
    }
}

} // verus!
