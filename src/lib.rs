//! Binding generation for exposing native types to an embedded scripting
//! host: field lookup by name, method dispatch by name, and operator hooks
//! ("metamethods").
//!
//! The library works on plain models of declarations and produces the
//! adapter source as text; every stage is verified against a mathematical
//! model of its result.
use vstd::prelude::*;

pub mod decl;
pub mod error;
pub mod index;
pub mod metamethods;
pub mod methods;
pub mod requests;
pub mod text;
pub mod user_data;

use crate::decl::{args_view, AttrArg, DeclView, Declaration};
use crate::error::{view_result, GenError};
use crate::index::{index_fields, is_fieldless_struct, IndexDispatcher};
use crate::metamethods::{
    contains_metamethod, emit_metamethods_impl, render_metamethods_impl, requested_metamethods,
    resolve_metamethod, lemma_unknown_metamethod_fails, select_metamethods, MetaMethod,
};
use crate::methods::{method_table_of, render_methods_impl, MethodTable};
use crate::user_data::{
    emit_user_data_impl, lemma_unknown_capability_fails, render_user_data_impl, requested_capabilities,
    resolve_capability, select_capabilities,
};

verus! {

/// The name of a struct or enum declaration.
pub open spec fn declared_name(d: DeclView) -> Option<Seq<char>> {
    match d {
        DeclView::Struct { name, .. } => Some(name),
        DeclView::Enum { name } => Some(name),
        _ => None,
    }
}

/// The type that a registration routine is written for: a struct, an enum,
/// or the implementing type of an impl block.
pub open spec fn registered_name(d: DeclView) -> Option<Seq<char>> {
    match d {
        DeclView::Impl { self_ty, .. } => Some(self_ty),
        _ => declared_name(d),
    }
}

/// What `methods` generates for a declaration.
pub open spec fn methods_output(d: DeclView) -> Result<Seq<char>, GenError> {
    match d {
        DeclView::Impl { self_ty, members } => match method_table_of(members) {
            Ok(t) => Ok(render_methods_impl(self_ty, t)),
            Err(e) => Err(e),
        },
        _ => Err(GenError::UnsupportedShape),
    }
}

/// What `metamethods` generates for a declaration and attribute arguments.
pub open spec fn metamethods_output(args: Seq<Option<Seq<char>>>, d: DeclView) -> Result<Seq<char>, GenError> {
    match declared_name(d) {
        None => Err(GenError::UnsupportedShape),
        Some(name) => match requested_metamethods(args) {
            Err(e) => Err(e),
            Ok(ms) => if ms.contains(MetaMethod::Index) {
                match index_fields(d) {
                    Err(e) => Err(e),
                    Ok(fields) => Ok(render_metamethods_impl(name, ms, fields)),
                }
            } else {
                Ok(render_metamethods_impl(name, ms, Seq::empty()))
            },
        },
    }
}

/// What `user_data` generates for a declaration and attribute arguments.
pub open spec fn user_data_output(args: Seq<Option<Seq<char>>>, d: DeclView) -> Result<Seq<char>, GenError> {
    match registered_name(d) {
        None => Err(GenError::UnsupportedShape),
        Some(name) => match requested_capabilities(args) {
            Err(e) => Err(e),
            Ok(cs) => Ok(render_user_data_impl(name, cs)),
        },
    }
}

/// Generates the method table of an impl block: an impl of the host's
/// methods trait that registers every method under its name.
pub fn methods(item: &Declaration) -> (r: Result<String, GenError>)
    ensures
        view_result(r) == methods_output(item@),
{
    match item {
        Declaration::Impl { self_ty, members } => {
            let table = match MethodTable::build(members) {
                Ok(t) => t,
                Err(e) => {
                    return Err(e);
                },
            };
            Ok(table.emit_impl(self_ty.as_str()))
        },
        _ => Err(GenError::UnsupportedShape),
    }
}

/// Generates the requested metamethods of a struct or enum: an impl of the
/// host's metamethods trait with one entry per requested operator.
pub fn metamethods(args: &Vec<AttrArg>, item: &Declaration) -> (r: Result<String, GenError>)
    ensures
        view_result(r) == metamethods_output(args_view(args@), item@),
{
    let name = match item {
        Declaration::Struct { name, .. } => name,
        Declaration::Enum { name } => name,
        _ => {
            return Err(GenError::UnsupportedShape);
        },
    };
    let ms = match select_metamethods(args) {
        Ok(ms) => ms,
        Err(e) => {
            return Err(e);
        },
    };
    let index = if contains_metamethod(&ms, MetaMethod::Index) {
        match IndexDispatcher::from_declaration(item) {
            Ok(d) => Some(d),
            Err(e) => {
                return Err(e);
            },
        }
    } else {
        None
    };
    Ok(emit_metamethods_impl(name.as_str(), &ms, &index))
}

/// Generates the host's registration routine for a struct, an enum or the
/// type of an impl block, calling the entry point of each requested
/// capability.
pub fn user_data(args: &Vec<AttrArg>, item: &Declaration) -> (r: Result<String, GenError>)
    ensures
        view_result(r) == user_data_output(args_view(args@), item@),
{
    let name = match item {
        Declaration::Impl { self_ty, .. } => self_ty,
        Declaration::Struct { name, .. } => name,
        Declaration::Enum { name } => name,
        Declaration::Other => {
            return Err(GenError::UnsupportedShape);
        },
    };
    match select_capabilities(args) {
        Ok(cs) => Ok(emit_user_data_impl(name.as_str(), &cs)),
        Err(e) => Err(e),
    }
}

/// Requesting the `Index` metamethod on anything but a struct with named
/// fields generates nothing: generation fails with the error that building
/// the index dispatcher gives, `EmptyShape` for a struct without fields and
/// `UnsupportedShape` for any other declaration.
pub proof fn lemma_index_needs_named_fields(args: Seq<Option<Seq<char>>>, d: DeclView)
    requires
        requested_metamethods(args) matches Ok(ms) && ms.contains(MetaMethod::Index),
        index_fields(d) is Err,
    ensures
        metamethods_output(args, d) == Err::<Seq<char>, GenError>(index_fields(d)->Err_0),
        index_fields(d)->Err_0 == GenError::EmptyShape <==> is_fieldless_struct(d),
        index_fields(d)->Err_0 == GenError::EmptyShape || index_fields(d)->Err_0 == GenError::UnsupportedShape,
{
}

/// An identifier outside the catalog, or a capability that is not
/// recognized, fails generation: nothing is produced.
pub proof fn lemma_unknown_identifier_fails(args: Seq<Option<Seq<char>>>, d: DeclView, k: int)
    requires
        0 <= k < args.len(),
    ensures
        resolve_metamethod(args[k]) is None ==> metamethods_output(args, d) is Err,
        resolve_capability(args[k]) is None ==> user_data_output(args, d) is Err,
{
    if resolve_metamethod(args[k]) is None {
        lemma_unknown_metamethod_fails(args, k);
    }
    if resolve_capability(args[k]) is None {
        lemma_unknown_capability_fails(args, k);
    }
}

} // verus!
