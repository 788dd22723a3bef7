//! Plain models of the declarations that bindings are generated for, and of
//! the arguments written in a generator's attribute.
use vstd::prelude::*;

verus! {

/// One argument of an attribute: a bare identifier, or anything else.
#[derive(Clone, Debug)]
pub enum AttrArg {
    Ident(String),
    Other,
}

impl View for AttrArg {
    type V = Option<Seq<char>>;

    open spec fn view(&self) -> Option<Seq<char>> {
        match self {
            AttrArg::Ident(s) => Some(s@),
            AttrArg::Other => None,
        }
    }
}

pub open spec fn args_view(args: Seq<AttrArg>) -> Seq<Option<Seq<char>>> {
    args.map_values(|a: AttrArg| a@)
}

/// The fields of a struct.
#[derive(Clone, Debug)]
pub enum Fields {
    /// `{ a: A, b: B }`: the field names in declaration order.
    Named(Vec<String>),
    /// `(A, B)`.
    Unnamed,
    /// No field list at all.
    Unit,
}

pub enum FieldsView {
    Named(Seq<Seq<char>>),
    Unnamed,
    Unit,
}

impl View for Fields {
    type V = FieldsView;

    open spec fn view(&self) -> FieldsView {
        match self {
            Fields::Named(names) => FieldsView::Named(names.deep_view()),
            Fields::Unnamed => FieldsView::Unnamed,
            Fields::Unit => FieldsView::Unit,
        }
    }
}

/// How a method receives the value it is called on.
#[derive(Clone, Copy, Debug, PartialEq, Eq, Structural)]
pub enum Receiver {
    /// No `self` parameter.
    Absent,
    /// `self: Type`.
    Typed,
    /// `self` or `mut self`.
    Owned,
    /// `&self` or `&mut self`.
    Borrowed { mutable: bool },
}

/// A parameter after the receiver. `name` is the bound identifier, or `None`
/// where the parameter is bound by another pattern; `ty` is the type as
/// written.
#[derive(Clone, Debug)]
pub struct Param {
    pub name: Option<String>,
    pub ty: String,
}

pub struct ParamView {
    pub name: Option<Seq<char>>,
    pub ty: Seq<char>,
}

impl View for Param {
    type V = ParamView;

    open spec fn view(&self) -> ParamView {
        ParamView {
            name: match &self.name {
                Some(n) => Some(n@),
                None => None,
            },
            ty: self.ty@,
        }
    }
}

pub open spec fn params_view(ps: Seq<Param>) -> Seq<ParamView> {
    ps.map_values(|p: Param| p@)
}

/// A method of an impl block.
#[derive(Clone, Debug)]
pub struct MethodDecl {
    pub name: String,
    pub receiver: Receiver,
    pub params: Vec<Param>,
}

pub struct MethodView {
    pub name: Seq<char>,
    pub receiver: Receiver,
    pub params: Seq<ParamView>,
}

impl View for MethodDecl {
    type V = MethodView;

    open spec fn view(&self) -> MethodView {
        MethodView { name: self.name@, receiver: self.receiver, params: params_view(self.params@) }
    }
}

/// An item of an impl block: a method, or something else (a constant, a
/// type, a macro invocation), which generation passes over.
#[derive(Clone, Debug)]
pub enum ImplMember {
    Method(MethodDecl),
    Other,
}

impl View for ImplMember {
    type V = Option<MethodView>;

    open spec fn view(&self) -> Option<MethodView> {
        match self {
            ImplMember::Method(m) => Some(m@),
            ImplMember::Other => None,
        }
    }
}

pub open spec fn members_view(ms: Seq<ImplMember>) -> Seq<Option<MethodView>> {
    ms.map_values(|m: ImplMember| m@)
}

/// The item that a generator is attached to.
#[derive(Clone, Debug)]
pub enum Declaration {
    Struct { name: String, fields: Fields },
    Enum { name: String },
    /// An impl block; `self_ty` is the implementing type as written.
    Impl { self_ty: String, members: Vec<ImplMember> },
    Other,
}

pub enum DeclView {
    Struct { name: Seq<char>, fields: FieldsView },
    Enum { name: Seq<char> },
    Impl { self_ty: Seq<char>, members: Seq<Option<MethodView>> },
    Other,
}

impl View for Declaration {
    type V = DeclView;

    open spec fn view(&self) -> DeclView {
        match self {
            Declaration::Struct { name, fields } => DeclView::Struct { name: name@, fields: fields@ },
            Declaration::Enum { name } => DeclView::Enum { name: name@ },
            Declaration::Impl { self_ty, members } => DeclView::Impl {
                self_ty: self_ty@,
                members: members_view(members@),
            },
            Declaration::Other => DeclView::Other,
        }
    }
}

} // verus!
