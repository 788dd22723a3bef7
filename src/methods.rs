//! Method extraction: the methods of an impl block become entries of a
//! string-keyed dispatch table.
use vstd::prelude::*;
use crate::decl::{members_view, ImplMember, MethodDecl, MethodView, ParamView, Receiver};
use crate::error::{view_result, GenError};
use crate::text::{comma_list, emit_comma_list};

verus! {

/// The access that a dispatch entry takes to the bound object for the
/// duration of a call.
#[derive(Clone, Copy, Debug, PartialEq, Eq, Structural)]
pub enum Access {
    /// Read-only access, for a `&self` method.
    Shared,
    /// Exclusive access, for a `&mut self` method.
    Exclusive,
}

/// How the scripting-side argument is bound to the method's parameters.
#[derive(Clone, Debug)]
pub enum Binding {
    /// The method takes no parameter: the argument is ignored.
    NoArgs,
    /// One parameter, bound to the argument itself.
    One { name: String, ty: String },
    /// Several parameters, bound by position to a tuple of arguments.
    Many { names: Vec<String>, tys: Vec<String> },
}

pub enum BindingView {
    NoArgs,
    One { name: Seq<char>, ty: Seq<char> },
    Many { names: Seq<Seq<char>>, tys: Seq<Seq<char>> },
}

impl View for Binding {
    type V = BindingView;

    open spec fn view(&self) -> BindingView {
        match self {
            Binding::NoArgs => BindingView::NoArgs,
            Binding::One { name, ty } => BindingView::One { name: name@, ty: ty@ },
            Binding::Many { names, tys } => BindingView::Many {
                names: names.deep_view(),
                tys: tys.deep_view(),
            },
        }
    }
}

/// One entry of the method table, keyed by the method's name.
#[derive(Clone, Debug)]
pub struct MethodEntry {
    pub name: String,
    pub access: Access,
    pub binding: Binding,
}

pub struct EntryView {
    pub name: Seq<char>,
    pub access: Access,
    pub binding: BindingView,
}

impl View for MethodEntry {
    type V = EntryView;

    open spec fn view(&self) -> EntryView {
        EntryView { name: self.name@, access: self.access, binding: self.binding@ }
    }
}

pub open spec fn entries_view(es: Seq<MethodEntry>) -> Seq<EntryView> {
    es.map_values(|e: MethodEntry| e@)
}

/// The names bound by the parameters, in declaration order (all parameters
/// bound to plain identifiers).
pub open spec fn param_names(ps: Seq<ParamView>) -> Seq<Seq<char>> {
    ps.map_values(|p: ParamView| p.name->Some_0)
}

pub open spec fn param_types(ps: Seq<ParamView>) -> Seq<Seq<char>> {
    ps.map_values(|p: ParamView| p.ty)
}

/// The names that a binding gives to the incoming arguments, by position.
pub open spec fn bound_names(b: BindingView) -> Seq<Seq<char>> {
    match b {
        BindingView::NoArgs => Seq::empty(),
        BindingView::One { name, .. } => seq![name],
        BindingView::Many { names, .. } => names,
    }
}

pub open spec fn bound_types(b: BindingView) -> Seq<Seq<char>> {
    match b {
        BindingView::NoArgs => Seq::empty(),
        BindingView::One { ty, .. } => seq![ty],
        BindingView::Many { tys, .. } => tys,
    }
}

/// The binding of a parameter list: by the number of parameters, none, one
/// or many.
pub open spec fn binding_of(ps: Seq<ParamView>) -> BindingView {
    if ps.len() == 0 {
        BindingView::NoArgs
    } else if ps.len() == 1 {
        BindingView::One { name: ps[0].name->Some_0, ty: ps[0].ty }
    } else {
        BindingView::Many { names: param_names(ps), tys: param_types(ps) }
    }
}

/// `j` is the first parameter that is not bound to a plain identifier.
pub open spec fn first_destructured_at(ps: Seq<ParamView>, j: int) -> bool {
    &&& 0 <= j < ps.len()
    &&& ps[j].name is None
    &&& forall|i: int| 0 <= i < j ==> ps[i].name is Some
}

/// The entry for a valid method.
pub open spec fn entry_for(m: MethodView) -> EntryView {
    EntryView {
        name: m.name,
        access: if m.receiver == (Receiver::Borrowed { mutable: true }) {
            Access::Exclusive
        } else {
            Access::Shared
        },
        binding: binding_of(m.params),
    }
}

/// The entry for the method at position `k` of its impl block, or why it
/// cannot have one: it must borrow its receiver and bind every parameter to
/// a plain identifier.
pub open spec fn entry_of(m: MethodView, k: int) -> Result<EntryView, GenError> {
    match m.receiver {
        Receiver::Absent => Err(GenError::NoReceiver { member: k as usize }),
        Receiver::Typed => Err(GenError::TypedReceiver { member: k as usize }),
        Receiver::Owned => Err(GenError::OwningReceiver { member: k as usize }),
        Receiver::Borrowed { .. } => if exists|j: int| 0 <= j < m.params.len() && m.params[j].name is None {
            Err(
                GenError::UnsupportedParameterPattern {
                    member: k as usize,
                    param: (choose|j: int| first_destructured_at(m.params, j)) as usize,
                },
            )
        } else {
            Ok(entry_for(m))
        },
    }
}

/// The methods of an impl block, in order; other items are passed over.
pub open spec fn methods_of(members: Seq<Option<MethodView>>) -> Seq<MethodView>
    decreases members.len(),
{
    if members.len() == 0 {
        Seq::empty()
    } else {
        match members.last() {
            Some(m) => methods_of(members.drop_last()).push(m),
            None => methods_of(members.drop_last()),
        }
    }
}

/// The method table of an impl block: one entry per method in order, or the
/// error of the first method that cannot be exposed.
pub open spec fn method_table_of(members: Seq<Option<MethodView>>) -> Result<Seq<EntryView>, GenError>
    decreases members.len(),
{
    if members.len() == 0 {
        Ok(Seq::empty())
    } else {
        match method_table_of(members.drop_last()) {
            Err(e) => Err(e),
            Ok(t) => match members.last() {
                None => Ok(t),
                Some(m) => match entry_of(m, members.len() - 1) {
                    Err(e) => Err(e),
                    Ok(en) => Ok(t.push(en)),
                },
            },
        }
    }
}

/// A failure within a prefix of the members is the failure of the block.
proof fn lemma_table_failure_prefix(members: Seq<Option<MethodView>>, n: int)
    requires
        0 <= n <= members.len(),
        method_table_of(members.take(n)) is Err,
    ensures
        method_table_of(members) == method_table_of(members.take(n)),
    decreases members.len() - n,
{
    if n < members.len() {
        assert(members.take(n + 1).drop_last() =~= members.take(n));
        lemma_table_failure_prefix(members, n + 1);
    } else {
        assert(members.take(n) =~= members);
    }
}

/// Every method of a valid impl block appears exactly once, in order, under
/// its declared name; its entry takes exclusive access exactly for a
/// `&mut self` receiver, and binds the incoming arguments by position to the
/// declared parameters, so a call passes them in declared order.
pub proof fn lemma_method_table_complete(members: Seq<Option<MethodView>>)
    ensures
        method_table_of(members) matches Ok(t) ==> {
            let ms = methods_of(members);
            &&& t.len() == ms.len()
            &&& forall|i: int| 0 <= i < t.len() ==> {
                &&& t[i].name == ms[i].name
                &&& (t[i].access == Access::Exclusive <==> ms[i].receiver == (Receiver::Borrowed { mutable: true }))
                &&& bound_names(t[i].binding) == param_names(ms[i].params)
                &&& bound_types(t[i].binding) == param_types(ms[i].params)
            }
        },
    decreases members.len(),
{
    if members.len() > 0 {
        lemma_method_table_complete(members.drop_last());
        if let Ok(t) = method_table_of(members) {
            if let Some(m) = members.last() {
                lemma_binding_order(m.params);
            }
        }
    }
}

proof fn lemma_binding_order(ps: Seq<ParamView>)
    ensures
        bound_names(binding_of(ps)) == param_names(ps),
        bound_types(binding_of(ps)) == param_types(ps),
{
    if ps.len() == 0 {
        assert(param_names(ps) =~= Seq::empty());
        assert(param_types(ps) =~= Seq::empty());
    } else if ps.len() == 1 {
        assert(param_names(ps) =~= seq![ps[0].name->Some_0]);
        assert(param_types(ps) =~= seq![ps[0].ty]);
    }
}

/// A method that takes its receiver by value, has none, or binds a parameter
/// by a pattern fails the whole impl block: nothing of it is generated.
pub proof fn lemma_invalid_method_fails(members: Seq<Option<MethodView>>, k: int)
    requires
        0 <= k < members.len(),
        members[k] matches Some(m) && (m.receiver !is Borrowed || exists|j: int|
            0 <= j < m.params.len() && m.params[j].name is None),
    ensures
        method_table_of(members) is Err,
    decreases members.len(),
{
    if k < members.len() - 1 {
        assert(members.drop_last()[k] == members[k]);
        lemma_invalid_method_fails(members.drop_last(), k);
    }
}

fn entry_from_method(m: &MethodDecl, k: usize) -> (r: Result<MethodEntry, GenError>)
    ensures
        view_result(r) == entry_of(m@, k as int),
{
    let mutable = match m.receiver {
        Receiver::Absent => {
            return Err(GenError::NoReceiver { member: k });
        },
        Receiver::Typed => {
            return Err(GenError::TypedReceiver { member: k });
        },
        Receiver::Owned => {
            return Err(GenError::OwningReceiver { member: k });
        },
        Receiver::Borrowed { mutable } => mutable,
    };
    let ghost ps = m@.params;
    let mut names: Vec<String> = Vec::new();
    let mut tys: Vec<String> = Vec::new();
    for j in 0..m.params.len()
        invariant
            ps == m@.params,
            ps.len() == m.params.len(),
            m.receiver == (Receiver::Borrowed { mutable }),
            names.deep_view() == param_names(ps.take(j as int)),
            tys.deep_view() == param_types(ps.take(j as int)),
            forall|i: int| 0 <= i < j ==> ps[i].name is Some,
    {
        match &m.params[j].name {
            None => {
                proof {
                    assert(ps[j as int].name is None);
                    assert(first_destructured_at(ps, j as int));
                    let c = choose|j: int| first_destructured_at(m@.params, j);
                    assert(c == j);
                    assert(entry_of(m@, k as int) == Err::<EntryView, GenError>(
                        GenError::UnsupportedParameterPattern { member: k, param: j },
                    ));
                }
                return Err(GenError::UnsupportedParameterPattern { member: k, param: j });
            },
            Some(n) => {
                let ghost before = names.deep_view();
                let ghost before_tys = tys.deep_view();
                names.push(n.clone());
                tys.push(m.params[j].ty.clone());
                proof {
                    assert(ps[j as int].name == Some(n@));
                    assert(ps[j as int].ty == m.params[j as int].ty@);
                    assert(names.deep_view() =~= before.push(n@));
                    assert(tys.deep_view() =~= before_tys.push(m.params[j as int].ty@));
                    assert(param_types(ps.take(j + 1)) =~= param_types(ps.take(j as int)).push(ps[j as int].ty));
                    assert(param_names(ps.take(j + 1)) =~= param_names(ps.take(j as int)).push(n@));
                    assert(names.deep_view() =~= param_names(ps.take(j + 1)));
                    assert(tys.deep_view() =~= param_types(ps.take(j + 1)));
                }
            },
        }
    }
    proof {
        assert(ps.take(ps.len() as int) =~= ps);
        assert(!exists|j: int| 0 <= j < ps.len() && ps[j].name is None);
    }
    let binding = if names.len() == 0 {
        Binding::NoArgs
    } else if names.len() == 1 {
        Binding::One { name: names[0].clone(), ty: tys[0].clone() }
    } else {
        Binding::Many { names, tys }
    };
    let access = if mutable {
        Access::Exclusive
    } else {
        Access::Shared
    };
    let e = MethodEntry { name: m.name.clone(), access, binding };
    proof {
        if ps.len() == 1 {
            assert(param_names(ps)[0] == ps[0].name->Some_0);
            assert(param_types(ps)[0] == ps[0].ty);
        }
        assert(e.binding@ == binding_of(ps));
    }
    Ok(e)
}

/// The method table of an impl block.
#[derive(Clone, Debug)]
pub struct MethodTable {
    entries: Vec<MethodEntry>,
}

impl View for MethodTable {
    type V = Seq<EntryView>;

    closed spec fn view(&self) -> Seq<EntryView> {
        entries_view(self.entries@)
    }
}

impl MethodTable {
    /// Builds the table of an impl block's methods, or fails at the first
    /// method that cannot be exposed; a failure leaves no partial table.
    pub fn build(members: &Vec<ImplMember>) -> (r: Result<MethodTable, GenError>)
        ensures
            view_result(r) == method_table_of(members_view(members@)),
    {
        let ghost mv = members_view(members@);
        let mut entries: Vec<MethodEntry> = Vec::new();
        proof {
            assert(mv.take(0) =~= Seq::<Option<MethodView>>::empty());
            assert(entries_view(entries@) =~= Seq::<EntryView>::empty());
        }
        for i in 0..members.len()
            invariant
                mv == members_view(members@),
                mv.len() == members.len(),
                method_table_of(mv.take(i as int)) == Ok::<Seq<EntryView>, GenError>(entries_view(entries@)),
        {
            proof {
                assert(mv.take(i + 1).drop_last() =~= mv.take(i as int));
            }
            match &members[i] {
                ImplMember::Method(m) => match entry_from_method(m, i) {
                    Ok(e) => {
                        let ghost before = entries@;
                        entries.push(e);
                        proof {
                            assert(entries_view(entries@) =~= entries_view(before).push(e@));
                        }
                    },
                    Err(e) => {
                        proof {
                            lemma_table_failure_prefix(mv, i + 1);
                        }
                        return Err(e);
                    },
                },
                ImplMember::Other => {},
            }
        }
        proof {
            assert(mv.take(members.len() as int) =~= mv);
        }
        Ok(MethodTable { entries })
    }

    /// The entries, in the order of the methods.
    pub fn entries(&self) -> (r: &Vec<MethodEntry>)
        ensures
            entries_view(r@) == self@,
    {
        &self.entries
    }
}

/// The closure parameter of an entry: a pattern that binds the incoming
/// argument as the binding says.
pub open spec fn params_pattern(b: BindingView) -> Seq<char> {
    match b {
        BindingView::NoArgs => "()"@,
        BindingView::One { name, ty } => name + ": "@ + ty,
        BindingView::Many { names, tys } => "("@ + comma_list(names) + "): ("@ + comma_list(tys) + ")"@,
    }
}

/// The argument list of the forwarded call: the bound names, in the same
/// order as the pattern binds them.
pub open spec fn call_args(b: BindingView) -> Seq<char> {
    "("@ + comma_list(bound_names(b)) + ")"@
}

/// The registration of one method under its name.
pub open spec fn render_entry(e: EntryView) -> Seq<char> {
    "        _methods."@ + (if e.access == Access::Exclusive {
        "add_method_mut"@
    } else {
        "add_method"@
    }) + "(\""@ + e.name + "\", |_, data, "@ + params_pattern(e.binding) + "| {\n            Ok(data."@
        + e.name + call_args(e.binding) + ")\n        });\n"@
}

pub open spec fn render_entries(es: Seq<EntryView>) -> Seq<char>
    decreases es.len(),
{
    if es.len() == 0 {
        Seq::empty()
    } else {
        render_entries(es.drop_last()) + render_entry(es.last())
    }
}

/// The impl that registers every entry of the table for `self_ty`.
pub open spec fn render_methods_impl(self_ty: Seq<char>, es: Seq<EntryView>) -> Seq<char> {
    "impl ::rudeboy::RudeboyMethods for "@ + self_ty
        + " {\n    fn generate_methods<'lua, M: ::rlua::UserDataMethods<'lua, Self>>(_methods: &mut M) {\n"@
        + render_entries(es) + "    }\n}\n"@
}

fn emit_params_pattern(out: &mut String, b: &Binding)
    ensures
        final(out)@ == old(out)@ + params_pattern(b@),
{
    let ghost start = out@;
    match b {
        Binding::NoArgs => out.append("()"),
        Binding::One { name, ty } => {
            out.append(name.as_str());
            out.append(": ");
            out.append(ty.as_str());
        },
        Binding::Many { names, tys } => {
            out.append("(");
            emit_comma_list(out, names);
            out.append("): (");
            emit_comma_list(out, tys);
            out.append(")");
        },
    }
    assert(out@ =~= start + params_pattern(b@));
}

fn emit_call_args(out: &mut String, b: &Binding)
    ensures
        final(out)@ == old(out)@ + call_args(b@),
{
    let ghost start = out@;
    out.append("(");
    match b {
        Binding::NoArgs => {
            assert(comma_list(bound_names(b@)) =~= Seq::<char>::empty());
        },
        Binding::One { name, .. } => {
            out.append(name.as_str());
            out.append(", ");
            proof {
                let one = seq![name@];
                assert(one.drop_last() =~= Seq::<Seq<char>>::empty());
                assert(comma_list(one) == comma_list(one.drop_last()) + name@ + ", "@);
            }
        },
        Binding::Many { names, .. } => {
            emit_comma_list(out, names);
        },
    }
    out.append(")");
    assert(out@ =~= start + call_args(b@));
}

fn emit_entry(out: &mut String, e: &MethodEntry)
    ensures
        final(out)@ == old(out)@ + render_entry(e@),
{
    let ghost start = out@;
    out.append("        _methods.");
    match e.access {
        Access::Exclusive => out.append("add_method_mut"),
        Access::Shared => out.append("add_method"),
    }
    out.append("(\"");
    out.append(e.name.as_str());
    out.append("\", |_, data, ");
    emit_params_pattern(out, &e.binding);
    out.append("| {\n            Ok(data.");
    out.append(e.name.as_str());
    emit_call_args(out, &e.binding);
    out.append(")\n        });\n");
    assert(out@ =~= start + render_entry(e@));
}

impl MethodTable {
    /// Renders the methods impl for `self_ty`.
    pub fn emit_impl(&self, self_ty: &str) -> (r: String)
        ensures
            r@ == render_methods_impl(self_ty@, self@),
    {
        let mut out = String::new();
        out.append("impl ::rudeboy::RudeboyMethods for ");
        out.append(self_ty);
        out.append(" {\n    fn generate_methods<'lua, M: ::rlua::UserDataMethods<'lua, Self>>(_methods: &mut M) {\n");
        let ghost head = out@;
        let ghost es = self@;
        for i in 0..self.entries.len()
            invariant
                es == self@,
                es.len() == self.entries.len(),
                out@ == head + render_entries(es.take(i as int)),
        {
            proof {
                assert(es.take(i + 1).drop_last() =~= es.take(i as int));
            }
            emit_entry(&mut out, &self.entries[i]);
        }
        out.append("    }\n}\n");
        proof {
            assert(es.take(self.entries.len() as int) =~= es);
        }
        assert(out@ =~= render_methods_impl(self_ty@, es));
        out
    }
}

} // verus!
