//! The catalog of operator hooks ("metamethods") that a type can expose, and
//! the generation of their dispatch entries.
use vstd::prelude::*;
use crate::decl::{args_view, AttrArg};
use crate::error::{view_result, GenError};
use crate::index::{index_body, IndexDispatcher};
use crate::requests::{collect_requests, lemma_collect_contents, lemma_collect_fails_at_first_unresolved};
use crate::text::{emit_fn_signature, fn_signature, same_text};

verus! {

/// An operator hook recognized by the scripting host.
#[derive(Clone, Copy, Debug, PartialEq, Eq, Structural)]
pub enum MetaMethod {
    Add,
    Eq,
    Index,
    Sub,
    Mul,
    Div,
    Mod,
    Unm,
    BAnd,
    BOr,
    BXor,
    BNot,
    Shl,
    Shr,
    Lt,
    Le,
}

/// How a dispatch entry for a metamethod is produced.
#[derive(Clone, Copy, Debug, PartialEq, Eq, Structural)]
pub enum Strategy {
    /// Applies a native binary operator to the receiver and a second value of
    /// the same type.
    Binary,
    /// Applies a native unary operator to the receiver.
    Unary,
    /// Looks a field up by name.
    FieldIndex,
}

impl MetaMethod {
    /// The identifier that requests this metamethod.
    pub open spec fn spec_ident(self) -> Seq<char> {
        match self {
            MetaMethod::Add => "Add"@,
            MetaMethod::Eq => "Eq"@,
            MetaMethod::Index => "Index"@,
            MetaMethod::Sub => "Sub"@,
            MetaMethod::Mul => "Mul"@,
            MetaMethod::Div => "Div"@,
            MetaMethod::Mod => "Mod"@,
            MetaMethod::Unm => "Unm"@,
            MetaMethod::BAnd => "BAnd"@,
            MetaMethod::BOr => "BOr"@,
            MetaMethod::BXor => "BXor"@,
            MetaMethod::BNot => "BNot"@,
            MetaMethod::Shl => "Shl"@,
            MetaMethod::Shr => "Shr"@,
            MetaMethod::Lt => "Lt"@,
            MetaMethod::Le => "Le"@,
        }
    }

    /// The host's tag under which the dispatch entry is registered: the
    /// host's variant of the same name.
    pub open spec fn spec_host_tag(self) -> Seq<char> {
        "::rlua::MetaMethod::"@ + self.spec_ident()
    }

    /// The name of the generated function that registers the entry.
    pub open spec fn spec_generator_name(self) -> Seq<char> {
        match self {
            MetaMethod::Add => "generate_add"@,
            MetaMethod::Eq => "generate_eq"@,
            MetaMethod::Index => "generate_index"@,
            MetaMethod::Sub => "generate_sub"@,
            MetaMethod::Mul => "generate_mul"@,
            MetaMethod::Div => "generate_div"@,
            MetaMethod::Mod => "generate_mod"@,
            MetaMethod::Unm => "generate_unm"@,
            MetaMethod::BAnd => "generate_band"@,
            MetaMethod::BOr => "generate_bor"@,
            MetaMethod::BXor => "generate_bxor"@,
            MetaMethod::BNot => "generate_bnot"@,
            MetaMethod::Shl => "generate_shl"@,
            MetaMethod::Shr => "generate_shr"@,
            MetaMethod::Lt => "generate_lt"@,
            MetaMethod::Le => "generate_le"@,
        }
    }

    /// The native operator applied; empty for `Index`, which applies none.
    pub open spec fn spec_operator(self) -> Seq<char> {
        match self {
            MetaMethod::Add => "+"@,
            MetaMethod::Eq => "=="@,
            MetaMethod::Index => ""@,
            MetaMethod::Sub => "-"@,
            MetaMethod::Mul => "*"@,
            MetaMethod::Div => "/"@,
            MetaMethod::Mod => "%"@,
            MetaMethod::Unm => "-"@,
            MetaMethod::BAnd => "&"@,
            MetaMethod::BOr => "|"@,
            MetaMethod::BXor => "^"@,
            MetaMethod::BNot => "!"@,
            MetaMethod::Shl => "<<"@,
            MetaMethod::Shr => ">>"@,
            MetaMethod::Lt => "<"@,
            MetaMethod::Le => "<="@,
        }
    }

    pub open spec fn spec_strategy(self) -> Strategy {
        match self {
            MetaMethod::Index => Strategy::FieldIndex,
            MetaMethod::Unm | MetaMethod::BNot => Strategy::Unary,
            _ => Strategy::Binary,
        }
    }

    pub fn ident(&self) -> (r: &'static str)
        ensures
            r@ == self.spec_ident(),
    {
        match self {
            MetaMethod::Add => "Add",
            MetaMethod::Eq => "Eq",
            MetaMethod::Index => "Index",
            MetaMethod::Sub => "Sub",
            MetaMethod::Mul => "Mul",
            MetaMethod::Div => "Div",
            MetaMethod::Mod => "Mod",
            MetaMethod::Unm => "Unm",
            MetaMethod::BAnd => "BAnd",
            MetaMethod::BOr => "BOr",
            MetaMethod::BXor => "BXor",
            MetaMethod::BNot => "BNot",
            MetaMethod::Shl => "Shl",
            MetaMethod::Shr => "Shr",
            MetaMethod::Lt => "Lt",
            MetaMethod::Le => "Le",
        }
    }

    pub fn generator_name(&self) -> (r: &'static str)
        ensures
            r@ == self.spec_generator_name(),
    {
        match self {
            MetaMethod::Add => "generate_add",
            MetaMethod::Eq => "generate_eq",
            MetaMethod::Index => "generate_index",
            MetaMethod::Sub => "generate_sub",
            MetaMethod::Mul => "generate_mul",
            MetaMethod::Div => "generate_div",
            MetaMethod::Mod => "generate_mod",
            MetaMethod::Unm => "generate_unm",
            MetaMethod::BAnd => "generate_band",
            MetaMethod::BOr => "generate_bor",
            MetaMethod::BXor => "generate_bxor",
            MetaMethod::BNot => "generate_bnot",
            MetaMethod::Shl => "generate_shl",
            MetaMethod::Shr => "generate_shr",
            MetaMethod::Lt => "generate_lt",
            MetaMethod::Le => "generate_le",
        }
    }

    pub fn operator(&self) -> (r: &'static str)
        ensures
            r@ == self.spec_operator(),
    {
        match self {
            MetaMethod::Add => "+",
            MetaMethod::Eq => "==",
            MetaMethod::Index => "",
            MetaMethod::Sub => "-",
            MetaMethod::Mul => "*",
            MetaMethod::Div => "/",
            MetaMethod::Mod => "%",
            MetaMethod::Unm => "-",
            MetaMethod::BAnd => "&",
            MetaMethod::BOr => "|",
            MetaMethod::BXor => "^",
            MetaMethod::BNot => "!",
            MetaMethod::Shl => "<<",
            MetaMethod::Shr => ">>",
            MetaMethod::Lt => "<",
            MetaMethod::Le => "<=",
        }
    }

    pub fn strategy(&self) -> (r: Strategy)
        ensures
            r == self.spec_strategy(),
    {
        match self {
            MetaMethod::Index => Strategy::FieldIndex,
            MetaMethod::Unm | MetaMethod::BNot => Strategy::Unary,
            _ => Strategy::Binary,
        }
    }
}

/// Distinct metamethods are requested by distinct identifiers.
pub proof fn lemma_ident_injective(a: MetaMethod, b: MetaMethod)
    ensures
        a.spec_ident() == b.spec_ident() ==> a == b,
{
    reveal_strlit("Add");
    reveal_strlit("Eq");
    reveal_strlit("Index");
    reveal_strlit("Sub");
    reveal_strlit("Mul");
    reveal_strlit("Div");
    reveal_strlit("Mod");
    reveal_strlit("Unm");
    reveal_strlit("BAnd");
    reveal_strlit("BOr");
    reveal_strlit("BXor");
    reveal_strlit("BNot");
    reveal_strlit("Shl");
    reveal_strlit("Shr");
    reveal_strlit("Lt");
    reveal_strlit("Le");
    let (x, y) = (a.spec_ident(), b.spec_ident());
    if x == y {
        assert(x.len() == y.len() && x[0] == y[0]);
        if x.len() > 2 {
            assert(x[1] == y[1] && x[2] == y[2]);
        } else {
            assert(x[1] == y[1]);
        }
    }
}

/// Distinct metamethods are registered under distinct host tags.
pub proof fn lemma_host_tag_injective(a: MetaMethod, b: MetaMethod)
    ensures
        a.spec_host_tag() == b.spec_host_tag() ==> a == b,
{
    let p = "::rlua::MetaMethod::"@;
    if a.spec_host_tag() == b.spec_host_tag() {
        assert(a.spec_ident() =~= a.spec_host_tag().subrange(p.len() as int, a.spec_host_tag().len() as int));
        assert(b.spec_ident() =~= b.spec_host_tag().subrange(p.len() as int, b.spec_host_tag().len() as int));
        lemma_ident_injective(a, b);
    }
}

/// The metamethod requested by an identifier, if the catalog has one.
pub open spec fn metamethod_named(s: Seq<char>) -> Option<MetaMethod> {
    if exists|m: MetaMethod| m.spec_ident() == s {
        Some(choose|m: MetaMethod| m.spec_ident() == s)
    } else {
        None
    }
}

/// Every metamethod is found under its own identifier.
pub proof fn lemma_metamethod_named(m: MetaMethod)
    ensures
        metamethod_named(m.spec_ident()) == Some(m),
{
    let c = choose|c: MetaMethod| c.spec_ident() == m.spec_ident();
    lemma_ident_injective(c, m);
}

impl MetaMethod {
    /// Resolves an identifier against the catalog.
    pub fn try_parse(s: &str) -> (r: Option<MetaMethod>)
        ensures
            r == metamethod_named(s@),
    {
        let r = if same_text(s, MetaMethod::Add.ident()) {
        Some(MetaMethod::Add)
    } else if same_text(s, MetaMethod::Eq.ident()) {
        Some(MetaMethod::Eq)
    } else if same_text(s, MetaMethod::Index.ident()) {
        Some(MetaMethod::Index)
    } else if same_text(s, MetaMethod::Sub.ident()) {
        Some(MetaMethod::Sub)
    } else if same_text(s, MetaMethod::Mul.ident()) {
        Some(MetaMethod::Mul)
    } else if same_text(s, MetaMethod::Div.ident()) {
        Some(MetaMethod::Div)
    } else if same_text(s, MetaMethod::Mod.ident()) {
        Some(MetaMethod::Mod)
    } else if same_text(s, MetaMethod::Unm.ident()) {
        Some(MetaMethod::Unm)
    } else if same_text(s, MetaMethod::BAnd.ident()) {
        Some(MetaMethod::BAnd)
    } else if same_text(s, MetaMethod::BOr.ident()) {
        Some(MetaMethod::BOr)
    } else if same_text(s, MetaMethod::BXor.ident()) {
        Some(MetaMethod::BXor)
    } else if same_text(s, MetaMethod::BNot.ident()) {
        Some(MetaMethod::BNot)
    } else if same_text(s, MetaMethod::Shl.ident()) {
        Some(MetaMethod::Shl)
    } else if same_text(s, MetaMethod::Shr.ident()) {
        Some(MetaMethod::Shr)
    } else if same_text(s, MetaMethod::Lt.ident()) {
        Some(MetaMethod::Lt)
    } else if same_text(s, MetaMethod::Le.ident()) {
        Some(MetaMethod::Le)
    } else {
        None
    };
        proof {
            match r {
                Some(m) => lemma_metamethod_named(m),
                None => {
                    assert forall|m: MetaMethod| m.spec_ident() != s@ by {
                        match m {
                            _ => {},
                        }
                    }
                },
            }
        }
        r
    }
}

/// The metamethod that an attribute argument requests.
pub open spec fn resolve_metamethod(a: Option<Seq<char>>) -> Option<MetaMethod> {
    match a {
        Some(s) => metamethod_named(s),
        None => None,
    }
}

/// The metamethods that a list of attribute arguments requests: each
/// argument must name one, and a repeated one counts once.
pub open spec fn requested_metamethods(args: Seq<Option<Seq<char>>>) -> Result<Seq<MetaMethod>, GenError> {
    match collect_requests(args.map_values(|a: Option<Seq<char>>| resolve_metamethod(a))) {
        Ok(v) => Ok(v),
        Err(k) => Err(GenError::UnknownMetamethod { arg: k as usize }),
    }
}

pub(crate) fn contains_metamethod(v: &Vec<MetaMethod>, m: MetaMethod) -> (r: bool)
    ensures
        r == v@.contains(m),
{
    for i in 0..v.len()
        invariant
            forall|j: int| 0 <= j < i ==> v@[j] != m,
    {
        if v[i] == m {
            return true;
        }
    }
    false
}

/// Resolves the arguments of a metamethods attribute, failing at the first
/// one that names no metamethod.
pub fn select_metamethods(args: &Vec<AttrArg>) -> (r: Result<Vec<MetaMethod>, GenError>)
    ensures
        view_result(r) == requested_metamethods(args_view(args@)),
{
    let ghost rs = args_view(args@).map_values(|a: Option<Seq<char>>| resolve_metamethod(a));
    let mut out: Vec<MetaMethod> = Vec::new();
    for i in 0..args.len()
        invariant
            rs == args_view(args@).map_values(|a: Option<Seq<char>>| resolve_metamethod(a)),
            collect_requests(rs.take(i as int)) == Ok::<Seq<MetaMethod>, int>(out@),
    {
        let found = match &args[i] {
            AttrArg::Ident(s) => MetaMethod::try_parse(s.as_str()),
            AttrArg::Other => None,
        };
        proof {
            assert(rs[i as int] == found);
            assert(rs.take(i + 1).drop_last() =~= rs.take(i as int));
        }
        match found {
            None => {
                proof {
                    lemma_collect_fails_at_first_unresolved(rs.take(i as int));
                    lemma_collect_fails_at_first_unresolved(rs);
                    assert forall|j: int| 0 <= j < i implies rs[j] is Some by {
                        assert(rs.take(i as int)[j] == rs[j]);
                    }
                }
                return Err(GenError::UnknownMetamethod { arg: i });
            },
            Some(m) => {
                if !contains_metamethod(&out, m) {
                    out.push(m);
                }
            },
        }
    }
    proof {
        assert(rs.take(args.len() as int) =~= rs);
    }
    Ok(out)
}

/// Each metamethod requested is registered once and under its own tag: the
/// list has no repetition, holds exactly the metamethods that some argument
/// names, and no two of its entries share a host tag.
pub proof fn lemma_requested_metamethods(args: Seq<Option<Seq<char>>>, m: MetaMethod)
    ensures
        requested_metamethods(args) matches Ok(v) ==> {
            &&& v.no_duplicates()
            &&& (v.contains(m) <==> exists|i: int| 0 <= i < args.len() && resolve_metamethod(args[i]) == Some(m))
            &&& forall|i: int, j: int|
                0 <= i < v.len() && 0 <= j < v.len() && v[i].spec_host_tag() == v[j].spec_host_tag() ==> i == j
        },
{
    let rs = args.map_values(|a: Option<Seq<char>>| resolve_metamethod(a));
    lemma_collect_contents(rs);
    if let Ok(v) = requested_metamethods(args) {
        assert((exists|i: int| 0 <= i < rs.len() && rs[i] == Some(m)) ==> exists|i: int|
            0 <= i < args.len() && resolve_metamethod(args[i]) == Some(m));
        if exists|i: int| 0 <= i < args.len() && resolve_metamethod(args[i]) == Some(m) {
            let i = choose|i: int| 0 <= i < args.len() && resolve_metamethod(args[i]) == Some(m);
            assert(rs[i] == Some(m));
        }
        assert forall|i: int, j: int|
            0 <= i < v.len() && 0 <= j < v.len() && v[i].spec_host_tag() == v[j].spec_host_tag() implies i == j by {
            lemma_host_tag_injective(v[i], v[j]);
        }
    }
}

/// Requesting an identifier outside the catalog fails the whole request.
pub proof fn lemma_unknown_metamethod_fails(args: Seq<Option<Seq<char>>>, k: int)
    requires
        0 <= k < args.len(),
        resolve_metamethod(args[k]) is None,
    ensures
        requested_metamethods(args) is Err,
{
    let rs = args.map_values(|a: Option<Seq<char>>| resolve_metamethod(a));
    assert(rs[k] is None);
    lemma_collect_fails_at_first_unresolved(rs);
}

/// The head of a generated entry: the registration function and the call
/// that adds a closure under the metamethod's host tag.
pub open spec fn entry_open(m: MetaMethod) -> Seq<char> {
    fn_signature(m.spec_generator_name()) + "    methods.add_meta_method("@ + m.spec_host_tag()
        + ", |ctx, data, "@
}

pub open spec fn entry_close() -> Seq<char> {
    "    });\n}\n"@
}

/// The closure parameter and body of an entry that applies a native operator.
pub open spec fn operator_body(m: MetaMethod) -> Seq<char> {
    if m.spec_strategy() == Strategy::Unary {
        "()| {\n        use ::rlua::ToLua;\n        let ret = "@ + m.spec_operator()
            + " *data;\n        Ok(ret.to_lua(ctx))\n"@
    } else {
        "other: Self| {\n        use ::rlua::ToLua;\n        let ret = (*data "@ + m.spec_operator()
            + " other);\n        Ok(ret.to_lua(ctx))\n"@
    }
}

/// The generated entry for one metamethod; `fields` are the names that an
/// `Index` entry looks up.
pub open spec fn render_metamethod(m: MetaMethod, fields: Seq<Seq<char>>) -> Seq<char> {
    entry_open(m) + (if m.spec_strategy() == Strategy::FieldIndex {
        index_body(fields)
    } else {
        operator_body(m)
    }) + entry_close()
}

pub open spec fn render_metamethod_list(ms: Seq<MetaMethod>, fields: Seq<Seq<char>>) -> Seq<char>
    decreases ms.len(),
{
    if ms.len() == 0 {
        Seq::empty()
    } else {
        render_metamethod_list(ms.drop_last(), fields) + render_metamethod(ms.last(), fields)
    }
}

/// The impl that gives `name` its requested metamethods, one entry each.
pub open spec fn render_metamethods_impl(name: Seq<char>, ms: Seq<MetaMethod>, fields: Seq<Seq<char>>) -> Seq<char> {
    "impl ::rudeboy::RudeboyMetaMethods for "@ + name + " {\n"@ + render_metamethod_list(ms, fields)
        + "}\n"@
}

/// The field names behind an optional index dispatcher.
pub open spec fn dispatcher_fields(index: Option<IndexDispatcher>) -> Seq<Seq<char>> {
    match index {
        Some(d) => d@,
        None => Seq::empty(),
    }
}

fn emit_metamethod(out: &mut String, m: MetaMethod, index: &Option<IndexDispatcher>)
    requires
        m == MetaMethod::Index ==> index is Some,
    ensures
        final(out)@ == old(out)@ + render_metamethod(m, dispatcher_fields(*index)),
{
    let ghost start = out@;
    emit_fn_signature(out, m.generator_name());
    out.append("    methods.add_meta_method(");
    out.append("::rlua::MetaMethod::");
    out.append(m.ident());
    out.append(", |ctx, data, ");
    let ghost head = out@;
    assert(head =~= start + entry_open(m));
    match m.strategy() {
        Strategy::FieldIndex => {
            match index {
                Some(d) => d.emit_body(out),
                None => {},
            }
        },
        Strategy::Unary => {
            out.append("()| {\n        use ::rlua::ToLua;\n        let ret = ");
            out.append(m.operator());
            out.append(" *data;\n        Ok(ret.to_lua(ctx))\n");
        },
        Strategy::Binary => {
            out.append("other: Self| {\n        use ::rlua::ToLua;\n        let ret = (*data ");
            out.append(m.operator());
            out.append(" other);\n        Ok(ret.to_lua(ctx))\n");
        },
    }
    out.append("    });\n}\n");
    assert(out@ =~= start + render_metamethod(m, dispatcher_fields(*index)));
}

/// Renders the metamethods impl for `name`. An `Index` entry, where one is
/// requested, is built from `index`.
pub fn emit_metamethods_impl(name: &str, ms: &Vec<MetaMethod>, index: &Option<IndexDispatcher>) -> (r: String)
    requires
        ms@.contains(MetaMethod::Index) ==> index is Some,
    ensures
        r@ == render_metamethods_impl(name@, ms@, dispatcher_fields(*index)),
{
    let ghost fields = dispatcher_fields(*index);
    let mut out = String::new();
    out.append("impl ::rudeboy::RudeboyMetaMethods for ");
    out.append(name);
    out.append(" {\n");
    let ghost head = out@;
    for i in 0..ms.len()
        invariant
            out@ == head + render_metamethod_list(ms@.take(i as int), fields),
            fields == dispatcher_fields(*index),
            ms@.contains(MetaMethod::Index) ==> index is Some,
    {
        proof {
            assert(ms@.take(i + 1).drop_last() =~= ms@.take(i as int));
            if ms[i as int] == MetaMethod::Index {
                assert(ms@.contains(ms[i as int]));
            }
        }
        emit_metamethod(&mut out, ms[i], index);
    }
    out.append("}\n");
    proof {
        assert(ms@.take(ms.len() as int) =~= ms@);
    }
    assert(out@ =~= render_metamethods_impl(name@, ms@, fields));
    out
}

} // verus!
