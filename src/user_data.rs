//! The registration entry point: wires the generated metamethods and methods
//! of a type into the host's single registration routine.
use vstd::prelude::*;
use crate::decl::{args_view, AttrArg};
use crate::error::{view_result, GenError};
use crate::requests::{collect_requests, lemma_collect_contents, lemma_collect_fails_at_first_unresolved};
use crate::text::same_text;

verus! {

/// A generator whose output the registration routine calls.
#[derive(Clone, Copy, Debug, PartialEq, Eq, Structural)]
pub enum Capability {
    MetaMethods,
    Methods,
}

impl Capability {
    /// The identifier that requests this capability.
    pub open spec fn spec_ident(self) -> Seq<char> {
        match self {
            Capability::MetaMethods => "MetaMethods"@,
            Capability::Methods => "Methods"@,
        }
    }

    /// The trait whose entry point is called.
    pub open spec fn spec_trait_path(self) -> Seq<char> {
        match self {
            Capability::MetaMethods => "::rudeboy::RudeboyMetaMethods"@,
            Capability::Methods => "::rudeboy::RudeboyMethods"@,
        }
    }

    /// The entry point that populates the host's table.
    pub open spec fn spec_entry_point(self) -> Seq<char> {
        match self {
            Capability::MetaMethods => "generate_metamethods"@,
            Capability::Methods => "generate_methods"@,
        }
    }

    pub fn ident(&self) -> (r: &'static str)
        ensures
            r@ == self.spec_ident(),
    {
        match self {
            Capability::MetaMethods => "MetaMethods",
            Capability::Methods => "Methods",
        }
    }

    pub fn trait_path(&self) -> (r: &'static str)
        ensures
            r@ == self.spec_trait_path(),
    {
        match self {
            Capability::MetaMethods => "::rudeboy::RudeboyMetaMethods",
            Capability::Methods => "::rudeboy::RudeboyMethods",
        }
    }

    pub fn entry_point(&self) -> (r: &'static str)
        ensures
            r@ == self.spec_entry_point(),
    {
        match self {
            Capability::MetaMethods => "generate_metamethods",
            Capability::Methods => "generate_methods",
        }
    }

    /// Resolves an identifier to the capability it names.
    pub fn try_parse(s: &str) -> (r: Option<Capability>)
        ensures
            r == capability_named(s@),
    {
        if same_text(s, Capability::MetaMethods.ident()) {
            proof {
                lemma_capability_named(Capability::MetaMethods);
            }
            Some(Capability::MetaMethods)
        } else if same_text(s, Capability::Methods.ident()) {
            proof {
                lemma_capability_named(Capability::Methods);
            }
            Some(Capability::Methods)
        } else {
            assert forall|c: Capability| c.spec_ident() != s@ by {
                match c {
                    _ => {},
                }
            }
            None
        }
    }
}

/// The capability requested by an identifier, if any.
pub open spec fn capability_named(s: Seq<char>) -> Option<Capability> {
    if exists|c: Capability| c.spec_ident() == s {
        Some(choose|c: Capability| c.spec_ident() == s)
    } else {
        None
    }
}

/// Each capability is found under its own identifier.
pub proof fn lemma_capability_named(c: Capability)
    ensures
        capability_named(c.spec_ident()) == Some(c),
{
    reveal_strlit("MetaMethods");
    reveal_strlit("Methods");
    let d = choose|d: Capability| d.spec_ident() == c.spec_ident();
    if d != c {
        assert(d.spec_ident().len() != c.spec_ident().len());
    }
}

pub open spec fn resolve_capability(a: Option<Seq<char>>) -> Option<Capability> {
    match a {
        Some(s) => capability_named(s),
        None => None,
    }
}

/// The capabilities that a list of attribute arguments requests: each
/// argument must name one, and a repeated one counts once.
pub open spec fn requested_capabilities(args: Seq<Option<Seq<char>>>) -> Result<Seq<Capability>, GenError> {
    match collect_requests(args.map_values(|a: Option<Seq<char>>| resolve_capability(a))) {
        Ok(v) => Ok(v),
        Err(k) => Err(GenError::UnknownCapability { arg: k as usize }),
    }
}

fn contains_capability(v: &Vec<Capability>, c: Capability) -> (r: bool)
    ensures
        r == v@.contains(c),
{
    for i in 0..v.len()
        invariant
            forall|j: int| 0 <= j < i ==> v@[j] != c,
    {
        if v[i] == c {
            return true;
        }
    }
    false
}

/// Resolves the arguments of a registration attribute, failing at the first
/// one that names no capability.
pub fn select_capabilities(args: &Vec<AttrArg>) -> (r: Result<Vec<Capability>, GenError>)
    ensures
        view_result(r) == requested_capabilities(args_view(args@)),
{
    let ghost rs = args_view(args@).map_values(|a: Option<Seq<char>>| resolve_capability(a));
    let mut out: Vec<Capability> = Vec::new();
    for i in 0..args.len()
        invariant
            rs == args_view(args@).map_values(|a: Option<Seq<char>>| resolve_capability(a)),
            collect_requests(rs.take(i as int)) == Ok::<Seq<Capability>, int>(out@),
    {
        let found = match &args[i] {
            AttrArg::Ident(s) => Capability::try_parse(s.as_str()),
            AttrArg::Other => None,
        };
        proof {
            assert(rs[i as int] == found);
            assert(rs.take(i + 1).drop_last() =~= rs.take(i as int));
        }
        match found {
            None => {
                proof {
                    lemma_collect_fails_at_first_unresolved(rs.take(i as int));
                    lemma_collect_fails_at_first_unresolved(rs);
                    assert forall|j: int| 0 <= j < i implies rs[j] is Some by {
                        assert(rs.take(i as int)[j] == rs[j]);
                    }
                }
                return Err(GenError::UnknownCapability { arg: i });
            },
            Some(c) => {
                if !contains_capability(&out, c) {
                    out.push(c);
                }
            },
        }
    }
    proof {
        assert(rs.take(args.len() as int) =~= rs);
    }
    Ok(out)
}

/// A successful request lists each capability once, exactly those that some
/// argument names.
pub proof fn lemma_requested_capabilities(args: Seq<Option<Seq<char>>>, c: Capability)
    ensures
        requested_capabilities(args) matches Ok(v) ==> {
            &&& v.no_duplicates()
            &&& (v.contains(c) <==> exists|i: int| 0 <= i < args.len() && resolve_capability(args[i]) == Some(c))
        },
{
    let rs = args.map_values(|a: Option<Seq<char>>| resolve_capability(a));
    lemma_collect_contents(rs);
    if let Ok(v) = requested_capabilities(args) {
        if exists|i: int| 0 <= i < args.len() && resolve_capability(args[i]) == Some(c) {
            let i = choose|i: int| 0 <= i < args.len() && resolve_capability(args[i]) == Some(c);
            assert(rs[i] == Some(c));
        }
    }
}

/// Requesting an identifier that names no capability fails the request.
pub proof fn lemma_unknown_capability_fails(args: Seq<Option<Seq<char>>>, k: int)
    requires
        0 <= k < args.len(),
        resolve_capability(args[k]) is None,
    ensures
        requested_capabilities(args) is Err,
{
    let rs = args.map_values(|a: Option<Seq<char>>| resolve_capability(a));
    assert(rs[k] is None);
    lemma_collect_fails_at_first_unresolved(rs);
}

/// The call of one capability's entry point for `name`.
pub open spec fn render_registration_call(name: Seq<char>, c: Capability) -> Seq<char> {
    "        <"@ + name + " as "@ + c.spec_trait_path() + ">::"@ + c.spec_entry_point() + "(methods);\n"@
}

pub open spec fn render_registration_calls(name: Seq<char>, cs: Seq<Capability>) -> Seq<char>
    decreases cs.len(),
{
    if cs.len() == 0 {
        Seq::empty()
    } else {
        render_registration_calls(name, cs.drop_last()) + render_registration_call(name, cs.last())
    }
}

/// The host's registration routine for `name`, calling the entry point of
/// each capability once; with none, the routine registers nothing.
pub open spec fn render_user_data_impl(name: Seq<char>, cs: Seq<Capability>) -> Seq<char> {
    "impl ::rlua::UserData for "@ + name
        + " {\n    fn add_methods<'lua, M: ::rlua::UserDataMethods<'lua, Self>>(methods: &mut M) {\n"@
        + render_registration_calls(name, cs) + "    }\n}\n"@
}

/// Renders the registration routine for `name`.
pub fn emit_user_data_impl(name: &str, cs: &Vec<Capability>) -> (r: String)
    ensures
        r@ == render_user_data_impl(name@, cs@),
{
    let mut out = String::new();
    out.append("impl ::rlua::UserData for ");
    out.append(name);
    out.append(" {\n    fn add_methods<'lua, M: ::rlua::UserDataMethods<'lua, Self>>(methods: &mut M) {\n");
    let ghost head = out@;
    for i in 0..cs.len()
        invariant
            out@ == head + render_registration_calls(name@, cs@.take(i as int)),
    {
        proof {
            assert(cs@.take(i + 1).drop_last() =~= cs@.take(i as int));
        }
        let ghost before = out@;
        let c = cs[i];
        out.append("        <");
        out.append(name);
        out.append(" as ");
        out.append(c.trait_path());
        out.append(">::");
        out.append(c.entry_point());
        out.append("(methods);\n");
        assert(out@ =~= before + render_registration_call(name@, c));
    }
    out.append("    }\n}\n");
    proof {
        assert(cs@.take(cs.len() as int) =~= cs@);
    }
    assert(out@ =~= render_user_data_impl(name@, cs@));
    out
}

} // verus!
