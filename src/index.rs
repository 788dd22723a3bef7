//! Field lookup by name: the dispatcher behind the `Index` metamethod.
use vstd::prelude::*;
use crate::decl::{Declaration, DeclView, Fields, FieldsView};
use crate::error::{view_result, GenError};

verus! {

/// The field names that an index dispatcher can be built over, or why the
/// declaration has none: only a struct with at least one named field
/// qualifies.
pub open spec fn index_fields(d: DeclView) -> Result<Seq<Seq<char>>, GenError> {
    match d {
        DeclView::Struct { fields: FieldsView::Named(names), .. } => if names.len() == 0 {
            Err(GenError::EmptyShape)
        } else {
            Ok(names)
        },
        DeclView::Struct { fields: FieldsView::Unit, .. } => Err(GenError::EmptyShape),
        _ => Err(GenError::UnsupportedShape),
    }
}

/// A struct declared without any field.
pub open spec fn is_fieldless_struct(d: DeclView) -> bool {
    match d {
        DeclView::Struct { fields: FieldsView::Named(names), .. } => names.len() == 0,
        DeclView::Struct { fields: FieldsView::Unit, .. } => true,
        _ => false,
    }
}

/// The position of the first field named `key`, comparing in declaration
/// order; `None` where no field has that name.
pub open spec fn first_match(fields: Seq<Seq<char>>, key: Seq<char>) -> Option<int>
    decreases fields.len(),
{
    if fields.len() == 0 {
        None
    } else {
        match first_match(fields.drop_last(), key) {
            Some(i) => Some(i),
            None => if fields.last() == key {
                Some(fields.len() - 1)
            } else {
                None
            },
        }
    }
}

/// `first_match` finds the earliest field with the key, and finds none
/// exactly when no field has it.
pub proof fn lemma_first_match(fields: Seq<Seq<char>>, key: Seq<char>)
    ensures
        first_match(fields, key) matches Some(i) ==> {
            &&& 0 <= i < fields.len()
            &&& fields[i] == key
            &&& forall|j: int| 0 <= j < i ==> fields[j] != key
        },
        first_match(fields, key) is None <==> !fields.contains(key),
    decreases fields.len(),
{
    if fields.len() > 0 {
        let init = fields.drop_last();
        lemma_first_match(init, key);
        assert forall|j: int| 0 <= j < init.len() implies init[j] == fields[j] by {}
        if fields.contains(key) && first_match(fields, key) is None {
            let j = choose|j: int| 0 <= j < fields.len() && fields[j] == key;
            if j < init.len() {
                assert(init.contains(key));
            }
        }
    }
}

/// Over distinct field names, every declared name finds its own field and
/// every other key finds none.
pub proof fn lemma_index_dispatch(fields: Seq<Seq<char>>, key: Seq<char>)
    requires
        fields.no_duplicates(),
    ensures
        forall|i: int| 0 <= i < fields.len() && fields[i] == key ==> first_match(fields, key) == Some(i),
        !fields.contains(key) ==> first_match(fields, key) is None,
{
    lemma_first_match(fields, key);
}

/// A lookup that matched no field; carries the key for the host to report.
#[derive(Clone, Debug)]
pub struct NoSuchIndex {
    pub key: String,
}

/// The field-lookup dispatcher of a record: compares a key against the field
/// names in declaration order and yields the first that equals it.
#[derive(Clone, Debug)]
pub struct IndexDispatcher {
    fields: Vec<String>,
}

impl View for IndexDispatcher {
    type V = Seq<Seq<char>>;

    closed spec fn view(&self) -> Seq<Seq<char>> {
        self.fields.deep_view()
    }
}

fn clone_names(names: &Vec<String>) -> (r: Vec<String>)
    ensures
        r.deep_view() == names.deep_view(),
{
    let mut r: Vec<String> = Vec::new();
    for i in 0..names.len()
        invariant
            r.len() == i,
            forall|j: int| 0 <= j < i ==> r[j]@ == names[j]@,
    {
        r.push(names[i].clone());
    }
    assert(r.deep_view() =~= names.deep_view());
    r
}

impl IndexDispatcher {
    /// Builds the dispatcher over a struct's named fields; fails on any other
    /// declaration, and on a struct without fields.
    pub fn from_declaration(d: &Declaration) -> (r: Result<IndexDispatcher, GenError>)
        ensures
            view_result(r) == index_fields(d@),
    {
        match d {
            Declaration::Struct { fields: Fields::Named(names), .. } => {
                if names.len() == 0 {
                    Err(GenError::EmptyShape)
                } else {
                    Ok(IndexDispatcher { fields: clone_names(names) })
                }
            },
            Declaration::Struct { fields: Fields::Unit, .. } => Err(GenError::EmptyShape),
            _ => Err(GenError::UnsupportedShape),
        }
    }

    /// The field names, in declaration order.
    pub fn field_names(&self) -> (r: &Vec<String>)
        ensures
            r.deep_view() == self@,
    {
        &self.fields
    }

    /// Resolves a key as the generated dispatcher does: the position of the
    /// first field with that name, or `NoSuchIndex` carrying the key.
    pub fn lookup(&self, key: &str) -> (r: Result<usize, NoSuchIndex>)
        ensures
            match r {
                Ok(i) => first_match(self@, key@) == Some(i as int),
                Err(e) => first_match(self@, key@) is None && e.key@ == key@,
            },
    {
        let n = self.fields.len();
        for i in 0..n
            invariant
                n == self@.len(),
                first_match(self@.take(i as int), key@) is None,
        {
            proof {
                assert(self@.take(i + 1).drop_last() =~= self@.take(i as int));
            }
            if crate::text::same_text(self.fields[i].as_str(), key) {
                proof {
                    lemma_first_prefix(self@, key@, i + 1);
                }
                return Ok(i);
            }
        }
        proof {
            assert(self@.take(n as int) =~= self@);
        }
        Err(NoSuchIndex { key: key.to_owned() })
    }
}

/// The comparison for one field: on a match, the field's value is cloned
/// and handed to the host.
pub open spec fn index_arm(field: Seq<char>) -> Seq<char> {
    "        if index_str == \""@ + field + "\" {\n            Ok(data."@ + field
        + ".clone().to_lua(ctx))\n        } else\n"@
}

pub open spec fn index_arms(fields: Seq<Seq<char>>) -> Seq<char>
    decreases fields.len(),
{
    if fields.len() == 0 {
        Seq::empty()
    } else {
        index_arms(fields.drop_last()) + index_arm(fields.last())
    }
}

/// The branch taken when no field matched.
pub open spec fn index_miss() -> Seq<char> {
    "        {\n            use ::rlua::ExternalError;\n            Err((::std::string::String::from(\"No such index: \") + index_str).to_lua_err())\n        }\n"@
}

/// The closure parameter and body of the generated index entry: the key is
/// compared with each field name in declaration order.
pub open spec fn index_body(fields: Seq<Seq<char>>) -> Seq<char> {
    "index: ::rlua::String| {\n        use ::rlua::ToLua;\n        let index_str = index.to_str()?;\n"@
        + index_arms(fields) + index_miss()
}

impl IndexDispatcher {
    /// Appends the closure parameter and body of the generated index entry.
    pub fn emit_body(&self, out: &mut String)
        ensures
            final(out)@ == old(out)@ + index_body(self@),
    {
        let ghost start = out@;
        out.append("index: ::rlua::String| {\n        use ::rlua::ToLua;\n        let index_str = index.to_str()?;\n");
        let ghost head = out@;
        for i in 0..self.fields.len()
            invariant
                out@ == head + index_arms(self@.take(i as int)),
                self.fields.len() == self@.len(),
        {
            let ghost before = out@;
            let f = self.fields[i].as_str();
            out.append("        if index_str == \"");
            out.append(f);
            out.append("\" {\n            Ok(data.");
            out.append(f);
            out.append(".clone().to_lua(ctx))\n        } else\n");
            proof {
                assert(self@.take(i + 1).drop_last() =~= self@.take(i as int));
                assert(out@ =~= before + index_arm(self@[i as int]));
            }
        }
        out.append("        {\n            use ::rlua::ExternalError;\n            Err((::std::string::String::from(\"No such index: \") + index_str).to_lua_err())\n        }\n");
        proof {
            assert(self@.take(self@.len() as int) =~= self@);
        }
        assert(out@ =~= start + index_body(self@));
    }
}

/// A match found within a prefix is the match of the whole sequence.
proof fn lemma_first_prefix(fields: Seq<Seq<char>>, key: Seq<char>, n: int)
    requires
        0 <= n <= fields.len(),
        first_match(fields.take(n), key) is Some,
    ensures
        first_match(fields, key) == first_match(fields.take(n), key),
    decreases fields.len() - n,
{
    if n < fields.len() {
        assert(fields.take(n + 1).drop_last() =~= fields.take(n));
        lemma_first_prefix(fields, key, n + 1);
    } else {
        assert(fields.take(n) =~= fields);
    }
}

} // verus!
