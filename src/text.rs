//! Small text helpers shared by the parsers and emitters.
use vstd::prelude::*;

verus! {

/// Compares two strings character by character.
pub fn same_text(a: &str, b: &str) -> (r: bool)
    ensures
        r == (a@ == b@),
{
    let n = a.unicode_len();
    if n != b.unicode_len() {
        return false;
    }
    let mut i: usize = 0;
    while i < n
        invariant
            n == a@.len(),
            n == b@.len(),
            i <= n,
            forall|j: int| 0 <= j < i ==> a@[j] == b@[j],
        decreases n - i,
    {
        if a.get_char(i) != b.get_char(i) {
            return false;
        }
        i = i + 1;
    }
    assert(a@ =~= b@);
    true
}

} // verus!

verus! {

/// The opening line of a generated registration function.
pub open spec fn fn_signature(name: Seq<char>) -> Seq<char> {
    "fn "@ + name + "<'lua, M: ::rlua::UserDataMethods<'lua, Self>>(methods: &mut M) {\n"@
}

pub fn emit_fn_signature(out: &mut String, name: &str)
    ensures
        final(out)@ == old(out)@ + fn_signature(name@),
{
    out.append("fn ");
    out.append(name);
    out.append("<'lua, M: ::rlua::UserDataMethods<'lua, Self>>(methods: &mut M) {\n");
    assert(out@ =~= old(out)@ + fn_signature(name@));
}

} // verus!

verus! {

/// Items each followed by `", "`, as in a tuple pattern or an argument list.
pub open spec fn comma_list(items: Seq<Seq<char>>) -> Seq<char>
    decreases items.len(),
{
    if items.len() == 0 {
        Seq::empty()
    } else {
        comma_list(items.drop_last()) + items.last() + ", "@
    }
}

pub fn emit_comma_list(out: &mut String, items: &Vec<String>)
    ensures
        final(out)@ == old(out)@ + comma_list(items.deep_view()),
{
    let ghost start = out@;
    let ghost all = items.deep_view();
    for i in 0..items.len()
        invariant
            all == items.deep_view(),
            out@ == start + comma_list(all.take(i as int)),
    {
        proof {
            assert(all.take(i + 1).drop_last() =~= all.take(i as int));
        }
        out.append(items[i].as_str());
        out.append(", ");
        assert(out@ =~= start + comma_list(all.take(i + 1)));
    }
    assert(all.take(items.len() as int) =~= all);
}

} // verus!
