use vstd::prelude::*;
use vstd::string::StringExecFns;

verus! {

/// The greeting built for a given name: the fixed template with the
/// name substituted in its designated position.
pub open spec fn greeting_of(name: Seq<char>) -> Seq<char> {
    "Hello from JOPL to "@ + name + "!"@
}

/// Formats the greeting for `name`. The result is exactly the fixed
/// template with `name` embedded, untransformed.
pub fn greet_jopl(name: &str) -> (r: String)
    ensures
        r@ == greeting_of(name@),
{
    let mut r = String::from_str("Hello from JOPL to ");
    r.append(name);
    r.append("!");
    r
}

/// The greeting embeds the name whole: it appears unchanged at a fixed
/// offset, with nothing of it truncated or transformed.
pub proof fn lemma_greeting_preserves_name(name: Seq<char>)
    ensures
        greeting_of(name).len() == name.len() + 20,
        greeting_of(name).subrange(19, 19 + name.len() as int) == name,
{
    reveal_strlit("Hello from JOPL to ");
    reveal_strlit("!");
    assert(greeting_of(name).subrange(19, 19 + name.len() as int) =~= name);
}

} // verus!
