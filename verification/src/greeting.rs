//! The command handler: the one native command the GUI front-end can
//! invoke. It maps a name to a fixed greeting template with the name
//! substituted verbatim — no trimming, no escaping, no validation, and no
//! error conditions: every input string, including the empty one, produces
//! a result.

use vstd::prelude::*;
use vstd::string::StringExecFns;

verus! {

/// The greeting for `name`: the fixed template with `name` substituted
/// verbatim between the prefix and the suffix.
pub open spec fn spec_greeting(name: Seq<char>) -> Seq<char> {
    "Hello, "@ + name + "! Greetings from the bridge!"@
}

/// The command handler. A stateless, pure, total function: any input is
/// accepted, and the result is exactly the template with `isim` substituted,
/// character for character.
pub fn merhaba(isim: &str) -> (r: String)
    ensures
        r@ == spec_greeting(isim@),
{
    let mut r = String::from_str("Hello, ");
    r.append(isim);
    r.append("! Greetings from the bridge!");
    r
}

/// The greeting is derived from the input alone: two invocations with equal
/// names yield identical output.
pub proof fn lemma_greeting_deterministic(name1: Seq<char>, name2: Seq<char>)
    requires
        name1 == name2,
    ensures
        spec_greeting(name1) == spec_greeting(name2),
{
}

/// The name passes through untransformed: the greeting is exactly the fixed
/// prefix, then the name character for character, then the fixed suffix.
pub proof fn lemma_greeting_passes_name_through(name: Seq<char>)
    ensures
        spec_greeting(name).len() == name.len() as int + 35,
        spec_greeting(name).subrange(0, 7) == "Hello, "@,
        spec_greeting(name).subrange(7, name.len() as int + 7) == name,
        spec_greeting(name).subrange(name.len() as int + 7, name.len() as int + 35)
            == "! Greetings from the bridge!"@,
{
    reveal_strlit("Hello, ");
    reveal_strlit("! Greetings from the bridge!");
    assert(spec_greeting(name).subrange(0, 7) =~= "Hello, "@);
    assert(spec_greeting(name).subrange(7, name.len() as int + 7) =~= name);
    assert(spec_greeting(name).subrange(name.len() as int + 7, name.len() as int + 35)
        =~= "! Greetings from the bridge!"@);
}

} // verus!
