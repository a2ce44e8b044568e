//! The greeting command: a pure function from a name to a greeting string.

use vstd::prelude::*;
use vstd::string::*;

verus! {

/// The text that precedes the name in every greeting.
pub open spec fn greeting_prefix() -> Seq<char> {
    "Hello, "@
}

/// The text that follows the name in every greeting.
pub open spec fn greeting_suffix() -> Seq<char> {
    "! You've been greeted from Rust!"@
}

/// The greeting for a given name: prefix, then the name, then the suffix.
pub open spec fn greeting_of(name: Seq<char>) -> Seq<char> {
    greeting_prefix() + name + greeting_suffix()
}

/// Formats the greeting for `name`. Pure: the result is a function of the
/// argument alone, so two calls on equal names return equal strings.
pub fn greet(name: &str) -> (r: String)
    ensures
        r@ == greeting_of(name@),
{
    let mut r = String::from_str("Hello, ");
    r.append(name);
    r.append("! You've been greeted from Rust!");
    r
}

/// Every greeting contains the name it was formed from, framed by the fixed
/// prefix and suffix of the greeting template.
pub proof fn lemma_greeting_contains_name(name: Seq<char>)
    ensures
        greeting_of(name).len() == greeting_prefix().len() + name.len() + greeting_suffix().len(),
        greeting_of(name).subrange(
            greeting_prefix().len() as int,
            (greeting_prefix().len() + name.len()) as int,
        ) == name,
        greeting_of(name).subrange(0, greeting_prefix().len() as int) == greeting_prefix(),
        greeting_of(name).subrange(
            (greeting_prefix().len() + name.len()) as int,
            greeting_of(name).len() as int,
        ) == greeting_suffix(),
{
    assert(greeting_of(name).subrange(
        greeting_prefix().len() as int,
        (greeting_prefix().len() + name.len()) as int,
    ) =~= name);
    assert(greeting_of(name).subrange(0, greeting_prefix().len() as int) =~= greeting_prefix());
    assert(greeting_of(name).subrange(
        (greeting_prefix().len() + name.len()) as int,
        greeting_of(name).len() as int,
    ) =~= greeting_suffix());
}

} // verus!
