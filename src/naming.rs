//! Names of the dispatch macros, derived from the union's name.
use vstd::prelude::*;

verus! {

/// The snake-case form of an identifier, as Inflector computes it.
pub uninterp spec fn snake_case_of(s: Seq<char>) -> Seq<char>;

/// Relies on `inflector::cases::snakecase::to_snake_case`, a pure function of
/// its input: the same text always gives the same snake-case text.
#[verifier::external_body]
fn snake_case(s: &str) -> (r: String)
    ensures
        r@ == snake_case_of(s@),
{
    inflector::cases::snakecase::to_snake_case(s)
}

pub open spec fn use_name(name: Seq<char>) -> Seq<char> {
    "use_"@ + snake_case_of(name)
}

pub open spec fn match_name(name: Seq<char>) -> Seq<char> {
    "match_"@ + snake_case_of(name)
}

/// The union's name in snake case, which the dispatch macros' names carry.
pub fn snake_name(name: &str) -> (r: String)
    ensures
        r@ == snake_case_of(name@),
{
    snake_case(name)
}

/// The names of the `use_` and `match_` dispatch macros for a union named `name`.
pub fn dispatch_names(name: &str) -> (r: (String, String))
    ensures
        r.0@ == use_name(name@),
        r.1@ == match_name(name@),
{
    let snake = snake_case(name);
    let mut u = String::from_str("use_");
    u.append(snake.as_str());
    let mut m = String::from_str("match_");
    m.append(snake.as_str());
    (u, m)
}

} // verus!
