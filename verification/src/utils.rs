//! Reserved words and the initial environment.

use crate::builtins::misc::{fill_context, filled};
use crate::environment::{Bindings, Environment};
use crate::text::same_text;
use vstd::prelude::*;

verus! {

/// The words that a program may not bind.
pub open spec fn reserved_word(name: Seq<char>) -> bool {
    name == "let"@ || name == "fn"@ || name == "import"@ || name == "if"@ || name == "null"@
        || name == "return"@ || name == "as"@ || name == "loop"@
}

/// Whether `name` is a reserved word.
pub fn is_reserved(name: &str) -> (r: bool)
    ensures
        r == reserved_word(name@),
{
    same_text(name, "let") || same_text(name, "fn") || same_text(name, "import") || same_text(
        name,
        "if",
    ) || same_text(name, "null") || same_text(name, "return") || same_text(name, "as")
        || same_text(name, "loop")
}

/// The environment that every run starts with: the built-in functions.
pub open spec fn initial() -> Bindings {
    filled(Seq::empty())
}

/// The environment that every run starts with.
pub fn create_context() -> (r: Environment)
    ensures
        r@ == initial(),
        r.wf(),
{
    let mut context = Environment::new();
    fill_context(&mut context);
    context
}

/// The environment after the host's function number `id` is registered
/// under `name` with the formal parameters `formal`.
pub open spec fn registered(env: Bindings, name: Seq<char>, formal: Seq<Seq<char>>, id: u64) -> Bindings {
    crate::environment::bind(
        env,
        name,
        crate::ast::ExprView::InternalFunction { name, args: formal, func: crate::ast::Native::Host(id) },
    )
}

/// Registers a native function of the host: calls of `name` are handed to
/// the host as requests for the function number `id`, after the arity check
/// against `formal` (which may end in `__args__` to take any number of
/// arguments, and may hold `self` to make the function a method).
pub fn register(context: &mut Environment, name: &str, formal: Vec<String>, id: u64)
    ensures
        final(context)@ == registered(old(context)@, name@, crate::ast::names_view(formal@), id),
        old(context).wf() ==> final(context).wf(),
{
    context.insert(
        String::from_str(name),
        crate::ast::Expr::InternalFunction {
            name: String::from_str(name),
            args: formal,
            func: crate::ast::Native::Host(id),
        },
    );
}

} // verus!
