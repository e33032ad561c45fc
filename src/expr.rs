use vstd::prelude::*;

use crate::text::{bool_text, bool_to_text, int_text, int_to_text};

verus! {

/// A whole program whose result is a `T`.
#[derive(Debug)]
pub struct Ast<T>(pub T);

impl<T: View> View for Ast<T> {
    type V = Ast<T::V>;

    open spec fn view(&self) -> Ast<T::V> {
        Ast(self.0@)
    }
}

/// An interpretation of the expression language.
///
/// Each backend chooses what a term of each semantic type becomes: `Bool`
/// for boolean terms, `Int` for integer terms, `Program` for a finished
/// program. Term-building code written against this trait runs unchanged
/// under every backend. The `spec_*` functions state, over the views of the
/// representations, what each builder produces.
pub trait Interp {
    type Bool: View;

    type Int: View;

    type Program: View;

    spec fn spec_bool(b: bool) -> <Self::Bool as View>::V;

    spec fn spec_int(n: i32) -> <Self::Int as View>::V;

    /// Whether `add` can combine these operands.
    spec fn add_ok(a: <Self::Int as View>::V, b: <Self::Int as View>::V) -> bool;

    spec fn spec_add(a: <Self::Int as View>::V, b: <Self::Int as View>::V) -> <Self::Int as View>::V;

    spec fn spec_if_bool(
        c: <Self::Bool as View>::V,
        a: <Self::Bool as View>::V,
        b: <Self::Bool as View>::V,
    ) -> <Self::Bool as View>::V;

    spec fn spec_if_stmt(
        c: <Self::Bool as View>::V,
        a: <Self::Int as View>::V,
        b: <Self::Int as View>::V,
    ) -> <Self::Int as View>::V;

    spec fn spec_ast(t: <Self::Int as View>::V) -> <Self::Program as View>::V;

    fn bool(b: bool) -> (r: Self::Bool)
        ensures
            r@ == Self::spec_bool(b),
    ;

    fn integer(n: i32) -> (r: Self::Int)
        ensures
            r@ == Self::spec_int(n),
    ;

    fn add(a: Self::Int, b: Self::Int) -> (r: Self::Int)
        requires
            Self::add_ok(a@, b@),
        ensures
            r@ == Self::spec_add(a@, b@),
    ;

    /// A conditional whose branches are boolean terms.
    fn if_bool(c: Self::Bool, a: Self::Bool, b: Self::Bool) -> (r: Self::Bool)
        ensures
            r@ == Self::spec_if_bool(c@, a@, b@),
    ;

    /// A conditional whose branches are integer terms.
    fn if_stmt(c: Self::Bool, a: Self::Int, b: Self::Int) -> (r: Self::Int)
        ensures
            r@ == Self::spec_if_stmt(c@, a@, b@),
    ;

    /// Marks a term as the whole program.
    fn ast(t: Self::Int) -> (r: Self::Program)
        ensures
            r@ == Self::spec_ast(t@),
    ;
}

/// Computes the value of a term directly.
pub struct Eval;

impl Interp for Eval {
    type Bool = bool;

    type Int = i32;

    type Program = Ast<i32>;

    open spec fn spec_bool(b: bool) -> bool {
        b
    }

    open spec fn spec_int(n: i32) -> i32 {
        n
    }

    open spec fn add_ok(a: i32, b: i32) -> bool {
        i32::MIN <= a + b <= i32::MAX
    }

    open spec fn spec_add(a: i32, b: i32) -> i32 {
        (a + b) as i32
    }

    open spec fn spec_if_bool(c: bool, a: bool, b: bool) -> bool {
        if c {
            a
        } else {
            b
        }
    }

    open spec fn spec_if_stmt(c: bool, a: i32, b: i32) -> i32 {
        if c {
            a
        } else {
            b
        }
    }

    open spec fn spec_ast(t: i32) -> Ast<i32> {
        Ast(t)
    }

    fn bool(b: bool) -> (r: bool) {
        b
    }

    fn integer(n: i32) -> (r: i32) {
        n
    }

    fn add(a: i32, b: i32) -> (r: i32) {
        a + b
    }

    fn if_bool(c: bool, a: bool, b: bool) -> (r: bool) {
        if c {
            a
        } else {
            b
        }
    }

    fn if_stmt(c: bool, a: i32, b: i32) -> (r: i32) {
        if c {
            a
        } else {
            b
        }
    }

    fn ast(t: i32) -> (r: Ast<i32>) {
        Ast(t)
    }
}

/// How `Display` writes a sum of two rendered operands.
pub open spec fn show_add(a: Seq<char>, b: Seq<char>) -> Seq<char> {
    "("@ + a + ") + ("@ + b + ")"@
}

/// How `Display` writes a conditional over rendered parts.
pub open spec fn show_if(c: Seq<char>, a: Seq<char>, b: Seq<char>) -> Seq<char> {
    "if ("@ + c + ") then { "@ + a + " } else { "@ + b + " }"@
}

/// Renders a term as readable source-like text.
pub struct Display;

impl Interp for Display {
    type Bool = String;

    type Int = String;

    type Program = String;

    open spec fn spec_bool(b: bool) -> Seq<char> {
        bool_text(b)
    }

    open spec fn spec_int(n: i32) -> Seq<char> {
        int_text(n as int)
    }

    open spec fn add_ok(a: Seq<char>, b: Seq<char>) -> bool {
        true
    }

    open spec fn spec_add(a: Seq<char>, b: Seq<char>) -> Seq<char> {
        show_add(a, b)
    }

    open spec fn spec_if_bool(c: Seq<char>, a: Seq<char>, b: Seq<char>) -> Seq<char> {
        show_if(c, a, b)
    }

    open spec fn spec_if_stmt(c: Seq<char>, a: Seq<char>, b: Seq<char>) -> Seq<char> {
        show_if(c, a, b)
    }

    open spec fn spec_ast(t: Seq<char>) -> Seq<char> {
        t
    }

    fn bool(b: bool) -> (r: String) {
        bool_to_text(b)
    }

    fn integer(n: i32) -> (r: String) {
        int_to_text(n)
    }

    fn add(a: String, b: String) -> (r: String) {
        let mut r = String::from_str("(");
        r.append(a.as_str());
        r.append(") + (");
        r.append(b.as_str());
        r.append(")");
        r
    }

    fn if_bool(c: String, a: String, b: String) -> (r: String) {
        show_conditional(c, a, b)
    }

    fn if_stmt(c: String, a: String, b: String) -> (r: String) {
        show_conditional(c, a, b)
    }

    fn ast(t: String) -> (r: String) {
        t
    }
}

fn show_conditional(c: String, a: String, b: String) -> (r: String)
    ensures
        r@ == show_if(c@, a@, b@),
{
    let mut r = String::from_str("if (");
    r.append(c.as_str());
    r.append(") then { ");
    r.append(a.as_str());
    r.append(" } else { ");
    r.append(b.as_str());
    r.append(" }");
    r
}

} // verus!

verus! {

/// What the sample program
/// `if (if false then false else true) then 10 + 1 else -1`
/// becomes under backend `I`.
pub open spec fn sample<I: Interp>() -> <I::Program as View>::V {
    I::spec_ast(
        I::spec_if_stmt(
            I::spec_if_bool(I::spec_bool(false), I::spec_bool(false), I::spec_bool(true)),
            I::spec_add(I::spec_int(10), I::spec_int(1)),
            I::spec_int(-1 as i32),
        ),
    )
}

/// Builds the sample program once, for any backend.
pub fn tagless_ast<I: Interp>() -> (r: I::Program)
    requires
        I::add_ok(I::spec_int(10), I::spec_int(1)),
    ensures
        r@ == sample::<I>(),
{
    I::ast(
        I::if_stmt(
            I::if_bool(I::bool(false), I::bool(false), I::bool(true)),
            I::add(I::integer(10), I::integer(1)),
            I::integer(-1),
        ),
    )
}

} // verus!
