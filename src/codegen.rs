use vstd::arithmetic::power::{
    lemma1_pow, lemma_pow1, lemma_pow_increases, lemma_pow_multiplies, lemma_pow_strictly_increases, pow,
};
use vstd::prelude::*;

use crate::expr::Interp;
use crate::ident::{idx2ident, lemma_name_of_injective, name_of};
use crate::text::{bool_text, bool_to_text, int_text, int_to_text};

verus! {

/// A deferred piece of C code generation, written out as data: called with
/// an identifier index it yields the statements that compute a term and the
/// name of the variable that holds the result. Each variant is one of the
/// deferred functions that `CCodegen`'s builders hand back, holding what
/// that function captured.
#[derive(Debug)]
pub enum Emit {
    Bool(bool),
    Int(i32),
    Add(Box<Emit>, Box<Emit>),
    IfStmt(Box<Emit>, Box<Emit>, Box<Emit>),
    Program(Box<Emit>),
}

impl View for Emit {
    type V = Emit;

    open spec fn view(&self) -> Emit {
        *self
    }
}

/// `i` to the power `e`, as a natural number.
pub open spec fn index_pow(i: nat, e: nat) -> nat {
    pow(i as int, e) as nat
}

/// The statements and the result variable that a deferred generator emits
/// when called at index `i`. The operands of a sum are generated at `i²`
/// and `i³`; the condition and branches of a conditional at `i⁵`, `i⁷` and
/// `i¹¹`; a program generates its term at `i` itself and names no variable.
pub open spec fn emitted(e: Emit, i: nat) -> (Seq<char>, Seq<char>)
    decreases e,
{
    let id = name_of(i);
    match e {
        Emit::Bool(b) => ("bool "@ + id + " = "@ + bool_text(b) + ";\n"@, id),
        Emit::Int(n) => ("int "@ + id + " = "@ + int_text(n as int) + ";\n"@, id),
        Emit::Add(a, b) => {
            let (ac, an) = emitted(*a, index_pow(i, 2));
            let (bc, bn) = emitted(*b, index_pow(i, 3));
            (ac + bc + "int "@ + id + " = "@ + an + " + "@ + bn + ";\n"@, id)
        },
        Emit::IfStmt(c, a, b) => {
            let (cc, cn) = emitted(*c, index_pow(i, 5));
            let (ac, an) = emitted(*a, index_pow(i, 7));
            let (bc, bn) = emitted(*b, index_pow(i, 11));
            (
                cc + "int "@ + id + ";\nif ("@ + cn + ") {\n"@ + ac + id + " = "@ + an
                    + ";\n} else {\n"@ + bc + id + " = "@ + bn + ";\n}\n"@,
                id,
            )
        },
        Emit::Program(t) => {
            let (tc, tn) = emitted(*t, i);
            (
                "#include <stdbool.h>\n#include <stdio.h>\nint main() {\n"@ + tc
                    + "printf(\"%d\\n\", "@ + tn + ");\nreturn 0;\n}"@,
                Seq::empty(),
            )
        },
    }
}

/// Whether every index that generation at `i` derives fits in a `usize`.
pub open spec fn fits(e: Emit, i: nat) -> bool
    decreases e,
{
    &&& i <= usize::MAX
    &&& match e {
        Emit::Bool(_) => true,
        Emit::Int(_) => true,
        Emit::Add(a, b) => fits(*a, index_pow(i, 2)) && fits(*b, index_pow(i, 3)),
        Emit::IfStmt(c, a, b) => fits(*c, index_pow(i, 5)) && fits(*a, index_pow(i, 7)) && fits(
            *b,
            index_pow(i, 11),
        ),
        Emit::Program(t) => fits(*t, i),
    }
}

/// Powers of a natural number are natural numbers.
pub proof fn lemma_pow_nonneg(b: nat, e: nat)
    ensures
        pow(b as int, e) >= 0,
    decreases e,
{
    reveal(pow);
    if e > 0 {
        lemma_pow_nonneg(b, (e - 1) as nat);
        assert(b * pow(b as int, (e - 1) as nat) >= 0) by (nonlinear_arith)
            requires
                pow(b as int, (e - 1) as nat) >= 0,
        ;
    }
}

/// `base` to the power `e`, or `None` when that exceeds `usize::MAX`.
fn checked_power(base: usize, e: u32) -> (r: Option<usize>)
    ensures
        r == (if index_pow(base as nat, e as nat) <= usize::MAX {
            Some(index_pow(base as nat, e as nat) as usize)
        } else {
            None::<usize>
        }),
{
    let mut acc: usize = 1;
    let mut k: u32 = 0;
    proof {
        reveal(pow);
        lemma_pow_nonneg(base as nat, e as nat);
    }
    while k < e
        invariant
            k <= e,
            acc == pow(base as int, k as nat),
            0 <= pow(base as int, e as nat),
        decreases e - k,
    {
        proof {
            reveal(pow);
            assert(pow(base as int, (k + 1) as nat) == base * pow(base as int, k as nat));
            if base > 0 {
                lemma_pow_increases(base as nat, (k + 1) as nat, e as nat);
            }
            assert(acc * base == pow(base as int, (k + 1) as nat)) by (nonlinear_arith)
                requires
                    acc == pow(base as int, k as nat),
                    pow(base as int, (k + 1) as nat) == base * pow(base as int, k as nat),
            ;
        }
        match acc.checked_mul(base) {
            Some(next) => {
                acc = next;
            },
            None => {
                return None;
            },
        }
        k = k + 1;
    }
    Some(acc)
}

impl Emit {
    /// Whether generation at `i` stays within `usize` indices.
    pub fn fits_at(&self, i: usize) -> (r: bool)
        ensures
            r == fits(*self, i as nat),
        decreases self,
    {
        match self {
            Emit::Bool(_) => true,
            Emit::Int(_) => true,
            Emit::Add(a, b) => match (checked_power(i, 2), checked_power(i, 3)) {
                (Some(j), Some(k)) => a.fits_at(j) && b.fits_at(k),
                _ => {
                    proof {
                        reveal_with_fuel(fits, 2);
                    }
                    false
                },
            },
            Emit::IfStmt(c, a, b) => match (
                checked_power(i, 5),
                checked_power(i, 7),
                checked_power(i, 11),
            ) {
                (Some(j), Some(k), Some(l)) => c.fits_at(j) && a.fits_at(k) && b.fits_at(l),
                _ => {
                    proof {
                        reveal_with_fuel(fits, 2);
                    }
                    false
                },
            },
            Emit::Program(t) => t.fits_at(i),
        }
    }

    /// Generates the code at index `i`, or `None` when some derived index
    /// would exceed `usize::MAX`.
    pub fn try_call(&self, i: usize) -> (r: Option<(String, String)>)
        ensures
            r is Some <==> fits(*self, i as nat),
            r matches Some(out) ==> (out.0@, out.1@) == emitted(*self, i as nat),
    {
        if self.fits_at(i) {
            Some(self.call(i))
        } else {
            None
        }
    }

    /// Generates the code at index `i`: the statements, then the name of the
    /// variable that holds the result.
    pub fn call(&self, i: usize) -> (r: (String, String))
        requires
            fits(*self, i as nat),
        ensures
            (r.0@, r.1@) == emitted(*self, i as nat),
        decreases self,
    {
        proof {
            reveal_with_fuel(fits, 2);
        }
        match self {
            Emit::Bool(b) => {
                let id = idx2ident(i);
                let mut out = String::from_str("bool ");
                out.append(id.as_str());
                out.append(" = ");
                out.append(bool_to_text(*b).as_str());
                out.append(";\n");
                (out, id)
            },
            Emit::Int(n) => {
                let id = idx2ident(i);
                let mut out = String::from_str("int ");
                out.append(id.as_str());
                out.append(" = ");
                out.append(int_to_text(*n).as_str());
                out.append(";\n");
                (out, id)
            },
            Emit::Add(a, b) => {
                let id = idx2ident(i);
                let (ac, an) = a.call(checked_power(i, 2).unwrap());
                let (bc, bn) = b.call(checked_power(i, 3).unwrap());
                let mut out = ac;
                out.append(bc.as_str());
                out.append("int ");
                out.append(id.as_str());
                out.append(" = ");
                out.append(an.as_str());
                out.append(" + ");
                out.append(bn.as_str());
                out.append(";\n");
                (out, id)
            },
            Emit::IfStmt(c, a, b) => {
                let id = idx2ident(i);
                let (cc, cn) = c.call(checked_power(i, 5).unwrap());
                let (ac, an) = a.call(checked_power(i, 7).unwrap());
                let (bc, bn) = b.call(checked_power(i, 11).unwrap());
                let mut out = cc;
                out.append("int ");
                out.append(id.as_str());
                out.append(";\nif (");
                out.append(cn.as_str());
                out.append(") {\n");
                out.append(ac.as_str());
                out.append(id.as_str());
                out.append(" = ");
                out.append(an.as_str());
                out.append(";\n} else {\n");
                out.append(bc.as_str());
                out.append(id.as_str());
                out.append(" = ");
                out.append(bn.as_str());
                out.append(";\n}\n");
                (out, id)
            },
            Emit::Program(t) => {
                let (tc, tn) = t.call(i);
                let mut out = String::from_str(
                    "#include <stdbool.h>\n#include <stdio.h>\nint main() {\n",
                );
                out.append(tc.as_str());
                out.append("printf(\"%d\\n\", ");
                out.append(tn.as_str());
                out.append(");\nreturn 0;\n}");
                (out, String::new())
            },
        }
    }
}

} // verus!

verus! {

/// Generates C source. A term becomes a deferred generator (`Emit`); calling
/// a program's generator at a positive index yields a complete C program
/// that prints the term's value.
pub struct CCodegen;

impl Interp for CCodegen {
    type Bool = Emit;

    type Int = Emit;

    type Program = Emit;

    open spec fn spec_bool(b: bool) -> Emit {
        Emit::Bool(b)
    }

    open spec fn spec_int(n: i32) -> Emit {
        Emit::Int(n)
    }

    open spec fn add_ok(a: Emit, b: Emit) -> bool {
        true
    }

    open spec fn spec_add(a: Emit, b: Emit) -> Emit {
        Emit::Add(Box::new(a), Box::new(b))
    }

    open spec fn spec_if_bool(c: Emit, a: Emit, b: Emit) -> Emit {
        Emit::IfStmt(Box::new(c), Box::new(a), Box::new(b))
    }

    open spec fn spec_if_stmt(c: Emit, a: Emit, b: Emit) -> Emit {
        Emit::IfStmt(Box::new(c), Box::new(a), Box::new(b))
    }

    open spec fn spec_ast(t: Emit) -> Emit {
        Emit::Program(Box::new(t))
    }

    fn bool(b: bool) -> (r: Emit) {
        Emit::Bool(b)
    }

    fn integer(n: i32) -> (r: Emit) {
        Emit::Int(n)
    }

    fn add(a: Emit, b: Emit) -> (r: Emit) {
        Emit::Add(Box::new(a), Box::new(b))
    }

    fn if_bool(c: Emit, a: Emit, b: Emit) -> (r: Emit) {
        Emit::IfStmt(Box::new(c), Box::new(a), Box::new(b))
    }

    fn if_stmt(c: Emit, a: Emit, b: Emit) -> (r: Emit) {
        Emit::IfStmt(Box::new(c), Box::new(a), Box::new(b))
    }

    fn ast(t: Emit) -> (r: Emit) {
        Emit::Program(Box::new(t))
    }
}

} // verus!

verus! {

/// The index of every variable that generation at `i` declares: one per
/// node, the node's own before those of its parts. A program declares no
/// variable of its own.
pub open spec fn declared_indices(e: Emit, i: nat) -> Seq<nat>
    decreases e,
{
    match e {
        Emit::Bool(_) => seq![i],
        Emit::Int(_) => seq![i],
        Emit::Add(a, b) => seq![i] + declared_indices(*a, index_pow(i, 2)) + declared_indices(
            *b,
            index_pow(i, 3),
        ),
        Emit::IfStmt(c, a, b) => seq![i] + declared_indices(*c, index_pow(i, 5))
            + declared_indices(*a, index_pow(i, 7)) + declared_indices(*b, index_pow(i, 11)),
        Emit::Program(t) => declared_indices(*t, i),
    }
}

/// The names of the variables that generation at `i` declares.
pub open spec fn declared_names(e: Emit, i: nat) -> Seq<Seq<char>> {
    declared_indices(e, i).map_values(|k: nat| name_of(k))
}

/// Every element of `s` multiplied by `k`.
pub open spec fn scaled(s: Seq<nat>, k: nat) -> Seq<nat> {
    s.map_values(|x: nat| k * x)
}

/// For each node, in the order of `declared_indices`, the power to which
/// the starting index is raised to give that node's index: `1` at the
/// root, times `2` or `3` into the operands of a sum, times `5`, `7` or
/// `11` into the parts of a conditional.
pub open spec fn index_exponents(e: Emit) -> Seq<nat>
    decreases e,
{
    match e {
        Emit::Bool(_) => seq![1],
        Emit::Int(_) => seq![1],
        Emit::Add(a, b) => seq![1nat] + scaled(index_exponents(*a), 2) + scaled(
            index_exponents(*b),
            3,
        ),
        Emit::IfStmt(c, a, b) => seq![1nat] + scaled(index_exponents(*c), 5) + scaled(
            index_exponents(*a),
            7,
        ) + scaled(index_exponents(*b), 11),
        Emit::Program(t) => index_exponents(*t),
    }
}

/// Raising `i` to `k` and then to `x` is raising it to `k * x`.
proof fn lemma_index_pow_twice(i: nat, k: nat, x: nat)
    ensures
        index_pow(index_pow(i, k), x) == index_pow(i, k * x),
{
    lemma_pow_nonneg(i, k);
    lemma_pow_multiplies(i as int, k, x);
}

/// The starting index `i` raised to each exponent in `xs`.
pub open spec fn powers_of(i: nat, xs: Seq<nat>) -> Seq<nat> {
    xs.map_values(|x: nat| index_pow(i, x))
}

/// Raising `i` to scaled exponents is raising `i^k` to the unscaled ones.
proof fn lemma_scaled_powers(s: Seq<nat>, i: nat, k: nat)
    ensures
        powers_of(i, scaled(s, k)) == powers_of(index_pow(i, k), s),
{
    let lhs = powers_of(i, scaled(s, k));
    let rhs = powers_of(index_pow(i, k), s);
    assert forall|j: int| 0 <= j < s.len() implies #[trigger] lhs[j] == rhs[j] by {
        lemma_index_pow_twice(i, k, s[j]);
    }
    assert(lhs =~= rhs);
}

/// Each declared index is the starting index raised to the node's exponent.
pub proof fn lemma_declared_indices_are_powers(e: Emit, i: nat)
    ensures
        declared_indices(e, i) == powers_of(i, index_exponents(e)),
    decreases e,
{
    lemma_pow1(i as int);
    match e {
        Emit::Bool(_) => {
            assert(declared_indices(e, i) =~= powers_of(i, index_exponents(e)));
        },
        Emit::Int(_) => {
            assert(declared_indices(e, i) =~= powers_of(i, index_exponents(e)));
        },
        Emit::Add(a, b) => {
            lemma_declared_indices_are_powers(*a, index_pow(i, 2));
            lemma_declared_indices_are_powers(*b, index_pow(i, 3));
            lemma_scaled_powers(index_exponents(*a), i, 2);
            lemma_scaled_powers(index_exponents(*b), i, 3);
            assert(declared_indices(e, i) =~= powers_of(i, index_exponents(e)));
        },
        Emit::IfStmt(c, a, b) => {
            lemma_declared_indices_are_powers(*c, index_pow(i, 5));
            lemma_declared_indices_are_powers(*a, index_pow(i, 7));
            lemma_declared_indices_are_powers(*b, index_pow(i, 11));
            lemma_scaled_powers(index_exponents(*c), i, 5);
            lemma_scaled_powers(index_exponents(*a), i, 7);
            lemma_scaled_powers(index_exponents(*b), i, 11);
            assert(declared_indices(e, i) =~= powers_of(i, index_exponents(e)));
        },
        Emit::Program(t) => {
            lemma_declared_indices_are_powers(*t, i);
        },
    }
}

/// Generated variables never share a name exactly when the nodes' index
/// exponents are pairwise distinct and either the starting index is at
/// least `2` or the term is a single node (at index `1` every power is
/// `1`). Distinct exponents are needed: in `(w + x) + (y + z)` the nodes
/// `x` and `y` both get the sixth power of the starting index.
pub proof fn lemma_declared_names_distinct(e: Emit, i: nat)
    requires
        i >= 1,
    ensures
        declared_names(e, i).no_duplicates() <==> (index_exponents(e).no_duplicates() && (i >= 2
            || index_exponents(e).len() == 1)),
{
    lemma_declared_indices_are_powers(e, i);
    let xs = index_exponents(e);
    let names = declared_names(e, i);
    if xs.no_duplicates() && (i >= 2 || xs.len() == 1) {
        assert forall|p: int, q: int|
            0 <= p < names.len() && 0 <= q < names.len() && p != q implies names[p]
            != names[q] by {
            if names[p] == names[q] {
                lemma_name_of_injective(declared_indices(e, i)[p], declared_indices(e, i)[q]);
                if i >= 2 {
                    if xs[p] < xs[q] {
                        lemma_pow_strictly_increases(i, xs[p], xs[q]);
                    } else {
                        lemma_pow_strictly_increases(i, xs[q], xs[p]);
                    }
                    lemma_pow_nonneg(i, xs[p]);
                    lemma_pow_nonneg(i, xs[q]);
                }
            }
        }
    } else if !xs.no_duplicates() {
        let (p, q) = choose|p: int, q: int|
            0 <= p < xs.len() && 0 <= q < xs.len() && p != q && xs[p] == xs[q];
        assert(names[p] == names[q]);
    } else {
        assert(xs.len() > 1) by {
            assert(xs.len() >= 1) by {
                lemma_exponents_nonempty(e);
            }
        }
        lemma1_pow(xs[0]);
        lemma1_pow(xs[1]);
        assert(names[0] == names[1]);
    }
}

/// Every term has at least one node.
proof fn lemma_exponents_nonempty(e: Emit)
    ensures
        index_exponents(e).len() >= 1,
    decreases e,
{
    if let Emit::Program(t) = e {
        lemma_exponents_nonempty(*t);
    }
}

} // verus!
