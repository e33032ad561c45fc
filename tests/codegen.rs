use std::collections::HashSet;

use tagless::codegen::{CCodegen, Emit};
use tagless::expr::{tagless_ast, Interp};

const SAMPLE_PROGRAM: &str = "#include <stdbool.h>\n#include <stdio.h>\nint main() {\n\
bool bukbsb = false;\nint af;\nif (bukbsb) {\nbool dgewiqht = false;\naf = dgewiqht;\n\
} else {\nbool iueshzicgsrx = true;\naf = iueshzicgsrx;\n}\nint b;\nif (af) {\n\
int xfd = 10;\nint dohgr = 1;\nint dx = xfd + dohgr;\nb = dx;\n} else {\nint bzt = -1;\n\
b = bzt;\n}\nprintf(\"%d\\n\", b);\nreturn 0;\n}";

/// The names of all variables that the statements declare.
fn declared(code: &str) -> Vec<String> {
    let mut names = Vec::new();
    for line in code.lines().filter(|l| l.ends_with(';')) {
        for ty in ["bool ", "int "] {
            if let Some(rest) = line.strip_prefix(ty) {
                let name: String = rest.chars().take_while(|c| c.is_ascii_lowercase()).collect();
                names.push(name);
            }
        }
    }
    names
}

#[test]
fn sample_program_at_two() {
    let (code, ident) = tagless_ast::<CCodegen>().call(2);
    assert_eq!(code, SAMPLE_PROGRAM);
    assert_eq!(ident, "");
}

#[test]
fn sample_program_names_are_distinct() {
    let (code, _) = tagless_ast::<CCodegen>().call(2);
    let names = declared(&code);
    assert_eq!(names.len(), 9);
    let set: HashSet<_> = names.iter().collect();
    assert_eq!(set.len(), names.len());
}

#[test]
fn leaf_at_two() {
    assert_eq!(CCodegen::integer(7).call(2), ("int b = 7;\n".to_string(), "b".to_string()));
    assert_eq!(
        CCodegen::bool(false).call(27),
        ("bool aa = false;\n".to_string(), "aa".to_string())
    );
}

#[test]
fn add_uses_square_and_cube() {
    let e = CCodegen::add(CCodegen::integer(1), CCodegen::integer(2));
    assert_eq!(
        e.call(2),
        ("int d = 1;\nint h = 2;\nint b = d + h;\n".to_string(), "b".to_string())
    );
}

#[test]
fn if_emits_both_branches() {
    let e = CCodegen::if_stmt(CCodegen::bool(true), CCodegen::integer(1), CCodegen::integer(2));
    assert_eq!(
        e.call(2).0,
        "bool af = true;\nint b;\nif (af) {\nint dx = 1;\nb = dx;\n} else {\nint bzt = 2;\nb = bzt;\n}\n"
    );
}

#[test]
fn equal_exponent_products_clash() {
    let e = CCodegen::add(
        CCodegen::add(CCodegen::integer(1), CCodegen::integer(2)),
        CCodegen::add(CCodegen::integer(3), CCodegen::integer(4)),
    );
    let (code, _) = e.call(2);
    assert_eq!(
        code,
        "int p = 1;\nint bl = 2;\nint d = p + bl;\nint bl = 3;\nint sr = 4;\nint h = bl + sr;\nint b = d + h;\n"
    );
    let names = declared(&code);
    let set: HashSet<_> = names.iter().collect();
    assert!(set.len() < names.len());
}

#[test]
fn index_one_clashes() {
    let e = CCodegen::add(CCodegen::integer(1), CCodegen::integer(2));
    assert_eq!(e.call(1).0, "int a = 1;\nint a = 2;\nint a = a + a;\n");
}

#[test]
fn overflowing_indices_are_refused() {
    let e = tagless_ast::<CCodegen>();
    assert!(e.fits_at(2));
    assert!(e.try_call(2).is_some());
    assert!(!e.fits_at(3));
    assert!(e.try_call(3).is_none());
    let leaf = CCodegen::integer(5);
    assert!(leaf.fits_at(usize::MAX));
    assert!(matches!(leaf.try_call(3), Some(_)));
}

#[test]
fn program_wraps_statements() {
    let p = CCodegen::ast(CCodegen::integer(4));
    assert_eq!(
        p.call(1).0,
        "#include <stdbool.h>\n#include <stdio.h>\nint main() {\nint a = 4;\nprintf(\"%d\\n\", a);\nreturn 0;\n}"
    );
    assert!(matches!(p, Emit::Program(_)));
}
