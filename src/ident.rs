use vstd::prelude::*;

verus! {

/// The letters used as digits, in order: `a` is digit zero.
pub open spec fn letter(d: int) -> char {
    "abcdefghijklmnopqrstuvwxyz"@[d]
}

/// The bijective base-26 numeral of `n`: `1` is `a`, `26` is `z`, `27` is `aa`.
/// Zero has the empty numeral.
pub open spec fn name_of(n: nat) -> Seq<char>
    decreases n,
{
    if n == 0 {
        Seq::empty()
    } else {
        name_of(((n - 1) / 26) as nat).push(letter((n - 1) % 26))
    }
}

/// Only zero has the empty numeral.
pub proof fn lemma_name_of_empty(n: nat)
    ensures
        name_of(n).len() == 0 <==> n == 0,
{
    if n > 0 {
        assert(name_of(n).len() > 0);
    }
}

/// Distinct digits are written with distinct letters.
pub proof fn lemma_letter_injective(x: int, y: int)
    requires
        0 <= x < 26,
        0 <= y < 26,
        letter(x) == letter(y),
    ensures
        x == y,
{
    reveal_strlit("abcdefghijklmnopqrstuvwxyz");
}

/// Distinct numbers have distinct numerals, so identifiers drawn from
/// distinct indices never clash.
pub proof fn lemma_name_of_injective(a: nat, b: nat)
    requires
        name_of(a) == name_of(b),
    ensures
        a == b,
    decreases a,
{
    lemma_name_of_empty(a);
    lemma_name_of_empty(b);
    if a > 0 && b > 0 {
        let pa = ((a - 1) / 26) as nat;
        let pb = ((b - 1) / 26) as nat;
        let na = name_of(a);
        assert(na.drop_last() == name_of(pa));
        assert(name_of(b).drop_last() == name_of(pb));
        assert(na.last() == letter((a - 1) % 26));
        assert(name_of(b).last() == letter((b - 1) % 26));
        lemma_letter_injective((a - 1) % 26, (b - 1) % 26);
        lemma_name_of_injective(pa, pb);
    }
}

/// The identifier for index `number`: its bijective base-26 numeral.
pub fn idx2ident(number: usize) -> (r: String)
    ensures
        r@ == name_of(number as nat),
{
    let alphabet = "abcdefghijklmnopqrstuvwxyz";
    proof {
        reveal_strlit("abcdefghijklmnopqrstuvwxyz");
    }
    let mut result = String::new();
    let mut n: usize = number;
    while n > 0
        invariant
            alphabet@ == "abcdefghijklmnopqrstuvwxyz"@,
            alphabet@.len() == 26,
            name_of(number as nat) == name_of(n as nat) + result@,
        decreases n,
    {
        let m: usize = n - 1;
        let digit: usize = m % 26;
        let mut s = String::from_str(alphabet.substring_char(digit, digit + 1));
        assert(s@ == seq![letter(m as int % 26)]);
        proof {
            assert(name_of(n as nat) == name_of((m / 26) as nat).push(letter(m as int % 26)));
            assert(name_of(number as nat) == name_of((m / 26) as nat) + (s@ + result@));
        }
        s.append(result.as_str());
        result = s;
        n = m / 26;
    }
    result
}

} // verus!
