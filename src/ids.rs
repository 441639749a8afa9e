use vstd::prelude::*;
use vstd::string::*;

verus! {

/// The character of a decimal digit.
pub open spec fn digit_char(d: nat) -> char {
    if d == 0 {
        '0'
    } else if d == 1 {
        '1'
    } else if d == 2 {
        '2'
    } else if d == 3 {
        '3'
    } else if d == 4 {
        '4'
    } else if d == 5 {
        '5'
    } else if d == 6 {
        '6'
    } else if d == 7 {
        '7'
    } else if d == 8 {
        '8'
    } else {
        '9'
    }
}

/// The decimal notation of `n`, without leading zeros.
pub open spec fn decimal(n: nat) -> Seq<char>
    decreases n,
{
    if n < 10 {
        seq![digit_char(n)]
    } else {
        decimal(n / 10).push(digit_char(n % 10))
    }
}

/// The id that a node named `node` hands out for counter value `n`:
/// `<node>-<n>`.
pub open spec fn generated_id(node: Seq<char>, n: nat) -> Seq<char> {
    node + seq!['-'] + decimal(n)
}

proof fn lemma_digit_char_injective(a: nat, b: nat)
    requires
        a < 10,
        b < 10,
        digit_char(a) == digit_char(b),
    ensures
        a == b,
{
}

proof fn lemma_decimal_shape(n: nat)
    ensures
        decimal(n).len() >= 1,
        decimal(n).len() == 1 <==> n < 10,
        forall|i: int| 0 <= i < decimal(n).len() ==> decimal(n)[i] != '-',
    decreases n,
{
    if n >= 10 {
        lemma_decimal_shape(n / 10);
    }
}

/// Distinct numbers have distinct decimal notations.
pub proof fn lemma_decimal_injective(a: nat, b: nat)
    requires
        decimal(a) == decimal(b),
    ensures
        a == b,
    decreases a,
{
    lemma_decimal_shape(a);
    lemma_decimal_shape(b);
    if a < 10 && b < 10 {
        assert(decimal(a)[0] == digit_char(a));
        assert(decimal(b)[0] == digit_char(b));
        lemma_digit_char_injective(a, b);
    } else if a >= 10 && b >= 10 {
        let da = decimal(a);
        let db = decimal(b);
        assert(da.last() == digit_char(a % 10));
        assert(db.last() == digit_char(b % 10));
        lemma_digit_char_injective(a % 10, b % 10);
        assert(da.drop_last() =~= decimal(a / 10));
        assert(db.drop_last() =~= decimal(b / 10));
        lemma_decimal_injective(a / 10, b / 10);
        assert(a == 10 * (a / 10) + a % 10) by (nonlinear_arith);
        assert(b == 10 * (b / 10) + b % 10) by (nonlinear_arith);
    }
}

/// Generated ids never collide: two ids are equal only when both the node
/// name and the counter value are equal. This holds for ids of one node and
/// across nodes alike.
pub proof fn lemma_generated_ids_unique(a: Seq<char>, n: nat, b: Seq<char>, m: nat)
    requires
        a != b || n != m,
    ensures
        generated_id(a, n) != generated_id(b, m),
{
    if generated_id(a, n) == generated_id(b, m) {
        let s = generated_id(a, n);
        let da = decimal(n);
        let db = decimal(m);
        lemma_decimal_shape(n);
        lemma_decimal_shape(m);
        if da.len() < db.len() {
            let k = s.len() - da.len() - 1;
            assert(s[k] == '-');
            assert(s[k] == db[k - (b.len() + 1)]);
        } else if db.len() < da.len() {
            let k = s.len() - db.len() - 1;
            assert(s[k] == '-');
            assert(s[k] == da[k - (a.len() + 1)]);
        } else {
            assert(a.len() == b.len());
            assert(a =~= s.subrange(0, a.len() as int));
            assert(b =~= s.subrange(0, b.len() as int));
            assert(da =~= s.subrange(a.len() as int + 1, s.len() as int));
            assert(db =~= s.subrange(b.len() as int + 1, s.len() as int));
            lemma_decimal_injective(n, m);
        }
    }
}

fn digit_str(d: u64) -> (r: &'static str)
    requires
        d < 10,
    ensures
        r@ == seq![digit_char(d as nat)],
{
    if d == 0 {
        proof { reveal_strlit("0"); }
        "0"
    } else if d == 1 {
        proof { reveal_strlit("1"); }
        "1"
    } else if d == 2 {
        proof { reveal_strlit("2"); }
        "2"
    } else if d == 3 {
        proof { reveal_strlit("3"); }
        "3"
    } else if d == 4 {
        proof { reveal_strlit("4"); }
        "4"
    } else if d == 5 {
        proof { reveal_strlit("5"); }
        "5"
    } else if d == 6 {
        proof { reveal_strlit("6"); }
        "6"
    } else if d == 7 {
        proof { reveal_strlit("7"); }
        "7"
    } else if d == 8 {
        proof { reveal_strlit("8"); }
        "8"
    } else {
        proof { reveal_strlit("9"); }
        "9"
    }
}

/// Writes `n` in decimal.
pub fn decimal_string(n: u64) -> (r: String)
    ensures
        r@ == decimal(n as nat),
    decreases n,
{
    if n < 10 {
        String::from_str(digit_str(n))
    } else {
        let mut s = decimal_string(n / 10);
        s.append(digit_str(n % 10));
        s
    }
}

/// The id `<node>-<n>`.
pub fn make_id(node: &String, n: u64) -> (r: String)
    ensures
        r@ == generated_id(node@, n as nat),
{
    let mut s = node.clone();
    proof { reveal_strlit("-"); }
    s.append("-");
    let d = decimal_string(n);
    s.append(d.as_str());
    s
}

} // verus!
