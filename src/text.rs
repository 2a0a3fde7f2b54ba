//! Small helpers on identifier lists and rendered text.
use vstd::prelude::*;

verus! {

/// The parts, in order, with `sep` between each two neighbours.
pub open spec fn join(parts: Seq<Seq<char>>, sep: Seq<char>) -> Seq<char>
    decreases parts.len(),
{
    if parts.len() == 0 {
        Seq::empty()
    } else if parts.len() == 1 {
        parts[0]
    } else {
        join(parts.drop_last(), sep) + sep + parts.last()
    }
}

/// What a list of strings spells, one sequence of characters per string.
pub open spec fn spelled(v: Seq<String>) -> Seq<Seq<char>> {
    v.map_values(|s: String| s@)
}

pub fn join_strings(parts: &Vec<String>, sep: &str) -> (r: String)
    ensures
        r@ == join(spelled(parts@), sep@),
{
    let mut acc = String::new();
    let mut i: usize = 0;
    while i < parts.len()
        invariant
            i <= parts.len(),
            acc@ == join(spelled(parts@).take(i as int), sep@),
        decreases parts.len() - i,
    {
        proof {
            assert(spelled(parts@).take(i + 1).drop_last() =~= spelled(parts@).take(i as int));
        }
        if i > 0 {
            acc.append(sep);
        }
        acc.append(parts[i].as_str());
        i = i + 1;
    }
    proof {
        assert(spelled(parts@).take(i as int) =~= spelled(parts@));
    }
    acc
}

pub fn copy_strings(v: &Vec<String>) -> (r: Vec<String>)
    ensures
        spelled(r@) == spelled(v@),
{
    let mut r: Vec<String> = Vec::new();
    let mut i: usize = 0;
    while i < v.len()
        invariant
            i <= v.len(),
            r@.len() == i,
            spelled(r@) =~= spelled(v@).take(i as int),
        decreases v.len() - i,
    {
        let c = v[i].clone();
        r.push(c);
        proof {
            assert(r@[i as int] == v@[i as int]);
            assert(spelled(r@) =~= spelled(v@).take(i + 1));
        }
        i = i + 1;
    }
    proof {
        assert(spelled(v@).take(i as int) =~= spelled(v@));
    }
    r
}

/// Whether `name` is spelled by one of `v`.
pub fn contains_string(v: &Vec<String>, name: &String) -> (r: bool)
    ensures
        r == spelled(v@).contains(name@),
{
    let mut i: usize = 0;
    while i < v.len()
        invariant
            i <= v.len(),
            forall|j: int| 0 <= j < i ==> spelled(v@)[j] != name@,
        decreases v.len() - i,
    {
        if v[i] == *name {
            assert(spelled(v@)[i as int] == name@);
            return true;
        }
        i = i + 1;
    }
    false
}

/// `s` followed by `t`, as a new string.
pub fn concat(s: &str, t: &str) -> (r: String)
    ensures
        r@ == s@ + t@,
{
    let mut r = s.to_owned();
    r.append(t);
    r
}

/// Whether two texts are spelled alike.
pub fn same_text(a: &str, b: &str) -> (r: bool)
    ensures
        r == (a@ == b@),
{
    let n = a.unicode_len();
    if n != b.unicode_len() {
        return false;
    }
    let mut i: usize = 0;
    while i < n
        invariant
            n == a@.len(),
            n == b@.len(),
            i <= n,
            forall|j: int| 0 <= j < i ==> a@[j] == b@[j],
        decreases n - i,
    {
        if a.get_char(i) != b.get_char(i) {
            return false;
        }
        i = i + 1;
    }
    assert(a@ =~= b@);
    true
}

pub open spec fn digit_char(d: nat) -> char {
    if d == 0 {
        '0'
    } else if d == 1 {
        '1'
    } else if d == 2 {
        '2'
    } else if d == 3 {
        '3'
    } else if d == 4 {
        '4'
    } else if d == 5 {
        '5'
    } else if d == 6 {
        '6'
    } else if d == 7 {
        '7'
    } else if d == 8 {
        '8'
    } else {
        '9'
    }
}

/// The decimal digits of `n`.
pub open spec fn decimal_text(n: nat) -> Seq<char>
    decreases n,
{
    if n < 10 {
        seq![digit_char(n)]
    } else {
        decimal_text(n / 10).push(digit_char(n % 10))
    }
}

fn render_digit(d: usize) -> (r: &'static str)
    requires
        d < 10,
    ensures
        r@ == seq![digit_char(d as nat)],
{
    proof {
        reveal_strlit("0");
        reveal_strlit("1");
        reveal_strlit("2");
        reveal_strlit("3");
        reveal_strlit("4");
        reveal_strlit("5");
        reveal_strlit("6");
        reveal_strlit("7");
        reveal_strlit("8");
        reveal_strlit("9");
    }
    if d == 0 {
        "0"
    } else if d == 1 {
        "1"
    } else if d == 2 {
        "2"
    } else if d == 3 {
        "3"
    } else if d == 4 {
        "4"
    } else if d == 5 {
        "5"
    } else if d == 6 {
        "6"
    } else if d == 7 {
        "7"
    } else if d == 8 {
        "8"
    } else {
        "9"
    }
}

/// The decimal digits of `n`.
pub fn render_decimal(n: usize) -> (r: String)
    ensures
        r@ == decimal_text(n as nat),
    decreases n,
{
    if n < 10 {
        render_digit(n).to_owned()
    } else {
        let mut r = render_decimal(n / 10);
        r.append(render_digit(n % 10));
        r
    }
}

/// Decimal digits are never an underscore, and there is at least one.
pub proof fn lemma_decimal_digits(n: nat)
    ensures
        decimal_text(n).len() >= 1,
        forall|i: int| 0 <= i < decimal_text(n).len() ==> decimal_text(n)[i] != '_',
    decreases n,
{
    if n >= 10 {
        lemma_decimal_digits(n / 10);
        assert forall|i: int| 0 <= i < decimal_text(n).len() implies decimal_text(n)[i] != '_' by {
            if i < decimal_text(n / 10).len() {
                assert(decimal_text(n)[i] == decimal_text(n / 10)[i]);
            }
        }
    }
}

proof fn lemma_digit_char_injective(a: nat, b: nat)
    requires
        a < 10,
        b < 10,
        digit_char(a) == digit_char(b),
    ensures
        a == b,
{
}

/// Two numbers with the same decimal digits are equal.
pub proof fn lemma_decimal_injective(m: nat, n: nat)
    requires
        decimal_text(m) == decimal_text(n),
    ensures
        m == n,
    decreases m,
{
    lemma_decimal_digits(m / 10);
    lemma_decimal_digits(n / 10);
    if m >= 10 && n >= 10 {
        assert(decimal_text(m).drop_last() =~= decimal_text(m / 10));
        assert(decimal_text(n).drop_last() =~= decimal_text(n / 10));
        assert(decimal_text(m).last() == digit_char(m % 10));
        assert(decimal_text(n).last() == digit_char(n % 10));
        lemma_decimal_injective(m / 10, n / 10);
        lemma_digit_char_injective(m % 10, n % 10);
        assert(m == 10 * (m / 10) + m % 10);
        assert(n == 10 * (n / 10) + n % 10);
    } else if m < 10 && n < 10 {
        assert(decimal_text(m)[0] == digit_char(m));
        assert(decimal_text(n)[0] == digit_char(n));
        lemma_digit_char_injective(m, n);
    } else if m < 10 && n >= 10 {
        assert(decimal_text(n).len() >= 2);
    } else if m >= 10 && n < 10 {
        assert(decimal_text(m).len() >= 2);
    }
}

/// `x`, then `y`, then an underscore and the length of `x` in decimal digits:
/// a name from which `x` and `y` can be read back.
pub open spec fn coded(x: Seq<char>, y: Seq<char>) -> Seq<char> {
    x + y + seq!['_'] + decimal_text(x.len())
}

/// Different pairs never give the same coded name.
pub proof fn lemma_coded_injective(x1: Seq<char>, y1: Seq<char>, x2: Seq<char>, y2: Seq<char>)
    requires
        coded(x1, y1) == coded(x2, y2),
    ensures
        x1 == x2,
        y1 == y2,
{
    let d1 = decimal_text(x1.len());
    let d2 = decimal_text(x2.len());
    let w = coded(x1, y1);
    let l = w.len() as int;
    lemma_decimal_digits(x1.len());
    lemma_decimal_digits(x2.len());
    assert(w == x1 + y1 + seq!['_'] + d1);
    assert(w == x2 + y2 + seq!['_'] + d2);
    assert(w[l - 1 - d1.len()] == '_');
    assert(w[l - 1 - d2.len()] == '_');
    if d1.len() < d2.len() {
        assert(w[l - 1 - d1.len()] == d2[d2.len() - 1 - d1.len()]);
    }
    if d2.len() < d1.len() {
        assert(w[l - 1 - d2.len()] == d1[d1.len() - 1 - d2.len()]);
    }
    assert(d1.len() == d2.len());
    assert(d1 =~= w.subrange(l - d1.len(), l));
    assert(d2 =~= w.subrange(l - d2.len(), l));
    lemma_decimal_injective(x1.len(), x2.len());
    assert(x1 =~= w.subrange(0, x1.len() as int));
    assert(x2 =~= w.subrange(0, x2.len() as int));
    assert(y1 =~= w.subrange(x1.len() as int, l - 1 - d1.len()));
    assert(y2 =~= w.subrange(x2.len() as int, l - 1 - d2.len()));
}

/// The coded name of `x` and `y`.
pub fn render_coded(x: &str, y: &str) -> (r: String)
    ensures
        r@ == coded(x@, y@),
{
    let mut r = concat(x, y);
    r.append("_");
    r.append(render_decimal(x.unicode_len()).as_str());
    proof {
        reveal_strlit("_");
    }
    r
}

} // verus!
