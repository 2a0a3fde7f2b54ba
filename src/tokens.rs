//! Token trees of annotation arguments, as the host lexer hands them over, and
//! the grammars that the annotations follow.
use vstd::prelude::*;

use crate::text::spelled;

verus! {

/// One token tree of an annotation's argument list.
#[derive(Debug)]
pub enum Token {
    Ident(String),
    Punct(char),
    Literal(String),
    Group(Vec<Token>),
}

pub enum TokenView {
    Ident(Seq<char>),
    Punct(char),
    Literal(Seq<char>),
    Group(Seq<TokenView>),
}

impl View for Token {
    type V = TokenView;

    open spec fn view(&self) -> TokenView
        decreases self,
    {
        match self {
            Token::Ident(s) => TokenView::Ident(s@),
            Token::Punct(c) => TokenView::Punct(*c),
            Token::Literal(s) => TokenView::Literal(s@),
            Token::Group(ts) => TokenView::Group(
                Seq::new(
                    ts.len() as nat,
                    |i: int|
                        if 0 <= i < ts.len() {
                            ts[i].view()
                        } else {
                            TokenView::Punct(' ')
                        },
                ),
            ),
        }
    }
}

pub open spec fn token_views(ts: Seq<Token>) -> Seq<TokenView> {
    ts.map_values(|t: Token| t@)
}

/// The grammar of a symbol list: identifiers separated by commas, with an
/// optional trailing comma, or nothing at all.
pub open spec fn is_symbol_list(ts: Seq<TokenView>) -> bool {
    forall|i: int|
        0 <= i < ts.len() ==> if i % 2 == 0 {
            ts[i] is Ident
        } else {
            ts[i] == TokenView::Punct(',')
        }
}

/// The identifiers of a symbol list, in order.
pub open spec fn symbols_of(ts: Seq<TokenView>) -> Seq<Seq<char>> {
    Seq::new(((ts.len() + 1) / 2) as nat, |j: int| ts[2 * j]->Ident_0)
}

/// Parses a symbol list; `None` where the tokens do not follow its grammar.
pub fn parse_symbol_list(ts: &Vec<Token>) -> (r: Option<Vec<String>>)
    ensures
        r is Some <==> is_symbol_list(token_views(ts@)),
        r is Some ==> spelled(r->Some_0@) == symbols_of(token_views(ts@)),
{
    let ghost tv = token_views(ts@);
    let mut out: Vec<String> = Vec::new();
    let mut i: usize = 0;
    while i < ts.len()
        invariant
            tv == token_views(ts@),
            i <= ts.len(),
            forall|j: int| 0 <= j < i ==> if j % 2 == 0 {
                tv[j] is Ident
            } else {
                tv[j] == TokenView::Punct(',')
            },
            out@.len() == (i + 1) / 2,
            forall|j: int| 0 <= j < out@.len() ==> out@[j]@ == tv[2 * j]->Ident_0,
        decreases ts.len() - i,
    {
        assert(tv[i as int] == ts@[i as int]@);
        if i % 2 == 0 {
            match &ts[i] {
                Token::Ident(s) => {
                    out.push(s.clone());
                },
                _ => {
                    return None;
                },
            }
        } else {
            match &ts[i] {
                Token::Punct(c) => {
                    if *c != ',' {
                        return None;
                    }
                },
                _ => {
                    return None;
                },
            }
        }
        i = i + 1;
    }
    proof {
        assert(spelled(out@) =~= symbols_of(tv));
    }
    Some(out)
}

/// Whether an identifier is a free placeholder: a name of exactly one character.
pub fn is_single_letter(ident: &str) -> (r: bool)
    ensures
        r == (ident@.len() == 1),
{
    ident.unicode_len() == 1
}

pub open spec fn is_digit(c: char) -> bool {
    '0' <= c && c <= '9'
}

pub open spec fn is_decimal(s: Seq<char>) -> bool {
    s.len() > 0 && forall|i: int| 0 <= i < s.len() ==> is_digit(s[i])
}

/// The value of a string of decimal digits.
pub open spec fn decimal_value(s: Seq<char>) -> nat
    decreases s.len(),
{
    if s.len() == 0 {
        0
    } else {
        decimal_value(s.drop_last()) * 10 + (s.last() as nat - '0' as nat) as nat
    }
}

/// Reads an integer literal written in decimal digits; `None` where the text
/// holds anything else or the value does not fit a `usize`.
pub fn parse_decimal(s: &str) -> (r: Option<usize>)
    ensures
        r is Some <==> is_decimal(s@) && decimal_value(s@) <= usize::MAX,
        r is Some ==> r->Some_0 == decimal_value(s@),
{
    let n = s.unicode_len();
    if n == 0 {
        return None;
    }
    let mut v: usize = 0;
    let mut i: usize = 0;
    while i < n
        invariant
            n == s@.len(),
            i <= n,
            forall|j: int| 0 <= j < i ==> is_digit(s@[j]),
            v == decimal_value(s@.take(i as int)),
        decreases n - i,
    {
        let c = s.get_char(i);
        proof {
            assert(s@.take(i + 1).drop_last() =~= s@.take(i as int));
        }
        if !('0' <= c && c <= '9') {
            return None;
        }
        let d = (c as u32 - '0' as u32) as usize;
        match v.checked_mul(10) {
            Some(m) => match m.checked_add(d) {
                Some(w) => {
                    v = w;
                },
                None => {
                    proof {
                        if forall|j: int| 0 <= j < s@.len() ==> is_digit(s@[j]) {
                            lemma_decimal_prefix_bound(s@, i as int + 1);
                        }
                    }
                    return None;
                },
            },
            None => {
                proof {
                    if forall|j: int| 0 <= j < s@.len() ==> is_digit(s@[j]) {
                        lemma_decimal_prefix_bound(s@, i as int + 1);
                    }
                }
                return None;
            },
        }
        i = i + 1;
    }
    proof {
        assert(s@.take(n as int) =~= s@);
    }
    Some(v)
}

/// A decimal string is worth at least as much as any of its prefixes.
proof fn lemma_decimal_prefix_bound(s: Seq<char>, k: int)
    requires
        0 <= k <= s.len(),
        forall|j: int| 0 <= j < s.len() ==> is_digit(s[j]),
    ensures
        decimal_value(s.take(k)) <= decimal_value(s),
    decreases s.len(),
{
    if k < s.len() {
        assert(s.drop_last().take(k) =~= s.take(k));
        lemma_decimal_prefix_bound(s.drop_last(), k);
        assert(decimal_value(s.drop_last()) <= decimal_value(s));
    } else {
        assert(s.take(k) =~= s);
    }
}

} // verus!
