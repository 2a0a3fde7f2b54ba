//! The tracked type's own declaration: reading its slot configuration, and
//! emitting the struct with one state parameter per slot and the hidden
//! state field.
use vstd::prelude::*;

use crate::error::{ErrorView, ExpandError};
use crate::expand::{angle, where_text, TrackedType, TrackedView};
use crate::registry::{boundary, build_registry, marker, registry_of, registry_text, render_registry, NAME_LIMIT};
use crate::text::{
    concat, copy_strings, decimal_text, join, join_strings, render_coded, render_decimal, same_text,
    spelled,
};
use crate::tokens::{
    is_decimal, decimal_value, is_symbol_list, parse_decimal, parse_symbol_list, symbols_of,
    token_views, Token, TokenView,
};

verus! {

/// The slot configuration of a tracked type: the states it declares, where
/// the annotation lists them, and the default state of each slot.
#[derive(Debug)]
pub struct SlotConfig {
    pub states: Option<Vec<String>>,
    pub defaults: Vec<String>,
}

pub open spec fn punct_is(t: TokenView, c: char) -> bool {
    t == TokenView::Punct(c)
}

/// `state_slots = <k>, default_state = <State>`: `k` slots, each starting in `State`.
pub open spec fn is_count_form(ts: Seq<TokenView>) -> bool {
    &&& ts.len() == 7
    &&& ts[0] == TokenView::Ident("state_slots"@)
    &&& punct_is(ts[1], '=')
    &&& ts[2] is Literal
    &&& is_decimal(ts[2]->Literal_0)
    &&& 1 <= decimal_value(ts[2]->Literal_0) <= usize::MAX
    &&& punct_is(ts[3], ',')
    &&& ts[4] == TokenView::Ident("default_state"@)
    &&& punct_is(ts[5], '=')
    &&& ts[6] is Ident
}

/// `states = (<State>, ..), slots = (<State>, ..)`: the states the type
/// declares, and the default state of each of at least one slot.
pub open spec fn is_list_form(ts: Seq<TokenView>) -> bool {
    &&& ts.len() == 7
    &&& ts[0] == TokenView::Ident("states"@)
    &&& punct_is(ts[1], '=')
    &&& ts[2] is Group
    &&& is_symbol_list(ts[2]->Group_0)
    &&& punct_is(ts[3], ',')
    &&& ts[4] == TokenView::Ident("slots"@)
    &&& punct_is(ts[5], '=')
    &&& ts[6] is Group
    &&& is_symbol_list(ts[6]->Group_0)
    &&& symbols_of(ts[6]->Group_0).len() >= 1
}

/// The configuration that the arguments of `type_state` give, if they follow
/// one of its two forms.
pub open spec fn slot_config(ts: Seq<TokenView>) -> Option<(Option<Seq<Seq<char>>>, Seq<Seq<char>>)> {
    if is_count_form(ts) {
        Some((None, Seq::new(decimal_value(ts[2]->Literal_0), |i: int| ts[6]->Ident_0)))
    } else if is_list_form(ts) {
        Some((Some(symbols_of(ts[2]->Group_0)), symbols_of(ts[6]->Group_0)))
    } else {
        None
    }
}

fn is_ident(t: &Token, w: &str) -> (r: bool)
    ensures
        r == (t@ == TokenView::Ident(w@)),
{
    match t {
        Token::Ident(s) => same_text(s.as_str(), w),
        _ => false,
    }
}

fn is_punct(t: &Token, c: char) -> (r: bool)
    ensures
        r == punct_is(t@, c),
{
    match t {
        Token::Punct(d) => *d == c,
        _ => false,
    }
}

/// The identifiers of a parenthesised group that holds a symbol list;
/// `None` for any other token.
pub fn extract_idents_from_group(t: &Token) -> (r: Option<Vec<String>>)
    ensures
        r is Some <==> (t@ is Group && is_symbol_list(t@->Group_0)),
        r is Some ==> spelled(r->Some_0@) == symbols_of(t@->Group_0),
{
    match t {
        Token::Group(g) => {
            reveal_with_fuel(<Token as View>::view, 2);
            assert(t@->Group_0.len() == g.len());
            assert forall|i: int| 0 <= i < g.len() implies token_views(g@)[i] == t@->Group_0[i] by {
                assert(t@->Group_0[i] == g[i]@);
            }
            assert(token_views(g@) =~= t@->Group_0);
            parse_symbol_list(g)
        },
        _ => None,
    }
}

/// Reads the arguments of the `type_state` annotation on the type called
/// `owner`, in either of its forms.
pub fn parse_type_state_args(ts: &Vec<Token>, owner: &str) -> (r: Result<SlotConfig, ExpandError>)
    ensures
        match r {
            Ok(c) => slot_config(token_views(ts@)) == Some(
                (
                    match c.states {
                        Some(s) => Some(spelled(s@)),
                        None => None,
                    },
                    spelled(c.defaults@),
                ),
            ),
            Err(e) => slot_config(token_views(ts@)) is None && e@ == ErrorView::MalformedAnnotation(
                "type_state"@,
                owner@,
            ),
        },
{
    let ghost tv = token_views(ts@);
    proof {
        reveal_strlit("state_slots");
        reveal_strlit("states");
        assert("state_slots"@.len() == 11);
        assert("states"@.len() == 6);
    }
    let malformed = ExpandError::MalformedAnnotation {
        annotation: "type_state".to_owned(),
        declaration: owner.to_owned(),
    };
    if ts.len() != 7 || !is_punct(&ts[1], '=') || !is_punct(&ts[3], ',') || !is_punct(&ts[5], '=') {
        return Err(malformed);
    }
    assert(tv[0] == ts@[0]@ && tv[2] == ts@[2]@ && tv[4] == ts@[4]@ && tv[6] == ts@[6]@);
    if is_ident(&ts[0], "state_slots") && is_ident(&ts[4], "default_state") {
        let count = match &ts[2] {
            Token::Literal(l) => parse_decimal(l.as_str()),
            _ => None,
        };
        let default = match &ts[6] {
            Token::Ident(d) => d,
            _ => {
                return Err(malformed);
            },
        };
        match count {
            Some(k) => {
                if k == 0 {
                    return Err(malformed);
                }
                let mut defaults: Vec<String> = Vec::new();
                let mut i: usize = 0;
                while i < k
                    invariant
                        i <= k,
                        defaults@.len() == i,
                        forall|j: int| 0 <= j < i ==> defaults@[j]@ == default@,
                    decreases k - i,
                {
                    defaults.push(default.clone());
                    i = i + 1;
                }
                proof {
                    assert(spelled(defaults@) =~= slot_config(tv)->Some_0.1);
                }
                return Ok(SlotConfig { states: None, defaults });
            },
            None => {
                return Err(malformed);
            },
        }
    }
    if is_ident(&ts[0], "states") && is_ident(&ts[4], "slots") {
        let states = extract_idents_from_group(&ts[2]);
        let defaults = extract_idents_from_group(&ts[6]);
        match (states, defaults) {
            (Some(s), Some(d)) => {
                if d.len() == 0 {
                    return Err(malformed);
                }
                return Ok(SlotConfig { states: Some(s), defaults: d });
            },
            _ => {
                return Err(malformed);
            },
        }
    }
    Err(malformed)
}

/// The state parameter of slot `i` (counted from zero) of the type called `owner`.
pub open spec fn state_param(owner: Seq<char>, i: nat) -> Seq<char> {
    owner + "State"@ + decimal_text(i + 1)
}

/// The source text of the tracked type's struct: its own parameters followed
/// by one state parameter per slot, defaulting to that slot's default marker
/// and bounded by the capability boundary; its fields; and the hidden state
/// field.
pub open spec fn struct_text(t: TrackedView, vis: Seq<char>, attrs: Seq<Seq<char>>, fields: Seq<Seq<char>>) -> Seq<char> {
    let k = t.defaults.len();
    let params = Seq::new(k, |i: int| state_param(t.name, i as nat) + " = "@ + marker(t.name, t.defaults[i]));
    let preds = Seq::new(k, |i: int| state_param(t.name, i as nat) + ": "@ + boundary(t.name));
    let phantoms = Seq::new(k, |i: int| "::core::marker::PhantomData<fn() -> "@ + state_param(t.name, i as nat) + ">"@);
    join(attrs.map_values(|a: Seq<char>| a + " "@), Seq::empty()) + "#[allow(clippy::type_complexity)] "@
        + vis + "struct "@ + t.name + angle(t.params + params) + where_text(t.where_preds + preds)
        + " { "@ + join(fields.map_values(|f: Seq<char>| f + ", "@), Seq::empty()) + "_state: ("@
        + join(phantoms, ", "@) + "), }"@
}

fn suffixed(v: &Vec<String>, suffix: &str) -> (r: Vec<String>)
    ensures
        spelled(r@) == spelled(v@).map_values(|a: Seq<char>| a + suffix@),
{
    let mut r: Vec<String> = Vec::new();
    let mut i: usize = 0;
    while i < v.len()
        invariant
            i <= v.len(),
            r@.len() == i,
            forall|j: int| 0 <= j < i ==> r@[j]@ == v@[j]@ + suffix@,
        decreases v.len() - i,
    {
        r.push(concat(v[i].as_str(), suffix));
        i = i + 1;
    }
    assert(spelled(r@) =~= spelled(v@).map_values(|a: Seq<char>| a + suffix@));
    r
}

/// Renders the declaration of the tracked type `t`; `vis`, `attrs` and
/// `fields` are its visibility, its other annotations and its named fields as
/// written.
pub fn render_tracked_struct(t: &TrackedType, vis: &str, attrs: &Vec<String>, fields: &Vec<String>) -> (r: String)
    ensures
        r@ == struct_text(t@, vis@, spelled(attrs@), spelled(fields@)),
{
    let k = t.defaults.len();
    let mut params = copy_strings(&t.params);
    let mut preds = copy_strings(&t.where_preds);
    let mut phantoms: Vec<String> = Vec::new();
    let bound = concat("Sealer", t.name.as_str());
    let ghost p0 = spelled(params@);
    let ghost w0 = spelled(preds@);
    let mut i: usize = 0;
    while i < k
        invariant
            k == t.defaults@.len(),
            bound@ == boundary(t.name@),
            i <= k,
            params@.len() == p0.len() + i,
            preds@.len() == w0.len() + i,
            phantoms@.len() == i,
            forall|j: int| 0 <= j < p0.len() ==> params@[j]@ == p0[j],
            forall|j: int| 0 <= j < w0.len() ==> preds@[j]@ == w0[j],
            forall|j: int| 0 <= j < i ==> params@[p0.len() + j]@ == state_param(t.name@, j as nat) + " = "@ + marker(t.name@, t.defaults@[j]@),
            forall|j: int| w0.len() <= j < w0.len() + i ==> #[trigger] preds@[j]@ == state_param(t.name@, (j - w0.len()) as nat) + ": "@ + boundary(t.name@),
            forall|j: int| 0 <= j < i ==> phantoms@[j]@ == "::core::marker::PhantomData<fn() -> "@ + state_param(t.name@, j as nat) + ">"@,
        decreases k - i,
    {
        let mut sp = concat(t.name.as_str(), "State");
        sp.append(render_decimal(i + 1).as_str());
        let mut p = sp.clone();
        p.append(" = ");
        p.append(render_coded(t.name.as_str(), t.defaults[i].as_str()).as_str());
        params.push(p);
        let mut w = sp.clone();
        w.append(": ");
        w.append(bound.as_str());
        preds.push(w);
        let mut f = "::core::marker::PhantomData<fn() -> ".to_owned();
        f.append(sp.as_str());
        f.append(">");
        phantoms.push(f);
        i = i + 1;
    }
    let ghost tv = t@;
    proof {
        let sparams = Seq::new(k as nat, |i: int| state_param(tv.name, i as nat) + " = "@ + marker(tv.name, tv.defaults[i]));
        let spreds = Seq::new(k as nat, |i: int| state_param(tv.name, i as nat) + ": "@ + boundary(tv.name));
        let sph = Seq::new(k as nat, |i: int| "::core::marker::PhantomData<fn() -> "@ + state_param(tv.name, i as nat) + ">"@);
        assert(spelled(params@) =~= tv.params + sparams);
        assert forall|j: int| 0 <= j < preds@.len() implies spelled(preds@)[j] == (tv.where_preds + spreds)[j] by {
            if j >= w0.len() {
                assert(preds@[j]@ == state_param(tv.name, (j - w0.len()) as nat) + ": "@ + boundary(tv.name));
            }
        }
        assert(spelled(preds@) =~= tv.where_preds + spreds);
        assert(spelled(phantoms@) =~= sph);
        reveal_strlit("");
        assert(""@ =~= Seq::<char>::empty());
    }
    let mut r = join_strings(&suffixed(attrs, " "), "");
    r.append("#[allow(clippy::type_complexity)] ");
    r.append(vis);
    r.append("struct ");
    r.append(t.name.as_str());
    r.append(crate::expand::angle_text(&params).as_str());
    r.append(crate::expand::where_clause_text(&preds).as_str());
    r.append(" { ");
    r.append(join_strings(&suffixed(fields, ", "), "").as_str());
    r.append("_state: (");
    r.append(join_strings(&phantoms, ", ").as_str());
    r.append("), }");
    r
}

/// The declarations that `type_state` emits for `t`: the registry of the
/// states it declares, then its struct.
pub fn type_state_inner(t: &TrackedType, vis: &str, attrs: &Vec<String>, fields: &Vec<String>) -> (r: String)
    requires
        t.name@.len() <= NAME_LIMIT,
    ensures
        r@ == registry_text(registry_of(t.name@, spelled(t.states@))) + "\n"@ + struct_text(
            t@,
            vis@,
            spelled(attrs@),
            spelled(fields@),
        ),
{
    let mut r = render_registry(&build_registry(t.name.as_str(), &t.states));
    r.append("\n");
    r.append(render_tracked_struct(t, vis, attrs, fields).as_str());
    r
}

} // verus!
