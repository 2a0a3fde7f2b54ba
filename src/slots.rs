//! What an operation asks of each state slot, and what each slot holds in the
//! self type and in the result of the operation.
use vstd::prelude::*;

use crate::text::{contains_string, copy_strings, spelled};
use crate::tokens::is_single_letter;

verus! {

/// What one slot holds in a generated type: a marker of the tracked type, named
/// by its state, or a placeholder type parameter.
#[derive(Debug)]
pub enum Binding {
    Marker(String),
    Placeholder(String),
}

pub enum BindingView {
    Marker(Seq<char>),
    Placeholder(Seq<char>),
}

impl View for Binding {
    type V = BindingView;

    open spec fn view(&self) -> BindingView {
        match self {
            Binding::Marker(s) => BindingView::Marker(s@),
            Binding::Placeholder(s) => BindingView::Placeholder(s@),
        }
    }
}

pub open spec fn binding_views(v: Seq<Binding>) -> Seq<BindingView> {
    v.map_values(|b: Binding| b@)
}

/// A slot entry of an annotation is free when it is a single character;
/// any longer name pins the slot to that state.
pub open spec fn is_free(entry: Seq<char>) -> bool {
    entry.len() == 1
}

/// The length of the longest name of `names`.
pub open spec fn max_len(names: Seq<Seq<char>>) -> nat
    decreases names.len(),
{
    if names.len() == 0 {
        0
    } else {
        let m = max_len(names.drop_last());
        if names.last().len() > m {
            names.last().len()
        } else {
            m
        }
    }
}

/// The placeholder chosen for a free entry: the entry itself where no name in
/// use spells it, else the entry lengthened with underscores past every name in use.
pub open spec fn fresh_name(entry: Seq<char>, in_use: Seq<Seq<char>>) -> Seq<char> {
    if in_use.contains(entry) {
        entry + Seq::new(max_len(in_use), |i: int| '_')
    } else {
        entry
    }
}

/// The bindings of the self type for a precondition, and the placeholders
/// introduced on the way, in slot order. `params` are the names of the tracked
/// type's own generic parameters.
pub open spec fn resolve(pre: Seq<Seq<char>>, params: Seq<Seq<char>>) -> (
    Seq<BindingView>,
    Seq<Seq<char>>,
)
    decreases pre.len(),
{
    if pre.len() == 0 {
        (Seq::empty(), Seq::empty())
    } else {
        let (b, ph) = resolve(pre.drop_last(), params);
        let e = pre.last();
        if is_free(e) {
            let n = fresh_name(e, params + ph);
            (b.push(BindingView::Placeholder(n)), ph.push(n))
        } else {
            (b.push(BindingView::Marker(e)), ph)
        }
    }
}

/// The binding of slot `i` after the operation: the state the postcondition
/// pins, or, where it passes the slot through (or there is no postcondition),
/// the binding the slot had before.
pub open spec fn output_binding(post: Option<Seq<Seq<char>>>, input: Seq<BindingView>, i: int) -> BindingView {
    match post {
        Some(p) => if is_free(p[i]) {
            input[i]
        } else {
            BindingView::Marker(p[i])
        },
        None => input[i],
    }
}

pub open spec fn outputs(post: Option<Seq<Seq<char>>>, input: Seq<BindingView>) -> Seq<BindingView> {
    Seq::new(input.len(), |i: int| output_binding(post, input, i))
}

proof fn lemma_max_len(names: Seq<Seq<char>>, i: int)
    requires
        0 <= i < names.len(),
    ensures
        names[i].len() <= max_len(names),
    decreases names.len(),
{
    if i < names.len() - 1 {
        lemma_max_len(names.drop_last(), i);
    }
}

/// No name in use spells the placeholder chosen next to them.
pub proof fn lemma_fresh_name(entry: Seq<char>, in_use: Seq<Seq<char>>)
    requires
        entry.len() >= 1,
    ensures
        !in_use.contains(fresh_name(entry, in_use)),
{
    if in_use.contains(entry) {
        let n = fresh_name(entry, in_use);
        assert(n.len() == entry.len() + max_len(in_use));
        if in_use.contains(n) {
            let i = choose|i: int| 0 <= i < in_use.len() && in_use[i] == n;
            lemma_max_len(in_use, i);
        }
    }
}

/// The self type has one binding per precondition entry; pinned entries bind
/// their marker; the placeholders are pairwise distinct and differ from every
/// parameter name.
pub proof fn lemma_resolve(pre: Seq<Seq<char>>, params: Seq<Seq<char>>)
    ensures
        resolve(pre, params).0.len() == pre.len(),
        forall|i: int| 0 <= i < pre.len() && !is_free(pre[i]) ==> resolve(pre, params).0[i] == BindingView::Marker(pre[i]),
        forall|i: int| 0 <= i < pre.len() && is_free(pre[i]) ==> resolve(pre, params).0[i] is Placeholder,
        forall|i: int| 0 <= i < pre.len() && is_free(pre[i]) ==> resolve(pre, params).1.contains(resolve(pre, params).0[i]->Placeholder_0),
        forall|i: int| 0 <= i < resolve(pre, params).1.len() ==> !params.contains(#[trigger] resolve(pre, params).1[i]),
        forall|i: int, j: int| 0 <= i < j < resolve(pre, params).1.len() ==> resolve(pre, params).1[i] != resolve(pre, params).1[j],
    decreases pre.len(),
{
    if pre.len() > 0 {
        lemma_resolve(pre.drop_last(), params);
        let (b, ph) = resolve(pre.drop_last(), params);
        let e = pre.last();
        if is_free(e) {
            let n = fresh_name(e, params + ph);
            lemma_fresh_name(e, params + ph);
            assert forall|i: int| 0 <= i < ph.len() implies ph[i] != n by {
                assert((params + ph)[params.len() + i] == ph[i]);
            }
            assert forall|i: int| 0 <= i < params.len() implies params[i] != n by {
                assert((params + ph)[i] == params[i]);
            }
            let r = resolve(pre, params);
            assert forall|i: int| 0 <= i < pre.len() && is_free(pre[i]) implies r.1.contains(r.0[i]->Placeholder_0) by {
                if i < pre.len() - 1 {
                    let k = choose|k: int| 0 <= k < ph.len() && ph[k] == b[i]->Placeholder_0;
                    assert(r.1[k] == ph[k]);
                } else {
                    assert(r.1[ph.len() as int] == n);
                }
            }
        } else {
            let r = resolve(pre, params);
            assert forall|i: int| 0 <= i < pre.len() && is_free(pre[i]) implies r.1.contains(r.0[i]->Placeholder_0) by {
                assert(pre.drop_last()[i] == pre[i]);
            }
        }
    }
}

/// Whatever the precondition and postcondition say, the self type and the
/// result type each bind exactly as many slots as the precondition has
/// entries, which is the arity wherever the entries were checked against it.
pub proof fn lemma_slot_vectors_have_arity(
    pre: Seq<Seq<char>>,
    post: Option<Seq<Seq<char>>>,
    params: Seq<Seq<char>>,
)
    ensures
        resolve(pre, params).0.len() == pre.len(),
        outputs(post, resolve(pre, params).0).len() == pre.len(),
{
    lemma_resolve(pre, params);
}

/// An operation whose entries are all free is generic over every slot: one
/// placeholder per slot, bound in slot order, and without a postcondition its
/// result type binds the slots exactly as its self type does.
pub proof fn lemma_state_independent(pre: Seq<Seq<char>>, params: Seq<Seq<char>>)
    requires
        forall|i: int| 0 <= i < pre.len() ==> is_free(#[trigger] pre[i]),
    ensures
        resolve(pre, params).1.len() == pre.len(),
        forall|i: int|
            0 <= i < pre.len() ==> #[trigger] resolve(pre, params).0[i] == BindingView::Placeholder(
                resolve(pre, params).1[i],
            ),
        outputs(None, resolve(pre, params).0) == resolve(pre, params).0,
    decreases pre.len(),
{
    lemma_resolve(pre, params);
    if pre.len() > 0 {
        let p = pre.drop_last();
        assert forall|i: int| 0 <= i < p.len() implies is_free(#[trigger] p[i]) by {
            assert(p[i] == pre[i]);
        }
        lemma_state_independent(p, params);
    }
    assert(outputs(None, resolve(pre, params).0) =~= resolve(pre, params).0);
}

fn max_name_len(names: &Vec<String>) -> (r: usize)
    ensures
        r == max_len(spelled(names@)),
{
    let ghost s = spelled(names@);
    let mut m: usize = 0;
    let mut i: usize = 0;
    while i < names.len()
        invariant
            s == spelled(names@),
            i <= names.len(),
            m == max_len(s.take(i as int)),
        decreases names.len() - i,
    {
        assert(s.take(i + 1).drop_last() =~= s.take(i as int));
        let l = names[i].as_str().unicode_len();
        if l > m {
            m = l;
        }
        i = i + 1;
    }
    assert(s.take(i as int) =~= s);
    m
}

fn choose_fresh(entry: &String, in_use: &Vec<String>) -> (r: String)
    ensures
        r@ == fresh_name(entry@, spelled(in_use@)),
{
    if contains_string(in_use, entry) {
        let m = max_name_len(in_use);
        let mut r = entry.clone();
        let mut i: usize = 0;
        while i < m
            invariant
                i <= m,
                r@ == entry@ + Seq::new(i as nat, |k: int| '_'),
            decreases m - i,
        {
            r.append("_");
            proof {
                reveal_strlit("_");
                assert(r@ =~= entry@ + Seq::new((i + 1) as nat, |k: int| '_'));
            }
            i = i + 1;
        }
        r
    } else {
        entry.clone()
    }
}

/// Resolves the self-type bindings of an operation from its precondition
/// entries; `params` are the names of the tracked type's own generic
/// parameters. Returns the bindings and the placeholders to declare.
pub fn resolve_slot_bindings(pre: &Vec<String>, params: &Vec<String>) -> (r: (Vec<Binding>, Vec<String>))
    ensures
        binding_views(r.0@) == resolve(spelled(pre@), spelled(params@)).0,
        spelled(r.1@) == resolve(spelled(pre@), spelled(params@)).1,
{
    let ghost ps = spelled(params@);
    let ghost es = spelled(pre@);
    let mut bindings: Vec<Binding> = Vec::new();
    let mut placeholders: Vec<String> = Vec::new();
    let mut in_use = copy_strings(params);
    let mut i: usize = 0;
    while i < pre.len()
        invariant
            ps == spelled(params@),
            es == spelled(pre@),
            i <= pre.len(),
            binding_views(bindings@) =~= resolve(es.take(i as int), ps).0,
            spelled(placeholders@) =~= resolve(es.take(i as int), ps).1,
            spelled(in_use@) =~= ps + spelled(placeholders@),
        decreases pre.len() - i,
    {
        assert(es.take(i + 1).drop_last() =~= es.take(i as int));
        let e = &pre[i];
        if is_single_letter(e.as_str()) {
            let n = choose_fresh(e, &in_use);
            let n2 = n.clone();
            let n3 = n.clone();
            let ghost old_in = spelled(in_use@);
            let ghost old_ph = spelled(placeholders@);
            bindings.push(Binding::Placeholder(n));
            placeholders.push(n2);
            in_use.push(n3);
            proof {
                assert(spelled(in_use@) =~= old_in.push(n@));
                assert(spelled(placeholders@) =~= old_ph.push(n@));
                assert(spelled(in_use@) =~= ps + spelled(placeholders@));
            }
        } else {
            bindings.push(Binding::Marker(e.clone()));
        }
        i = i + 1;
    }
    assert(es.take(i as int) =~= es);
    (bindings, placeholders)
}

/// The bindings of the result type: for each slot, the state that `post` pins,
/// or the self-type binding where `post` passes the slot through or is absent.
pub fn output_bindings(post: &Option<Vec<String>>, input: &Vec<Binding>) -> (r: Vec<Binding>)
    requires
        post is Some ==> post->Some_0@.len() == input@.len(),
    ensures
        binding_views(r@) == outputs(
            match post {
                Some(p) => Some(spelled(p@)),
                None => None,
            },
            binding_views(input@),
        ),
{
    let ghost pv = match post {
        Some(p) => Some(spelled(p@)),
        None => None::<Seq<Seq<char>>>,
    };
    let mut out: Vec<Binding> = Vec::new();
    let mut i: usize = 0;
    while i < input.len()
        invariant
            pv == match post {
                Some(p) => Some(spelled(p@)),
                None => None::<Seq<Seq<char>>>,
            },
            post is Some ==> post->Some_0@.len() == input@.len(),
            i <= input.len(),
            out@.len() == i,
            forall|j: int| 0 <= j < i ==> out@[j]@ == output_binding(pv, binding_views(input@), j),
        decreases input.len() - i,
    {
        let b = match post {
            Some(p) => {
                if is_single_letter(p[i].as_str()) {
                    copy_binding(&input[i])
                } else {
                    Binding::Marker(p[i].clone())
                }
            },
            None => copy_binding(&input[i]),
        };
        out.push(b);
        i = i + 1;
    }
    assert(binding_views(out@) =~= outputs(pv, binding_views(input@)));
    out
}

pub fn copy_binding(b: &Binding) -> (r: Binding)
    ensures
        r@ == b@,
{
    match b {
        Binding::Marker(s) => Binding::Marker(s.clone()),
        Binding::Placeholder(s) => Binding::Placeholder(s.clone()),
    }
}

} // verus!
