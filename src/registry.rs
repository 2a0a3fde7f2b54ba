//! The registry of a tracked type: its marker types, the sealing module, and
//! the capability boundary that only its own markers satisfy.
use vstd::prelude::*;

use crate::text::{
    coded, concat, contains_string, join, join_strings, lemma_coded_injective, render_coded, spelled,
};

verus! {

/// The longest type name, in characters, that the registry builder takes.
pub const NAME_LIMIT: usize = 0x0100_0000;

/// What `inflector`'s snake-case conversion makes of a name.
pub uninterp spec fn snake_case_of(s: Seq<char>) -> Seq<char>;

/// Relies on `inflector::cases::snakecase::to_snake_case`, whose result depends
/// on the characters of its argument alone. It reserves twice the byte length
/// of its argument, hence the bound.
#[verifier::external_body]
fn to_snake_case(s: &str) -> (r: String)
    requires
        s@.len() <= NAME_LIMIT,
    ensures
        r@ == snake_case_of(s@),
{
    inflector::cases::snakecase::to_snake_case(s)
}

/// The module whose private trait seals the markers of the type called `t`:
/// the snake-case form of the name, followed by the name itself and coded so
/// that two types never share a module.
pub open spec fn sealing_module(t: Seq<char>) -> Seq<char> {
    "sealed_"@ + coded(snake_case_of(t), seq!['_'] + t)
}

/// The capability boundary of the type called `t`: the trait that its markers,
/// and only they, implement.
pub open spec fn boundary(t: Seq<char>) -> Seq<char> {
    "Sealer"@ + t
}

/// The marker type of state `s` of the type called `t`: both names, coded
/// so that no other type and state give the same marker.
pub open spec fn marker(t: Seq<char>, s: Seq<char>) -> Seq<char> {
    coded(t, s)
}

/// The states of `s`, each once, in the order of their first occurrence.
pub open spec fn distinct(s: Seq<Seq<char>>) -> Seq<Seq<char>>
    decreases s.len(),
{
    if s.len() == 0 {
        Seq::empty()
    } else {
        let d = distinct(s.drop_last());
        if d.contains(s.last()) {
            d
        } else {
            d.push(s.last())
        }
    }
}

#[derive(Debug)]
pub struct Registry {
    pub sealing_module: String,
    pub boundary: String,
    pub markers: Vec<String>,
}

pub struct RegistryView {
    pub sealing_module: Seq<char>,
    pub boundary: Seq<char>,
    pub markers: Seq<Seq<char>>,
}

impl View for Registry {
    type V = RegistryView;

    open spec fn view(&self) -> RegistryView {
        RegistryView {
            sealing_module: self.sealing_module@,
            boundary: self.boundary@,
            markers: spelled(self.markers@),
        }
    }
}

/// The registry of the type called `t` with the states `states`: one marker
/// per distinct state, however often it is listed.
pub open spec fn registry_of(t: Seq<char>, states: Seq<Seq<char>>) -> RegistryView {
    RegistryView {
        sealing_module: sealing_module(t),
        boundary: boundary(t),
        markers: distinct(states).map_values(|s: Seq<char>| marker(t, s)),
    }
}

/// Whether the marker `m` satisfies the capability boundary `b` in a
/// compilation unit that holds the registries `regs`: some registry declares
/// `m` a member of `b`.
pub open spec fn satisfies(m: Seq<char>, b: Seq<char>, regs: Seq<RegistryView>) -> bool {
    exists|i: int| 0 <= i < regs.len() && regs[i].boundary == b && regs[i].markers.contains(m)
}

pub open spec fn marker_decl(m: Seq<char>) -> Seq<char> {
    "pub struct "@ + m + ";"@
}

pub open spec fn seal_decl(r: RegistryView, m: Seq<char>) -> Seq<char> {
    "impl "@ + r.sealing_module + "::Sealed for "@ + m + " {}"@
}

pub open spec fn capability_decl(r: RegistryView, m: Seq<char>) -> Seq<char> {
    "impl "@ + r.boundary + " for "@ + m + " {}"@
}

/// The declarations of a registry: the sealing module, the boundary, then
/// each marker, each marker's sealing, and each marker's membership of the
/// boundary.
pub open spec fn registry_decls(r: RegistryView) -> Seq<Seq<char>> {
    seq![
        "mod "@ + r.sealing_module + " { pub trait Sealed {} }"@,
        "pub trait "@ + r.boundary + ": "@ + r.sealing_module + "::Sealed {}"@,
    ] + r.markers.map_values(|m: Seq<char>| marker_decl(m)) + r.markers.map_values(
        |m: Seq<char>| seal_decl(r, m),
    ) + r.markers.map_values(|m: Seq<char>| capability_decl(r, m))
}

pub open spec fn registry_text(r: RegistryView) -> Seq<char> {
    join(registry_decls(r), "\n"@)
}

/// Builds the registry of the type called `owner` for the states `states`.
pub fn build_registry(owner: &str, states: &Vec<String>) -> (r: Registry)
    requires
        owner@.len() <= NAME_LIMIT,
    ensures
        r@ == registry_of(owner@, spelled(states@)),
{
    let snake = to_snake_case(owner);
    let module = concat("sealed_", render_coded(snake.as_str(), concat("_", owner).as_str()).as_str());
    proof {
        reveal_strlit("_");
    }
    assert(module@ =~= sealing_module(owner@));
    let bound = concat("Sealer", owner);
    let ghost ss = spelled(states@);
    let mut seen: Vec<String> = Vec::new();
    let mut markers: Vec<String> = Vec::new();
    let mut i: usize = 0;
    while i < states.len()
        invariant
            ss == spelled(states@),
            i <= states.len(),
            spelled(seen@) == distinct(ss.take(i as int)),
            markers@.len() == seen@.len(),
            forall|j: int| 0 <= j < seen@.len() ==> markers@[j]@ == marker(owner@, seen@[j]@),
        decreases states.len() - i,
    {
        assert(ss.take(i + 1).drop_last() =~= ss.take(i as int));
        if !contains_string(&seen, &states[i]) {
            let ghost before = spelled(seen@);
            seen.push(states[i].clone());
            markers.push(render_coded(owner, states[i].as_str()));
            assert(spelled(seen@) =~= before.push(ss[i as int]));
        }
        i = i + 1;
    }
    assert(ss.take(i as int) =~= ss);
    let r = Registry { sealing_module: module, boundary: bound, markers };
    assert(r@.markers =~= registry_of(owner@, spelled(states@)).markers);
    r
}

fn decl_lines(r: &Registry, pieces: (&str, &str), use_module: bool) -> (out: Vec<String>)
    ensures
        out@.len() == r.markers@.len(),
        forall|j: int|
            0 <= j < out@.len() ==> out@[j]@ == pieces.0@ + (if use_module {
                r.sealing_module@
            } else {
                r.boundary@
            }) + pieces.1@ + r.markers@[j]@ + " {}"@,
{
    let mut out: Vec<String> = Vec::new();
    let mut i: usize = 0;
    while i < r.markers.len()
        invariant
            i <= r.markers.len(),
            out@.len() == i,
            forall|j: int|
                0 <= j < i ==> out@[j]@ == pieces.0@ + (if use_module {
                    r.sealing_module@
                } else {
                    r.boundary@
                }) + pieces.1@ + r.markers@[j]@ + " {}"@,
        decreases r.markers.len() - i,
    {
        let mut s = pieces.0.to_owned();
        if use_module {
            s.append(r.sealing_module.as_str());
        } else {
            s.append(r.boundary.as_str());
        }
        s.append(pieces.1);
        s.append(r.markers[i].as_str());
        s.append(" {}");
        out.push(s);
        i = i + 1;
    }
    out
}

/// The source text of a registry's declarations, one per line.
pub fn render_registry(r: &Registry) -> (out: String)
    ensures
        out@ == registry_text(r@),
{
    let mut lines: Vec<String> = Vec::new();
    let mut m = "mod ".to_owned();
    m.append(r.sealing_module.as_str());
    m.append(" { pub trait Sealed {} }");
    lines.push(m);
    let mut b = "pub trait ".to_owned();
    b.append(r.boundary.as_str());
    b.append(": ");
    b.append(r.sealing_module.as_str());
    b.append("::Sealed {}");
    lines.push(b);
    let mut i: usize = 0;
    while i < r.markers.len()
        invariant
            i <= r.markers.len(),
            lines@.len() == 2 + i,
            forall|j: int| 0 <= j < 2 ==> lines@[j]@ == registry_decls(r@)[j],
            forall|j: int| 0 <= j < i ==> lines@[2 + j]@ == marker_decl(r.markers@[j]@),
        decreases r.markers.len() - i,
    {
        let mut s = "pub struct ".to_owned();
        s.append(r.markers[i].as_str());
        s.append(";");
        lines.push(s);
        i = i + 1;
    }
    let seals = decl_lines(r, ("impl ", "::Sealed for "), true);
    let caps = decl_lines(r, ("impl ", " for "), false);
    let ghost before = lines@;
    let mut k: usize = 0;
    while k < seals.len()
        invariant
            k <= seals.len(),
            lines@.len() == before.len() + k,
            forall|j: int| 0 <= j < before.len() ==> lines@[j] == before[j],
            forall|j: int| 0 <= j < k ==> lines@[before.len() + j]@ == seals@[j]@,
        decreases seals.len() - k,
    {
        lines.push(seals[k].clone());
        k = k + 1;
    }
    let ghost middle = lines@;
    let mut k: usize = 0;
    while k < caps.len()
        invariant
            k <= caps.len(),
            lines@.len() == middle.len() + k,
            forall|j: int| 0 <= j < middle.len() ==> lines@[j] == middle[j],
            forall|j: int| 0 <= j < k ==> lines@[middle.len() + j]@ == caps@[j]@,
        decreases caps.len() - k,
    {
        lines.push(caps[k].clone());
        k = k + 1;
    }
    proof {
        let n = r.markers@.len() as int;
        let d = registry_decls(r@);
        assert(d.len() == 2 + 3 * n);
        let ms = r@.markers;
        let hdr = seq![
            "mod "@ + r@.sealing_module + " { pub trait Sealed {} }"@,
            "pub trait "@ + r@.boundary + ": "@ + r@.sealing_module + "::Sealed {}"@,
        ];
        let d1 = ms.map_values(|m: Seq<char>| marker_decl(m));
        let d2 = ms.map_values(|m: Seq<char>| seal_decl(r@, m));
        let d3 = ms.map_values(|m: Seq<char>| capability_decl(r@, m));
        assert(d == hdr + d1 + d2 + d3);
        assert forall|j: int| 0 <= j < d.len() implies spelled(lines@)[j] == d[j] by {
            assert(spelled(lines@)[j] == lines@[j]@);
            if j < 2 {
                assert(lines@[j] == before[j]);
            } else if j < 2 + n {
                assert(lines@[j] == before[j]);
                assert(d[j] == d1[j - 2]);
                assert(ms[j - 2] == r.markers@[j - 2]@);
            } else if j < 2 + 2 * n {
                assert(lines@[j] == middle[j]);
                assert(middle[j]@ == seals@[j - 2 - n]@);
                assert(d[j] == d2[j - 2 - n]);
                assert(ms[j - 2 - n] == r.markers@[j - 2 - n]@);
            } else {
                assert(lines@[j]@ == caps@[j - 2 - 2 * n]@);
                assert(d[j] == d3[j - 2 - 2 * n]);
                assert(ms[j - 2 - 2 * n] == r.markers@[j - 2 - 2 * n]@);
            }
        }
        assert(spelled(lines@) =~= d);
    }
    join_strings(&lines, "\n")
}

proof fn lemma_distinct(s: Seq<Seq<char>>)
    ensures
        forall|i: int, j: int| 0 <= i < j < distinct(s).len() ==> distinct(s)[i] != distinct(s)[j],
    decreases s.len(),
{
    if s.len() > 0 {
        lemma_distinct(s.drop_last());
        let d = distinct(s.drop_last());
        if !d.contains(s.last()) {
            let e = d.push(s.last());
            assert forall|i: int, j: int| 0 <= i < j < e.len() implies e[i] != e[j] by {
                if j == d.len() {
                    assert(e[i] == d[i]);
                }
            }
        }
    }
}

/// A registry declares each of its markers once.
pub proof fn lemma_markers_distinct(t: Seq<char>, states: Seq<Seq<char>>)
    ensures
        forall|i: int, j: int|
            0 <= i < j < registry_of(t, states).markers.len() ==> registry_of(t, states).markers[i]
                != registry_of(t, states).markers[j],
{
    lemma_distinct(states);
    let d = distinct(states);
    assert forall|i: int, j: int|
        0 <= i < j < registry_of(t, states).markers.len() implies registry_of(t, states).markers[i]
            != registry_of(t, states).markers[j] by {
        if marker(t, d[i]) == marker(t, d[j]) {
            lemma_coded_injective(t, d[i], t, d[j]);
        }
    }
}

/// Two different tracked types declare apart names: no marker of one is a
/// marker of the other, whatever their states are called, and their sealing
/// modules and capability boundaries differ.
pub proof fn lemma_namespaced(a: Seq<char>, sa: Seq<char>, b: Seq<char>, sb: Seq<char>)
    requires
        a != b,
    ensures
        marker(a, sa) != marker(b, sb),
        sealing_module(a) != sealing_module(b),
        boundary(a) != boundary(b),
{
    if marker(a, sa) == marker(b, sb) {
        lemma_coded_injective(a, sa, b, sb);
    }
    if sealing_module(a) == sealing_module(b) {
        let p = "sealed_"@;
        let ca = coded(snake_case_of(a), seq!['_'] + a);
        let cb = coded(snake_case_of(b), seq!['_'] + b);
        assert(ca =~= sealing_module(a).subrange(p.len() as int, sealing_module(a).len() as int));
        assert(cb =~= sealing_module(b).subrange(p.len() as int, sealing_module(b).len() as int));
        lemma_coded_injective(snake_case_of(a), seq!['_'] + a, snake_case_of(b), seq!['_'] + b);
        assert(a =~= (seq!['_'] + a).drop_first());
        assert(b =~= (seq!['_'] + b).drop_first());
    }
    if boundary(a) == boundary(b) {
        let p = "Sealer"@;
        assert(boundary(a).subrange(p.len() as int, boundary(a).len() as int) =~= a);
        assert(boundary(b).subrange(p.len() as int, boundary(b).len() as int) =~= b);
    }
}

/// A marker generated for one tracked type never satisfies the capability
/// boundary of another, and the other way round, even where the two types
/// name their states alike: the boundaries differ, each registry declares
/// members of its own boundary only, and no marker of one type is a marker
/// of the other.
pub proof fn lemma_closed(
    a: Seq<char>,
    sa: Seq<Seq<char>>,
    b: Seq<char>,
    sb: Seq<Seq<char>>,
    m: Seq<char>,
    n: Seq<char>,
)
    requires
        a != b,
        registry_of(a, sa).markers.contains(m),
        registry_of(b, sb).markers.contains(n),
    ensures
        !satisfies(m, boundary(b), seq![registry_of(a, sa), registry_of(b, sb)]),
        !satisfies(n, boundary(a), seq![registry_of(a, sa), registry_of(b, sb)]),
        satisfies(m, boundary(a), seq![registry_of(a, sa), registry_of(b, sb)]),
        satisfies(n, boundary(b), seq![registry_of(a, sa), registry_of(b, sb)]),
{
    let regs = seq![registry_of(a, sa), registry_of(b, sb)];
    let ma = registry_of(a, sa).markers;
    let mb = registry_of(b, sb).markers;
    let i = choose|i: int| 0 <= i < ma.len() && ma[i] == m;
    let j = choose|j: int| 0 <= j < mb.len() && mb[j] == n;
    lemma_namespaced(a, distinct(sa)[i], b, distinct(sb)[j]);
    assert forall|k: int| 0 <= k < mb.len() implies mb[k] != m by {
        lemma_namespaced(a, distinct(sa)[i], b, distinct(sb)[k]);
    }
    assert forall|k: int| 0 <= k < ma.len() implies ma[k] != n by {
        lemma_namespaced(a, distinct(sa)[k], b, distinct(sb)[j]);
    }
    assert(regs[0] == registry_of(a, sa));
    assert(regs[1] == registry_of(b, sb));
}

} // verus!
