//! What the injection code generator decides for a function's arguments: the
//! written form of each argument's type, and how each argument is requested
//! from the provider.
use vstd::prelude::*;

use crate::nats::strings_view;

verus! {

/// One segment of a type path, e.g. `HashMap<String, u32>`: its identifier and
/// the leading identifiers of its type arguments.
pub struct PathSegment {
    pub ident: String,
    pub type_args: Vec<String>,
}

/// The shape of an argument's type, as far as the generator reads it.
pub enum TypeShape {
    /// A type path such as `a::B<C>`.
    Path(Vec<PathSegment>),
    /// A reference, with the path it refers to if that is a path.
    Reference(Option<Vec<PathSegment>>),
    /// Any other type.
    Other,
}

/// The shape of a function argument: `self`, or a typed pattern with the
/// binding's name and mutability if the pattern is a plain binding.
pub enum FnArgShape {
    Receiver,
    Typed { binding: Option<(String, bool)>, ty: TypeShape },
}

/// An argument as the generator sees it.
pub struct Argument {
    pub name: String,
    pub is_ref: bool,
    pub is_mut: bool,
    pub ty: String,
}

/// How an argument is requested from the provider.
#[derive(Debug, PartialEq, Eq, Structural)]
pub enum Injection {
    /// `try_get_ref`: the argument is a reference.
    Ref,
    /// `try_get_mut`: the argument's type names a `MutexGuard`.
    Mut,
    /// `try_get`: every other argument.
    Value,
}

/// The contents of the segments of a path.
pub open spec fn segments_view(segments: Seq<PathSegment>) -> Seq<(Seq<char>, Seq<Seq<char>>)> {
    segments.map_values(|s: PathSegment| (s.ident@, strings_view(s.type_args@)))
}

/// `parts` joined with commas.
pub open spec fn join_with_commas(parts: Seq<Seq<char>>) -> Seq<char>
    decreases parts.len(),
{
    if parts.len() == 0 {
        seq![]
    } else if parts.len() == 1 {
        parts[0]
    } else {
        join_with_commas(parts.drop_last()) + seq![','] + parts.last()
    }
}

/// The written form of one segment: `ident`, or `ident<A,B>` with type arguments.
pub open spec fn segment_text(ident: Seq<char>, args: Seq<Seq<char>>) -> Seq<char> {
    if args.len() == 0 {
        ident
    } else {
        ident + seq!['<'] + join_with_commas(args) + seq!['>']
    }
}

/// `acc` followed by the written segments, each preceded by `::` unless the text
/// so far is empty.
pub open spec fn render_path(acc: Seq<char>, segments: Seq<(Seq<char>, Seq<Seq<char>>)>) -> Seq<char>
    decreases segments.len(),
{
    if segments.len() == 0 {
        acc
    } else {
        let prev = render_path(acc, segments.drop_last());
        let sep = if prev.len() == 0 {
            Seq::<char>::empty()
        } else {
            seq![':', ':']
        };
        prev + sep + segment_text(segments.last().0, segments.last().1)
    }
}

/// Appends `parts`, joined with commas, to `out`.
fn push_joined(out: &mut String, parts: &Vec<String>)
    ensures
        final(out)@ == old(out)@ + join_with_commas(strings_view(parts@)),
{
    let ghost start = out@;
    let n = parts.len();
    let mut i: usize = 0;
    while i < n
        invariant
            n == parts.len(),
            0 <= i <= n,
            out@ == start + join_with_commas(strings_view(parts@).take(i as int)),
            start == old(out)@,
        decreases n - i,
    {
        let ghost before = out@;
        let ghost views = strings_view(parts@);
        assert(views.take(i + 1).drop_last() =~= views.take(i as int));
        assert(views.take(i + 1).last() == parts@[i as int]@);
        if i != 0 {
            out.append(",");
            proof {
                reveal_strlit(",");
            }
        }
        out.append(parts[i].as_str());
        proof {
            if i == 0 {
                assert(views.take(1) =~= seq![parts@[0]@]);
                assert(out@ =~= start + join_with_commas(views.take(1)));
            } else {
                assert(out@ =~= start + join_with_commas(views.take(i + 1)));
            }
        }
        i = i + 1;
    }
    assert(strings_view(parts@).take(n as int) =~= strings_view(parts@));
}

/// Appends the written form of `segments` to `ty`, e.g. `std::sync::Arc<u32>`.
pub fn process_segments(ty: &mut String, segments: &Vec<PathSegment>)
    ensures
        final(ty)@ == render_path(old(ty)@, segments_view(segments@)),
{
    let ghost start = ty@;
    let n = segments.len();
    let mut i: usize = 0;
    while i < n
        invariant
            n == segments.len(),
            0 <= i <= n,
            ty@ == render_path(start, segments_view(segments@).take(i as int)),
            start == old(ty)@,
        decreases n - i,
    {
        let ghost views = segments_view(segments@);
        let ghost prev = ty@;
        assert(views.take(i + 1).drop_last() =~= views.take(i as int));
        assert(views.take(i + 1).last() == views[i as int]);
        if !ty.as_str().is_empty() {
            ty.append("::");
            proof {
                reveal_strlit("::");
            }
        }
        let ghost with_sep = ty@;
        ty.append(segments[i].ident.as_str());
        let args = &segments[i].type_args;
        if args.len() != 0 {
            ty.append("<");
            push_joined(ty, args);
            ty.append(">");
            proof {
                reveal_strlit("<");
                reveal_strlit(">");
            }
        }
        assert(ty@ =~= with_sep + segment_text(views[i as int].0, views[i as int].1));
        i = i + 1;
    }
    assert(segments_view(segments@).take(n as int) =~= segments_view(segments@));
}

/// The argument that the generator reads from `arg`: the binding's name and
/// mutability (empty and `false` for `self` or a pattern), whether the type is a
/// reference, and the written form of the (referenced) type path.
pub open spec fn argument_spec(arg: FnArgShape) -> (Seq<char>, bool, bool, Seq<char>) {
    match arg {
        FnArgShape::Receiver => (Seq::empty(), false, false, Seq::empty()),
        FnArgShape::Typed { binding, ty } => {
            let name = match binding {
                Some(b) => b.0@,
                None => Seq::empty(),
            };
            let is_mut = match binding {
                Some(b) => b.1,
                None => false,
            };
            match ty {
                TypeShape::Path(segs) => (name, false, is_mut, render_path(Seq::empty(), segments_view(segs@))),
                TypeShape::Reference(Some(segs)) => (name, true, is_mut, render_path(Seq::empty(), segments_view(segs@))),
                TypeShape::Reference(None) => (name, true, is_mut, Seq::empty()),
                TypeShape::Other => (name, false, is_mut, Seq::empty()),
            }
        },
    }
}

/// The argument that the generator reads from the shape of one function argument.
pub fn argument_from_shape(arg: &FnArgShape) -> (a: Argument)
    ensures
        (a.name@, a.is_ref, a.is_mut, a.ty@) == argument_spec(*arg),
{
    let mut name = String::new();
    let mut ty = String::new();
    let mut is_ref = false;
    let mut is_mut = false;
    match arg {
        FnArgShape::Receiver => {},
        FnArgShape::Typed { binding, ty: shape } => {
            match binding {
                Some((n, m)) => {
                    name = n.clone();
                    is_mut = *m;
                },
                None => {},
            }
            match shape {
                TypeShape::Path(segs) => {
                    process_segments(&mut ty, segs);
                },
                TypeShape::Reference(inner) => {
                    is_ref = true;
                    match inner {
                        Some(segs) => {
                            process_segments(&mut ty, segs);
                        },
                        None => {},
                    }
                },
                TypeShape::Other => {},
            }
        },
    }
    Argument { name, is_ref, is_mut, ty }
}

/// The arguments that the generator reads from a function's inputs, in order.
pub fn get_args_from_function(inputs: &Vec<FnArgShape>) -> (args: Vec<Argument>)
    ensures
        args@.len() == inputs@.len(),
        forall|i: int|
            0 <= i < args@.len() ==> (#[trigger] args@[i].name@, args@[i].is_ref, args@[i].is_mut,
            args@[i].ty@) == argument_spec(inputs@[i]),
{
    let mut args: Vec<Argument> = Vec::new();
    let n = inputs.len();
    let mut i: usize = 0;
    while i < n
        invariant
            n == inputs.len(),
            0 <= i <= n,
            args@.len() == i,
            forall|k: int|
                0 <= k < i ==> (#[trigger] args@[k].name@, args@[k].is_ref, args@[k].is_mut,
                args@[k].ty@) == argument_spec(inputs@[k]),
        decreases n - i,
    {
        args.push(argument_from_shape(&inputs[i]));
        i = i + 1;
    }
    args
}

/// Whether `pat` occurs in `s` as a contiguous run.
pub open spec fn has_infix(s: Seq<u8>, pat: Seq<u8>) -> bool {
    exists|i: int| 0 <= i && i + pat.len() <= s.len() && #[trigger] s.subrange(i, i + pat.len()) == pat
}

/// Whether the bytes of `needle` occur in the bytes of `haystack`.
fn contains_bytes(haystack: &[u8], needle: &[u8]) -> (r: bool)
    ensures
        r == has_infix(haystack@, needle@),
{
    let n = haystack.len();
    let m = needle.len();
    if m > n {
        assert(!has_infix(haystack@, needle@));
        return false;
    }
    let mut i: usize = 0;
    while i <= n - m
        invariant
            n == haystack@.len(),
            m == needle@.len(),
            m <= n,
            0 <= i <= n - m + 1,
            forall|k: int| 0 <= k < i ==> #[trigger] haystack@.subrange(k, k + m) != needle@,
        decreases n - m + 1 - i,
    {
        let mut j: usize = 0;
        let mut same = true;
        while j < m
            invariant
                n == haystack@.len(),
                m == needle@.len(),
                i + m <= n,
                0 <= j <= m,
                same == forall|l: int| 0 <= l < j ==> haystack@[i + l] == needle@[l],
            decreases m - j,
        {
            if haystack[i + j] != needle[j] {
                same = false;
            }
            j = j + 1;
        }
        if same {
            assert(haystack@.subrange(i as int, i + m) =~= needle@);
            return true;
        }
        assert(haystack@.subrange(i as int, i + m)[0] == haystack@[i as int] || m == 0);
        proof {
            if haystack@.subrange(i as int, i + m) == needle@ {
                assert forall|l: int| 0 <= l < m implies haystack@[i + l] == needle@[l] by {
                    assert(haystack@.subrange(i as int, i + m)[l] == haystack@[i + l]);
                }
            }
        }
        i = i + 1;
    }
    false
}

/// How the generated code requests an argument: by reference for a reference,
/// by mutable reference where its type names a `MutexGuard`, by value otherwise.
pub fn injection_for(arg: &Argument) -> (r: Injection)
    ensures
        r == (if arg.is_ref {
            Injection::Ref
        } else if has_infix(vstd::utf8::encode_utf8(arg.ty@), vstd::utf8::encode_utf8("MutexGuard"@)) {
            Injection::Mut
        } else {
            Injection::Value
        }),
{
    if arg.is_ref {
        Injection::Ref
    } else if contains_bytes(arg.ty.as_str().as_bytes(), "MutexGuard".as_bytes()) {
        Injection::Mut
    } else {
        Injection::Value
    }
}

/// The total length of `parts`.
pub open spec fn total_len(parts: Seq<Seq<char>>) -> nat
    decreases parts.len(),
{
    if parts.len() == 0 {
        0
    } else {
        total_len(parts.drop_last()) + parts.last().len()
    }
}

/// The parts together are at least as long as the first part.
proof fn lemma_total_len_covers_first(parts: Seq<Seq<char>>)
    requires
        parts.len() >= 1,
    ensures
        total_len(parts) >= parts[0].len(),
    decreases parts.len(),
{
    if parts.len() > 1 {
        lemma_total_len_covers_first(parts.drop_last());
        assert(parts.drop_last()[0] == parts[0]);
    }
}

/// Joining keeps every part, once per occurrence: the joined text is as long as
/// all parts together plus one comma between each two neighbours, it starts with
/// the first part and ends with the last.
pub proof fn lemma_join_keeps_every_part(parts: Seq<Seq<char>>)
    requires
        parts.len() >= 1,
    ensures
        join_with_commas(parts).len() == total_len(parts) + parts.len() - 1,
        join_with_commas(parts).subrange(0, parts[0].len() as int) == parts[0],
        join_with_commas(parts).subrange(
            join_with_commas(parts).len() - parts.last().len(),
            join_with_commas(parts).len() as int,
        ) == parts.last(),
    decreases parts.len(),
{
    if parts.len() > 1 {
        let init = parts.drop_last();
        lemma_join_keeps_every_part(init);
        let j = join_with_commas(init);
        let whole = join_with_commas(parts);
        assert(whole == j + seq![','] + parts.last());
        assert(init[0] == parts[0]);
        lemma_total_len_covers_first(init);
        assert(whole.subrange(0, parts[0].len() as int) =~= j.subrange(0, parts[0].len() as int));
        assert(whole.subrange(whole.len() - parts.last().len(), whole.len() as int) =~= parts.last());
    } else {
        assert(join_with_commas(parts) == parts[0]);
        assert(total_len(parts.drop_last()) == 0);
        assert(parts[0].subrange(0, parts[0].len() as int) =~= parts[0]);
        assert(parts.last() == parts[0]);
    }
}

/// Joining writes every part in order, each at its own place: part `i` starts
/// after the parts before it and one comma between each two of them, and a
/// comma follows every part but the last.
pub proof fn lemma_join_places_each_part(parts: Seq<Seq<char>>, i: int)
    requires
        0 <= i < parts.len(),
    ensures
        ({
            let off = total_len(parts.take(i)) + i;
            let j = join_with_commas(parts);
            &&& off + parts[i].len() <= j.len()
            &&& j.subrange(off, off + parts[i].len()) == parts[i]
            &&& i + 1 < parts.len() ==> j[off + parts[i].len()] == ','
            &&& i + 1 == parts.len() ==> off + parts[i].len() == j.len()
        }),
    decreases parts.len(),
{
    let off = total_len(parts.take(i)) + i;
    let j = join_with_commas(parts);
    if parts.len() == 1 {
        assert(parts.take(0) =~= Seq::<Seq<char>>::empty());
        assert(j == parts[0]);
        assert(j.subrange(0, parts[0].len() as int) =~= parts[0]);
    } else {
        let init = parts.drop_last();
        let ji = join_with_commas(init);
        assert(j == ji + seq![','] + parts.last());
        lemma_join_keeps_every_part(init);
        if i == parts.len() - 1 {
            assert(parts.take(i) =~= init);
            assert(off == ji.len() + 1);
            assert(j.subrange(off, off + parts[i].len()) =~= parts.last());
        } else {
            lemma_join_places_each_part(init, i);
            assert(init.take(i) =~= parts.take(i));
            assert(init[i] == parts[i]);
            assert(j.subrange(off, off + parts[i].len()) =~= ji.subrange(off, off + parts[i].len()));
            if i + 1 == init.len() {
                assert(j[off + parts[i].len()] == ',');
            } else {
                assert(j[off + parts[i].len()] == ji[off + parts[i].len()]);
            }
        }
    }
}

/// A reference argument's type text is the text of the whole path it refers to,
/// exactly as for a by-value argument of that path, and it is marked as a
/// reference.
pub proof fn lemma_reference_renders_whole_path(binding: Option<(String, bool)>, segs: Vec<PathSegment>)
    ensures
        argument_spec(FnArgShape::Typed { binding, ty: TypeShape::Reference(Some(segs)) }).3
            == argument_spec(FnArgShape::Typed { binding, ty: TypeShape::Path(segs) }).3,
        argument_spec(FnArgShape::Typed { binding, ty: TypeShape::Reference(Some(segs)) }).1,
        !argument_spec(FnArgShape::Typed { binding, ty: TypeShape::Path(segs) }).1,
{
}

/// The text of a path begins with the text of each of its leading parts: every
/// segment is written, none is dropped or replaced.
pub proof fn lemma_path_text_extends_prefixes(acc: Seq<char>, segs: Seq<(Seq<char>, Seq<Seq<char>>)>, i: int)
    requires
        0 <= i <= segs.len(),
    ensures
        render_path(acc, segs.take(i)) == render_path(acc, segs).subrange(
            0,
            render_path(acc, segs.take(i)).len() as int,
        ),
        render_path(acc, segs.take(i)).len() <= render_path(acc, segs).len(),
    decreases segs.len(),
{
    if i == segs.len() {
        assert(segs.take(i) =~= segs);
        assert(render_path(acc, segs).subrange(0, render_path(acc, segs).len() as int) =~= render_path(acc, segs));
    } else {
        let init = segs.drop_last();
        lemma_path_text_extends_prefixes(acc, init, i);
        assert(init.take(i) =~= segs.take(i));
        let short = render_path(acc, segs.take(i));
        let mid = render_path(acc, init);
        let whole = render_path(acc, segs);
        assert(whole.subrange(0, mid.len() as int) =~= mid);
        assert(whole.subrange(0, short.len() as int) =~= mid.subrange(0, short.len() as int));
    }
}

/// A single segment without type arguments is written as its identifier, and a
/// segment appended to a non-empty path text is written after `::`.
pub proof fn lemma_path_text_segments(acc: Seq<char>, segs: Seq<(Seq<char>, Seq<Seq<char>>)>, ident: Seq<char>)
    ensures
        render_path(Seq::empty(), seq![(ident, Seq::<Seq<char>>::empty())]) == ident,
        render_path(acc, segs).len() > 0 ==> render_path(acc, segs.push((ident, Seq::<Seq<char>>::empty())))
            == render_path(acc, segs) + seq![':', ':'] + ident,
{
    let one = seq![(ident, Seq::<Seq<char>>::empty())];
    assert(one.drop_last() =~= Seq::<(Seq<char>, Seq<Seq<char>>)>::empty());
    assert(render_path(Seq::empty(), one.drop_last()) == Seq::<char>::empty());
    assert(one.last() == (ident, Seq::<Seq<char>>::empty()));
    assert(segment_text(ident, Seq::<Seq<char>>::empty()) == ident);
    assert(Seq::<char>::empty() + Seq::<char>::empty() + ident =~= ident);
    assert(segs.push((ident, Seq::<Seq<char>>::empty())).drop_last() =~= segs);
}

/// A pattern occurs in a text from any offset, the very first included: a text
/// contains itself, each of its prefixes and each of its suffixes.
pub proof fn lemma_infix_from_every_offset(p: Seq<u8>, s: Seq<u8>)
    ensures
        has_infix(s, s),
        has_infix(p + s, p),
        has_infix(p + s, s),
        has_infix(s, Seq::<u8>::empty()),
{
    let zero: int = 0;
    let at: int = p.len() as int;
    assert(s.subrange(zero, zero + s.len()) =~= s);
    assert((p + s).subrange(zero, zero + p.len()) =~= p);
    assert((p + s).subrange(at, at + s.len()) =~= s);
    assert(s.subrange(zero, zero + Seq::<u8>::empty().len()) =~= Seq::<u8>::empty());
}

/// The bytes of two texts put together are the bytes of the first followed by
/// the bytes of the second.
pub proof fn lemma_utf8_of_concat(a: Seq<char>, b: Seq<char>)
    ensures
        vstd::utf8::encode_utf8(a + b) == vstd::utf8::encode_utf8(a) + vstd::utf8::encode_utf8(b),
    decreases a.len(),
{
    if a.len() == 0 {
        assert(a + b =~= b);
        assert(vstd::utf8::encode_utf8(a) =~= Seq::<u8>::empty());
        assert(Seq::<u8>::empty() + vstd::utf8::encode_utf8(b) =~= vstd::utf8::encode_utf8(b));
    } else {
        lemma_utf8_of_concat(a.drop_first(), b);
        assert((a + b).drop_first() =~= a.drop_first() + b);
        assert((a + b)[0] == a[0]);
        assert(vstd::utf8::encode_utf8(a + b) =~= vstd::utf8::encode_scalar(a[0] as u32)
            + vstd::utf8::encode_utf8(a.drop_first() + b));
    }
}

/// A type text that begins with `MutexGuard`, or has it after any prefix, holds
/// `MutexGuard`: such a non-reference argument is requested by mutable
/// reference.
pub proof fn lemma_guard_anywhere_in_type_is_found(before: Seq<char>, after: Seq<char>)
    ensures
        has_infix(
            vstd::utf8::encode_utf8("MutexGuard"@ + after),
            vstd::utf8::encode_utf8("MutexGuard"@),
        ),
        has_infix(
            vstd::utf8::encode_utf8(before + "MutexGuard"@ + after),
            vstd::utf8::encode_utf8("MutexGuard"@),
        ),
{
    let g = "MutexGuard"@;
    lemma_utf8_of_concat(g, after);
    lemma_infix_from_every_offset(vstd::utf8::encode_utf8(g), vstd::utf8::encode_utf8(after));
    lemma_utf8_of_concat(before, g + after);
    assert(before + g + after =~= before + (g + after));
    let pre = vstd::utf8::encode_utf8(before);
    let rest = vstd::utf8::encode_utf8(g + after);
    let whole = pre + rest;
    let zero: int = 0;
    let gb = vstd::utf8::encode_utf8(g);
    let k = choose|i: int| 0 <= i && i + gb.len() <= rest.len() && #[trigger] rest.subrange(i, i + gb.len()) == gb;
    let at: int = pre.len() + k;
    assert(whole.subrange(at, at + gb.len()) =~= rest.subrange(k, k + gb.len()));
}

} // verus!
