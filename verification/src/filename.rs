//! The output filename: the script file's stem with a `.wasm` extension.
//! A path without a stem (empty, or ending in a bare `.` or `..` component)
//! has no output name.

use vstd::prelude::*;

verus! {

/// The final path component: everything after the last separator.
pub open spec fn spec_component(p: Seq<char>) -> Seq<char>
    decreases p.len(),
{
    if p.len() == 0 {
        Seq::empty()
    } else if p.last() == '/' {
        Seq::empty()
    } else {
        spec_component(p.drop_last()).push(p.last())
    }
}

/// Whether a dot occurs past the component's first character.
pub open spec fn has_inner_dot(c: Seq<char>) -> bool {
    exists|i: int| 1 <= i < c.len() && c[i] == '.'
}

/// The component with its extension removed: everything before the last
/// dot, unless the only dot leads the name.
pub open spec fn spec_strip_ext(c: Seq<char>) -> Seq<char>
    decreases c.len(),
{
    if c.len() <= 1 {
        c
    } else if c.last() == '.' {
        c.drop_last()
    } else if has_inner_dot(c.drop_last()) {
        spec_strip_ext(c.drop_last())
    } else {
        c
    }
}

/// The stem of a path, if it has one.
pub open spec fn spec_stem(p: Seq<char>) -> Option<Seq<char>> {
    let c = spec_component(p);
    if c.len() == 0 || c == "."@ || c == ".."@ {
        Option::None
    } else {
        Option::Some(spec_strip_ext(c))
    }
}

/// The output filename for a script path: its stem with `.wasm` appended,
/// or nothing when the path has no stem.
pub open spec fn spec_output_filename(p: Seq<char>) -> Option<Seq<char>> {
    match spec_stem(p) {
        Option::None => Option::None,
        Option::Some(st) => Option::Some(st + ".wasm"@),
    }
}

/// The position of the last occurrence of `c`, if any.
fn rfind_char(s: &str, c: char) -> (r: Option<usize>)
    ensures
        (match r {
            Option::Some(i) => i < s@.len() && s@[i as int] == c && (forall|k: int|
                i < k < s@.len() ==> s@[k] != c),
            Option::None => forall|k: int| 0 <= k < s@.len() ==> s@[k] != c,
        }),
{
    let n = s.unicode_len();
    let mut i = n;
    while i > 0
        invariant
            i <= n,
            n == s@.len(),
            forall|k: int| i <= k < s@.len() ==> s@[k] != c,
        decreases i,
    {
        i -= 1;
        if s.get_char(i) == c {
            return Option::Some(i);
        }
    }
    Option::None
}

/// Under the facts the separator scan establishes, the component is the
/// suffix that starts at `start`.
proof fn lemma_component_is_suffix(p: Seq<char>, start: int)
    requires
        0 <= start <= p.len(),
        forall|k: int| start <= k < p.len() ==> p[k] != '/',
        start == 0 || p[start - 1] == '/',
    ensures
        spec_component(p) == p.skip(start),
    decreases p.len(),
{
    if p.len() == start {
        if start == 0 {
            assert(p.skip(start) =~= Seq::<char>::empty());
        } else {
            assert(p.last() == p[start - 1]);
            assert(p.skip(start) =~= Seq::<char>::empty());
        }
    } else {
        assert(p.last() != '/');
        assert(p.drop_last().len() == p.len() - 1);
        lemma_component_is_suffix(p.drop_last(), start);
        assert(spec_component(p) == p.drop_last().skip(start).push(p.last()));
        assert(p.drop_last().skip(start).push(p.last()) =~= p.skip(start));
    }
}

/// Under the facts the dot scan establishes, stripping the extension takes
/// the prefix of length `e`.
proof fn lemma_strip_is_prefix(c: Seq<char>, e: int)
    requires
        1 <= e <= c.len(),
        e < c.len() ==> c[e] == '.',
        forall|k: int| e < k < c.len() ==> c[k] != '.',
        e == c.len() ==> forall|k: int| 1 <= k < c.len() ==> c[k] != '.',
    ensures
        spec_strip_ext(c) == c.take(e),
    decreases c.len(),
{
    if c.len() <= 1 {
        assert(e == c.len());
        assert(c.take(e) =~= c);
    } else if c.last() == '.' {
        assert(e == c.len() - 1);
        assert(c.take(e) =~= c.drop_last());
    } else {
        assert(e < c.len() - 1 || e == c.len());
        if e == c.len() {
            assert(!has_inner_dot(c.drop_last())) by {
                if has_inner_dot(c.drop_last()) {
                    let i = choose|i: int| 1 <= i < c.drop_last().len() && c.drop_last()[i] == '.';
                    assert(c[i] == '.');
                }
            }
            assert(c.take(e) =~= c);
        } else {
            assert(has_inner_dot(c.drop_last())) by {
                assert(1 <= e < c.drop_last().len() && c.drop_last()[e] == '.');
            }
            lemma_strip_is_prefix(c.drop_last(), e);
            assert(c.drop_last().take(e) =~= c.take(e));
        }
    }
}

/// Compute the output filename for a script path: the path's stem with the
/// `.wasm` extension, or nothing when the path has no stem.
pub fn output_filename(js_name: &str) -> (r: Option<String>)
    ensures
        (match r {
            Option::Some(s) => spec_output_filename(js_name@) == Option::Some(s@),
            Option::None => spec_output_filename(js_name@) is None,
        }),
{
    let n = js_name.unicode_len();
    let start = match rfind_char(js_name, '/') {
        Option::Some(i) => i + 1,
        Option::None => 0,
    };
    proof {
        lemma_component_is_suffix(js_name@, start as int);
    }
    let comp = js_name.substring_char(start, n);
    assert(comp@ == spec_component(js_name@));
    let clen = n - start;

    if clen == 0 {
        return Option::None;
    }
    if clen == 1 && comp.get_char(0) == '.' {
        proof {
            reveal_strlit(".");
            assert(comp@ =~= "."@);
        }
        return Option::None;
    }
    if clen == 2 && comp.get_char(0) == '.' && comp.get_char(1) == '.' {
        proof {
            reveal_strlit("..");
            assert(comp@ =~= ".."@);
        }
        return Option::None;
    }
    proof {
        reveal_strlit(".");
        reveal_strlit("..");
        assert(comp@.len() != 0);
        assert(comp@ != "."@) by {
            if comp@ == "."@ {
                assert(comp@.len() == 1 && comp@[0] == '.');
            }
        }
        assert(comp@ != ".."@) by {
            if comp@ == ".."@ {
                assert(comp@.len() == 2 && comp@[0] == '.' && comp@[1] == '.');
            }
        }
    }

    let e: usize = match rfind_char(comp, '.') {
        Option::Some(j) => if j >= 1 {
            j
        } else {
            clen
        },
        Option::None => clen,
    };
    proof {
        lemma_strip_is_prefix(comp@, e as int);
    }
    let stem = comp.substring_char(0, e);
    assert(stem@ == spec_strip_ext(comp@));
    let mut out = stem.to_owned();
    out.append(".wasm");
    assert(out@ == spec_strip_ext(spec_component(js_name@)) + ".wasm"@);
    Option::Some(out)
}

} // verus!
