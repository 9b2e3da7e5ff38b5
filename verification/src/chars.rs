//! Character sequences: the conversions between strings and vectors of
//! characters that the text builders work on, and the spec helpers shared by
//! the quoting and template modules.
use vstd::prelude::*;

verus! {

broadcast use vstd::string::group_string_axioms;

/// `String::push`: the string afterwards is the old string followed by `c`.
#[verifier::external_body]
pub(crate) fn push_char(s: &mut String, c: char)
    ensures
        final(s)@ == old(s)@.push(c),
{
    s.push(c);
}

/// The characters of `s`, in order.
pub fn chars_of(s: &str) -> (v: Vec<char>)
    ensures
        v@ == s@,
{
    let mut v: Vec<char> = Vec::new();
    for c in it: s.chars()
        invariant
            it.seq() == s@,
            v@ == it.seq().take(it.index() as int),
    {
        v.push(c);
    }
    v
}

/// A string holding exactly the characters of `v`.
pub fn string_of(v: &Vec<char>) -> (s: String)
    ensures
        s@ == v@,
{
    let mut s = String::new();
    let mut i: usize = 0;
    while i < v.len()
        invariant
            i <= v.len(),
            s@ == v@.take(i as int),
        decreases v.len() - i,
    {
        push_char(&mut s, v[i]);
        i = i + 1;
        assert(v@.take(i as int) == v@.take(i - 1).push(v@[i - 1]));
    }
    assert(v@.take(v.len() as int) == v@);
    s
}

/// Appends the characters of `extra` to `out`.
pub fn extend_chars(out: &mut Vec<char>, extra: &Vec<char>)
    ensures
        final(out)@ == old(out)@ + extra@,
{
    let mut i: usize = 0;
    while i < extra.len()
        invariant
            i <= extra.len(),
            out@ == old(out)@ + extra@.take(i as int),
        decreases extra.len() - i,
    {
        out.push(extra[i]);
        i = i + 1;
        assert(extra@.take(i as int) == extra@.take(i - 1).push(extra@[i - 1]));
    }
    assert(extra@.take(extra.len() as int) == extra@);
}

/// Whether `pattern` occurs in `text` starting at position `at`.
pub fn occurs_at(text: &Vec<char>, at: usize, pattern: &Vec<char>) -> (found: bool)
    ensures
        found == (at + pattern.len() <= text.len() && text@.subrange(
            at as int,
            at + pattern.len(),
        ) == pattern@),
{
    if at > text.len() || pattern.len() > text.len() - at {
        return false;
    }
    let mut k: usize = 0;
    while k < pattern.len()
        invariant
            at + pattern.len() <= text.len(),
            k <= pattern.len(),
            forall|m: int| 0 <= m < k ==> text@[at + m] == pattern@[m],
        decreases pattern.len() - k,
    {
        if text[at + k] != pattern[k] {
            assert(text@.subrange(at as int, at + pattern.len())[k as int] != pattern@[k as int]);
            return false;
        }
        k = k + 1;
    }
    assert(text@.subrange(at as int, at + pattern.len()) =~= pattern@);
    true
}

/// Every non-overlapping occurrence of `pattern` in `text`, found from the
/// left, replaced by `replacement` (the meaning of `str::replace`).
pub open spec fn replace_all(text: Seq<char>, pattern: Seq<char>, replacement: Seq<char>) -> Seq<
    char,
>
    decreases text.len(),
{
    if pattern.len() == 0 || text.len() < pattern.len() {
        text
    } else if text.take(pattern.len() as int) == pattern {
        replacement + replace_all(text.skip(pattern.len() as int), pattern, replacement)
    } else {
        seq![text[0]] + replace_all(text.drop_first(), pattern, replacement)
    }
}

/// `text` with each occurrence of the non-empty `pattern` replaced.
pub(crate) fn replace_text(text: &str, pattern: &str, replacement: &str) -> (replaced: String)
    requires
        pattern@.len() > 0,
    ensures
        replaced@ == replace_all(text@, pattern@, replacement@),
{
    let t = chars_of(text);
    let p = chars_of(pattern);
    let r = chars_of(replacement);
    let mut out: Vec<char> = Vec::new();
    let mut i: usize = 0;
    assert(t@.skip(0) == t@);
    assert(out@ + replace_all(t@, p@, r@) == replace_all(t@, p@, r@));
    while i < t.len()
        invariant
            i <= t.len(),
            p@.len() > 0,
            replace_all(t@, p@, r@) == out@ + replace_all(t@.skip(i as int), p@, r@),
        decreases t.len() - i,
    {
        let rest = Ghost(t@.skip(i as int));
        if occurs_at(&t, i, &p) {
            assert(rest@.take(p@.len() as int) == t@.subrange(i as int, i + p@.len()));
            assert(rest@.skip(p@.len() as int) == t@.skip(i + p@.len()));
            extend_chars(&mut out, &r);
            i = i + p.len();
        } else {
            assert(rest@.drop_first() == t@.skip(i + 1));
            proof {
                if i + p@.len() <= t@.len() {
                    assert(rest@.take(p@.len() as int) == t@.subrange(i as int, i + p@.len()));
                }
            }
            assert(rest@[0] == t@[i as int]);
            proof {
                if rest@.len() < p@.len() {
                    assert(replace_all(rest@.drop_first(), p@, r@) == rest@.drop_first());
                    assert(rest@ =~= seq![rest@[0]] + rest@.drop_first());
                }
            }
            out.push(t[i]);
            i = i + 1;
        }
    }
    assert(t@.skip(i as int).len() == 0);
    string_of(&out)
}

/// ASCII lower case of one character; other characters stay as they are.
pub open spec fn ascii_lower(c: char) -> char {
    if 'A' <= c && c <= 'Z' {
        ((c as u32) + 32) as char
    } else {
        c
    }
}

/// ASCII lower case of a text (`str::to_ascii_lowercase`).
pub open spec fn ascii_lowercase(s: Seq<char>) -> Seq<char> {
    s.map_values(|c: char| ascii_lower(c))
}

/// `value` with its ASCII letters in lower case.
pub fn to_ascii_lowercase(value: &str) -> (lower: String)
    ensures
        lower@ == ascii_lowercase(value@),
{
    let v = chars_of(value);
    let mut out: Vec<char> = Vec::new();
    let mut i: usize = 0;
    while i < v.len()
        invariant
            i <= v.len(),
            out@ == ascii_lowercase(v@.take(i as int)),
        decreases v.len() - i,
    {
        let c = v[i];
        let l = if 'A' <= c && c <= 'Z' {
            let code: u8 = (c as u8) + 32;
            code as char
        } else {
            c
        };
        out.push(l);
        i = i + 1;
        assert(ascii_lowercase(v@.take(i as int)) =~= ascii_lowercase(v@.take(i - 1)).push(
            ascii_lower(c),
        ));
    }
    assert(v@.take(v.len() as int) == v@);
    string_of(&out)
}

/// Whether two texts are equal.
pub fn text_equals(a: &str, b: &str) -> (same: bool)
    ensures
        same == (a@ == b@),
{
    let x = String::from_str(a);
    let y = String::from_str(b);
    x == y
}

/// The pattern `parts[0] name parts[1] name ... parts[last]`: the parts with
/// `name` written between each two of them.
pub open spec fn instantiate(parts: Seq<Seq<char>>, name: Seq<char>) -> Seq<char>
    decreases parts.len(),
{
    if parts.len() == 0 {
        seq![]
    } else if parts.len() == 1 {
        parts[0]
    } else {
        instantiate(parts.drop_last(), name) + name + parts.last()
    }
}

/// The pattern instantiated with each name in turn, separated by `separator`.
pub open spec fn join_instances(names: Seq<Seq<char>>, parts: Seq<Seq<char>>, separator: Seq<char>) -> Seq<
    char,
>
    decreases names.len(),
{
    if names.len() == 0 {
        seq![]
    } else if names.len() == 1 {
        instantiate(parts, names[0])
    } else {
        join_instances(names.drop_last(), parts, separator) + separator + instantiate(
            parts,
            names.last(),
        )
    }
}

/// The views of a list of static texts.
pub open spec fn static_texts(names: Seq<&'static str>) -> Seq<Seq<char>> {
    names.map_values(|n: &'static str| n@)
}

/// The pattern `parts` instantiated with `name`.
pub fn instantiate_pattern(parts: &Vec<&'static str>, name: &str) -> (text: String)
    ensures
        text@ == instantiate(static_texts(parts@), name@),
{
    let ghost ps = static_texts(parts@);
    let mut text = String::new();
    if parts.len() == 0 {
        return text;
    }
    text.append(parts[0]);
    let mut i: usize = 1;
    assert(ps.take(1).drop_last().len() == 0);
    assert(instantiate(ps.take(1), name@) == ps.take(1)[0]);
    while i < parts.len()
        invariant
            1 <= i <= parts.len(),
            ps == static_texts(parts@),
            text@ == instantiate(ps.take(i as int), name@),
        decreases parts.len() - i,
    {
        text.append(name);
        text.append(parts[i]);
        i = i + 1;
        assert(ps.take(i as int).drop_last() == ps.take(i - 1));
        assert(ps.take(i as int).last() == ps[i - 1]);
    }
    assert(ps.take(parts.len() as int) == ps);
    text
}

/// Each name instantiated into the pattern `parts`, joined by `separator`.
pub fn join_pattern(names: &Vec<&'static str>, parts: &Vec<&'static str>, separator: &str) -> (text:
    String)
    ensures
        text@ == join_instances(static_texts(names@), static_texts(parts@), separator@),
{
    let ghost ns = static_texts(names@);
    let ghost ps = static_texts(parts@);
    let mut text = String::new();
    let mut i: usize = 0;
    assert(ns.take(0).len() == 0);
    while i < names.len()
        invariant
            i <= names.len(),
            ns == static_texts(names@),
            ps == static_texts(parts@),
            text@ == join_instances(ns.take(i as int), ps, separator@),
        decreases names.len() - i,
    {
        let item = instantiate_pattern(parts, names[i]);
        if i > 0 {
            text.append(separator);
        }
        text.append(item.as_str());
        i = i + 1;
        assert(ns.take(i as int).drop_last() == ns.take(i - 1));
        assert(ns.take(i as int).last() == ns[i - 1]);
        assert(ns[i - 1] == names@[i - 1]@);
        proof {
            if i == 1 {
                assert(text@ =~= instantiate(ps, ns[0]));
            }
        }
    }
    assert(ns.take(names.len() as int) == ns);
    text
}

/// The texts of a list of strings.
pub open spec fn string_texts(v: Seq<String>) -> Seq<Seq<char>> {
    v.map_values(|s: String| s@)
}

/// Whether `p` occurs in `t`.
pub open spec fn holds_text(t: Seq<char>, p: Seq<char>) -> bool {
    exists|i: int| 0 <= i && i + p.len() <= t.len() && #[trigger] t.subrange(i, i + p.len()) == p
}

/// Text that holds `p` still holds it with more text after it.
pub proof fn lemma_holds_text_extend(t: Seq<char>, u: Seq<char>, p: Seq<char>)
    requires
        holds_text(t, p),
    ensures
        holds_text(t + u, p),
{
    let i = choose|i: int| 0 <= i && i + p.len() <= t.len() && #[trigger] t.subrange(i, i + p.len()) == p;
    assert((t + u).subrange(i, i + p.len()) =~= t.subrange(i, i + p.len()));
}

/// Text that ends with `p` holds it.
pub proof fn lemma_holds_text_end(t: Seq<char>, p: Seq<char>)
    ensures
        holds_text(t + p, p),
{
    assert((t + p).subrange(t.len() as int, (t.len() + p.len()) as int) =~= p);
}

/// Whether an occurrence of `p` in `a + b` starts in `a` and ends in `b`.
pub open spec fn straddles(a: Seq<char>, b: Seq<char>, p: Seq<char>) -> bool {
    exists|i: int|
        0 <= i < a.len() && a.len() < i + p.len() <= a.len() + b.len() && #[trigger] (a + b).subrange(i, i + p.len()) == p
}

/// No occurrence of `p` crosses into `b` when `p` lacks the first character
/// of `b`.
pub proof fn lemma_no_straddle(a: Seq<char>, b: Seq<char>, p: Seq<char>)
    requires
        b.len() > 0,
        !p.contains(b[0]),
    ensures
        !straddles(a, b, p),
{
    if straddles(a, b, p) {
        let i = choose|i: int|
            0 <= i < a.len() && a.len() < i + p.len() <= a.len() + b.len() && #[trigger] (a + b).subrange(i, i + p.len()) == p;
        assert((a + b).subrange(i, i + p.len())[a.len() - i] == b[0]);
        assert(p[a.len() - i] == b[0]);
    }
}

/// Text without an occurrence of `p` is left as it is by replacing `p`.
pub proof fn lemma_replace_all_absent(t: Seq<char>, p: Seq<char>, r: Seq<char>)
    requires
        p.len() > 0,
        !holds_text(t, p),
    ensures
        replace_all(t, p, r) == t,
    decreases t.len(),
{
    if t.len() >= p.len() {
        assert(t.take(p.len() as int) != p) by {
            if t.take(p.len() as int) == p {
                assert(t.subrange(0, 0 + p.len() as int) =~= p);
            }
        }
        let rest = t.drop_first();
        assert(!holds_text(rest, p)) by {
            if holds_text(rest, p) {
                let i = choose|i: int| 0 <= i && i + p.len() <= rest.len() && #[trigger] rest.subrange(i, i + p.len()) == p;
                assert(t.subrange(i + 1, i + 1 + p.len()) =~= rest.subrange(i, i + p.len()));
            }
        }
        lemma_replace_all_absent(rest, p, r);
        assert(t =~= seq![t[0]] + rest);
    }
}

/// Replacing `p` in two texts one after the other is replacing it in each,
/// when no occurrence crosses from the first into the second.
pub proof fn lemma_replace_all_concat(a: Seq<char>, b: Seq<char>, p: Seq<char>, r: Seq<char>)
    requires
        p.len() > 0,
        !straddles(a, b, p),
    ensures
        replace_all(a + b, p, r) == replace_all(a, p, r) + replace_all(b, p, r),
    decreases a.len(),
{
    let t = a + b;
    if a.len() == 0 {
        assert(t =~= b);
        assert(replace_all(a, p, r) =~= seq![]);
    } else if t.len() < p.len() {
        assert(replace_all(a, p, r) == a);
        assert(replace_all(b, p, r) == b);
    } else if t.take(p.len() as int) == p {
        if a.len() < p.len() {
            assert((a + b).subrange(0, 0 + p.len() as int) =~= p);
            assert(straddles(a, b, p));
        }
        assert(a.take(p.len() as int) =~= t.take(p.len() as int));
        let rest = a.skip(p.len() as int);
        assert(t.skip(p.len() as int) =~= rest + b);
        assert(!straddles(rest, b, p)) by {
            if straddles(rest, b, p) {
                let i = choose|i: int|
                    0 <= i < rest.len() && rest.len() < i + p.len() <= rest.len() + b.len() && #[trigger] (rest + b).subrange(
                        i,
                        i + p.len(),
                    ) == p;
                assert(t.subrange(i + p.len(), i + p.len() + p.len()) =~= (rest + b).subrange(i, i + p.len()));
            }
        }
        lemma_replace_all_concat(rest, b, p, r);
        assert(replace_all(t, p, r) =~= replace_all(a, p, r) + replace_all(b, p, r));
    } else {
        let rest = a.drop_first();
        assert(t.drop_first() =~= rest + b);
        if a.len() >= p.len() {
            assert(a.take(p.len() as int) =~= t.take(p.len() as int));
        }
        assert(!straddles(rest, b, p)) by {
            if straddles(rest, b, p) {
                let i = choose|i: int|
                    0 <= i < rest.len() && rest.len() < i + p.len() <= rest.len() + b.len() && #[trigger] (rest + b).subrange(
                        i,
                        i + p.len(),
                    ) == p;
                assert(t.subrange(i + 1, i + 1 + p.len()) =~= (rest + b).subrange(i, i + p.len()));
            }
        }
        lemma_replace_all_concat(rest, b, p, r);
        if a.len() < p.len() {
            assert(replace_all(a, p, r) == a);
            assert(replace_all(rest, p, r) == rest);
            assert(a =~= seq![a[0]] + rest);
        }
        assert(t[0] == a[0]);
        assert(replace_all(t, p, r) =~= replace_all(a, p, r) + replace_all(b, p, r));
    }
}

/// Two texts without `p` hold none together, when no occurrence of `p`
/// crosses from the first into the second.
pub proof fn lemma_holds_text_concat(a: Seq<char>, b: Seq<char>, p: Seq<char>)
    requires
        !holds_text(a, p),
        !holds_text(b, p),
        !straddles(a, b, p),
    ensures
        !holds_text(a + b, p),
{
    if holds_text(a + b, p) {
        let i = choose|i: int| 0 <= i && i + p.len() <= (a + b).len() && #[trigger] (a + b).subrange(i, i + p.len()) == p;
        if i + p.len() <= a.len() {
            assert(a.subrange(i, i + p.len()) =~= (a + b).subrange(i, i + p.len()));
        } else if i >= a.len() {
            assert(b.subrange(i - a.len(), i - a.len() + p.len()) =~= (a + b).subrange(i, i + p.len()));
        } else {
            assert(straddles(a, b, p));
        }
    }
}

/// Whether `t` ends with `e`.
pub open spec fn ends_with(t: Seq<char>, e: Seq<char>) -> bool {
    e.len() <= t.len() && t.skip(t.len() - e.len()) == e
}

/// Text that holds a pattern still holds it with any text after it.
pub proof fn lemma_holds_text_grows()
    ensures
        forall|x: Seq<char>, y: Seq<char>, p: Seq<char>| holds_text(x, p) ==> #[trigger] holds_text(x + y, p),
{
    assert forall|x: Seq<char>, y: Seq<char>, p: Seq<char>| holds_text(x, p) implies #[trigger] holds_text(x + y, p) by {
        lemma_holds_text_extend(x, y, p);
    }
}

} // verus!
