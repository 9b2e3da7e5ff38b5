//! Local variable names of the wrapper scripts. Templates mark each local
//! variable as `@VAR_name@`; rendering turns every marker into `name_` followed
//! by a random suffix shared by the whole script, so that the wrapper's locals
//! cannot clash with the user's own variables.
use crate::chars::{
    chars_of, extend_chars, join_instances, join_pattern, occurs_at, static_texts, straddles, string_of,
};
use crate::contract::{COMMAND_DIRECTORY_ENV, COMMAND_ID_ENV};
use crate::shell::shims::{protected_environment_variables, protected_names_text};
use crate::error::ShellError;
use crate::outside::random_identifier;
use vstd::prelude::*;

verus! {

/// Number of characters in a namespace suffix.
pub const SUFFIX_LENGTH: usize = 12;

/// Text that opens a variable marker.
pub const MARKER_START: &'static str = "@VAR_";

/// A digit or lower-case ASCII letter.
pub open spec fn is_base36_char(c: char) -> bool {
    ('0' <= c && c <= '9') || ('a' <= c && c <= 'z')
}

/// A character that may start a variable name.
pub open spec fn is_name_start(c: char) -> bool {
    ('a' <= c && c <= 'z') || ('A' <= c && c <= 'Z') || c == '_'
}

/// A character that may occur in a variable name.
pub open spec fn is_name_char(c: char) -> bool {
    is_name_start(c) || ('0' <= c && c <= '9')
}

/// A valid variable name: an ASCII letter or `_`, then letters, digits or `_`.
pub open spec fn valid_semantic_text(v: Seq<char>) -> bool {
    v.len() > 0 && is_name_start(v[0]) && forall|i: int| 0 <= i < v.len() ==> is_name_char(
        #[trigger] v[i],
    )
}

/// The position of the first `c` in `s`.
pub open spec fn first_index_of(s: Seq<char>, c: char) -> Option<int>
    decreases s.len(),
{
    if s.len() == 0 {
        None
    } else if s[0] == c {
        Some(0)
    } else {
        match first_index_of(s.drop_first(), c) {
            Some(k) => Some(k + 1),
            None => None,
        }
    }
}

/// `rest` with `prefix` in front, when there is a `rest`.
pub open spec fn after(prefix: Seq<char>, rest: Option<Seq<char>>) -> Option<Seq<char>> {
    match rest {
        Some(r) => Some(prefix + r),
        None => None,
    }
}

/// The text `t` with every marker `marker name @` replaced by `name _ suffix`,
/// scanning from the left; `None` when a marker is not closed by `@` or its
/// name is not valid.
pub open spec fn render_markers(t: Seq<char>, marker: Seq<char>, suffix: Seq<char>) -> Option<
    Seq<char>,
>
    decreases t.len(),
{
    if t.len() < marker.len() || t.len() == 0 {
        Some(t)
    } else if t.take(marker.len() as int) == marker {
        let tail = t.skip(marker.len() as int);
        match first_index_of(tail, '@') {
            None => None,
            Some(j) => {
                proof {
                    lemma_first_index_bounds(tail, '@');
                }
                let name = tail.take(j);
                if valid_semantic_text(name) {
                    after(name + seq!['_'] + suffix, render_markers(tail.skip(j + 1), marker, suffix))
                } else {
                    None
                }
            },
        }
    } else {
        after(seq![t[0]], render_markers(t.drop_first(), marker, suffix))
    }
}

/// The position `first_index_of` reports lies in the text and holds `c`.
pub proof fn lemma_first_index_bounds(s: Seq<char>, c: char)
    ensures
        first_index_of(s, c) matches Some(k) ==> 0 <= k < s.len() && s[k] == c,
    decreases s.len(),
{
    if s.len() > 0 {
        lemma_first_index_bounds(s.drop_first(), c);
    }
}

proof fn lemma_first_index_found(s: Seq<char>, c: char, k: int)
    requires
        0 <= k < s.len(),
        s[k] == c,
        forall|l: int| 0 <= l < k ==> s[l] != c,
    ensures
        first_index_of(s, c) == Some(k),
    decreases k,
{
    if k > 0 {
        lemma_first_index_found(s.drop_first(), c, k - 1);
    }
}

proof fn lemma_first_index_absent(s: Seq<char>, c: char)
    requires
        forall|l: int| 0 <= l < s.len() ==> s[l] != c,
    ensures
        first_index_of(s, c) is None,
    decreases s.len(),
{
    if s.len() > 0 {
        lemma_first_index_absent(s.drop_first(), c);
    }
}

/// Text that holds no marker is left as it is.
pub proof fn lemma_render_without_markers(t: Seq<char>, marker: Seq<char>, suffix: Seq<char>)
    requires
        marker.len() > 0,
        forall|i: int| 0 <= i && i + marker.len() <= t.len() ==> #[trigger] t.subrange(i, i + marker.len())
            != marker,
    ensures
        render_markers(t, marker, suffix) == Some(t),
    decreases t.len(),
{
    if t.len() >= marker.len() && t.len() > 0 {
        assert(t.take(marker.len() as int) == t.subrange(0, marker.len() as int));
        let rest = t.drop_first();
        assert forall|i: int| 0 <= i && i + marker.len() <= rest.len() implies #[trigger] rest.subrange(
            i,
            i + marker.len(),
        ) != marker by {
            assert(rest.subrange(i, i + marker.len()) == t.subrange(i + 1, i + 1 + marker.len()));
        }
        lemma_render_without_markers(rest, marker, suffix);
        assert(t == seq![t[0]] + rest);
    }
}

/// The first `c` in two texts one after the other: the first in `x`, else
/// the first in `y`, counted from the start of `x`.
proof fn lemma_first_index_concat(x: Seq<char>, y: Seq<char>, c: char)
    ensures
        first_index_of(x + y, c) == match first_index_of(x, c) {
            Some(k) => Some(k),
            None => match first_index_of(y, c) {
                Some(k) => Some(k + x.len()),
                None => None,
            },
        },
    decreases x.len(),
{
    if x.len() == 0 {
        assert(x + y =~= y);
    } else {
        assert((x + y).drop_first() =~= x.drop_first() + y);
        assert((x + y)[0] == x[0]);
        lemma_first_index_concat(x.drop_first(), y, c);
    }
}

/// Rendering the markers of two texts one after the other renders each in
/// turn, when no marker crosses from the first into the second and the
/// second starts with a character that can neither close a marker nor stand
/// in a variable name.
pub proof fn lemma_render_concat(a: Seq<char>, b: Seq<char>, marker: Seq<char>, suffix: Seq<char>)
    requires
        marker.len() > 0,
        b.len() > 0,
        b[0] != '@',
        !is_name_char(b[0]),
        !straddles(a, b, marker),
    ensures
        render_markers(a + b, marker, suffix) == match render_markers(a, marker, suffix) {
            None => None,
            Some(x) => after(x, render_markers(b, marker, suffix)),
        },
    decreases a.len(),
{
    let t = a + b;
    let rb = render_markers(b, marker, suffix);
    if a.len() == 0 {
        assert(t =~= b);
        match rb {
            Some(y) => assert(Seq::<char>::empty() + y =~= y),
            None => {},
        }
    } else if t.len() < marker.len() {
        assert(render_markers(a, marker, suffix) == Some(a));
    } else if t.take(marker.len() as int) == marker {
        if a.len() < marker.len() {
            assert((a + b).subrange(0, 0 + marker.len() as int) =~= marker);
            assert(straddles(a, b, marker));
        }
        assert(a.take(marker.len() as int) =~= t.take(marker.len() as int));
        let tail_a = a.skip(marker.len() as int);
        let tail = t.skip(marker.len() as int);
        assert(tail =~= tail_a + b);
        lemma_first_index_concat(tail_a, b, '@');
        lemma_first_index_bounds(tail_a, '@');
        lemma_first_index_bounds(b, '@');
        match first_index_of(tail_a, '@') {
            Some(j) => {
                assert(tail.take(j) =~= tail_a.take(j));
                let rest = tail_a.skip(j + 1);
                assert(tail.skip(j + 1) =~= rest + b);
                assert(!straddles(rest, b, marker)) by {
                    if straddles(rest, b, marker) {
                        let i = choose|i: int|
                            0 <= i < rest.len() && rest.len() < i + marker.len() <= rest.len() + b.len()
                                && #[trigger] (rest + b).subrange(i, i + marker.len()) == marker;
                        let k = i + marker.len() + j + 1;
                        assert(t.subrange(k, k + marker.len()) =~= (rest + b).subrange(i, i + marker.len()));
                    }
                }
                lemma_render_concat(rest, b, marker, suffix);
                let name = tail_a.take(j);
                if valid_semantic_text(name) {
                    match render_markers(rest, marker, suffix) {
                        Some(x) => match rb {
                            Some(y) => assert(name + seq!['_'] + suffix + (x + y) =~= (name + seq!['_'] + suffix + x) + y),
                            None => {},
                        },
                        None => {},
                    }
                }
            },
            None => {
                match first_index_of(b, '@') {
                    Some(k) => {
                        assert(k != 0);
                        let j = k + tail_a.len();
                        let name = tail.take(j);
                        assert(name[tail_a.len() as int] == b[0]);
                        assert(!is_name_char(name[tail_a.len() as int]));
                        assert(!valid_semantic_text(name));
                    },
                    None => {},
                }
            },
        }
    } else {
        let rest = a.drop_first();
        assert(t.drop_first() =~= rest + b);
        assert(t[0] == a[0]);
        if a.len() >= marker.len() {
            assert(a.take(marker.len() as int) =~= t.take(marker.len() as int));
        }
        assert(!straddles(rest, b, marker)) by {
            if straddles(rest, b, marker) {
                let i = choose|i: int|
                    0 <= i < rest.len() && rest.len() < i + marker.len() <= rest.len() + b.len()
                        && #[trigger] (rest + b).subrange(i, i + marker.len()) == marker;
                assert(t.subrange(i + 1, i + 1 + marker.len()) =~= (rest + b).subrange(i, i + marker.len()));
            }
        }
        lemma_render_concat(rest, b, marker, suffix);
        if a.len() < marker.len() {
            assert(render_markers(a, marker, suffix) == Some(a));
            assert(render_markers(rest, marker, suffix) == Some(rest));
            assert(a =~= seq![a[0]] + rest);
        }
        match render_markers(rest, marker, suffix) {
            Some(x) => match rb {
                Some(y) => assert(seq![a[0]] + (x + y) =~= (seq![a[0]] + x) + y),
                None => {},
            },
            None => {},
        }
    }
}

/// A scope of wrapper-local variable names.
pub struct VariableNamespace {
    suffix: String,
}

impl View for VariableNamespace {
    type V = Seq<char>;

    /// The suffix appended to every variable name.
    closed spec fn view(&self) -> Seq<char> {
        self.suffix@
    }
}

/// The characters a namespace suffix is drawn from.
pub open spec fn base36_alphabet() -> Seq<char> {
    seq![
        '0', '1', '2', '3', '4', '5', '6', '7', '8', '9', 'a', 'b', 'c', 'd', 'e', 'f', 'g', 'h',
        'i', 'j', 'k', 'l', 'm', 'n', 'o', 'p', 'q', 'r', 's', 't', 'u', 'v', 'w', 'x', 'y', 'z',
    ]
}

impl VariableNamespace {
    /// A namespace with a fresh random suffix of twelve base-36 characters.
    pub fn new() -> (namespace: Self)
        ensures
            namespace@.len() == SUFFIX_LENGTH,
            forall|i: int| 0 <= i < namespace@.len() ==> is_base36_char(#[trigger] namespace@[i]),
    {
        let alphabet: Vec<char> = vec![
            '0', '1', '2', '3', '4', '5', '6', '7', '8', '9', 'a', 'b', 'c', 'd', 'e', 'f', 'g',
            'h', 'i', 'j', 'k', 'l', 'm', 'n', 'o', 'p', 'q', 'r', 's', 't', 'u', 'v', 'w', 'x',
            'y', 'z',
        ];
        assert(alphabet@ == base36_alphabet());
        assert forall|i: int| 0 <= i < alphabet.len() implies (#[trigger] alphabet@[i] as u32)
            < 128 by {
            assert(is_base36_char(alphabet@[i]));
        }
        let suffix = random_identifier(&alphabet, SUFFIX_LENGTH);
        assert forall|i: int| 0 <= i < suffix@.len() implies is_base36_char(#[trigger] suffix@[i]) by {
            assert(alphabet@.contains(suffix@[i]));
            let k = choose|k: int| 0 <= k < alphabet@.len() && alphabet@[k] == suffix@[i];
            assert(is_base36_char(alphabet@[k]));
        }
        VariableNamespace { suffix }
    }

    /// The template with every `@VAR_name@` marker replaced by `name_suffix`.
    /// Every marker of the template is closed by `@` and names an identifier.
    pub fn render(&self, template: &str) -> (rendered: String)
        requires
            render_markers(template@, MARKER_START@, self@) is Some,
        ensures
            render_markers(template@, MARKER_START@, self@) == Some(rendered@),
    {
        match self.try_render(template) {
            Ok(rendered) => rendered,
            Err(_) => {
                proof {
                    assert(false);
                }
                String::new()
            },
        }
    }

    /// The template with every `@VAR_name@` marker replaced by `name_suffix`;
    /// a marker that is not closed by `@`, or whose name is not an
    /// identifier, is reported as an error.
    pub fn try_render(&self, template: &str) -> (rendered: Result<String, ShellError>)
        ensures
            match render_markers(template@, MARKER_START@, self@) {
                Some(t) => rendered matches Ok(s) && s@ == t,
                None => rendered matches Err(e) && e == ShellError::MalformedVariableMarker,
            },
    {
        let t = chars_of(template);
        let m = chars_of(MARKER_START);
        let sfx = chars_of(self.suffix.as_str());
        let mut out: Vec<char> = Vec::new();
        let mut i: usize = 0;
        proof {
            assert(t@.skip(0) == t@);
            if let Some(r) = render_markers(t@, m@, sfx@) {
                assert(out@ + r =~= r);
            }
        }
        while i < t.len()
            invariant
                i <= t.len(),
                t@ == template@,
                m@ == MARKER_START@,
                sfx@ == self@,
                render_markers(t@, m@, sfx@) == after(out@, render_markers(t@.skip(i as int), m@, sfx@)),
            decreases t.len() - i,
        {
            if occurs_at(&t, i, &m) {
                let start = i + m.len();
                match find_char_from(&t, start, '@') {
                    None => {
                        proof {
                            lemma_render_unclosed(t@, m@, sfx@, i as int);
                        }
                        return Err(ShellError::MalformedVariableMarker);
                    },
                    Some(j) => {
                        let name = copy_range(&t, start, j);
                        let name_text = string_of(&name);
                        if !valid_semantic_prefix(name_text.as_str()) {
                            proof {
                                lemma_render_invalid_name(t@, m@, sfx@, i as int, j as int);
                            }
                            return Err(ShellError::MalformedVariableMarker);
                        }
                        let ghost before = out@;
                        extend_chars(&mut out, &name);
                        out.push('_');
                        extend_chars(&mut out, &sfx);
                        proof {
                            lemma_render_marker(t@, m@, sfx@, i as int, j as int, before);
                            assert(out@ == before + name@ + seq!['_'] + sfx@);
                        }
                        i = j + 1;
                    },
                }
            } else {
                proof {
                    lemma_render_plain(t@, m@, sfx@, i as int, out@);
                }
                out.push(t[i]);
                i = i + 1;
            }
        }
        proof {
            assert(t@.skip(i as int).len() == 0);
            assert(out@ + t@.skip(i as int) =~= out@);
        }
        Ok(string_of(&out))
    }
}

/// The first position at or after `start` where `c` occurs in `t`.
fn find_char_from(t: &Vec<char>, start: usize, c: char) -> (found: Option<usize>)
    requires
        start <= t.len(),
    ensures
        found matches Some(j) ==> start <= j < t.len() && t@[j as int] == c && forall|k: int|
            start <= k < j ==> t@[k] != c,
        found is None ==> forall|k: int| start <= k < t.len() ==> t@[k] != c,
{
    let mut j: usize = start;
    while j < t.len()
        invariant
            start <= j <= t.len(),
            forall|k: int| start <= k < j ==> t@[k] != c,
        decreases t.len() - j,
    {
        if t[j] == c {
            return Some(j);
        }
        j = j + 1;
    }
    None
}

/// The characters of `t` from `start` up to, not including, `end`.
fn copy_range(t: &Vec<char>, start: usize, end: usize) -> (part: Vec<char>)
    requires
        start <= end <= t.len(),
    ensures
        part@ == t@.subrange(start as int, end as int),
{
    let mut part: Vec<char> = Vec::new();
    let mut k: usize = start;
    while k < end
        invariant
            start <= k <= end <= t.len(),
            part@ == t@.subrange(start as int, k as int),
        decreases end - k,
    {
        part.push(t[k]);
        k = k + 1;
        assert(t@.subrange(start as int, k as int) == t@.subrange(start as int, k - 1).push(
            t@[k - 1],
        ));
    }
    part
}

proof fn lemma_render_unclosed(t: Seq<char>, m: Seq<char>, sfx: Seq<char>, i: int)
    requires
        0 <= i < t.len(),
        i + m.len() <= t.len(),
        t.subrange(i, i + m.len()) == m,
        forall|k: int| i + m.len() <= k < t.len() ==> t[k] != '@',
    ensures
        render_markers(t.skip(i), m, sfx) is None,
{
    let rest = t.skip(i);
    assert(rest.take(m.len() as int) == t.subrange(i, i + m.len()));
    let tail = rest.skip(m.len() as int);
    assert forall|l: int| 0 <= l < tail.len() implies tail[l] != '@' by {
        assert(tail[l] == t[i + m.len() + l]);
    }
    lemma_first_index_absent(tail, '@');
}

proof fn lemma_render_invalid_name(t: Seq<char>, m: Seq<char>, sfx: Seq<char>, i: int, j: int)
    requires
        0 <= i < t.len(),
        i + m.len() <= j < t.len(),
        t.subrange(i, i + m.len()) == m,
        t[j] == '@',
        forall|k: int| i + m.len() <= k < j ==> t[k] != '@',
        !valid_semantic_text(t.subrange(i + m.len(), j)),
    ensures
        render_markers(t.skip(i), m, sfx) is None,
{
    let rest = t.skip(i);
    assert(rest.take(m.len() as int) == t.subrange(i, i + m.len()));
    let tail = rest.skip(m.len() as int);
    let start = i + m.len();
    assert(tail[j - start] == '@');
    assert forall|l: int| 0 <= l < j - start implies tail[l] != '@' by {
        assert(tail[l] == t[start + l]);
    }
    lemma_first_index_found(tail, '@', j - start);
    assert(tail.take(j - start) == t.subrange(start, j));
}

proof fn lemma_render_marker(
    t: Seq<char>,
    m: Seq<char>,
    sfx: Seq<char>,
    i: int,
    j: int,
    out: Seq<char>,
)
    requires
        0 <= i < t.len(),
        i + m.len() <= j < t.len(),
        t.subrange(i, i + m.len()) == m,
        t[j] == '@',
        forall|k: int| i + m.len() <= k < j ==> t[k] != '@',
        valid_semantic_text(t.subrange(i + m.len(), j)),
    ensures
        after(out, render_markers(t.skip(i), m, sfx)) == after(
            out + t.subrange(i + m.len(), j) + seq!['_'] + sfx,
            render_markers(t.skip(j + 1), m, sfx),
        ),
{
    let rest = t.skip(i);
    assert(rest.take(m.len() as int) == t.subrange(i, i + m.len()));
    let tail = rest.skip(m.len() as int);
    let start = i + m.len();
    assert(tail[j - start] == '@');
    assert forall|l: int| 0 <= l < j - start implies tail[l] != '@' by {
        assert(tail[l] == t[start + l]);
    }
    lemma_first_index_found(tail, '@', j - start);
    assert(tail.take(j - start) == t.subrange(start, j));
    assert(tail.skip(j - start + 1) == t.skip(j + 1));
    let name = t.subrange(start, j);
    if let Some(r) = render_markers(t.skip(j + 1), m, sfx) {
        assert(out + (name + seq!['_'] + sfx + r) =~= out + name + seq!['_'] + sfx + r);
    }
}

proof fn lemma_render_plain(t: Seq<char>, m: Seq<char>, sfx: Seq<char>, i: int, out: Seq<char>)
    requires
        0 <= i < t.len(),
        !(i + m.len() <= t.len() && t.subrange(i, i + m.len()) == m),
    ensures
        after(out, render_markers(t.skip(i), m, sfx)) == after(
            out.push(t[i]),
            render_markers(t.skip(i + 1), m, sfx),
        ),
{
    let rest = t.skip(i);
    assert(rest.drop_first() == t.skip(i + 1));
    assert(rest[0] == t[i]);
    if i + m.len() <= t.len() {
        assert(rest.take(m.len() as int) == t.subrange(i, i + m.len()));
    } else {
        assert(render_markers(rest.drop_first(), m, sfx) == Some(rest.drop_first()));
        assert(rest =~= seq![rest[0]] + rest.drop_first());
    }
    if let Some(r) = render_markers(t.skip(i + 1), m, sfx) {
        assert(out + (seq![t[i]] + r) =~= out.push(t[i]) + r);
    }
}

/// Whether `value` can name a wrapper variable: an ASCII letter or `_`
/// followed by ASCII letters, digits and `_`.
pub fn valid_semantic_prefix(value: &str) -> (valid: bool)
    ensures
        valid == valid_semantic_text(value@),
{
    let v = chars_of(value);
    if v.len() == 0 {
        return false;
    }
    let first = v[0];
    if !(('a' <= first && first <= 'z') || ('A' <= first && first <= 'Z') || first == '_') {
        return false;
    }
    let mut i: usize = 0;
    while i < v.len()
        invariant
            i <= v.len(),
            v@ == value@,
            v@.len() > 0 && is_name_start(v@[0]),
            forall|k: int| 0 <= k < i ==> is_name_char(#[trigger] v@[k]),
        decreases v.len() - i,
    {
        let c = v[i];
        if !(('a' <= c && c <= 'z') || ('A' <= c && c <= 'Z') || c == '_' || ('0' <= c && c <= '9')) {
            assert(!is_name_char(v@[i as int]));
            return false;
        }
        i = i + 1;
    }
    true
}


/// The protected variables together with the running command's identity.
pub open spec fn guarded_names_text() -> Seq<Seq<char>> {
    protected_names_text() + seq![COMMAND_ID_ENV@, COMMAND_DIRECTORY_ENV@]
}

/// The protected variables followed by the running command's identifier and
/// record directory.
pub fn protected_environment_names() -> (names: Vec<&'static str>)
    ensures
        static_texts(names@) == guarded_names_text(),
{
    let mut names = protected_environment_variables();
    names.push(COMMAND_ID_ENV);
    names.push(COMMAND_DIRECTORY_ENV);
    assert(static_texts(names@) =~= guarded_names_text());
    names
}

pub const VARIABLES_0: &'static str = "    local @VAR_protected_";
pub const VARIABLES_1: &'static str = r#"@="${"#;
pub const VARIABLES_2: &'static str = r#"-}""#;
pub const VARIABLES_3: &'static str = "\n";
pub const VARIABLES_4: &'static str = r#"    local @VAR_complete_environment@="$(export -p | sed 's/^declare -x /export /')"
"#;
pub const VARIABLES_5: &'static str = "    export ";
pub const VARIABLES_6: &'static str = r#"="$@VAR_protected_"#;
pub const VARIABLES_7: &'static str = r#"@""#;
pub const VARIABLES_8: &'static str = "\n";
pub const VARIABLES_9: &'static str = r#"    if [ -z "${PATH+x}" ] && [ -z "${PWD+x}" ]; then
        eval "$@VAR_complete_environment@"
    fi
"#;
pub const VARIABLES_10: &'static str = "";
pub const VARIABLES_11: &'static str = "";
pub const VARIABLES_12: &'static str = " ";
pub const VARIABLES_13: &'static str = r#"set ""#;
pub const VARIABLES_14: &'static str = r#"=""#;
pub const VARIABLES_15: &'static str = "\n";
pub const VARIABLES_16: &'static str = r#"
for /f "usebackq delims=" %%e in ("%~dp0@VAR_protected_environment_file@.txt") do set "%%e""#;
pub const VARIABLES_17: &'static str = r#"/c:""#;
pub const VARIABLES_18: &'static str = r#"=""#;
pub const VARIABLES_19: &'static str = " ";
pub const VARIABLES_20: &'static str = "findstr.exe /b /l ";
pub const VARIABLES_21: &'static str = r#" "%~dp0@VAR_environment_before_file@.txt" > "%~dp0@VAR_protected_environment_file@.txt""#;
pub const VARIABLES_22: &'static str = "'";
pub const VARIABLES_23: &'static str = "'";
pub const VARIABLES_24: &'static str = ", ";
pub const VARIABLES_25: &'static str = r#"""#;
pub const VARIABLES_26: &'static str = r#"""#;
pub const VARIABLES_27: &'static str = ", ";

/// POSIX lines that save the complete environment and each protected variable in wrapper locals.
pub open spec fn posix_environment_snapshot_text() -> Seq<char> {
    VARIABLES_4@ + (join_instances(protected_names_text(), seq![VARIABLES_0@, VARIABLES_1@, VARIABLES_2@], VARIABLES_3@))
}

/// POSIX lines that save the complete environment and each protected variable in wrapper locals.
pub fn posix_environment_snapshot() -> (text: String)
    ensures
        text@ == posix_environment_snapshot_text(),
{
    let names = protected_environment_variables();
    let parts: Vec<&'static str> = vec![VARIABLES_0, VARIABLES_1, VARIABLES_2];
    assert(static_texts(parts@) =~= seq![VARIABLES_0@, VARIABLES_1@, VARIABLES_2@]);
    let joined = join_pattern(&names, &parts, VARIABLES_3);
    let mut text = String::from_str(VARIABLES_4);
    text.append(joined.as_str());
    text
}

/// POSIX lines that bring back the environment if a command cleared it, and then every protected variable.
pub open spec fn posix_environment_restore_text() -> Seq<char> {
    VARIABLES_9@ + (join_instances(protected_names_text(), seq![VARIABLES_5@, VARIABLES_6@, VARIABLES_7@], VARIABLES_8@))
}

/// POSIX lines that bring back the environment if a command cleared it, and then every protected variable.
pub fn posix_environment_restore() -> (text: String)
    ensures
        text@ == posix_environment_restore_text(),
{
    let names = protected_environment_variables();
    let parts: Vec<&'static str> = vec![VARIABLES_5, VARIABLES_6, VARIABLES_7];
    assert(static_texts(parts@) =~= seq![VARIABLES_5@, VARIABLES_6@, VARIABLES_7@]);
    let joined = join_pattern(&names, &parts, VARIABLES_8);
    let mut text = String::from_str(VARIABLES_9);
    text.append(joined.as_str());
    text
}

/// The guarded variable names separated by spaces, for Nushell.
pub open spec fn nushell_protected_environment_names_text() -> Seq<char> {
    (join_instances(guarded_names_text(), seq![VARIABLES_10@, VARIABLES_11@], VARIABLES_12@))
}

/// The guarded variable names separated by spaces, for Nushell.
pub fn nushell_protected_environment_names() -> (text: String)
    ensures
        text@ == nushell_protected_environment_names_text(),
{
    let names = protected_environment_names();
    let parts: Vec<&'static str> = vec![VARIABLES_10, VARIABLES_11];
    assert(static_texts(parts@) =~= seq![VARIABLES_10@, VARIABLES_11@]);
    let joined = join_pattern(&names, &parts, VARIABLES_12);
    let text = joined;
    text
}

/// Batch lines that clear the guarded variables and then set them again from the captured file.
pub open spec fn cmd_environment_restore_text() -> Seq<char> {
    (join_instances(guarded_names_text(), seq![VARIABLES_13@, VARIABLES_14@], VARIABLES_15@)) + VARIABLES_16@
}

/// Batch lines that clear the guarded variables and then set them again from the captured file.
pub fn cmd_environment_restore() -> (text: String)
    ensures
        text@ == cmd_environment_restore_text(),
{
    let names = protected_environment_names();
    let parts: Vec<&'static str> = vec![VARIABLES_13, VARIABLES_14];
    assert(static_texts(parts@) =~= seq![VARIABLES_13@, VARIABLES_14@]);
    let joined = join_pattern(&names, &parts, VARIABLES_15);
    let mut text = String::from_str(joined.as_str());
    text.append(VARIABLES_16);
    text
}

/// The batch command that captures the guarded variables from the saved environment.
pub open spec fn cmd_environment_capture_text() -> Seq<char> {
    VARIABLES_20@ + (join_instances(guarded_names_text(), seq![VARIABLES_17@, VARIABLES_18@], VARIABLES_19@)) + VARIABLES_21@
}

/// The batch command that captures the guarded variables from the saved environment.
pub fn cmd_environment_capture() -> (text: String)
    ensures
        text@ == cmd_environment_capture_text(),
{
    let names = protected_environment_names();
    let parts: Vec<&'static str> = vec![VARIABLES_17, VARIABLES_18];
    assert(static_texts(parts@) =~= seq![VARIABLES_17@, VARIABLES_18@]);
    let joined = join_pattern(&names, &parts, VARIABLES_19);
    let mut text = String::from_str(VARIABLES_20);
    text.append(joined.as_str());
    text.append(VARIABLES_21);
    text
}

/// The guarded variable names as single-quoted PowerShell strings separated by commas.
pub open spec fn powershell_protected_environment_names_text() -> Seq<char> {
    (join_instances(guarded_names_text(), seq![VARIABLES_22@, VARIABLES_23@], VARIABLES_24@))
}

/// The guarded variable names as single-quoted PowerShell strings separated by commas.
pub fn powershell_protected_environment_names() -> (text: String)
    ensures
        text@ == powershell_protected_environment_names_text(),
{
    let names = protected_environment_names();
    let parts: Vec<&'static str> = vec![VARIABLES_22, VARIABLES_23];
    assert(static_texts(parts@) =~= seq![VARIABLES_22@, VARIABLES_23@]);
    let joined = join_pattern(&names, &parts, VARIABLES_24);
    let text = joined;
    text
}

/// The guarded variable names as double-quoted strings separated by commas.
pub open spec fn quoted_protected_environment_names_text() -> Seq<char> {
    (join_instances(guarded_names_text(), seq![VARIABLES_25@, VARIABLES_26@], VARIABLES_27@))
}

/// The guarded variable names as double-quoted strings separated by commas.
pub fn quoted_protected_environment_names() -> (text: String)
    ensures
        text@ == quoted_protected_environment_names_text(),
{
    let names = protected_environment_names();
    let parts: Vec<&'static str> = vec![VARIABLES_25, VARIABLES_26];
    assert(static_texts(parts@) =~= seq![VARIABLES_25@, VARIABLES_26@]);
    let joined = join_pattern(&names, &parts, VARIABLES_27);
    let text = joined;
    text
}

/// A possible namespace suffix: twelve base-36 characters.
pub open spec fn namespace_suffix(suffix: Seq<char>) -> bool {
    &&& suffix.len() == SUFFIX_LENGTH
    &&& forall|i: int| 0 <= i < suffix.len() ==> is_base36_char(#[trigger] suffix[i])
}

/// A namespace suffix of twelve zeros.
pub open spec fn some_suffix() -> Seq<char> {
    Seq::new(12, |i: int| '0')
}

/// Rendering the markers of `t` with `suffix`, as a result.
pub open spec fn marker_rendering(t: Seq<char>, suffix: Seq<char>) -> Result<Seq<char>, ShellError> {
    match render_markers(t, MARKER_START@, suffix) {
        Some(x) => Ok(x),
        None => Err(ShellError::MalformedVariableMarker),
    }
}

/// `r` holds the expected text, or fails with the expected error.
pub open spec fn outcome_matches(r: Result<String, ShellError>, expected: Result<Seq<char>, ShellError>) -> bool {
    match expected {
        Ok(t) => r matches Ok(s) && s@ == t,
        Err(e) => r matches Err(x) && x == e,
    }
}

/// `r` is what rendering the markers of `t` gives in some namespace.
pub open spec fn rendered_in_some_namespace(r: Result<String, ShellError>, t: Seq<char>) -> bool {
    exists|suffix: Seq<char>|
        namespace_suffix(suffix) && #[trigger] outcome_matches(r, marker_rendering(t, suffix))
}

/// The markers of `template` rendered in a fresh namespace.
pub fn render_in_new_namespace(template: &str) -> (r: Result<String, ShellError>)
    ensures
        rendered_in_some_namespace(r, template@),
{
    let namespace = VariableNamespace::new();
    let r = namespace.try_render(template);
    assert(namespace_suffix(namespace@) && outcome_matches(r, marker_rendering(template@, namespace@)));
    r
}

} // verus!
