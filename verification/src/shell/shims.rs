//! The environment of a controlled shell: the variables FuncTerm manages, the
//! shim directory placed first on `PATH`, and the inherited variables kept.
use crate::chars::static_texts;
use crate::contract::{COMMAND_DIRECTORY_ENV, COMMAND_ID_ENV, HELPER_EXECUTABLE_ENV};
use crate::error::ShellError;
use crate::shell::choice::{
    all_shells, canonical_text, lemma_canonical_name_letters, lemma_canonical_name_round_trip,
    shell_with_canonical_name, shim_env_text, ShellChoice,
};
use vstd::prelude::*;
use vstd::utf8::encode_utf8;

verus! {

/// Environment variable naming the file that records the active shell.
pub const ACTIVE_SHELL_FILE_ENV: &'static str = "FUNCTERM_ACTIVE_SHELL_FILE";

/// Environment variable naming the shell that a wrapper runs in.
pub const CURRENT_SHELL_ENV: &'static str = "FUNCTERM_CURRENT_SHELL";

/// Environment variable naming the session's root directory.
pub const SESSION_ROOT_ENV: &'static str = "FUNCTERM_SESSION_ROOT";

/// Environment variable naming the directory of shell shims.
pub const SHIM_DIR_ENV: &'static str = "FUNCTERM_SHIM_DIR";

/// The variables a command may not change for the session: FuncTerm's own
/// state and the real executables behind the shims.
pub open spec fn protected_names_text() -> Seq<Seq<char>> {
    seq![
        SHIM_DIR_ENV@,
        SESSION_ROOT_ENV@,
        ACTIVE_SHELL_FILE_ENV@,
        HELPER_EXECUTABLE_ENV@,
        CURRENT_SHELL_ENV@,
        "FUNCTERM_REAL_POWERSHELL"@,
        "FUNCTERM_REAL_BASH"@,
        "FUNCTERM_REAL_NUSHELL"@,
        "FUNCTERM_REAL_ZSH"@,
        "FUNCTERM_REAL_CMD"@,
        "FUNCTERM_REAL_BUN"@,
        "FUNCTERM_REAL_PYTHON"@,
    ]
}

/// The variables a command may not change for the session.
pub fn protected_environment_variables() -> (names: Vec<&'static str>)
    ensures
        static_texts(names@) == protected_names_text(),
{
    let names = vec![
        SHIM_DIR_ENV,
        SESSION_ROOT_ENV,
        ACTIVE_SHELL_FILE_ENV,
        HELPER_EXECUTABLE_ENV,
        CURRENT_SHELL_ENV,
        "FUNCTERM_REAL_POWERSHELL",
        "FUNCTERM_REAL_BASH",
        "FUNCTERM_REAL_NUSHELL",
        "FUNCTERM_REAL_ZSH",
        "FUNCTERM_REAL_CMD",
        "FUNCTERM_REAL_BUN",
        "FUNCTERM_REAL_PYTHON",
    ];
    assert(static_texts(names@) =~= protected_names_text());
    names
}

/// A byte with an ASCII capital letter turned into lower case.
pub open spec fn fold_ascii(b: u8) -> u8 {
    if 65 <= b && b <= 90 {
        (b + 32) as u8
    } else {
        b
    }
}

/// Two byte strings that are equal when ASCII letters are compared without
/// regard to case.
pub open spec fn equal_ignoring_ascii_case(a: Seq<u8>, b: Seq<u8>) -> bool {
    &&& a.len() == b.len()
    &&& forall|i: int| 0 <= i < a.len() ==> fold_ascii(#[trigger] a[i]) == fold_ascii(b[i])
}

/// How a host compares environment names and paths: without ASCII case on
/// Windows, exactly elsewhere.
pub open spec fn host_equal(a: Seq<u8>, b: Seq<u8>, windows: bool) -> bool {
    if windows {
        equal_ignoring_ascii_case(a, b)
    } else {
        a == b
    }
}

/// Whether two byte strings are equal when ASCII letters are compared
/// without regard to case.
pub fn eq_ignore_ascii_case(a: &[u8], b: &[u8]) -> (same: bool)
    ensures
        same == equal_ignoring_ascii_case(a@, b@),
{
    if a.len() != b.len() {
        return false;
    }
    let mut i: usize = 0;
    while i < a.len()
        invariant
            a.len() == b.len(),
            i <= a.len(),
            forall|k: int| 0 <= k < i ==> fold_ascii(#[trigger] a@[k]) == fold_ascii(b@[k]),
        decreases a.len() - i,
    {
        let x = a[i];
        let y = b[i];
        let fx: u8 = if 65 <= x && x <= 90 { x + 32 } else { x };
        let fy: u8 = if 65 <= y && y <= 90 { y + 32 } else { y };
        if fx != fy {
            assert(fold_ascii(a@[i as int]) != fold_ascii(b@[i as int]));
            return false;
        }
        i = i + 1;
    }
    true
}

/// Whether two paths, given by the bytes of their native encoding, are the
/// same path text on a Windows host when `windows` holds, on other hosts
/// otherwise.
pub fn path_equals(actual: &[u8], expected: &[u8], windows: bool) -> (same: bool)
    ensures
        same == host_equal(actual@, expected@, windows),
{
    if windows {
        eq_ignore_ascii_case(actual, expected)
    } else {
        let a = vstd::slice::slice_to_vec(actual);
        let b = vstd::slice::slice_to_vec(expected);
        bytes_equal(&a, &b)
    }
}

/// Whether two byte strings are equal.
fn bytes_equal(a: &Vec<u8>, b: &Vec<u8>) -> (same: bool)
    ensures
        same == (a@ == b@),
{
    if a.len() != b.len() {
        return false;
    }
    let mut i: usize = 0;
    while i < a.len()
        invariant
            a.len() == b.len(),
            i <= a.len(),
            forall|k: int| 0 <= k < i ==> a@[k] == b@[k],
        decreases a.len() - i,
    {
        if a[i] != b[i] {
            return false;
        }
        i = i + 1;
    }
    assert(a@ =~= b@);
    true
}

/// Whether the environment name `actual` names the variable `expected` on a
/// Windows host when `windows` holds, on other hosts otherwise.
pub fn environment_name_equals(actual: &[u8], expected: &str, windows: bool) -> (same: bool)
    ensures
        same == host_equal(actual@, encode_utf8(expected@), windows),
{
    path_equals(actual, expected.as_bytes(), windows)
}

/// The variables FuncTerm sets for a shell and never inherits: `PATH`, its
/// own state, the running command's identity, and the real executable of
/// every shell.
pub open spec fn managed_names() -> Seq<Seq<char>> {
    seq![
        "PATH"@,
        SHIM_DIR_ENV@,
        SESSION_ROOT_ENV@,
        ACTIVE_SHELL_FILE_ENV@,
        HELPER_EXECUTABLE_ENV@,
        CURRENT_SHELL_ENV@,
        COMMAND_ID_ENV@,
        COMMAND_DIRECTORY_ENV@,
    ] + all_shells().map_values(|c: ShellChoice| shim_env_text(c))
}

/// Whether `name` is one of the managed variables on the given kind of host.
pub open spec fn is_managed(name: Seq<u8>, windows: bool) -> bool {
    exists|i: int| 0 <= i < managed_names().len() && host_equal(name, encode_utf8(#[trigger] managed_names()[i]), windows)
}

/// Whether the environment name `name` is one that FuncTerm manages.
pub fn is_managed_name(name: &[u8], windows: bool) -> (managed: bool)
    ensures
        managed == is_managed(name@, windows),
{
    let fixed: Vec<&'static str> = vec![
        "PATH",
        SHIM_DIR_ENV,
        SESSION_ROOT_ENV,
        ACTIVE_SHELL_FILE_ENV,
        HELPER_EXECUTABLE_ENV,
        CURRENT_SHELL_ENV,
        COMMAND_ID_ENV,
        COMMAND_DIRECTORY_ENV,
    ];
    let ghost names = managed_names();
    assert(forall|k: int| 0 <= k < 8 ==> #[trigger] names[k] == static_texts(fixed@)[k]);
    assert(forall|k: int| 8 <= k < 15 ==> #[trigger] names[k] == shim_env_text(all_shells()[k - 8]));
    let mut i: usize = 0;
    while i < fixed.len()
        invariant
            i <= fixed.len(),
            fixed.len() == 8,
            names == managed_names(),
            forall|k: int| 0 <= k < 8 ==> #[trigger] names[k] == static_texts(fixed@)[k],
            forall|k: int| 0 <= k < i ==> !host_equal(name@, encode_utf8(#[trigger] names[k]), windows),
        decreases fixed.len() - i,
    {
        if environment_name_equals(name, fixed[i], windows) {
            assert(host_equal(name@, encode_utf8(names[i as int]), windows));
            return true;
        }
        i = i + 1;
    }
    let shells = ShellChoice::all();
    let mut j: usize = 0;
    while j < shells.len()
        invariant
            j <= shells.len(),
            shells@ == all_shells(),
            names == managed_names(),
            forall|k: int| 8 <= k < 15 ==> #[trigger] names[k] == shim_env_text(all_shells()[k - 8]),
            forall|k: int| 0 <= k < 8 + j ==> !host_equal(name@, encode_utf8(#[trigger] names[k]), windows),
        decreases shells.len() - j,
    {
        if environment_name_equals(name, shells[j].shim_env_name(), windows) {
            assert(host_equal(name@, encode_utf8(names[8 + j]), windows));
            return true;
        }
        j = j + 1;
    }
    false
}

/// The texts of a list of byte strings.
pub open spec fn byte_strings(v: Seq<Vec<u8>>) -> Seq<Seq<u8>> {
    v.map_values(|e: Vec<u8>| e@)
}

/// The search path entries other than the old shim directory, in order.
pub open spec fn without_old_shim(entries: Seq<Seq<u8>>, old_shim: Option<Seq<u8>>, windows: bool) -> Seq<Seq<u8>>
    decreases entries.len(),
{
    if entries.len() == 0 {
        seq![]
    } else {
        let rest = without_old_shim(entries.drop_last(), old_shim, windows);
        if old_shim matches Some(o) && host_equal(entries.last(), o, windows) {
            rest
        } else {
            rest.push(entries.last())
        }
    }
}

/// A shell's search path: the shim directory first, then the inherited
/// entries without the shim directory of an enclosing session.
pub open spec fn search_path(
    shim_dir: Seq<u8>,
    inherited_path: Option<Seq<Seq<u8>>>,
    old_shim: Option<Seq<u8>>,
    windows: bool,
) -> Seq<Seq<u8>> {
    seq![shim_dir] + match inherited_path {
        Some(p) => without_old_shim(p, old_shim, windows),
        None => seq![],
    }
}

/// The entries of a shell's search path, to be joined in the host's way.
pub fn prepend_path(
    shim_dir: &[u8],
    inherited_path: Option<&Vec<Vec<u8>>>,
    inherited_shim: Option<&[u8]>,
    windows: bool,
) -> (entries: Vec<Vec<u8>>)
    ensures
        byte_strings(entries@) == search_path(
            shim_dir@,
            match inherited_path {
                Some(p) => Some(byte_strings(p@)),
                None => None,
            },
            match inherited_shim {
                Some(s) => Some(s@),
                None => None,
            },
            windows,
        ),
{
    let ghost old = match inherited_shim {
        Some(s) => Some(s@),
        None => None::<Seq<u8>>,
    };
    let mut parts: Vec<Vec<u8>> = vec![vstd::slice::slice_to_vec(shim_dir)];
    match inherited_path {
        None => {
            assert(byte_strings(parts@) =~= search_path(shim_dir@, None, old, windows));
        },
        Some(path) => {
            let ghost entries = byte_strings(path@);
            let mut i: usize = 0;
            assert(entries.take(0) =~= seq![]);
            assert(byte_strings(parts@) =~= seq![shim_dir@] + without_old_shim(entries.take(0), old, windows));
            while i < path.len()
                invariant
                    i <= path.len(),
                    entries == byte_strings(path@),
                    old == match inherited_shim {
                        Some(s) => Some(s@),
                        None => None::<Seq<u8>>,
                    },
                    byte_strings(parts@) == seq![shim_dir@] + without_old_shim(entries.take(i as int), old, windows),
                decreases path.len() - i,
            {
                let entry = &path[i];
                let skip = match inherited_shim {
                    Some(old_shim) => path_equals(entry.as_slice(), old_shim, windows),
                    None => false,
                };
                assert(entries.take(i + 1).drop_last() =~= entries.take(i as int));
                assert(entries.take(i + 1).last() == entry@);
                assert(skip == (old matches Some(o) && host_equal(entries.take(i + 1).last(), o, windows)));
                let ghost before = byte_strings(parts@);
                if !skip {
                    parts.push(vstd::slice::slice_to_vec(entry.as_slice()));
                    assert(byte_strings(parts@) =~= before.push(entry@));
                    assert(byte_strings(parts@) =~= seq![shim_dir@] + without_old_shim(entries.take(i + 1), old, windows));
                }
                i = i + 1;
            }
            assert(entries.take(path.len() as int) =~= entries);
        },
    }
    parts
}

/// After the shim directory, a shell's search path never holds the shim
/// directory of an enclosing session: the new shims replace the old ones.
pub proof fn lemma_search_path_replaces_old_shim(
    shim_dir: Seq<u8>,
    inherited_path: Seq<Seq<u8>>,
    old_shim: Seq<u8>,
    windows: bool,
)
    ensures
        search_path(shim_dir, Some(inherited_path), Some(old_shim), windows)[0] == shim_dir,
        forall|i: int|
            1 <= i < search_path(shim_dir, Some(inherited_path), Some(old_shim), windows).len() ==> !host_equal(
                #[trigger] search_path(shim_dir, Some(inherited_path), Some(old_shim), windows)[i],
                old_shim,
                windows,
            ),
{
    lemma_without_old_shim_excludes(inherited_path, old_shim, windows);
    let kept = without_old_shim(inherited_path, Some(old_shim), windows);
    assert forall|i: int|
        1 <= i < search_path(shim_dir, Some(inherited_path), Some(old_shim), windows).len() implies !host_equal(
            #[trigger] search_path(shim_dir, Some(inherited_path), Some(old_shim), windows)[i],
            old_shim,
            windows,
        ) by {
        assert(search_path(shim_dir, Some(inherited_path), Some(old_shim), windows)[i] == kept[i - 1]);
    }
}

proof fn lemma_without_old_shim_excludes(entries: Seq<Seq<u8>>, old_shim: Seq<u8>, windows: bool)
    ensures
        forall|i: int|
            0 <= i < without_old_shim(entries, Some(old_shim), windows).len() ==> !host_equal(
                #[trigger] without_old_shim(entries, Some(old_shim), windows)[i],
                old_shim,
                windows,
            ),
    decreases entries.len(),
{
    if entries.len() > 0 {
        lemma_without_old_shim_excludes(entries.drop_last(), old_shim, windows);
        let rest = without_old_shim(entries.drop_last(), Some(old_shim), windows);
        if !host_equal(entries.last(), old_shim, windows) {
            assert forall|i: int| 0 <= i < rest.push(entries.last()).len() implies !host_equal(
                #[trigger] rest.push(entries.last())[i],
                old_shim,
                windows,
            ) by {
                if i < rest.len() {
                    assert(rest.push(entries.last())[i] == rest[i]);
                }
            }
        }
    }
}

/// The texts of a list of environment variables.
pub open spec fn variables_view(v: Seq<(Vec<u8>, Vec<u8>)>) -> Seq<(Seq<u8>, Seq<u8>)> {
    v.map_values(|p: (Vec<u8>, Vec<u8>)| (p.0@, p.1@))
}

/// The inherited variables that FuncTerm does not manage, in order.
pub open spec fn unmanaged(variables: Seq<(Seq<u8>, Seq<u8>)>, windows: bool) -> Seq<(Seq<u8>, Seq<u8>)>
    decreases variables.len(),
{
    if variables.len() == 0 {
        seq![]
    } else {
        let rest = unmanaged(variables.drop_last(), windows);
        if is_managed(variables.last().0, windows) {
            rest
        } else {
            rest.push(variables.last())
        }
    }
}

/// The value of the first variable named `name` on the given kind of host.
pub open spec fn first_value(variables: Seq<(Seq<u8>, Seq<u8>)>, name: Seq<u8>, windows: bool) -> Option<Seq<u8>>
    decreases variables.len(),
{
    if variables.len() == 0 {
        None
    } else if host_equal(variables[0].0, name, windows) {
        Some(variables[0].1)
    } else {
        first_value(variables.drop_first(), name, windows)
    }
}

/// The value of the variable `name` in an environment.
pub fn variable_value(variables: &Vec<(Vec<u8>, Vec<u8>)>, name: &str, windows: bool) -> (value: Option<Vec<u8>>)
    ensures
        match first_value(variables_view(variables@), encode_utf8(name@), windows) {
            Some(v) => value matches Some(x) && x@ == v,
            None => value is None,
        },
{
    let ghost vars = variables_view(variables@);
    let mut i: usize = 0;
    assert(vars.skip(0) =~= vars);
    while i < variables.len()
        invariant
            i <= variables.len(),
            vars == variables_view(variables@),
            first_value(vars, encode_utf8(name@), windows) == first_value(vars.skip(i as int), encode_utf8(name@), windows),
        decreases variables.len() - i,
    {
        assert(vars.skip(i as int)[0] == vars[i as int]);
        assert(vars.skip(i as int).drop_first() =~= vars.skip(i + 1));
        if environment_name_equals(variables[i].0.as_slice(), name, windows) {
            return Some(variables[i].1.clone());
        }
        i = i + 1;
    }
    None
}

/// The variable that names the real executable of the shell at position `k`
/// of `all_shells()`.
pub open spec fn real_name(k: int) -> Seq<u8> {
    encode_utf8(shim_env_text(all_shells()[k]))
}

/// The variables that name the real executables found: `executables[k]` is
/// the one found for the shell at position `k` of `all_shells()`, if any;
/// they come in that order, one for each shell found.
pub open spec fn real_executables(executables: Seq<Option<Vec<u8>>>) -> Seq<(Seq<u8>, Seq<u8>)>
    decreases executables.len(),
{
    if executables.len() == 0 {
        seq![]
    } else {
        let rest = real_executables(executables.drop_last());
        match executables.last() {
            Some(p) => rest.push((real_name(executables.len() - 1), p@)),
            None => rest,
        }
    }
}

/// The variables FuncTerm gives a shell, before the real executables.
pub open spec fn session_variables(
    path: Seq<u8>,
    shim_dir: Seq<u8>,
    session_root: Seq<u8>,
    active_shell_file: Seq<u8>,
    helper: Seq<u8>,
    current_shell: ShellChoice,
) -> Seq<(Seq<u8>, Seq<u8>)> {
    seq![
        (encode_utf8("PATH"@), path),
        (encode_utf8(SHIM_DIR_ENV@), shim_dir),
        (encode_utf8(SESSION_ROOT_ENV@), session_root),
        (encode_utf8(ACTIVE_SHELL_FILE_ENV@), active_shell_file),
        (encode_utf8(HELPER_EXECUTABLE_ENV@), helper),
        (encode_utf8(CURRENT_SHELL_ENV@), encode_utf8(canonical_text(current_shell))),
    ]
}

/// The name and value bytes of a variable.
fn variable(name: &str, value: &[u8]) -> (pair: (Vec<u8>, Vec<u8>))
    ensures
        pair.0@ == encode_utf8(name@),
        pair.1@ == value@,
{
    (vstd::slice::slice_to_vec(name.as_bytes()), vstd::slice::slice_to_vec(value))
}

/// The environment of a controlled shell: the inherited variables that
/// FuncTerm does not manage, then the search path `path` (already joined),
/// the shim directory, the session root, the active shell file, the helper
/// executable and the current shell, then the real executable found for
/// each shell: `executables[k]` for the shell at position `k` of
/// `ShellChoice::all()`.
pub fn environment(
    inherited: &Vec<(Vec<u8>, Vec<u8>)>,
    path: &[u8],
    shim_dir: &[u8],
    session_root: &[u8],
    active_shell_file: &[u8],
    helper: &[u8],
    current_shell: ShellChoice,
    executables: &Vec<Option<Vec<u8>>>,
    windows: bool,
) -> (env: Vec<(Vec<u8>, Vec<u8>)>)
    requires
        executables.len() == all_shells().len(),
    ensures
        variables_view(env@) == shell_environment(
            variables_view(inherited@),
            path@,
            shim_dir@,
            session_root@,
            active_shell_file@,
            helper@,
            current_shell,
            executables@,
            windows,
        ),
        forall|i: int, j: int|
            0 <= i < j < env@.len() && is_real_name(#[trigger] env@[i].0@) ==> env@[i].0@ != #[trigger] env@[j].0@,
{
    let ghost vars = variables_view(inherited@);
    let mut env: Vec<(Vec<u8>, Vec<u8>)> = Vec::new();
    let mut i: usize = 0;
    assert(vars.take(0) =~= seq![]);
    while i < inherited.len()
        invariant
            i <= inherited.len(),
            vars == variables_view(inherited@),
            variables_view(env@) == unmanaged(vars.take(i as int), windows),
        decreases inherited.len() - i,
    {
        let name = inherited[i].0.as_slice();
        assert(vars.take(i + 1).drop_last() =~= vars.take(i as int));
        assert(vars.take(i + 1).last() == vars[i as int]);
        if !is_managed_name(name, windows) {
            let pair = (inherited[i].0.clone(), inherited[i].1.clone());
            env.push(pair);
            assert(variables_view(env@) =~= unmanaged(vars.take(i + 1), windows));
        }
        i = i + 1;
    }
    assert(vars.take(inherited.len() as int) =~= vars);
    let ghost kept = variables_view(env@);
    env.push(variable("PATH", path));
    env.push(variable(SHIM_DIR_ENV, shim_dir));
    env.push(variable(SESSION_ROOT_ENV, session_root));
    env.push(variable(ACTIVE_SHELL_FILE_ENV, active_shell_file));
    env.push(variable(HELPER_EXECUTABLE_ENV, helper));
    env.push(variable(CURRENT_SHELL_ENV, current_shell.canonical_name().as_bytes()));
    assert(variables_view(env@) =~= kept + session_variables(
        path@,
        shim_dir@,
        session_root@,
        active_shell_file@,
        helper@,
        current_shell,
    ));
    let ghost before = variables_view(env@);
    let shells = ShellChoice::all();
    let mut j: usize = 0;
    assert(executables@.take(0) =~= seq![]);
    while j < executables.len()
        invariant
            j <= executables.len(),
            executables.len() == all_shells().len(),
            shells@ == all_shells(),
            variables_view(env@) == before + real_executables(executables@.take(j as int)),
        decreases executables.len() - j,
    {
        let ghost old_view = variables_view(env@);
        assert(executables@.take(j + 1).drop_last() =~= executables@.take(j as int));
        assert(executables@.take(j + 1).last() == executables@[j as int]);
        match &executables[j] {
            Some(executable) => {
                let pair = variable(shells[j].shim_env_name(), executable.as_slice());
                env.push(pair);
                assert(variables_view(env@) =~= old_view.push((real_name(j as int), executable@)));
            },
            None => {},
        }
        assert(variables_view(env@) =~= before + real_executables(executables@.take(j + 1)));
        j = j + 1;
    }
    assert(executables@.take(executables.len() as int) =~= executables@);
    proof {
        lemma_real_names_once(
            variables_view(inherited@),
            path@,
            shim_dir@,
            session_root@,
            active_shell_file@,
            helper@,
            current_shell,
            executables@,
            windows,
        );
        let se = shell_environment(
            variables_view(inherited@),
            path@,
            shim_dir@,
            session_root@,
            active_shell_file@,
            helper@,
            current_shell,
            executables@,
            windows,
        );
        assert forall|i: int, j: int|
            0 <= i < j < env@.len() && is_real_name(#[trigger] env@[i].0@) implies env@[i].0@ != #[trigger] env@[j].0@ by {
            assert(se[i] == (env@[i].0@, env@[i].1@));
            assert(se[j] == (env@[j].0@, env@[j].1@));
        }
    }
    env
}

/// No inherited variable that FuncTerm manages reaches a controlled shell:
/// every inherited variable kept is unmanaged.
pub proof fn lemma_unmanaged_excludes_managed(variables: Seq<(Seq<u8>, Seq<u8>)>, windows: bool)
    ensures
        forall|i: int| 0 <= i < unmanaged(variables, windows).len() ==> !is_managed(#[trigger] unmanaged(variables, windows)[i].0, windows),
    decreases variables.len(),
{
    if variables.len() > 0 {
        lemma_unmanaged_excludes_managed(variables.drop_last(), windows);
        let rest = unmanaged(variables.drop_last(), windows);
        if !is_managed(variables.last().0, windows) {
            assert forall|i: int| 0 <= i < rest.push(variables.last()).len() implies !is_managed(
                #[trigger] rest.push(variables.last())[i].0,
                windows,
            ) by {
                if i < rest.len() {
                    assert(rest.push(variables.last())[i] == rest[i]);
                }
            }
        }
    }
}

/// Every inherited variable that FuncTerm does not manage reaches a
/// controlled shell.
pub proof fn lemma_unmanaged_keeps_others(variables: Seq<(Seq<u8>, Seq<u8>)>, windows: bool)
    ensures
        forall|i: int| 0 <= i < variables.len() && !is_managed(#[trigger] variables[i].0, windows) ==> unmanaged(variables, windows).contains(variables[i]),
    decreases variables.len(),
{
    if variables.len() > 0 {
        lemma_unmanaged_keeps_others(variables.drop_last(), windows);
        let rest = unmanaged(variables.drop_last(), windows);
        assert forall|i: int| 0 <= i < variables.len() && !is_managed(#[trigger] variables[i].0, windows) implies unmanaged(variables, windows).contains(variables[i]) by {
            if i < variables.len() - 1 {
                assert(variables.drop_last()[i] == variables[i]);
                let k = choose|k: int| 0 <= k < rest.len() && rest[k] == variables[i];
                if !is_managed(variables.last().0, windows) {
                    assert(rest.push(variables.last())[k] == variables[i]);
                }
            } else {
                assert(unmanaged(variables, windows) == rest.push(variables.last()));
                assert(rest.push(variables.last())[rest.len() as int] == variables[i]);
            }
        }
    }
}

/// Whitespace as `char::is_whitespace` knows it: the Unicode `White_Space`
/// characters.
pub open spec fn is_white_space(c: char) -> bool {
    let v = c as u32;
    (9 <= v && v <= 13) || v == 32 || v == 0x85 || v == 0xA0 || v == 0x1680 || (0x2000 <= v && v
        <= 0x200A) || v == 0x2028 || v == 0x2029 || v == 0x202F || v == 0x205F || v == 0x3000
}

/// `t` without the whitespace at its start and end.
pub open spec fn trimmed(t: Seq<char>, start: int, end: int) -> bool {
    &&& 0 <= start <= end <= t.len()
    &&& forall|i: int| 0 <= i < start ==> is_white_space(#[trigger] t[i])
    &&& forall|i: int| end <= i < t.len() ==> is_white_space(#[trigger] t[i])
    &&& start < end ==> !is_white_space(t[start]) && !is_white_space(t[end - 1])
}

/// The shell recorded in the text of an active shell file: its canonical
/// name, with surrounding whitespace ignored.
pub fn parse_active_shell(text: &str) -> (shell: Result<ShellChoice, ShellError>)
    ensures
        exists|start: int, end: int|
            trimmed(text@, start, end) && #[trigger] shell_named(shell, text@.subrange(start, end)),
        forall|c: ShellChoice| text@ == #[trigger] canonical_text(c) ==> shell == Ok::<ShellChoice, ShellError>(c),
{
    let chars = crate::chars::chars_of(text);
    let mut start: usize = 0;
    while start < chars.len() && is_space(chars[start])
        invariant
            start <= chars.len(),
            chars@ == text@,
            forall|i: int| 0 <= i < start ==> is_white_space(#[trigger] chars@[i]),
        decreases chars.len() - start,
    {
        start = start + 1;
    }
    let mut end: usize = chars.len();
    while end > start && is_space(chars[end - 1])
        invariant
            start <= end <= chars.len(),
            chars@ == text@,
            forall|i: int| end <= i < chars.len() ==> is_white_space(#[trigger] chars@[i]),
            start < chars.len() ==> !is_white_space(chars@[start as int]),
        decreases end - start,
    {
        end = end - 1;
    }
    let mut name: Vec<char> = Vec::new();
    let mut k: usize = start;
    while k < end
        invariant
            start <= k <= end <= chars.len(),
            name@ == chars@.subrange(start as int, k as int),
        decreases end - k,
    {
        name.push(chars[k]);
        k = k + 1;
    }
    let name_text = crate::chars::string_of(&name);
    let shell = ShellChoice::from_canonical_name(name_text.as_str());
    assert(trimmed(text@, start as int, end as int));
    assert(shell_named(shell, text@.subrange(start as int, end as int)));
    assert forall|c: ShellChoice| text@ == #[trigger] canonical_text(c) implies shell == Ok::<ShellChoice, ShellError>(c) by {
        lemma_canonical_name_letters(c);
        lemma_canonical_name_round_trip(c);
        lemma_trimmed_whole(text@, start as int, end as int);
        assert(text@.subrange(start as int, end as int) =~= text@);
    }
    shell
}

/// A text without whitespace is its own trimmed text.
proof fn lemma_trimmed_whole(t: Seq<char>, start: int, end: int)
    requires
        trimmed(t, start, end),
        t.len() > 0,
        forall|i: int| 0 <= i < t.len() ==> 'a' <= #[trigger] t[i] <= 'z',
    ensures
        start == 0,
        end == t.len(),
{
    if start > 0 {
        assert(is_white_space(t[0]));
    }
    if end < t.len() {
        assert(is_white_space(t[t.len() - 1]));
    }
}

/// `shell` is the shell named `name`, or the unknown shell error.
pub open spec fn shell_named(shell: Result<ShellChoice, ShellError>, name: Seq<char>) -> bool {
    match shell_with_canonical_name(name) {
        Some(c) => shell == Ok::<ShellChoice, ShellError>(c),
        None => shell == Err::<ShellChoice, ShellError>(ShellError::UnknownShell),
    }
}

/// Whether `c` is whitespace.
fn is_space(c: char) -> (space: bool)
    ensures
        space == is_white_space(c),
{
    let v = c as u32;
    (9 <= v && v <= 13) || v == 32 || v == 0x85 || v == 0xA0 || v == 0x1680 || (0x2000 <= v && v
        <= 0x200A) || v == 0x2028 || v == 0x2029 || v == 0x202F || v == 0x205F || v == 0x3000
}

/// The environment of a controlled shell: the inherited variables that
/// FuncTerm does not manage, then the session's own variables, then the real
/// executables found.
pub open spec fn shell_environment(
    inherited: Seq<(Seq<u8>, Seq<u8>)>,
    path: Seq<u8>,
    shim_dir: Seq<u8>,
    session_root: Seq<u8>,
    active_shell_file: Seq<u8>,
    helper: Seq<u8>,
    current_shell: ShellChoice,
    executables: Seq<Option<Vec<u8>>>,
    windows: bool,
) -> Seq<(Seq<u8>, Seq<u8>)> {
    unmanaged(inherited, windows) + session_variables(
        path,
        shim_dir,
        session_root,
        active_shell_file,
        helper,
        current_shell,
    ) + real_executables(executables)
}

/// A controlled shell gets one search path: every variable it sees under the
/// name `PATH`, as the host compares names, holds the search path that
/// FuncTerm computed; no inherited `PATH` survives.
pub proof fn lemma_environment_path_is_computed(
    inherited: Seq<(Seq<u8>, Seq<u8>)>,
    path: Seq<u8>,
    shim_dir: Seq<u8>,
    session_root: Seq<u8>,
    active_shell_file: Seq<u8>,
    helper: Seq<u8>,
    current_shell: ShellChoice,
    executables: Seq<Option<Vec<u8>>>,
    windows: bool,
)
    ensures
        forall|i: int|
            #![trigger shell_environment(inherited, path, shim_dir, session_root, active_shell_file, helper, current_shell, executables, windows)[i]]
            0 <= i < shell_environment(inherited, path, shim_dir, session_root, active_shell_file, helper, current_shell, executables, windows).len()
                && host_equal(
                shell_environment(inherited, path, shim_dir, session_root, active_shell_file, helper, current_shell, executables, windows)[i].0,
                encode_utf8("PATH"@),
                windows,
            ) ==> shell_environment(inherited, path, shim_dir, session_root, active_shell_file, helper, current_shell, executables, windows)[i].1 == path,
{
    let kept = unmanaged(inherited, windows);
    let session = session_variables(path, shim_dir, session_root, active_shell_file, helper, current_shell);
    let exes = real_executables(executables);
    let env = shell_environment(inherited, path, shim_dir, session_root, active_shell_file, helper, current_shell, executables, windows);
    lemma_unmanaged_excludes_managed(inherited, windows);
    reveal_strlit("PATH");
    reveal_strlit("FUNCTERM_SHIM_DIR");
    reveal_strlit("FUNCTERM_SESSION_ROOT");
    reveal_strlit("FUNCTERM_ACTIVE_SHELL_FILE");
    reveal_strlit("FUNCTERM_HELPER_EXECUTABLE");
    reveal_strlit("FUNCTERM_CURRENT_SHELL");
    let path_name = encode_utf8("PATH"@);
    lemma_ascii_length("PATH"@);
    assert(managed_names()[0] == "PATH"@);
    assert forall|i: int| 0 <= i < env.len() && host_equal(env[i].0, path_name, windows) implies env[i].1 == path by {
        if i < kept.len() {
            assert(env[i] == kept[i]);
            assert(is_managed(kept[i].0, windows));
        } else if i < kept.len() + session.len() {
            let k = i - kept.len();
            assert(env[i] == session[k]);
            if k == 1 {
                lemma_ascii_length(SHIM_DIR_ENV@);
            } else if k == 2 {
                lemma_ascii_length(SESSION_ROOT_ENV@);
            } else if k == 3 {
                lemma_ascii_length(ACTIVE_SHELL_FILE_ENV@);
            } else if k == 4 {
                lemma_ascii_length(HELPER_EXECUTABLE_ENV@);
            } else if k == 5 {
                lemma_ascii_length(CURRENT_SHELL_ENV@);
            }
        } else {
            let k = i - kept.len() - session.len();
            assert(env[i] == exes[k]);
            lemma_real_executables_names(executables);
        }
    }
}

/// The UTF-8 encoding of ASCII text has a byte for each character.
proof fn lemma_ascii_length(s: Seq<char>)
    requires
        vstd::utf8::is_ascii_chars(s),
    ensures
        encode_utf8(s).len() == s.len(),
{
    vstd::utf8::is_ascii_chars_encode_utf8(s);
}

/// The name of a real executable's variable is longer than `PATH`.
proof fn lemma_shim_env_name_length(shell: ShellChoice)
    ensures
        encode_utf8(shim_env_text(shell)).len() > 4,
{
    reveal_strlit("FUNCTERM_REAL_POWERSHELL");
    reveal_strlit("FUNCTERM_REAL_BASH");
    reveal_strlit("FUNCTERM_REAL_NUSHELL");
    reveal_strlit("FUNCTERM_REAL_ZSH");
    reveal_strlit("FUNCTERM_REAL_CMD");
    reveal_strlit("FUNCTERM_REAL_BUN");
    reveal_strlit("FUNCTERM_REAL_PYTHON");
    lemma_ascii_length(shim_env_text(shell));
}

/// A name of a variable that names a shell's real executable.
pub open spec fn is_real_name(name: Seq<u8>) -> bool {
    exists|k: int| 0 <= k < all_shells().len() && name == #[trigger] real_name(k)
}

/// Different shells' real executables have different variable names.
proof fn lemma_real_names_distinct(k: int, m: int)
    requires
        0 <= k < 7,
        0 <= m < 7,
        k != m,
    ensures
        real_name(k) != real_name(m),
{
    reveal_strlit("FUNCTERM_REAL_POWERSHELL");
    reveal_strlit("FUNCTERM_REAL_BASH");
    reveal_strlit("FUNCTERM_REAL_NUSHELL");
    reveal_strlit("FUNCTERM_REAL_ZSH");
    reveal_strlit("FUNCTERM_REAL_CMD");
    reveal_strlit("FUNCTERM_REAL_BUN");
    reveal_strlit("FUNCTERM_REAL_PYTHON");
    let a = shim_env_text(all_shells()[k]);
    let b = shim_env_text(all_shells()[m]);
    if real_name(k) == real_name(m) {
        vstd::utf8::encode_utf8_decode_utf8(a);
        vstd::utf8::encode_utf8_decode_utf8(b);
        assert(a == b);
        assert(a[14] == b[14]);
        assert(a[15] == b[15]);
    }
}

/// Real-executable variable names are longer than `PATH`; each differs from
/// the names of the shells after the ones given, and no two are the same.
proof fn lemma_real_executables_names(executables: Seq<Option<Vec<u8>>>)
    ensures
        forall|k: int|
            0 <= k < real_executables(executables).len() ==> (#[trigger] real_executables(executables)[k]).0.len() > 4,
        executables.len() <= 7 ==> forall|k: int, m: int|
            0 <= k < real_executables(executables).len() && executables.len() <= m < 7
                ==> (#[trigger] real_executables(executables)[k]).0 != #[trigger] real_name(m),
        executables.len() <= 7 ==> forall|i: int, j: int|
            0 <= i < j < real_executables(executables).len() ==> #[trigger] real_executables(executables)[i].0
                != #[trigger] real_executables(executables)[j].0,
        executables.len() <= 7 ==> forall|k: int|
            0 <= k < real_executables(executables).len() ==> is_real_name((#[trigger] real_executables(executables)[k]).0),
    decreases executables.len(),
{
    if executables.len() > 0 {
        let n = executables.len() - 1;
        let rest = real_executables(executables.drop_last());
        lemma_real_executables_names(executables.drop_last());
        let all = real_executables(executables);
        if let Some(p) = executables.last() {
            assert(all == rest.push((real_name(n), p@)));
            lemma_shim_env_name_length(all_shells()[n]);
            assert forall|k: int| 0 <= k < all.len() implies (#[trigger] all[k]).0.len() > 4 by {
                if k < rest.len() {
                    assert(all[k] == rest[k]);
                }
            }
            if executables.len() <= 7 {
                assert forall|k: int, m: int| 0 <= k < all.len() && executables.len() <= m < 7 implies (
                #[trigger] all[k]).0 != #[trigger] real_name(m) by {
                    if k < rest.len() {
                        assert(all[k] == rest[k]);
                    } else {
                        lemma_real_names_distinct(n, m);
                    }
                }
                assert forall|i: int, j: int| 0 <= i < j < all.len() implies #[trigger] all[i].0 != #[trigger] all[j].0 by {
                    assert(all[i] == rest[i]);
                    if j < rest.len() {
                        assert(all[j] == rest[j]);
                    } else {
                        assert(all[j].0 == real_name(n));
                    }
                }
                assert forall|k: int| 0 <= k < all.len() implies is_real_name((#[trigger] all[k]).0) by {
                    if k < rest.len() {
                        assert(all[k] == rest[k]);
                    } else {
                        assert(all[k].0 == real_name(n));
                    }
                }
            }
        } else {
            assert(all == rest);
        }
    }
}

/// The names FuncTerm gives its own session variables are no real-executable
/// names.
proof fn lemma_session_names_not_real(name: Seq<char>, m: int)
    requires
        name == "PATH"@ || name == SHIM_DIR_ENV@ || name == SESSION_ROOT_ENV@ || name == ACTIVE_SHELL_FILE_ENV@
            || name == HELPER_EXECUTABLE_ENV@ || name == CURRENT_SHELL_ENV@,
        0 <= m < 7,
    ensures
        encode_utf8(name) != real_name(m),
{
    reveal_strlit("FUNCTERM_REAL_POWERSHELL");
    reveal_strlit("FUNCTERM_REAL_BASH");
    reveal_strlit("FUNCTERM_REAL_NUSHELL");
    reveal_strlit("FUNCTERM_REAL_ZSH");
    reveal_strlit("FUNCTERM_REAL_CMD");
    reveal_strlit("FUNCTERM_REAL_BUN");
    reveal_strlit("FUNCTERM_REAL_PYTHON");
    reveal_strlit("PATH");
    reveal_strlit("FUNCTERM_SHIM_DIR");
    reveal_strlit("FUNCTERM_SESSION_ROOT");
    reveal_strlit("FUNCTERM_ACTIVE_SHELL_FILE");
    reveal_strlit("FUNCTERM_HELPER_EXECUTABLE");
    reveal_strlit("FUNCTERM_CURRENT_SHELL");
    let b = shim_env_text(all_shells()[m]);
    if encode_utf8(name) == real_name(m) {
        vstd::utf8::encode_utf8_decode_utf8(name);
        vstd::utf8::encode_utf8_decode_utf8(b);
        assert(name == b);
        assert(name.len() == b.len());
        assert(name[9] == b[9]);
    }
}

/// In a controlled shell's environment each real-executable variable occurs
/// at most once.
pub proof fn lemma_real_names_once(
    inherited: Seq<(Seq<u8>, Seq<u8>)>,
    path: Seq<u8>,
    shim_dir: Seq<u8>,
    session_root: Seq<u8>,
    active_shell_file: Seq<u8>,
    helper: Seq<u8>,
    current_shell: ShellChoice,
    executables: Seq<Option<Vec<u8>>>,
    windows: bool,
)
    requires
        executables.len() == all_shells().len(),
    ensures
        forall|i: int, j: int|
            #![trigger shell_environment(inherited, path, shim_dir, session_root, active_shell_file, helper, current_shell, executables, windows)[i], shell_environment(inherited, path, shim_dir, session_root, active_shell_file, helper, current_shell, executables, windows)[j]]
            0 <= i < j < shell_environment(inherited, path, shim_dir, session_root, active_shell_file, helper, current_shell, executables, windows).len()
                && is_real_name(shell_environment(inherited, path, shim_dir, session_root, active_shell_file, helper, current_shell, executables, windows)[i].0)
                ==> shell_environment(inherited, path, shim_dir, session_root, active_shell_file, helper, current_shell, executables, windows)[i].0
                != shell_environment(inherited, path, shim_dir, session_root, active_shell_file, helper, current_shell, executables, windows)[j].0,
{
    let kept = unmanaged(inherited, windows);
    let session = session_variables(path, shim_dir, session_root, active_shell_file, helper, current_shell);
    let exes = real_executables(executables);
    let env = shell_environment(inherited, path, shim_dir, session_root, active_shell_file, helper, current_shell, executables, windows);
    lemma_unmanaged_excludes_managed(inherited, windows);
    lemma_real_executables_names(executables);
    assert forall|i: int, j: int| 0 <= i < j < env.len() && is_real_name(env[i].0) implies env[i].0 != env[j].0 by {
        let k = choose|k: int| 0 <= k < all_shells().len() && env[i].0 == #[trigger] real_name(k);
        if i < kept.len() {
            assert(env[i] == kept[i]);
            assert(managed_names()[8 + k] == shim_env_text(all_shells()[k]));
            assert(host_equal(env[i].0, encode_utf8(managed_names()[8 + k]), windows));
            assert(is_managed(kept[i].0, windows));
        } else if i < kept.len() + session.len() {
            let t = i - kept.len();
            assert(env[i] == session[t]);
            if t == 0 {
                lemma_session_names_not_real("PATH"@, k);
            } else if t == 1 {
                lemma_session_names_not_real(SHIM_DIR_ENV@, k);
            } else if t == 2 {
                lemma_session_names_not_real(SESSION_ROOT_ENV@, k);
            } else if t == 3 {
                lemma_session_names_not_real(ACTIVE_SHELL_FILE_ENV@, k);
            } else if t == 4 {
                lemma_session_names_not_real(HELPER_EXECUTABLE_ENV@, k);
            } else {
                lemma_session_names_not_real(CURRENT_SHELL_ENV@, k);
            }
        } else {
            let a = i - kept.len() - session.len();
            let b = j - kept.len() - session.len();
            assert(env[i] == exes[a]);
            assert(env[j] == exes[b]);
        }
    }
}

/// Two ASCII names that differ in length, or in their tenth character where
/// both have a capital letter there, are different names on any host.
proof fn lemma_names_apart(a: Seq<char>, b: Seq<char>, windows: bool)
    requires
        vstd::utf8::is_ascii_chars(a),
        vstd::utf8::is_ascii_chars(b),
        a.len() != b.len() || (a.len() > 9 && 'A' <= a[9] <= 'Z' && 'A' <= b[9] <= 'Z' && a[9] != b[9]),
    ensures
        !host_equal(encode_utf8(a), encode_utf8(b), windows),
{
    vstd::utf8::is_ascii_chars_encode_utf8(a);
    vstd::utf8::is_ascii_chars_encode_utf8(b);
    if a.len() == b.len() {
        let x = encode_utf8(a)[9];
        let y = encode_utf8(b)[9];
        assert(a[9] as u8 == x);
        assert(b[9] as u8 == y);
        assert(fold_ascii(x) != fold_ascii(y));
    }
}

/// The length and the tenth character of each of the first eight managed
/// names: `PATH`, then FuncTerm's own variables and the running command's.
proof fn lemma_fixed_name_shapes()
    ensures
        vstd::utf8::is_ascii_chars(managed_names()[0]) && managed_names()[0].len() == 4,
        vstd::utf8::is_ascii_chars(managed_names()[1]) && managed_names()[1].len() == 17 && managed_names()[1][9] == 'S',
        vstd::utf8::is_ascii_chars(managed_names()[2]) && managed_names()[2].len() == 21 && managed_names()[2][9] == 'S',
        vstd::utf8::is_ascii_chars(managed_names()[3]) && managed_names()[3].len() == 26 && managed_names()[3][9] == 'A',
        vstd::utf8::is_ascii_chars(managed_names()[4]) && managed_names()[4].len() == 26 && managed_names()[4][9] == 'H',
        vstd::utf8::is_ascii_chars(managed_names()[5]) && managed_names()[5].len() == 22 && managed_names()[5][9] == 'C',
        vstd::utf8::is_ascii_chars(managed_names()[6]) && managed_names()[6].len() == 19 && managed_names()[6][9] == 'C',
        vstd::utf8::is_ascii_chars(managed_names()[7]) && managed_names()[7].len() == 26 && managed_names()[7][9] == 'C',
{
    reveal_strlit("PATH");
    reveal_strlit("FUNCTERM_SHIM_DIR");
    reveal_strlit("FUNCTERM_SESSION_ROOT");
    reveal_strlit("FUNCTERM_ACTIVE_SHELL_FILE");
    reveal_strlit("FUNCTERM_HELPER_EXECUTABLE");
    reveal_strlit("FUNCTERM_CURRENT_SHELL");
    reveal_strlit("FUNCTERM_COMMAND_ID");
    reveal_strlit("FUNCTERM_COMMAND_DIRECTORY");
}

/// Each of the first eight managed names differs from the others on any host.
proof fn lemma_fixed_names_apart(t: int, u: int, windows: bool)
    requires
        0 <= t < 8,
        0 <= u < 8,
        t != u,
    ensures
        !host_equal(encode_utf8(managed_names()[t]), encode_utf8(managed_names()[u]), windows),
{
    lemma_fixed_name_shapes();
    lemma_names_apart(managed_names()[t], managed_names()[u], windows);
}

/// No real-executable name is one of the first eight managed names on any
/// host.
proof fn lemma_real_name_apart(m: int, u: int, windows: bool)
    requires
        0 <= m < 7,
        0 <= u < 8,
    ensures
        !host_equal(real_name(m), encode_utf8(managed_names()[u]), windows),
{
    reveal_strlit("FUNCTERM_REAL_POWERSHELL");
    reveal_strlit("FUNCTERM_REAL_BASH");
    reveal_strlit("FUNCTERM_REAL_NUSHELL");
    reveal_strlit("FUNCTERM_REAL_ZSH");
    reveal_strlit("FUNCTERM_REAL_CMD");
    reveal_strlit("FUNCTERM_REAL_BUN");
    reveal_strlit("FUNCTERM_REAL_PYTHON");
    lemma_fixed_name_shapes();
    let a = shim_env_text(all_shells()[m]);
    assert(vstd::utf8::is_ascii_chars(a) && a[9] == 'R');
    assert(a.len() == 24 || a.len() == 18 || a.len() == 21 || a.len() == 17 || a.len() == 20);
    lemma_names_apart(a, managed_names()[u], windows);
}

/// Whether `env` holds the variable `(name, value)` at position `at` and
/// nowhere else, as the host compares names.
pub open spec fn occurs_once_at(env: Seq<(Seq<u8>, Seq<u8>)>, name: Seq<u8>, value: Seq<u8>, at: int, windows: bool) -> bool {
    &&& 0 <= at < env.len()
    &&& env[at] == (name, value)
    &&& forall|i: int| 0 <= i < env.len() && host_equal(#[trigger] env[i].0, name, windows) ==> i == at
}

/// Whether no variable of `env` is named `name`, as the host compares names.
pub open spec fn never_named(env: Seq<(Seq<u8>, Seq<u8>)>, name: Seq<u8>, windows: bool) -> bool {
    forall|i: int| 0 <= i < env.len() ==> !host_equal(#[trigger] env[i].0, name, windows)
}

/// In a controlled shell's environment each of FuncTerm's session variables
/// (`PATH`, the shim directory, the session root, the active shell file, the
/// helper executable and the current shell) occurs exactly once, as the host
/// compares names, right after the inherited variables kept and with the
/// value FuncTerm gave it; no variable of a running command (its identity
/// or its directory) occurs at all, whatever was inherited.
pub proof fn lemma_session_variables_once(
    inherited: Seq<(Seq<u8>, Seq<u8>)>,
    path: Seq<u8>,
    shim_dir: Seq<u8>,
    session_root: Seq<u8>,
    active_shell_file: Seq<u8>,
    helper: Seq<u8>,
    current_shell: ShellChoice,
    executables: Seq<Option<Vec<u8>>>,
    windows: bool,
)
    requires
        executables.len() == all_shells().len(),
    ensures
        forall|t: int|
            #![trigger session_variables(path, shim_dir, session_root, active_shell_file, helper, current_shell)[t]]
            0 <= t < 6 ==> occurs_once_at(
                shell_environment(inherited, path, shim_dir, session_root, active_shell_file, helper, current_shell, executables, windows),
                session_variables(path, shim_dir, session_root, active_shell_file, helper, current_shell)[t].0,
                session_variables(path, shim_dir, session_root, active_shell_file, helper, current_shell)[t].1,
                unmanaged(inherited, windows).len() + t,
                windows,
            ),
        never_named(
            shell_environment(inherited, path, shim_dir, session_root, active_shell_file, helper, current_shell, executables, windows),
            encode_utf8(COMMAND_ID_ENV@),
            windows,
        ),
        never_named(
            shell_environment(inherited, path, shim_dir, session_root, active_shell_file, helper, current_shell, executables, windows),
            encode_utf8(COMMAND_DIRECTORY_ENV@),
            windows,
        ),
{
    let kept = unmanaged(inherited, windows);
    let session = session_variables(path, shim_dir, session_root, active_shell_file, helper, current_shell);
    let exes = real_executables(executables);
    let env = shell_environment(inherited, path, shim_dir, session_root, active_shell_file, helper, current_shell, executables, windows);
    let n = kept.len();
    lemma_unmanaged_excludes_managed(inherited, windows);
    lemma_real_executables_names(executables);
    assert forall|t: int| 0 <= t < 6 implies #[trigger] session[t].0 == encode_utf8(managed_names()[t]) by {}
    // Only the variable at `n + u` is named by the managed name `u`, if any.
    assert forall|i: int, u: int| 0 <= i < env.len() && 0 <= u < 8 && #[trigger] host_equal(env[i].0, encode_utf8(managed_names()[u]), windows)
        implies i == n + u && u < 6 by {
        if i < n {
            assert(env[i] == kept[i]);
            assert(is_managed(kept[i].0, windows));
        } else if i < n + 6 {
            let t = i - n;
            assert(env[i] == session[t]);
            if t != u {
                lemma_fixed_names_apart(t, u, windows);
            }
        } else {
            let k = i - n - 6;
            assert(env[i] == exes[k]);
            let m = choose|m: int| 0 <= m < all_shells().len() && exes[k].0 == #[trigger] real_name(m);
            lemma_real_name_apart(m, u, windows);
        }
    }
    assert forall|t: int| 0 <= t < 6 implies occurs_once_at(env, #[trigger] session[t].0, session[t].1, n + t, windows) by {
        assert(env[n + t] == session[t]);
        assert forall|i: int| 0 <= i < env.len() && host_equal(#[trigger] env[i].0, session[t].0, windows) implies i == n + t by {
            assert(host_equal(env[i].0, encode_utf8(managed_names()[t]), windows));
        }
    }
    assert(managed_names()[6] == COMMAND_ID_ENV@);
    assert(managed_names()[7] == COMMAND_DIRECTORY_ENV@);
    assert forall|i: int| 0 <= i < env.len() implies !host_equal(#[trigger] env[i].0, encode_utf8(COMMAND_ID_ENV@), windows) by {
        if host_equal(env[i].0, encode_utf8(managed_names()[6]), windows) {
            assert(6 < 6);
        }
    }
    assert forall|i: int| 0 <= i < env.len() implies !host_equal(#[trigger] env[i].0, encode_utf8(COMMAND_DIRECTORY_ENV@), windows) by {
        if host_equal(env[i].0, encode_utf8(managed_names()[7]), windows) {
            assert(7 < 6);
        }
    }
}

} // verus!
