//! Shell quoting, path strings and host detection.
//!
//! Paths are plain strings, joined and tested for absoluteness as
//! `PathBuf::join` and `Path::is_absolute` do on a host of the given style.
//! Shell words are quoted by the rules of the host's style too.
use vstd::prelude::*;
use vstd::string::*;

use crate::text::{
    decimal, decimal_string, owned, push_char, push_str, replace_char, replace_char_exec, str_eq,
};

verus! {

/// The conventions of a host: how it spells absolute paths and how its
/// shell quotes words.
#[derive(Clone, Copy, Debug, PartialEq, Eq, Structural)]
pub enum HostStyle {
    /// `/` is the root; words are single-quoted.
    Posix,
    /// Drive roots such as `C:\` and UNC paths such as `\\server\share`;
    /// words are double-quoted.
    Windows,
}

/// The style of a host whose `target_os` is `os`.
pub open spec fn host_style(os: Seq<char>) -> HostStyle {
    if os == "windows"@ {
        HostStyle::Windows
    } else {
        HostStyle::Posix
    }
}

/// The style of a host whose `target_os` is `target_os`.
pub fn host_style_of(target_os: &str) -> (r: HostStyle)
    ensures
        r == host_style(target_os@),
{
    if str_eq(target_os, "windows") {
        HostStyle::Windows
    } else {
        HostStyle::Posix
    }
}

/// The characters that `shell_quote` leaves unquoted.
pub open spec fn shell_safe(c: char) -> bool {
    ||| ('a' <= c && c <= 'z')
    ||| ('A' <= c && c <= 'Z')
    ||| ('0' <= c && c <= '9')
    ||| c == '_' || c == '-' || c == '.' || c == '/' || c == ':'
    ||| c == '=' || c == ',' || c == '+' || c == '@' || c == '%'
}

/// Each `'` replaced by `'\''`, the POSIX way to continue a single-quoted word.
pub open spec fn escape_single_quotes(s: Seq<char>) -> Seq<char>
    decreases s.len(),
{
    if s.len() == 0 {
        Seq::empty()
    } else {
        let head = if s[0] == '\'' {
            seq!['\'', '\\', '\'', '\'']
        } else {
            seq![s[0]]
        };
        head + escape_single_quotes(s.drop_first())
    }
}

/// Each `"` doubled, the Windows way to continue a double-quoted word.
pub open spec fn double_quotes(s: Seq<char>) -> Seq<char>
    decreases s.len(),
{
    if s.len() == 0 {
        Seq::empty()
    } else {
        let head = if s[0] == '"' {
            seq!['"', '"']
        } else {
            seq![s[0]]
        };
        head + double_quotes(s.drop_first())
    }
}

/// A word that the host's shell reads back as `s`: the word itself when it
/// is not empty and every character is safe; else, for POSIX shells, the
/// word in single quotes (`''` when empty), and on Windows in double quotes
/// with inner double quotes doubled (`""` when empty).
pub open spec fn shell_quoted(s: Seq<char>, style: HostStyle) -> Seq<char> {
    if s.len() > 0 && forall|i: int| 0 <= i < s.len() ==> shell_safe(#[trigger] s[i]) {
        s
    } else {
        match style {
            HostStyle::Posix => if s.len() == 0 {
                seq!['\'', '\'']
            } else {
                seq!['\''] + escape_single_quotes(s) + seq!['\'']
            },
            HostStyle::Windows => if s.len() == 0 {
                seq!['"', '"']
            } else {
                seq!['"'] + double_quotes(s) + seq!['"']
            },
        }
    }
}

/// A path separator of the Windows style.
pub open spec fn is_separator(c: char) -> bool {
    c == '/' || c == '\\'
}

/// A separator of paths in the given style.
pub open spec fn is_style_separator(c: char, style: HostStyle) -> bool {
    match style {
        HostStyle::Posix => c == '/',
        HostStyle::Windows => is_separator(c),
    }
}

/// An ASCII letter, as a Windows drive letter must be.
pub open spec fn is_ascii_letter(c: char) -> bool {
    ('a' <= c && c <= 'z') || ('A' <= c && c <= 'Z')
}

/// The end of the path component that starts at `i`: the index of the next
/// separator (`/` or `\`) from `i` on, or the length of `p`.
pub open spec fn component_end(p: Seq<char>, i: int) -> int
    decreases p.len() - i,
{
    if i < 0 || i >= p.len() || is_separator(p[i]) {
        i
    } else {
        component_end(p, i + 1)
    }
}

/// The length of the Windows prefix of `p`: 2 for a drive (`C:`), the length
/// of `\\server\share` for a UNC path (server and share not empty, either
/// separator), else 0.
pub open spec fn windows_prefix_len(p: Seq<char>) -> int {
    if p.len() >= 2 && is_separator(p[0]) && is_separator(p[1]) {
        let server_end = component_end(p, 2);
        if server_end > 2 && server_end < p.len() {
            let share_end = component_end(p, server_end + 1);
            if share_end > server_end + 1 {
                share_end
            } else {
                0
            }
        } else {
            0
        }
    } else if p.len() >= 2 && is_ascii_letter(p[0]) && p[1] == ':' {
        2
    } else {
        0
    }
}

/// `PathBuf::join` on strings (`Path::push`).
/// - POSIX: a `rel` starting with `/` replaces the base; an empty base gives
///   `rel`; otherwise `/` separates them unless the base ends in `/`.
/// - Windows: a `rel` with a prefix (`C:`, `C:\x`, `\\server\share`) replaces
///   the base; a rooted `rel` (`\x`) keeps only the base's prefix; otherwise
///   `\` separates them unless the base is empty, ends in a separator, or is
///   a bare drive (`C:`).
pub open spec fn joined(base: Seq<char>, rel: Seq<char>, style: HostStyle) -> Seq<char> {
    match style {
        HostStyle::Posix => if rel.len() > 0 && rel[0] == '/' {
            rel
        } else if base.len() == 0 || base.last() == '/' {
            base + rel
        } else {
            base + seq!['/'] + rel
        },
        HostStyle::Windows => if windows_prefix_len(rel) > 0 {
            rel
        } else if rel.len() > 0 && is_separator(rel[0]) {
            base.subrange(0, windows_prefix_len(base)) + rel
        } else if base.len() == 0 || is_separator(base.last()) || (windows_prefix_len(base) == 2
            && base.len() == 2) {
            base + rel
        } else {
            base + seq!['\\'] + rel
        },
    }
}

/// Absoluteness of a path in the given style (`Path::is_absolute`): on POSIX
/// a leading `/`; on Windows a prefix with a root, that is a UNC prefix or a
/// drive followed by a separator.
pub open spec fn path_is_absolute(path: Seq<char>, style: HostStyle) -> bool {
    match style {
        HostStyle::Posix => path.len() > 0 && path[0] == '/',
        HostStyle::Windows => {
            let n = windows_prefix_len(path);
            n > 0 && (is_separator(path[0]) || (n < path.len() && is_separator(path[n])))
        },
    }
}

proof fn lemma_component_end_bounds(p: Seq<char>, i: int)
    requires
        0 <= i <= p.len(),
    ensures
        i <= component_end(p, i) <= p.len(),
        component_end(p, i) == p.len() || is_separator(p[component_end(p, i)]),
    decreases p.len() - i,
{
    if i < p.len() && !is_separator(p[i]) {
        lemma_component_end_bounds(p, i + 1);
    }
}

/// The platform name of a host whose `target_os` is `os`.
pub open spec fn host_platform_name(os: Seq<char>) -> Seq<char> {
    if os == "windows"@ {
        "windows"@
    } else if os == "macos"@ {
        "macos"@
    } else if os == "linux"@ {
        "linux"@
    } else {
        "unknown"@
    }
}

/// Whether a host whose `target_os` is `os` builds `platform` natively.
pub open spec fn host_matches(os: Seq<char>, platform: Seq<char>) -> bool {
    if platform == "windows"@ {
        os == "windows"@
    } else if platform == "macos"@ || platform == "ios"@ {
        os == "macos"@
    } else if platform == "linux"@ {
        os == "linux"@
    } else {
        false
    }
}

/// The cache root below a home directory.
pub open spec fn cache_below(home: Seq<char>, style: HostStyle) -> Seq<char> {
    joined(joined(home, ".cache"@, style), "tauri-release"@, style)
}

/// The default cache directory: `TAURI_RELEASE_CACHE_DIR`, else below
/// `HOME`, else below `USERPROFILE`, else `.cache/tauri-release`.
pub open spec fn default_cache_dir_spec(
    cache_var: Option<Seq<char>>,
    home: Option<Seq<char>>,
    profile: Option<Seq<char>>,
    style: HostStyle,
) -> Seq<char> {
    match cache_var {
        Some(v) => v,
        None => match home {
            Some(h) => cache_below(h, style),
            None => match profile {
                Some(p) => cache_below(p, style),
                None => joined(".cache"@, "tauri-release"@, style),
            },
        },
    }
}

/// The view of an optional string.
pub open spec fn opt_view(o: Option<String>) -> Option<Seq<char>> {
    match o {
        Some(s) => Some(s@),
        None => None,
    }
}

/// Whether `value` can stand unquoted in a shell word.
pub fn is_shell_safe_char(value: char) -> (r: bool)
    ensures
        r == shell_safe(value),
{
    ('a' <= value && value <= 'z') || ('A' <= value && value <= 'Z') || ('0' <= value && value
        <= '9') || value == '_' || value == '-' || value == '.' || value == '/' || value == ':'
        || value == '=' || value == ',' || value == '+' || value == '@' || value == '%'
}

proof fn lemma_escape_push(s: Seq<char>, c: char)
    ensures
        escape_single_quotes(s.push(c)) == escape_single_quotes(s) + (if c == '\'' {
            seq!['\'', '\\', '\'', '\'']
        } else {
            seq![c]
        }),
    decreases s.len(),
{
    if s.len() == 0 {
        assert(s.push(c).drop_first() =~= Seq::<char>::empty());
        assert(escape_single_quotes(Seq::<char>::empty()) =~= Seq::<char>::empty());
    } else {
        lemma_escape_push(s.drop_first(), c);
        assert(s.push(c).drop_first() =~= s.drop_first().push(c));
    }
}

proof fn lemma_double_push(s: Seq<char>, c: char)
    ensures
        double_quotes(s.push(c)) == double_quotes(s) + (if c == '"' {
            seq!['"', '"']
        } else {
            seq![c]
        }),
    decreases s.len(),
{
    if s.len() == 0 {
        assert(s.push(c).drop_first() =~= Seq::<char>::empty());
        assert(double_quotes(Seq::<char>::empty()) =~= Seq::<char>::empty());
    } else {
        lemma_double_push(s.drop_first(), c);
        assert(s.push(c).drop_first() =~= s.drop_first().push(c));
    }
}

fn all_shell_safe(value: &str) -> (r: bool)
    ensures
        r == (forall|i: int| 0 <= i < value@.len() ==> shell_safe(#[trigger] value@[i])),
{
    let n = value.unicode_len();
    let mut i: usize = 0;
    while i < n
        invariant
            n == value@.len(),
            i <= n,
            forall|k: int| 0 <= k < i ==> shell_safe(#[trigger] value@[k]),
        decreases n - i,
    {
        let c = value.get_char(i);
        if !is_shell_safe_char(c) {
            assert(value@[i as int] == c);
            return false;
        }
        i = i + 1;
    }
    true
}

fn single_quoted(value: &str) -> (r: String)
    ensures
        r@ == seq!['\''] + escape_single_quotes(value@) + seq!['\''],
{
    let n = value.unicode_len();
    let mut r = String::new();
    push_char(&mut r, '\'');
    let mut j: usize = 0;
    assert(escape_single_quotes(value@.take(0)) =~= Seq::<char>::empty()) by {
        assert(value@.take(0) =~= Seq::<char>::empty());
    }
    while j < n
        invariant
            n == value@.len(),
            j <= n,
            r@ == seq!['\''] + escape_single_quotes(value@.take(j as int)),
        decreases n - j,
    {
        let c = value.get_char(j);
        proof {
            assert(value@.take(j + 1) =~= value@.take(j as int).push(c));
            lemma_escape_push(value@.take(j as int), c);
        }
        if c == '\'' {
            push_char(&mut r, '\'');
            push_char(&mut r, '\\');
            push_char(&mut r, '\'');
            push_char(&mut r, '\'');
        } else {
            push_char(&mut r, c);
        }
        assert(r@ =~= seq!['\''] + escape_single_quotes(value@.take(j + 1)));
        j = j + 1;
    }
    push_char(&mut r, '\'');
    assert(value@.take(n as int) =~= value@);
    r
}

fn double_quoted(value: &str) -> (r: String)
    ensures
        r@ == seq!['"'] + double_quotes(value@) + seq!['"'],
{
    let n = value.unicode_len();
    let mut r = String::new();
    push_char(&mut r, '"');
    let mut j: usize = 0;
    assert(double_quotes(value@.take(0)) =~= Seq::<char>::empty()) by {
        assert(value@.take(0) =~= Seq::<char>::empty());
    }
    while j < n
        invariant
            n == value@.len(),
            j <= n,
            r@ == seq!['"'] + double_quotes(value@.take(j as int)),
        decreases n - j,
    {
        let c = value.get_char(j);
        proof {
            assert(value@.take(j + 1) =~= value@.take(j as int).push(c));
            lemma_double_push(value@.take(j as int), c);
        }
        if c == '"' {
            push_char(&mut r, '"');
            push_char(&mut r, '"');
        } else {
            push_char(&mut r, c);
        }
        assert(r@ =~= seq!['"'] + double_quotes(value@.take(j + 1)));
        j = j + 1;
    }
    push_char(&mut r, '"');
    assert(value@.take(n as int) =~= value@);
    r
}

/// Quotes `value` for the shell of a host of the given style.
pub fn shell_quote(value: &str, style: HostStyle) -> (r: String)
    ensures
        r@ == shell_quoted(value@, style),
{
    let n = value.unicode_len();
    if n > 0 && all_shell_safe(value) {
        return owned(value);
    }
    match style {
        HostStyle::Posix => {
            if n == 0 {
                let mut r = String::new();
                push_char(&mut r, '\'');
                push_char(&mut r, '\'');
                assert(r@ =~= seq!['\'', '\'']);
                r
            } else {
                single_quoted(value)
            }
        },
        HostStyle::Windows => {
            if n == 0 {
                let mut r = String::new();
                push_char(&mut r, '"');
                push_char(&mut r, '"');
                assert(r@ =~= seq!['"', '"']);
                r
            } else {
                double_quoted(value)
            }
        },
    }
}

/// Path text as containers see it: every `\` turned into `/`.
pub fn path_for_container(path: &str) -> (r: String)
    ensures
        r@ == replace_char(path@, '\\', '/'),
{
    replace_char_exec(path, '\\', '/')
}

/// Whether `c` is `/` or `\`.
fn is_separator_exec(c: char) -> (r: bool)
    ensures
        r == is_separator(c),
{
    c == '/' || c == '\\'
}

/// The end of the path component of `p` that starts at `i`.
fn component_end_exec(p: &str, i: usize) -> (r: usize)
    requires
        i <= p@.len(),
    ensures
        r == component_end(p@, i as int),
        i <= r <= p@.len(),
{
    let n = p.unicode_len();
    let mut j: usize = i;
    while j < n && !is_separator_exec(p.get_char(j))
        invariant
            n == p@.len(),
            i <= j <= n,
            component_end(p@, i as int) == component_end(p@, j as int),
        decreases n - j,
    {
        j = j + 1;
    }
    j
}

/// The length of the Windows prefix of `p`.
fn windows_prefix_len_exec(p: &str) -> (r: usize)
    ensures
        r == windows_prefix_len(p@),
        r <= p@.len(),
{
    let n = p.unicode_len();
    if n >= 2 && is_separator_exec(p.get_char(0)) && is_separator_exec(p.get_char(1)) {
        let server_end = component_end_exec(p, 2);
        if server_end > 2 && server_end < n {
            let share_end = component_end_exec(p, server_end + 1);
            if share_end > server_end + 1 {
                share_end
            } else {
                0
            }
        } else {
            0
        }
    } else if n >= 2 {
        let c0 = p.get_char(0);
        if (('a' <= c0 && c0 <= 'z') || ('A' <= c0 && c0 <= 'Z')) && p.get_char(1) == ':' {
            2
        } else {
            0
        }
    } else {
        0
    }
}

/// `base.join(rel)` on path strings of a host of the given style.
pub fn join_path(base: &str, rel: &str, style: HostStyle) -> (r: String)
    ensures
        r@ == joined(base@, rel@, style),
{
    let nb = base.unicode_len();
    let nr = rel.unicode_len();
    match style {
        HostStyle::Posix => {
            if nr > 0 && rel.get_char(0) == '/' {
                return owned(rel);
            }
            let mut r = owned(base);
            if nb > 0 && base.get_char(nb - 1) != '/' {
                push_char(&mut r, '/');
            }
            push_str(&mut r, rel);
            r
        },
        HostStyle::Windows => {
            if windows_prefix_len_exec(rel) > 0 {
                return owned(rel);
            }
            let k = windows_prefix_len_exec(base);
            if nr > 0 && is_separator_exec(rel.get_char(0)) {
                let mut r = owned(base.substring_char(0, k));
                push_str(&mut r, rel);
                return r;
            }
            let mut r = owned(base);
            if nb > 0 && !is_separator_exec(base.get_char(nb - 1)) && !(k == 2 && nb == 2) {
                push_char(&mut r, '\\');
            }
            push_str(&mut r, rel);
            r
        },
    }
}

/// Whether `path` is absolute in the given style (`Path::is_absolute`).
pub fn is_absolute(path: &str, style: HostStyle) -> (r: bool)
    ensures
        r == path_is_absolute(path@, style),
{
    let n = path.unicode_len();
    match style {
        HostStyle::Posix => n > 0 && path.get_char(0) == '/',
        HostStyle::Windows => {
            let k = windows_prefix_len_exec(path);
            k > 0 && (is_separator_exec(path.get_char(0)) || (k < n && is_separator_exec(
                path.get_char(k),
            )))
        },
    }
}

/// `path` made absolute against the working directory `cwd`.
pub fn absolutize(path: &str, cwd: &str, style: HostStyle) -> (r: String)
    ensures
        r@ == (if path_is_absolute(path@, style) {
            path@
        } else {
            joined(cwd@, path@, style)
        }),
{
    if is_absolute(path, style) {
        owned(path)
    } else {
        join_path(cwd, path, style)
    }
}

/// The default cache directory, from the values of the environment variables
/// `TAURI_RELEASE_CACHE_DIR`, `HOME` and `USERPROFILE` (`None` where unset).
pub fn default_cache_dir(
    cache_var: Option<String>,
    home: Option<String>,
    profile: Option<String>,
    style: HostStyle,
) -> (r: String)
    ensures
        r@ == default_cache_dir_spec(opt_view(cache_var), opt_view(home), opt_view(profile), style),
{
    match cache_var {
        Some(v) => v,
        None => {
            let base = match home {
                Some(h) => h,
                None => match profile {
                    Some(p) => p,
                    None => {
                        return join_path(".cache", "tauri-release", style);
                    },
                },
            };
            let first = join_path(base.as_str(), ".cache", style);
            join_path(first.as_str(), "tauri-release", style)
        },
    }
}

/// The session id `<prefix>-<process id>-<milliseconds since the epoch>`.
pub fn now_session_id(prefix: &str, pid: u32, millis: u128) -> (r: String)
    ensures
        r@ == prefix@ + seq!['-'] + decimal(pid as nat) + seq!['-'] + decimal(millis as nat),
{
    let mut r = owned(prefix);
    push_char(&mut r, '-');
    let p = decimal_string(pid as u128);
    push_str(&mut r, p.as_str());
    push_char(&mut r, '-');
    let m = decimal_string(millis);
    push_str(&mut r, m.as_str());
    r
}

/// The platform name of the host whose `target_os` is `target_os`:
/// `windows`, `macos`, `linux` or `unknown`.
pub fn current_host_platform(target_os: &str) -> (r: &'static str)
    ensures
        r@ == host_platform_name(target_os@),
{
    if str_eq(target_os, "windows") {
        "windows"
    } else if str_eq(target_os, "macos") {
        "macos"
    } else if str_eq(target_os, "linux") {
        "linux"
    } else {
        "unknown"
    }
}

/// Whether the host whose `target_os` is `target_os` builds `platform`
/// natively (macOS hosts build both `macos` and `ios`).
pub fn host_matches_platform(target_os: &str, platform: &str) -> (r: bool)
    ensures
        r == host_matches(target_os@, platform@),
{
    if str_eq(platform, "windows") {
        str_eq(target_os, "windows")
    } else if str_eq(platform, "macos") || str_eq(platform, "ios") {
        str_eq(target_os, "macos")
    } else if str_eq(platform, "linux") {
        str_eq(target_os, "linux")
    } else {
        false
    }
}

/// How a POSIX shell reads a word, outside single quotes: `'` opens a quote,
/// `\` takes the next character literally, and every other character stands
/// for itself.
pub open spec fn shell_unquoted(w: Seq<char>) -> Seq<char>
    decreases w.len(), 1int,
{
    if w.len() == 0 {
        Seq::empty()
    } else if w[0] == '\'' {
        shell_unquoted_in(w.drop_first())
    } else if w[0] == '\\' && w.len() >= 2 {
        seq![w[1]] + shell_unquoted(w.subrange(2, w.len() as int))
    } else {
        seq![w[0]] + shell_unquoted(w.drop_first())
    }
}

/// How a POSIX shell reads a word inside single quotes: everything stands for
/// itself up to the closing `'`.
pub open spec fn shell_unquoted_in(w: Seq<char>) -> Seq<char>
    decreases w.len(), 0int,
{
    if w.len() == 0 {
        Seq::empty()
    } else if w[0] == '\'' {
        shell_unquoted(w.drop_first())
    } else {
        seq![w[0]] + shell_unquoted_in(w.drop_first())
    }
}

proof fn lemma_unquote_escaped(s: Seq<char>, t: Seq<char>)
    ensures
        shell_unquoted_in(escape_single_quotes(s) + t) == s + shell_unquoted_in(t),
    decreases s.len(),
{
    if s.len() == 0 {
        assert(escape_single_quotes(s) + t =~= t);
        assert(s + shell_unquoted_in(t) =~= shell_unquoted_in(t));
    } else {
        let rest = s.drop_first();
        lemma_unquote_escaped(rest, t);
        let tail = escape_single_quotes(rest) + t;
        if s[0] == '\'' {
            let w = seq!['\'', '\\', '\'', '\''] + tail;
            assert(escape_single_quotes(s) + t =~= w);
            assert(w.drop_first() =~= seq!['\\', '\'', '\''] + tail);
            assert(w.drop_first().subrange(2, w.drop_first().len() as int) =~= seq!['\''] + tail);
            assert((seq!['\''] + tail).drop_first() =~= tail);
            assert(shell_unquoted_in(w) == shell_unquoted(w.drop_first()));
            assert(shell_unquoted(w.drop_first()) == seq!['\''] + shell_unquoted(seq!['\''] + tail));
            assert(shell_unquoted(seq!['\''] + tail) == shell_unquoted_in(tail));
        } else {
            let w = seq![s[0]] + tail;
            assert(escape_single_quotes(s) + t =~= w);
            assert(w.drop_first() =~= tail);
        }
        assert(s =~= seq![s[0]] + rest);
        assert(s + shell_unquoted_in(t) =~= seq![s[0]] + (rest + shell_unquoted_in(t)));
    }
}

proof fn lemma_unquote_safe(s: Seq<char>)
    requires
        forall|i: int| 0 <= i < s.len() ==> shell_safe(#[trigger] s[i]),
    ensures
        shell_unquoted(s) == s,
    decreases s.len(),
{
    if s.len() > 0 {
        assert(shell_safe(s[0]));
        assert forall|i: int| 0 <= i < s.drop_first().len() implies shell_safe(
            #[trigger] s.drop_first()[i],
        ) by {
            assert(s.drop_first()[i] == s[i + 1]);
        }
        lemma_unquote_safe(s.drop_first());
        assert(s =~= seq![s[0]] + s.drop_first());
    }
}

/// A POSIX shell reads `shell_quote(value)` back as `value`, whatever
/// characters `value` holds.
pub proof fn law_shell_quote_round_trip(s: Seq<char>)
    ensures
        shell_unquoted(shell_quoted(s, HostStyle::Posix)) == s,
{
    if s.len() == 0 {
        let q = seq!['\'', '\''];
        assert(q.drop_first().drop_first() =~= Seq::<char>::empty());
        assert(shell_unquoted(q) == shell_unquoted_in(q.drop_first()));
        assert(shell_unquoted_in(q.drop_first()) == shell_unquoted(q.drop_first().drop_first()));
        assert(s =~= Seq::<char>::empty());
    } else if forall|i: int| 0 <= i < s.len() ==> shell_safe(#[trigger] s[i]) {
        lemma_unquote_safe(s);
    } else {
        let q = seq!['\''] + escape_single_quotes(s) + seq!['\''];
        assert(q.drop_first() =~= escape_single_quotes(s) + seq!['\'']);
        lemma_unquote_escaped(s, seq!['\'']);
        let end = seq!['\''];
        assert(end.drop_first() =~= Seq::<char>::empty());
        assert(shell_unquoted_in(end) == shell_unquoted(end.drop_first()));
        assert(s + Seq::<char>::empty() =~= s);
    }
}

/// How a Windows command line reads a word, outside double quotes: `"`
/// opens a quote and every other character stands for itself.
pub open spec fn cmd_unquoted(w: Seq<char>) -> Seq<char>
    decreases w.len(), 1int,
{
    if w.len() == 0 {
        Seq::empty()
    } else if w[0] == '"' {
        cmd_unquoted_in(w.drop_first())
    } else {
        seq![w[0]] + cmd_unquoted(w.drop_first())
    }
}

/// How a Windows command line reads a word inside double quotes: `""` stands
/// for one `"`, a single `"` closes the quote, and every other character
/// stands for itself.
pub open spec fn cmd_unquoted_in(w: Seq<char>) -> Seq<char>
    decreases w.len(), 0int,
{
    if w.len() == 0 {
        Seq::empty()
    } else if w[0] == '"' && w.len() >= 2 && w[1] == '"' {
        seq!['"'] + cmd_unquoted_in(w.subrange(2, w.len() as int))
    } else if w[0] == '"' {
        cmd_unquoted(w.drop_first())
    } else {
        seq![w[0]] + cmd_unquoted_in(w.drop_first())
    }
}

proof fn lemma_cmd_unquote_doubled(s: Seq<char>, t: Seq<char>)
    ensures
        cmd_unquoted_in(double_quotes(s) + t) == s + cmd_unquoted_in(t),
    decreases s.len(),
{
    if s.len() == 0 {
        assert(double_quotes(s) + t =~= t);
        assert(s + cmd_unquoted_in(t) =~= cmd_unquoted_in(t));
    } else {
        let rest = s.drop_first();
        lemma_cmd_unquote_doubled(rest, t);
        let tail = double_quotes(rest) + t;
        if s[0] == '"' {
            let w = seq!['"', '"'] + tail;
            assert(double_quotes(s) + t =~= w);
            assert(w.subrange(2, w.len() as int) =~= tail);
        } else {
            let w = seq![s[0]] + tail;
            assert(double_quotes(s) + t =~= w);
            assert(w.drop_first() =~= tail);
        }
        assert(s =~= seq![s[0]] + rest);
        assert(s + cmd_unquoted_in(t) =~= seq![s[0]] + (rest + cmd_unquoted_in(t)));
    }
}

proof fn lemma_cmd_unquote_safe(s: Seq<char>)
    requires
        forall|i: int| 0 <= i < s.len() ==> shell_safe(#[trigger] s[i]),
    ensures
        cmd_unquoted(s) == s,
    decreases s.len(),
{
    if s.len() > 0 {
        assert(shell_safe(s[0]));
        assert forall|i: int| 0 <= i < s.drop_first().len() implies shell_safe(
            #[trigger] s.drop_first()[i],
        ) by {
            assert(s.drop_first()[i] == s[i + 1]);
        }
        lemma_cmd_unquote_safe(s.drop_first());
        assert(s =~= seq![s[0]] + s.drop_first());
    }
}

/// A Windows command line reads `shell_quote(value)` of the Windows style
/// back as `value`, whatever characters `value` holds.
pub proof fn law_windows_quote_round_trip(s: Seq<char>)
    ensures
        cmd_unquoted(shell_quoted(s, HostStyle::Windows)) == s,
{
    if s.len() > 0 && forall|i: int| 0 <= i < s.len() ==> shell_safe(#[trigger] s[i]) {
        lemma_cmd_unquote_safe(s);
    } else if s.len() == 0 {
        let q = seq!['"', '"'];
        assert(q.drop_first() =~= seq!['"']);
        assert(seq!['"'].drop_first() =~= Seq::<char>::empty());
        assert(cmd_unquoted_in(seq!['"']) == cmd_unquoted(Seq::<char>::empty()));
        assert(s =~= Seq::<char>::empty());
    } else {
        let q = seq!['"'] + double_quotes(s) + seq!['"'];
        assert(q.drop_first() =~= double_quotes(s) + seq!['"']);
        lemma_cmd_unquote_doubled(s, seq!['"']);
        assert(seq!['"'].drop_first() =~= Seq::<char>::empty());
        assert(cmd_unquoted_in(seq!['"']) == cmd_unquoted(Seq::<char>::empty()));
        assert(s + Seq::<char>::empty() =~= s);
    }
}

} // verus!
