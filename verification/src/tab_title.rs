//! Titles of the workspace tabs: the game's file name, else its game name,
//! else a placeholder.
use vstd::prelude::*;

use crate::properties::Properties;
use crate::text::chars_of;

verus! {

/// The Unicode `White_Space` characters, which `char::is_whitespace` accepts
/// and `str::trim` removes.
pub open spec fn is_white_space(c: char) -> bool {
    let u = c as int;
    ||| 0x9 <= u <= 0xD
    ||| u == 0x20
    ||| u == 0x85
    ||| u == 0xA0
    ||| u == 0x1680
    ||| 0x2000 <= u <= 0x200A
    ||| u == 0x2028
    ||| u == 0x2029
    ||| u == 0x202F
    ||| u == 0x205F
    ||| u == 0x3000
}

/// `s` is empty once white space is trimmed: all its characters are white
/// space.
pub open spec fn is_blank(s: Seq<char>) -> bool {
    forall|i: int| 0 <= i < s.len() ==> is_white_space(#[trigger] s[i])
}

/// Whether `c` is Unicode white space.
pub fn white_space(c: char) -> (w: bool)
    ensures
        w == is_white_space(c),
{
    ('\u{9}' <= c && c <= '\u{D}') || c == ' ' || c == '\u{85}' || c == '\u{A0}' || c
        == '\u{1680}' || ('\u{2000}' <= c && c <= '\u{200A}') || c == '\u{2028}' || c
        == '\u{2029}' || c == '\u{202F}' || c == '\u{205F}' || c == '\u{3000}'
}

/// Whether `s` holds nothing but white space.
pub fn blank(s: &str) -> (b: bool)
    ensures
        b == is_blank(s@),
{
    let chars = chars_of(s);
    let mut i: usize = 0;
    while i < chars.len()
        invariant
            chars@ == s@,
            i <= chars.len(),
            forall|j: int| 0 <= j < i ==> is_white_space(#[trigger] s@[j]),
        decreases chars.len() - i,
    {
        if !white_space(chars[i]) {
            return false;
        }
        i += 1;
    }
    true
}

/// `n` occurs in `p` as a contiguous run of characters.
pub open spec fn occurs_in(n: Seq<char>, p: Seq<char>) -> bool {
    exists|i: int| 0 <= i && i + n.len() <= p.len() && #[trigger] p.subrange(i, i + n.len()) == n
}

/// `n` can be a component of path `p` on every platform: not empty, without
/// `/`, and a part of `p`.
pub open spec fn is_path_component(n: Seq<char>, p: Seq<char>) -> bool {
    n.len() > 0 && !n.contains('/') && occurs_in(n, p)
}

/// `p` is a bare name on every platform: not empty, not `.` or `..`, and
/// without the characters that separate components or start a drive prefix
/// (`/`, `\`, `:`).
pub open spec fn is_bare_name(p: Seq<char>) -> bool {
    &&& p.len() > 0
    &&& p != "."@
    &&& p != ".."@
    &&& !p.contains('/')
    &&& !p.contains('\\')
    &&& !p.contains(':')
}

/// `p` ends in a parent-directory component `..`.
pub open spec fn ends_in_parent(p: Seq<char>) -> bool {
    p == ".."@ || (p.len() >= 3 && p.subrange(p.len() - 3, p.len() as int) == "/.."@)
}

/// The last kept component after `cur` ends: empty pieces (repeated or
/// trailing `/`) and `.` pieces are dropped.
pub open spec fn keep_component(last: Option<Seq<char>>, cur: Seq<char>) -> Option<Seq<char>> {
    if cur.len() > 0 && cur != "."@ {
        Some(cur)
    } else {
        last
    }
}

/// Reading `p` from the start: the last kept component so far, and the
/// piece under way since the last `/`.
pub open spec fn component_state(p: Seq<char>) -> (Option<Seq<char>>, Seq<char>)
    decreases p.len(),
{
    if p.len() == 0 {
        (None, Seq::empty())
    } else {
        let (last, cur) = component_state(p.drop_last());
        if p.last() == '/' {
            (keep_component(last, cur), Seq::empty())
        } else {
            (last, cur.push(p.last()))
        }
    }
}

/// The file name of a `/`-separated path: its last component once empty and
/// `.` components are dropped; none when there is no such component or it is
/// `..`.
pub open spec fn last_component(p: Seq<char>) -> Option<Seq<char>> {
    let (last, cur) = component_state(p);
    match keep_component(last, cur) {
        Some(c) => if c == ".."@ {
            None
        } else {
            Some(c)
        },
        None => None,
    }
}

/// `p` splits into components the same way on every platform: only `/`
/// separates (no `\`), there is no drive prefix (no `:`), and it does not
/// start with `//` (a network share on some platforms).
pub open spec fn is_plain_path(p: Seq<char>) -> bool {
    &&& !p.contains('\\')
    &&& !p.contains(':')
    &&& !(p.len() >= 2 && p[0] == '/' && p[1] == '/')
}

/// The final component of a path (std `Path::file_name`, read as a string).
/// Stated: a name is a non-empty part of the path without `/`, a path
/// ending in `..` has none, a bare name is its own file name, and a plain
/// `/`-separated path gives its last component. How the platform splits
/// other paths (whether `\` also separates, drive and share prefixes) is
/// not stated.
#[verifier::external_body]
fn path_file_name(path: &str) -> (name: Option<&str>)
    ensures
        name matches Some(n) ==> is_path_component(n@, path@),
        ends_in_parent(path@) ==> name is None,
        is_bare_name(path@) ==> name is Some && name->0@ == path@,
        is_plain_path(path@) ==> match last_component(path@) {
            Some(c) => name is Some && name->0@ == c,
            None => name is None,
        },
{
    std::path::Path::new(path).file_name().and_then(|name| name.to_str())
}

/// The title shown when a game has neither a file name nor a game name.
pub open spec fn untitled() -> Seq<char> {
    "Untitled Game"@
}

/// The game name (`GN`) of a game's root properties: its first value.
pub open spec fn game_name(root: Map<Seq<char>, Seq<Seq<char>>>) -> Option<Seq<char>> {
    if root.contains_key("GN"@) && root["GN"@].len() > 0 {
        Some(root["GN"@][0])
    } else {
        None
    }
}

/// A tab's title: the file name when there is one, else the game name unless
/// it is blank, else `Untitled Game`.
pub open spec fn title_for(file_name: Option<Seq<char>>, name: Option<Seq<char>>) -> Seq<char> {
    match file_name {
        Some(f) => f,
        None => match name {
            Some(g) => if !is_blank(g) {
                g
            } else {
                untitled()
            },
            None => untitled(),
        },
    }
}

/// The title for a game whose file name (`file_name`) was already taken from
/// its path.
pub fn tab_title_from(file_name: Option<String>, root_properties: &Properties) -> (title: String)
    ensures
        title@ == title_for(
            match file_name {
                Some(f) => Some(f@),
                None => None,
            },
            game_name(root_properties@),
        ),
{
    if let Some(name) = file_name {
        return name;
    }
    if let Some(values) = root_properties.get("GN") {
        proof {
            reveal_strlit("GN");
        }
        if values.len() > 0 {
            let title = values[0].as_str();
            assert(values.deep_view()[0] == values@[0]@);
            if !blank(title) {
                return title.to_owned();
            }
        }
    } else {
        proof {
            reveal_strlit("GN");
        }
    }
    "Untitled Game".to_owned()
}

/// The title of a workspace tab for a game saved at `path` (if it is saved)
/// with the given root properties: the path's file name, else the game name
/// (`GN`) unless it is blank, else `Untitled Game`.
pub fn workspace_tab_title(path: Option<&str>, root_properties: &Properties) -> (title: String)
    ensures
        path is None ==> title@ == title_for(None, game_name(root_properties@)),
        path matches Some(p) ==> title@ == title_for(None, game_name(root_properties@))
            || is_path_component(title@, p@),
        path matches Some(p) && ends_in_parent(p@) ==> title@ == title_for(
            None,
            game_name(root_properties@),
        ),
        path matches Some(p) ==> (is_bare_name(p@) ==> title@ == p@),
        path matches Some(p) ==> (is_plain_path(p@) ==> title@ == title_for(
            last_component(p@),
            game_name(root_properties@),
        )),
{
    let file_name = match path {
        Some(path) => match path_file_name(path) {
            Some(name) => Some(name.to_owned()),
            None => None,
        },
        None => None,
    };
    tab_title_from(file_name, root_properties)
}

} // verus!
