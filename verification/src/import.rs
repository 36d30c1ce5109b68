//! The import statements of a module.
//!
//! The source of a module begins with its import statements, each of the form
//! `from foo.bar.zoo import (yyyy, zzzz)`: the path of a module, whose names are separated by
//! dots, and between parentheses the symbols taken from it, separated by commas. The list of
//! symbols may be empty. What follows the last import statement is the shading code.
use vstd::prelude::*;
use crate::syntax::Import;
use crate::view::{views, ImportView, Text};

verus! {

/// Whether a character is white space.
pub open spec fn is_space(c: char) -> bool {
    c == ' ' || c == '\t' || c == '\n' || c == '\r'
}

/// Whether a character can stand in a name: a letter, a digit or an underscore.
pub open spec fn is_name_char(c: char) -> bool {
    ('a' <= c && c <= 'z') || ('A' <= c && c <= 'Z') || ('0' <= c && c <= '9') || c == '_'
}

/// The position of the first character, from a position on, that is no white space.
pub open spec fn spaces_end(s: Text, i: int) -> int
    decreases s.len() - i,
{
    if 0 <= i < s.len() && is_space(s[i]) {
        spaces_end(s, i + 1)
    } else {
        i
    }
}

/// The position of the first character, from a position on, that cannot stand in a name.
pub open spec fn name_end(s: Text, i: int) -> int
    decreases s.len() - i,
{
    if 0 <= i < s.len() && is_name_char(s[i]) {
        name_end(s, i + 1)
    } else {
        i
    }
}

/// Whether a word stands at a position.
pub open spec fn has_at(s: Text, i: int, word: Text) -> bool {
    0 <= i && i + word.len() <= s.len() && s.subrange(i, i + word.len()) == word
}

/// The keyword that begins an import statement.
pub open spec fn from_word() -> Text {
    seq!['f', 'r', 'o', 'm']
}

/// The keyword that stands between the path and the symbols of an import statement.
pub open spec fn import_word() -> Text {
    seq!['i', 'm', 'p', 'o', 'r', 't']
}

/// The names of a dotted path that begins at a position, with the position behind it; none
/// where no name begins there or no name follows a dot.
pub open spec fn path_at(s: Text, i: int) -> Option<(Seq<Text>, int)>
    decreases s.len() - i,
{
    let end = name_end(s, i);
    if 0 <= i < end <= s.len() {
        let name = s.subrange(i, end);
        if end < s.len() && s[end] == '.' {
            match path_at(s, end + 1) {
                Some((names, after)) => Some((seq![name] + names, after)),
                None => None,
            }
        } else {
            Some((seq![name], end))
        }
    } else {
        None
    }
}

/// The symbols that follow a position up to a closing parenthesis, separated by commas, with
/// the position behind the parenthesis; none where the list is not well formed. A symbol is
/// expected at the position where `wanted`; else the list may end there.
pub open spec fn symbols_at(s: Text, i: int, wanted: bool) -> Option<(Seq<Text>, int)>
    decreases s.len() - i,
{
    let start = spaces_end(s, i);
    let end = name_end(s, start);
    if 0 <= i <= start < end <= s.len() {
        let name = s.subrange(start, end);
        let next = spaces_end(s, end);
        if end <= next < s.len() && s[next] == ',' {
            match symbols_at(s, next + 1, true) {
                Some((names, after)) => Some((seq![name] + names, after)),
                None => None,
            }
        } else if end <= next < s.len() && s[next] == ')' {
            Some((seq![name], next + 1))
        } else {
            None
        }
    } else if !wanted && 0 <= i <= start < s.len() && s[start] == ')' {
        Some((Seq::empty(), start + 1))
    } else {
        None
    }
}

/// The import statement that begins at a position, after white space, with the position
/// behind it; none where no well-formed import statement begins there.
pub open spec fn import_at(s: Text, i: int) -> Option<(ImportView, int)> {
    let start = spaces_end(s, i);
    if has_at(s, start, from_word()) {
        let path_start = spaces_end(s, start + 4);
        if path_start > start + 4 {
            match path_at(s, path_start) {
                Some((path, path_end)) => {
                    let keyword = spaces_end(s, path_end);
                    if keyword > path_end && has_at(s, keyword, import_word()) {
                        let open = spaces_end(s, keyword + 6);
                        if 0 <= open < s.len() && s[open] == '(' {
                            match symbols_at(s, open + 1, false) {
                                Some((symbols, end)) => Some((ImportView { path, symbols }, end)),
                                None => None,
                            }
                        } else {
                            None
                        }
                    } else {
                        None
                    }
                },
                None => None,
            }
        } else {
            None
        }
    } else {
        None
    }
}

/// The import statements that stand from a position on, one after the other, with the
/// position behind the last of them, where the shading code begins.
pub open spec fn imports_from(s: Text, i: int) -> (Seq<ImportView>, int)
    decreases s.len() - i,
{
    match import_at(s, i) {
        Some((import, end)) => if i < end <= s.len() {
            let (more, rest) = imports_from(s, end);
            (seq![import] + more, rest)
        } else {
            (Seq::empty(), i)
        },
        None => (Seq::empty(), i),
    }
}

/// Calls `String::from_iter` on characters of a slice, which gives the string of those
/// characters in order.
#[verifier::external_body]
pub(crate) fn string_of(chars: &Vec<char>, from: usize, to: usize) -> (res: String)
    requires
        from <= to <= chars.len(),
    ensures
        res@ == chars@.subrange(from as int, to as int),
{
    String::from_iter(chars[from..to].iter())
}

/// Tells whether a character is white space.
fn check_space(c: char) -> (res: bool)
    ensures
        res == is_space(c),
{
    c == ' ' || c == '\t' || c == '\n' || c == '\r'
}

/// Tells whether a character can stand in a name.
fn check_name_char(c: char) -> (res: bool)
    ensures
        res == is_name_char(c),
{
    ('a' <= c && c <= 'z') || ('A' <= c && c <= 'Z') || ('0' <= c && c <= '9') || c == '_'
}

/// Finds the first character, from a position on, that is no white space.
fn skip_spaces(s: &Vec<char>, from: usize) -> (res: usize)
    requires
        from <= s.len(),
    ensures
        res == spaces_end(s@, from as int),
        from <= res <= s.len(),
{
    let mut i = from;
    while i < s.len() && check_space(s[i])
        invariant
            from <= i <= s.len(),
            spaces_end(s@, from as int) == spaces_end(s@, i as int),
        decreases s.len() - i,
    {
        i = i + 1;
    }
    i
}

/// Finds the first character, from a position on, that cannot stand in a name.
fn skip_name(s: &Vec<char>, from: usize) -> (res: usize)
    requires
        from <= s.len(),
    ensures
        res == name_end(s@, from as int),
        from <= res <= s.len(),
{
    let mut i = from;
    while i < s.len() && check_name_char(s[i])
        invariant
            from <= i <= s.len(),
            name_end(s@, from as int) == name_end(s@, i as int),
        decreases s.len() - i,
    {
        i = i + 1;
    }
    i
}

/// Tells whether `from` stands at a position.
fn has_from(s: &Vec<char>, i: usize) -> (res: bool)
    requires
        i <= s.len(),
    ensures
        res == has_at(s@, i as int, from_word()),
{
    if s.len() - i < 4 {
        return false;
    }
    let res = s[i] == 'f' && s[i + 1] == 'r' && s[i + 2] == 'o' && s[i + 3] == 'm';
    proof {
        let found = s@.subrange(i as int, i + 4);
        if res {
            assert(found =~= from_word());
        } else {
            assert(found[0] == s@[i as int] && found[1] == s@[i + 1] && found[2] == s@[i + 2]
                && found[3] == s@[i + 3]);
        }
    }
    res
}

/// Tells whether `import` stands at a position.
fn has_import(s: &Vec<char>, i: usize) -> (res: bool)
    requires
        i <= s.len(),
    ensures
        res == has_at(s@, i as int, import_word()),
{
    if s.len() - i < 6 {
        return false;
    }
    let res = s[i] == 'i' && s[i + 1] == 'm' && s[i + 2] == 'p' && s[i + 3] == 'o' && s[i + 4]
        == 'r' && s[i + 5] == 't';
    proof {
        let found = s@.subrange(i as int, i + 6);
        if res {
            assert(found =~= import_word());
        } else {
            assert(found[0] == s@[i as int] && found[1] == s@[i + 1] && found[2] == s@[i + 2]
                && found[3] == s@[i + 3] && found[4] == s@[i + 4] && found[5] == s@[i + 5]);
        }
    }
    res
}

/// Puts a name before a list of names.
fn with_first(name: String, names: Vec<String>) -> (res: Vec<String>)
    ensures
        views(res@) == seq![name@] + views(names@),
{
    let mut res: Vec<String> = Vec::new();
    res.push(name);
    let mut names = names;
    let ghost rest = views(names@);
    let ghost all = names@;
    res.append(&mut names);
    assert(res@ =~= seq![name] + all);
    assert(views(res@) =~= seq![name@] + rest);
    res
}

/// Reads the names of a dotted path that begins at a position.
fn read_path(s: &Vec<char>, i: usize) -> (res: Option<(Vec<String>, usize)>)
    requires
        i <= s.len(),
    ensures
        match path_at(s@, i as int) {
            Some((names, end)) => res matches Some(found) && views(found.0@) == names && found.1
                == end && i < end <= s.len(),
            None => res is None,
        },
    decreases s.len() - i,
{
    let end = skip_name(s, i);
    if end == i {
        return None;
    }
    let name = string_of(s, i, end);
    if end < s.len() && s[end] == '.' {
        match read_path(s, end + 1) {
            Some((names, after)) => Some((with_first(name, names), after)),
            None => None,
        }
    } else {
        let names: Vec<String> = Vec::new();
        let list = with_first(name, names);
        assert(views(list@) =~= seq![name@]);
        Some((list, end))
    }
}

/// Reads the symbols that follow a position up to a closing parenthesis.
fn read_symbols(s: &Vec<char>, i: usize, wanted: bool) -> (res: Option<(Vec<String>, usize)>)
    requires
        i <= s.len(),
    ensures
        match symbols_at(s@, i as int, wanted) {
            Some((names, end)) => res matches Some(found) && views(found.0@) == names && found.1
                == end && i < end <= s.len(),
            None => res is None,
        },
    decreases s.len() - i,
{
    let start = skip_spaces(s, i);
    let end = skip_name(s, start);
    if start < end {
        let name = string_of(s, start, end);
        let next = skip_spaces(s, end);
        if next < s.len() && s[next] == ',' {
            match read_symbols(s, next + 1, true) {
                Some((names, after)) => Some((with_first(name, names), after)),
                None => None,
            }
        } else if next < s.len() && s[next] == ')' {
            let names: Vec<String> = Vec::new();
            let list = with_first(name, names);
            assert(views(list@) =~= seq![name@]);
            Some((list, next + 1))
        } else {
            None
        }
    } else if !wanted && start < s.len() && s[start] == ')' {
        let names: Vec<String> = Vec::new();
        assert(views(names@) =~= Seq::<Text>::empty());
        Some((names, start + 1))
    } else {
        None
    }
}

/// Reads the import statement that begins at a position, after white space.
pub fn read_import(s: &Vec<char>, i: usize) -> (res: Option<(Import, usize)>)
    requires
        i <= s.len(),
    ensures
        match import_at(s@, i as int) {
            Some((import, end)) => res matches Some(found) && found.0@ == import && found.1
                == end && i < end <= s.len(),
            None => res is None,
        },
{
    let start = skip_spaces(s, i);
    if !has_from(s, start) {
        return None;
    }
    let path_start = skip_spaces(s, start + 4);
    if path_start == start + 4 {
        return None;
    }
    let (path, path_end) = match read_path(s, path_start) {
        Some(found) => found,
        None => {
            return None;
        },
    };
    let keyword = skip_spaces(s, path_end);
    if keyword == path_end || !has_import(s, keyword) {
        return None;
    }
    let open = skip_spaces(s, keyword + 6);
    if open < s.len() && s[open] == '(' {
        match read_symbols(s, open + 1, false) {
            Some((symbols, end)) => Some((Import { path, symbols }, end)),
            None => None,
        }
    } else {
        None
    }
}

/// Reads the import statements at the start of the source of a module. Returns them in
/// order, with the position where the shading code begins: behind the last import statement,
/// or at the start where the source begins with none.
pub fn parse_imports(source: &Vec<char>) -> (res: (Vec<Import>, usize))
    ensures
        views(res.0@) == imports_from(source@, 0).0,
        res.1 == imports_from(source@, 0).1,
        res.1 <= source.len(),
{
    let mut imports: Vec<Import> = Vec::new();
    let mut at: usize = 0;
    let ghost all = imports_from(source@, 0);
    assert(views(imports@) =~= Seq::<ImportView>::empty());
    loop
        invariant
            at <= source.len(),
            all == imports_from(source@, 0),
            all.0 == views(imports@) + imports_from(source@, at as int).0,
            all.1 == imports_from(source@, at as int).1,
        decreases source.len() - at,
    {
        match read_import(source, at) {
            Some((import, end)) => {
                let ghost before = views(imports@);
                imports.push(import);
                assert(views(imports@) =~= before.push(import@));
                assert(views(imports@) + imports_from(source@, end as int).0 =~= before + (
                seq![import@] + imports_from(source@, end as int).0));
                at = end;
            },
            None => {
                assert(views(imports@) + Seq::<ImportView>::empty() =~= views(imports@));
                return (imports, at);
            },
        }
    }
}

} // verus!
