//! Reading of the source of a module: its import statements, then its shading code.
use vstd::prelude::*;
use crate::import::{has_at, imports_from, is_space, parse_imports, string_of};
use crate::module::{Module, ModuleView};
use crate::reader::{
    digits_exceed, directive_space_end, has_wide_line, has_wide_version, literal_end,
    negated_literal_at, parse_code, parsed_code, wide_line_at, wide_literal_from,
    wide_version_at, zeros_end,
};
use crate::syntax::ExternalDecl;
use crate::view::{views, ExternalDeclView, Text};

verus! {

/// Why the source of a module could not be read.
#[derive(Debug, PartialEq, Eq)]
pub enum ParseError {
    /// The source holds nothing but white space.
    Incomplete,
    /// The shading code holds the directive of a version whose number is above 65535, which
    /// is no number of a version.
    VersionNumber,
    /// The shading code holds the directive of a line with a number that is a minus sign
    /// directly before a literal of the value 2147483648, whose negation is no number of 32
    /// bits.
    LineNumber,
    /// The parser refuses the shading code, with this message.
    Syntax(String),
    /// The shading code declares a struct field without name, or holds a layout qualifier
    /// without identifier or a list of initial values without value.
    EmptyList,
}

pub ghost enum ParseErrorView {
    Incomplete,
    VersionNumber,
    LineNumber,
    Syntax(Text),
    EmptyList,
}

impl View for ParseError {
    type V = ParseErrorView;

    open spec fn view(&self) -> ParseErrorView {
        match *self {
            ParseError::Incomplete => ParseErrorView::Incomplete,
            ParseError::VersionNumber => ParseErrorView::VersionNumber,
            ParseError::LineNumber => ParseErrorView::LineNumber,
            ParseError::Syntax(message) => ParseErrorView::Syntax(message@),
            ParseError::EmptyList => ParseErrorView::EmptyList,
        }
    }
}

/// Whether a text holds nothing but white space.
pub open spec fn is_blank(s: Text) -> bool {
    forall|i: int| 0 <= i < s.len() ==> is_space(#[trigger] s[i])
}

/// The module that a source holds: the import statements at its start, and the declarations
/// of the shading code that follows them. A source that is blank holds no module. Shading
/// code that is blank holds no declaration. Shading code that holds the directive of a
/// version with a number above 65535 is refused, and so is shading code that holds the
/// directive of a line with a number that is the literal of 2147483648 behind a minus sign;
/// such a directive counts wherever it stands, also inside a comment.
pub open spec fn parsed_module(source: Text) -> Result<ModuleView, ParseErrorView> {
    let (imports, at) = imports_from(source, 0);
    let code = source.subrange(at, source.len() as int);
    if is_blank(source) {
        Err(ParseErrorView::Incomplete)
    } else if is_blank(code) {
        Ok(ModuleView { imports, glsl: Seq::empty() })
    } else if has_wide_version(code) {
        Err(ParseErrorView::VersionNumber)
    } else if has_wide_line(code) {
        Err(ParseErrorView::LineNumber)
    } else {
        match parsed_code(code) {
            Ok(Some(glsl)) => Ok(ModuleView { imports, glsl }),
            Ok(None) => Err(ParseErrorView::EmptyList),
            Err(message) => Err(ParseErrorView::Syntax(message)),
        }
    }
}

/// The characters of a text.
pub fn chars_of(source: &str) -> (res: Vec<char>)
    ensures
        res@ == source@,
{
    broadcast use vstd::string::group_string_axioms;

    let mut chars: Vec<char> = Vec::new();
    for c in it: source.chars()
        invariant
            it.seq() == source@,
            chars@ == it.seq().subrange(0, it.index()),
    {
        chars.push(c);
    }
    assert(chars@ =~= source@);
    chars
}

/// Tells whether the characters from a position on are all white space.
pub fn blank_from(chars: &Vec<char>, from: usize) -> (res: bool)
    requires
        from <= chars.len(),
    ensures
        res == is_blank(chars@.subrange(from as int, chars.len() as int)),
{
    let ghost rest = chars@.subrange(from as int, chars.len() as int);
    let mut i = from;
    while i < chars.len()
        invariant
            from <= i <= chars.len(),
            rest == chars@.subrange(from as int, chars.len() as int),
            forall|j: int| 0 <= j < i - from ==> is_space(#[trigger] rest[j]),
        decreases chars.len() - i,
    {
        let c = chars[i];
        if !(c == ' ' || c == '\t' || c == '\n' || c == '\r') {
            assert(!is_space(rest[i - from]));
            return false;
        }
        i = i + 1;
    }
    true
}

/// Tells whether a word stands at a position.
fn stands_at(s: &Vec<char>, i: usize, word: &str) -> (res: bool)
    requires
        i <= s.len(),
    ensures
        res == has_at(s@, i as int, word@),
{
    let chars = chars_of(word);
    if s.len() - i < chars.len() {
        return false;
    }
    let ghost found = s@.subrange(i as int, i + chars.len());
    let mut k: usize = 0;
    while k < chars.len()
        invariant
            k <= chars.len(),
            i + chars.len() <= s.len(),
            chars@ == word@,
            found == s@.subrange(i as int, i + chars.len()),
            forall|j: int| 0 <= j < k ==> found[j] == chars@[j],
        decreases chars.len() - k,
    {
        if s[i + k] != chars[k] {
            assert(found[k as int] == s@[i + k]);
            return false;
        }
        k = k + 1;
    }
    assert(found =~= chars@);
    true
}

/// Finds the end of the spaces, tabs and broken lines that stand from a position on.
fn skip_directive_space(s: &Vec<char>, from: usize) -> (res: usize)
    requires
        from <= s.len(),
    ensures
        res == directive_space_end(s@, from as int),
        from <= res <= s.len(),
{
    let mut i = from;
    loop
        invariant
            from <= i <= s.len(),
            directive_space_end(s@, from as int) == directive_space_end(s@, i as int),
        decreases s.len() - i,
    {
        if i < s.len() && (s[i] == ' ' || s[i] == '\t') {
            i = i + 1;
        } else if i < s.len() && s.len() - i >= 2 && s[i] == '\\' && s[i + 1] == '\n' {
            i = i + 2;
        } else {
            return i;
        }
    }
}

/// Tells whether the digits that stand from a position on make a number above 65535.
fn check_digits_exceed(s: &Vec<char>, from: usize) -> (res: bool)
    requires
        from <= s.len(),
    ensures
        res == digits_exceed(s@, from as int, 0),
{
    let mut i = from;
    let mut value: u32 = 0;
    while i < s.len() && '0' <= s[i] && s[i] <= '9'
        invariant
            from <= i <= s.len(),
            value <= 65535,
            digits_exceed(s@, from as int, 0) == digits_exceed(s@, i as int, value as nat),
        decreases s.len() - i,
    {
        let digit: u32 = s[i] as u32 - '0' as u32;
        value = value * 10 + digit;
        if value > 65535 {
            return true;
        }
        i = i + 1;
    }
    false
}

/// Tells whether a text holds the directive of a version with a number above 65535.
pub fn check_wide_version(s: &Vec<char>) -> (res: bool)
    ensures
        res == has_wide_version(s@),
{
    let mut i: usize = 0;
    while i < s.len()
        invariant
            i <= s.len(),
            forall|k: int| 0 <= k < i ==> !wide_version_at(s@, k),
        decreases s.len() - i,
    {
        if s[i] == '#' {
            let word = skip_directive_space(s, i + 1);
            if stands_at(s, word, "version") {
                proof {
                    reveal_strlit("version");
                }
                let digits = skip_directive_space(s, word + 7);
                if check_digits_exceed(s, digits) {
                    assert(wide_version_at(s@, i as int));
                    return true;
                }
            }
        }
        i = i + 1;
    }
    false
}

/// Finds the end of the zeros that stand from a position on.
fn skip_zeros(s: &Vec<char>, from: usize) -> (res: usize)
    requires
        from <= s.len(),
    ensures
        res == zeros_end(s@, from as int),
        from <= res <= s.len(),
{
    let mut i = from;
    while i < s.len() && s[i] == '0'
        invariant
            from <= i <= s.len(),
            zeros_end(s@, from as int) == zeros_end(s@, i as int),
        decreases s.len() - i,
    {
        i = i + 1;
    }
    i
}

/// Tells whether a literal of the value 2147483648 begins at a position.
fn check_wide_literal(s: &Vec<char>, i: usize) -> (res: bool)
    requires
        i <= s.len(),
    ensures
        res == wide_literal_from(s@, i as int),
{
    let zeros = skip_zeros(s, i);
    if stands_at(s, i, "2147483648") {
        return true;
    }
    if zeros > i && stands_at(s, zeros, "20000000000") {
        return true;
    }
    if stands_at(s, i, "0x") || stands_at(s, i, "0X") {
        proof {
            reveal_strlit("0x");
            reveal_strlit("0X");
        }
        let digits = skip_zeros(s, i + 2);
        return stands_at(s, digits, "80000000");
    }
    false
}

/// Tells whether a minus sign stands at a position directly before a literal of the value
/// 2147483648.
fn check_negated_literal(s: &Vec<char>, i: usize) -> (res: bool)
    requires
        i <= s.len(),
    ensures
        res == negated_literal_at(s@, i as int),
{
    i < s.len() && s[i] == '-' && check_wide_literal(s, i + 1)
}

/// Finds the end of the letters and digits that stand from a position on.
fn skip_literal(s: &Vec<char>, from: usize) -> (res: usize)
    requires
        from <= s.len(),
    ensures
        res == literal_end(s@, from as int),
        from <= res <= s.len(),
{
    let mut i = from;
    while i < s.len() && (('0' <= s[i] && s[i] <= '9') || ('a' <= s[i] && s[i] <= 'z') || ('A'
        <= s[i] && s[i] <= 'Z'))
        invariant
            from <= i <= s.len(),
            literal_end(s@, from as int) == literal_end(s@, i as int),
        decreases s.len() - i,
    {
        i = i + 1;
    }
    i
}

/// Tells whether the directive of a line begins at a position with a number that is the
/// literal of 2147483648 behind a minus sign.
fn check_wide_line_at(s: &Vec<char>, i: usize) -> (res: bool)
    requires
        i < s.len(),
    ensures
        res == wide_line_at(s@, i as int),
{
    if s[i] != '#' {
        return false;
    }
    let word = skip_directive_space(s, i + 1);
    if !stands_at(s, word, "line") {
        return false;
    }
    proof {
        reveal_strlit("line");
    }
    let first = skip_directive_space(s, word + 4);
    if check_negated_literal(s, first) {
        return true;
    }
    let digits = if first < s.len() && s[first] == '-' {
        first + 1
    } else {
        first
    };
    let second = skip_directive_space(s, skip_literal(s, digits));
    check_negated_literal(s, second)
}

/// Tells whether a text holds the directive of a line with a number that is the literal of
/// 2147483648 behind a minus sign.
pub fn check_wide_line(s: &Vec<char>) -> (res: bool)
    ensures
        res == has_wide_line(s@),
{
    let mut i: usize = 0;
    while i < s.len()
        invariant
            i <= s.len(),
            forall|k: int| 0 <= k < i ==> !wide_line_at(s@, k),
        decreases s.len() - i,
    {
        if check_wide_line_at(s, i) {
            return true;
        }
        i = i + 1;
    }
    false
}

/// Reads the source of a module.
///
/// Fails with `Incomplete` where the source is blank, with `VersionNumber` where the shading
/// code holds the directive of a version with a number above 65535, with `LineNumber` where
/// it holds the directive of a line with a number that is the literal of 2147483648 behind a
/// minus sign, with `Syntax` where the parser refuses the shading code, and with `EmptyList`
/// where the shading code declares a struct field without name, or holds a layout qualifier
/// without identifier or a list of initial values without value.
pub fn parse_module(source: &str) -> (res: Result<Module, ParseError>)
    ensures
        match parsed_module(source@) {
            Ok(module) => res matches Ok(found) && found@ == module,
            Err(e) => res matches Err(found) && found@ == e,
        },
{
    let chars = chars_of(source);
    assert(chars@.subrange(0, chars.len() as int) =~= chars@);
    if blank_from(&chars, 0) {
        return Err(ParseError::Incomplete);
    }
    let (imports, at) = parse_imports(&chars);
    if blank_from(&chars, at) {
        let glsl: Vec<ExternalDecl> = Vec::new();
        assert(views(glsl@) =~= Seq::<ExternalDeclView>::empty());
        return Ok(Module { imports, glsl });
    }
    let code = string_of(&chars, at, chars.len());
    let code_chars = chars_of(code.as_str());
    if check_wide_version(&code_chars) {
        return Err(ParseError::VersionNumber);
    }
    if check_wide_line(&code_chars) {
        return Err(ParseError::LineNumber);
    }
    match parse_code(code.as_str()) {
        Ok(Some(glsl)) => Ok(Module { imports, glsl }),
        Ok(None) => Err(ParseError::EmptyList),
        Err(message) => Err(ParseError::Syntax(message)),
    }
}

} // verus!
