//! The syntax the generators copy from an interface file into generated
//! code. `syn` keeps a few forms unparsed (as `Verbatim`), and
//! `prettyplease` does not print those: a function, `static`, `const`,
//! `type`, `impl`, `use` or `macro` item without the parts it needs, which
//! can only stand inside a block; `box` patterns and `const` patterns;
//! `become` and `builtin #` expressions; `dyn*` types, a bare function type
//! whose first parameter is `mut self`, and `const` bounds. A copied type
//! or pattern is refused where it could hold one of them: a refused word,
//! an item keyword inside braces, a `#` that does not start an attribute,
//! or a macro call; and where it could end the item it stands in: brackets
//! that do not balance, a brace or `;` outside any bracket, or a comment.
//! String and character literals are read as the lexer reads them, the
//! former only with plain contents. A copied `use` item must be the path
//! its tree describes.
use vstd::prelude::*;
use crate::codegen::{FileItem, FnInput, TraitFnSig, TraitItemModel, UseItemModel, UseTreeModel, same_text};
use vstd::string::StringExecFns;

verus! {

/// A character of an identifier.
pub open spec fn ident_char(c: char) -> bool {
    ('a' <= c && c <= 'z') || ('A' <= c && c <= 'Z') || ('0' <= c && c <= '9') || c == '_'
}

/// A character that a copied type or pattern may hold outside literals.
pub open spec fn piece_char(c: char) -> bool {
    ident_char(c) || c == ' ' || c == ':' || c == '<' || c == '>' || c == ',' || c == '&' || c == '*'
        || c == '(' || c == ')' || c == '[' || c == ']' || c == '{' || c == '}' || c == ';' || c == '\''
        || c == '"' || c == '#' || c == '!' || c == '-' || c == '=' || c == '+' || c == '?' || c == '.'
        || c == '|'
}

/// A character that a copied string literal may hold.
pub open spec fn string_char(c: char) -> bool {
    ident_char(c) || c == ' ' || c == '-' || c == '.'
}

/// A character that the tree of a copied `use` item may hold.
pub open spec fn use_char(c: char) -> bool {
    ident_char(c) || c == ' ' || c == ':' || c == '{' || c == '}' || c == ',' || c == '*'
}

/// The word `w` stands at `i`, with no identifier character right before
/// or right after it.
pub open spec fn word_at(s: Seq<char>, i: int, w: Seq<char>) -> bool {
    0 <= i && i + w.len() <= s.len() && s.subrange(i, i + w.len()) == w && (i == 0 || !ident_char(s[i - 1]))
        && (i + w.len() == s.len() || !ident_char(s[i + w.len()]))
}

/// The first position at or after `i` that is not a space.
pub open spec fn skip_spaces(s: Seq<char>, i: int) -> int
    decreases s.len() - i,
{
    if 0 <= i < s.len() && s[i] == ' ' {
        skip_spaces(s, i + 1)
    } else {
        i
    }
}

/// The first character at or after `i` that is not a space is `c`.
pub open spec fn next_is(s: Seq<char>, i: int, c: char) -> bool {
    0 <= skip_spaces(s, i) < s.len() && s[skip_spaces(s, i)] == c
}

/// Position `i` follows a `*`, directly or after one space (`*const T`).
pub open spec fn after_star(s: Seq<char>, i: int) -> bool {
    (1 <= i <= s.len() && s[i - 1] == '*') || (2 <= i <= s.len() && s[i - 1] == ' ' && s[i - 2] == '*')
}

/// A keyword that starts an item.
pub open spec fn item_word_at(s: Seq<char>, i: int) -> bool {
    word_at(s, i, "fn"@) || word_at(s, i, "static"@) || word_at(s, i, "type"@) || word_at(s, i, "impl"@)
        || word_at(s, i, "trait"@) || word_at(s, i, "struct"@) || word_at(s, i, "enum"@) || word_at(
        s,
        i,
        "union"@,
    ) || word_at(s, i, "mod"@) || word_at(s, i, "extern"@) || word_at(s, i, "use"@) || word_at(
        s,
        i,
        "macro"@,
    ) || word_at(s, i, "macro_rules"@)
}

/// A word at `i` that starts a form `syn` keeps unparsed: `box`, `become`,
/// `dyn*`, `const` other than in `*const`, `mut self`; and, inside braces,
/// an item keyword.
pub open spec fn refused_word_at(s: Seq<char>, i: int, braces: int) -> bool {
    word_at(s, i, "box"@) || word_at(s, i, "become"@) || (word_at(s, i, "dyn"@) && next_is(s, i + 3, '*')) || (
    word_at(s, i, "const"@) && !after_star(s, i)) || (word_at(s, i, "mut"@) && word_at(
        s,
        skip_spaces(s, i + 3),
        "self"@,
    )) || (braces > 0 && item_word_at(s, i))
}

/// The rest of a type or pattern from `i` on, with that many round,
/// square and curly brackets open, is copied; `in_string` when `i` is
/// inside a string literal.
pub open spec fn plain_from(s: Seq<char>, i: int, parens: int, brackets: int, braces: int, in_string: bool) -> bool
    decreases s.len() - i,
{
    if i < 0 || i >= s.len() {
        parens == 0 && brackets == 0 && braces == 0 && !in_string
    } else if in_string {
        if s[i] == '"' {
            plain_from(s, i + 1, parens, brackets, braces, false)
        } else {
            string_char(s[i]) && plain_from(s, i + 1, parens, brackets, braces, true)
        }
    } else {
        let c = s[i];
        if !piece_char(c) || refused_word_at(s, i, braces) {
            false
        } else if c == '"' {
            plain_from(s, i + 1, parens, brackets, braces, true)
        } else if c == '\'' {
            if i + 2 < s.len() && s[i + 2] == '\'' && s[i + 1] != '\\' {
                plain_from(s, i + 3, parens, brackets, braces, false)
            } else {
                i + 1 < s.len() && ident_char(s[i + 1]) && plain_from(s, i + 1, parens, brackets, braces, false)
            }
        } else if c == '(' {
            plain_from(s, i + 1, parens + 1, brackets, braces, false)
        } else if c == ')' {
            parens > 0 && plain_from(s, i + 1, parens - 1, brackets, braces, false)
        } else if c == '[' {
            plain_from(s, i + 1, parens, brackets + 1, braces, false)
        } else if c == ']' {
            brackets > 0 && plain_from(s, i + 1, parens, brackets - 1, braces, false)
        } else if c == '{' {
            (parens > 0 || brackets > 0 || braces > 0) && plain_from(s, i + 1, parens, brackets, braces + 1, false)
        } else if c == '}' {
            braces > 0 && plain_from(s, i + 1, parens, brackets, braces - 1, false)
        } else if c == ';' {
            (brackets > 0 || braces > 0) && plain_from(s, i + 1, parens, brackets, braces, false)
        } else if c == '!' {
            !next_is(s, i + 1, '(') && !next_is(s, i + 1, '[') && !next_is(s, i + 1, '{') && plain_from(s, i + 1, parens, brackets, braces, false)
        } else if c == '#' {
            next_is(s, i + 1, '[') && plain_from(s, i + 1, parens, brackets, braces, false)
        } else {
            plain_from(s, i + 1, parens, brackets, braces, false)
        }
    }
}

/// `mut` is refused only where it starts `mut self`: anywhere else (in
/// `&mut T`, `*mut T`, `mut x`), inside braces or not, it is no refused
/// word.
pub proof fn law_mut_refused_only_before_self(s: Seq<char>, i: int, braces: int)
    requires
        word_at(s, i, "mut"@),
        !word_at(s, skip_spaces(s, i + 3), "self"@),
    ensures
        !refused_word_at(s, i, braces),
{
    reveal_strlit("mut");
    reveal_strlit("box");
    reveal_strlit("become");
    reveal_strlit("dyn");
    reveal_strlit("const");
    reveal_strlit("fn");
    reveal_strlit("static");
    reveal_strlit("type");
    reveal_strlit("impl");
    reveal_strlit("trait");
    reveal_strlit("struct");
    reveal_strlit("enum");
    reveal_strlit("union");
    reveal_strlit("mod");
    reveal_strlit("extern");
    reveal_strlit("use");
    reveal_strlit("macro");
    reveal_strlit("macro_rules");
    assert(s[i] == s.subrange(i, i + 3)[0]);
    assert(s[i + 1] == s.subrange(i, i + 3)[1]);
    assert(s[i] == 'm' && s[i + 1] == 'u');
    assert forall|w: Seq<char>| w.len() >= 2 && i + w.len() <= s.len() && s.subrange(i, i + w.len()) == w implies w[0]
        == 'm' && w[1] == 'u' by {
        assert(s.subrange(i, i + w.len())[0] == s[i]);
        assert(s.subrange(i, i + w.len())[1] == s[i + 1]);
    }
}

proof fn lemma_word_chars(s: Seq<char>, i: int, w: Seq<char>)
    ensures
        word_at(s, i, w) && w.len() >= 2 ==> s[i] == w[0] && s[i + 1] == w[1],
{
    if word_at(s, i, w) && w.len() >= 2 {
        assert(s.subrange(i, i + w.len())[0] == s[i]);
        assert(s.subrange(i, i + w.len())[1] == s[i + 1]);
    }
}

proof fn lemma_refused_word_chars(s: Seq<char>, i: int)
    ensures
        word_at(s, i, "box"@) ==> s[i] == 'b' && s[i + 1] == 'o',
        word_at(s, i, "become"@) ==> s[i] == 'b' && s[i + 1] == 'e',
        word_at(s, i, "dyn"@) ==> s[i] == 'd' && s[i + 1] == 'y',
        word_at(s, i, "const"@) ==> s[i] == 'c' && s[i + 1] == 'o',
        word_at(s, i, "mut"@) ==> s[i] == 'm' && s[i + 1] == 'u',
{
    reveal_strlit("box");
    reveal_strlit("become");
    reveal_strlit("dyn");
    reveal_strlit("const");
    reveal_strlit("mut");
    lemma_word_chars(s, i, "box"@);
    lemma_word_chars(s, i, "become"@);
    lemma_word_chars(s, i, "dyn"@);
    lemma_word_chars(s, i, "const"@);
    lemma_word_chars(s, i, "mut"@);
}

proof fn lemma_item_word_first_chars(s: Seq<char>, i: int)
    ensures
        item_word_at(s, i) ==> (s[i] == 'f' || s[i] == 's' || s[i] == 't' || s[i] == 'i' || s[i] == 'e' || s[i] == 'u'
            || (s[i] == 'm' && (s[i + 1] == 'o' || s[i + 1] == 'a'))),
{
    reveal_strlit("fn");
    reveal_strlit("static");
    reveal_strlit("type");
    reveal_strlit("impl");
    reveal_strlit("trait");
    reveal_strlit("struct");
    reveal_strlit("enum");
    reveal_strlit("union");
    reveal_strlit("mod");
    reveal_strlit("extern");
    reveal_strlit("use");
    reveal_strlit("macro");
    reveal_strlit("macro_rules");
    lemma_word_chars(s, i, "fn"@);
    lemma_word_chars(s, i, "static"@);
    lemma_word_chars(s, i, "type"@);
    lemma_word_chars(s, i, "impl"@);
    lemma_word_chars(s, i, "trait"@);
    lemma_word_chars(s, i, "struct"@);
    lemma_word_chars(s, i, "enum"@);
    lemma_word_chars(s, i, "union"@);
    lemma_word_chars(s, i, "mod"@);
    lemma_word_chars(s, i, "extern"@);
    lemma_word_chars(s, i, "use"@);
    lemma_word_chars(s, i, "macro"@);
    lemma_word_chars(s, i, "macro_rules"@);
}

/// Outside braces the keywords that start items are no refused words:
/// they are what function-pointer types (`extern "C" fn`) and `impl Trait`
/// types are written with.
pub proof fn law_item_keywords_allowed_outside_braces(s: Seq<char>, i: int)
    requires
        item_word_at(s, i),
    ensures
        !refused_word_at(s, i, 0),
{
    lemma_refused_word_chars(s, i);
    lemma_item_word_first_chars(s, i);
}

/// `dyn` is refused only where it starts `dyn*`: `dyn Trait` is accepted.
pub proof fn law_dyn_refused_only_before_star(s: Seq<char>, i: int, braces: int)
    requires
        word_at(s, i, "dyn"@),
        !next_is(s, i + 3, '*'),
    ensures
        !refused_word_at(s, i, braces),
{
    lemma_refused_word_chars(s, i);
    lemma_item_word_first_chars(s, i);
}

/// `const` right after `*` (`*const T`, `* const T`) is accepted.
pub proof fn law_const_allowed_after_star(s: Seq<char>, i: int, braces: int)
    requires
        word_at(s, i, "const"@),
        after_star(s, i),
    ensures
        !refused_word_at(s, i, braces),
{
    lemma_refused_word_chars(s, i);
    lemma_item_word_first_chars(s, i);
}

/// A prefix after which a piece is read as on its own: it ends in a space
/// that does not follow a `*`.
pub open spec fn neutral_prefix(pre: Seq<char>) -> bool {
    pre.len() >= 2 && pre[pre.len() - 1] == ' ' && pre[pre.len() - 2] != '*'
}

proof fn lemma_word_at_shift(pre: Seq<char>, p: Seq<char>, j: int, w: Seq<char>)
    requires
        neutral_prefix(pre),
        0 <= j <= p.len(),
    ensures
        word_at(pre + p, pre.len() + j, w) == word_at(p, j, w),
{
    let s = pre + p;
    let n = pre.len() as int;
    if j + w.len() <= p.len() {
        assert(s.subrange(n + j, n + j + w.len()) =~= p.subrange(j, j + w.len()));
        if j > 0 {
            assert(s[n + j - 1] == p[j - 1]);
        } else {
            assert(s[n - 1] == ' ');
        }
        if j + w.len() < p.len() {
            assert(s[n + j + w.len()] == p[j + w.len()]);
        }
    }
}

proof fn lemma_skip_spaces_shift(pre: Seq<char>, p: Seq<char>, j: int)
    requires
        0 <= j <= p.len(),
    ensures
        skip_spaces(pre + p, pre.len() + j) == pre.len() + skip_spaces(p, j),
    decreases p.len() - j,
{
    let s = pre + p;
    if j < p.len() {
        assert(s[pre.len() + j] == p[j]);
        if p[j] == ' ' {
            lemma_skip_spaces_shift(pre, p, j + 1);
        }
    }
}

proof fn lemma_skip_spaces_bounds(s: Seq<char>, i: int)
    requires
        0 <= i,
    ensures
        i <= skip_spaces(s, i),
        i <= s.len() ==> skip_spaces(s, i) <= s.len(),
    decreases s.len() - i,
{
    if 0 <= i < s.len() && s[i] == ' ' {
        lemma_skip_spaces_bounds(s, i + 1);
    }
}

proof fn lemma_next_is_shift(pre: Seq<char>, p: Seq<char>, j: int, c: char)
    requires
        0 <= j <= p.len(),
    ensures
        next_is(pre + p, pre.len() + j, c) == next_is(p, j, c),
{
    lemma_skip_spaces_shift(pre, p, j);
    lemma_skip_spaces_bounds(p, j);
    let k = skip_spaces(p, j);
    if k < p.len() {
        assert((pre + p)[pre.len() + k] == p[k]);
    }
}

proof fn lemma_refused_word_shift(pre: Seq<char>, p: Seq<char>, j: int, braces: int)
    requires
        neutral_prefix(pre),
        0 <= j < p.len(),
    ensures
        refused_word_at(pre + p, pre.len() + j, braces) == refused_word_at(p, j, braces),
{
    let s = pre + p;
    let n = pre.len() as int;
    reveal_strlit("dyn");
    reveal_strlit("mut");
    lemma_word_at_shift(pre, p, j, "box"@);
    lemma_word_at_shift(pre, p, j, "become"@);
    lemma_word_at_shift(pre, p, j, "dyn"@);
    lemma_word_at_shift(pre, p, j, "const"@);
    lemma_word_at_shift(pre, p, j, "mut"@);
    lemma_word_at_shift(pre, p, j, "fn"@);
    lemma_word_at_shift(pre, p, j, "static"@);
    lemma_word_at_shift(pre, p, j, "type"@);
    lemma_word_at_shift(pre, p, j, "impl"@);
    lemma_word_at_shift(pre, p, j, "trait"@);
    lemma_word_at_shift(pre, p, j, "struct"@);
    lemma_word_at_shift(pre, p, j, "enum"@);
    lemma_word_at_shift(pre, p, j, "union"@);
    lemma_word_at_shift(pre, p, j, "mod"@);
    lemma_word_at_shift(pre, p, j, "extern"@);
    lemma_word_at_shift(pre, p, j, "use"@);
    lemma_word_at_shift(pre, p, j, "macro"@);
    lemma_word_at_shift(pre, p, j, "macro_rules"@);
    assert(item_word_at(s, n + j) == item_word_at(p, j));
    if word_at(p, j, "dyn"@) {
        lemma_next_is_shift(pre, p, j + 3, '*');
    }
    if word_at(p, j, "mut"@) {
        lemma_skip_spaces_shift(pre, p, j + 3);
        lemma_skip_spaces_bounds(p, j + 3);
        lemma_word_at_shift(pre, p, skip_spaces(p, j + 3), "self"@);
    }
    assert(after_star(s, n + j) == after_star(p, j)) by {
        if j == 0 {
            assert(s[n - 1] == ' ' && s[n - 2] == pre[n - 2]);
        } else if j == 1 {
            assert(s[n] == p[0] && s[n - 1] == ' ');
        } else {
            assert(s[n + j - 1] == p[j - 1] && s[n + j - 2] == p[j - 2]);
        }
    }
}

proof fn lemma_plain_from_shift(
    pre: Seq<char>,
    p: Seq<char>,
    j: int,
    parens: int,
    brackets: int,
    braces: int,
    in_string: bool,
)
    requires
        neutral_prefix(pre),
        0 <= j <= p.len(),
    ensures
        plain_from(pre + p, pre.len() + j, parens, brackets, braces, in_string) == plain_from(
            p,
            j,
            parens,
            brackets,
            braces,
            in_string,
        ),
    decreases p.len() - j,
{
    let s = pre + p;
    let n = pre.len() as int;
    if j < p.len() {
        assert(s[n + j] == p[j]);
        if j + 1 < p.len() {
            assert(s[n + j + 1] == p[j + 1]);
        }
        if j + 2 < p.len() {
            assert(s[n + j + 2] == p[j + 2]);
        }
        lemma_refused_word_shift(pre, p, j, braces);
        lemma_next_is_shift(pre, p, j + 1, '(');
        lemma_next_is_shift(pre, p, j + 1, '[');
        lemma_next_is_shift(pre, p, j + 1, '{');
        lemma_plain_from_shift(pre, p, j + 1, parens, brackets, braces, in_string);
        lemma_plain_from_shift(pre, p, j + 1, parens, brackets, braces, !in_string);
        lemma_plain_from_shift(pre, p, j + 1, parens + 1, brackets, braces, false);
        lemma_plain_from_shift(pre, p, j + 1, parens - 1, brackets, braces, false);
        lemma_plain_from_shift(pre, p, j + 1, parens, brackets + 1, braces, false);
        lemma_plain_from_shift(pre, p, j + 1, parens, brackets - 1, braces, false);
        lemma_plain_from_shift(pre, p, j + 1, parens, brackets, braces + 1, false);
        lemma_plain_from_shift(pre, p, j + 1, parens, brackets, braces - 1, false);
        if j + 3 <= p.len() {
            lemma_plain_from_shift(pre, p, j + 3, parens, brackets, braces, false);
        }
    }
}

/// A character read on its own: no literal, bracket or mark that the
/// reading treats specially.
pub open spec fn ordinary_char(c: char) -> bool {
    piece_char(c) && c != '"' && c != '\'' && c != '(' && c != ')' && c != '[' && c != ']' && c != '{' && c != '}'
        && c != ';' && c != '!' && c != '#'
}

proof fn lemma_prefix_reads_through(pre: Seq<char>, p: Seq<char>, k: int)
    requires
        neutral_prefix(pre),
        0 <= k <= pre.len(),
        forall|m: int| 0 <= m < pre.len() ==> ordinary_char(#[trigger] pre[m]),
        forall|m: int| 0 <= m < pre.len() ==> !(#[trigger] refused_word_at(pre + p, m, 0)),
    ensures
        plain_from(pre + p, k, 0, 0, 0, false) == plain_from(p, 0, 0, 0, 0, false),
    decreases pre.len() - k,
{
    if k == pre.len() {
        lemma_plain_from_shift(pre, p, 0, 0, 0, 0, false);
    } else {
        assert((pre + p)[k] == pre[k]);
        assert(ordinary_char(pre[k]));
        assert(!refused_word_at(pre + p, k, 0));
        lemma_prefix_reads_through(pre, p, k + 1);
    }
}

proof fn lemma_no_word_inside(s: Seq<char>, k: int)
    requires
        1 <= k < s.len(),
        ident_char(s[k - 1]),
    ensures
        !refused_word_at(s, k, 0),
{
}

proof fn lemma_no_word_at_mark(s: Seq<char>, k: int)
    requires
        0 <= k < s.len(),
        s[k] == '&' || s[k] == ' ' || s[k] == '*',
    ensures
        !refused_word_at(s, k, 0),
{
    lemma_refused_word_chars(s, k);
}

/// References and raw pointers to a type or pattern that is copied are
/// copied too: `& T` and `* const T` always, `& mut T` and `* mut T`
/// unless `T` starts with `self`.
pub proof fn law_references_to_plain_pieces_are_plain(p: Seq<char>)
    requires
        plain_piece(p),
    ensures
        plain_piece("& "@ + p),
        plain_piece("* const "@ + p),
        !word_at(p, skip_spaces(p, 0), "self"@) ==> plain_piece("& mut "@ + p) && plain_piece("* mut "@ + p),
{
    reveal_strlit("& ");
    reveal_strlit("* const ");
    reveal_strlit("& mut ");
    reveal_strlit("* mut ");
    reveal_strlit("mut");
    reveal_strlit("const");
    let a = "& "@;
    assert forall|m: int| 0 <= m < a.len() implies !(#[trigger] refused_word_at(a + p, m, 0)) by {
        assert((a + p)[m] == a[m]);
        lemma_no_word_at_mark(a + p, m);
    }
    lemma_prefix_reads_through(a, p, 0);
    let c = "* const "@;
    assert forall|m: int| 0 <= m < c.len() implies !(#[trigger] refused_word_at(c + p, m, 0)) by {
        let s = c + p;
        assert(s[m] == c[m]);
        if m == 2 {
            assert(s.subrange(2, 7) =~= "const"@);
            assert(s[7] == ' ');
            assert(word_at(s, 2, "const"@));
            assert(after_star(s, 2));
            law_const_allowed_after_star(s, 2, 0);
        } else if m > 2 && m < 7 {
            assert(s[m - 1] == c[m - 1]);
            lemma_no_word_inside(s, m);
        } else {
            lemma_no_word_at_mark(s, m);
        }
    }
    lemma_prefix_reads_through(c, p, 0);
    if !word_at(p, skip_spaces(p, 0), "self"@) {
        lemma_skip_spaces_bounds(p, 0);
        let b = "& mut "@;
        assert forall|m: int| 0 <= m < b.len() implies !(#[trigger] refused_word_at(b + p, m, 0)) by {
            let s = b + p;
            assert(s[m] == b[m]);
            if m == 2 {
                assert(s.subrange(2, 5) =~= "mut"@);
                assert(s[5] == ' ');
                assert(skip_spaces(s, 5) == skip_spaces(s, 6));
                lemma_skip_spaces_shift(b, p, 0);
                lemma_word_at_shift(b, p, skip_spaces(p, 0), "self"@);
                law_mut_refused_only_before_self(s, 2, 0);
            } else if m > 2 && m < 5 {
                assert(s[m - 1] == b[m - 1]);
                lemma_no_word_inside(s, m);
            } else {
                lemma_no_word_at_mark(s, m);
            }
        }
        lemma_prefix_reads_through(b, p, 0);
        let d = "* mut "@;
        assert forall|m: int| 0 <= m < d.len() implies !(#[trigger] refused_word_at(d + p, m, 0)) by {
            let s = d + p;
            assert(s[m] == d[m]);
            if m == 2 {
                assert(s.subrange(2, 5) =~= "mut"@);
                assert(s[5] == ' ');
                assert(skip_spaces(s, 5) == skip_spaces(s, 6));
                lemma_skip_spaces_shift(d, p, 0);
                lemma_word_at_shift(d, p, skip_spaces(p, 0), "self"@);
                law_mut_refused_only_before_self(s, 2, 0);
            } else if m > 2 && m < 5 {
                assert(s[m - 1] == d[m - 1]);
                lemma_no_word_inside(s, m);
            } else {
                lemma_no_word_at_mark(s, m);
            }
        }
        lemma_prefix_reads_through(d, p, 0);
    }
}

/// A type or pattern that is copied into generated code.
pub open spec fn plain_piece(s: Seq<char>) -> bool {
    plain_from(s, 0, 0, 0, 0, false)
}

/// A non-empty identifier of plain characters.
pub open spec fn plain_ident(s: Seq<char>) -> bool {
    s.len() > 0 && forall|i: int| 0 <= i < s.len() ==> ident_char(#[trigger] s[i])
}

/// A trait path of identifier characters and colons.
pub open spec fn plain_path(s: Seq<char>) -> bool {
    forall|i: int| 0 <= i < s.len() ==> ident_char(#[trigger] s[i]) || s[i] == ':'
}

/// Text of `use` tree characters only.
pub open spec fn plain_use_tree(s: Seq<char>) -> bool {
    forall|i: int| 0 <= i < s.len() ==> use_char(#[trigger] s[i])
}

/// The text of a `use` item is the path `first::rest`, written as `syn`
/// prints it or compactly, public or not.
pub open spec fn use_text_matches(t: Seq<char>, first: Seq<char>, rest: Seq<char>) -> bool {
    t == "use "@ + first + " :: "@ + rest + " ;"@ || t == "use "@ + first + "::"@ + rest + ";"@ || t
        == "pub use "@ + first + " :: "@ + rest + " ;"@ || t == "pub use "@ + first + "::"@ + rest + ";"@
}

/// A `use` item whose copy in generated code is plain: a path whose first
/// segment is an identifier and whose tree holds `use` tree characters
/// only; copied as written, its text must be that path.
pub open spec fn plain_use(u: UseItemModel) -> bool {
    match u.tree {
        UseTreeModel::Path { first, rest } => plain_use_tree(rest@) && (first@ == "crate"@ || (plain_ident(
            first@,
        ) && use_text_matches(u.text@, first@, rest@))),
        UseTreeModel::Other => true,
    }
}

/// A parameter whose attributes, pattern and type are plain.
pub open spec fn plain_input(input: FnInput) -> bool {
    plain_piece(input.attrs@) && plain_piece(input.pattern@) && plain_piece(input.ty@)
}

/// A trait function whose name, parameters and return type are plain.
pub open spec fn plain_sig(sig: TraitFnSig) -> bool {
    plain_ident(sig.ident@) && (forall|k: int| 0 <= k < sig.inputs@.len() ==> plain_input(#[trigger] sig.inputs@[k]))
        && match sig.output {
        Some(o) => plain_piece(o@),
        None => true,
    }
}

/// A trait item that is plain where it is a function.
pub open spec fn plain_trait_item(item: TraitItemModel) -> bool {
    match item {
        TraitItemModel::Fn(sig) => plain_sig(sig),
        TraitItemModel::Other => true,
    }
}

/// Everything the generators copy from a file is plain: the trait path,
/// the `use` items, and the items of the trait at `t`.
pub open spec fn plain_file(trait_path: Seq<char>, items: Seq<FileItem>, t: int) -> bool {
    plain_path(trait_path) && (forall|i: int|
        0 <= i < items.len() && #[trigger] items[i] is Use ==> plain_use(items[i]->Use_0)) && (0 <= t
        < items.len() && items[t] is Trait) && (forall|k: int|
        0 <= k < items[t]->Trait_0.items@.len() ==> plain_trait_item(
            #[trigger] items[t]->Trait_0.items@[k],
        ))
}

fn is_ident_char(c: char) -> (r: bool)
    ensures
        r == ident_char(c),
{
    ('a' <= c && c <= 'z') || ('A' <= c && c <= 'Z') || ('0' <= c && c <= '9') || c == '_'
}

fn is_piece_char(c: char) -> (r: bool)
    ensures
        r == piece_char(c),
{
    is_ident_char(c) || c == ' ' || c == ':' || c == '<' || c == '>' || c == ',' || c == '&' || c == '*'
        || c == '(' || c == ')' || c == '[' || c == ']' || c == '{' || c == '}' || c == ';' || c == '\''
        || c == '"' || c == '#' || c == '!' || c == '-' || c == '=' || c == '+' || c == '?' || c == '.'
        || c == '|'
}

fn is_use_char(c: char) -> (r: bool)
    ensures
        r == use_char(c),
{
    is_ident_char(c) || c == ' ' || c == ':' || c == '{' || c == '}' || c == ',' || c == '*'
}

fn is_word_at(s: &str, i: usize, w: &str) -> (r: bool)
    ensures
        r == word_at(s@, i as int, w@),
{
    let len = s.unicode_len();
    let wl = w.unicode_len();
    if wl > len || i > len - wl {
        return false;
    }
    if !same_text(s.substring_char(i, i + wl), w) {
        return false;
    }
    if i > 0 && is_ident_char(s.get_char(i - 1)) {
        return false;
    }
    i + wl == len || !is_ident_char(s.get_char(i + wl))
}

fn skip_spaces_from(s: &str, i: usize) -> (r: usize)
    ensures
        r as int == skip_spaces(s@, i as int),
{
    let len = s.unicode_len();
    let mut j = i;
    while j < len && s.get_char(j) == ' '
        invariant
            len == s@.len(),
            i <= j,
            skip_spaces(s@, j as int) == skip_spaces(s@, i as int),
        decreases len - j,
    {
        j = j + 1;
    }
    j
}

fn is_next(s: &str, i: usize, c: char) -> (r: bool)
    ensures
        r == next_is(s@, i as int, c),
{
    let j = skip_spaces_from(s, i);
    j < s.unicode_len() && s.get_char(j) == c
}

fn is_item_word_at(s: &str, i: usize) -> (r: bool)
    ensures
        r == item_word_at(s@, i as int),
{
    is_word_at(s, i, "fn") || is_word_at(s, i, "static") || is_word_at(s, i, "type") || is_word_at(s, i, "impl")
        || is_word_at(s, i, "trait") || is_word_at(s, i, "struct") || is_word_at(s, i, "enum") || is_word_at(
        s,
        i,
        "union",
    ) || is_word_at(s, i, "mod") || is_word_at(s, i, "extern") || is_word_at(s, i, "use") || is_word_at(
        s,
        i,
        "macro",
    ) || is_word_at(s, i, "macro_rules")
}

fn is_refused_word_at(s: &str, i: usize, braces: usize) -> (r: bool)
    requires
        i < s@.len(),
    ensures
        r == refused_word_at(s@, i as int, braces as int),
{
    proof {
        reveal_strlit("dyn");
        reveal_strlit("mut");
    }
    let len = s.unicode_len();
    let star = (1 <= i && s.get_char(i - 1) == '*') || (2 <= i && s.get_char(i - 1) == ' ' && s.get_char(i - 2)
        == '*');
    is_word_at(s, i, "box") || is_word_at(s, i, "become") || (is_word_at(s, i, "dyn") && i + 3 <= len && is_next(
        s,
        i + 3,
        '*',
    ))
        || (is_word_at(s, i, "const") && !star) || (is_word_at(s, i, "mut") && i + 3 <= len && is_word_at(
        s,
        skip_spaces_from(s, i + 3),
        "self",
    )) || (braces > 0 && is_item_word_at(s, i))
}

/// Whether a type or pattern is copied into generated code as it stands.
pub fn is_plain_piece(s: &str) -> (r: bool)
    ensures
        r == plain_piece(s@),
{
    let len = s.unicode_len();
    let mut i: usize = 0;
    let mut parens: usize = 0;
    let mut brackets: usize = 0;
    let mut braces: usize = 0;
    let mut in_string = false;
    while i < len
        invariant
            len == s@.len(),
            i <= len,
            parens <= i,
            brackets <= i,
            braces <= i,
            plain_from(s@, i as int, parens as int, brackets as int, braces as int, in_string) == plain_piece(s@),
        decreases len - i,
    {
        let c = s.get_char(i);
        if in_string {
            if c == '"' {
                in_string = false;
            } else if !is_ident_char(c) && c != ' ' && c != '-' && c != '.' {
                return false;
            }
            i = i + 1;
            continue;
        }
        if !is_piece_char(c) || is_refused_word_at(s, i, braces) {
            return false;
        }
        if c == '"' {
            in_string = true;
            i = i + 1;
        } else if c == '\'' {
            if len - i > 2 && s.get_char(i + 2) == '\'' && s.get_char(i + 1) != '\\' {
                i = i + 3;
            } else if i + 1 < len && is_ident_char(s.get_char(i + 1)) {
                i = i + 1;
            } else {
                return false;
            }
        } else {
            if c == '(' {
                parens = parens + 1;
            } else if c == ')' {
                if parens == 0 {
                    return false;
                }
                parens = parens - 1;
            } else if c == '[' {
                brackets = brackets + 1;
            } else if c == ']' {
                if brackets == 0 {
                    return false;
                }
                brackets = brackets - 1;
            } else if c == '{' {
                if parens == 0 && brackets == 0 && braces == 0 {
                    return false;
                }
                braces = braces + 1;
            } else if c == '}' {
                if braces == 0 {
                    return false;
                }
                braces = braces - 1;
            } else if c == ';' {
                if brackets == 0 && braces == 0 {
                    return false;
                }
            } else if c == '!' {
                if is_next(s, i + 1, '(') || is_next(s, i + 1, '[') || is_next(s, i + 1, '{') {
                    return false;
                }
            } else if c == '#' {
                if !is_next(s, i + 1, '[') {
                    return false;
                }
            }
            i = i + 1;
        }
    }
    parens == 0 && brackets == 0 && braces == 0 && !in_string
}

fn is_plain_ident(s: &str) -> (r: bool)
    ensures
        r == plain_ident(s@),
{
    let len = s.unicode_len();
    let mut i: usize = 0;
    while i < len
        invariant
            len == s@.len(),
            i <= len,
            forall|k: int| 0 <= k < i ==> ident_char(#[trigger] s@[k]),
        decreases len - i,
    {
        if !is_ident_char(s.get_char(i)) {
            return false;
        }
        i = i + 1;
    }
    len > 0
}

fn is_plain_path(s: &str) -> (r: bool)
    ensures
        r == plain_path(s@),
{
    let len = s.unicode_len();
    let mut i: usize = 0;
    while i < len
        invariant
            len == s@.len(),
            i <= len,
            forall|k: int| 0 <= k < i ==> ident_char(#[trigger] s@[k]) || s@[k] == ':',
        decreases len - i,
    {
        let c = s.get_char(i);
        if !is_ident_char(c) && c != ':' {
            return false;
        }
        i = i + 1;
    }
    true
}

fn is_plain_use_tree(s: &str) -> (r: bool)
    ensures
        r == plain_use_tree(s@),
{
    let len = s.unicode_len();
    let mut i: usize = 0;
    while i < len
        invariant
            len == s@.len(),
            i <= len,
            forall|k: int| 0 <= k < i ==> use_char(#[trigger] s@[k]),
        decreases len - i,
    {
        if !is_use_char(s.get_char(i)) {
            return false;
        }
        i = i + 1;
    }
    true
}

fn is_use_text_of(t: &str, first: &str, rest: &str) -> (r: bool)
    ensures
        r == use_text_matches(t@, first@, rest@),
{
    let mut a = String::from_str("use ");
    a.append(first);
    a.append(" :: ");
    a.append(rest);
    a.append(" ;");
    let mut b = String::from_str("use ");
    b.append(first);
    b.append("::");
    b.append(rest);
    b.append(";");
    let mut c = String::from_str("pub use ");
    c.append(first);
    c.append(" :: ");
    c.append(rest);
    c.append(" ;");
    let mut d = String::from_str("pub use ");
    d.append(first);
    d.append("::");
    d.append(rest);
    d.append(";");
    same_text(t, a.as_str()) || same_text(t, b.as_str()) || same_text(t, c.as_str()) || same_text(t, d.as_str())
}

fn is_plain_use(u: &UseItemModel) -> (r: bool)
    ensures
        r == plain_use(*u),
{
    match &u.tree {
        UseTreeModel::Path { first, rest } => is_plain_use_tree(rest.as_str()) && (same_text(
            first.as_str(),
            "crate",
        ) || (is_plain_ident(first.as_str()) && is_use_text_of(
            u.text.as_str(),
            first.as_str(),
            rest.as_str(),
        ))),
        UseTreeModel::Other => true,
    }
}

fn is_plain_sig(sig: &TraitFnSig) -> (r: bool)
    ensures
        r == plain_sig(*sig),
{
    if !is_plain_ident(sig.ident.as_str()) {
        return false;
    }
    let mut k: usize = 0;
    while k < sig.inputs.len()
        invariant
            k <= sig.inputs@.len(),
            forall|j: int| 0 <= j < k ==> plain_input(#[trigger] sig.inputs@[j]),
        decreases sig.inputs@.len() - k,
    {
        if !is_plain_piece(sig.inputs[k].attrs.as_str()) || !is_plain_piece(sig.inputs[k].pattern.as_str())
            || !is_plain_piece(sig.inputs[k].ty.as_str()) {
            return false;
        }
        k = k + 1;
    }
    match &sig.output {
        Some(o) => is_plain_piece(o.as_str()),
        None => true,
    }
}

/// Whether everything the generators copy from a file is plain: its trait
/// path, its `use` items and the items of its trait at `t`.
pub fn is_plain_file(trait_path: &str, items: &Vec<FileItem>, t: usize) -> (r: bool)
    ensures
        r == plain_file(trait_path@, items@, t as int),
{
    if !is_plain_path(trait_path) || t >= items.len() {
        return false;
    }
    let mut i: usize = 0;
    while i < items.len()
        invariant
            i <= items@.len(),
            forall|j: int| 0 <= j < i && #[trigger] items@[j] is Use ==> plain_use(items@[j]->Use_0),
        decreases items@.len() - i,
    {
        match &items[i] {
            FileItem::Use(u) => {
                if !is_plain_use(u) {
                    return false;
                }
            },
            _ => {},
        }
        i = i + 1;
    }
    let trait_items = match &items[t] {
        FileItem::Trait(tr) => &tr.items,
        _ => return false,
    };
    let mut k: usize = 0;
    while k < trait_items.len()
        invariant
            trait_items@ == items@[t as int]->Trait_0.items@,
            k <= trait_items@.len(),
            forall|j: int| 0 <= j < k ==> plain_trait_item(#[trigger] trait_items@[j]),
        decreases trait_items@.len() - k,
    {
        match &trait_items[k] {
            TraitItemModel::Fn(sig) => {
                if !is_plain_sig(sig) {
                    return false;
                }
            },
            TraitItemModel::Other => {},
        }
        k = k + 1;
    }
    true
}

} // verus!
