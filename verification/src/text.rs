//! Character-level scanning primitives shared by the symbol indexer and the
//! finding detector: substring matching, word-boundary matching and the
//! declaration scanner that extracts symbol names.

use vstd::prelude::*;

verus! {

// ---------------------------------------------------------------------------
// Character classes
// ---------------------------------------------------------------------------

/// A character that may continue an identifier.
pub open spec fn is_word_char(c: char) -> bool {
    ('a' as u32 <= c as u32 && c as u32 <= 'z' as u32) || ('A' as u32 <= c as u32 && c as u32
        <= 'Z' as u32) || ('0' as u32 <= c as u32 && c as u32 <= '9' as u32) || c == '_'
}

/// A character that may start an identifier.
pub open spec fn is_ident_start_char(c: char) -> bool {
    ('a' as u32 <= c as u32 && c as u32 <= 'z' as u32) || ('A' as u32 <= c as u32 && c as u32
        <= 'Z' as u32) || c == '_'
}

/// The whitespace characters recognised between a declaration keyword and the
/// declared name.
pub open spec fn is_space_char(c: char) -> bool {
    c == ' ' || c == '\t' || c == '\n' || c == '\r'
}

fn word_char(c: char) -> (r: bool)
    ensures
        r == is_word_char(c),
{
    let u = c as u32;
    ('a' as u32 <= u && u <= 'z' as u32) || ('A' as u32 <= u && u <= 'Z' as u32) || ('0' as u32 <= u
        && u <= '9' as u32) || c == '_'
}

fn ident_start_char(c: char) -> (r: bool)
    ensures
        r == is_ident_start_char(c),
{
    let u = c as u32;
    ('a' as u32 <= u && u <= 'z' as u32) || ('A' as u32 <= u && u <= 'Z' as u32) || c == '_'
}

fn space_char(c: char) -> (r: bool)
    ensures
        r == is_space_char(c),
{
    c == ' ' || c == '\t' || c == '\n' || c == '\r'
}

// ---------------------------------------------------------------------------
// Substring matching
// ---------------------------------------------------------------------------

/// `pat` occurs in `text` starting exactly at position `i`.
pub open spec fn match_at(text: Seq<char>, pat: Seq<char>, i: int) -> bool {
    0 <= i && i + pat.len() <= text.len() && text.subrange(i, i + pat.len()) == pat
}

/// `pat` occurs somewhere in `text`.
pub open spec fn contains_seq(text: Seq<char>, pat: Seq<char>) -> bool {
    exists|i: int| match_at(text, pat, i)
}

/// Whether `pat` occurs in `text` starting exactly at character `i`.
pub fn match_pattern_at(text: &str, i: usize, pat: &str) -> (r: bool)
    requires
        i <= text@.len(),
    ensures
        r == match_at(text@, pat@, i as int),
{
    let n = text.unicode_len();
    let m = pat.unicode_len();
    if m > n - i {
        proof {
            assert(!match_at(text@, pat@, i as int));
        }
        return false;
    }
    let mut k: usize = 0;
    while k < m
        invariant
            i + m <= n,
            k <= m,
            n == text@.len(),
            m == pat@.len(),
            forall|j: int| 0 <= j < k ==> text@[i + j] == pat@[j],
        decreases m - k,
    {
        if text.get_char(i + k) != pat.get_char(k) {
            proof {
                assert(text@.subrange(i as int, i + pat@.len())[k as int] != pat@[k as int]);
            }
            return false;
        }
        k += 1;
    }
    proof {
        assert(text@.subrange(i as int, i + pat@.len()) =~= pat@);
    }
    true
}

/// Whether `pat` occurs anywhere in `text`.
pub fn contains_pattern(text: &str, pat: &str) -> (r: bool)
    ensures
        r == contains_seq(text@, pat@),
{
    let n = text.unicode_len();
    let m = pat.unicode_len();
    if m == 0 {
        proof {
            assert(text@.subrange(0, 0) =~= pat@);
            assert(match_at(text@, pat@, 0));
        }
        return true;
    }
    if m > n {
        proof {
            assert(forall|i: int| !match_at(text@, pat@, i));
        }
        return false;
    }
    let mut i: usize = 0;
    while i <= n - m
        invariant
            1 <= m <= n,
            n == text@.len(),
            m == pat@.len(),
            i <= n - m + 1,
            forall|j: int| 0 <= j < i ==> !match_at(text@, pat@, j),
        decreases n - i,
    {
        if match_pattern_at(text, i, pat) {
            return true;
        }
        i += 1;
    }
    proof {
        assert(forall|j: int| match_at(text@, pat@, j) ==> 0 <= j <= n - m);
    }
    false
}

/// Whether two string slices hold the same characters.
pub fn str_eq(a: &str, b: &str) -> (r: bool)
    ensures
        r == (a@ == b@),
{
    let n = a.unicode_len();
    if n != b.unicode_len() {
        return false;
    }
    let r = match_pattern_at(a, 0, b);
    proof {
        assert(a@.subrange(0, a@.len() as int) =~= a@);
    }
    r
}

// ---------------------------------------------------------------------------
// Word-boundary matching
// ---------------------------------------------------------------------------

/// `word` occurs in `text` at position `i` and is delimited on both sides:
/// the neighbouring characters, where present, are not word characters.
pub open spec fn word_occurrence_at(text: Seq<char>, word: Seq<char>, i: int) -> bool {
    &&& match_at(text, word, i)
    &&& (i == 0 || !is_word_char(text[i - 1]))
    &&& (i + word.len() == text.len() || !is_word_char(text[i + word.len()]))
}

/// `word` occurs somewhere in `text` as a whole word.
pub open spec fn contains_word(text: Seq<char>, word: Seq<char>) -> bool {
    exists|i: int| word_occurrence_at(text, word, i)
}

/// Whether `word` occurs in `text` delimited by word boundaries.
pub fn contains_word_exec(text: &str, word: &str) -> (r: bool)
    requires
        word@.len() >= 1,
    ensures
        r == contains_word(text@, word@),
{
    let n = text.unicode_len();
    let m = word.unicode_len();
    if m > n {
        proof {
            assert(forall|i: int| !match_at(text@, word@, i));
        }
        return false;
    }
    let mut i: usize = 0;
    while i <= n - m
        invariant
            1 <= m <= n,
            n == text@.len(),
            m == word@.len(),
            i <= n - m + 1,
            forall|j: int| 0 <= j < i ==> !word_occurrence_at(text@, word@, j),
        decreases n - i,
    {
        if match_pattern_at(text, i, word) {
            let left_ok = i == 0 || !word_char(text.get_char(i - 1));
            let right_ok = i + m == n || !word_char(text.get_char(i + m));
            if left_ok && right_ok {
                proof {
                    assert(word_occurrence_at(text@, word@, i as int));
                }
                return true;
            }
        }
        i += 1;
    }
    proof {
        assert(forall|j: int| match_at(text@, word@, j) ==> 0 <= j <= n - m);
    }
    false
}

// ---------------------------------------------------------------------------
// Declaration scanning
// ---------------------------------------------------------------------------

/// If a declaration keyword starts at position `i`, the position just past it.
pub open spec fn decl_kw_end(text: Seq<char>, i: int) -> Option<int> {
    if match_at(text, "class"@, i) {
        Some(i + "class"@.len())
    } else if match_at(text, "fn"@, i) {
        Some(i + "fn"@.len())
    } else if match_at(text, "function"@, i) {
        Some(i + "function"@.len())
    } else if match_at(text, "struct"@, i) {
        Some(i + "struct"@.len())
    } else if match_at(text, "enum"@, i) {
        Some(i + "enum"@.len())
    } else if match_at(text, "interface"@, i) {
        Some(i + "interface"@.len())
    } else {
        None
    }
}

/// The first position at or after `k` holding a non-space character, or the
/// end of `text`.
pub open spec fn skip_spaces(text: Seq<char>, k: int) -> int
    decreases text.len() - k when 0 <= k <= text.len()
{
    if k >= text.len() {
        text.len() as int
    } else if is_space_char(text[k]) {
        skip_spaces(text, k + 1)
    } else {
        k
    }
}

/// The end of the run of word characters starting at `j`.
pub open spec fn word_run_end(text: Seq<char>, j: int) -> int
    decreases text.len() - j when 0 <= j <= text.len()
{
    if j >= text.len() {
        text.len() as int
    } else if is_word_char(text[j]) {
        word_run_end(text, j + 1)
    } else {
        j
    }
}

pub proof fn lemma_skip_spaces_bounds(text: Seq<char>, k: int)
    requires
        0 <= k <= text.len(),
    ensures
        k <= skip_spaces(text, k) <= text.len(),
    decreases text.len() - k,
{
    if k < text.len() && is_space_char(text[k]) {
        lemma_skip_spaces_bounds(text, k + 1);
    }
}

pub proof fn lemma_word_run_end_bounds(text: Seq<char>, j: int)
    requires
        0 <= j <= text.len(),
    ensures
        j <= word_run_end(text, j) <= text.len(),
    decreases text.len() - j,
{
    if j < text.len() && is_word_char(text[j]) {
        lemma_word_run_end_bounds(text, j + 1);
    }
}

/// A declaration of a symbol starting at position `i`: a keyword, at least one
/// whitespace character, then an identifier.  Yields the identifier's start
/// and end positions.
pub open spec fn decl_name_at(text: Seq<char>, i: int) -> Option<(int, int)> {
    match decl_kw_end(text, i) {
        Some(k) => {
            if k < text.len() && is_space_char(text[k]) {
                let j = skip_spaces(text, k);
                if j < text.len() && is_ident_start_char(text[j]) {
                    Some((j, word_run_end(text, j + 1)))
                } else {
                    None
                }
            } else {
                None
            }
        },
        None => None,
    }
}

/// The names of all symbols declared in `text`, scanning left to right; a
/// recognised declaration is consumed whole, so declarations never overlap.
pub open spec fn symbols_from(text: Seq<char>, i: int) -> Seq<Seq<char>>
    decreases text.len() - i when 0 <= i <= text.len() via symbols_from_decreases
{
    if i >= text.len() {
        Seq::empty()
    } else {
        match decl_name_at(text, i) {
            Some(je) => seq![text.subrange(je.0, je.1)] + symbols_from(text, je.1),
            None => symbols_from(text, i + 1),
        }
    }
}

#[via_fn]
proof fn symbols_from_decreases(text: Seq<char>, i: int) {
    if 0 <= i < text.len() {
        match decl_kw_end(text, i) {
            Some(k) => {
                if k < text.len() && is_space_char(text[k]) {
                    lemma_skip_spaces_bounds(text, k);
                    let j = skip_spaces(text, k);
                    if j < text.len() && is_ident_start_char(text[j]) {
                        lemma_word_run_end_bounds(text, j + 1);
                    }
                }
            },
            None => {},
        }
    }
}

/// The symbol names declared anywhere in `text`.
pub open spec fn symbols_spec(text: Seq<char>) -> Seq<Seq<char>> {
    symbols_from(text, 0)
}

fn skip_spaces_exec(text: &str, k: usize, n: usize) -> (r: usize)
    requires
        k <= n,
        n == text@.len(),
    ensures
        r as int == skip_spaces(text@, k as int),
        k <= r <= n,
{
    let mut cur = k;
    while cur < n && space_char(text.get_char(cur))
        invariant
            k <= cur <= n,
            n == text@.len(),
            skip_spaces(text@, k as int) == skip_spaces(text@, cur as int),
        decreases n - cur,
    {
        cur += 1;
    }
    cur
}

fn word_run_end_exec(text: &str, j: usize, n: usize) -> (r: usize)
    requires
        j <= n,
        n == text@.len(),
    ensures
        r as int == word_run_end(text@, j as int),
        j <= r <= n,
{
    let mut cur = j;
    while cur < n && word_char(text.get_char(cur))
        invariant
            j <= cur <= n,
            n == text@.len(),
            word_run_end(text@, j as int) == word_run_end(text@, cur as int),
        decreases n - cur,
    {
        cur += 1;
    }
    cur
}

fn decl_kw_end_exec(text: &str, i: usize, n: usize) -> (r: Option<usize>)
    requires
        i <= n,
        n == text@.len(),
    ensures
        match r {
            Some(k) => decl_kw_end(text@, i as int) == Some(k as int) && i < k <= n,
            None => decl_kw_end(text@, i as int) is None,
        },
{
    proof {
        reveal_strlit("class");
        reveal_strlit("fn");
        reveal_strlit("function");
        reveal_strlit("struct");
        reveal_strlit("enum");
        reveal_strlit("interface");
    }
    if match_pattern_at(text, i, "class") {
        Some(i + 5)
    } else if match_pattern_at(text, i, "fn") {
        Some(i + 2)
    } else if match_pattern_at(text, i, "function") {
        Some(i + 8)
    } else if match_pattern_at(text, i, "struct") {
        Some(i + 6)
    } else if match_pattern_at(text, i, "enum") {
        Some(i + 4)
    } else if match_pattern_at(text, i, "interface") {
        Some(i + 9)
    } else {
        None
    }
}

fn decl_name_at_exec(text: &str, i: usize, n: usize) -> (r: Option<(usize, usize)>)
    requires
        i <= n,
        n == text@.len(),
    ensures
        match r {
            Some(je) => decl_name_at(text@, i as int) == Some((je.0 as int, je.1 as int)) && i
                < je.1 <= n && je.0 < je.1,
            None => decl_name_at(text@, i as int) is None,
        },
{
    match decl_kw_end_exec(text, i, n) {
        Some(k) => {
            if k < n && space_char(text.get_char(k)) {
                let j = skip_spaces_exec(text, k, n);
                if j < n && ident_start_char(text.get_char(j)) {
                    let e = word_run_end_exec(text, j + 1, n);
                    Some((j, e))
                } else {
                    None
                }
            } else {
                None
            }
        },
        None => None,
    }
}

/// Extract the names of all symbol declarations in `content`.
pub fn extract_symbols(content: &str) -> (names: Vec<String>)
    ensures
        names@.map_values(|s: String| s@) == symbols_spec(content@),
{
    let n = content.unicode_len();
    let mut names: Vec<String> = Vec::new();
    let mut i: usize = 0;
    while i < n
        invariant
            i <= n,
            n == content@.len(),
            symbols_from(content@, 0) == names@.map_values(|s: String| s@) + symbols_from(
                content@,
                i as int,
            ),
        decreases n - i,
    {
        match decl_name_at_exec(content, i, n) {
            Some((j, e)) => {
                let ghost old_names = names@;
                let name = content.substring_char(j, e).to_owned();
                names.push(name);
                proof {
                    assert(names@.map_values(|s: String| s@) =~= old_names.map_values(
                        |s: String| s@,
                    ).push(content@.subrange(j as int, e as int)));
                    assert(symbols_from(content@, i as int) == seq![
                        content@.subrange(j as int, e as int),
                    ] + symbols_from(content@, e as int));
                    assert(names@.map_values(|s: String| s@) + symbols_from(content@, e as int)
                        =~= old_names.map_values(|s: String| s@) + symbols_from(
                        content@,
                        i as int,
                    ));
                }
                i = e;
            },
            None => {
                i += 1;
            },
        }
    }
    proof {
        assert(symbols_from(content@, i as int) =~= Seq::<Seq<char>>::empty());
        assert(names@.map_values(|s: String| s@) + Seq::<Seq<char>>::empty() =~= names@.map_values(
            |s: String| s@,
        ));
    }
    names
}

} // verus!
