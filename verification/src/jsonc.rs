//! Comment stripping for JSONC documents: `// line` comments are replaced by
//! the newline that ends them, `/* block */` comments by one space, and
//! everything inside string literals is kept verbatim.

use vstd::prelude::*;

use crate::bounded::{
    char_utf8_len, config_text_chars, config_text_new, config_text_push, lemma_utf8_len_append,
    utf8_len,
    MAX_CONFIG_LEN,
};
use crate::config::ConfigError;
use crate::text::str_to_chars;

verus! {

/// Index of the first `'\n'` at or after `j`, if there is one.
pub open spec fn next_newline(s: Seq<char>, j: int) -> Option<int>
    decreases s.len() - j,
{
    if j < 0 || j >= s.len() {
        None
    } else if s[j] == '\n' {
        Some(j)
    } else {
        next_newline(s, j + 1)
    }
}

/// Index of the `'/'` that closes a block comment whose body starts at `j`:
/// the first `'/'` that directly follows a `'*'` of the body.
pub open spec fn block_comment_end(s: Seq<char>, j: int) -> Option<int>
    decreases s.len() - j,
{
    if j < 0 || j + 1 >= s.len() {
        None
    } else if s[j] == '*' && s[j + 1] == '/' {
        Some(j + 1)
    } else {
        block_comment_end(s, j + 1)
    }
}

/// A newline that is found lies at or after the search start.
pub proof fn lemma_next_newline_bounds(s: Seq<char>, j: int)
    ensures
        next_newline(s, j) matches Some(k) ==> j <= k < s.len() && s[k] == '\n',
    decreases s.len() - j,
{
    if 0 <= j < s.len() && s[j] != '\n' {
        lemma_next_newline_bounds(s, j + 1);
    }
}

/// The end of a block comment that is found is a `'/'` right after a
/// `'*'`, past the start of the comment body.
pub proof fn lemma_block_comment_end_bounds(s: Seq<char>, j: int)
    ensures
        block_comment_end(s, j) matches Some(k) ==> j + 1 <= k < s.len() && s[k] == '/' && s[k
            - 1] == '*',
    decreases s.len() - j,
{
    if 0 <= j && j + 1 < s.len() && !(s[j] == '*' && s[j + 1] == '/') {
        lemma_block_comment_end_bounds(s, j + 1);
    }
}

/// What the stripper emits for `s[i..]` when it starts in the given string
/// state, and whether it runs into a block comment that is never closed (in
/// which case the output is what was emitted before that comment).
pub open spec fn scan(s: Seq<char>, i: int, in_string: bool, escaped: bool) -> (Seq<char>, bool)
    decreases s.len() - i,
{
    if i < 0 || i >= s.len() {
        (Seq::empty(), false)
    } else {
        let ch = s[i];
        if in_string {
            let next_in = escaped || ch != '"';
            let next_esc = !escaped && ch == '\\';
            let r = scan(s, i + 1, next_in, next_esc);
            (seq![ch] + r.0, r.1)
        } else if ch == '"' {
            let r = scan(s, i + 1, true, false);
            (seq![ch] + r.0, r.1)
        } else if ch == '/' && i + 1 < s.len() && s[i + 1] == '/' {
            match next_newline(s, i + 2) {
                Some(k) => {
                    proof {
                        lemma_next_newline_bounds(s, i + 2);
                    }
                    let r = scan(s, k + 1, false, escaped);
                    (seq!['\n'] + r.0, r.1)
                },
                None => (Seq::empty(), false),
            }
        } else if ch == '/' && i + 1 < s.len() && s[i + 1] == '*' {
            match block_comment_end(s, i + 2) {
                Some(k) => {
                    proof {
                        lemma_block_comment_end_bounds(s, i + 2);
                    }
                    let r = scan(s, k + 1, false, escaped);
                    (seq![' '] + r.0, r.1)
                },
                None => (Seq::empty(), true),
            }
        } else {
            let r = scan(s, i + 1, false, escaped);
            (seq![ch] + r.0, r.1)
        }
    }
}

/// The result of stripping the comments of `s` into a buffer of
/// `MAX_CONFIG_LEN` bytes. Output that does not fit wins over an unclosed
/// block comment only when it overflows before that comment starts.
pub open spec fn strip_result(s: Seq<char>) -> Result<Seq<char>, ConfigError> {
    let r = scan(s, 0, false, false);
    if utf8_len(r.0) > MAX_CONFIG_LEN {
        Err(ConfigError::TooLarge)
    } else if r.1 {
        Err(ConfigError::BadBlockComment)
    } else {
        Ok(r.0)
    }
}

fn find_newline(chars: &Vec<char>, j: usize) -> (r: Option<usize>)
    requires
        j <= chars.len(),
    ensures
        match r {
            Some(k) => next_newline(chars@, j as int) == Some(k as int),
            None => next_newline(chars@, j as int) is None,
        },
{
    let mut k = j;
    while k < chars.len()
        invariant
            j <= k <= chars.len(),
            next_newline(chars@, j as int) == next_newline(chars@, k as int),
        decreases chars.len() - k,
    {
        if chars[k] == '\n' {
            return Some(k);
        }
        k = k + 1;
    }
    None
}

fn find_block_end(chars: &Vec<char>, j: usize) -> (r: Option<usize>)
    requires
        j <= chars.len(),
    ensures
        match r {
            Some(k) => block_comment_end(chars@, j as int) == Some(k as int),
            None => block_comment_end(chars@, j as int) is None,
        },
{
    let mut k = j;
    while k < chars.len() && k < chars.len() - 1
        invariant
            j <= k <= chars.len(),
            block_comment_end(chars@, j as int) == block_comment_end(chars@, k as int),
        decreases chars.len() - k,
    {
        if chars[k] == '*' && chars[k + 1] == '/' {
            return Some(k + 1);
        }
        k = k + 1;
    }
    None
}

/// Strips `//` and `/* */` comments from a JSONC document, leaving string
/// literals (and the escapes in them) untouched.
pub fn strip_jsonc_comments(input: &str) -> (r: Result<heapless::String<MAX_CONFIG_LEN>, ConfigError>)
    ensures
        match r {
            Ok(text) => strip_result(input@) == Ok::<Seq<char>, ConfigError>(config_text_chars(text)),
            Err(e) => strip_result(input@) == Err::<Seq<char>, ConfigError>(e),
        },
{
    let chars = str_to_chars(input);
    let ghost s = chars@;
    let n = chars.len();
    let mut output = config_text_new();
    let mut i: usize = 0;
    let mut in_string = false;
    let mut escaped = false;

    while i < n
        invariant
            s == chars@,
            s == input@,
            n == s.len(),
            i <= n,
            config_text_chars(output) + scan(s, i as int, in_string, escaped).0 == scan(
                s,
                0,
                false,
                false,
            ).0,
            scan(s, i as int, in_string, escaped).1 == scan(s, 0, false, false).1,
            utf8_len(config_text_chars(output)) <= MAX_CONFIG_LEN,
        decreases n - i,
    {
        let ghost before = config_text_chars(output);
        let ghost rest = scan(s, i as int, in_string, escaped);
        let ch = chars[i];
        // The character (or comment replacement) emitted at this step and the
        // position and state the scan resumes from.
        let emit: char;
        let next_i: usize;
        let next_in: bool;
        let next_esc: bool;
        if in_string {
            emit = ch;
            next_i = i + 1;
            next_in = escaped || ch != '"';
            next_esc = !escaped && ch == '\\';
        } else if ch == '"' {
            emit = ch;
            next_i = i + 1;
            next_in = true;
            next_esc = false;
        } else if ch == '/' && i + 1 < n && chars[i + 1] == '/' {
            match find_newline(&chars, i + 2) {
                Some(k) => {
                    proof {
                        lemma_next_newline_bounds(s, i + 2);
                    }
                    emit = '\n';
                    next_i = k + 1;
                    next_in = false;
                    next_esc = escaped;
                },
                None => {
                    assert(rest.0 =~= Seq::<char>::empty());
                    assert(before + rest.0 =~= before);
                    return Ok(output);
                },
            }
        } else if ch == '/' && i + 1 < n && chars[i + 1] == '*' {
            match find_block_end(&chars, i + 2) {
                Some(k) => {
                    proof {
                        lemma_block_comment_end_bounds(s, i + 2);
                    }
                    emit = ' ';
                    next_i = k + 1;
                    next_in = false;
                    next_esc = escaped;
                },
                None => {
                    assert(before + rest.0 =~= before);
                    return Err(ConfigError::BadBlockComment);
                },
            }
        } else {
            emit = ch;
            next_i = i + 1;
            next_in = false;
            next_esc = escaped;
        }
        let ghost after = scan(s, next_i as int, next_in, next_esc);
        assert(rest.0 == seq![emit] + after.0 && rest.1 == after.1);
        assert(before + rest.0 =~= before.push(emit) + after.0);
        if config_text_push(&mut output, emit).is_err() {
            proof {
                lemma_utf8_len_append(before.push(emit), after.0);
            }
            return Err(ConfigError::TooLarge);
        }
        i = next_i;
        in_string = next_in;
        escaped = next_esc;
    }
    assert(scan(s, i as int, in_string, escaped).0 =~= Seq::<char>::empty());
    assert(config_text_chars(output) + Seq::<char>::empty() =~= config_text_chars(output));
    Ok(output)
}

} // verus!

verus! {

/// Text without any `/` has no comments: scanning it from any position and
/// in any string state emits it unchanged.
proof fn lemma_scan_without_slash(s: Seq<char>, i: int, in_string: bool, escaped: bool)
    requires
        0 <= i <= s.len(),
        forall|j: int| 0 <= j < s.len() ==> s[j] != '/',
    ensures
        scan(s, i, in_string, escaped) == (s.subrange(i, s.len() as int), false),
    decreases s.len() - i,
{
    if i < s.len() {
        let ch = s[i];
        if in_string {
            lemma_scan_without_slash(s, i + 1, escaped || ch != '"', !escaped && ch == '\\');
        } else if ch == '"' {
            lemma_scan_without_slash(s, i + 1, true, false);
        } else {
            lemma_scan_without_slash(s, i + 1, false, escaped);
        }
        assert(s.subrange(i, s.len() as int) =~= seq![ch] + s.subrange(i + 1, s.len() as int));
    } else {
        assert(s.subrange(i, s.len() as int) =~= Seq::<char>::empty());
    }
}

/// A document without comment markers comes back unchanged when it fits
/// the buffer, and is too large otherwise.
pub proof fn lemma_strip_without_comments(s: Seq<char>)
    requires
        forall|j: int| 0 <= j < s.len() ==> s[j] != '/',
    ensures
        utf8_len(s) <= MAX_CONFIG_LEN ==> strip_result(s) == Ok::<Seq<char>, ConfigError>(s),
        utf8_len(s) > MAX_CONFIG_LEN ==> strip_result(s) == Err::<Seq<char>, ConfigError>(
            ConfigError::TooLarge,
        ),
{
    lemma_scan_without_slash(s, 0, false, false);
    assert(s.subrange(0, s.len() as int) =~= s);
}

} // verus!

verus! {

/// Searching for a newline in `p + y` from inside `y` finds the same newline,
/// shifted by the prefix.
proof fn lemma_next_newline_shift(p: Seq<char>, y: Seq<char>, j: int)
    requires
        0 <= j,
    ensures
        next_newline(p + y, p.len() + j) == match next_newline(y, j) {
            Some(k) => Some(p.len() + k),
            None => None::<int>,
        },
    decreases y.len() - j,
{
    if j < y.len() && y[j] != '\n' {
        lemma_next_newline_shift(p, y, j + 1);
    }
}

/// Searching for the end of a block comment in `p + y` from inside `y` finds
/// the same end, shifted by the prefix.
proof fn lemma_block_comment_end_shift(p: Seq<char>, y: Seq<char>, j: int)
    requires
        0 <= j,
    ensures
        block_comment_end(p + y, p.len() + j) == match block_comment_end(y, j) {
            Some(k) => Some(p.len() + k),
            None => None::<int>,
        },
    decreases y.len() - j,
{
    if j + 1 < y.len() && !(y[j] == '*' && y[j + 1] == '/') {
        lemma_block_comment_end_shift(p, y, j + 1);
    }
}

/// The scan only looks forward: scanning `p + y` from a position inside `y`
/// is scanning `y` from that position.
proof fn lemma_scan_shift(p: Seq<char>, y: Seq<char>, j: int, in_string: bool, escaped: bool)
    requires
        0 <= j,
    ensures
        scan(p + y, p.len() + j, in_string, escaped) == scan(y, j, in_string, escaped),
    decreases y.len() - j,
{
    let s = p + y;
    let i = p.len() + j;
    if j < y.len() {
        assert(s[i] == y[j]);
        if j + 1 < y.len() {
            assert(s[i + 1] == y[j + 1]);
        }
        let ch = y[j];
        if in_string {
            lemma_scan_shift(p, y, j + 1, escaped || ch != '"', !escaped && ch == '\\');
        } else if ch == '"' {
            lemma_scan_shift(p, y, j + 1, true, false);
        } else if ch == '/' && j + 1 < y.len() && y[j + 1] == '/' {
            lemma_next_newline_shift(p, y, j + 2);
            lemma_next_newline_bounds(y, j + 2);
            if let Some(k) = next_newline(y, j + 2) {
                lemma_scan_shift(p, y, k + 1, false, escaped);
            }
        } else if ch == '/' && j + 1 < y.len() && y[j + 1] == '*' {
            lemma_block_comment_end_shift(p, y, j + 2);
            lemma_block_comment_end_bounds(y, j + 2);
            if let Some(k) = block_comment_end(y, j + 2) {
                lemma_scan_shift(p, y, k + 1, false, escaped);
            }
        } else {
            lemma_scan_shift(p, y, j + 1, false, escaped);
        }
    }
}

/// Output that starts with `c` continues, from its second character, as
/// scanning what follows `c`.
proof fn lemma_scan_after_first(c: char, y: Seq<char>, in_string: bool, escaped: bool)
    ensures
        scan(seq![c] + y, 1, in_string, escaped) == scan(y, 0, in_string, escaped),
{
    lemma_scan_shift(seq![c], y, 0, in_string, escaped);
}

/// One character takes its own UTF-8 length.
proof fn lemma_utf8_len_single(c: char)
    ensures
        utf8_len(seq![c]) == char_utf8_len(c),
{
    assert(seq![c].drop_last() =~= Seq::<char>::empty());
    assert(seq![c].last() == c);
    assert(utf8_len(Seq::<char>::empty()) == 0);
}

/// Every character takes at least one byte.
proof fn lemma_utf8_len_at_least_len(s: Seq<char>)
    ensures
        s.len() <= utf8_len(s),
    decreases s.len(),
{
    if s.len() > 0 {
        lemma_utf8_len_at_least_len(s.drop_last());
    }
}

/// The UTF-8 length of `s[i..]` is that of `s[i..k]` plus that of `s[k..]`.
proof fn lemma_utf8_len_split(s: Seq<char>, i: int, k: int)
    requires
        0 <= i <= k <= s.len(),
    ensures
        utf8_len(s.subrange(i, s.len() as int)) == utf8_len(s.subrange(i, k)) + utf8_len(
            s.subrange(k, s.len() as int),
        ),
{
    assert(s.subrange(i, s.len() as int) =~= s.subrange(i, k) + s.subrange(k, s.len() as int));
    lemma_utf8_len_append(s.subrange(i, k), s.subrange(k, s.len() as int));
}

/// What a successful scan emits from position `i` scans to itself (no
/// comment is left outside string literals, and a removed comment never
/// joins its neighbours into a new one), and takes no more UTF-8 bytes than
/// the text it came from.
proof fn lemma_scan_output_clean(s: Seq<char>, i: int, in_string: bool, escaped: bool)
    requires
        0 <= i,
        !in_string ==> !escaped,
        !scan(s, i, in_string, escaped).1,
    ensures
        scan(scan(s, i, in_string, escaped).0, 0, in_string, escaped) == (
            scan(s, i, in_string, escaped).0,
            false,
        ),
        i <= s.len() ==> utf8_len(scan(s, i, in_string, escaped).0) <= utf8_len(
            s.subrange(i, s.len() as int),
        ),
    decreases s.len() - i,
{
    let t = scan(s, i, in_string, escaped).0;
    if i >= s.len() {
        assert(t =~= Seq::<char>::empty());
        return;
    }
    let ch = s[i];
    lemma_utf8_len_split(s, i, i + 1);
    assert(s.subrange(i, i + 1) =~= seq![ch]);
    assert(seq![ch] =~= Seq::<char>::empty().push(ch));
    lemma_utf8_len_single(ch);
    if in_string {
        let ni = escaped || ch != '"';
        let ne = !escaped && ch == '\\';
        let r = scan(s, i + 1, ni, ne);
        lemma_scan_output_clean(s, i + 1, ni, ne);
        assert(t == seq![ch] + r.0);
        lemma_scan_after_first(ch, r.0, ni, ne);
        assert((seq![ch] + r.0)[0] == ch);
        lemma_utf8_len_append(seq![ch], r.0);
    } else if ch == '"' {
        let r = scan(s, i + 1, true, false);
        lemma_scan_output_clean(s, i + 1, true, false);
        lemma_scan_after_first(ch, r.0, true, false);
        assert((seq![ch] + r.0)[0] == ch);
        lemma_utf8_len_append(seq![ch], r.0);
    } else if ch == '/' && i + 1 < s.len() && s[i + 1] == '/' {
        lemma_next_newline_bounds(s, i + 2);
        match next_newline(s, i + 2) {
            Some(k) => {
                let r = scan(s, k + 1, false, escaped);
                lemma_scan_output_clean(s, k + 1, false, escaped);
                lemma_scan_after_first('\n', r.0, false, false);
                assert((seq!['\n'] + r.0)[0] == '\n');
                lemma_utf8_len_append(seq!['\n'], r.0);
                lemma_utf8_len_single('\n');
                lemma_utf8_len_split(s, i, k + 1);
                lemma_utf8_len_at_least_len(s.subrange(i, k + 1));
            },
            None => {
                assert(t =~= Seq::<char>::empty());
            },
        }
    } else if ch == '/' && i + 1 < s.len() && s[i + 1] == '*' {
        lemma_block_comment_end_bounds(s, i + 2);
        let k = block_comment_end(s, i + 2)->0;
        let r = scan(s, k + 1, false, escaped);
        lemma_scan_output_clean(s, k + 1, false, escaped);
        lemma_scan_after_first(' ', r.0, false, false);
        assert((seq![' '] + r.0)[0] == ' ');
        lemma_utf8_len_append(seq![' '], r.0);
        lemma_utf8_len_single(' ');
        lemma_utf8_len_split(s, i, k + 1);
        lemma_utf8_len_at_least_len(s.subrange(i, k + 1));
    } else {
        let r = scan(s, i + 1, false, escaped);
        lemma_scan_output_clean(s, i + 1, false, escaped);
        lemma_scan_after_first(ch, r.0, false, false);
        let tt = seq![ch] + r.0;
        assert(tt[0] == ch);
        // A `/` kept outside strings is never followed by `/` or `*` in the
        // output: what follows it is the next character of the text.
        if ch == '/' && i + 1 < s.len() {
            let c2 = s[i + 1];
            assert(c2 != '/' && c2 != '*');
            assert(r.0[0] == c2);
            assert(tt[1] == c2);
        }
        if i + 1 >= s.len() {
            assert(r.0 =~= Seq::<char>::empty());
        }
        lemma_utf8_len_append(seq![ch], r.0);
    }
}

/// Stripping is idempotent and never grows the text: a stripped document
/// strips to itself, and its UTF-8 encoding is no longer than the input's.
pub proof fn lemma_strip_idempotent(s: Seq<char>, t: Seq<char>)
    requires
        strip_result(s) == Ok::<Seq<char>, ConfigError>(t),
    ensures
        strip_result(t) == Ok::<Seq<char>, ConfigError>(t),
        utf8_len(t) <= utf8_len(s),
{
    lemma_scan_output_clean(s, 0, false, false);
    assert(s.subrange(0, s.len() as int) =~= s);
}

} // verus!

verus! {

/// Whether `b` is the text between the quotes of a JSON string literal:
/// it has no bare `"`, and every `\` escapes the one character after it (so
/// an escaped backslash escapes nothing further).
pub open spec fn string_body(b: Seq<char>) -> bool
    decreases b.len(),
{
    if b.len() == 0 {
        true
    } else if b[0] == '\\' {
        b.len() >= 2 && string_body(b.skip(2))
    } else {
        b[0] != '"' && string_body(b.skip(1))
    }
}

/// The string literal with body `b`, quotes included.
pub open spec fn string_literal(b: Seq<char>) -> Seq<char> {
    seq!['"'] + b + seq!['"']
}

/// Scanning from just inside a string with body `b`: the body and its
/// closing quote are emitted as they are, and the scan goes on outside the
/// string right after that quote.
proof fn lemma_scan_string_body(b: Seq<char>, d: Seq<char>)
    requires
        string_body(b),
    ensures
        scan(b + seq!['"'] + d, 0, true, false) == (
            b + seq!['"'] + scan(d, 0, false, false).0,
            scan(d, 0, false, false).1,
        ),
    decreases b.len(),
{
    let y = b + seq!['"'] + d;
    let out = scan(d, 0, false, false);
    if b.len() == 0 {
        assert(y =~= seq!['"'] + d);
        assert(y[0] == '"');
        lemma_scan_shift(seq!['"'], d, 0, false, false);
        assert(scan(y, 0, true, false) == (seq!['"'] + scan(y, 1, false, false).0, scan(
            y,
            1,
            false,
            false,
        ).1));
        assert(b + seq!['"'] + out.0 =~= seq!['"'] + out.0);
    } else if b[0] == '\\' {
        let e = b[1];
        let rest = b.skip(2);
        let t = rest + seq!['"'] + d;
        assert(y =~= seq!['\\', e] + t);
        assert(y[0] == '\\' && y[1] == e);
        lemma_scan_string_body(rest, d);
        lemma_scan_shift(seq!['\\', e], t, 0, true, false);
        assert(scan(y, 1, true, true) == (seq![e] + scan(y, 2, true, false).0, scan(
            y,
            2,
            true,
            false,
        ).1));
        assert(scan(y, 0, true, false) == (seq!['\\'] + scan(y, 1, true, true).0, scan(
            y,
            1,
            true,
            true,
        ).1));
        assert(b =~= seq!['\\', e] + rest);
        assert(b + seq!['"'] + out.0 =~= seq!['\\'] + (seq![e] + (rest + seq!['"'] + out.0)));
    } else {
        let c = b[0];
        let rest = b.skip(1);
        let t = rest + seq!['"'] + d;
        assert(y =~= seq![c] + t);
        assert(y[0] == c);
        lemma_scan_string_body(rest, d);
        lemma_scan_shift(seq![c], t, 0, true, false);
        assert(scan(y, 0, true, false) == (seq![c] + scan(y, 1, true, false).0, scan(
            y,
            1,
            true,
            false,
        ).1));
        assert(b =~= seq![c] + rest);
        assert(b + seq!['"'] + out.0 =~= seq![c] + (rest + seq!['"'] + out.0));
    }
}

/// String literals are kept verbatim and end where JSON ends them: a
/// document that starts with the literal of body `b` strips to that literal
/// followed by the stripping of the rest, comment markers inside the
/// literal included.
pub proof fn lemma_string_literal_kept(b: Seq<char>, d: Seq<char>)
    requires
        string_body(b),
    ensures
        scan(string_literal(b) + d, 0, false, false) == (
            string_literal(b) + scan(d, 0, false, false).0,
            scan(d, 0, false, false).1,
        ),
{
    let s = string_literal(b) + d;
    let y = b + seq!['"'] + d;
    assert(s =~= seq!['"'] + y);
    assert(s[0] == '"');
    lemma_scan_shift(seq!['"'], y, 0, true, false);
    lemma_scan_string_body(b, d);
    assert(scan(s, 0, false, false) == (seq!['"'] + scan(s, 1, true, false).0, scan(
        s,
        1,
        true,
        false,
    ).1));
    assert(string_literal(b) + scan(d, 0, false, false).0 =~= seq!['"'] + (b + seq!['"']
        + scan(d, 0, false, false).0));
}

/// The first newline at or after `j` is at `k` when `s[j..k]` has none.
proof fn lemma_next_newline_at(s: Seq<char>, j: int, k: int)
    requires
        0 <= j <= k < s.len(),
        s[k] == '\n',
        forall|m: int| j <= m < k ==> s[m] != '\n',
    ensures
        next_newline(s, j) == Some(k),
    decreases k - j,
{
    if j < k {
        lemma_next_newline_at(s, j + 1, k);
    }
}

/// A line comment right after a string literal is removed like any other,
/// whatever the literal ends with (an escaped backslash included): the
/// document strips as if the comment were not there, up to its newline.
pub proof fn lemma_comment_after_string_removed(b: Seq<char>, c: Seq<char>, d: Seq<char>)
    requires
        string_body(b),
        forall|m: int| 0 <= m < c.len() ==> c[m] != '\n',
    ensures
        strip_result(string_literal(b) + (seq!['/', '/'] + c + seq!['\n'] + d)) == strip_result(
            string_literal(b) + (seq!['\n'] + d),
        ),
{
    let p1 = seq!['/', '/'] + c + seq!['\n'];
    let t1 = p1 + d;
    let t2 = seq!['\n'] + d;
    let n: int = c.len() as int;
    lemma_string_literal_kept(b, t1);
    lemma_string_literal_kept(b, t2);
    assert(t1[0] == '/' && t1[1] == '/');
    assert forall|m: int| 2 <= m < 2 + n implies t1[m] != '\n' by {
        assert(t1[m] == c[m - 2]);
    }
    assert(t1[2 + n] == '\n');
    lemma_next_newline_at(t1, 2, 2 + n);
    lemma_next_newline_bounds(t1, 2);
    lemma_scan_shift(p1, d, 0, false, false);
    assert(p1.len() == 3 + n);
    assert(scan(t1, 0, false, false) == (seq!['\n'] + scan(t1, 3 + n, false, false).0, scan(
        t1,
        3 + n,
        false,
        false,
    ).1));
    assert(t2[0] == '\n');
    lemma_scan_shift(seq!['\n'], d, 0, false, false);
    assert(scan(t2, 0, false, false) == (seq!['\n'] + scan(t2, 1, false, false).0, scan(
        t2,
        1,
        false,
        false,
    ).1));
    assert(scan(t1, 0, false, false) == scan(t2, 0, false, false));
}

} // verus!
