//! Text utilities for identifier generation.
//!
//! Node ids and workflow names become identifiers in generated source code;
//! the functions here sanitize and re-case them.  Character classification
//! and case mapping follow Unicode and are delegated to the standard
//! library behind named results.

use vstd::prelude::*;

verus! {

/// What `char::is_alphanumeric` returns for a character.
pub uninterp spec fn is_alphanumeric_of(c: char) -> bool;

/// What `char::is_uppercase` returns for a character.
pub uninterp spec fn is_uppercase_of(c: char) -> bool;

/// The first character of `char::to_uppercase` (the character itself where
/// the mapping is empty, which never happens).
pub uninterp spec fn uppercase_first_of(c: char) -> char;

/// The first character of `char::to_lowercase` (the character itself where
/// the mapping is empty, which never happens).
pub uninterp spec fn lowercase_first_of(c: char) -> char;

/// Relies on String::push: appends exactly the given character.
#[verifier::external_body]
pub fn push_char(s: &mut String, c: char)
    ensures
        final(s)@ == old(s)@ + seq![c],
{
    s.push(c);
}

/// Relies on char::is_alphanumeric: a pure classification of the character.
#[verifier::external_body]
pub fn char_is_alphanumeric(c: char) -> (r: bool)
    ensures
        r == is_alphanumeric_of(c),
{
    c.is_alphanumeric()
}

/// Relies on char::is_uppercase: a pure classification of the character.
#[verifier::external_body]
fn char_is_uppercase(c: char) -> (r: bool)
    ensures
        r == is_uppercase_of(c),
{
    c.is_uppercase()
}

/// Relies on char::to_uppercase: a pure mapping of the character; keeps the
/// first character of the mapping.
#[verifier::external_body]
fn char_to_uppercase(c: char) -> (r: char)
    ensures
        r == uppercase_first_of(c),
{
    c.to_uppercase().next().unwrap_or(c)
}

/// Relies on char::to_lowercase: a pure mapping of the character; keeps the
/// first character of the mapping.
#[verifier::external_body]
fn char_to_lowercase(c: char) -> (r: char)
    ensures
        r == lowercase_first_of(c),
{
    c.to_lowercase().next().unwrap_or(c)
}

/// One character of a sanitized identifier: alphanumeric characters stay,
/// everything else becomes an underscore.
pub open spec fn spec_sanitize_char(c: char) -> char {
    if is_alphanumeric_of(c) {
        c
    } else {
        '_'
    }
}

/// A node id or variable name as it may appear in generated source: every
/// non-alphanumeric character replaced by an underscore.
pub open spec fn spec_sanitize(s: Seq<char>) -> Seq<char> {
    Seq::new(s.len(), |i: int| spec_sanitize_char(s[i]))
}

/// Sanitize an id for use as a generated-source identifier: every
/// non-alphanumeric character is replaced with `_`.
pub fn sanitize_id(id: &str) -> (r: String)
    ensures
        r@ == spec_sanitize(id@),
        r@.len() == id@.len(),
{
    let len = id.unicode_len();
    let mut out = String::new();
    let mut i: usize = 0;
    while i < len
        invariant
            i <= len,
            len == id@.len(),
            out@.len() == i,
            forall|j: int| 0 <= j < i ==> out@[j] == spec_sanitize_char(id@[j]),
        decreases len - i,
    {
        let c = id.get_char(i);
        if char_is_alphanumeric(c) {
            push_char(&mut out, c);
        } else {
            push_char(&mut out, '_');
        }
        i = i + 1;
    }
    proof {
        assert(out@ =~= spec_sanitize(id@));
    }
    out
}

/// Whether a character separates words for re-casing.
pub open spec fn spec_is_word_sep(c: char) -> bool {
    c == '_' || c == '-' || c == ' '
}

/// The camelCase form of `s` from position `i` on, where `cap` says whether
/// the next emitted letter is capitalized.  Separators are dropped and
/// capitalize what follows; the very first character is lowercased.
pub open spec fn spec_camel_from(s: Seq<char>, i: int, cap: bool) -> Seq<char>
    decreases s.len() - i,
{
    if i < 0 || i >= s.len() {
        Seq::empty()
    } else if spec_is_word_sep(s[i]) {
        spec_camel_from(s, i + 1, true)
    } else if cap {
        seq![uppercase_first_of(s[i])] + spec_camel_from(s, i + 1, false)
    } else if i == 0 {
        seq![lowercase_first_of(s[i])] + spec_camel_from(s, i + 1, false)
    } else {
        seq![s[i]] + spec_camel_from(s, i + 1, false)
    }
}

/// Convert a name to camelCase: `hello_world`, `hello-world` and
/// `hello world` all become `helloWorld`.
pub fn to_camel_case(s: &str) -> (r: String)
    ensures
        r@ == spec_camel_from(s@, 0, false),
{
    let len = s.unicode_len();
    let mut out = String::new();
    let mut cap: bool = false;
    let mut i: usize = 0;
    while i < len
        invariant
            i <= len,
            len == s@.len(),
            spec_camel_from(s@, 0, false) == out@ + spec_camel_from(s@, i as int, cap),
        decreases len - i,
    {
        let c = s.get_char(i);
        if c == '_' || c == '-' || c == ' ' {
            cap = true;
        } else if cap {
            push_char(&mut out, char_to_uppercase(c));
            cap = false;
        } else if i == 0 {
            push_char(&mut out, char_to_lowercase(c));
        } else {
            push_char(&mut out, c);
        }
        i = i + 1;
    }
    out
}

/// The snake_case form of `s` from position `i` on.
pub open spec fn spec_snake_from(s: Seq<char>, i: int) -> Seq<char>
    decreases s.len() - i,
{
    if i < 0 || i >= s.len() {
        Seq::empty()
    } else if is_uppercase_of(s[i]) && i > 0 {
        seq!['_', lowercase_first_of(s[i])] + spec_snake_from(s, i + 1)
    } else if s[i] == ' ' || s[i] == '-' {
        seq!['_'] + spec_snake_from(s, i + 1)
    } else {
        seq![lowercase_first_of(s[i])] + spec_snake_from(s, i + 1)
    }
}

/// Convert a name to snake_case: `helloWorld`, `hello-world` and
/// `hello world` all become `hello_world`.
pub fn to_snake_case(s: &str) -> (r: String)
    ensures
        r@ == spec_snake_from(s@, 0),
{
    let len = s.unicode_len();
    let mut out = String::new();
    let mut i: usize = 0;
    while i < len
        invariant
            i <= len,
            len == s@.len(),
            spec_snake_from(s@, 0) == out@ + spec_snake_from(s@, i as int),
        decreases len - i,
    {
        let c = s.get_char(i);
        if char_is_uppercase(c) && i > 0 {
            push_char(&mut out, '_');
            push_char(&mut out, char_to_lowercase(c));
        } else if c == ' ' || c == '-' {
            push_char(&mut out, '_');
        } else {
            push_char(&mut out, char_to_lowercase(c));
        }
        i = i + 1;
    }
    out
}

/// The lowercased form of a string, character by character.
pub open spec fn spec_lower(s: Seq<char>) -> Seq<char> {
    Seq::new(s.len(), |i: int| lowercase_first_of(s[i]))
}

/// Lowercase a string character by character.
pub fn lower_str(s: &str) -> (r: String)
    ensures
        r@ == spec_lower(s@),
{
    let len = s.unicode_len();
    let mut out = String::new();
    let mut i: usize = 0;
    while i < len
        invariant
            i <= len,
            len == s@.len(),
            out@.len() == i,
            forall|j: int| 0 <= j < i ==> out@[j] == lowercase_first_of(s@[j]),
        decreases len - i,
    {
        let c = s.get_char(i);
        push_char(&mut out, char_to_lowercase(c));
        i = i + 1;
    }
    proof {
        assert(out@ =~= spec_lower(s@));
    }
    out
}

/// Whether two string slices hold the same characters.
pub fn str_eq(a: &str, b: &str) -> (r: bool)
    ensures
        r == (a@ == b@),
{
    let sa = a.to_owned();
    let sb = b.to_owned();
    sa == sb
}

/// Whether the text contains a `${` interpolation marker anywhere.
pub open spec fn spec_has_interpolation(s: Seq<char>) -> bool {
    exists|i: int| 0 <= i < s.len() - 1 && (#[trigger] s[i]) == '$' && s[i + 1] == '{'
}

/// Whether the text contains a `${` interpolation marker.
pub fn has_interpolation(s: &str) -> (r: bool)
    ensures
        r == spec_has_interpolation(s@),
{
    let len = s.unicode_len();
    if len < 2 {
        return false;
    }
    let mut i: usize = 0;
    while i < len - 1
        invariant
            i <= len - 1,
            len == s@.len(),
            forall|k: int| 0 <= k < i ==> !((#[trigger] s@[k]) == '$' && s@[k + 1] == '{'),
        decreases len - 1 - i,
    {
        if s.get_char(i) == '$' && s.get_char(i + 1) == '{' {
            return true;
        }
        i = i + 1;
    }
    false
}

/// One character of a single-quoted source literal: a quote is escaped,
/// everything else stays.
pub open spec fn spec_escape_sq_char(c: char) -> Seq<char> {
    if c == '\'' {
        seq!['\\', '\'']
    } else {
        seq![c]
    }
}

/// A text with every single quote escaped.
pub open spec fn spec_escape_sq(s: Seq<char>) -> Seq<char>
    decreases s.len(),
{
    if s.len() == 0 {
        Seq::empty()
    } else {
        spec_escape_sq_char(s[0]) + spec_escape_sq(s.skip(1))
    }
}

proof fn lemma_escape_sq_snoc(s: Seq<char>, c: char)
    ensures
        spec_escape_sq(s.push(c)) == spec_escape_sq(s) + spec_escape_sq_char(c),
    decreases s.len(),
{
    if s.len() == 0 {
        assert(s.push(c).len() == 1);
        assert(s.push(c)[0] == c);
        assert(s.push(c).skip(1) =~= Seq::<char>::empty());
        assert(spec_escape_sq(s.push(c)) == spec_escape_sq_char(c) + spec_escape_sq(
            Seq::<char>::empty(),
        ));
        assert(spec_escape_sq(s) == Seq::<char>::empty());
        assert(spec_escape_sq_char(c) + Seq::<char>::empty() =~= Seq::<char>::empty()
            + spec_escape_sq_char(c));
    } else {
        assert(s.push(c).len() == s.len() + 1);
        assert(s.push(c)[0] == s[0]);
        assert(s.push(c).skip(1) =~= s.skip(1).push(c));
        lemma_escape_sq_snoc(s.skip(1), c);
        let a = spec_escape_sq_char(s[0]);
        let b = spec_escape_sq(s.skip(1));
        let e = spec_escape_sq_char(c);
        assert(spec_escape_sq(s.push(c)) == a + spec_escape_sq(s.skip(1).push(c)));
        assert(spec_escape_sq(s.skip(1).push(c)) == b + e);
        assert(a + (b + e) =~= (a + b) + e);
        assert(spec_escape_sq(s) == a + b);
    }
}

/// Appends the text with every single quote escaped.
pub fn push_escaped_sq(out: &mut String, s: &str)
    ensures
        final(out)@ == old(out)@ + spec_escape_sq(s@),
{
    let len = s.unicode_len();
    let mut i: usize = 0;
    while i < len
        invariant
            i <= len,
            len == s@.len(),
            out@ == old(out)@ + spec_escape_sq(s@.take(i as int)),
        decreases len - i,
    {
        let c = s.get_char(i);
        if c == '\'' {
            push_char(out, '\\');
            push_char(out, '\'');
        } else {
            push_char(out, c);
        }
        proof {
            assert(s@.take(i + 1) =~= s@.take(i as int).push(s@[i as int]));
            lemma_escape_sq_snoc(s@.take(i as int), s@[i as int]);
            assert(out@ =~= old(out)@ + spec_escape_sq(s@.take(i + 1)));
        }
        i = i + 1;
    }
    proof {
        assert(s@.take(len as int) =~= s@);
    }
}

/// The decimal digit character for a value below ten.
pub open spec fn spec_digit(d: int) -> char {
    if d == 0 { '0' }
    else if d == 1 { '1' }
    else if d == 2 { '2' }
    else if d == 3 { '3' }
    else if d == 4 { '4' }
    else if d == 5 { '5' }
    else if d == 6 { '6' }
    else if d == 7 { '7' }
    else if d == 8 { '8' }
    else { '9' }
}

/// The decimal text of a number.
pub open spec fn spec_dec(n: int) -> Seq<char>
    decreases n,
{
    if n < 10 {
        seq![spec_digit(n)]
    } else {
        spec_dec(n / 10) + seq![spec_digit(n % 10)]
    }
}

/// Renders a number in decimal.
pub fn usize_to_string(n: usize) -> (r: String)
    ensures
        r@ == spec_dec(n as int),
    decreases n,
{
    let d: usize = n % 10;
    let c: char = if d == 0 { '0' }
    else if d == 1 { '1' }
    else if d == 2 { '2' }
    else if d == 3 { '3' }
    else if d == 4 { '4' }
    else if d == 5 { '5' }
    else if d == 6 { '6' }
    else if d == 7 { '7' }
    else { '8' };
    let c: char = if d == 9 { '9' } else { c };
    if n < 10 {
        let mut out = String::new();
        push_char(&mut out, c);
        proof {
            assert(out@ =~= spec_dec(n as int));
        }
        out
    } else {
        let mut out = usize_to_string(n / 10);
        push_char(&mut out, c);
        proof {
            assert(out@ =~= spec_dec(n as int));
        }
        out
    }
}

/// Renders a 32-bit number in decimal.
pub fn u32_to_string(n: u32) -> (r: String)
    ensures
        r@ == spec_dec(n as int),
{
    u64_to_string(n as u64)
}

/// Renders a 64-bit number in decimal.
pub fn u64_to_string(n: u64) -> (r: String)
    ensures
        r@ == spec_dec(n as int),
    decreases n,
{
    let d: u64 = n % 10;
    let c: char = if d == 0 { '0' }
    else if d == 1 { '1' }
    else if d == 2 { '2' }
    else if d == 3 { '3' }
    else if d == 4 { '4' }
    else if d == 5 { '5' }
    else if d == 6 { '6' }
    else if d == 7 { '7' }
    else { '8' };
    let c: char = if d == 9 { '9' } else { c };
    if n < 10 {
        let mut out = String::new();
        push_char(&mut out, c);
        proof {
            assert(out@ =~= spec_dec(n as int));
        }
        out
    } else {
        let mut out = u64_to_string(n / 10);
        push_char(&mut out, c);
        proof {
            assert(out@ =~= spec_dec(n as int));
        }
        out
    }
}

/// Whether a character survives the identifier filter of a workflow
/// function name.
pub open spec fn spec_name_keep(c: char) -> bool {
    is_alphanumeric_of(c) || c == ' ' || c == '_'
}

/// The PascalCase form of `s` from position `i` on: non-identifier
/// characters are dropped, spaces and underscores separate words, and each
/// word is capitalized.
pub open spec fn spec_pascal_from(s: Seq<char>, i: int, cap: bool) -> Seq<char>
    decreases s.len() - i,
{
    if i < 0 || i >= s.len() {
        Seq::empty()
    } else if !spec_name_keep(s[i]) {
        spec_pascal_from(s, i + 1, cap)
    } else if s[i] == ' ' || s[i] == '_' {
        spec_pascal_from(s, i + 1, true)
    } else if cap {
        seq![uppercase_first_of(s[i])] + spec_pascal_from(s, i + 1, false)
    } else {
        seq![s[i]] + spec_pascal_from(s, i + 1, false)
    }
}

/// Convert a display name to a PascalCase identifier: `My Test Workflow`
/// becomes `MyTestWorkflow`.
pub fn to_pascal_case(s: &str) -> (r: String)
    ensures
        r@ == spec_pascal_from(s@, 0, true),
{
    let len = s.unicode_len();
    let mut out = String::new();
    let mut cap: bool = true;
    let mut i: usize = 0;
    while i < len
        invariant
            i <= len,
            len == s@.len(),
            spec_pascal_from(s@, 0, true) == out@ + spec_pascal_from(s@, i as int, cap),
        decreases len - i,
    {
        let c = s.get_char(i);
        if !(char_is_alphanumeric(c) || c == ' ' || c == '_') {
        } else if c == ' ' || c == '_' {
            cap = true;
        } else if cap {
            push_char(&mut out, char_to_uppercase(c));
            cap = false;
        } else {
            push_char(&mut out, c);
        }
        i = i + 1;
    }
    out
}

} // verus!
