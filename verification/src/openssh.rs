//! OpenSSH user configuration: the lexer, directives, `Include` expansion, and the
//! discovery of concrete `Host` aliases. Reading files, globbing and the environment are
//! the caller's; every decision about what was read is made here.
use vstd::prelude::*;

use crate::domain::{Authentication, ConnectionProfile, ConnectionProfileSource, Protocol};
use crate::order;
use crate::order::{sort_listing, ListingOrder};
use crate::fspath;
use crate::fspath::{std_path_file_name, std_path_join, std_path_parent, std_paths_equal, std_sort_paths};
use crate::text;
use crate::text::{
    occurs_at, str_equal,
    any_control, any_whitespace, char_is_whitespace, chars_lt, chars_of, concat3, contains_char,
    decimal_string, eq_ignore_ascii_case, find_char, lower_chars, owned, slice_chars,
    string_from_chars,
};

verus! {

broadcast use vstd::string::group_string_axioms;

// ---------------------------------------------------------------------------
// Lexer
// ---------------------------------------------------------------------------
/// The lexer's state after a prefix of a line: the finished words, the current word,
/// whether a quote is open, whether a backslash is pending, and whether a comment began.
pub type LexState = (Seq<Seq<char>>, Seq<char>, bool, bool, bool);

pub open spec fn lex_start() -> LexState {
    (Seq::empty(), Seq::empty(), false, false, false)
}

/// One character of the lexer: a backslash takes the next character literally, a double
/// quote toggles quoting, an unquoted `#` starts a comment, and unquoted white space
/// ends a word.
pub open spec fn lex_step(st: LexState, c: char) -> LexState {
    let (words, word, quoted, escaped, stopped) = st;
    if stopped {
        st
    } else if escaped {
        (words, word.push(c), quoted, false, false)
    } else if c == '\\' {
        (words, word, quoted, true, false)
    } else if c == '"' {
        (words, word, !quoted, false, false)
    } else if c == '#' && !quoted {
        (words, word, quoted, false, true)
    } else if text::is_whitespace(c) && !quoted {
        if word.len() > 0 {
            (words.push(word), Seq::empty(), quoted, false, false)
        } else {
            st
        }
    } else {
        (words, word.push(c), quoted, false, false)
    }
}

/// The lexer's state after all of `s`.
pub open spec fn lex(s: Seq<char>) -> LexState
    decreases s.len(),
{
    if s.len() == 0 {
        lex_start()
    } else {
        lex_step(lex(s.drop_last()), s.last())
    }
}

/// The words of a configuration line, or nothing when a quote or escape is left open.
pub open spec fn spec_split_words(line: Seq<char>) -> Option<Seq<Seq<char>>> {
    let (words, word, quoted, escaped, _) = lex(line);
    if quoted || escaped {
        None
    } else if word.len() > 0 {
        Some(words.push(word))
    } else {
        Some(words)
    }
}

/// The texts of a vector of strings.
pub open spec fn texts(v: Seq<String>) -> Seq<Seq<char>> {
    v.map_values(|w: String| w@)
}

/// Splits a configuration line into words as `spec_split_words` describes.
pub fn split_words(line: &str) -> (r: Result<Vec<String>, ()>)
    ensures
        match r {
            Ok(words) => spec_split_words(line@) == Some(texts(words@)),
            Err(_) => spec_split_words(line@) is None,
        },
{
    let v = chars_of(line);
    let mut words: Vec<String> = Vec::new();
    let mut word: Vec<char> = Vec::new();
    let mut quoted = false;
    let mut escaped = false;
    let mut stopped = false;
    let mut i: usize = 0;
    while i < v.len()
        invariant
            i <= v.len(),
            v@ == line@,
            (texts(words@), word@, quoted, escaped, stopped) == lex(v@.take(i as int)),
        decreases v.len() - i,
    {
        let c = v[i];
        proof {
            assert(v@.take(i + 1).drop_last() =~= v@.take(i as int));
            assert(v@.take(i + 1).last() == c);
        }
        if stopped {
        } else if escaped {
            word.push(c);
            escaped = false;
        } else if c == '\\' {
            escaped = true;
        } else if c == '"' {
            quoted = !quoted;
        } else if c == '#' && !quoted {
            stopped = true;
        } else if char_is_whitespace(c) && !quoted {
            if word.len() > 0 {
                let finished = string_from_chars(&word);
                let ghost before = words@;
                words.push(finished);
                proof {
                    assert(texts(words@) =~= texts(before).push(word@));
                }
                word = Vec::new();
            }
        } else {
            word.push(c);
        }
        i = i + 1;
    }
    assert(v@.take(v.len() as int) =~= v@);
    if quoted || escaped {
        return Err(());
    }
    if word.len() > 0 {
        let finished = string_from_chars(&word);
        let ghost before = words@;
        words.push(finished);
        assert(texts(words@) =~= texts(before).push(word@));
    }
    Ok(words)
}

// ---------------------------------------------------------------------------
// Directives
// ---------------------------------------------------------------------------
/// Arguments with a leading `=` on the first one removed (the `keyword =value` form).
pub open spec fn without_separator(arguments: Seq<Seq<char>>) -> Seq<Seq<char>> {
    if arguments.len() > 0 && arguments[0].len() > 0 && arguments[0][0] == '=' {
        let value = arguments[0].skip(1);
        if value.len() == 0 {
            arguments.skip(1)
        } else {
            arguments.update(0, value)
        }
    } else {
        arguments
    }
}

/// The directive of a line's words: the keyword in ASCII lower case and its arguments,
/// accepting `keyword value`, `keyword=value` and `keyword =value`; nothing for no words.
pub open spec fn spec_directive(words: Seq<Seq<char>>) -> Option<(Seq<char>, Seq<Seq<char>>)> {
    if words.len() == 0 {
        None
    } else {
        let first = words[0];
        let rest = words.skip(1);
        match text::first_index_of(first, '=') {
            Some(i) => {
                let value = first.skip(i + 1);
                let arguments = if value.len() > 0 {
                    seq![value] + rest
                } else {
                    rest
                };
                Some((text::lower_seq(first.take(i)), without_separator(arguments)))
            },
            None => Some((text::lower_seq(first), without_separator(rest))),
        }
    }
}

/// Appends copies of `src[from..]` to `dst`.
fn push_texts_from(dst: &mut Vec<String>, src: &Vec<String>, from: usize)
    requires
        from <= src.len(),
    ensures
        texts(final(dst)@) == texts(old(dst)@) + texts(src@).skip(from as int),
{
    let ghost start = dst@;
    let mut j: usize = from;
    while j < src.len()
        invariant
            from <= j <= src.len(),
            texts(dst@) == texts(start) + texts(src@).subrange(from as int, j as int),
        decreases src.len() - j,
    {
        let ghost before = dst@;
        dst.push(src[j].clone());
        proof {
            assert(texts(dst@) =~= texts(before).push(src@[j as int]@));
            assert(texts(src@).subrange(from as int, j + 1) =~= texts(src@).subrange(from as int, j as int).push(src@[j as int]@));
        }
        j = j + 1;
    }
    assert(texts(src@).subrange(from as int, src.len() as int) =~= texts(src@).skip(from as int));
}

/// Removes a leading `=` from the first argument as `without_separator` describes.
fn strip_separator(arguments: &mut Vec<String>)
    ensures
        texts(final(arguments)@) == without_separator(texts(old(arguments)@)),
{
    if arguments.len() == 0 {
        return;
    }
    let first = chars_of(arguments[0].as_str());
    if first.len() == 0 || first[0] != '=' {
        return;
    }
    let value = slice_chars(&first, 1, first.len());
    assert(value@ =~= first@.skip(1));
    let ghost before = texts(arguments@);
    if value.len() == 0 {
        arguments.remove(0);
        assert(texts(arguments@) =~= before.skip(1));
    } else {
        arguments.set(0, string_from_chars(&value));
        assert(texts(arguments@) =~= before.update(0, value@));
    }
}

/// Parses one configuration line. A line whose quote or escape is left open counts one
/// warning and yields nothing; an empty or comment-only line yields nothing.
pub fn parse_directive(line: &str, warnings: &mut usize) -> (r: Option<(String, Vec<String>)>)
    requires
        *old(warnings) < usize::MAX,
    ensures
        match spec_split_words(line@) {
            None => r is None && *final(warnings) == *old(warnings) + 1,
            Some(words) => *final(warnings) == *old(warnings) && match r {
                Some((keyword, arguments)) => spec_directive(words) == Some(
                    (keyword@, texts(arguments@)),
                ),
                None => spec_directive(words) is None,
            },
        },
{
    let words = match split_words(line) {
        Ok(words) => words,
        Err(_) => {
            *warnings = *warnings + 1;
            return None;
        },
    };
    if words.len() == 0 {
        return None;
    }
    let ghost all = texts(words@);
    let first = chars_of(words[0].as_str());
    let mut arguments: Vec<String> = Vec::new();
    let keyword = match find_char(&first, '=') {
        Some(i) => {
            let key = slice_chars(&first, 0, i);
            let value = slice_chars(&first, i + 1, first.len());
            assert(key@ =~= first@.take(i as int));
            assert(value@ =~= first@.skip(i + 1));
            if value.len() > 0 {
                arguments.push(string_from_chars(&value));
            }
            push_texts_from(&mut arguments, &words, 1);
            assert(value.len() > 0 ==> texts(arguments@) =~= seq![value@] + all.skip(1));
            assert(value.len() == 0 ==> texts(arguments@) =~= all.skip(1));
            string_from_chars(&lower_chars(&key))
        },
        None => {
            push_texts_from(&mut arguments, &words, 1);
            assert(texts(arguments@) =~= all.skip(1));
            string_from_chars(&lower_chars(&first))
        },
    };
    strip_separator(&mut arguments);
    Some((keyword, arguments))
}

// ---------------------------------------------------------------------------
// Aliases
// ---------------------------------------------------------------------------
/// The length of the UTF-8 encoding of one character.
pub open spec fn utf8_width(c: char) -> nat {
    let n = c as u32;
    if n < 0x80 {
        1
    } else if n < 0x800 {
        2
    } else if n < 0x10000 {
        3
    } else {
        4
    }
}

/// The length of the UTF-8 encoding of `s`, which is what `str::len` counts.
pub open spec fn utf8_len(s: Seq<char>) -> nat
    decreases s.len(),
{
    if s.len() == 0 {
        0
    } else {
        utf8_len(s.drop_last()) + utf8_width(s.last())
    }
}

proof fn lemma_utf8_len_monotone(s: Seq<char>, i: int)
    requires
        0 <= i <= s.len(),
    ensures
        utf8_len(s.take(i)) <= utf8_len(s),
    decreases s.len() - i,
{
    if i < s.len() {
        lemma_utf8_len_monotone(s, i + 1);
        assert(s.take(i + 1).drop_last() =~= s.take(i));
    } else {
        assert(s.take(i) =~= s);
    }
}

fn utf8_width_of(c: char) -> (r: usize)
    ensures
        r == utf8_width(c),
{
    let n = c as u32;
    if n < 0x80 {
        1
    } else if n < 0x800 {
        2
    } else if n < 0x10000 {
        3
    } else {
        4
    }
}

/// Whether the UTF-8 encoding of `v` has at most `limit` bytes.
fn utf8_len_at_most(v: &[char], limit: usize) -> (r: bool)
    requires
        limit < usize::MAX - 4,
    ensures
        r == (utf8_len(v@) <= limit),
{
    let mut total: usize = 0;
    let mut i: usize = 0;
    while i < v.len()
        invariant
            i <= v.len(),
            limit < usize::MAX - 4,
            total == utf8_len(v@.take(i as int)),
            total <= limit,
        decreases v.len() - i,
    {
        assert(v@.take(i + 1).drop_last() =~= v@.take(i as int));
        total = total + utf8_width_of(v[i]);
        i = i + 1;
        if total > limit {
            proof {
                lemma_utf8_len_monotone(v@, i as int);
            }
            return false;
        }
    }
    assert(v@.take(v.len() as int) =~= v@);
    true
}

/// A `Host` pattern that names exactly one host: not empty, at most 255 bytes, not
/// negated, without wildcards, white space or control characters.
pub open spec fn spec_is_concrete_alias(alias: Seq<char>) -> bool {
    &&& alias.len() > 0
    &&& utf8_len(alias) <= 255
    &&& alias[0] != '!'
    &&& !text::has_char(alias, '*')
    &&& !text::has_char(alias, '?')
    &&& !text::has_whitespace(alias)
    &&& !text::has_control(alias)
}

pub fn is_concrete_alias(alias: &str) -> (r: bool)
    ensures
        r == spec_is_concrete_alias(alias@),
{
    let v = chars_of(alias);
    v.len() > 0 && utf8_len_at_most(&v, 255) && v[0] != '!' && !contains_char(&v, '*')
        && !contains_char(&v, '?') && !any_whitespace(&v) && !any_control(&v)
}

/// Some alias of `aliases` equals `alias` up to ASCII case.
pub open spec fn has_alias(aliases: Seq<Seq<char>>, alias: Seq<char>) -> bool {
    exists|i: int| 0 <= i < aliases.len() && text::lower_seq(#[trigger] aliases[i]) == text::lower_seq(alias)
}

/// No two aliases are equal up to ASCII case.
pub open spec fn aliases_unique(aliases: Seq<Seq<char>>) -> bool {
    forall|i: int, j: int|
        0 <= i < j < aliases.len() ==> text::lower_seq(#[trigger] aliases[i]) != text::lower_seq(
            #[trigger] aliases[j],
        )
}

/// The aliases after a `Host` line with `patterns`: each concrete pattern not yet known up
/// to ASCII case is added, in order, so the first spelling of an alias is kept.
pub open spec fn aliases_after(aliases: Seq<Seq<char>>, patterns: Seq<Seq<char>>) -> Seq<Seq<char>>
    decreases patterns.len(),
{
    if patterns.len() == 0 {
        aliases
    } else {
        let before = aliases_after(aliases, patterns.drop_last());
        let p = patterns.last();
        if spec_is_concrete_alias(p) && !has_alias(before, p) {
            before.push(p)
        } else {
            before
        }
    }
}

/// Aliases are ordered by their ASCII-lowercase text.
impl ListingOrder for String {
    open spec fn spec_precedes(self, other: Self) -> bool {
        text::seq_lt(text::lower_seq(self@), text::lower_seq(other@))
    }

    fn precedes(&self, other: &Self) -> (r: bool) {
        let left = lower_chars(&chars_of(self.as_str()));
        let right = lower_chars(&chars_of(other.as_str()));
        chars_lt(&left, &right)
    }

    proof fn lemma_irreflexive(a: Self) {
        text::lemma_seq_lt_irreflexive(text::lower_seq(a@));
    }

    proof fn lemma_asymmetric(a: Self, b: Self) {
        text::lemma_seq_lt_asymmetric(text::lower_seq(a@), text::lower_seq(b@));
    }

    proof fn lemma_not_precedes_transitive(a: Self, b: Self, c: Self) {
        let (x, y, z) = (text::lower_seq(a@), text::lower_seq(b@), text::lower_seq(c@));
        text::lemma_seq_lt_total(x, y);
        text::lemma_seq_lt_total(y, z);
        if text::seq_lt(z, x) {
            if text::seq_lt(y, x) {
            } else if x == y {
            } else {
                text::lemma_seq_lt_transitive(z, x, y);
                if y == z {
                    text::lemma_seq_lt_irreflexive(y);
                } else if text::seq_lt(y, z) {
                    text::lemma_seq_lt_asymmetric(y, z);
                }
            }
        }
    }
}

// ---------------------------------------------------------------------------
// Discovery
// ---------------------------------------------------------------------------
/// At most this many configuration files are read.
pub const MAX_CONFIG_FILES: usize = 256;

/// Larger configuration files are skipped.
pub const MAX_CONFIG_BYTES: u64 = 1048576;

/// What a discovery of the user's OpenSSH configuration found.
#[derive(Debug, PartialEq, Eq)]
pub struct OpenSshDiscovery {
    /// Concrete aliases, ordered by their ASCII-lowercase text.
    pub aliases: Vec<String>,
    pub files_read: usize,
    /// Configuration items that were skipped.
    pub warnings: usize,
    /// Whether the root configuration file exists.
    pub root_found: bool,
}

impl Default for OpenSshDiscovery {
    fn default() -> (r: Self)
        ensures
            r.aliases@.len() == 0,
            r.files_read == 0,
            r.warnings == 0,
            !r.root_found,
    {
        OpenSshDiscovery { aliases: Vec::new(), files_read: 0, warnings: 0, root_found: false }
    }
}

/// The profile imported for `alias`.
pub open spec fn imported_profile(p: ConnectionProfile, alias: Seq<char>) -> bool {
    &&& p.id@ == "openssh:"@ + alias
    &&& p.label@ == alias
    &&& p.source == ConnectionProfileSource::OpenSshConfig
    &&& p.protocol == Protocol::Sftp
    &&& p.user@ == Seq::<char>::empty()
    &&& p.host@ == alias
    &&& p.authentication == Authentication::OpenSshConfig
}

/// The status line of a discovery.
pub open spec fn spec_discovery_status(aliases: nat, warnings: nat, root_found: bool) -> Seq<char> {
    let base = if !root_found {
        "No OpenSSH user config found; A adds a manual profile."@
    } else if aliases == 0 {
        "No concrete OpenSSH Host aliases found; A adds a manual profile."@
    } else {
        "Imported "@ + text::decimal(aliases) + " OpenSSH profile(s); I refreshes the catalog."@
    };
    if warnings > 0 {
        base + " "@ + text::decimal(warnings) + " config item(s) were skipped."@
    } else {
        base
    }
}

impl OpenSshDiscovery {
    /// One imported profile per alias, in order.
    pub fn profiles(&self) -> (r: Vec<ConnectionProfile>)
        ensures
            r@.len() == self.aliases@.len(),
            forall|i: int| 0 <= i < r@.len() ==> imported_profile(#[trigger] r@[i], self.aliases@[i]@),
    {
        let mut r: Vec<ConnectionProfile> = Vec::new();
        let mut i: usize = 0;
        while i < self.aliases.len()
            invariant
                i <= self.aliases.len(),
                r@.len() == i,
                forall|j: int| 0 <= j < i ==> imported_profile(#[trigger] r@[j], self.aliases@[j]@),
            decreases self.aliases.len() - i,
        {
            r.push(ConnectionProfile::open_ssh(self.aliases[i].as_str()));
            i = i + 1;
        }
        r
    }

    /// The status line: what was imported, and how many items were skipped.
    pub fn status(&self) -> (r: String)
        ensures
            r@ == spec_discovery_status(self.aliases@.len(), self.warnings as nat, self.root_found),
    {
        let mut status = if !self.root_found {
            owned("No OpenSSH user config found; A adds a manual profile.")
        } else if self.aliases.len() == 0 {
            owned("No concrete OpenSSH Host aliases found; A adds a manual profile.")
        } else {
            let count = decimal_string(self.aliases.len() as u64);
            concat3("Imported ", count.as_str(), " OpenSSH profile(s); I refreshes the catalog.")
        };
        if self.warnings > 0 {
            status.append(" ");
            let count = decimal_string(self.warnings as u64);
            status.append(count.as_str());
            status.append(" config item(s) were skipped.");
        }
        status
    }
}

// ---------------------------------------------------------------------------
// Include expansion
// ---------------------------------------------------------------------------
/// `s` with every occurrence of `pattern` replaced by `replacement`, scanning from the
/// left without overlaps (`str::replace`).
pub open spec fn replace_all(s: Seq<char>, pattern: Seq<char>, replacement: Seq<char>) -> Seq<char>
    decreases s.len(),
{
    if s.len() == 0 {
        s
    } else if 0 < pattern.len() <= s.len() && s.take(pattern.len() as int) == pattern {
        replacement + replace_all(s.skip(pattern.len() as int), pattern, replacement)
    } else {
        seq![s[0]] + replace_all(s.skip(1), pattern, replacement)
    }
}

/// Replaces every occurrence of `pattern` as `replace_all` describes.
pub fn replace_text(v: &[char], pattern: &[char], replacement: &[char]) -> (r: Vec<char>)
    ensures
        r@ == replace_all(v@, pattern@, replacement@),
{
    let mut out: Vec<char> = Vec::new();
    let mut i: usize = 0;
    assert(v@.skip(0) =~= v@);
    assert(out@ + replace_all(v@, pattern@, replacement@) =~= replace_all(v@, pattern@, replacement@));
    while i < v.len()
        invariant
            i <= v.len(),
            replace_all(v@, pattern@, replacement@) == out@ + replace_all(v@.skip(i as int), pattern@, replacement@),
        decreases v.len() - i,
    {
        let ghost rest = v@.skip(i as int);
        let ghost before = out@;
        if pattern.len() > 0 && occurs_at(v, i, pattern) {
            let mut k: usize = 0;
            while k < replacement.len()
                invariant
                    k <= replacement.len(),
                    out@ == before + replacement@.take(k as int),
                decreases replacement.len() - k,
            {
                out.push(replacement[k]);
                k = k + 1;
                assert(replacement@.take(k as int) =~= replacement@.take(k - 1).push(replacement@[k - 1]));
            }
            assert(replacement@.take(replacement.len() as int) =~= replacement@);
            assert(rest.skip(pattern@.len() as int) =~= v@.skip(i + pattern.len()));
            i = i + pattern.len();
        } else {
            out.push(v[i]);
            assert(rest.skip(1) =~= v@.skip(i + 1));
            assert(rest[0] == v@[i as int]);
            assert(out@ =~= before + seq![v@[i as int]]);
            i = i + 1;
        }
    }
    assert(v@.skip(v.len() as int) =~= Seq::<char>::empty());
    out
}

/// The length of the longest prefix of `s` of ASCII letters, digits and `_`.
pub open spec fn name_len(s: Seq<char>) -> nat
    decreases s.len(),
{
    if s.len() > 0 && (text::is_ascii_alphanumeric(s[0]) || s[0] == '_') {
        1 + name_len(s.skip(1))
    } else {
        0
    }
}

proof fn lemma_name_len_bound(s: Seq<char>)
    ensures
        name_len(s) <= s.len(),
        forall|m: int| 0 <= m < name_len(s) ==> text::is_ascii_alphanumeric(#[trigger] s[m]) || s[m] == '_',
        name_len(s) < s.len() ==> !(text::is_ascii_alphanumeric(s[name_len(s) as int]) || s[name_len(s) as int] == '_'),
    decreases s.len(),
{
    if s.len() > 0 && (text::is_ascii_alphanumeric(s[0]) || s[0] == '_') {
        lemma_name_len_bound(s.skip(1));
        assert forall|m: int| 0 <= m < name_len(s) implies text::is_ascii_alphanumeric(#[trigger] s[m]) || s[m] == '_' by {
            if m > 0 {
                assert(s.skip(1)[m - 1] == s[m]);
            }
        }
        if name_len(s) < s.len() {
            assert(s.skip(1)[name_len(s.skip(1)) as int] == s[name_len(s) as int]);
        }
    }
}

/// The value of `name`: that of its first entry in `environment`.
#[verifier::opaque]
pub open spec fn lookup(environment: Seq<(Seq<char>, Seq<char>)>, name: Seq<char>) -> Option<Seq<char>> {
    if exists|i: int| 0 <= i < environment.len() && (#[trigger] environment[i]).0 == name {
        Some(
            environment[choose|i: int|
                0 <= i < environment.len() && environment[i].0 == name && forall|j: int|
                    0 <= j < i ==> (#[trigger] environment[j]).0 != name].1,
        )
    } else {
        None
    }
}

/// The texts of an environment table.
pub open spec fn environment_view(environment: Seq<(String, String)>) -> Seq<(Seq<char>, Seq<char>)> {
    environment.map_values(|entry: (String, String)| (entry.0@, entry.1@))
}

/// `$NAME` and `${NAME}` replaced by their values; nothing for an empty or unset name or
/// an unclosed brace.
pub open spec fn expand_environment(s: Seq<char>, environment: Seq<(Seq<char>, Seq<char>)>) -> Option<Seq<char>>
    decreases s.len(),
{
    if s.len() == 0 {
        Some(Seq::empty())
    } else if s[0] != '$' {
        match expand_environment(s.skip(1), environment) {
            Some(r) => Some(seq![s[0]] + r),
            None => None,
        }
    } else if s.len() > 1 && s[1] == '{' {
        match text::first_index_of(s.skip(2), '}') {
            None => None,
            Some(j) => {
                let name = s.subrange(2, 2 + j);
                if name.len() == 0 || j < 0 || 3 + j > s.len() {
                    None
                } else {
                    match lookup(environment, name) {
                        None => None,
                        Some(value) => match expand_environment(s.skip(3 + j), environment) {
                            Some(r) => Some(value + r),
                            None => None,
                        },
                    }
                }
            },
        }
    } else {
        let k = name_len(s.skip(1)) as int;
        if k == 0 || 1 + k > s.len() {
            None
        } else {
            match lookup(environment, s.subrange(1, 1 + k)) {
                None => None,
                Some(value) => match expand_environment(s.skip(1 + k), environment) {
                    Some(r) => Some(value + r),
                    None => None,
                },
            }
        }
    }
}

fn lookup_value(environment: &Vec<(String, String)>, name: &[char]) -> (r: Option<String>)
    ensures
        text::opt_view(r) == lookup(environment_view(environment@), name@),
{
    reveal(lookup);
    let ghost view = environment_view(environment@);
    let mut i: usize = 0;
    while i < environment.len()
        invariant
            i <= environment.len(),
            view == environment_view(environment@),
            forall|j: int| 0 <= j < i ==> (#[trigger] view[j]).0 != name@,
        decreases environment.len() - i,
    {
        let key = chars_of(environment[i].0.as_str());
        if key.len() == name.len() && text::chars_equal(&key, name) {
            proof {
                reveal(lookup);
                assert(view[i as int].0 == name@);
                let w = choose|w: int|
                    0 <= w < view.len() && view[w].0 == name@ && forall|j: int| 0 <= j < w ==> (#[trigger] view[j]).0 != name@;
                assert(0 <= w < view.len() && view[w].0 == name@ && forall|j: int| 0 <= j < w ==> (#[trigger] view[j]).0 != name@) by {
                    assert(view[i as int].0 == name@);
                }
                if w < i {
                    assert(view[w].0 != name@);
                }
                if w > i {
                    assert(view[i as int].0 != name@);
                }
                assert(w == i);
                assert(view[i as int].1 == environment@[i as int].1@);
                assert(lookup(view, name@) == Some(view[i as int].1));
            }
            let value = environment[i].1.clone();
            assert(value@ == environment@[i as int].1@);
            return Some(value);
        }
        i = i + 1;
    }
    None
}

pub open spec fn is_name_char(c: char) -> bool {
    text::is_ascii_alphanumeric(c) || c == '_'
}

proof fn lemma_name_len_is(s: Seq<char>, k: int)
    requires
        0 <= k <= s.len(),
        forall|m: int| 0 <= m < k ==> is_name_char(#[trigger] s[m]),
        k == s.len() || !is_name_char(s[k]),
    ensures
        name_len(s) == k,
    decreases k,
{
    if k > 0 {
        let t = s.skip(1);
        assert forall|m: int| 0 <= m < k - 1 implies is_name_char(#[trigger] t[m]) by {
            assert(t[m] == s[m + 1]);
        }
        if k < s.len() {
            assert(t[k - 1] == s[k]);
        }
        lemma_name_len_is(t, k - 1);
        assert(is_name_char(s[0]));
    }
}

/// The end of the variable name that starts at `from`.
fn name_end(v: &[char], from: usize) -> (e: usize)
    requires
        from <= v.len(),
    ensures
        from <= e <= v.len(),
        e - from == name_len(v@.skip(from as int)),
{
    let mut e: usize = from;
    while e < v.len() && (is_ascii_alphanumeric_char(v[e]) || v[e] == '_')
        invariant
            from <= e <= v.len(),
            forall|m: int| from <= m < e ==> is_name_char(#[trigger] v@[m]),
        decreases v.len() - e,
    {
        e = e + 1;
    }
    proof {
        let s = v@.skip(from as int);
        assert forall|m: int| 0 <= m < e - from implies is_name_char(#[trigger] s[m]) by {
            assert(s[m] == v@[from + m]);
        }
        if e < v.len() {
            assert(s[e - from] == v@[e as int]);
        }
        lemma_name_len_is(s, e - from);
    }
    e
}

fn is_ascii_alphanumeric_char(c: char) -> (r: bool)
    ensures
        r == text::is_ascii_alphanumeric(c),
{
    ('a' <= c && c <= 'z') || ('A' <= c && c <= 'Z') || ('0' <= c && c <= '9')
}

/// `r` followed by what `rest` expands to.
pub open spec fn after(r: Seq<char>, rest: Option<Seq<char>>) -> Option<Seq<char>> {
    match rest {
        Some(x) => Some(r + x),
        None => None,
    }
}

/// Appends `tail` to `out`.
fn append_chars(out: &mut Vec<char>, tail: &[char])
    ensures
        final(out)@ == old(out)@ + tail@,
{
    let ghost before = out@;
    let mut k: usize = 0;
    while k < tail.len()
        invariant
            k <= tail.len(),
            out@ == before + tail@.take(k as int),
        decreases tail.len() - k,
    {
        out.push(tail[k]);
        k = k + 1;
        assert(tail@.take(k as int) =~= tail@.take(k - 1).push(tail@[k - 1]));
    }
    assert(tail@.take(tail.len() as int) =~= tail@);
}

/// The relation `expand_reference` keeps between the text it consumed and `out`.
pub open spec fn consumed(v: Seq<char>, i: int, next: int, env: Seq<(Seq<char>, Seq<char>)>, before: Seq<char>, out: Seq<char>) -> bool {
    after(before, expand_environment(v.skip(i), env)) == after(out, expand_environment(v.skip(next), env))
}

/// Expands the `${NAME}` reference at `i`.
fn expand_braced(v: &Vec<char>, i: usize, environment: &Vec<(String, String)>, out: &mut Vec<char>) -> (r: Option<usize>)
    requires
        i + 1 < v.len(),
        v@[i as int] == '$',
        v@[i + 1] == '{',
    ensures
        match r {
            Some(next) => i < next <= v.len() && consumed(v@, i as int, next as int, environment_view(environment@), old(out)@, final(out)@),
            None => expand_environment(v@.skip(i as int), environment_view(environment@)) is None,
        },
{
    let ghost env = environment_view(environment@);
    let ghost rest = v@.skip(i as int);
    let ghost before = out@;
    let n = v.len();
    assert(rest[0] == '$' && rest[1] == '{');
    let tail = slice_chars(v, i + 2, n);
    assert(tail@ =~= rest.skip(2));
    let j = match find_char(&tail, '}') {
        None => return None,
        Some(j) => j,
    };
    if j == 0 {
        assert(rest.subrange(2, 2 + j as int).len() == 0);
        return None;
    }
    let name = slice_chars(&tail, 0, j);
    assert(name@ =~= rest.subrange(2, 2 + j as int));
    let found = match lookup_value(environment, &name) {
        None => return None,
        Some(found) => found,
    };
    let fv = chars_of(found.as_str());
    append_chars(out, &fv);
    assert(rest.skip(3 + j as int) =~= v@.skip(i + 3 + j));
    proof {
        match expand_environment(rest.skip(3 + j as int), env) {
            Some(x) => assert(before + (fv@ + x) =~= out@ + x),
            None => {},
        }
    }
    Some(i + 3 + j)
}

/// Expands the `$NAME` reference at `i`.
fn expand_bare(v: &Vec<char>, i: usize, environment: &Vec<(String, String)>, out: &mut Vec<char>) -> (r: Option<usize>)
    requires
        i < v.len(),
        v@[i as int] == '$',
        !(i + 1 < v.len() && v@[i + 1] == '{'),
    ensures
        match r {
            Some(next) => i < next <= v.len() && consumed(v@, i as int, next as int, environment_view(environment@), old(out)@, final(out)@),
            None => expand_environment(v@.skip(i as int), environment_view(environment@)) is None,
        },
{
    let ghost env = environment_view(environment@);
    let ghost rest = v@.skip(i as int);
    let ghost before = out@;
    assert(rest[0] == '$');
    assert(!(rest.len() > 1 && rest[1] == '{'));
    let e = name_end(v, i + 1);
    assert(v@.skip(i + 1) =~= rest.skip(1));
    if e == i + 1 {
        return None;
    }
    let name = slice_chars(v, i + 1, e);
    assert(name@ =~= rest.subrange(1, 1 + (e - (i + 1))));
    let found = match lookup_value(environment, &name) {
        None => return None,
        Some(found) => found,
    };
    let fv = chars_of(found.as_str());
    append_chars(out, &fv);
    assert(rest.skip(1 + (e - (i + 1))) =~= v@.skip(e as int));
    proof {
        match expand_environment(v@.skip(e as int), env) {
            Some(x) => assert(before + (fv@ + x) =~= out@ + x),
            None => {},
        }
    }
    Some(e)
}

/// Expands environment references as `expand_environment` describes, looking names up in
/// `environment`.
pub fn expand_environment_with(value: &str, environment: &Vec<(String, String)>) -> (r: Option<String>)
    ensures
        text::opt_view(r) == expand_environment(value@, environment_view(environment@)),
{
    let ghost env = environment_view(environment@);
    let v = chars_of(value);
    let n = v.len();
    let mut out: Vec<char> = Vec::new();
    let mut i: usize = 0;
    assert(v@.skip(0) =~= v@);
    assert(after(out@, expand_environment(v@, env)) =~= expand_environment(v@, env)) by {
        match expand_environment(v@, env) {
            Some(x) => assert(out@ + x =~= x),
            None => {},
        }
    }
    while i < n
        invariant
            n == v.len(),
            v@ == value@,
            i <= n,
            env == environment_view(environment@),
            expand_environment(v@, env) == after(out@, expand_environment(v@.skip(i as int), env)),
        decreases n - i,
    {
        let c = v[i];
        if c != '$' {
            let ghost rest = v@.skip(i as int);
            let ghost before = out@;
            assert(rest[0] == c);
            out.push(c);
            assert(rest.skip(1) =~= v@.skip(i + 1));
            proof {
                match expand_environment(rest.skip(1), env) {
                    Some(x) => assert(before + (seq![c] + x) =~= out@ + x),
                    None => {},
                }
            }
            i = i + 1;
        } else {
            let next = if i + 1 < n && v[i + 1] == '{' {
                expand_braced(&v, i, environment, &mut out)
            } else {
                expand_bare(&v, i, environment, &mut out)
            };
            match next {
                None => return None,
                Some(next) => i = next,
            }
        }
    }
    assert(v@.skip(n as int) =~= Seq::<char>::empty());
    assert(out@ + Seq::<char>::empty() =~= out@);
    Some(string_from_chars(&out))
}

/// An `Include` value expanded: `%%` is a literal `%`, `%d` the home directory and no
/// other `%` token is accepted; environment references are expanded; a leading `~` or
/// `~/` names the home directory, and `~user` is refused.
pub open spec fn spec_expand_include(
    value: Seq<char>,
    home: Seq<char>,
    environment: Seq<(Seq<char>, Seq<char>)>,
) -> Option<Seq<char>> {
    let marked = replace_all(replace_all(value, "%%"@, seq!['\0']), "%d"@, home);
    if text::has_char(marked, '%') {
        None
    } else {
        match expand_environment(replace_all(marked, seq!['\0'], "%"@), environment) {
            None => None,
            Some(e) => if e == "~"@ {
                Some(home)
            } else if e.len() >= 2 && e[0] == '~' && e[1] == '/' {
                Some(fspath::path_join(home, e.skip(2)))
            } else if e.len() > 0 && e[0] == '~' {
                None
            } else {
                Some(e)
            },
        }
    }
}

/// Expands an `Include` value as `spec_expand_include` describes.
pub fn expand_include(value: &str, home: &str, environment: &Vec<(String, String)>) -> (r: Option<String>)
    ensures
        text::opt_view(r) == spec_expand_include(value@, home@, environment_view(environment@)),
{
    let nul: Vec<char> = vec!['\0'];
    assert(nul@ =~= seq!['\0']);
    let percent_pair = chars_of("%%");
    let home_token = chars_of("%d");
    let percent = chars_of("%");
    let home_chars = chars_of(home);
    let value_chars = chars_of(value);
    let step = replace_text(&value_chars, &percent_pair, &nul);
    let marked = replace_text(&step, &home_token, &home_chars);
    if contains_char(&marked, '%') {
        return None;
    }
    let restored = replace_text(&marked, &nul, &percent);
    let restored_text = string_from_chars(&restored);
    let expanded = match expand_environment_with(restored_text.as_str(), environment) {
        Some(expanded) => expanded,
        None => return None,
    };
    let e = chars_of(expanded.as_str());
    proof {
        reveal_strlit("~");
    }
    if e.len() == 1 && e[0] == '~' {
        assert(e@ =~= "~"@);
        return Some(owned(home));
    }
    assert(e@ != "~"@ ==> !(e.len() == 1 && e@[0] == '~'));
    if e.len() >= 2 && e[0] == '~' && e[1] == '/' {
        let relative = slice_chars(&e, 2, e.len());
        assert(relative@ =~= e@.skip(2));
        let relative_text = string_from_chars(&relative);
        return Some(std_path_join(home, relative_text.as_str()));
    }
    if e.len() > 0 && e[0] == '~' {
        return None;
    }
    Some(expanded)
}

// ---------------------------------------------------------------------------
// The discovery builder
// ---------------------------------------------------------------------------
/// Where a directive appears: before any `Host` or `Match` block, or inside one.
#[derive(Clone, Copy, Debug, PartialEq, Eq, Structural)]
pub enum ConfigContext {
    Global,
    Host,
    Match,
}

/// The state of a discovery while its caller reads configuration files.
#[derive(Debug)]
pub struct DiscoveryBuilder {
    /// The home directory, as text.
    pub home: String,
    /// The environment used to expand `Include` values.
    pub environment: Vec<(String, String)>,
    /// The aliases found so far, in the order first seen.
    pub aliases: Vec<String>,
    /// The identities of the files read or being read.
    pub visited: Vec<String>,
    pub files_read: usize,
    pub warnings: usize,
    pub root_found: bool,
}

/// `b` is `a` with one more warning.
pub open spec fn warned(a: DiscoveryBuilder, b: DiscoveryBuilder) -> bool {
    b == DiscoveryBuilder { warnings: (a.warnings + 1) as usize, ..a }
}

/// What scanning one line does: a line whose quote or escape is left open is a warning;
/// `Host` enters a host block and adds its concrete aliases; `Match` enters a match block;
/// `Include` hands its values back to be read when it appears outside any block and is a
/// warning inside one; everything else is ignored.
pub open spec fn scan_post(
    a: DiscoveryBuilder,
    context: ConfigContext,
    line: Seq<char>,
    b: DiscoveryBuilder,
    next: ConfigContext,
    includes: Seq<Seq<char>>,
) -> bool {
    match spec_split_words(line) {
        None => warned(a, b) && next == context && includes.len() == 0,
        Some(words) => match spec_directive(words) {
            None => b == a && next == context && includes.len() == 0,
            Some((keyword, arguments)) => if keyword == "host"@ {
                &&& b == DiscoveryBuilder { aliases: b.aliases, ..a }
                &&& texts(b.aliases@) == aliases_after(texts(a.aliases@), arguments)
                &&& next == ConfigContext::Host
                &&& includes.len() == 0
            } else if keyword == "match"@ {
                b == a && next == ConfigContext::Match && includes.len() == 0
            } else if keyword == "include"@ {
                if context == ConfigContext::Global {
                    b == a && next == context && includes == arguments
                } else {
                    warned(a, b) && next == context && includes.len() == 0
                }
            } else {
                b == a && next == context && includes.len() == 0
            },
        },
    }
}

/// Two file identities name the same file: the same text, or paths that `Path`'s `==`
/// finds equal.
pub open spec fn same_file(a: Seq<char>, b: Seq<char>) -> bool {
    a == b || fspath::paths_equal(a, b)
}

/// What starting a file does: past the file limit it is a warning; a file already read is
/// skipped silently; otherwise it is remembered and may be read.
pub open spec fn begin_post(a: DiscoveryBuilder, identity: Seq<char>, b: DiscoveryBuilder, accepted: bool) -> bool {
    if a.files_read >= MAX_CONFIG_FILES {
        warned(a, b) && !accepted
    } else if exists|k: int| 0 <= k < a.visited@.len() && same_file((#[trigger] a.visited@[k])@, identity) {
        b == a && !accepted
    } else {
        &&& b == DiscoveryBuilder { visited: b.visited, ..a }
        &&& texts(b.visited@) == texts(a.visited@).push(identity)
        &&& accepted
    }
}

/// What an `Include` value names: the expanded value when absolute, else relative to
/// `~/.ssh`.
pub open spec fn include_pattern_of(expanded: Seq<char>, home: Seq<char>) -> Seq<char> {
    if expanded.len() > 0 && expanded[0] == '/' {
        expanded
    } else {
        fspath::path_join(fspath::path_join(home, ".ssh"@), expanded)
    }
}

/// The number of entries of `matches` that could not be read.
pub open spec fn unreadable_count(matches: Seq<Option<String>>) -> nat
    decreases matches.len(),
{
    if matches.len() == 0 {
        0
    } else {
        unreadable_count(matches.drop_last()) + if matches.last() is None {
            1nat
        } else {
            0nat
        }
    }
}

/// The readable entries of `matches`, in order.
pub open spec fn readable(matches: Seq<Option<String>>) -> Seq<Seq<char>>
    decreases matches.len(),
{
    if matches.len() == 0 {
        Seq::empty()
    } else {
        match matches.last() {
            Some(path) => readable(matches.drop_last()).push(path@),
            None => readable(matches.drop_last()),
        }
    }
}

impl DiscoveryBuilder {
    /// Its aliases are concrete and unique up to ASCII case, and at most
    /// `MAX_CONFIG_FILES` files were read.
    pub open spec fn well_formed(self) -> bool {
        &&& aliases_unique(texts(self.aliases@))
        &&& forall|i: int| 0 <= i < self.aliases@.len() ==> spec_is_concrete_alias(#[trigger] texts(self.aliases@)[i])
        &&& self.files_read <= MAX_CONFIG_FILES
    }

    /// A discovery that has read nothing yet.
    pub fn new(home: &str, environment: Vec<(String, String)>, root_found: bool) -> (r: Self)
        ensures
            r.home@ == home@,
            r.environment == environment,
            r.aliases@.len() == 0,
            r.visited@.len() == 0,
            r.files_read == 0,
            r.warnings == 0,
            r.root_found == root_found,
            r.well_formed(),
    {
        DiscoveryBuilder {
            home: owned(home),
            environment,
            aliases: Vec::new(),
            visited: Vec::new(),
            files_read: 0,
            warnings: 0,
            root_found,
        }
    }

    /// Counts one skipped configuration item.
    pub fn warn(&mut self)
        requires
            old(self).warnings < usize::MAX,
        ensures
            warned(*old(self), *final(self)),
            old(self).well_formed() ==> final(self).well_formed(),
    {
        self.warnings = self.warnings + 1;
    }

    /// Decides whether the file with canonical identity `identity` is read.
    pub fn begin_file(&mut self, identity: &str) -> (accepted: bool)
        requires
            old(self).warnings < usize::MAX,
        ensures
            begin_post(*old(self), identity@, *final(self), accepted),
            old(self).well_formed() ==> final(self).well_formed(),
    {
        if self.files_read >= MAX_CONFIG_FILES {
            self.warnings = self.warnings + 1;
            return false;
        }
        let mut k: usize = 0;
        while k < self.visited.len()
            invariant
                *self == *old(self),
                old(self).files_read < MAX_CONFIG_FILES,
                k <= self.visited.len(),
                forall|m: int| 0 <= m < k ==> !same_file((#[trigger] self.visited@[m])@, identity@),
            decreases self.visited.len() - k,
        {
            if std_paths_equal(self.visited[k].as_str(), identity) {
                assert(same_file((self.visited@[k as int])@, identity@));
                return false;
            }
            k = k + 1;
        }
        let ghost before = self.visited@;
        self.visited.push(owned(identity));
        assert(texts(self.visited@) =~= texts(before).push(identity@));
        true
    }

    /// Whether a file with this metadata is read: a regular file of at most
    /// `MAX_CONFIG_BYTES` bytes.
    pub fn accepts_metadata(is_file: bool, len: u64) -> (r: bool)
        ensures
            r == (is_file && len <= MAX_CONFIG_BYTES),
    {
        is_file && len <= MAX_CONFIG_BYTES
    }

    /// Decides on the metadata of an admitted file, `None` when it could not be read: the
    /// file is read when it is a regular file of at most `MAX_CONFIG_BYTES` bytes, and
    /// otherwise counts as a warning.
    pub fn metadata_read(&mut self, metadata: Option<(bool, u64)>) -> (read: bool)
        requires
            old(self).warnings < usize::MAX,
        ensures
            read == (metadata matches Some((is_file, len)) && is_file && len <= MAX_CONFIG_BYTES),
            read ==> *final(self) == *old(self),
            !read ==> warned(*old(self), *final(self)),
            old(self).well_formed() ==> final(self).well_formed(),
    {
        let accepted = match metadata {
            Some((is_file, len)) => Self::accepts_metadata(is_file, len),
            None => false,
        };
        if !accepted {
            self.warn();
        }
        accepted
    }

    /// Counts a file whose contents were read, or a warning when they could not be read.
    pub fn contents_read(&mut self, read: bool)
        requires
            old(self).warnings < usize::MAX,
            read ==> old(self).files_read < MAX_CONFIG_FILES,
        ensures
            read ==> *final(self) == (DiscoveryBuilder { files_read: (old(self).files_read + 1) as usize, ..*old(self) }),
            !read ==> warned(*old(self), *final(self)),
            old(self).well_formed() ==> final(self).well_formed(),
    {
        if read {
            self.file_read();
        } else {
            self.warn();
        }
    }

    /// Counts one file read; `begin_file` admits a file only below `MAX_CONFIG_FILES`.
    pub fn file_read(&mut self)
        requires
            old(self).files_read < MAX_CONFIG_FILES,
        ensures
            *final(self) == (DiscoveryBuilder { files_read: (old(self).files_read + 1) as usize, ..*old(self) }),
            old(self).well_formed() ==> final(self).well_formed(),
    {
        self.files_read = self.files_read + 1;
    }

    /// Adds `alias` when it is concrete and not yet known up to ASCII case.
    fn add_alias(&mut self, alias: &str)
        ensures
            *final(self) == (DiscoveryBuilder { aliases: final(self).aliases, ..*old(self) }),
            texts(final(self).aliases@) == if spec_is_concrete_alias(alias@) && !has_alias(texts(old(self).aliases@), alias@) {
                texts(old(self).aliases@).push(alias@)
            } else {
                texts(old(self).aliases@)
            },
    {
        if !is_concrete_alias(alias) {
            return;
        }
        let ghost known = texts(self.aliases@);
        let mut k: usize = 0;
        while k < self.aliases.len()
            invariant
                k <= self.aliases.len(),
                known == texts(self.aliases@),
                forall|m: int| 0 <= m < k ==> text::lower_seq(#[trigger] known[m]) != text::lower_seq(alias@),
            decreases self.aliases.len() - k,
        {
            if eq_ignore_ascii_case(self.aliases[k].as_str(), alias) {
                assert(text::lower_seq(known[k as int]) == text::lower_seq(alias@));
                return;
            }
            k = k + 1;
        }
        let ghost before = self.aliases@;
        self.aliases.push(owned(alias));
        assert(texts(self.aliases@) =~= texts(before).push(alias@));
    }

    /// Scans one line of a configuration file in `context`; returns the context after it
    /// and the `Include` values to read before the next line.
    pub fn scan_line(&mut self, context: ConfigContext, line: &str) -> (r: (ConfigContext, Vec<String>))
        requires
            old(self).warnings < usize::MAX,
        ensures
            scan_post(*old(self), context, line@, *final(self), r.0, texts(r.1@)),
            old(self).well_formed() ==> final(self).well_formed(),
    {
        let (keyword, arguments) = match parse_directive(line, &mut self.warnings) {
            Some(directive) => directive,
            None => return (context, Vec::new()),
        };
        if str_equal(keyword.as_str(), "host") {
            let ghost start = texts(self.aliases@);
            let ghost patterns = texts(arguments@);
            let mut k: usize = 0;
            while k < arguments.len()
                invariant
                    k <= arguments.len(),
                    patterns == texts(arguments@),
                    texts(self.aliases@) == aliases_after(start, patterns.take(k as int)),
                    self.home == old(self).home,
                    self.environment == old(self).environment,
                    self.visited == old(self).visited,
                    self.files_read == old(self).files_read,
                    self.warnings == old(self).warnings,
                    self.root_found == old(self).root_found,
                decreases arguments.len() - k,
            {
                assert(patterns.take(k + 1).drop_last() =~= patterns.take(k as int));
                assert(patterns.take(k + 1).last() == arguments@[k as int]@);
                self.add_alias(arguments[k].as_str());
                k = k + 1;
            }
            assert(patterns.take(arguments.len() as int) =~= patterns);
            proof {
                if old(self).well_formed() {
                    lemma_host_aliases_well_formed(texts(old(self).aliases@), patterns);
                }
            }
            return (ConfigContext::Host, Vec::new());
        }
        if str_equal(keyword.as_str(), "match") {
            return (ConfigContext::Match, Vec::new());
        }
        if str_equal(keyword.as_str(), "include") {
            if context == ConfigContext::Global {
                return (context, arguments);
            }
            self.warnings = self.warnings + 1;
            return (context, Vec::new());
        }
        (context, Vec::new())
    }

    /// The glob pattern an `Include` value names, or nothing (a warning) when it cannot be
    /// expanded.
    pub fn include_pattern(&mut self, value: &str) -> (r: Option<String>)
        requires
            old(self).warnings < usize::MAX,
        ensures
            match spec_expand_include(value@, old(self).home@, environment_view(old(self).environment@)) {
                None => r is None && warned(*old(self), *final(self)),
                Some(expanded) => *final(self) == *old(self) && text::opt_view(r) == Some(
                    include_pattern_of(expanded, old(self).home@),
                ),
            },
            old(self).well_formed() ==> final(self).well_formed(),
    {
        let expanded = match expand_include(value, self.home.as_str(), &self.environment) {
            Some(expanded) => expanded,
            None => {
                self.warnings = self.warnings + 1;
                return None;
            },
        };
        let e = chars_of(expanded.as_str());
        if e.len() > 0 && e[0] == '/' {
            return Some(expanded);
        }
        proof {
            reveal_strlit(".ssh");
        }
        let directory = std_path_join(self.home.as_str(), ".ssh");
        Some(std_path_join(directory.as_str(), expanded.as_str()))
    }

    /// The files an `Include` pattern matched, sorted as paths; every entry that could not
    /// be read is a warning.
    pub fn include_paths(&mut self, matches: Vec<Option<String>>) -> (r: Vec<String>)
        requires
            old(self).warnings + matches@.len() <= usize::MAX,
        ensures
            *final(self) == (DiscoveryBuilder {
                warnings: (old(self).warnings + unreadable_count(matches@)) as usize,
                ..*old(self)
            }),
            texts(r@) == fspath::paths_sorted(readable(matches@)),
            old(self).well_formed() ==> final(self).well_formed(),
    {
        let ghost start = self.warnings;
        let mut found: Vec<String> = Vec::new();
        let mut k: usize = 0;
        while k < matches.len()
            invariant
                k <= matches.len(),
                start + matches@.len() <= usize::MAX,
                self.warnings == start + unreadable_count(matches@.take(k as int)),
                unreadable_count(matches@.take(k as int)) <= k,
                texts(found@) == readable(matches@.take(k as int)),
                self.home == old(self).home,
                self.environment == old(self).environment,
                self.aliases == old(self).aliases,
                self.visited == old(self).visited,
                self.files_read == old(self).files_read,
                self.root_found == old(self).root_found,
            decreases matches.len() - k,
        {
            assert(matches@.take(k + 1).drop_last() =~= matches@.take(k as int));
            assert(matches@.take(k + 1).last() == matches@[k as int]);
            match &matches[k] {
                Some(path) => {
                    let ghost before = found@;
                    found.push(path.clone());
                    assert(texts(found@) =~= texts(before).push(path@));
                },
                None => {
                    self.warnings = self.warnings + 1;
                },
            }
            k = k + 1;
        }
        assert(matches@.take(matches.len() as int) =~= matches@);
        std_sort_paths(found)
    }

    /// The discovery: the aliases ordered by their ASCII-lowercase text.
    pub fn finish(self) -> (r: OpenSshDiscovery)
        ensures
            order::is_listing_sorted(r.aliases@),
            r.aliases@.to_multiset() == self.aliases@.to_multiset(),
            order::keeps_tie_order(self.aliases@, r.aliases@),
            r.files_read == self.files_read,
            r.warnings == self.warnings,
            r.root_found == self.root_found,
    {
        OpenSshDiscovery {
            aliases: sort_listing(self.aliases),
            files_read: self.files_read,
            warnings: self.warnings,
            root_found: self.root_found,
        }
    }
}

// ---------------------------------------------------------------------------
// Laws of discovery
// ---------------------------------------------------------------------------
/// Adding `Host` patterns keeps the aliases already found, with their spelling, and adds
/// only concrete aliases that were not known up to ASCII case; so aliases stay unique.
pub proof fn law_host_lines_extend_aliases(aliases: Seq<Seq<char>>, patterns: Seq<Seq<char>>)
    requires
        aliases_unique(aliases),
    ensures
        aliases_after(aliases, patterns).len() >= aliases.len(),
        aliases_after(aliases, patterns).take(aliases.len() as int) == aliases,
        aliases_unique(aliases_after(aliases, patterns)),
        forall|i: int|
            aliases.len() <= i < aliases_after(aliases, patterns).len() ==> spec_is_concrete_alias(
                #[trigger] aliases_after(aliases, patterns)[i],
            ),
    decreases patterns.len(),
{
    if patterns.len() > 0 {
        law_host_lines_extend_aliases(aliases, patterns.drop_last());
        let before = aliases_after(aliases, patterns.drop_last());
        let p = patterns.last();
        if spec_is_concrete_alias(p) && !has_alias(before, p) {
            let after = before.push(p);
            assert(after.take(aliases.len() as int) =~= before.take(aliases.len() as int));
            assert forall|i: int, j: int| 0 <= i < j < after.len() implies text::lower_seq(
                #[trigger] after[i],
            ) != text::lower_seq(#[trigger] after[j]) by {
                if j == before.len() {
                    assert(after[i] == before[i]);
                } else {
                    assert(after[i] == before[i] && after[j] == before[j]);
                }
            }
            assert forall|i: int| aliases.len() <= i < after.len() implies spec_is_concrete_alias(
                #[trigger] after[i],
            ) by {
                if i < before.len() {
                    assert(after[i] == before[i]);
                }
            }
        }
    } else {
        assert(aliases.take(aliases.len() as int) =~= aliases);
    }
}

/// Host patterns added to unique concrete aliases leave them unique and concrete.
proof fn lemma_host_aliases_well_formed(aliases: Seq<Seq<char>>, patterns: Seq<Seq<char>>)
    requires
        aliases_unique(aliases),
        forall|i: int| 0 <= i < aliases.len() ==> spec_is_concrete_alias(#[trigger] aliases[i]),
    ensures
        aliases_unique(aliases_after(aliases, patterns)),
        forall|i: int|
            0 <= i < aliases_after(aliases, patterns).len() ==> spec_is_concrete_alias(
                #[trigger] aliases_after(aliases, patterns)[i],
            ),
{
    law_host_lines_extend_aliases(aliases, patterns);
    let after = aliases_after(aliases, patterns);
    assert forall|i: int| 0 <= i < after.len() implies spec_is_concrete_alias(#[trigger] after[i]) by {
        if i < aliases.len() {
            assert(after[i] == after.take(aliases.len() as int)[i]);
        }
    }
}

/// Scanning a line never makes two aliases equal up to ASCII case.
pub proof fn law_scan_keeps_aliases_unique(
    a: DiscoveryBuilder,
    context: ConfigContext,
    line: Seq<char>,
    b: DiscoveryBuilder,
    next: ConfigContext,
    includes: Seq<Seq<char>>,
)
    requires
        aliases_unique(texts(a.aliases@)),
        scan_post(a, context, line, b, next, includes),
    ensures
        aliases_unique(texts(b.aliases@)),
{
    match spec_split_words(line) {
        None => {},
        Some(words) => match spec_directive(words) {
            None => {},
            Some((keyword, arguments)) => {
                if keyword == "host"@ {
                    law_host_lines_extend_aliases(texts(a.aliases@), arguments);
                }
            },
        },
    }
}

/// A file is read at most once: once admitted, the same identity is never admitted again.
pub proof fn law_files_are_read_once(
    a: DiscoveryBuilder,
    identity: Seq<char>,
    b: DiscoveryBuilder,
    c: DiscoveryBuilder,
    again: bool,
)
    requires
        begin_post(a, identity, b, true),
        begin_post(b, identity, c, again),
    ensures
        !again,
{
    let n = a.visited@.len() as int;
    assert(texts(b.visited@).len() == n + 1);
    assert(b.visited@.len() == texts(b.visited@).len());
    assert(texts(b.visited@)[n] == identity);
    assert(b.visited@[n]@ == identity);
}

/// The home directory a configuration file implies: the parent of the `.ssh` directory
/// that holds it, or else the directory that holds it (`.` when it has none).
pub open spec fn spec_config_home(config: Seq<char>) -> Seq<char> {
    let parent = match fspath::path_parent(config) {
        Some(parent) => parent,
        None => "."@,
    };
    if fspath::path_file_name(parent) == Some(".ssh"@) {
        match fspath::path_parent(parent) {
            Some(home) => home,
            None => parent,
        }
    } else {
        parent
    }
}

pub fn config_home(config: &str) -> (r: String)
    ensures
        r@ == spec_config_home(config@),
{
    let parent = match std_path_parent(config) {
        Some(parent) => parent,
        None => owned("."),
    };
    let is_ssh_directory = match std_path_file_name(parent.as_str()) {
        Some(name) => str_equal(name.as_str(), ".ssh"),
        None => false,
    };
    if is_ssh_directory {
        match std_path_parent(parent.as_str()) {
            Some(home) => home,
            None => parent,
        }
    } else {
        parent
    }
}

/// An `Include` value that is an absolute path is the pattern itself; any other value is
/// resolved inside the `.ssh` directory of the home directory.
pub proof fn law_includes_resolve_in_the_ssh_directory(expanded: Seq<char>, home: Seq<char>)
    ensures
        (expanded.len() > 0 && expanded[0] == '/') ==> include_pattern_of(expanded, home) == expanded,
        !(expanded.len() > 0 && expanded[0] == '/') ==> include_pattern_of(expanded, home) == fspath::path_join(
            fspath::path_join(home, ".ssh"@),
            expanded,
        ),
{
}

} // verus!
