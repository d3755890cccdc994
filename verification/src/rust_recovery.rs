//! Text edits the runtime makes to Rust sources when validation names a
//! missing module declaration or a private type in a public API, and the
//! deterministic prefix-helper refactor.
use crate::text::{
    append_chars, chars_eq, chars_of, is_ascii_digit, is_ascii_letter, lines_chars,
    starts_with_seq, str_eq, string_from_chars, text_lines, trim_end, trim_end_chars,
    trimmed, trimmed_chars, chars_starts_with, to_owned_string, char_count, chars_contains,
    chars_ends_with, contains_seq, copy_chars, count_char, ends_with_seq, join_chars, join_seqs,
    leading_ws, lemma_leading_ws_bound, replace_once, find_from, find_from_chars, lemma_find_from,
    replace_all, replace_all_chars, char_is_whitespace, unicode_whitespace, lines_from,
    lemma_lines_suffix, lemma_last_line, trailing_ws, occurs_at, lowercase_of, to_lowercase, replace_once_chars, trim_start, trim_start_chars,
};
use vstd::prelude::*;

verus! {

/// A plain Rust identifier: a letter or `_`, then letters, digits and `_`.
pub open spec fn safe_identifier(s: Seq<char>) -> bool {
    &&& s.len() > 0
    &&& (s[0] == '_' || is_ascii_letter(s[0]))
    &&& forall|i: int| 1 <= i < s.len() ==> (#[trigger] s[i] == '_' || is_ascii_letter(s[i]) || is_ascii_digit(s[i]))
}

/// Whether `value` is a plain Rust identifier.
pub fn rust_identifier_is_safe(value: &str) -> (r: bool)
    ensures
        r == safe_identifier(value@),
{
    let c = chars_of(value);
    if c.len() == 0 {
        return false;
    }
    let first = c[0];
    if !(first == '_' || ('a' <= first && first <= 'z') || ('A' <= first && first <= 'Z')) {
        return false;
    }
    let mut i: usize = 1;
    while i < c.len()
        invariant
            1 <= i <= c@.len(),
            c@ == value@,
            forall|k: int| 1 <= k < i ==> (#[trigger] c@[k] == '_' || is_ascii_letter(c@[k]) || is_ascii_digit(c@[k])),
        decreases c@.len() - i,
    {
        let ch = c[i];
        if !(ch == '_' || ('a' <= ch && ch <= 'z') || ('A' <= ch && ch <= 'Z') || ('0' <= ch && ch <= '9')) {
            return false;
        }
        i = i + 1;
    }
    true
}

/// The Rust keywords an evidence quote may hold that name no type.
pub open spec fn keyword_list() -> Seq<Seq<char>> {
    seq![
        "as"@, "crate"@, "enum"@, "fn"@, "impl"@, "mod"@, "pub"@, "self"@, "struct"@, "super"@,
        "trait"@, "type"@, "use"@, "where"@,
    ]
}

/// The keywords that are never taken for a type name in evidence: as,
/// crate, enum, fn, impl, mod, pub, self, struct, super, trait, type, use
/// and where.
pub proof fn law_keywords()
    ensures
        keyword_list().len() == 14,
        keyword_list() == seq![
            "as"@, "crate"@, "enum"@, "fn"@, "impl"@, "mod"@, "pub"@, "self"@, "struct"@,
            "super"@, "trait"@, "type"@, "use"@, "where"@,
        ],
{
}

/// The Rust keywords an evidence quote may hold that name no type.
pub fn rust_keywords() -> (r: Vec<&'static str>)
    ensures
        r@.map_values(|s: &str| s@) == keyword_list(),
{
    let r = vec![
        "as", "crate", "enum", "fn", "impl", "mod", "pub", "self", "struct", "super", "trait",
        "type", "use", "where",
    ];
    assert(r@.map_values(|s: &str| s@) =~= keyword_list());
    r
}

/// The index of the first `c` in `s` at or after `from`, or -1.
pub open spec fn char_pos(s: Seq<char>, c: char, from: int) -> int
    decreases s.len() - from,
{
    if from < 0 || from >= s.len() {
        -1
    } else if s[from] == c {
        from
    } else {
        char_pos(s, c, from + 1)
    }
}

pub proof fn lemma_char_pos(s: Seq<char>, c: char, from: int)
    requires
        0 <= from,
    ensures
        char_pos(s, c, from) == -1 || (from <= char_pos(s, c, from) < s.len() && s[char_pos(s, c, from)] == c),
        char_pos(s, c, from) == -1 ==> forall|k: int| from <= k < s.len() ==> s[k] != c,
        char_pos(s, c, from) >= 0 ==> forall|k: int| from <= k < char_pos(s, c, from) ==> s[k] != c,
    decreases s.len() - from,
{
    if from < s.len() && s[from] != c {
        lemma_char_pos(s, c, from + 1);
    }
}

/// The texts between successive pairs of backticks, from index `from` on.
pub open spec fn backticks_from(s: Seq<char>, from: int) -> Seq<Seq<char>>
    decreases s.len() - from,
{
    let i = char_pos(s, '`', from);
    if from < 0 || from > s.len() || i < 0 {
        seq![]
    } else {
        let j = char_pos(s, '`', i + 1);
        if j < 0 || j <= i {
            seq![]
        } else {
            proof {
                lemma_char_pos(s, '`', from);
                lemma_char_pos(s, '`', i + 1);
            }
            seq![s.subrange(i + 1, j)] + backticks_from(s, j + 1)
        }
    }
}

/// The quoted segments of a message: the text between each successive
/// pair of backticks.
pub fn backtick_segments(input: &str) -> (r: Vec<String>)
    ensures
        r@.map_values(|t: String| t@) == backticks_from(input@, 0),
{
    let s = chars_of(input);
    let mut out: Vec<String> = Vec::new();
    let mut from: usize = 0;
    assert(out@.map_values(|t: String| t@) =~= Seq::<Seq<char>>::empty());
    while from <= s.len()
        invariant
            from <= s@.len() + 1,
            s@ == input@,
            out@.map_values(|t: String| t@) + backticks_from(s@, from as int) == backticks_from(s@, 0),
        decreases s@.len() + 1 - from,
    {
        let mut i = from;
        while i < s.len() && s[i] != '`'
            invariant
                from <= i <= s@.len(),
                forall|k: int| from <= k < i ==> s@[k] != '`',
            decreases s@.len() - i,
        {
            i = i + 1;
        }
        proof {
            lemma_char_pos(s@, '`', from as int);
        }
        if i == s.len() {
            assert(char_pos(s@, '`', from as int) == -1);
            assert(backticks_from(s@, from as int) == Seq::<Seq<char>>::empty());
            assert(out@.map_values(|t: String| t@) + Seq::<Seq<char>>::empty() =~= out@.map_values(|t: String| t@));
            return out;
        }
        assert(char_pos(s@, '`', from as int) == i);
        let mut j = i + 1;
        while j < s.len() && s[j] != '`'
            invariant
                i + 1 <= j <= s@.len(),
                forall|k: int| i + 1 <= k < j ==> s@[k] != '`',
            decreases s@.len() - j,
        {
            j = j + 1;
        }
        proof {
            lemma_char_pos(s@, '`', i + 1);
        }
        if j == s.len() {
            assert(char_pos(s@, '`', i + 1) == -1);
            assert(backticks_from(s@, from as int) == Seq::<Seq<char>>::empty());
            assert(out@.map_values(|t: String| t@) + Seq::<Seq<char>>::empty() =~= out@.map_values(|t: String| t@));
            return out;
        }
        assert(char_pos(s@, '`', i + 1) == j);
        let mut seg: Vec<char> = Vec::new();
        let mut k = i + 1;
        while k < j
            invariant
                i + 1 <= k <= j,
                j < s@.len(),
                seg@ == s@.subrange(i + 1, k as int),
            decreases j - k,
        {
            seg.push(s[k]);
            k = k + 1;
            assert(seg@ =~= s@.subrange(i + 1, k as int));
        }
        let ghost before = out@.map_values(|t: String| t@);
        out.push(string_from_chars(&seg));
        assert(out@.map_values(|t: String| t@) =~= before.push(s@.subrange(i + 1, j as int)));
        assert(backticks_from(s@, from as int) == seq![s@.subrange(i + 1, j as int)] + backticks_from(s@, j + 1));
        assert(before + backticks_from(s@, from as int) =~= before.push(s@.subrange(i + 1, j as int)) + backticks_from(s@, j + 1));
        from = j + 1;
    }
    out
}

/// The first quoted segment that is a plain identifier and no keyword.
pub open spec fn first_symbol(segs: Seq<Seq<char>>) -> Option<Seq<char>>
    decreases segs.len(),
{
    if segs.len() == 0 {
        None
    } else if safe_identifier(segs[0]) && !keyword_list().contains(segs[0]) {
        Some(segs[0])
    } else {
        first_symbol(segs.drop_first())
    }
}

fn is_rust_keyword(word: &str) -> (r: bool)
    ensures
        r == keyword_list().contains(word@),
{
    let kws = rust_keywords();
    let mut i: usize = 0;
    while i < kws.len()
        invariant
            i <= kws@.len(),
            kws@.map_values(|s: &str| s@) == keyword_list(),
            forall|k: int| 0 <= k < i ==> keyword_list()[k] != word@,
        decreases kws.len() - i,
    {
        if str_eq(kws[i], word) {
            assert(keyword_list()[i as int] == word@);
            return true;
        }
        i = i + 1;
    }
    proof {
        if keyword_list().contains(word@) {
            let k = choose|k: int| 0 <= k < keyword_list().len() && keyword_list()[k] == word@;
            assert(keyword_list()[k] != word@);
        }
    }
    false
}

/// The type a validation message names in backticks: the first quoted
/// segment that is a plain identifier and not a keyword.
pub fn rust_private_symbol_from_evidence(reason: &str) -> (r: Option<String>)
    ensures
        match r {
            Some(s) => first_symbol(backticks_from(reason@, 0)) == Some(s@),
            None => first_symbol(backticks_from(reason@, 0)) is None,
        },
{
    let segs = backtick_segments(reason);
    let ghost all = backticks_from(reason@, 0);
    assert(all.subrange(0, all.len() as int) =~= all);
    let mut i: usize = 0;
    while i < segs.len()
        invariant
            i <= segs@.len(),
            segs@.map_values(|t: String| t@) == all,
            all == backticks_from(reason@, 0),
            first_symbol(all) == first_symbol(all.subrange(i as int, all.len() as int)),
        decreases segs.len() - i,
    {
        let seg = &segs[i];
        let ghost rest = all.subrange(i as int, all.len() as int);
        assert(rest[0] == seg@);
        assert(rest.drop_first() =~= all.subrange(i + 1, all.len() as int));
        if rust_identifier_is_safe(seg.as_str()) && !is_rust_keyword(seg.as_str()) {
            assert(rest.len() > 0);
            assert(first_symbol(rest) == Some(seg@));
            return Some(to_owned_string(seg.as_str()));
        }
        i = i + 1;
    }
    assert(all.subrange(i as int, all.len() as int) =~= Seq::<Seq<char>>::empty());
    None
}

/// A line that declares module `name` in one of the three plain forms.
pub open spec fn declares_module(line: Seq<char>, name: Seq<char>) -> bool {
    let t = trimmed(line);
    ||| t == "mod "@ + name + ";"@
    ||| t == "pub mod "@ + name + ";"@
    ||| t == "pub(crate) mod "@ + name + ";"@
}

fn concat3(a: &str, b: &str, c: &str) -> (r: Vec<char>)
    ensures
        r@ == a@ + b@ + c@,
{
    let mut out = chars_of(a);
    let bc = chars_of(b);
    append_chars(&mut out, &bc);
    let cc = chars_of(c);
    append_chars(&mut out, &cc);
    out
}

/// Whether some line of `content`, trimmed, is `mod name;`, `pub mod
/// name;` or `pub(crate) mod name;`.
pub fn rust_module_declared(content: &str, module_name: &str) -> (r: bool)
    ensures
        r == exists|i: int| 0 <= i < text_lines(content@).len() && declares_module(
            #[trigger] text_lines(content@)[i],
            module_name@,
        ),
{
    let c = chars_of(content);
    let lines = lines_chars(&c);
    let plain = concat3("mod ", module_name, ";");
    let public = concat3("pub mod ", module_name, ";");
    let crate_wide = concat3("pub(crate) mod ", module_name, ";");
    let ghost ls = text_lines(content@);
    let mut i: usize = 0;
    while i < lines.len()
        invariant
            i <= lines@.len(),
            c@ == content@,
            lines@.map_values(|t: Vec<char>| t@) == ls,
            ls == text_lines(content@),
            plain@ == "mod "@ + module_name@ + ";"@,
            public@ == "pub mod "@ + module_name@ + ";"@,
            crate_wide@ == "pub(crate) mod "@ + module_name@ + ";"@,
            forall|k: int| 0 <= k < i ==> !declares_module(#[trigger] ls[k], module_name@),
        decreases lines.len() - i,
    {
        let t = trimmed_chars(&lines[i]);
        assert(ls[i as int] == lines@[i as int]@);
        if chars_eq(&t, &plain) || chars_eq(&t, &public) || chars_eq(&t, &crate_wide) {
            assert(declares_module(ls[i as int], module_name@));
            return true;
        }
        i = i + 1;
    }
    false
}

/// `content` with trailing whitespace dropped, a blank line when anything
/// is left, then `pub mod name;` and a newline.
pub open spec fn appended_module_declaration(content: Seq<char>, name: Seq<char>) -> Seq<char> {
    let base = trim_end(content);
    let sep = if base.len() > 0 { "\n\n"@ } else { Seq::<char>::empty() };
    base + sep + "pub mod "@ + name + ";"@ + "\n"@
}

/// Appends `pub mod name;` to a crate root or parent module.
pub fn append_rust_module_declaration(content: &str, module_name: &str) -> (r: String)
    ensures
        r@ == appended_module_declaration(content@, module_name@),
        !module_name@.contains('\n') ==> exists|i: int|
            0 <= i < text_lines(r@).len() && declares_module(
                #[trigger] text_lines(r@)[i],
                module_name@,
            ),
{
    let c = chars_of(content);
    let mut out = trim_end_chars(&c);
    let ghost base = out@;
    if out.len() > 0 {
        let sep = chars_of("\n\n");
        append_chars(&mut out, &sep);
    }
    let decl = concat3("pub mod ", module_name, ";");
    append_chars(&mut out, &decl);
    let nl = chars_of("\n");
    append_chars(&mut out, &nl);
    let ghost sep = if base.len() > 0 { "\n\n"@ } else { Seq::<char>::empty() };
    assert(out@ =~= base + sep + "pub mod "@ + module_name@ + ";"@ + "\n"@);
    let p_space = char_is_whitespace('p');
    let semi_space = char_is_whitespace(';');
    proof {
        if !module_name@.contains('\n') {
            lemma_declaration_line_found(base, sep, module_name@, out@);
        }
    }
    string_from_chars(&out)
}

proof fn lemma_declaration_line_found(base: Seq<char>, sep: Seq<char>, name: Seq<char>, s: Seq<char>)
    requires
        !name.contains('\n'),
        !unicode_whitespace('p'),
        !unicode_whitespace(';'),
        sep == (if base.len() > 0 { "\n\n"@ } else { Seq::<char>::empty() }),
        s == base + sep + "pub mod "@ + name + ";"@ + "\n"@,
    ensures
        exists|i: int| 0 <= i < text_lines(s).len() && declares_module(#[trigger] text_lines(s)[i], name),
{
    reveal_strlit("pub mod ");
    reveal_strlit(";");
    reveal_strlit("\n\n");
    reveal_strlit("\n");
    let line = "pub mod "@ + name + ";"@;
    let k = (base + sep).len() as int;
    assert(s =~= (base + sep) + line.push('\n'));
    assert(s.subrange(k, s.len() as int) =~= line.push('\n'));
    assert(!line.contains('\n')) by {
        if line.contains('\n') {
            let q = choose|q: int| 0 <= q < line.len() && line[q] == '\n';
            if 8 <= q < 8 + name.len() {
                assert(name[q - 8] == '\n');
                assert(name.contains('\n'));
            }
        }
    }
    assert(line.last() == ';');
    lemma_last_line(s, k, line, k);
    assert(line.subrange(0, 0) =~= Seq::<char>::empty());
    let b = lines_from(s, k, seq![]);
    assert(b == seq![line]);
    let ls = text_lines(s);
    if k == 0 {
        assert(ls == b);
    } else {
        assert(s[k - 1] == '\n');
        lemma_lines_suffix(s, 0, seq![], k);
        assert(ls.subrange(ls.len() - 1, ls.len() as int) == b);
        assert(ls[ls.len() - 1] == ls.subrange(ls.len() - 1, ls.len() as int)[0]);
        assert(ls[ls.len() - 1] == line);
    }
    assert(line[0] == 'p');
    assert(leading_ws(line, 0) == 0);
    assert(trailing_ws(line, line.len() as int) == 0);
    assert(trimmed(line) =~= line);
    assert(declares_module(ls[ls.len() - 1], name));
}

/// A struct body line `name: Type` whose field name is a plain identifier
/// without `pub`.
pub open spec fn field_needs_pub(line: Seq<char>) -> bool {
    let i = char_pos(line, ':', 0);
    i >= 0 && {
        let name = trimmed(line.subrange(0, i));
        !starts_with_seq(name, "pub "@) && safe_identifier(name)
    }
}

/// Whether a trimmed struct body line declares a named field that still
/// lacks `pub`.
pub fn rust_named_field_line_needs_pub(trimmed_line: &str) -> (r: bool)
    ensures
        r == field_needs_pub(trimmed_line@),
{
    let c = chars_of(trimmed_line);
    let mut i: usize = 0;
    while i < c.len() && c[i] != ':'
        invariant
            i <= c@.len(),
            c@ == trimmed_line@,
            char_pos(c@, ':', 0) == char_pos(c@, ':', i as int),
        decreases c.len() - i,
    {
        i = i + 1;
    }
    if i == c.len() {
        return false;
    }
    let mut head: Vec<char> = Vec::new();
    let mut k: usize = 0;
    while k < i
        invariant
            k <= i < c@.len(),
            head@ == c@.subrange(0, k as int),
        decreases i - k,
    {
        head.push(c[k]);
        k = k + 1;
        assert(head@ =~= c@.subrange(0, k as int));
    }
    let name = trimmed_chars(&head);
    let pub_prefix = chars_of("pub ");
    if chars_starts_with(&name, &pub_prefix) {
        return false;
    }
    let name_text = string_from_chars(&name);
    rust_identifier_is_safe(name_text.as_str())
}

/// The brace depth after a line: its `{` added and its `}` taken away,
/// both saturating in `usize`.
pub open spec fn brace_depth_after(depth: nat, line: Seq<char>) -> nat {
    let opens = char_count(line, '{');
    let closes = char_count(line, '}');
    let a = if depth + opens > usize::MAX { usize::MAX as nat } else { depth + opens };
    if a < closes {
        0
    } else {
        (a - closes) as nat
    }
}

/// The lines from index `i` on, after the line that starts with `header`
/// opens the target struct: each field line directly in its body that
/// lacks `pub` gets it after its indentation.  `inside` and `depth` are
/// the state the scan carries from line to line.
pub open spec fn publish_fields_from(
    lines: Seq<Seq<char>>,
    header: Seq<char>,
    i: int,
    inside: bool,
    depth: nat,
) -> Seq<Seq<char>>
    decreases lines.len() - i,
{
    if i < 0 || i >= lines.len() {
        seq![]
    } else {
        let line = lines[i];
        let t = trim_start(line);
        let nd = brace_depth_after(depth, line);
        let closes = char_count(line, '}');
        if !inside && starts_with_seq(t, header) {
            seq![line] + publish_fields_from(lines, header, i + 1, !(nd == 0 && closes > 0), nd)
        } else if inside && depth == 1 && field_needs_pub(t) {
            seq![line.subrange(0, leading_ws(line, 0)) + "pub "@ + t] + publish_fields_from(
                lines,
                header,
                i + 1,
                nd != 0,
                nd,
            )
        } else if inside {
            seq![line] + publish_fields_from(lines, header, i + 1, !(nd == 0 && closes > 0), nd)
        } else {
            seq![line] + publish_fields_from(lines, header, i + 1, false, depth)
        }
    }
}

/// `content` with `struct symbol` made `pub struct symbol` (its first
/// occurrence) and the named fields directly in that struct's body made
/// `pub`; lines joined with `\n`, and a final `\n` kept.
pub open spec fn struct_fields_published(content: Seq<char>, symbol: Seq<char>) -> Seq<char> {
    let marker = "struct "@ + symbol;
    let updated = replace_once(content, marker, "pub "@ + marker);
    let out = publish_fields_from(text_lines(updated), "pub "@ + marker, 0, false, 0);
    join_seqs(out, "\n"@) + (if ends_with_seq(updated, "\n"@) {
        "\n"@
    } else {
        Seq::<char>::empty()
    })
}

fn prefixed(a: &str, b: &[char]) -> (r: Vec<char>)
    ensures
        r@ == a@ + b@,
{
    let mut out = chars_of(a);
    append_chars(&mut out, b);
    out
}

/// Makes `struct symbol` public together with the named fields of its body.
pub fn make_struct_and_named_fields_public(content: &str, symbol: &str) -> (r: String)
    ensures
        r@ == struct_fields_published(content@, symbol@),
{
    let c = chars_of(content);
    let sym = chars_of(symbol);
    let marker = prefixed("struct ", &sym);
    let header = prefixed("pub ", &marker);
    let updated = replace_once_chars(&c, &marker, &header);
    let lines = lines_chars(&updated);
    let ghost ls = text_lines(updated@);
    let ghost goal = publish_fields_from(ls, header@, 0, false, 0);
    let mut out_lines: Vec<Vec<char>> = Vec::new();
    let mut inside = false;
    let mut depth: usize = 0;
    let mut i: usize = 0;
    assert(out_lines@.map_values(|t: Vec<char>| t@) =~= Seq::<Seq<char>>::empty());
    while i < lines.len()
        invariant
            i <= lines@.len(),
            lines@.map_values(|t: Vec<char>| t@) == ls,
            goal == publish_fields_from(ls, header@, 0, false, 0),
            out_lines@.map_values(|t: Vec<char>| t@) + publish_fields_from(
                ls,
                header@,
                i as int,
                inside,
                depth as nat,
            ) == goal,
        decreases lines.len() - i,
    {
        let line = &lines[i];
        assert(ls[i as int] == line@);
        let t = trim_start_chars(line);
        let opens = count_char(line, '{');
        let closes = count_char(line, '}');
        let nd = depth.saturating_add(opens).saturating_sub(closes);
        assert(nd == brace_depth_after(depth as nat, line@));
        let ghost before = out_lines@.map_values(|t: Vec<char>| t@);
        let ghost old_inside = inside;
        let ghost old_depth = depth;
        let ghost next: Seq<char>;
        let t_text = string_from_chars(&t);
        if !inside && chars_starts_with(&t, &header) {
            out_lines.push(copy_chars(line));
            proof { next = line@; }
            inside = !(nd == 0 && closes > 0);
            depth = nd;
        } else if inside && depth == 1 && rust_named_field_line_needs_pub(t_text.as_str()) {
            proof {
                lemma_leading_ws_bound(line@, 0);
            }
            let indent_len = line.len() - t.len();
            let mut new_line: Vec<char> = Vec::new();
            let mut k: usize = 0;
            while k < indent_len
                invariant
                    k <= indent_len <= line@.len(),
                    new_line@ == line@.subrange(0, k as int),
                decreases indent_len - k,
            {
                new_line.push(line[k]);
                k = k + 1;
                assert(new_line@ =~= line@.subrange(0, k as int));
            }
            let pub_word = chars_of("pub ");
            append_chars(&mut new_line, &pub_word);
            append_chars(&mut new_line, &t);
            proof { next = new_line@; }
            assert(next == line@.subrange(0, leading_ws(line@, 0)) + "pub "@ + trim_start(line@));
            out_lines.push(new_line);
            depth = nd;
            inside = nd != 0;
        } else if inside {
            out_lines.push(copy_chars(line));
            proof { next = line@; }
            inside = !(nd == 0 && closes > 0);
            depth = nd;
        } else {
            out_lines.push(copy_chars(line));
            proof { next = line@; }
        }
        assert(out_lines@.map_values(|t: Vec<char>| t@) =~= before.push(next));
        assert(publish_fields_from(ls, header@, i as int, old_inside, old_depth as nat) == seq![next]
            + publish_fields_from(ls, header@, i + 1, inside, depth as nat));
        assert(before + (seq![next] + publish_fields_from(ls, header@, i + 1, inside, depth as nat))
            =~= before.push(next) + publish_fields_from(ls, header@, i + 1, inside, depth as nat));
        i = i + 1;
    }
    let nl = chars_of("\n");
    let mut joined = join_chars(&out_lines, &nl);
    assert(publish_fields_from(ls, header@, i as int, inside, depth as nat) =~= Seq::<Seq<char>>::empty());
    assert(out_lines@.map_values(|t: Vec<char>| t@) =~= goal);
    if chars_ends_with(&updated, &nl) {
        append_chars(&mut joined, &nl);
    }
    string_from_chars(&joined)
}

/// What making `symbol` public gives: nothing when a `pub struct`, `pub
/// enum` or `pub trait` of that name is already there; else the struct
/// and its fields made public, or the first enum or trait declaration.
pub open spec fn type_made_public(content: Seq<char>, symbol: Seq<char>) -> Option<Seq<char>> {
    let sm = "struct "@ + symbol;
    let em = "enum "@ + symbol;
    let tm = "trait "@ + symbol;
    if contains_seq(content, "pub "@ + sm) || contains_seq(content, "pub "@ + em) || contains_seq(
        content,
        "pub "@ + tm,
    ) {
        None
    } else if contains_seq(content, sm) {
        Some(struct_fields_published(content, symbol))
    } else if contains_seq(content, em) {
        Some(replace_once(content, em, "pub "@ + em))
    } else if contains_seq(content, tm) {
        Some(replace_once(content, tm, "pub "@ + tm))
    } else {
        None
    }
}

/// Makes the struct, enum or trait `symbol` declared in `content` public.
pub fn make_rust_type_public(content: &str, symbol: &str) -> (r: Option<String>)
    ensures
        match r {
            Some(s) => type_made_public(content@, symbol@) == Some(s@),
            None => type_made_public(content@, symbol@) is None,
        },
{
    let c = chars_of(content);
    let sym = chars_of(symbol);
    let sm = prefixed("struct ", &sym);
    let em = prefixed("enum ", &sym);
    let tm = prefixed("trait ", &sym);
    let psm = prefixed("pub ", &sm);
    let pem = prefixed("pub ", &em);
    let ptm = prefixed("pub ", &tm);
    if chars_contains(&c, &psm) || chars_contains(&c, &pem) || chars_contains(&c, &ptm) {
        return None;
    }
    if chars_contains(&c, &sm) {
        return Some(make_struct_and_named_fields_public(content, symbol));
    }
    if chars_contains(&c, &em) {
        let out = replace_once_chars(&c, &em, &pem);
        return Some(string_from_chars(&out));
    }
    if chars_contains(&c, &tm) {
        let out = replace_once_chars(&c, &tm, &ptm);
        return Some(string_from_chars(&out));
    }
    None
}

/// A character allowed in a format prefix: ASCII letter, digit, `_`, `-`.
pub open spec fn prefix_char(c: char) -> bool {
    is_ascii_letter(c) || is_ascii_digit(c) || c == '_' || c == '-'
}

/// A non-empty run of prefix characters.
pub open spec fn format_prefix_ok(p: Seq<char>) -> bool {
    p.len() > 0 && forall|k: int| 0 <= k < p.len() ==> #[trigger] prefix_char(p[k])
}

/// The text that opens a prefix format call.
pub open spec fn prefix_marker() -> Seq<char> {
    "format!(\""@
}

/// The text that closes a prefix format call.
pub open spec fn prefix_suffix() -> Seq<char> {
    ":{}\", name)"@
}

/// Scanning `s` from `offset`: each text between an opening `m` and the
/// next closing `x` that is a valid prefix and not yet in `known` is
/// appended to `known`.
pub open spec fn prefix_literals_from(
    s: Seq<char>,
    m: Seq<char>,
    x: Seq<char>,
    offset: int,
    known: Seq<Seq<char>>,
) -> Seq<Seq<char>>
    decreases s.len() + 1 - offset,
{
    if m.len() == 0 || offset < 0 || offset > s.len() {
        known
    } else {
        let start = find_from(s, m, offset);
        if start < 0 {
            known
        } else {
            let ls = start + m.len();
            proof {
                lemma_find_from(s, m, offset);
                lemma_find_from(s, x, ls);
            }
            let end = find_from(s, x, ls);
            if end < 0 {
                prefix_literals_from(s, m, x, ls, known)
            } else {
                let p = s.subrange(ls, end);
                let next = if format_prefix_ok(p) && !known.contains(p) {
                    known.push(p)
                } else {
                    known
                };
                prefix_literals_from(s, m, x, end + x.len(), next)
            }
        }
    }
}

/// The distinct prefixes `P` of the `format!("P:{}", name)` calls in
/// `content`, in order of first appearance.
pub open spec fn prefix_literals(content: Seq<char>) -> Seq<Seq<char>> {
    prefix_literals_from(content, prefix_marker(), prefix_suffix(), 0, seq![])
}

fn seq_list_contains(known: &Vec<Vec<char>>, p: &[char]) -> (r: bool)
    ensures
        r == known@.map_values(|t: Vec<char>| t@).contains(p@),
{
    let ghost kv = known@.map_values(|t: Vec<char>| t@);
    let mut i: usize = 0;
    while i < known.len()
        invariant
            i <= known@.len(),
            kv == known@.map_values(|t: Vec<char>| t@),
            forall|k: int| 0 <= k < i ==> kv[k] != p@,
        decreases known.len() - i,
    {
        if chars_eq(&known[i], p) {
            assert(kv[i as int] == p@);
            return true;
        }
        i = i + 1;
    }
    proof {
        if kv.contains(p@) {
            let k = choose|k: int| 0 <= k < kv.len() && kv[k] == p@;
            assert(kv[k] != p@);
        }
    }
    false
}

/// Collects the prefixes of the `format!("P:{}", name)` calls in `content`.
pub fn extract_prefix_format_literals(content: &str) -> (r: Vec<String>)
    ensures
        r@.map_values(|t: String| t@) == prefix_literals(content@),
{
    let s = chars_of(content);
    let m = chars_of("format!(\"");
    let x = chars_of(":{}\", name)");
    proof {
        reveal_strlit("format!(\"");
    }
    assert(m@.len() > 0);
    let mut known: Vec<Vec<char>> = Vec::new();
    let mut offset: usize = 0;
    let ghost goal = prefix_literals(content@);
    assert(known@.map_values(|t: Vec<char>| t@) =~= Seq::<Seq<char>>::empty());
    loop
        invariant
            offset <= s@.len(),
            s@ == content@,
            m@ == prefix_marker(),
            x@ == prefix_suffix(),
            m@.len() > 0,
            goal == prefix_literals(content@),
            prefix_literals_from(s@, m@, x@, offset as int, known@.map_values(|t: Vec<char>| t@))
                == goal,
        ensures
            known@.map_values(|t: Vec<char>| t@) == goal,
        decreases s@.len() + 1 - offset,
    {
        let ghost kv = known@.map_values(|t: Vec<char>| t@);
        proof {
            lemma_find_from(s@, m@, offset as int);
        }
        let n = s.len();
        let start = match find_from_chars(&s, &m, offset) {
            None => {
                assert(prefix_literals_from(s@, m@, x@, offset as int, kv) == kv);
                break;
            },
            Some(i) => i,
        };
        assert(start + m@.len() <= n);
        let ls = start + m.len();
        proof {
            lemma_find_from(s@, x@, ls as int);
        }
        match find_from_chars(&s, &x, ls) {
            None => {
                offset = ls;
            },
            Some(end) => {
                let mut p: Vec<char> = Vec::new();
                let mut k: usize = ls;
                while k < end
                    invariant
                        ls <= k <= end,
                        end <= s@.len(),
                        p@ == s@.subrange(ls as int, k as int),
                    decreases end - k,
                {
                    p.push(s[k]);
                    k = k + 1;
                    assert(p@ =~= s@.subrange(ls as int, k as int));
                }
                let mut ok = p.len() > 0;
                let mut j: usize = 0;
                while j < p.len()
                    invariant
                        j <= p@.len(),
                        ok == (p@.len() > 0 && forall|q: int| 0 <= q < j ==> #[trigger] prefix_char(p@[q])),
                    decreases p.len() - j,
                {
                    let ch = p[j];
                    assert(prefix_char(p@[j as int]) == (('a' <= ch && ch <= 'z') || ('A' <= ch && ch <= 'Z')
                        || ('0' <= ch && ch <= '9') || ch == '_' || ch == '-'));
                    if !(('a' <= ch && ch <= 'z') || ('A' <= ch && ch <= 'Z') || ('0' <= ch && ch <= '9')
                        || ch == '_' || ch == '-') {
                        ok = false;
                    }
                    j = j + 1;
                }
                assert(ok == format_prefix_ok(p@));
                if ok && !seq_list_contains(&known, &p) {
                    known.push(p);
                    assert(known@.map_values(|t: Vec<char>| t@) =~= kv.push(s@.subrange(ls as int, end as int)));
                }
                assert(end + x@.len() <= n);
                offset = end + x.len();
            },
        }
    }
    let mut out: Vec<String> = Vec::new();
    let mut i: usize = 0;
    let ghost kv = known@.map_values(|t: Vec<char>| t@);
    while i < known.len()
        invariant
            i <= known@.len(),
            kv == known@.map_values(|t: Vec<char>| t@),
            out@.map_values(|t: String| t@) == kv.take(i as int),
        decreases known.len() - i,
    {
        assert(known@[i as int]@ == kv[i as int]);
        let ghost before = out@.map_values(|t: String| t@);
        let item = string_from_chars(&known[i]);
        out.push(item);
        assert(out@.map_values(|t: String| t@) =~= before.push(kv[i as int]));
        assert(kv.take(i + 1) =~= kv.take(i as int).push(kv[i as int]));
        i = i + 1;
    }
    assert(kv.take(known.len() as int) =~= kv);
    out
}

/// The call `format!("P:{}", name)` for prefix `P`.
pub open spec fn prefix_call(p: Seq<char>) -> Seq<char> {
    prefix_marker() + p + prefix_suffix()
}

/// The call `format_with_prefix("P", name)` for prefix `P`.
pub open spec fn helper_call(p: Seq<char>) -> Seq<char> {
    "format_with_prefix(\""@ + p + "\", name)"@
}

/// Every prefix call of each prefix in `ps`, in turn, replaced by the
/// helper call.
pub open spec fn replace_prefix_calls(s: Seq<char>, ps: Seq<Seq<char>>) -> Seq<char>
    decreases ps.len(),
{
    if ps.len() == 0 {
        s
    } else {
        replace_prefix_calls(replace_all(s, prefix_call(ps[0]), helper_call(ps[0])), ps.drop_first())
    }
}

/// The helper the refactor introduces.
pub open spec fn prefix_helper_text() -> Seq<char> {
    "fn format_with_prefix(prefix: &str, name: &str) -> String {\n    format!(\"{}:{}\", prefix, name)\n}\n\n"@
}

/// What the prefix-helper refactor gives: nothing when the helper exists
/// already, fewer than two prefixes are used, or no call changed; else the
/// calls replaced, the helper inserted before the first `pub fn` (or at the
/// start) and a final newline ensured.
pub open spec fn prefix_refactored(content: Seq<char>) -> Option<Seq<char>> {
    if contains_seq(content, "fn format_with_prefix("@) {
        None
    } else {
        let ps = prefix_literals(content);
        if ps.len() < 2 {
            None
        } else {
            let u = replace_prefix_calls(content, ps);
            if u == content {
                None
            } else {
                let found = find_from(u, "pub fn"@, 0);
                let at = if found < 0 { 0 } else { found };
                let ins = u.subrange(0, at) + prefix_helper_text() + u.subrange(at, u.len() as int);
                Some(if ends_with_seq(ins, "\n"@) { ins } else { ins.push('\n') })
            }
        }
    }
}

/// Replaces repeated `format!("P:{}", name)` calls by one shared helper.
pub fn deterministic_prefix_refactor(content: &str) -> (r: Option<String>)
    ensures
        match r {
            Some(s) => prefix_refactored(content@) == Some(s@),
            None => prefix_refactored(content@) is None,
        },
{
    let c = chars_of(content);
    let guard = chars_of("fn format_with_prefix(");
    if chars_contains(&c, &guard) {
        return None;
    }
    let prefixes = extract_prefix_format_literals(content);
    if prefixes.len() < 2 {
        return None;
    }
    let ghost ps = prefixes@.map_values(|t: String| t@);
    let mut updated = copy_chars(&c);
    let mut i: usize = 0;
    assert(ps.subrange(0, ps.len() as int) =~= ps);
    while i < prefixes.len()
        invariant
            i <= prefixes@.len(),
            ps == prefixes@.map_values(|t: String| t@),
            ps == prefix_literals(content@),
            c@ == content@,
            replace_prefix_calls(updated@, ps.subrange(i as int, ps.len() as int)) == replace_prefix_calls(
                content@,
                ps,
            ),
        decreases prefixes.len() - i,
    {
        let pc = chars_of(prefixes[i].as_str());
        let from = concat3("format!(\"", prefixes[i].as_str(), ":{}\", name)");
        let to = concat3("format_with_prefix(\"", prefixes[i].as_str(), "\", name)");
        assert(pc@ == ps[i as int]);
        let ghost rest = ps.subrange(i as int, ps.len() as int);
        assert(rest.drop_first() =~= ps.subrange(i + 1, ps.len() as int));
        updated = replace_all_chars(&updated, &from, &to);
        i = i + 1;
    }
    assert(ps.subrange(i as int, ps.len() as int) =~= Seq::<Seq<char>>::empty());
    if chars_eq(&updated, &c) {
        return None;
    }
    let ghost u = updated@;
    let pub_fn = chars_of("pub fn");
    let at: usize = match find_from_chars(&updated, &pub_fn, 0) {
        Some(k) => k,
        None => 0,
    };
    proof {
        lemma_find_from(u, "pub fn"@, 0);
    }
    let mut out: Vec<char> = Vec::new();
    let mut k: usize = 0;
    while k < at
        invariant
            k <= at <= updated@.len(),
            out@ == updated@.subrange(0, k as int),
        decreases at - k,
    {
        out.push(updated[k]);
        k = k + 1;
        assert(out@ =~= updated@.subrange(0, k as int));
    }
    let helper = chars_of(
        "fn format_with_prefix(prefix: &str, name: &str) -> String {\n    format!(\"{}:{}\", prefix, name)\n}\n\n",
    );
    append_chars(&mut out, &helper);
    let ghost base = out@;
    let mut k: usize = at;
    while k < updated.len()
        invariant
            at <= k <= updated@.len(),
            out@ == base + updated@.subrange(at as int, k as int),
        decreases updated.len() - k,
    {
        out.push(updated[k]);
        k = k + 1;
        assert(out@ =~= base + updated@.subrange(at as int, k as int));
    }
    let nl = chars_of("\n");
    if !chars_ends_with(&out, &nl) {
        out.push('\n');
    }
    Some(string_from_chars(&out))
}

/// Running the prefix-helper refactor on its own output changes nothing:
/// the helper it inserted stops a second run.
pub proof fn law_prefix_refactor_is_idempotent(content: Seq<char>)
    requires
        prefix_refactored(content) is Some,
    ensures
        prefix_refactored(prefix_refactored(content)->0) is None,
{
    reveal_strlit("fn format_with_prefix(");
    reveal_strlit(
        "fn format_with_prefix(prefix: &str, name: &str) -> String {\n    format!(\"{}:{}\", prefix, name)\n}\n\n",
    );
    let ps = prefix_literals(content);
    let u = replace_prefix_calls(content, ps);
    lemma_find_from(u, "pub fn"@, 0);
    let found = find_from(u, "pub fn"@, 0);
    let at = if found < 0 { 0 } else { found };
    let h = prefix_helper_text();
    let g = "fn format_with_prefix("@;
    let ins = u.subrange(0, at) + h + u.subrange(at, u.len() as int);
    assert(h.subrange(0, g.len() as int) =~= g);
    assert(ins.subrange(at, at + g.len()) =~= g);
    assert(occurs_at(ins, g, at));
    let out = if ends_with_seq(ins, "\n"@) { ins } else { ins.push('\n') };
    assert(out.subrange(at, at + g.len()) =~= g);
    assert(occurs_at(out, g, at));
    assert(contains_seq(out, g));
    assert(prefix_refactored(content) == Some(out));
}

proof fn lemma_replace_once_shows(s: Seq<char>, p: Seq<char>, r: Seq<char>)
    requires
        contains_seq(s, p),
    ensures
        contains_seq(replace_once(s, p, r), r),
{
    lemma_find_from(s, p, 0);
    let i = find_from(s, p, 0);
    if i < 0 {
        let q = choose|q: int| occurs_at(s, p, q);
        assert(!occurs_at(s, p, q));
    }
    let out = replace_once(s, p, r);
    assert(out.subrange(i, i + r.len()) =~= r);
    assert(occurs_at(out, r, i));
}

/// Once an enum or trait has been made public, a second attempt finds it
/// public already and changes nothing.
pub proof fn law_published_enum_or_trait_stays_public(content: Seq<char>, symbol: Seq<char>)
    requires
        type_made_public(content, symbol) is Some,
        !contains_seq(content, "struct "@ + symbol),
    ensures
        type_made_public(type_made_public(content, symbol)->0, symbol) is None,
{
    let em = "enum "@ + symbol;
    let tm = "trait "@ + symbol;
    if contains_seq(content, em) {
        lemma_replace_once_shows(content, em, "pub "@ + em);
    } else {
        lemma_replace_once_shows(content, tm, "pub "@ + tm);
    }
}

/// The file a compiler message points at: on the first line that, trimmed,
/// starts with `-->`, the text up to the first `:`, trimmed, when it names
/// a `.rs` file; later lines are tried when it does not.
pub open spec fn evidence_path_from(lines: Seq<Seq<char>>, i: int) -> Option<Seq<char>>
    decreases lines.len() - i,
{
    if i < 0 || i >= lines.len() {
        None
    } else {
        let t = trimmed(lines[i]);
        if starts_with_seq(t, "-->"@) {
            let rest = trimmed(t.subrange("-->"@.len() as int, t.len() as int));
            let c = char_pos(rest, ':', 0);
            let part = trimmed(if c < 0 { rest } else { rest.subrange(0, c) });
            if ends_with_seq(part, ".rs"@) {
                Some(part)
            } else {
                evidence_path_from(lines, i + 1)
            }
        } else {
            evidence_path_from(lines, i + 1)
        }
    }
}

fn chars_from(c: &Vec<char>, start: usize) -> (r: Vec<char>)
    requires
        start <= c@.len(),
    ensures
        r@ == c@.subrange(start as int, c@.len() as int),
{
    let mut out: Vec<char> = Vec::new();
    let mut k: usize = start;
    while k < c.len()
        invariant
            start <= k <= c@.len(),
            out@ == c@.subrange(start as int, k as int),
        decreases c.len() - k,
    {
        out.push(c[k]);
        k = k + 1;
        assert(out@ =~= c@.subrange(start as int, k as int));
    }
    out
}

/// The path text of the source file a compiler message points at; the
/// caller resolves a relative path against the working directory.
pub fn rust_evidence_source_path(reason: &str) -> (r: Option<String>)
    ensures
        match r {
            Some(p) => evidence_path_from(text_lines(reason@), 0) == Some(p@),
            None => evidence_path_from(text_lines(reason@), 0) is None,
        },
{
    let c = chars_of(reason);
    let lines = lines_chars(&c);
    let ghost ls = text_lines(reason@);
    let arrow = chars_of("-->");
    let rs = chars_of(".rs");
    let mut i: usize = 0;
    while i < lines.len()
        invariant
            i <= lines@.len(),
            lines@.map_values(|t: Vec<char>| t@) == ls,
            ls == text_lines(reason@),
            arrow@ == "-->"@,
            rs@ == ".rs"@,
            evidence_path_from(ls, 0) == evidence_path_from(ls, i as int),
        decreases lines.len() - i,
    {
        assert(ls[i as int] == lines@[i as int]@);
        let t = trimmed_chars(&lines[i]);
        if chars_starts_with(&t, &arrow) {
            let after = chars_from(&t, arrow.len());
            let rest = trimmed_chars(&after);
            let mut k: usize = 0;
            while k < rest.len() && rest[k] != ':'
                invariant
                    k <= rest@.len(),
                    char_pos(rest@, ':', 0) == char_pos(rest@, ':', k as int),
                decreases rest.len() - k,
            {
                k = k + 1;
            }
            let head = if k == rest.len() {
                crate::text::copy_chars(&rest)
            } else {
                let mut h: Vec<char> = Vec::new();
                let mut q: usize = 0;
                while q < k
                    invariant
                        q <= k < rest@.len(),
                        h@ == rest@.subrange(0, q as int),
                    decreases k - q,
                {
                    h.push(rest[q]);
                    q = q + 1;
                    assert(h@ =~= rest@.subrange(0, q as int));
                }
                h
            };
            let part = trimmed_chars(&head);
            if chars_ends_with(&part, &rs) {
                return Some(string_from_chars(&part));
            }
        }
        i = i + 1;
    }
    None
}

/// The parent module text with `pub mod name;` appended, when the message
/// names the module, the name is a plain identifier, the parent does not
/// declare it yet, and appending changes the text.
pub open spec fn module_exposure_edit(
    reason: Seq<char>,
    module_name: Seq<char>,
    parent: Seq<char>,
) -> Option<Seq<char>> {
    if !safe_identifier(module_name) || !contains_seq(lowercase_of(reason), module_name) {
        None
    } else if exists|i: int| 0 <= i < text_lines(parent).len() && declares_module(
        #[trigger] text_lines(parent)[i],
        module_name,
    ) {
        None
    } else if appended_module_declaration(parent, module_name) == parent {
        None
    } else {
        Some(appended_module_declaration(parent, module_name))
    }
}

/// The edit that exposes a pending module file in its parent module.
pub fn module_exposure_update(reason: &str, module_name: &str, parent_content: &str) -> (r:
    Option<String>)
    ensures
        match r {
            Some(u) => module_exposure_edit(reason@, module_name@, parent_content@) == Some(u@),
            None => module_exposure_edit(reason@, module_name@, parent_content@) is None,
        },
{
    let lower_text = to_lowercase(reason);
    let lower = chars_of(lower_text.as_str());
    let name = chars_of(module_name);
    if !rust_identifier_is_safe(module_name) || !chars_contains(&lower, &name) {
        return None;
    }
    if rust_module_declared(parent_content, module_name) {
        return None;
    }
    let updated = append_rust_module_declaration(parent_content, module_name);
    if str_eq(updated.as_str(), parent_content) {
        return None;
    }
    Some(updated)
}

/// The API file text with the type a privacy message names made public,
/// when the message names one and the edit changes the text.
pub open spec fn public_api_edit(reason: Seq<char>, current: Seq<char>) -> Option<Seq<char>> {
    match first_symbol(backticks_from(reason, 0)) {
        None => None,
        Some(symbol) => match type_made_public(current, symbol) {
            None => None,
            Some(updated) => if updated == current {
                None
            } else {
                Some(updated)
            },
        },
    }
}

/// The edit that makes a private type of a public API public.
pub fn public_api_update(reason: &str, current: &str) -> (r: Option<String>)
    ensures
        match r {
            Some(u) => public_api_edit(reason@, current@) == Some(u@),
            None => public_api_edit(reason@, current@) is None,
        },
{
    let symbol = match rust_private_symbol_from_evidence(reason) {
        Some(s) => s,
        None => return None,
    };
    let updated = match make_rust_type_public(current, symbol.as_str()) {
        Some(u) => u,
        None => return None,
    };
    if str_eq(updated.as_str(), current) {
        return None;
    }
    Some(updated)
}

} // verus!
