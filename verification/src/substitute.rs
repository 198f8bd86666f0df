use vstd::prelude::*;
use vstd::string::*;

use crate::table_name::{is_table_name_char, valid_table_name};

verus! {

/// The placeholder that each statement template holds where the table name
/// belongs.
pub const TABLE_NAME_MARKER: &'static str = "%%TABLE_NAME%%";

/// `s` with every occurrence of `pat` replaced by `rep`, as `str::replace`
/// does: the occurrences are found from left to right and do not overlap,
/// and an empty pattern occurs before each character and at the end.
pub open spec fn replace_all(s: Seq<char>, pat: Seq<char>, rep: Seq<char>) -> Seq<char>
    decreases s.len(),
{
    if pat.len() == 0 {
        if s.len() == 0 {
            rep
        } else {
            rep + seq![s[0]] + replace_all(s.skip(1), pat, rep)
        }
    } else if s.len() < pat.len() {
        s
    } else if s.subrange(0, pat.len() as int) == pat {
        rep + replace_all(s.skip(pat.len() as int), pat, rep)
    } else {
        seq![s[0]] + replace_all(s.skip(1), pat, rep)
    }
}

/// The characters of `s`, in order.
fn chars_of(s: &str) -> (v: Vec<char>)
    ensures
        v@ == s@,
{
    let n = s.unicode_len();
    let mut v: Vec<char> = Vec::new();
    let mut i: usize = 0;
    while i < n
        invariant
            n == s@.len(),
            i <= n,
            v@ == s@.subrange(0, i as int),
        decreases n - i,
    {
        v.push(s.get_char(i));
        i = i + 1;
        assert(v@ =~= s@.subrange(0, i as int));
    }
    assert(v@ =~= s@);
    v
}

/// Whether `pat` occurs in `text` at index `at`.
fn occurs_at(text: &Vec<char>, pat: &Vec<char>, at: usize) -> (b: bool)
    requires
        at + pat@.len() <= text@.len(),
    ensures
        b == (text@.subrange(at as int, at + pat@.len()) == pat@),
{
    let m = pat.len();
    let mut j: usize = 0;
    while j < m
        invariant
            m == pat@.len(),
            at + m <= text.len(),
            j <= m,
            forall|k: int| 0 <= k < j ==> text@[at + k] == pat@[k],
        decreases m - j,
    {
        if text[at + j] != pat[j] {
            assert(text@.subrange(at as int, at + m)[j as int] != pat@[j as int]);
            return false;
        }
        j = j + 1;
    }
    assert(text@.subrange(at as int, at + m) =~= pat@);
    true
}

/// `text` with every occurrence of `pattern` replaced by `replacement`.
pub fn replace_all_occurrences(text: &str, pattern: &str, replacement: &str) -> (r: String)
    ensures
        r@ == replace_all(text@, pattern@, replacement@),
{
    let t = chars_of(text);
    let p = chars_of(pattern);
    let n = t.len();
    let m = p.len();
    let ghost s = text@;
    let ghost pat = pattern@;
    let ghost rep = replacement@;
    let mut out = String::new();
    if m == 0 {
        let mut i: usize = 0;
        assert(s.skip(0) =~= s);
        while i < n
            invariant
                s == text@,
                pat == pattern@,
                rep == replacement@,
                n == s.len(),
                pat.len() == 0,
                i <= n,
                out@ + replace_all(s.skip(i as int), pat, rep) == replace_all(s, pat, rep),
            decreases n - i,
        {
            assert(s.skip(i as int).skip(1) =~= s.skip(i + 1));
            out.append(replacement);
            let c = text.substring_char(i, i + 1);
            assert(c@ =~= seq![s.skip(i as int)[0]]);
            out.append(c);
            i = i + 1;
        }
        assert(s.skip(i as int).len() == 0);
        out.append(replacement);
        return out;
    }
    if m > n {
        out.append(text);
        return out;
    }
    let mut run_start: usize = 0;
    let mut i: usize = 0;
    assert(s.skip(0) =~= s);
    while i <= n - m
        invariant
            s == text@,
            pat == pattern@,
            rep == replacement@,
            t@ == s,
            p@ == pat,
            n == s.len(),
            m == pat.len(),
            0 < m <= n,
            run_start <= i <= n,
            out@ + s.subrange(run_start as int, i as int) + replace_all(s.skip(i as int), pat, rep)
                == replace_all(s, pat, rep),
        decreases n - i,
    {
        let ghost rest = s.skip(i as int);
        if occurs_at(&t, &p, i) {
            assert(rest.subrange(0, m as int) =~= s.subrange(i as int, i + m));
            assert(rest.skip(m as int) =~= s.skip(i + m));
            let piece = text.substring_char(run_start, i);
            out.append(piece);
            out.append(replacement);
            i = i + m;
            run_start = i;
            assert(s.subrange(run_start as int, i as int) =~= Seq::<char>::empty());
        } else {
            assert(rest.subrange(0, m as int) =~= s.subrange(i as int, i + m));
            assert(rest.skip(1) =~= s.skip(i + 1));
            assert(s.subrange(run_start as int, i as int) + seq![s[i as int]] =~= s.subrange(
                run_start as int,
                i + 1,
            ));
            i = i + 1;
        }
    }
    assert(replace_all(s.skip(i as int), pat, rep) == s.skip(i as int));
    assert(s.subrange(run_start as int, i as int) + s.skip(i as int) =~= s.subrange(
        run_start as int,
        n as int,
    ));
    let tail = text.substring_char(run_start, n);
    out.append(tail);
    out
}

/// Whether `pat` occurs in `s`.
pub open spec fn occurs_in(pat: Seq<char>, s: Seq<char>) -> bool {
    exists|i: int| 0 <= i && i + pat.len() <= s.len() && #[trigger] s.subrange(i, i + pat.len()) == pat
}

/// Whether the character `c` is absent from `s`.
pub open spec fn lacks(s: Seq<char>, c: char) -> bool {
    forall|i: int| 0 <= i < s.len() ==> #[trigger] s[i] != c
}

/// Text in which the pattern's first character does not occur is left as it
/// is.
pub proof fn lemma_replace_all_leaves_text_without_pattern_start(
    s: Seq<char>,
    pat: Seq<char>,
    rep: Seq<char>,
)
    requires
        pat.len() > 0,
        lacks(s, pat[0]),
    ensures
        replace_all(s, pat, rep) == s,
    decreases s.len(),
{
    if s.len() >= pat.len() {
        assert(s.subrange(0, pat.len() as int)[0] == s[0]);
        let tail = s.skip(1);
        assert(lacks(tail, pat[0])) by {
            assert forall|i: int| 0 <= i < tail.len() implies #[trigger] tail[i] != pat[0] by {
                assert(tail[i] == s[i + 1]);
            }
        }
        lemma_replace_all_leaves_text_without_pattern_start(tail, pat, rep);
        assert(seq![s[0]] + tail =~= s);
    }
}

/// A pattern whose first character does not occur in `s` does not occur in
/// `s`.
pub proof fn lemma_pattern_absent(s: Seq<char>, pat: Seq<char>)
    requires
        pat.len() > 0,
        lacks(s, pat[0]),
    ensures
        !occurs_in(pat, s),
{
    if occurs_in(pat, s) {
        let i = choose|i: int| 0 <= i && i + pat.len() <= s.len() && #[trigger] s.subrange(i, i + pat.len()) == pat;
        assert(s.subrange(i, i + pat.len())[0] == s[i]);
    }
}

/// Text with one occurrence of the pattern, and no other occurrence of the
/// pattern's first character, has the replacement in place of that
/// occurrence.
pub proof fn lemma_replace_all_single_occurrence(
    before: Seq<char>,
    pat: Seq<char>,
    after: Seq<char>,
    rep: Seq<char>,
)
    requires
        pat.len() > 0,
        lacks(before, pat[0]),
        lacks(after, pat[0]),
    ensures
        replace_all(before + pat + after, pat, rep) == before + rep + after,
    decreases before.len(),
{
    let s = before + pat + after;
    if before.len() == 0 {
        assert(s =~= pat + after);
        assert(s.subrange(0, pat.len() as int) =~= pat);
        assert(s.skip(pat.len() as int) =~= after);
        lemma_replace_all_leaves_text_without_pattern_start(after, pat, rep);
        assert(before + rep + after =~= rep + after);
    } else {
        assert(s.subrange(0, pat.len() as int)[0] == before[0]);
        let rest = before.skip(1);
        assert(lacks(rest, pat[0])) by {
            assert forall|i: int| 0 <= i < rest.len() implies #[trigger] rest[i] != pat[0] by {
                assert(rest[i] == before[i + 1]);
            }
        }
        assert(s.skip(1) =~= rest + pat + after);
        lemma_replace_all_single_occurrence(rest, pat, after, rep);
        assert(seq![before[0]] + (rest + rep + after) =~= before + rep + after);
    }
}

/// The statement made from `template` for the table `name` names that
/// table and holds no placeholder.
pub open spec fn names_table_without_placeholder(template: Seq<char>, name: Seq<char>) -> bool {
    &&& occurs_in(name, replace_all(template, TABLE_NAME_MARKER@, name))
    &&& !occurs_in(TABLE_NAME_MARKER@, replace_all(template, TABLE_NAME_MARKER@, name))
}

/// Putting an accepted table name into a template that holds the
/// placeholder once, and no other `%`, gives the template's text with the
/// table name in the placeholder's place: the table name occurs in the
/// statement, and the placeholder no longer does.
pub proof fn lemma_single_placeholder_substitution(
    before: Seq<char>,
    after: Seq<char>,
    name: Seq<char>,
)
    requires
        lacks(before, '%'),
        lacks(after, '%'),
        valid_table_name(name),
    ensures
        replace_all(before + TABLE_NAME_MARKER@ + after, TABLE_NAME_MARKER@, name) == before + name
            + after,
        occurs_in(name, replace_all(before + TABLE_NAME_MARKER@ + after, TABLE_NAME_MARKER@, name)),
        !occurs_in(
            TABLE_NAME_MARKER@,
            replace_all(before + TABLE_NAME_MARKER@ + after, TABLE_NAME_MARKER@, name),
        ),
{
    reveal_strlit("%%TABLE_NAME%%");
    let marker = TABLE_NAME_MARKER@;
    assert(marker[0] == '%');
    assert(lacks(name, '%')) by {
        assert forall|i: int| 0 <= i < name.len() implies #[trigger] name[i] != '%' by {
            assert(is_table_name_char(name[i]));
        }
    }
    lemma_replace_all_single_occurrence(before, marker, after, name);
    let out = before + name + after;
    assert(out.subrange(before.len() as int, (before.len() + name.len()) as int) =~= name);
    assert(lacks(out, '%')) by {
        assert forall|i: int| 0 <= i < out.len() implies #[trigger] out[i] != '%' by {
            if i < before.len() {
                assert(out[i] == before[i]);
            } else if i < before.len() + name.len() {
                assert(out[i] == name[i - before.len()]);
            } else {
                assert(out[i] == after[i - before.len() - name.len()]);
            }
        }
    }
    lemma_pattern_absent(out, marker);
}

/// A template that is `before`, the placeholder and `after`, with no other
/// `%`, gives for an accepted table name a statement that names the table
/// and holds no placeholder.
pub proof fn lemma_template_names_table(
    template: Seq<char>,
    before: Seq<char>,
    after: Seq<char>,
    name: Seq<char>,
)
    requires
        template =~= before + TABLE_NAME_MARKER@ + after,
        lacks(before, '%'),
        lacks(after, '%'),
        valid_table_name(name),
    ensures
        names_table_without_placeholder(template, name),
{
    lemma_single_placeholder_substitution(before, after, name);
}

/// Every character of `replace_all(s, pat, rep)` is a character of `s` or of
/// `rep`.
pub proof fn lemma_replace_all_draws_from_inputs(s: Seq<char>, pat: Seq<char>, rep: Seq<char>)
    ensures
        forall|i: int|
            0 <= i < replace_all(s, pat, rep).len() ==> s.contains(
                #[trigger] replace_all(s, pat, rep)[i],
            ) || rep.contains(replace_all(s, pat, rep)[i]),
    decreases s.len(),
{
    let out = replace_all(s, pat, rep);
    if pat.len() == 0 {
        if s.len() > 0 {
            let tail = s.skip(1);
            lemma_replace_all_draws_from_inputs(tail, pat, rep);
            let r = replace_all(tail, pat, rep);
            assert(out == rep + seq![s[0]] + r);
            assert forall|i: int| 0 <= i < out.len() implies s.contains(#[trigger] out[i])
                || rep.contains(out[i]) by {
                if i < rep.len() {
                    assert(rep[i] == out[i]);
                } else if i == rep.len() {
                    assert(s[0] == out[i]);
                } else {
                    assert(out[i] == r[i - rep.len() - 1]);
                    if tail.contains(r[i - rep.len() - 1]) {
                        let k = choose|k: int| 0 <= k < tail.len() && tail[k] == r[i - rep.len() - 1];
                        assert(s[k + 1] == tail[k]);
                    }
                }
            }
        } else {
            assert forall|i: int| 0 <= i < out.len() implies rep.contains(#[trigger] out[i]) by {
                assert(rep[i] == out[i]);
            }
        }
    } else if s.len() < pat.len() {
        assert forall|i: int| 0 <= i < out.len() implies s.contains(#[trigger] out[i]) by {
            assert(s[i] == out[i]);
        }
    } else if s.subrange(0, pat.len() as int) == pat {
        let tail = s.skip(pat.len() as int);
        lemma_replace_all_draws_from_inputs(tail, pat, rep);
        let r = replace_all(tail, pat, rep);
        assert(out == rep + r);
        assert forall|i: int| 0 <= i < out.len() implies s.contains(#[trigger] out[i])
            || rep.contains(out[i]) by {
            if i < rep.len() {
                assert(rep[i] == out[i]);
            } else {
                assert(out[i] == r[i - rep.len()]);
                if tail.contains(r[i - rep.len()]) {
                    let k = choose|k: int| 0 <= k < tail.len() && tail[k] == r[i - rep.len()];
                    assert(s[k + pat.len()] == tail[k]);
                }
            }
        }
    } else {
        let tail = s.skip(1);
        lemma_replace_all_draws_from_inputs(tail, pat, rep);
        let r = replace_all(tail, pat, rep);
        assert(out == seq![s[0]] + r);
        assert forall|i: int| 0 <= i < out.len() implies s.contains(#[trigger] out[i])
            || rep.contains(out[i]) by {
            if i == 0 {
                assert(s[0] == out[0]);
            } else {
                assert(out[i] == r[i - 1]);
                if tail.contains(r[i - 1]) {
                    let k = choose|k: int| 0 <= k < tail.len() && tail[k] == r[i - 1];
                    assert(s[k + 1] == tail[k]);
                }
            }
        }
    }
}

/// Putting an accepted table name into a statement template adds no
/// character but those of the template itself and `[a-zA-Z0-9_-]`: a table
/// name cannot bring quotes, spaces, semicolons or other SQL syntax into a
/// statement.
pub proof fn lemma_substituted_chars_come_from_template_or_table_name_set(
    template: Seq<char>,
    name: Seq<char>,
)
    requires
        valid_table_name(name),
    ensures
        forall|i: int|
            0 <= i < replace_all(template, TABLE_NAME_MARKER@, name).len() ==> template.contains(
                #[trigger] replace_all(template, TABLE_NAME_MARKER@, name)[i],
            ) || is_table_name_char(replace_all(template, TABLE_NAME_MARKER@, name)[i]),
{
    let out = replace_all(template, TABLE_NAME_MARKER@, name);
    lemma_replace_all_draws_from_inputs(template, TABLE_NAME_MARKER@, name);
    assert forall|i: int| 0 <= i < out.len() implies template.contains(#[trigger] out[i])
        || is_table_name_char(out[i]) by {
        if name.contains(out[i]) {
            let k = choose|k: int| 0 <= k < name.len() && name[k] == out[i];
            assert(is_table_name_char(name[k]));
        }
    }
}

} // verus!
