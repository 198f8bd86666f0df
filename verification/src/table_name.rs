use vstd::prelude::*;
use vstd::string::*;

verus! {

/// The table that a store uses unless it is given another name.
pub const DEFAULT_TABLE_NAME: &'static str = "async_sessions";

/// A character that may stand in a table name: an ASCII letter or digit,
/// `-` or `_`.
pub open spec fn is_table_name_char(c: char) -> bool {
    ||| ('a' <= c && c <= 'z')
    ||| ('A' <= c && c <= 'Z')
    ||| ('0' <= c && c <= '9')
    ||| c == '-'
    ||| c == '_'
}

/// A table name is accepted when it is not empty and every character of it
/// matches `[a-zA-Z0-9_-]`.
pub open spec fn valid_table_name(name: Seq<char>) -> bool {
    &&& name.len() > 0
    &&& forall|i: int| 0 <= i < name.len() ==> is_table_name_char(#[trigger] name[i])
}

fn table_name_char(c: char) -> (b: bool)
    ensures
        b == is_table_name_char(c),
{
    ('a' <= c && c <= 'z') || ('A' <= c && c <= 'Z') || ('0' <= c && c <= '9') || c == '-'
        || c == '_'
}

/// The default table name is accepted.
pub proof fn lemma_default_table_name_is_valid()
    ensures
        valid_table_name(DEFAULT_TABLE_NAME@),
{
    reveal_strlit("async_sessions");
}

/// An accepted table name is exactly a non-empty name whose characters are
/// ASCII letters (`a` to `z`, `A` to `Z`), ASCII digits (`0` to `9`), `-`
/// and `_`. In particular it holds no `.`, space, `;`, quote, backtick,
/// parenthesis or `%`, so it cannot name another schema's table or bring
/// SQL syntax into a statement.
pub proof fn lemma_accepted_table_names(name: Seq<char>)
    ensures
        valid_table_name(name) <==> {
            &&& name.len() > 0
            &&& forall|i: int|
                0 <= i < name.len() ==> {
                    let c = #[trigger] name[i];
                    ||| ('a' <= c && c <= 'z')
                    ||| ('A' <= c && c <= 'Z')
                    ||| ('0' <= c && c <= '9')
                    ||| c == '-'
                    ||| c == '_'
                }
        },
        valid_table_name(name) ==> {
            &&& !name.contains('.')
            &&& !name.contains(' ')
            &&& !name.contains(';')
            &&& !name.contains('\'')
            &&& !name.contains('"')
            &&& !name.contains('`')
            &&& !name.contains('(')
            &&& !name.contains(')')
            &&& !name.contains('%')
        },
{
    if valid_table_name(name) {
        assert forall|c: char| name.contains(c) implies c != '.' && c != ' ' && c != ';' && c
            != '\'' && c != '"' && c != '`' && c != '(' && c != ')' && c != '%' by {
            let i = choose|i: int| 0 <= i < name.len() && name[i] == c;
            assert(is_table_name_char(name[i]));
        }
    }
}

/// Whether `name` is accepted as the name of a session table: it is not
/// empty and holds only ASCII letters, ASCII digits, `-` and `_`.
pub fn is_valid_table_name(name: &str) -> (b: bool)
    ensures
        b == valid_table_name(name@),
        b <==> {
            &&& name@.len() > 0
            &&& forall|i: int|
                0 <= i < name@.len() ==> {
                    let c = #[trigger] name@[i];
                    ||| ('a' <= c && c <= 'z')
                    ||| ('A' <= c && c <= 'Z')
                    ||| ('0' <= c && c <= '9')
                    ||| c == '-'
                    ||| c == '_'
                }
        },
{
    proof {
        lemma_accepted_table_names(name@);
    }
    let n = name.unicode_len();
    if n == 0 {
        return false;
    }
    let mut i: usize = 0;
    while i < n
        invariant
            n == name@.len(),
            i <= n,
            forall|j: int| 0 <= j < i ==> is_table_name_char(#[trigger] name@[j]),
        decreases n - i,
    {
        if !table_name_char(name.get_char(i)) {
            return false;
        }
        i = i + 1;
    }
    true
}

} // verus!
