//! Casing and documentation formatting: schema names to target-language
//! identifiers, and multi-line descriptions to doc-comment lines.

use vstd::prelude::*;
use vstd::string::*;

verus! {

/// What convert_case's snake-case conversion returns for a given sequence of
/// characters; a pure function of the input alone.
pub uninterp spec fn snake_of(s: Seq<char>) -> Seq<char>;

/// Relies on convert_case's `Casing::to_case` with `Case::Snake`: splits the
/// input on word boundaries and joins the lowercased words with underscores.
/// The result depends on the input characters alone.
#[verifier::external_body]
pub fn member_identifier(s: &str) -> (r: String)
    ensures
        r@ == snake_of(s@),
{
    convert_case::Casing::to_case(&s, convert_case::Case::Snake)
}

/// Relies on std's `String::push`: appends one character at the end.
#[verifier::external_body]
pub(crate) fn push_char(s: &mut String, c: char)
    ensures
        final(s)@ == old(s)@.push(c),
{
    s.push(c);
}

/// The uppercase form of an ASCII letter; any other character is unchanged.
pub open spec fn upper_char(c: char) -> char {
    if 97 <= c as u32 <= 122 {
        (((c as u32) - 32) as u8) as char
    } else {
        c
    }
}

/// A schema name as a target type identifier: the first character raised to
/// upper case, the rest kept as written. GraphQL type and field names carry
/// no separators, so this is the whole normalization; a name already in the
/// target convention maps to itself.
pub open spec fn type_identifier_spec(s: Seq<char>) -> Seq<char> {
    Seq::new(s.len(), |i: int| if i == 0 { upper_char(s[i]) } else { s[i] })
}

fn upper_char_exec(c: char) -> (r: char)
    ensures
        r == upper_char(c),
{
    let u = c as u32;
    if 97 <= u && u <= 122 {
        ((u - 32) as u8) as char
    } else {
        c
    }
}

/// Map a schema type name to the target convention for type names.
pub fn type_identifier(s: &str) -> (r: String)
    ensures
        r@ == type_identifier_spec(s@),
{
    let n = s.unicode_len();
    let mut out = String::new();
    let mut i: usize = 0;
    while i < n
        invariant
            n == s@.len(),
            i <= n,
            out@ =~= type_identifier_spec(s@).take(i as int),
        decreases n - i,
    {
        let c = s.get_char(i);
        let c2 = if i == 0 {
            upper_char_exec(c)
        } else {
            c
        };
        push_char(&mut out, c2);
        i += 1;
        proof {
            assert(out@ =~= type_identifier_spec(s@).take(i as int));
        }
    }
    proof {
        assert(out@ =~= type_identifier_spec(s@));
    }
    out
}

/// One character's contribution to a doc comment: a line break starts a new
/// doc line under the given prefix; any other character stands as itself.
pub open spec fn doc_char(c: char, prefix: Seq<char>) -> Seq<char> {
    if c == '\n' {
        seq!['\n'] + prefix
    } else {
        seq![c]
    }
}

/// The doc-comment text of the first `n` characters of a description.
pub open spec fn doc_chars_upto(s: Seq<char>, prefix: Seq<char>, n: int) -> Seq<char>
    decreases n,
{
    if n <= 0 {
        Seq::empty()
    } else {
        doc_chars_upto(s, prefix, n - 1) + doc_char(s[n - 1], prefix)
    }
}

/// A whole description as doc-comment lines: one line per source line, in
/// source order, each under the given prefix; an absent or empty description
/// renders nothing.
pub open spec fn render_doc_spec(s: Seq<char>, prefix: Seq<char>) -> Seq<char> {
    if s.len() == 0 {
        Seq::empty()
    } else {
        prefix + doc_chars_upto(s, prefix, s.len() as int) + seq!['\n']
    }
}

/// The doc prefix at top level of a module.
pub open spec fn doc_prefix() -> Seq<char> {
    "/// "@
}

/// The doc prefix for a member inside a declaration.
pub open spec fn member_doc_prefix() -> Seq<char> {
    "    /// "@
}

/// Render a description as doc-comment lines under an arbitrary prefix.
pub fn render_doc_with(description: &str, prefix: &str) -> (r: String)
    ensures
        r@ == render_doc_spec(description@, prefix@),
{
    let n = description.unicode_len();
    if n == 0 {
        return String::new();
    }
    let mut out = String::from_str(prefix);
    let mut i: usize = 0;
    while i < n
        invariant
            n == description@.len(),
            i <= n,
            out@ == prefix@ + doc_chars_upto(description@, prefix@, i as int),
        decreases n - i,
    {
        let c = description.get_char(i);
        if c == '\n' {
            push_char(&mut out, '\n');
            out.append(prefix);
        } else {
            push_char(&mut out, c);
        }
        i += 1;
        proof {
            assert(out@ =~= prefix@ + doc_chars_upto(description@, prefix@, i as int));
        }
    }
    push_char(&mut out, '\n');
    proof {
        assert(out@ =~= render_doc_spec(description@, prefix@));
    }
    out
}

/// Render a description as top-level doc-comment lines.
pub fn render_doc(description: &str) -> (r: String)
    ensures
        r@ == render_doc_spec(description@, doc_prefix()),
{
    render_doc_with(description, "/// ")
}

/// Normalizing a name to a type identifier twice says no more than doing it
/// once: the conversion is idempotent.
pub proof fn lemma_type_identifier_idempotent(s: Seq<char>)
    ensures
        type_identifier_spec(type_identifier_spec(s)) == type_identifier_spec(s),
{
    assert(type_identifier_spec(type_identifier_spec(s)) =~= type_identifier_spec(s));
}

} // verus!
