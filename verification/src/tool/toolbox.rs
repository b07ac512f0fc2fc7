//! What it takes to make a toolbox out of a set of documented functions:
//! the description of a tool is made of the function's documentation, the
//! name of its parameters' type of the function's name, and no two tools of
//! a toolbox may have the same name.
//!
//! Reading the functions and writing the toolbox is the work of a code
//! generator. The rules that it follows are here.

use crate::text::{char_is_white_space, is_white_space, trim, trimmed};
use vstd::prelude::*;

verus! {

/// The name in `UpperCamelCase` that `heck` makes of `name`.
pub uninterp spec fn upper_camel_case(name: Seq<char>) -> Seq<char>;

/// `ToUpperCamelCase::to_upper_camel_case` on `str`: the words of `name`,
/// each with a capital first letter, written together.
#[verifier::external_body]
fn to_upper_camel_case(name: &str) -> (result: String)
    ensures
        result@ == upper_camel_case(name@),
{
    heck::ToUpperCamelCase::to_upper_camel_case(name)
}

/// Whether `c` is a comment mark or white space: what may stand in front of
/// the text of a line of documentation.
pub open spec fn is_mark(c: char) -> bool {
    c == '/' || c == '*' || is_white_space(c)
}

/// Number of comment marks and white-space characters at the front of `s`.
pub open spec fn leading_marks(s: Seq<char>) -> nat
    decreases s.len(),
{
    if s.len() > 0 && is_mark(s[0]) {
        1 + leading_marks(s.drop_first())
    } else {
        0
    }
}

/// The text of a line of documentation: the line without the white space
/// around it and without the comment marks and white space in front.
pub open spec fn doc_text(line: Seq<char>) -> Seq<char> {
    let inner = trimmed(line);
    inner.skip(leading_marks(inner) as int)
}

/// `parts` written one after the other with `separator` between two.
pub open spec fn joined(parts: Seq<Seq<char>>, separator: Seq<char>) -> Seq<char>
    decreases parts.len(),
{
    if parts.len() == 0 {
        Seq::empty()
    } else if parts.len() == 1 {
        parts[0]
    } else {
        joined(parts.drop_last(), separator) + separator + parts.last()
    }
}

/// The texts of the lines `lines`, in order.
pub open spec fn doc_texts(lines: Seq<String>) -> Seq<Seq<char>> {
    lines.map_values(|line: String| doc_text(line@))
}

/// The description of a tool whose function is documented by `lines`: the
/// texts of the lines, one to a line, without white space around the whole.
/// `None` where that leaves nothing.
pub open spec fn description_of(lines: Seq<String>) -> Option<Seq<char>> {
    let text = trimmed(joined(doc_texts(lines), "\n"@));
    if text.len() == 0 {
        None
    } else {
        Some(text)
    }
}

/// The name of the type that holds the parameters of the function
/// `fn_name`.
pub open spec fn params_name(fn_name: Seq<char>) -> Seq<char> {
    upper_camel_case(fn_name) + "Params"@
}

/// Whether no two of `names` are the same.
pub open spec fn distinct(names: Seq<String>) -> bool {
    forall|i: int, j: int| 0 <= i < j < names.len() ==> names[i]@ != names[j]@
}

/// Whether the name at `at` stands in `names` before `at` too.
pub open spec fn repeated(names: Seq<String>, at: int) -> bool {
    exists|i: int| 0 <= i < at && names[i]@ == names[at]@
}

/// A run of `k` marks at the front, followed by something else or by the
/// end of the text, is the whole of the leading marks.
proof fn lemma_leading_marks(s: Seq<char>, k: nat)
    requires
        k <= s.len(),
        forall|i: int| 0 <= i < k ==> is_mark(#[trigger] s[i]),
        k < s.len() ==> !is_mark(s[k as int]),
    ensures
        leading_marks(s) == k,
    decreases k,
{
    if k > 0 {
        let rest = s.drop_first();
        assert forall|i: int| 0 <= i < k - 1 implies is_mark(#[trigger] rest[i]) by {
            assert(rest[i] == s[i + 1]);
        }
        if k < s.len() {
            assert(rest[k - 1] == s[k as int]);
        }
        lemma_leading_marks(rest, (k - 1) as nat);
    }
}

/// Tells whether `c` is a comment mark or white space.
pub fn char_is_mark(c: char) -> (mark: bool)
    ensures
        mark == is_mark(c),
{
    c == '/' || c == '*' || char_is_white_space(c)
}

/// Takes the text out of a line of documentation.
pub fn doc_line(line: &str) -> (text: String)
    ensures
        text@ == doc_text(line@),
{
    let inner = trim(line);
    let n: usize = inner.as_str().unicode_len();
    let mut start: usize = 0;
    while start < n && char_is_mark(inner.as_str().get_char(start))
        invariant
            start <= n,
            n == inner@.len(),
            forall|i: int| 0 <= i < start ==> is_mark(#[trigger] inner@[i]),
        decreases n - start,
    {
        start = start + 1;
    }
    proof {
        lemma_leading_marks(inner@, start as nat);
        assert(inner@.subrange(start as int, n as int) =~= inner@.skip(start as int));
    }
    String::from_str(inner.as_str().substring_char(start, n))
}

/// Makes the description of a tool out of the lines that document its
/// function.
pub fn description(lines: &Vec<String>) -> (result: Option<String>)
    ensures
        match description_of(lines@) {
            Some(text) => result matches Some(described) && described@ == text,
            None => result is None,
        },
{
    let ghost texts = doc_texts(lines@);
    let mut all = String::new();
    let mut i: usize = 0;
    assert(texts.take(0) =~= Seq::<Seq<char>>::empty());
    while i < lines.len()
        invariant
            i <= lines@.len(),
            texts == doc_texts(lines@),
            all@ == joined(texts.take(i as int), "\n"@),
        decreases lines@.len() - i,
    {
        let ghost before = all@;
        let text = doc_line(lines[i].as_str());
        if i > 0 {
            all.append("\n");
        }
        all.append(text.as_str());
        proof {
            assert(texts.take(i + 1).drop_last() =~= texts.take(i as int));
            assert(texts.take(i + 1).last() == text@);
            if i > 0 {
                assert(all@ =~= before + "\n"@ + text@);
            } else {
                assert(all@ =~= text@);
            }
        }
        i = i + 1;
    }
    assert(texts.take(i as int) =~= texts);
    let text = trim(all.as_str());
    if text.as_str().unicode_len() == 0 {
        None
    } else {
        Some(text)
    }
}

/// The name of the type that holds the parameters of the function
/// `fn_name`.
pub fn params_type_name(fn_name: &str) -> (name: String)
    ensures
        name@ == params_name(fn_name@),
{
    let mut name = to_upper_camel_case(fn_name);
    name.append("Params");
    name
}

/// Finds the first name that stands in `names` before itself. `None` where
/// no two names are the same.
pub fn first_duplicate(names: &Vec<String>) -> (found: Option<usize>)
    ensures
        match found {
            Some(at) => at < names@.len() && repeated(names@, at as int) && distinct(
                names@.take(at as int),
            ),
            None => distinct(names@),
        },
{
    let mut at: usize = 0;
    while at < names.len()
        invariant
            at <= names@.len(),
            distinct(names@.take(at as int)),
        decreases names@.len() - at,
    {
        let mut i: usize = 0;
        while i < at
            invariant
                i <= at < names@.len(),
                distinct(names@.take(at as int)),
                forall|k: int| 0 <= k < i ==> (#[trigger] names@[k])@ != names@[at as int]@,
            decreases at - i,
        {
            if names[i] == names[at] {
                assert(repeated(names@, at as int));
                return Some(at);
            }
            i = i + 1;
        }
        assert(distinct(names@.take(at + 1))) by {
            let longer = names@.take(at + 1);
            let shorter = names@.take(at as int);
            assert forall|i: int, j: int| 0 <= i < j < longer.len() implies longer[i]@
                != longer[j]@ by {
                if j < at {
                    assert(shorter[i] == longer[i] && shorter[j] == longer[j]);
                } else {
                    assert(longer[i] == names@[i]);
                }
            }
        }
        at = at + 1;
    }
    assert(names@.take(at as int) =~= names@);
    None
}

/// Why a set of functions makes no toolbox.
#[derive(Debug, PartialEq)]
pub enum DefinitionError {
    /// Two tools have this name.
    Duplicate(String),
    /// There is no tool.
    Empty,
}

impl DefinitionError {
    /// The text by which the error is reported.
    pub open spec fn spec_message(self) -> Seq<char> {
        match self {
            DefinitionError::Duplicate(name) => "Duplicate tool name found: "@ + name@,
            DefinitionError::Empty => "No #[tool] definition in impl block"@,
        }
    }

    /// The text by which the error is reported.
    pub fn message(&self) -> (text: String)
        ensures
            text@ == self.spec_message(),
    {
        match self {
            DefinitionError::Duplicate(name) => {
                let mut text = String::from_str("Duplicate tool name found: ");
                text.append(name.as_str());
                text
            },
            DefinitionError::Empty => String::from_str("No #[tool] definition in impl block"),
        }
    }
}

/// Checks that `names` can be the names of the tools of one toolbox: there
/// is at least one, and no two are the same. The first name that repeats an
/// earlier one is reported.
pub fn check_names(names: &Vec<String>) -> (result: Result<(), DefinitionError>)
    ensures
        result is Ok <==> names@.len() > 0 && distinct(names@),
        result matches Err(DefinitionError::Empty) <==> names@.len() == 0,
        result matches Err(DefinitionError::Duplicate(name)) ==> exists|at: int|
            0 <= at < names@.len() && #[trigger] names@[at]@ == name@ && repeated(names@, at)
                && distinct(names@.take(at)),
{
    match first_duplicate(names) {
        Some(at) => {
            assert(!distinct(names@)) by {
                let i = choose|i: int| 0 <= i < at && names@[i]@ == names@[at as int]@;
                assert(names@[i]@ == names@[at as int]@);
            }
            Err(DefinitionError::Duplicate(names[at].clone()))
        },
        None => {
            if names.len() == 0 {
                Err(DefinitionError::Empty)
            } else {
                Ok(())
            }
        },
    }
}

} // verus!
