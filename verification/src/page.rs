//! Reading an exercise page: the statement and the starter code.

use vstd::prelude::*;
use vstd::string::{StrSliceExecFns, StringExecFns};
use crate::laws::trimmed_is_the_text_within_the_white_space;
use crate::model::{views, Exercise, ExerciseView, ParseError};

verus! {

/// Whether a character is white space: whether it has the `White_Space`
/// property of Unicode.
pub open spec fn white_space(c: char) -> bool {
    let n = c as u32;
    ||| 0x09 <= n <= 0x0D
    ||| n == 0x20
    ||| n == 0x85
    ||| n == 0xA0
    ||| n == 0x1680
    ||| 0x2000 <= n <= 0x200A
    ||| n == 0x2028
    ||| n == 0x2029
    ||| n == 0x202F
    ||| n == 0x205F
    ||| n == 0x3000
}

/// Whether `scraper::Selector::parse` accepts this text as a selector group.
pub uninterp spec fn selector_accepted(selector: Seq<char>) -> bool;

/// For each element that `scraper::Html::select` yields for the selector on
/// the parsed markup, in the order in which it yields them, the text nodes
/// below that element in the order in which `ElementRef::text` yields them.
pub uninterp spec fn match_texts(markup: Seq<char>, selector: Seq<char>) -> Seq<Seq<Seq<char>>>;

/// The texts one after the other, with nothing between them.
pub open spec fn joined(texts: Seq<Seq<char>>) -> Seq<char>
    decreases texts.len(),
{
    if texts.len() == 0 {
        Seq::empty()
    } else {
        joined(texts.drop_last()) + texts.last()
    }
}

/// The selector of the node that holds an exercise's statement.
pub open spec fn statement_selector() -> Seq<char> {
    ".max2"@
}

/// The selector of the node that holds an exercise's starter code.
pub open spec fn starter_selector() -> Seq<char> {
    "#ace_div"@
}

/// The first index at or after `i` whose character is not white space.
pub open spec fn skip_forward(s: Seq<char>, i: int) -> int
    decreases s.len() - i,
{
    if 0 <= i < s.len() && white_space(s[i]) {
        skip_forward(s, i + 1)
    } else {
        i
    }
}

/// The least end `j >= lo` such that everything from `j` up to `hi` is white space.
pub open spec fn skip_backward(s: Seq<char>, lo: int, hi: int) -> int
    decreases hi - lo,
{
    if 0 <= lo < hi <= s.len() && white_space(s[hi - 1]) {
        skip_backward(s, lo, hi - 1)
    } else {
        hi
    }
}

/// Whether the stretch from `i` to `j` has only white space before it and
/// after it and, unless it is empty, neither begins nor ends with white space.
pub open spec fn within_white_space(s: Seq<char>, i: int, j: int) -> bool {
    &&& 0 <= i <= j <= s.len()
    &&& forall|k: int| 0 <= k < i ==> white_space(#[trigger] s[k])
    &&& forall|k: int| j <= k < s.len() ==> white_space(#[trigger] s[k])
    &&& i < j ==> !white_space(s[i]) && !white_space(s[j - 1])
}

/// The text without its leading and trailing white space.
pub open spec fn trimmed(s: Seq<char>) -> Seq<char> {
    let start = skip_forward(s, 0);
    s.subrange(start, skip_backward(s, start, s.len() as int))
}

/// What a selection finds: the text nodes of each matching element, or
/// `None` where the selector is not accepted.
pub open spec fn selection(markup: Seq<char>, selector: Seq<char>) -> Option<
    Seq<Seq<Seq<char>>>,
> {
    if selector_accepted(selector) {
        Some(match_texts(markup, selector))
    } else {
        None
    }
}

/// The text of the first match of a selection: all its text nodes joined,
/// then trimmed. A match without text has the empty text. `None` where the
/// selector was not accepted or nothing matched.
pub open spec fn whole_text(found: Option<Seq<Seq<Seq<char>>>>) -> Option<Seq<char>> {
    match found {
        Some(matches) => if matches.len() > 0 {
            Some(trimmed(joined(matches[0])))
        } else {
            None
        },
        None => None,
    }
}

/// The text of the first element of the markup that the selector matches.
pub open spec fn node_text(markup: Seq<char>, selector: Seq<char>) -> Option<Seq<char>> {
    whole_text(selection(markup, selector))
}

/// The exercise that the two texts make, or the part that is missing. The
/// statement is looked at first.
pub open spec fn exercise_of(statement: Option<Seq<char>>, starter: Option<Seq<char>>) -> Result<
    ExerciseView,
    ParseError,
> {
    match (statement, starter) {
        (None, _) => Err(ParseError::MissingStatement),
        (Some(_), None) => Err(ParseError::MissingStarterCode),
        (Some(statement), Some(starter)) => Ok(ExerciseView { statement, starter }),
    }
}

/// What a page's markup yields: the exercise, or the part that is missing.
pub open spec fn extraction(markup: Seq<char>) -> Result<ExerciseView, ParseError> {
    exercise_of(
        node_text(markup, statement_selector()),
        node_text(markup, starter_selector()),
    )
}

/// The outcome of an extraction with the exercise taken by its view.
pub open spec fn exercise_result_view(r: Result<Exercise, ParseError>) -> Result<
    ExerciseView,
    ParseError,
> {
    match r {
        Ok(e) => Ok(e@),
        Err(e) => Err(e),
    }
}

/// An optional text taken by its view.
pub open spec fn text_view(r: Option<String>) -> Option<Seq<char>> {
    match r {
        Some(s) => Some(s@),
        None => None,
    }
}

/// What a selection found, each text taken by its view.
pub open spec fn found_view(found: Option<Vec<Vec<String>>>) -> Option<Seq<Seq<Seq<char>>>> {
    match found {
        Some(matches) => Some(texts_view(matches)),
        None => None,
    }
}

/// The texts of each match, each text taken by its view.
pub open spec fn texts_view(found: Vec<Vec<String>>) -> Seq<Seq<Seq<char>>> {
    Seq::new(found@.len(), |i: int| views(found@[i]@))
}

/// Calls `char::is_whitespace`. Trusted: the result says whether the
/// character has the `White_Space` property of Unicode, whose code points
/// `white_space` lists.
#[verifier::external_body]
fn is_white_space(c: char) -> (r: bool)
    ensures
        r == white_space(c),
{
    c.is_whitespace()
}

/// Calls `scraper::Selector::parse`, `scraper::Html::parse_document`,
/// `Html::select` and `ElementRef::text`. Trusted: the result is `Some`
/// exactly where the selector text is accepted, and then holds, for each
/// element that the selection yields, the text nodes below it. Both depend
/// on the two texts alone, which is all that the names `selector_accepted`
/// and `match_texts` say.
#[verifier::external_body]
fn select_texts(markup: &str, selector: &str) -> (r: Option<Vec<Vec<String>>>)
    ensures
        r.is_some() == selector_accepted(selector@),
        r matches Some(found) ==> texts_view(found) == match_texts(markup@, selector@),
{
    scraper::Selector::parse(selector).ok().map(
        |parsed|
            scraper::Html::parse_document(markup).select(&parsed).map(
                |node| node.text().map(String::from).collect(),
            ).collect(),
    )
}

/// Writes the texts one after the other, with nothing between them.
pub fn join(texts: &Vec<String>) -> (r: String)
    ensures
        r@ == joined(views(texts@)),
{
    let mut out = String::new();
    let mut i: usize = 0;
    assert(views(texts@).take(0) =~= Seq::<Seq<char>>::empty());
    while i < texts.len()
        invariant
            i <= texts.len(),
            out@ == joined(views(texts@).take(i as int)),
        decreases texts.len() - i,
    {
        let ghost all = views(texts@);
        assert(all.take(i + 1).drop_last() =~= all.take(i as int));
        assert(all.take(i + 1).last() == texts@[i as int]@);
        out = out.concat(texts[i].as_str());
        i = i + 1;
    }
    assert(views(texts@).take(i as int) =~= views(texts@));
    out
}

/// Copies the text without its leading and trailing white space.
pub fn trim(s: &str) -> (r: String)
    ensures
        r@ == trimmed(s@),
        exists|i: int, j: int| within_white_space(s@, i, j) && r@ == s@.subrange(i, j),
{
    proof {
        trimmed_is_the_text_within_the_white_space(s@);
    }
    let len: usize = s.unicode_len();
    let mut start: usize = 0;
    while start < len && is_white_space(s.get_char(start))
        invariant
            len == s@.len(),
            start <= len,
            skip_forward(s@, 0) == skip_forward(s@, start as int),
        decreases len - start,
    {
        start = start + 1;
    }
    let mut end: usize = len;
    while start < end && is_white_space(s.get_char(end - 1))
        invariant
            len == s@.len(),
            start <= end <= len,
            skip_backward(s@, start as int, len as int) == skip_backward(
                s@,
                start as int,
                end as int,
            ),
        decreases end,
    {
        end = end - 1;
    }
    s.substring_char(start, end).to_owned()
}

/// Takes the text of the first match out of what a selection found: every
/// text node of that match, joined and then trimmed. A match without text
/// gives the empty text; no match, or a selector that was not accepted,
/// gives `None`.
pub fn text_of_first(found: Option<Vec<Vec<String>>>) -> (r: Option<String>)
    ensures
        text_view(r) == whole_text(found_view(found)),
{
    match found {
        Some(matches) => {
            if matches.len() > 0 {
                let whole = join(&matches[0]);
                Some(trim(whole.as_str()))
            } else {
                None
            }
        },
        None => None,
    }
}

/// Makes the exercise out of the two texts, or says which one is missing;
/// the statement is looked at first.
pub fn exercise_from(statement: Option<String>, starter: Option<String>) -> (r: Result<
    Exercise,
    ParseError,
>)
    ensures
        exercise_result_view(r) == exercise_of(text_view(statement), text_view(starter)),
{
    match statement {
        None => Err(ParseError::MissingStatement),
        Some(statement) => match starter {
            None => Err(ParseError::MissingStarterCode),
            Some(starter) => Ok(Exercise { statement, starter }),
        },
    }
}

/// Finds the first element of the markup that the selector matches and
/// returns its whole text, trimmed.
pub fn first_text(markup: &str, selector: &str) -> (r: Option<String>)
    ensures
        text_view(r) == node_text(markup@, selector@),
{
    text_of_first(select_texts(markup, selector))
}

/// Reads the statement and the starter code out of an exercise page: the
/// whole text of each of the two nodes, trimmed. A page without one of the
/// nodes is not an exercise page; a node that is there but empty gives an
/// empty text.
pub fn extract_exercise(markup: &str) -> (r: Result<Exercise, ParseError>)
    ensures
        exercise_result_view(r) == extraction(markup@),
{
    exercise_from(first_text(markup, ".max2"), first_text(markup, "#ace_div"))
}

} // verus!
