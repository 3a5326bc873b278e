use vstd::prelude::*;
use vstd::string::*;

verus! {

/// How many line breaks `text` begins with.
pub open spec fn leading_breaks(text: Seq<char>) -> nat
    decreases text.len(),
{
    if text.len() > 0 && text[0] == '\n' {
        1 + leading_breaks(text.skip(1))
    } else {
        0
    }
}

/// `text` from its first character that is not a line break.
pub open spec fn without_leading_breaks(text: Seq<char>) -> Seq<char> {
    text.skip(leading_breaks(text) as int)
}

/// Every page of `pages`, each without its leading line breaks.
pub open spec fn page_texts(pages: Seq<Seq<char>>) -> Seq<Seq<char>> {
    Seq::new(pages.len(), |i: int| without_leading_breaks(pages[i]))
}

/// The leading line breaks of a text are a prefix of it made of line breaks
/// only, and what follows them, if anything, is no line break.
pub proof fn lemma_leading_breaks_bound(text: Seq<char>)
    ensures
        leading_breaks(text) <= text.len(),
        forall|j: int| 0 <= j < leading_breaks(text) ==> text[j] == '\n',
        leading_breaks(text) < text.len() ==> text[leading_breaks(text) as int] != '\n',
    decreases text.len(),
{
    if text.len() > 0 && text[0] == '\n' {
        let rest = text.skip(1);
        lemma_leading_breaks_bound(rest);
        assert forall|j: int| 0 <= j < leading_breaks(text) implies text[j] == '\n' by {
            if j > 0 {
                assert(rest[j - 1] == text[j]);
            }
        }
        if leading_breaks(text) < text.len() {
            assert(rest[leading_breaks(rest) as int] == text[leading_breaks(text) as int]);
        }
    }
}

/// A prefix of line breaks that is followed by no further line break is the
/// whole of the leading line breaks: the count is fixed by that alone.
pub proof fn lemma_leading_breaks_unique(text: Seq<char>, n: nat)
    requires
        n <= text.len(),
        forall|j: int| 0 <= j < n ==> text[j] == '\n',
        n < text.len() ==> text[n as int] != '\n',
    ensures
        leading_breaks(text) == n,
    decreases text.len(),
{
    if n > 0 {
        let rest = text.skip(1);
        assert forall|j: int| 0 <= j < n - 1 implies rest[j] == '\n' by {
            assert(rest[j] == text[j + 1]);
        }
        if n - 1 < rest.len() {
            assert(rest[n - 1] == text[n as int]);
        }
        lemma_leading_breaks_unique(rest, (n - 1) as nat);
    }
}

/// What is left after the leading line breaks does not begin with one, and
/// is the text itself where the text did not begin with one.
pub proof fn lemma_stripped_text(text: Seq<char>)
    ensures
        without_leading_breaks(text).len() == text.len() - leading_breaks(text),
        without_leading_breaks(text).len() > 0 ==> without_leading_breaks(text)[0] != '\n',
        text.len() == 0 || text[0] != '\n' ==> without_leading_breaks(text) == text,
{
    lemma_leading_breaks_bound(text);
    if text.len() == 0 || text[0] != '\n' {
        assert(text.skip(0) =~= text);
    }
}

/// Any number of line breaks in front of a text that begins with none are
/// stripped, and the text is left exactly as it is.
pub proof fn lemma_breaks_before_text(count: nat, text: Seq<char>)
    requires
        text.len() == 0 || text[0] != '\n',
    ensures
        without_leading_breaks(Seq::new(count, |i: int| '\n') + text) == text,
{
    let page = Seq::new(count, |i: int| '\n') + text;
    lemma_leading_breaks_unique(page, count);
    assert(page.skip(count as int) =~= text);
}

/// Copies `page` without the line breaks it begins with.
pub fn strip_leading_breaks(page: &str) -> (text: String)
    ensures
        text@ == without_leading_breaks(page@),
{
    let len: usize = page.unicode_len();
    let mut start: usize = 0;
    while start < len && page.get_char(start) == '\n'
        invariant
            start <= len,
            len == page@.len(),
            forall|j: int| 0 <= j < start ==> page@[j] == '\n',
        decreases len - start,
    {
        start += 1;
    }
    proof {
        lemma_leading_breaks_unique(page@, start as nat);
    }
    page.substring_char(start, len).to_owned()
}

/// Strips the leading line breaks of every page, keeping the pages in order.
pub fn strip_pages(pages: &Vec<String>) -> (texts: Vec<String>)
    ensures
        texts.deep_view() == page_texts(pages.deep_view()),
{
    let mut texts: Vec<String> = Vec::new();
    let mut i: usize = 0;
    while i < pages.len()
        invariant
            i <= pages.len(),
            texts.len() == i,
            forall|k: int| 0 <= k < i ==> texts[k]@ == without_leading_breaks(pages[k]@),
        decreases pages.len() - i,
    {
        let text = strip_leading_breaks(pages[i].as_str());
        texts.push(text);
        i += 1;
    }
    assert(texts.deep_view() =~= page_texts(pages.deep_view()));
    texts
}

} // verus!
