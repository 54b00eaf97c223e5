//! Checking shell completions: the part that computes.
//!
//! A completion check registers a completion script with a shell under the
//! name [`COMMAND`], types a partial command line followed by the completion
//! key, once and, separately, twice, and reads what the shell shows. Talking
//! to the shell is the caller's business. What to type and what to make of
//! the shell's answers is decided here.

use vstd::prelude::*;
use vstd::string::{StrSliceExecFns, StringExecFns};

verus! {

/// The name under which the completion script is registered.
pub const COMMAND: &'static str = "buck2";

/// Whether `c` separates words.
pub open spec fn is_blank(c: char) -> bool {
    c == ' ' || c == '\t' || c == '\n' || c == '\r'
}

/// The text of each string of `strings`.
pub open spec fn texts(strings: Seq<String>) -> Seq<Seq<char>> {
    strings.map_values(|s: String| s@)
}

/// Where the word under completion starts: behind the last blank of the
/// command line, or at its front if it has none.
pub open spec fn word_start(input: Seq<char>) -> int
    decreases input.len(),
{
    if input.len() == 0 || is_blank(input.last()) {
        input.len() as int
    } else {
        word_start(input.drop_last())
    }
}

/// The word under completion: what the command line ends in that holds no
/// blank. Empty when the line ends in a blank.
pub open spec fn completing_word(input: Seq<char>) -> Seq<char> {
    input.subrange(word_start(input), input.len() as int)
}

/// The words that follow in `text` when `pending` is the word read so far.
pub open spec fn words_from(text: Seq<char>, pending: Seq<char>) -> Seq<Seq<char>>
    decreases text.len(),
{
    let finished = if pending.len() > 0 {
        seq![pending]
    } else {
        Seq::<Seq<char>>::empty()
    };
    if text.len() == 0 {
        finished
    } else if is_blank(text[0]) {
        finished + words_from(text.drop_first(), Seq::<char>::empty())
    } else {
        words_from(text.drop_first(), pending.push(text[0]))
    }
}

/// The words of `text`, in order: its maximal runs of characters that are
/// not blank.
pub open spec fn words(text: Seq<char>) -> Seq<Seq<char>> {
    words_from(text, Seq::<char>::empty())
}

/// The candidates among `produced`: those that begin with `word`, each
/// once, in the order in which they first occur.
pub open spec fn selected(word: Seq<char>, produced: Seq<Seq<char>>) -> Seq<Seq<char>>
    decreases produced.len(),
{
    if produced.len() == 0 {
        Seq::<Seq<char>>::empty()
    } else {
        let earlier = selected(word, produced.drop_last());
        let candidate = produced.last();
        if word.is_prefix_of(candidate) && !earlier.contains(candidate) {
            earlier.push(candidate)
        } else {
            earlier
        }
    }
}

/// The selection holds exactly the produced strings that begin with `word`,
/// and holds none of them twice.
pub proof fn lemma_selected(word: Seq<char>, produced: Seq<Seq<char>>)
    ensures
        selected(word, produced).no_duplicates(),
        forall|candidate: Seq<char>|
            #[trigger] selected(word, produced).contains(candidate) <==> (produced.contains(
                candidate,
            ) && word.is_prefix_of(candidate)),
    decreases produced.len(),
{
    if produced.len() > 0 {
        let earlier = selected(word, produced.drop_last());
        let last = produced.last();
        lemma_selected(word, produced.drop_last());
        assert forall|candidate: Seq<char>|
            #[trigger] selected(word, produced).contains(candidate) <==> (produced.contains(
                candidate,
            ) && word.is_prefix_of(candidate)) by {
            if produced.contains(candidate) {
                let at = choose|at: int| 0 <= at < produced.len() && produced[at] == candidate;
                if at < produced.len() - 1 {
                    assert(produced.drop_last()[at] == candidate);
                }
            }
            if produced.drop_last().contains(candidate) {
                let at = choose|at: int|
                    0 <= at < produced.drop_last().len() && produced.drop_last()[at] == candidate;
                assert(produced[at] == candidate);
            }
            if word.is_prefix_of(last) && !earlier.contains(last) {
                assert(earlier.push(last)[earlier.len() as int] == last);
                if earlier.push(last).contains(candidate) {
                    let at = choose|at: int|
                        0 <= at < earlier.push(last).len() && earlier.push(last)[at] == candidate;
                    if at < earlier.len() {
                        assert(earlier[at] == candidate);
                    }
                }
                if earlier.contains(candidate) {
                    let at = choose|at: int| 0 <= at < earlier.len() && earlier[at] == candidate;
                    assert(earlier.push(last)[at] == candidate);
                }
            }
            assert(produced[produced.len() - 1] == last);
        }
    }
}

/// What to type for one completion request: the command line, then the
/// completion key `triggers` times.
pub fn completion_request(input: &str, triggers: usize) -> (keys: String)
    ensures
        keys@ == input@ + Seq::new(triggers as nat, |i: int| '\t'),
{
    let mut keys = input.to_owned();
    let mut typed: usize = 0;
    assert(keys@ =~= input@ + Seq::new(0, |i: int| '\t'));
    while typed < triggers
        invariant
            typed <= triggers,
            keys@ == input@ + Seq::new(typed as nat, |i: int| '\t'),
        decreases triggers - typed,
    {
        proof {
            reveal_strlit("\t");
        }
        keys.append("\t");
        typed = typed + 1;
        assert(keys@ =~= input@ + Seq::new(typed as nat, |i: int| '\t'));
    }
    keys
}

/// Whether `c` separates words.
pub fn is_blank_char(c: char) -> (blank: bool)
    ensures
        blank == is_blank(c),
{
    c == ' ' || c == '\t' || c == '\n' || c == '\r'
}

/// The word under completion in the command line `input`.
pub fn completing_word_of(input: &str) -> (word: String)
    ensures
        word@ == completing_word(input@),
{
    let len = input.unicode_len();
    let mut start: usize = len;
    assert(input@.subrange(0, len as int) =~= input@);
    while start > 0 && !is_blank_char(input.get_char(start - 1))
        invariant
            start <= len,
            len == input@.len(),
            word_start(input@) == word_start(input@.subrange(0, start as int)),
        decreases start,
    {
        assert(input@.subrange(0, start as int).drop_last() =~= input@.subrange(
            0,
            start - 1,
        ));
        start = start - 1;
    }
    input.substring_char(start, len).to_owned()
}

/// Whether `candidate` begins with `word`.
pub fn starts_with(candidate: &str, word: &str) -> (yes: bool)
    ensures
        yes == word@.is_prefix_of(candidate@),
{
    let word_len = word.unicode_len();
    let candidate_len = candidate.unicode_len();
    if word_len > candidate_len {
        return false;
    }
    let mut i: usize = 0;
    while i < word_len
        invariant
            i <= word_len <= candidate_len,
            word_len == word@.len(),
            candidate_len == candidate@.len(),
            forall|k: int| 0 <= k < i ==> word@[k] == candidate@[k],
        decreases word_len - i,
    {
        if word.get_char(i) != candidate.get_char(i) {
            assert(candidate@.subrange(0, word_len as int)[i as int] != word@[i as int]);
            return false;
        }
        i = i + 1;
    }
    assert(word@ =~= candidate@.subrange(0, word_len as int));
    true
}

/// Splits `text` into its words.
pub fn split_words(text: &str) -> (found: Vec<String>)
    ensures
        texts(found@) == words(text@),
{
    let len = text.unicode_len();
    let mut found: Vec<String> = Vec::new();
    let mut start: usize = 0;
    let mut i: usize = 0;
    assert(text@.skip(0) =~= text@);
    assert(text@.subrange(0, 0) =~= Seq::<char>::empty());
    assert(texts(found@) =~= Seq::<Seq<char>>::empty());
    assert(words(text@) =~= texts(found@) + words_from(text@.skip(0), text@.subrange(0, 0)));
    while i < len
        invariant
            start <= i <= len,
            len == text@.len(),
            words(text@) == texts(found@) + words_from(
                text@.skip(i as int),
                text@.subrange(start as int, i as int),
            ),
        decreases len - i,
    {
        let ghost rest = text@.skip(i as int);
        let ghost pending = text@.subrange(start as int, i as int);
        let ghost before = texts(found@);
        assert(rest.drop_first() =~= text@.skip(i + 1));
        assert(rest[0] == text@[i as int]);
        let c = text.get_char(i);
        if is_blank_char(c) {
            if start < i {
                found.push(text.substring_char(start, i).to_owned());
                assert(texts(found@) =~= before + seq![pending]);
            }
            start = i + 1;
            assert(text@.subrange(start as int, i + 1) =~= Seq::<char>::empty());
            assert(texts(found@) + words_from(text@.skip(i + 1), Seq::<char>::empty()) =~= before
                + words_from(rest, pending));
        } else {
            assert(pending.push(text@[i as int]) =~= text@.subrange(start as int, i + 1));
        }
        i = i + 1;
    }
    let ghost before = texts(found@);
    let ghost pending = text@.subrange(start as int, len as int);
    assert(text@.skip(len as int) =~= Seq::<char>::empty());
    if start < len {
        found.push(text.substring_char(start, len).to_owned());
        assert(texts(found@) =~= before + seq![pending]);
    }
    found
}

/// Whether one of `strings` reads `wanted`.
pub fn has_text(strings: &Vec<String>, wanted: &String) -> (yes: bool)
    ensures
        yes == texts(strings@).contains(wanted@),
{
    let mut i: usize = 0;
    while i < strings.len()
        invariant
            i <= strings.len(),
            forall|k: int| 0 <= k < i ==> texts(strings@)[k] != wanted@,
        decreases strings.len() - i,
    {
        if strings[i] == *wanted {
            assert(texts(strings@)[i as int] == wanted@);
            return true;
        }
        i = i + 1;
    }
    false
}

/// Picks the candidates among `produced`: the strings that begin with
/// `word`, each once, in the order in which they first occur.
pub fn select_candidates(word: &str, produced: &Vec<String>) -> (chosen: Vec<String>)
    ensures
        texts(chosen@) == selected(word@, texts(produced@)),
{
    let mut chosen: Vec<String> = Vec::new();
    let mut k: usize = 0;
    assert(texts(produced@).take(0) =~= Seq::<Seq<char>>::empty());
    assert(texts(chosen@) =~= Seq::<Seq<char>>::empty());
    while k < produced.len()
        invariant
            k <= produced.len(),
            texts(chosen@) == selected(word@, texts(produced@).take(k as int)),
        decreases produced.len() - k,
    {
        let ghost before = texts(chosen@);
        let ghost seen = texts(produced@).take(k + 1);
        assert(seen.drop_last() =~= texts(produced@).take(k as int));
        assert(seen.last() == produced@[k as int]@);
        let candidate = &produced[k];
        if starts_with(candidate.as_str(), word) && !has_text(&chosen, candidate) {
            chosen.push(candidate.clone());
            assert(texts(chosen@) =~= before.push(candidate@));
        }
        k = k + 1;
    }
    assert(texts(produced@).take(produced.len() as int) =~= texts(produced@));
    chosen
}

/// Makes the result of a completion check out of what the shell showed:
/// `single` after one completion key, `double` after two.
///
/// A failure of either request is handed on as it is, that of the first
/// before that of the second. Otherwise the result holds the words that the
/// shell showed, first those of `single`, which begin with the word under
/// completion, each once.
pub fn extract_from_outputs<E>(
    input: &str,
    single: Result<String, E>,
    double: Result<String, E>,
) -> (candidates: Result<Vec<String>, E>)
    ensures
        match (single, double) {
            (Err(failure), _) => candidates == Err::<Vec<String>, E>(failure),
            (Ok(_), Err(failure)) => candidates == Err::<Vec<String>, E>(failure),
            (Ok(first), Ok(second)) => candidates matches Ok(chosen) && texts(chosen@) == selected(
                completing_word(input@),
                words(first@) + words(second@),
            ),
        },
{
    let first = match single {
        Ok(shown) => shown,
        Err(failure) => {
            return Err(failure);
        },
    };
    let second = match double {
        Ok(shown) => shown,
        Err(failure) => {
            return Err(failure);
        },
    };
    let mut produced = split_words(first.as_str());
    let mut more = split_words(second.as_str());
    let ghost head = texts(produced@);
    let ghost tail = texts(more@);
    produced.append(&mut more);
    assert(texts(produced@) =~= head + tail);
    let word = completing_word_of(input);
    Ok(select_candidates(word.as_str(), &produced))
}

} // verus!
