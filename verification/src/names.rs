//! Creature names, put together from fixed lists of syllables.

use crate::stream::{after_draw, after_small, drawn, drawn_small, SeedStream, SliceExt};
use vstd::prelude::*;
use vstd::string::StringExecFns;

verus! {

/// The upper-case form of an ASCII letter; any other character is itself.
pub open spec fn upper_char(c: char) -> char {
    if 'a' <= c <= 'z' {
        ((c as u8) - 32) as char
    } else {
        c
    }
}

/// A text with each ASCII letter in upper case.
pub open spec fn upper_text(s: Seq<char>) -> Seq<char> {
    Seq::new(s.len(), |i: int| upper_char(s[i]))
}

/// Calls `str::to_ascii_uppercase`: a copy of the text in which the letters
/// `a` to `z` are replaced by `A` to `Z` and every other character is kept.
#[verifier::external_body]
fn ascii_uppercase(s: &str) -> (r: String)
    ensures
        r@ == upper_text(s@),
{
    s.to_ascii_uppercase()
}

/// The texts of a list of words.
pub open spec fn texts(words: Seq<&'static str>) -> Seq<Seq<char>> {
    Seq::new(words.len(), |i: int| words[i]@)
}

/// All the words of a list, one after the other.
pub open spec fn joined(words: Seq<Seq<char>>) -> Seq<char>
    decreases words.len(),
{
    if words.len() == 0 {
        Seq::empty()
    } else {
        joined(words.drop_last()) + words.last()
    }
}

/// The syllables a name can begin with.
pub open spec fn name_starts_text() -> Seq<Seq<char>> {
    seq![
        "qu"@, "wr"@, "br"@, "tl"@, "p"@, "s"@, "d"@, "fw"@, "gh"@, "j"@, "kl"@, "l"@, "z"@, "cl"@,
        "v"@, "b"@, "n"@, "m"@,
    ]
}

/// The vowels that join two syllables.
pub open spec fn name_joins_text() -> Seq<Seq<char>> {
    seq!["a"@, "e"@, "i"@, "o"@, "u"@]
}

/// The syllables a name can end with.
pub open spec fn name_ends_text() -> Seq<Seq<char>> {
    seq!["g"@, "mb"@, "kl"@, "pw"@, "nk"@, "mk"@]
}

/// The phrases that can stand before a name.
pub open spec fn name_prefixes_text() -> Seq<Seq<char>> {
    seq!["THE "@, "big "@, "little "@, "tiny "@, "baby "@, "loser "@]
}

/// The phrases that can stand after a name.
pub open spec fn name_postfixes_text() -> Seq<Seq<char>> {
    seq!["ford"@, "ley"@, " the great"@, "pop"@, "wer"@, "ula"@, "io"@]
}

/// The syllables a name can begin with.
pub fn name_starts() -> (list: Vec<&'static str>)
    ensures
        texts(list@) == name_starts_text(),
{
    let list: Vec<&'static str> = vec![
        "qu", "wr", "br", "tl", "p", "s", "d", "fw", "gh", "j", "kl", "l", "z", "cl", "v", "b", "n",
        "m",
    ];
    assert(texts(list@) =~= name_starts_text());
    list
}

/// The vowels that join two syllables.
pub fn name_joins() -> (list: Vec<&'static str>)
    ensures
        texts(list@) == name_joins_text(),
{
    let list: Vec<&'static str> = vec!["a", "e", "i", "o", "u"];
    assert(texts(list@) =~= name_joins_text());
    list
}

/// The syllables a name can end with.
pub fn name_ends() -> (list: Vec<&'static str>)
    ensures
        texts(list@) == name_ends_text(),
{
    let list: Vec<&'static str> = vec!["g", "mb", "kl", "pw", "nk", "mk"];
    assert(texts(list@) =~= name_ends_text());
    list
}

/// The phrases that can stand before a name.
pub fn name_prefixes() -> (list: Vec<&'static str>)
    ensures
        texts(list@) == name_prefixes_text(),
{
    let list: Vec<&'static str> = vec!["THE ", "big ", "little ", "tiny ", "baby ", "loser "];
    assert(texts(list@) =~= name_prefixes_text());
    list
}

/// The phrases that can stand after a name.
pub fn name_postfixes() -> (list: Vec<&'static str>)
    ensures
        texts(list@) == name_postfixes_text(),
{
    let list: Vec<&'static str> = vec!["ford", "ley", " the great", "pop", "wer", "ula", "io"];
    assert(texts(list@) =~= name_postfixes_text());
    list
}

/// The kind of syllable at one place of a name.
#[derive(Clone, Copy, Debug, PartialEq, Eq, Structural)]
pub enum NamePart {
    Start,
    Join,
    End,
}

/// The list that a kind of syllable is taken from.
pub open spec fn lexicon(part: NamePart) -> Seq<Seq<char>> {
    match part {
        NamePart::Start => name_starts_text(),
        NamePart::Join => name_joins_text(),
        NamePart::End => name_ends_text(),
    }
}

/// The list that a kind of syllable is taken from.
pub fn lexicon_of(part: NamePart) -> (list: Vec<&'static str>)
    ensures
        texts(list@) == lexicon(part),
{
    match part {
        NamePart::Start => name_starts(),
        NamePart::Join => name_joins(),
        NamePart::End => name_ends(),
    }
}

/// The four ways to build a name: start, join, end; the same with a second
/// join; start, join, start, join; and the same with an end.
pub open spec fn pattern_parts(pattern: i32) -> Seq<NamePart> {
    if pattern == 0 {
        seq![NamePart::Start, NamePart::Join, NamePart::End]
    } else if pattern == 1 {
        seq![NamePart::Start, NamePart::Join, NamePart::End, NamePart::Join]
    } else if pattern == 2 {
        seq![NamePart::Start, NamePart::Join, NamePart::Start, NamePart::Join]
    } else {
        seq![NamePart::Start, NamePart::Join, NamePart::Start, NamePart::Join, NamePart::End]
    }
}

/// The kinds of syllable that one of the four patterns is made of.
pub fn pattern_part_list(pattern: i32) -> (parts: Vec<NamePart>)
    requires
        0 <= pattern < 4,
    ensures
        parts@ == pattern_parts(pattern),
{
    let parts: Vec<NamePart> = if pattern == 0 {
        vec![NamePart::Start, NamePart::Join, NamePart::End]
    } else if pattern == 1 {
        vec![NamePart::Start, NamePart::Join, NamePart::End, NamePart::Join]
    } else if pattern == 2 {
        vec![NamePart::Start, NamePart::Join, NamePart::Start, NamePart::Join]
    } else {
        vec![NamePart::Start, NamePart::Join, NamePart::Start, NamePart::Join, NamePart::End]
    };
    assert(parts@ =~= pattern_parts(pattern));
    parts
}

/// The text of a phrase that may be absent.
pub open spec fn affix_text(affix: Option<&str>) -> Seq<char> {
    match affix {
        Some(text) => text@,
        None => Seq::empty(),
    }
}

/// Puts a name together: the prefix, if any, the words in their order, the
/// postfix, if any, and all of it in upper case.
pub fn assemble_name(prefix: Option<&str>, words: &Vec<&'static str>, postfix: Option<&str>) -> (name:
    String)
    ensures
        name@ == upper_text(affix_text(prefix) + joined(texts(words@)) + affix_text(postfix)),
{
    let mut name = String::new();
    if let Some(text) = prefix {
        name.append(text);
    }
    let ghost head = name@;
    assert(head =~= affix_text(prefix) + joined(texts(words@.take(0)))) by {
        assert(texts(words@.take(0)) =~= Seq::empty());
    }
    let mut k: usize = 0;
    while k < words.len()
        invariant
            k <= words@.len(),
            name@ == affix_text(prefix) + joined(texts(words@.take(k as int))),
        decreases words@.len() - k,
    {
        name.append(words[k]);
        proof {
            let now = texts(words@.take(k + 1));
            assert(now.drop_last() =~= texts(words@.take(k as int)));
            assert(now.last() == words@[k as int]@);
            assert(name@ =~= affix_text(prefix) + joined(now));
        }
        k += 1;
    }
    assert(words@.take(k as int) =~= words@);
    if let Some(text) = postfix {
        name.append(text);
    }
    assert(name@ =~= affix_text(prefix) + joined(texts(words@)) + affix_text(postfix));
    ascii_uppercase(name.as_str())
}

/// The state of a stream after it drew the first `n` words of a pattern in
/// `state`.
pub open spec fn after_words(state: Seq<u64>, parts: Seq<NamePart>, n: nat) -> Seq<u64>
    decreases n,
{
    if n == 0 {
        state
    } else {
        after_draw(
            after_words(state, parts, (n - 1) as nat),
            0,
            lexicon(parts[n - 1]).len() as usize,
        )
    }
}

/// The first `n` words of a pattern that a stream in `state` draws: for each
/// place, one word of the list for that place.
pub open spec fn drawn_words(state: Seq<u64>, parts: Seq<NamePart>, n: nat) -> Seq<Seq<char>>
    decreases n,
{
    if n == 0 {
        Seq::empty()
    } else {
        let list = lexicon(parts[n - 1]);
        drawn_words(state, parts, (n - 1) as nat).push(
            list[drawn(after_words(state, parts, (n - 1) as nat), 0, list.len() as usize) as int],
        )
    }
}

/// The phrase from `list` that a stream in `state` adds to a name: with one
/// chance in ten a phrase drawn from the list, else nothing.
pub open spec fn drawn_affix(state: Seq<u64>, list: Seq<Seq<char>>) -> Seq<char> {
    if drawn_small(state, 0, 10) == 0 {
        list[drawn(after_small(state, 0, 10), 0, list.len() as usize) as int]
    } else {
        Seq::empty()
    }
}

/// The state of a stream after it decided on a phrase from `list` in
/// `state`.
pub open spec fn after_affix(state: Seq<u64>, list: Seq<Seq<char>>) -> Seq<u64> {
    if drawn_small(state, 0, 10) == 0 {
        after_draw(after_small(state, 0, 10), 0, list.len() as usize)
    } else {
        after_small(state, 0, 10)
    }
}

/// The kinds of syllable of the name that a stream in `state` draws: those
/// of the pattern it draws first.
pub open spec fn name_parts(state: Seq<u64>) -> Seq<NamePart> {
    pattern_parts(drawn_small(state, 0, 4))
}

/// The words of the name that a stream in `state` draws, one for each place
/// of its pattern.
pub open spec fn name_words(state: Seq<u64>) -> Seq<Seq<char>> {
    drawn_words(after_small(state, 0, 4), name_parts(state), name_parts(state).len())
}

/// The state of a stream that drew the words of a name in `state`, as it
/// decides on a prefix.
pub open spec fn at_prefix(state: Seq<u64>) -> Seq<u64> {
    after_words(after_small(state, 0, 4), name_parts(state), name_parts(state).len())
}

/// The state of a stream that drew the words of a name in `state` and
/// decided on a prefix, as it decides on a postfix.
pub open spec fn at_postfix(state: Seq<u64>) -> Seq<u64> {
    after_affix(at_prefix(state), name_prefixes_text())
}

/// The number that decides on a prefix for the name that a stream in `state`
/// draws: zero calls for one.
pub open spec fn prefix_roll(state: Seq<u64>) -> i32 {
    drawn_small(at_prefix(state), 0, 10)
}

/// The number that decides on a postfix for the name that a stream in
/// `state` draws: zero calls for one.
pub open spec fn postfix_roll(state: Seq<u64>) -> i32 {
    drawn_small(at_postfix(state), 0, 10)
}

/// The prefix of the name that a stream in `state` draws; empty if it has
/// none.
pub open spec fn name_prefix(state: Seq<u64>) -> Seq<char> {
    drawn_affix(at_prefix(state), name_prefixes_text())
}

/// The postfix of the name that a stream in `state` draws; empty if it has
/// none.
pub open spec fn name_postfix(state: Seq<u64>) -> Seq<char> {
    drawn_affix(at_postfix(state), name_postfixes_text())
}

/// The name before it is put in upper case, as a stream in `state` draws it:
/// a pattern, a word for each of its places, then the prefix and the postfix.
pub open spec fn raw_name(state: Seq<u64>) -> Seq<char> {
    name_prefix(state) + joined(name_words(state)) + name_postfix(state)
}

/// The index at which a stream that draws the words of `parts` from `state`
/// on takes the word for place `k` from its list.
pub open spec fn word_index(state: Seq<u64>, parts: Seq<NamePart>, k: int) -> usize {
    drawn(after_words(state, parts, k as nat), 0, lexicon(parts[k]).len() as usize)
}

/// The numbers that a stream in `state` draws to decide on a phrase of
/// `list` lie in their ranges: the roll below ten and, where it calls for a
/// phrase, the index within the list.
pub open spec fn affix_draws_fit(state: Seq<u64>, list: Seq<Seq<char>>) -> bool {
    &&& 0 <= drawn_small(state, 0, 10) < 10
    &&& drawn_small(state, 0, 10) == 0 ==> drawn(
        after_small(state, 0, 10),
        0,
        list.len() as usize,
    ) < list.len()
}

/// Every number that a stream in `state` draws for a name lies in its range:
/// the pattern is one of the four, each word is taken from within its list,
/// and so are the prefix and the postfix.
pub open spec fn name_draws_fit(state: Seq<u64>) -> bool {
    &&& 0 <= drawn_small(state, 0, 4) < 4
    &&& forall|k: int|
        0 <= k < name_parts(state).len() ==> #[trigger] word_index(
            after_small(state, 0, 4),
            name_parts(state),
            k,
        ) < lexicon(name_parts(state)[k]).len()
    &&& affix_draws_fit(at_prefix(state), name_prefixes_text())
    &&& affix_draws_fit(at_postfix(state), name_postfixes_text())
}

/// The name that a stream in `state` draws.
pub open spec fn name_text(state: Seq<u64>) -> Seq<char> {
    upper_text(raw_name(state))
}

/// The state of a stream after it drew a name in `state`.
pub open spec fn after_name(state: Seq<u64>) -> Seq<u64> {
    after_affix(at_postfix(state), name_postfixes_text())
}

/// The five lists of words that names are made of.
pub open spec fn word_lists() -> Seq<Seq<Seq<char>>> {
    seq![
        name_starts_text(),
        name_joins_text(),
        name_ends_text(),
        name_prefixes_text(),
        name_postfixes_text(),
    ]
}

/// The character occurs in a word of one of the five lists.
pub open spec fn occurs_in_lists(c: char) -> bool {
    exists|l: int, w: int, k: int|
        0 <= l < 5 && 0 <= w < word_lists()[l].len() && 0 <= k < word_lists()[l][w].len()
            && #[trigger] word_lists()[l][w][k] == c
}

/// Every character of the text occurs in a word of one of the five lists.
pub open spec fn made_of_list_chars(s: Seq<char>) -> bool {
    forall|i: int| 0 <= i < s.len() ==> occurs_in_lists(#[trigger] s[i])
}

/// A character that a finished name can hold: an upper-case letter or a
/// space.
pub open spec fn is_name_char(c: char) -> bool {
    'A' <= c <= 'Z' || c == ' '
}

/// A character that a word of the lists can hold: a letter or a space.
pub open spec fn is_word_char(c: char) -> bool {
    'a' <= c <= 'z' || 'A' <= c <= 'Z' || c == ' '
}

/// Length of the longest word of list `l`.
pub open spec fn word_limit(l: int) -> nat {
    if l == 0 {
        2
    } else if l == 1 {
        1
    } else if l == 2 {
        2
    } else if l == 3 {
        7
    } else {
        10
    }
}

/// Every word of list `l` has at least one character and no more than the
/// longest of the list, and all of them are letters or spaces.
pub open spec fn list_is_plain(l: int) -> bool {
    forall|w: int|
        0 <= w < word_lists()[l].len() ==> 1 <= (#[trigger] word_lists()[l][w]).len()
            <= word_limit(l) && forall|k: int|
            0 <= k < word_lists()[l][w].len() ==> is_word_char(#[trigger] word_lists()[l][w][k])
}

/// Place of the list of a kind of syllable among the five lists.
pub open spec fn list_of(part: NamePart) -> int {
    match part {
        NamePart::Start => 0,
        NamePart::Join => 1,
        NamePart::End => 2,
    }
}

/// Length of the longest text that the first `n` places of a pattern can
/// hold.
pub open spec fn body_limit(parts: Seq<NamePart>, n: nat) -> nat
    decreases n,
{
    if n == 0 {
        0
    } else {
        body_limit(parts, (n - 1) as nat) + word_limit(list_of(parts[n - 1]))
    }
}

proof fn lemma_starts_are_plain()
    ensures
        list_is_plain(0),
{
    reveal_strlit("qu");
    reveal_strlit("wr");
    reveal_strlit("br");
    reveal_strlit("tl");
    reveal_strlit("p");
    reveal_strlit("s");
    reveal_strlit("d");
    reveal_strlit("fw");
    reveal_strlit("gh");
    reveal_strlit("j");
    reveal_strlit("kl");
    reveal_strlit("l");
    reveal_strlit("z");
    reveal_strlit("cl");
    reveal_strlit("v");
    reveal_strlit("b");
    reveal_strlit("n");
    reveal_strlit("m");
}

proof fn lemma_joins_are_plain()
    ensures
        list_is_plain(1),
{
    reveal_strlit("a");
    reveal_strlit("e");
    reveal_strlit("i");
    reveal_strlit("o");
    reveal_strlit("u");
}

proof fn lemma_ends_are_plain()
    ensures
        list_is_plain(2),
{
    reveal_strlit("g");
    reveal_strlit("mb");
    reveal_strlit("kl");
    reveal_strlit("pw");
    reveal_strlit("nk");
    reveal_strlit("mk");
}

proof fn lemma_prefixes_are_plain()
    ensures
        list_is_plain(3),
{
    reveal_strlit("THE ");
    reveal_strlit("big ");
    reveal_strlit("little ");
    reveal_strlit("tiny ");
    reveal_strlit("baby ");
    reveal_strlit("loser ");
}

proof fn lemma_postfixes_are_plain()
    ensures
        list_is_plain(4),
{
    reveal_strlit("ford");
    reveal_strlit("ley");
    reveal_strlit(" the great");
    reveal_strlit("pop");
    reveal_strlit("wer");
    reveal_strlit("ula");
    reveal_strlit("io");
}

/// The words of the five lists are not empty and hold only letters and
/// spaces.
pub proof fn lemma_lists_are_plain()
    ensures
        forall|l: int| 0 <= l < 5 ==> list_is_plain(l),
        forall|c: char| occurs_in_lists(c) ==> is_word_char(c),
{
    lemma_starts_are_plain();
    lemma_joins_are_plain();
    lemma_ends_are_plain();
    lemma_prefixes_are_plain();
    lemma_postfixes_are_plain();
    assert forall|c: char| occurs_in_lists(c) implies is_word_char(c) by {
        let (l, w, k) = choose|l: int, w: int, k: int|
            0 <= l < 5 && 0 <= w < word_lists()[l].len() && 0 <= k < word_lists()[l][w].len()
                && #[trigger] word_lists()[l][w][k] == c;
        assert(list_is_plain(l));
        assert(word_lists()[l][w].len() >= 1);
    }
}

/// The text is a word of one of the five lists.
pub open spec fn is_list_word(t: Seq<char>) -> bool {
    exists|l: int, w: int|
        0 <= l < 5 && 0 <= w < word_lists()[l].len() && #[trigger] word_lists()[l][w] == t
}

/// The character is the upper-case form of one that occurs in the lists.
pub open spec fn is_upper_of_list_char(c: char) -> bool {
    exists|d: char| occurs_in_lists(d) && upper_char(d) == c
}

proof fn lemma_list_word(t: Seq<char>)
    requires
        is_list_word(t),
    ensures
        t.len() >= 1,
        made_of_list_chars(t),
{
    lemma_lists_are_plain();
    let (l, w) = choose|l: int, w: int|
        0 <= l < 5 && 0 <= w < word_lists()[l].len() && #[trigger] word_lists()[l][w] == t;
    assert(list_is_plain(l));
    assert(word_lists()[l][w].len() >= 1);
    assert forall|i: int| 0 <= i < t.len() implies occurs_in_lists(#[trigger] t[i]) by {
        assert(word_lists()[l][w][i] == t[i]);
    }
}

proof fn lemma_joined_list_words(words: Seq<Seq<char>>)
    requires
        forall|k: int| 0 <= k < words.len() ==> is_list_word(#[trigger] words[k]),
    ensures
        joined(words).len() >= words.len(),
        made_of_list_chars(joined(words)),
    decreases words.len(),
{
    if words.len() > 0 {
        let front = words.drop_last();
        assert forall|k: int| 0 <= k < front.len() implies is_list_word(#[trigger] front[k]) by {
            assert(front[k] == words[k]);
        }
        lemma_joined_list_words(front);
        assert(is_list_word(words[words.len() - 1]));
        lemma_list_word(words.last());
        let all = joined(words);
        assert forall|i: int| 0 <= i < all.len() implies occurs_in_lists(#[trigger] all[i]) by {
            if i < joined(front).len() {
                assert(all[i] == joined(front)[i]);
            } else {
                assert(all[i] == words.last()[i - joined(front).len()]);
            }
        }
    }
}

/// A name made of list words, in upper case, holds only upper-case letters
/// and spaces, each the upper-case form of a character of the lists.
proof fn lemma_upper_of_list_chars(raw: Seq<char>)
    requires
        made_of_list_chars(raw),
    ensures
        forall|i: int|
            0 <= i < raw.len() ==> is_name_char(#[trigger] upper_text(raw)[i])
                && is_upper_of_list_char(upper_text(raw)[i]),
{
    lemma_lists_are_plain();
    assert forall|i: int| 0 <= i < raw.len() implies is_name_char(#[trigger] upper_text(raw)[i])
        && is_upper_of_list_char(upper_text(raw)[i]) by {
        assert(occurs_in_lists(raw[i]));
        assert(is_word_char(raw[i]));
        assert(upper_text(raw)[i] == upper_char(raw[i]));
    }
}

/// Draws a name: one of the four patterns, a word for each of its places,
/// with one chance in ten a prefix and, independently, a postfix. Every word
/// is an entry of the list for its place, and the prefix and the postfix are
/// entries of theirs. The name has three to twenty-five characters, all of
/// them upper-case letters or spaces that come from the word lists; it
/// begins with its prefix and ends with its postfix, in upper case.
pub fn generate_greacher_name(rng: &mut SeedStream) -> (name: String)
    ensures
        name@ == name_text(old(rng)@),
        final(rng)@ == after_name(old(rng)@),
        name_draws_fit(old(rng)@),
        3 <= name@.len() <= 25,
        forall|i: int| 0 <= i < name@.len() ==> is_name_char(#[trigger] name@[i]),
        forall|i: int| 0 <= i < name@.len() ==> is_upper_of_list_char(#[trigger] name@[i]),
        name_words(old(rng)@).len() == name_parts(old(rng)@).len(),
        forall|k: int|
            0 <= k < name_parts(old(rng)@).len() ==> lexicon(name_parts(old(rng)@)[k]).contains(
                #[trigger] name_words(old(rng)@)[k],
            ),
        prefix_roll(old(rng)@) == 0 ==> name_prefixes_text().contains(name_prefix(old(rng)@)),
        prefix_roll(old(rng)@) != 0 ==> name_prefix(old(rng)@).len() == 0,
        postfix_roll(old(rng)@) == 0 ==> name_postfixes_text().contains(name_postfix(old(rng)@)),
        postfix_roll(old(rng)@) != 0 ==> name_postfix(old(rng)@).len() == 0,
        name@.subrange(0, name_prefix(old(rng)@).len() as int) == upper_text(
            name_prefix(old(rng)@),
        ),
        name@.subrange(name@.len() - name_postfix(old(rng)@).len(), name@.len() as int)
            == upper_text(name_postfix(old(rng)@)),
{
    let pattern: i32 = rng.small_range(0, 4);
    let parts = pattern_part_list(pattern);
    assert(parts@.len() >= 3);
    let ghost at_words = rng@;
    proof {
        lemma_lists_are_plain();
    }

    let mut words: Vec<&'static str> = Vec::new();
    let mut k: usize = 0;
    assert(texts(words@) =~= drawn_words(at_words, parts@, 0));
    assert(joined(texts(words@)).len() == 0);
    while k < parts.len()
        invariant
            k <= parts@.len(),
            words@.len() == k,
            texts(words@) == drawn_words(at_words, parts@, k as nat),
            rng@ == after_words(at_words, parts@, k as nat),
            forall|l: int| 0 <= l < 5 ==> list_is_plain(l),
            forall|j: int| 0 <= j < k ==> is_list_word(#[trigger] texts(words@)[j]),
            forall|j: int|
                0 <= j < k ==> lexicon(parts@[j]).contains(#[trigger] texts(words@)[j]),
            forall|j: int|
                0 <= j < k ==> #[trigger] word_index(at_words, parts@, j) < lexicon(
                    parts@[j],
                ).len(),
            joined(texts(words@)).len() <= body_limit(parts@, k as nat),
        decreases parts@.len() - k,
    {
        let part = parts[k];
        let list = lexicon_of(part);
        assert(list@.len() == texts(list@).len());
        let ghost at = drawn(rng@, 0, list@.len() as usize) as int;
        let ghost so_far = texts(words@);
        let word: &'static str = *list.as_slice().random(rng);
        words.push(word);
        proof {
            assert(word@ == texts(list@)[at]);
            assert(lexicon(part)[at] == word@);
            assert(word_lists()[list_of(part)][at] == word@);
            assert(list_is_plain(list_of(part)));
            assert(word@.len() <= word_limit(list_of(part)));
            assert(is_list_word(word@));
            assert(word_index(at_words, parts@, k as int) == at);
            let now = texts(words@);
            assert(now =~= so_far.push(word@));
            assert(now.drop_last() =~= so_far);
            assert(joined(now) == joined(so_far) + word@);
            assert forall|j: int| 0 <= j < k + 1 implies is_list_word(#[trigger] now[j])
                && lexicon(parts@[j]).contains(now[j]) by {
                if j < k {
                    assert(now[j] == so_far[j]);
                }
            }
        }
        k += 1;
    }

    let ghost before_prefix = rng@;
    let mut prefix: Option<&'static str> = None;
    if rng.small_range(0, 10) == 0 {
        let list = name_prefixes();
        assert(list@.len() == texts(list@).len());
        let ghost at = drawn(rng@, 0, list@.len() as usize) as int;
        let phrase: &'static str = *list.as_slice().random(rng);
        assert(word_lists()[3][at] == phrase@);
        assert(name_prefixes_text()[at] == phrase@);
        prefix = Some(phrase);
    }
    let ghost before_postfix = rng@;
    let mut postfix: Option<&'static str> = None;
    if rng.small_range(0, 10) == 0 {
        let list = name_postfixes();
        assert(list@.len() == texts(list@).len());
        let ghost at = drawn(rng@, 0, list@.len() as usize) as int;
        let phrase: &'static str = *list.as_slice().random(rng);
        assert(word_lists()[4][at] == phrase@);
        assert(name_postfixes_text()[at] == phrase@);
        postfix = Some(phrase);
    }

    let name = assemble_name(prefix, &words, postfix);
    proof {
        let state = old(rng)@;
        let body = joined(texts(words@));
        let raw = affix_text(prefix) + body + affix_text(postfix);
        assert(parts@ == name_parts(state));
        assert(texts(words@) == name_words(state));
        assert(before_prefix == at_prefix(state));
        assert(before_postfix == at_postfix(state));
        assert(affix_text(prefix) == name_prefix(state));
        assert(affix_text(postfix) == name_postfix(state));
        assert(raw == raw_name(state));
        lemma_joined_list_words(texts(words@));
        assert(list_is_plain(3) && list_is_plain(4));
        if prefix.is_some() {
            assert(is_list_word(affix_text(prefix)));
            lemma_list_word(affix_text(prefix));
            assert(affix_text(prefix).len() <= word_limit(3));
        }
        if postfix.is_some() {
            assert(is_list_word(affix_text(postfix)));
            lemma_list_word(affix_text(postfix));
            assert(affix_text(postfix).len() <= word_limit(4));
        }
        assert(body_limit(parts@, parts@.len()) <= 8) by {
            reveal_with_fuel(body_limit, 6);
        }
        assert forall|i: int| 0 <= i < raw.len() implies occurs_in_lists(#[trigger] raw[i]) by {
            let a = affix_text(prefix).len() as int;
            let b = body.len() as int;
            if i < a {
                assert(raw[i] == affix_text(prefix)[i]);
            } else if i < a + b {
                assert(raw[i] == body[i - a]);
            } else {
                assert(raw[i] == affix_text(postfix)[i - a - b]);
            }
        }
        lemma_upper_of_list_chars(raw);
        assert(name@.subrange(0, name_prefix(state).len() as int) =~= upper_text(
            name_prefix(state),
        ));
        assert(name@.subrange(name@.len() - name_postfix(state).len(), name@.len() as int)
            =~= upper_text(name_postfix(state)));
    }
    name
}

} // verus!
