use vstd::prelude::*;
use vstd::string::StringExecFns;

verus! {

/// Whether std's Unicode classification calls a character alphabetic.
pub uninterp spec fn alphabetic(c: char) -> bool;

/// What std's Unicode lowercasing makes of a string.
pub uninterp spec fn lower_of(s: Seq<char>) -> Seq<char>;

/// Relies on `char::is_alphabetic`: the answer depends on the character alone.
#[verifier::external_body]
fn is_alphabetic_char(c: char) -> (r: bool)
    ensures
        r == alphabetic(c),
{
    c.is_alphabetic()
}

/// Relies on `str::to_lowercase`: the result depends on the characters alone,
/// and an empty string stays empty.
#[verifier::external_body]
fn lowercase(s: &str) -> (r: String)
    ensures
        r@ == lower_of(s@),
        s@.len() == 0 ==> r@.len() == 0,
{
    s.to_lowercase()
}

/// Relies on `String::push`: the character is appended at the end.
#[verifier::external_body]
fn push_char(s: &mut String, c: char)
    ensures
        final(s)@ == old(s)@.push(c),
{
    s.push(c)
}

/// A word may be looked up only when each of its characters is alphabetic.
pub open spec fn valid_word(w: Seq<char>) -> bool {
    forall|i: int| 0 <= i < w.len() ==> alphabetic(#[trigger] w[i])
}

/// The extension of every shard file.
pub open spec fn json_ext() -> Seq<char> {
    seq!['.', 'j', 's', 'o', 'n']
}

/// The shard file, relative to a dictionary root, that holds the words whose
/// lowercased form is `lower`: `f/f.json` for a one-letter word, and
/// `f/fs.json` for a longer one whose first two letters are `f` and `s`.
pub open spec fn shard_path_of(lower: Seq<char>) -> Option<Seq<char>> {
    if lower.len() == 0 {
        None
    } else if lower.len() == 1 {
        Some(seq![lower[0], '/', lower[0]] + json_ext())
    } else {
        Some(seq![lower[0], '/', lower[0], lower[1]] + json_ext())
    }
}

/// The shard of a word depends on its lowercased form alone, and only on its
/// first two characters: two lowercased words that agree there, and are both
/// one character long or both longer, share a shard, which is never absent.
pub proof fn lemma_shard_by_prefix(a: Seq<char>, b: Seq<char>)
    requires
        a.len() >= 1,
        b.len() >= 1,
        (a.len() == 1) == (b.len() == 1),
        a[0] == b[0],
        a.len() >= 2 ==> a[1] == b[1],
    ensures
        shard_path_of(a) is Some,
        shard_path_of(a) == shard_path_of(b),
{
}

/// Why a requested word cannot be looked up.
#[derive(Debug, Clone, Copy, PartialEq, Eq)]
pub enum WordError {
    /// The word holds a character that is not alphabetic.
    NotAlphabetic,
    /// The word is empty, so it names no shard.
    Empty,
}

/// Tells whether every character of `w` is alphabetic.
pub fn is_valid_word(w: &str) -> (r: bool)
    ensures
        r == valid_word(w@),
{
    let mut ok = true;
    for c in it: w.chars()
        invariant
            it.seq() == w@,
            ok == (forall|i: int| 0 <= i < it.index() ==> alphabetic(#[trigger] w@[i])),
    {
        let a = is_alphabetic_char(c);
        ok = ok && a;
    }
    ok
}

/// The shard path for an already lowercased word, `None` when it is empty.
pub fn shard_path_of_lower(lower: &str) -> (r: Option<String>)
    ensures
        r matches Some(p) ==> shard_path_of(lower@) == Some(p@),
        r is None <==> shard_path_of(lower@) is None,
{
    let mut first: Option<char> = None;
    let mut second: Option<char> = None;
    let mut seen: usize = 0;
    for c in it: lower.chars()
        invariant
            it.seq() == lower@,
            seen == if it.index() < 2 { it.index() } else { 2 },
            seen == 0 ==> first is None,
            seen >= 1 ==> first == Some(lower@[0]),
            seen <= 1 ==> second is None,
            seen == 2 ==> second == Some(lower@[1]),
    {
        if seen == 0 {
            first = Some(c);
            seen = 1;
        } else if seen == 1 {
            second = Some(c);
            seen = 2;
        }
    }
    match first {
        None => None,
        Some(f) => {
            let mut p = String::new();
            push_char(&mut p, f);
            push_char(&mut p, '/');
            push_char(&mut p, f);
            if let Some(s) = second {
                push_char(&mut p, s);
            }
            let p = p.concat(".json");
            proof {
                reveal_strlit(".json");
            }
            assert(shard_path_of(lower@) == Some(p@));
            Some(p)
        },
    }
}

/// Checks a requested word and derives the shard file that may hold it. A
/// word with a character that is not alphabetic is refused before anything
/// else is done; the path comes from the lowercased word, while the lookup in
/// the shard keeps the word as it was given.
pub fn lookup_path(word: &str) -> (r: Result<String, WordError>)
    ensures
        r matches Ok(p) ==> valid_word(word@) && shard_path_of(lower_of(word@)) == Some(p@),
        r == Err::<String, WordError>(WordError::NotAlphabetic) <==> !valid_word(word@),
        r == Err::<String, WordError>(WordError::Empty) <==> valid_word(word@) && shard_path_of(
            lower_of(word@),
        ) is None,
{
    if !is_valid_word(word) {
        return Err(WordError::NotAlphabetic);
    }
    let lower = lowercase(word);
    match shard_path_of_lower(lower.as_str()) {
        Some(p) => Ok(p),
        None => Err(WordError::Empty),
    }
}

} // verus!
