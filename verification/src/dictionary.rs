//! The spellcheck dictionary: a Hunspell dictionary (read by `spellbook`)
//! together with the words that the user added to it.
use vstd::prelude::*;
use vstd::string::*;

use crate::error::CheeseError;
use crate::text::str_eq;

verus! {

#[verifier::external_type_specification]
#[verifier::external_body]
#[verifier::reject_recursive_types(S)]
pub struct ExDictionary<S>(spellbook::Dictionary<S>);

#[verifier::external_type_specification]
#[verifier::external_body]
pub struct ExDefaultHashBuilder(spellbook::DefaultHashBuilder);

/// The words that a dictionary accepts.
pub uninterp spec fn spellbook_accepted(d: spellbook::Dictionary) -> Set<Seq<char>>;

/// `spellbook::Dictionary::check`. Claimed: the answer is whether the word
/// is among the accepted words.
#[verifier::external_body]
fn dictionary_check(d: &spellbook::Dictionary, word: &str) -> (ok: bool)
    ensures
        ok == spellbook_accepted(*d).contains(word@),
{
    d.check(word)
}

/// What `Dictionary::new` makes of an `.aff` and a `.dic` text: the words
/// the new dictionary accepts, or `None` when the texts do not parse.
pub uninterp spec fn spellbook_load(aff: Seq<char>, dic: Seq<char>) -> Option<Set<Seq<char>>>;

/// `spellbook::Dictionary::new(aff, dic)`, with the error turned into its
/// message. Claimed: it succeeds exactly when the named reading succeeds,
/// and the new dictionary accepts the words of that reading.
#[verifier::external_body]
fn dictionary_new(aff: &str, dic: &str) -> (d: Result<spellbook::Dictionary, String>)
    ensures
        match d {
            Ok(d) => spellbook_load(aff@, dic@) == Some(spellbook_accepted(d)),
            Err(_) => spellbook_load(aff@, dic@) is None,
        },
{
    spellbook::Dictionary::new(aff, dic).map_err(|err| err.to_string())
}

/// The stems of a dictionary that are live: listed with at least one entry
/// that does not carry the forbidden-word flag.
pub uninterp spec fn spellbook_live_stems(d: spellbook::Dictionary) -> Set<Seq<char>>;

/// The words that a dictionary accepts once the `.dic` line `line` is added.
pub uninterp spec fn spellbook_added(d: spellbook::Dictionary, line: Seq<char>) -> Set<Seq<char>>;

/// A line that holds none of the characters that start a flag set, an
/// escape or a field (`/`, `\`, space, tab): a bare word.
pub open spec fn plain_line(line: Seq<char>) -> bool {
    forall|i: int|
        0 <= i < line.len() ==> #[trigger] line[i] != '/' && line[i] != '\\' && line[i] != ' '
            && line[i] != '\t'
}

/// `spellbook::Dictionary::add(input)`, with the error turned into its
/// message. The line is parsed as a `.dic` line, then its stem and flags
/// are inserted as a new entry. Claimed:
/// - a bare word always parses (the parser's fast lane), so it is added;
/// - after a success the dictionary accepts the named result of adding the
///   line; the new entry takes no live stem away, and the entry of a bare
///   word (which has no flags) makes its stem live;
/// - on an error (a flag set that does not parse) nothing changed.
/// Which stem a bare word gives is left open: the `IGNORE` characters of
/// the affix file are dropped from it.
#[verifier::external_body]
fn dictionary_add(d: &mut spellbook::Dictionary, input: &str) -> (r: Result<(), String>)
    ensures
        plain_line(input@) ==> r is Ok,
        r is Ok ==> spellbook_accepted(*final(d)) == spellbook_added(*old(d), input@),
        r is Ok ==> spellbook_live_stems(*old(d)).subset_of(spellbook_live_stems(*final(d))),
        r is Ok && plain_line(input@) ==> exists|s: Seq<char>|
            spellbook_live_stems(*final(d)) == #[trigger] spellbook_live_stems(*old(d)).insert(s),
        r is Err ==> spellbook_accepted(*final(d)) == spellbook_accepted(*old(d)),
        r is Err ==> spellbook_live_stems(*final(d)) == spellbook_live_stems(*old(d)),
{
    d.add(input).map_err(|err| err.to_string())
}

/// The words that a dictionary accepts once the stem `word` is removed.
pub uninterp spec fn spellbook_stem_removed(d: spellbook::Dictionary, word: Seq<char>) -> Set<
    Seq<char>,
>;

/// `spellbook::Dictionary::remove_stem(word)`: every entry of the stem
/// `word` gets the forbidden-word flag. Claimed: the answer is whether
/// `word` was a live stem; afterwards it is not, and the other live stems
/// stay; after a removal the dictionary accepts the named result of
/// removing the stem; when nothing was removed nothing changed.
#[verifier::external_body]
fn dictionary_remove_stem(d: &mut spellbook::Dictionary, word: &str) -> (removed: bool)
    ensures
        removed == spellbook_live_stems(*old(d)).contains(word@),
        spellbook_live_stems(*final(d)) == spellbook_live_stems(*old(d)).remove(word@),
        removed ==> spellbook_accepted(*final(d)) == spellbook_stem_removed(*old(d), word@),
        !removed ==> spellbook_accepted(*final(d)) == spellbook_accepted(*old(d)),
{
    d.remove_stem(word)
}

/// `spellbook::Dictionary::suggest(word, out)`. It clears `out` and fills
/// it with suggestions. Claimed, as its source and documentation show: for
/// an empty word, and for a word longer than `MAX_WORD_LEN` (360 bytes, so
/// for any word of more than 360 characters), `out` is left empty. Which
/// suggestions come otherwise, and in which order, is left unsaid: the
/// dictionary's word list is hashed with a per-process seed.
#[verifier::external_body]
fn dictionary_suggest(d: &spellbook::Dictionary, word: &str, out: &mut Vec<String>)
    ensures
        word@.len() == 0 ==> final(out)@.len() == 0,
        word@.len() > 360 ==> final(out)@.len() == 0,
{
    d.suggest(word, out)
}

/// What `chardetng` and `encoding_rs` make of a file: the text decoded in
/// the guessed encoding, the name of the encoding used, and whether some
/// bytes were malformed (and replaced).
pub uninterp spec fn detected_decoding(bytes: Seq<u8>) -> (Seq<char>, Seq<char>, bool);

/// A decoded file.
pub struct DecodedText {
    pub text: String,
    pub encoding: String,
    pub replaced: bool,
}

/// A `chardetng::EncodingDetector` (ISO-2022-JP denied) fed the whole of
/// `bytes`, its guess (UTF-8 allowed, no top-level domain), and that
/// encoding's `decode` of `bytes`. Claimed: the result is the named
/// decoding of the bytes.
#[verifier::external_body]
fn decode_detected(bytes: &[u8]) -> (decoded: DecodedText)
    ensures
        detected_decoding(bytes@) == (decoded.text@, decoded.encoding@, decoded.replaced),
{
    let mut detector = chardetng::EncodingDetector::new(chardetng::Iso2022JpDetection::Deny);
    detector.feed(bytes, true);
    let guessed = detector.guess(None, chardetng::Utf8Detection::Allow);
    let (text, used, replaced) = guessed.decode(bytes);
    DecodedText { text: text.into_owned(), encoding: used.name().to_string(), replaced }
}

/// The views of a list of strings.
pub open spec fn words_view(words: Seq<String>) -> Seq<Seq<char>> {
    words.map_values(|w: String| w@)
}

/// `words` without any entry equal to `word`, in order.
pub open spec fn remove_all(words: Seq<Seq<char>>, word: Seq<char>) -> Seq<Seq<char>>
    decreases words.len(),
{
    if words.len() == 0 {
        words
    } else {
        let rest = remove_all(words.drop_last(), word);
        if words.last() == word {
            rest
        } else {
            rest.push(words.last())
        }
    }
}

/// The language code of a dictionary file name: what comes before its
/// first `_`, if it has one.
pub open spec fn lang_code_of(file_name: Seq<char>) -> Option<Seq<char>> {
    match crate::text::first_match(file_name, seq!['_']) {
        Some(i) => Some(file_name.take(i)),
        None => None,
    }
}

/// A Hunspell dictionary and the words that were added to it.
#[derive(Debug)]
pub struct DictionaryWrapper {
    dict: spellbook::Dictionary,
    added_words: Vec<String>,
    pub lang_code: Option<String>,
}

/// The message when a dictionary file holds bytes that are not valid in
/// its encoding; the encoding is shown as its `Debug` form. (For both files
/// the message names the aff file.)
pub open spec fn bad_characters_message(label: Seq<char>, encoding: Seq<char>) -> Seq<char> {
    "Found unexpected characters in dictionary aff file "@ + label
        + " (encoding: Encoding { name: \""@ + encoding + "\", .. })"@
}

/// The message when the dictionary cannot be read.
pub open spec fn load_error_message(aff_label: Seq<char>, dic_label: Seq<char>, err: Seq<char>) -> Seq<
    char,
> {
    "Error loading dictionary from "@ + aff_label + " and "@ + dic_label + ":\n"@ + err
}

/// The message when a word cannot be added.
pub open spec fn add_error_message(word: Seq<char>, err: Seq<char>) -> Seq<char> {
    "Error when adding '"@ + word + "' to dictionary: "@ + err
}

/// Whether `add` leaves the dictionary alone because the word is already
/// accepted: without an affix the word itself must be accepted; with an
/// affix and a test word both must be; with an affix alone it never is.
pub open spec fn add_skipped(
    accepted: Set<Seq<char>>,
    word: Seq<char>,
    test_word: Option<&str>,
    affix: Option<&str>,
) -> bool {
    match (test_word, affix) {
        (Some(t), Some(_)) => accepted.contains(word) && accepted.contains(t@),
        (None, Some(_)) => false,
        (_, None) => accepted.contains(word),
    }
}

/// The view of an optional text.
pub open spec fn affix_view(affix: Option<&str>) -> Option<Seq<char>> {
    match affix {
        Some(a) => Some(a@),
        None => None,
    }
}

/// The line given to the dictionary to add `word`, with its affix flags.
pub open spec fn add_input(word: Seq<char>, affix: Option<Seq<char>>) -> Seq<char> {
    match affix {
        Some(a) => word + "/"@ + a,
        None => word,
    }
}

impl DictionaryWrapper {
    /// The words the dictionary accepts.
    pub closed spec fn accepted(self) -> Set<Seq<char>> {
        spellbook_accepted(self.dict)
    }

    /// The spellbook dictionary underneath.
    pub closed spec fn dictionary(self) -> spellbook::Dictionary {
        self.dict
    }

    /// The live stems of the dictionary.
    pub closed spec fn live(self) -> Set<Seq<char>> {
        spellbook_live_stems(self.dict)
    }

    /// The language code of the dictionary, if its file name gave one.
    pub closed spec fn code(self) -> Option<String> {
        self.lang_code
    }

    /// The words that were added, in order.
    pub closed spec fn added(self) -> Seq<Seq<char>> {
        words_view(self.added_words@)
    }

    /// Reads a dictionary from the bytes of its `.aff` and `.dic` files.
    /// Each file is decoded in the encoding that its bytes suggest; a file
    /// with malformed bytes is refused. The labels name the files in error
    /// messages; the language code is taken from the `.dic` file name.
    pub fn new(
        aff_bytes: &[u8],
        dic_bytes: &[u8],
        aff_label: &str,
        dic_label: &str,
        dic_file_name: Option<&str>,
    ) -> (loaded: Result<Self, CheeseError>)
        ensures
            ({
                let (aff, aff_enc, aff_bad) = detected_decoding(aff_bytes@);
                let (dic, dic_enc, dic_bad) = detected_decoding(dic_bytes@);
                if aff_bad {
                    loaded matches Err(e) && e.message@ == bad_characters_message(aff_label@, aff_enc)
                } else if dic_bad {
                    loaded matches Err(e) && e.message@ == bad_characters_message(dic_label@, dic_enc)
                } else {
                    match spellbook_load(aff, dic) {
                        None => loaded matches Err(e) && exists|err: Seq<char>|
                            e.message@ == #[trigger] load_error_message(aff_label@, dic_label@, err),
                        Some(words) => loaded matches Ok(d) && d.accepted() == words && d.added()
                            == Seq::<Seq<char>>::empty() && match dic_file_name {
                            Some(name) => match lang_code_of(name@) {
                                Some(code) => d.code() matches Some(c) && c@ == code,
                                None => d.code() is None,
                            },
                            None => d.code() is None,
                        },
                    }
                }
            }),
    {
        let aff = decode_detected(aff_bytes);
        let dic = decode_detected(dic_bytes);
        if aff.replaced {
            return Err(CheeseError::new(bad_characters(aff_label, aff.encoding.as_str())));
        }
        if dic.replaced {
            return Err(CheeseError::new(bad_characters(dic_label, dic.encoding.as_str())));
        }
        let dict = match dictionary_new(aff.text.as_str(), dic.text.as_str()) {
            Ok(dict) => dict,
            Err(err) => {
                let mut message = String::from_str("Error loading dictionary from ");
                message.append(aff_label);
                message.append(" and ");
                message.append(dic_label);
                message.append(":\n");
                message.append(err.as_str());
                assert(message@ == load_error_message(aff_label@, dic_label@, err@));
                return Err(CheeseError::new(message));
            },
        };
        let lang_code = match dic_file_name {
            Some(name) => lang_code(name),
            None => None,
        };
        Ok(DictionaryWrapper { dict, added_words: Vec::new(), lang_code })
    }

    /// Whether the dictionary accepts `word`.
    pub fn check(&self, word: &str) -> (ok: bool)
        ensures
            ok == self.accepted().contains(word@),
    {
        dictionary_check(&self.dict, word)
    }

    /// The words that were added, in order.
    pub fn added_words(&self) -> (words: &Vec<String>)
        ensures
            words_view(words@) == self.added(),
    {
        &self.added_words
    }

    /// What `add(word, test_word, affix)` answers and does to the wrapper.
    pub open spec fn add_post(
        pre: Self,
        post: Self,
        word: Seq<char>,
        test_word: Option<&str>,
        affix: Option<&str>,
        r: Result<bool, CheeseError>,
    ) -> bool {
        &&& add_skipped(pre.accepted(), word, test_word, affix) ==> {
            &&& r == Ok::<bool, CheeseError>(false)
            &&& post.dictionary() == pre.dictionary()
            &&& post.added() == pre.added()
        }
        &&& !add_skipped(pre.accepted(), word, test_word, affix) ==> match r {
            Ok(added) => {
                &&& added
                &&& post.added() == pre.added().push(word)
                &&& post.accepted() == spellbook_added(
                    pre.dictionary(),
                    add_input(word, affix_view(affix)),
                )
            },
            Err(e) => {
                &&& post.accepted() == pre.accepted()
                &&& post.added() == pre.added()
            },
        }
        &&& post.code() == pre.code()
    }

    /// Adds `word` to the dictionary, with `affix` flags when given, unless
    /// it is already accepted: without an affix the word itself must be
    /// accepted; with an affix and a `test_word` (a form that the affix
    /// should produce), both must be; with an affix and no test word it is
    /// always added. The line given to the dictionary is the word, followed
    /// by `/` and the affix when there is one. Answers whether it was added;
    /// an added word is remembered as added. A bare word without an affix
    /// (none of `/`, `\`, space or tab in it) is always added when it is
    /// not accepted yet.
    pub fn add(&mut self, word: &str, test_word: Option<&str>, affix: Option<&str>) -> (r: Result<
        bool,
        CheeseError,
    >)
        ensures
            add_skipped(old(self).accepted(), word@, test_word, affix) ==> {
                &&& r == Ok::<bool, CheeseError>(false)
                &&& final(self).dictionary() == old(self).dictionary()
                &&& final(self).accepted() == old(self).accepted()
                &&& final(self).live() == old(self).live()
                &&& final(self).added() == old(self).added()
            },
            !add_skipped(old(self).accepted(), word@, test_word, affix) && affix is None
                && plain_line(word@) ==> r == Ok::<bool, CheeseError>(true),
            !add_skipped(old(self).accepted(), word@, test_word, affix) ==> match r {
                Ok(added) => {
                    &&& added
                    &&& final(self).added() == old(self).added().push(word@)
                    &&& final(self).accepted() == spellbook_added(
                        old(self).dictionary(),
                        add_input(word@, affix_view(affix)),
                    )
                    &&& old(self).live().subset_of(final(self).live())
                    &&& plain_line(add_input(word@, affix_view(affix))) ==> exists|s: Seq<char>|
                        final(self).live() == #[trigger] old(self).live().insert(s)
                },
                Err(e) => {
                    &&& exists|err: Seq<char>| e.message@ == #[trigger] add_error_message(word@, err)
                    &&& final(self).accepted() == old(self).accepted()
                    &&& final(self).live() == old(self).live()
                    &&& final(self).added() == old(self).added()
                },
            },
            final(self).code() == old(self).code(),
            Self::add_post(*old(self), *final(self), word@, test_word, affix, r),
    {
        let skip = match (test_word, affix) {
            (Some(t), Some(_)) => self.check(word) && self.check(t),
            (None, Some(_)) => false,
            (_, None) => self.check(word),
        };
        if skip {
            return Ok(false);
        }
        let mut input = String::from_str(word);
        if let Some(a) = affix {
            input.append("/");
            input.append(a);
        }
        assert(input@ == add_input(word@, affix_view(affix)));
        let ghost before = self.dict;
        match dictionary_add(&mut self.dict, input.as_str()) {
            Ok(()) => {
                self.added_words.push(String::from_str(word));
                assert(words_view(self.added_words@) =~= old(self).added().push(word@));
                proof {
                    if plain_line(input@) {
                        let s = choose|s: Seq<char>|
                            spellbook_live_stems(self.dict) == #[trigger] spellbook_live_stems(
                                before,
                            ).insert(s);
                        assert(self.live() == old(self).live().insert(s));
                    }
                }
                Ok(true)
            },
            Err(err) => {
                let mut message = String::from_str("Error when adding '");
                message.append(word);
                message.append("' to dictionary: ");
                message.append(err.as_str());
                assert(message@ == add_error_message(word@, err@));
                Err(CheeseError::new(message))
            },
        }
    }

    /// Removes a word *that has been added*: a word that was not added is
    /// left alone (the answer is then `false`). Otherwise every record of
    /// it goes and its stem is removed from the dictionary: the answer is
    /// whether it was a live stem, and afterwards it is not.
    pub fn remove(&mut self, word: &str) -> (removed: bool)
        ensures
            !old(self).added().contains(word@) ==> {
                &&& !removed
                &&& final(self).added() == old(self).added()
                &&& final(self).dictionary() == old(self).dictionary()
                &&& final(self).accepted() == old(self).accepted()
                &&& final(self).live() == old(self).live()
            },
            old(self).added().contains(word@) ==> {
                &&& final(self).added() == remove_all(old(self).added(), word@)
                &&& removed == old(self).live().contains(word@)
                &&& final(self).live() == old(self).live().remove(word@)
                &&& removed ==> final(self).accepted() == spellbook_stem_removed(
                    old(self).dictionary(),
                    word@,
                )
                &&& !removed ==> final(self).accepted() == old(self).accepted()
            },
            final(self).code() == old(self).code(),
    {
        if !contains_word(&self.added_words, word) {
            return false;
        }
        self.added_words = without_word(&self.added_words, word);
        dictionary_remove_stem(&mut self.dict, word)
    }

    /// Removes a word from the dictionary, even one that was not added (see
    /// [`Self::remove`]); forgets it as added. The answer is whether a stem
    /// was removed.
    pub fn full_remove(&mut self, word: &str) -> (removed: bool)
        ensures
            final(self).added() == remove_all(old(self).added(), word@),
            removed == old(self).live().contains(word@),
            final(self).live() == old(self).live().remove(word@),
            removed ==> final(self).accepted() == spellbook_stem_removed(old(self).dictionary(), word@),
            !removed ==> final(self).accepted() == old(self).accepted(),
            final(self).code() == old(self).code(),
    {
        self.added_words = without_word(&self.added_words, word);
        dictionary_remove_stem(&mut self.dict, word)
    }

    /// Fills `out` with suggestions for `word` (it is cleared first). There
    /// are none for an empty word or for a word longer than the dictionary
    /// handles (360 bytes).
    pub fn suggest(&self, word: &str, out: &mut Vec<String>)
        ensures
            word@.len() == 0 ==> final(out)@.len() == 0,
            word@.len() > 360 ==> final(out)@.len() == 0,
    {
        dictionary_suggest(&self.dict, word, out)
    }
}

/// Two wrappers over the same dictionary give the same answers: they accept
/// the same words and have the same live stems.
pub proof fn lemma_same_dictionary_same_answers(a: DictionaryWrapper, b: DictionaryWrapper)
    requires
        a.dictionary() == b.dictionary(),
    ensures
        a.accepted() == b.accepted(),
        a.live() == b.live(),
{
}

/// With an affix and no test word, `add` never skips the word, not even
/// when it is already accepted: it hands `word/affix` to the dictionary and
/// answers `Ok(true)` (the word is then recorded as added and the dictionary
/// accepts what adding that line gives), or fails and changes nothing.
pub proof fn lemma_add_with_affix_alone_is_never_skipped(
    pre: DictionaryWrapper,
    post: DictionaryWrapper,
    word: Seq<char>,
    affix: &str,
    r: Result<bool, CheeseError>,
)
    requires
        DictionaryWrapper::add_post(pre, post, word, None, Some(affix), r),
    ensures
        r != Ok::<bool, CheeseError>(false),
        r is Ok ==> {
            &&& r == Ok::<bool, CheeseError>(true)
            &&& post.added() == pre.added().push(word)
            &&& post.accepted() == spellbook_added(pre.dictionary(), word + "/"@ + affix@)
        },
        r is Err ==> post.accepted() == pre.accepted() && post.added() == pre.added(),
{
}

/// The message for a file with malformed bytes.
fn bad_characters(label: &str, encoding: &str) -> (message: String)
    ensures
        message@ == bad_characters_message(label@, encoding@),
{
    let mut message = String::from_str("Found unexpected characters in dictionary aff file ");
    message.append(label);
    message.append(" (encoding: Encoding { name: \"");
    message.append(encoding);
    message.append("\", .. })");
    message
}

/// The language code of a dictionary file name.
fn lang_code(name: &str) -> (code: Option<String>)
    ensures
        match lang_code_of(name@) {
            Some(c) => code matches Some(s) && s@ == c,
            None => code is None,
        },
{
    let chars = crate::text::to_chars(name);
    let underscore = crate::text::to_chars("_");
    proof {
        reveal_strlit("_");
        assert(underscore@ =~= seq!['_']);
        assert(chars@.take(chars@.len() as int) =~= chars@);
    }
    match crate::text::find_from(chars.as_slice(), chars.len(), underscore.as_slice(), 0) {
        Some(i) => {
            proof {
                crate::text::lemma_first_match_from_found(chars@, seq!['_'], 0);
            }
            let prefix = name.substring_char(0, i);
            assert(prefix@ =~= name@.take(i as int));
            Some(prefix.to_owned())
        },
        None => None,
    }
}

/// Whether `word` is among `words`.
fn contains_word(words: &Vec<String>, word: &str) -> (found: bool)
    ensures
        found == words_view(words@).contains(word@),
{
    let mut i: usize = 0;
    while i < words.len()
        invariant
            i <= words@.len(),
            forall|j: int| 0 <= j < i ==> words@[j]@ != word@,
        decreases words@.len() - i,
    {
        if str_eq(words[i].as_str(), word) {
            assert(words_view(words@)[i as int] == word@);
            return true;
        }
        i = i + 1;
    }
    assert forall|j: int| 0 <= j < words_view(words@).len() implies words_view(words@)[j]
        != word@ by {
        assert(words_view(words@)[j] == words@[j]@);
    }
    false
}

/// `words` without the entries equal to `word`.
fn without_word(words: &Vec<String>, word: &str) -> (kept: Vec<String>)
    ensures
        words_view(kept@) == remove_all(words_view(words@), word@),
{
    let mut kept: Vec<String> = Vec::new();
    let mut i: usize = 0;
    while i < words.len()
        invariant
            i <= words@.len(),
            words_view(kept@) == remove_all(words_view(words@).take(i as int), word@),
        decreases words@.len() - i,
    {
        let ghost before = words_view(words@).take(i as int);
        assert(words_view(words@).take(i + 1).drop_last() =~= before);
        assert(words_view(words@).take(i + 1).last() == words@[i as int]@);
        if !str_eq(words[i].as_str(), word) {
            kept.push(words[i].clone());
            assert(words_view(kept@) =~= remove_all(before, word@).push(words@[i as int]@));
        }
        i = i + 1;
    }
    assert(words_view(words@).take(words@.len() as int) =~= words_view(words@));
    kept
}

} // verus!
