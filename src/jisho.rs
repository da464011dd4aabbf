//! The dictionary command: the data a word search returns, and the texts of
//! the embed that shows one word.
use vstd::prelude::*;
use vstd::string::{StrSliceExecFns, StringExecFns};
use crate::text::{join, join_strings, utf16_len, utf16_longer_than, views};
use crate::timestamp::{decimal, push_decimal};

verus! {

/// The dictionary command's options: the searched word.
pub struct JishoCommand {
    pub word: String,
}

/// A word search's answer.
pub struct JishoResult {
    pub meta: JishoMetadata,
    pub data: Vec<JishoWord>,
}

/// Status of a word search.
pub struct JishoMetadata {
    pub status: u32,
}

/// One word of a search.
pub struct JishoWord {
    pub slug: String,
    pub is_common: Option<bool>,
    pub tags: Vec<String>,
    pub jlpt: Vec<String>,
    pub japanese: Vec<JishoJapanese>,
    pub senses: Vec<JishoSense>,
    pub attribution: JishoWordAttribution,
}

/// The dictionaries a word comes from.
pub struct JishoWordAttribution {
    pub jmdict: bool,
    pub jmnedict: bool,
    pub dbpedia: Option<String>,
}

/// Recordings of a word.
pub struct JishoWordAudio {
    pub mp3: Option<String>,
    pub ogg: Option<String>,
}

/// One written form of a word, with its reading and the furigana of its
/// characters.
pub struct JishoJapanese {
    pub word: Option<String>,
    pub reading: Option<String>,
    pub furigana: Vec<String>,
}

/// One meaning of a word.
pub struct JishoSense {
    pub english_definitions: Vec<String>,
    pub parts_of_speech: Vec<String>,
    pub links: Vec<JishoSenseLink>,
    pub tags: Vec<String>,
    pub restrictions: Vec<String>,
    pub see_also: Vec<String>,
    pub antonyms: Vec<String>,
    pub source: Vec<String>,
    pub info: Vec<String>,
}

/// A link attached to a meaning.
pub struct JishoSenseLink {
    pub text: String,
    pub url: String,
}

/// Longest value of an embed field, in UTF-16 code units.
pub const FIELD_VALUE_LENGTH: u32 = 1024;

/// Color of the word embeds.
pub const WORD_COLOR: u32 = 0x56D926;

/// One field of an embed, in plain text.
pub struct EmbedFieldText {
    pub name: String,
    pub value: String,
}

/// The texts of the embed that shows one word.
pub struct WordEmbed {
    pub title: String,
    pub url: String,
    pub color: u32,
    pub description: Option<String>,
    pub fields: Vec<EmbedFieldText>,
}

/// Why a word's embed could not be built.
#[derive(Clone, Copy, Debug, PartialEq, Eq, Structural)]
pub enum JishoError {
    /// A meaning appended to the field above it made that field longer than
    /// [`FIELD_VALUE_LENGTH`].
    FieldTooLong,
}

/// Whether `s` begins with `p`.
pub open spec fn has_prefix(s: Seq<char>, p: Seq<char>) -> bool {
    p.len() <= s.len() && s.take(p.len() as int) == p
}

/// The label of one tag of the search results, if it is one that is shown.
pub open spec fn tag_label(tag: Seq<char>) -> Option<Seq<char>> {
    if has_prefix(tag, "wanikani"@) {
        Some("wanikani lvl"@ + tag.skip("wanikani"@.len() as int))
    } else {
        None
    }
}

/// The labels of a list of tags, in order.
pub open spec fn tag_labels(tags: Seq<Seq<char>>) -> Seq<Seq<char>>
    decreases tags.len(),
{
    if tags.len() == 0 {
        Seq::empty()
    } else {
        tag_labels(tags.drop_last()) + match tag_label(tags.last()) {
            Some(l) => seq![l],
            None => Seq::empty(),
        }
    }
}

/// The labels shown under a word's title: "common word" for common words,
/// then one "wanikani lvlN" per "wanikaniN" tag; other tags are not shown.
pub open spec fn word_labels(is_common: Option<bool>, tags: Seq<Seq<char>>) -> Seq<Seq<char>> {
    (if is_common == Some(true) { seq!["common word"@] } else { Seq::empty() }) + tag_labels(tags)
}

/// Restriction note of a meaning.
pub open spec fn restriction_note(x: Seq<char>) -> Seq<char> {
    "Only applies to "@ + x
}

/// Markdown link to a search for `x`.
pub open spec fn see_also_link(x: Seq<char>) -> Seq<char> {
    "["@ + x + "](https://jisho.org/search/"@ + x + ")"@
}

/// Markdown form of a link.
pub open spec fn link_markdown(l: JishoSenseLink) -> Seq<char> {
    "["@ + l.text@ + "]("@ + l.url@ + ")"@
}

/// The text of the meaning numbered `index + 1`: its number, its
/// definitions in bold, then its tags, restrictions, "see also" links,
/// remarks and links, each list joined with ", ".
pub open spec fn sense_content(index: nat, s: JishoSense) -> Seq<char> {
    decimal(index + 1) + ". **"@ + join(views(s.english_definitions@), "; "@) + "**"@ + join(
        views(s.tags@),
        ", "@,
    ) + join(views(s.restrictions@).map_values(|x: Seq<char>| restriction_note(x)), ", "@) + join(
        views(s.see_also@).map_values(|x: Seq<char>| see_also_link(x)),
        ", "@,
    ) + join(views(s.info@), ", "@) + join(
        s.links@.map_values(|l: JishoSenseLink| link_markdown(l)),
        ", "@,
    )
}

/// Name of the field that opens with a meaning: its parts of speech, or a
/// zero-width space when it has none.
pub open spec fn sense_field_name(s: JishoSense) -> Seq<char> {
    if s.parts_of_speech@.len() == 0 {
        "\u{200b}"@
    } else {
        join(views(s.parts_of_speech@), ", "@)
    }
}

/// The fields of the first `k` meanings, as (name, value) pairs. A meaning
/// without parts of speech continues the field above it, on a new line;
/// `None` when such a continuation makes a field too long.
pub open spec fn sense_fields(senses: Seq<JishoSense>, k: nat) -> Option<Seq<(Seq<char>, Seq<char>)>>
    decreases k,
{
    if k == 0 {
        Some(Seq::empty())
    } else {
        match sense_fields(senses, (k - 1) as nat) {
            None => None,
            Some(fs) => {
                let s = senses[k - 1];
                let content = sense_content((k - 1) as nat, s);
                if s.parts_of_speech@.len() == 0 && fs.len() > 0 {
                    let value = fs.last().1 + "\n"@ + content;
                    if utf16_len(value) > FIELD_VALUE_LENGTH {
                        None
                    } else {
                        Some(fs.update(fs.len() - 1, (fs.last().0, value)))
                    }
                } else {
                    Some(fs.push((sense_field_name(s), content)))
                }
            },
        }
    }
}

/// A written form with its reading, as "word 【reading】", when it has both.
pub open spec fn other_form(j: JishoJapanese) -> Option<Seq<char>> {
    match (j.word, j.reading) {
        (Some(w), Some(r)) => Some(w@ + " 【"@ + r@ + "】"@),
        _ => None,
    }
}

/// The other forms among `forms`, in order.
pub open spec fn other_forms(forms: Seq<JishoJapanese>) -> Seq<Seq<char>>
    decreases forms.len(),
{
    if forms.len() == 0 {
        Seq::empty()
    } else {
        other_forms(forms.drop_last()) + match other_form(forms.last()) {
            Some(f) => seq![f],
            None => Seq::empty(),
        }
    }
}

/// The views of a list of fields.
pub open spec fn field_views(fs: Seq<EmbedFieldText>) -> Seq<(Seq<char>, Seq<char>)> {
    fs.map_values(|f: EmbedFieldText| (f.name@, f.value@))
}

/// Whether `s` starts with `p`; if so, what follows it.
fn strip_prefix<'a>(s: &'a str, p: &str) -> (r: Option<&'a str>)
    ensures
        r is Some <==> has_prefix(s@, p@),
        r is Some ==> r->0@ == s@.skip(p@.len() as int),
{
    let n = s.unicode_len();
    let m = p.unicode_len();
    if m > n {
        return None;
    }
    let mut i: usize = 0;
    while i < m
        invariant
            n == s@.len(),
            m == p@.len(),
            m <= n,
            i <= m,
            forall|k: int| 0 <= k < i ==> s@[k] == p@[k],
        decreases m - i,
    {
        if s.get_char(i) != p.get_char(i) {
            assert(s@.take(m as int)[i as int] != p@[i as int]);
            return None;
        }
        i = i + 1;
    }
    assert(s@.take(m as int) =~= p@);
    Some(s.substring_char(m, n))
}

fn restriction_notes(xs: &Vec<String>) -> (r: Vec<String>)
    ensures
        views(r@) == views(xs@).map_values(|x: Seq<char>| restriction_note(x)),
{
    let mut out: Vec<String> = Vec::new();
    let n = xs.len();
    let mut i: usize = 0;
    while i < n
        invariant
            n == xs@.len(),
            i <= n,
            out@.len() == i,
            forall|k: int| 0 <= k < i ==> #[trigger] out@[k]@ == restriction_note(xs@[k]@),
        decreases n - i,
    {
        let mut note = String::from_str("Only applies to ");
        note.append(xs[i].as_str());
        out.push(note);
        i = i + 1;
    }
    assert(views(out@) =~= views(xs@).map_values(|x: Seq<char>| restriction_note(x)));
    out
}

fn see_also_links(xs: &Vec<String>) -> (r: Vec<String>)
    ensures
        views(r@) == views(xs@).map_values(|x: Seq<char>| see_also_link(x)),
{
    let mut out: Vec<String> = Vec::new();
    let n = xs.len();
    let mut i: usize = 0;
    while i < n
        invariant
            n == xs@.len(),
            i <= n,
            out@.len() == i,
            forall|k: int| 0 <= k < i ==> #[trigger] out@[k]@ == see_also_link(xs@[k]@),
        decreases n - i,
    {
        let x = xs[i].as_str();
        let mut link = String::from_str("[");
        link.append(x);
        link.append("](https://jisho.org/search/");
        link.append(x);
        link.append(")");
        out.push(link);
        i = i + 1;
    }
    assert(views(out@) =~= views(xs@).map_values(|x: Seq<char>| see_also_link(x)));
    out
}

fn link_texts(links: &Vec<JishoSenseLink>) -> (r: Vec<String>)
    ensures
        views(r@) == links@.map_values(|l: JishoSenseLink| link_markdown(l)),
{
    let mut out: Vec<String> = Vec::new();
    let n = links.len();
    let mut i: usize = 0;
    while i < n
        invariant
            n == links@.len(),
            i <= n,
            out@.len() == i,
            forall|k: int| 0 <= k < i ==> #[trigger] out@[k]@ == link_markdown(links@[k]),
        decreases n - i,
    {
        let l = &links[i];
        let mut md = String::from_str("[");
        md.append(l.text.as_str());
        md.append("](");
        md.append(l.url.as_str());
        md.append(")");
        out.push(md);
        i = i + 1;
    }
    assert(views(out@) =~= links@.map_values(|l: JishoSenseLink| link_markdown(l)));
    out
}

/// The text of the meaning numbered `index + 1` (see [`sense_content`]).
pub fn format_sense(index: u64, sense: &JishoSense) -> (r: String)
    requires
        index < u64::MAX,
    ensures
        r@ == sense_content(index as nat, *sense),
{
    let mut out = String::new();
    push_decimal(&mut out, index + 1);
    out.append(". **");
    let defs = join_strings(&sense.english_definitions, "; ");
    out.append(defs.as_str());
    out.append("**");
    let tags = join_strings(&sense.tags, ", ");
    out.append(tags.as_str());
    let notes = join_strings(&restriction_notes(&sense.restrictions), ", ");
    out.append(notes.as_str());
    let see_also = join_strings(&see_also_links(&sense.see_also), ", ");
    out.append(see_also.as_str());
    let info = join_strings(&sense.info, ", ");
    out.append(info.as_str());
    let links = join_strings(&link_texts(&sense.links), ", ");
    out.append(links.as_str());
    assert(out@ =~= sense_content(index as nat, *sense));
    out
}

fn forms_after_first(forms: &Vec<JishoJapanese>) -> (r: Vec<String>)
    requires
        forms@.len() >= 1,
    ensures
        views(r@) == other_forms(forms@.skip(1)),
{
    let mut out: Vec<String> = Vec::new();
    let n = forms.len();
    let mut i: usize = 1;
    while i < n
        invariant
            n == forms@.len(),
            1 <= i <= n,
            views(out@) == other_forms(forms@.subrange(1, i as int)),
        decreases n - i,
    {
        let j = &forms[i];
        let ghost before = out@;
        proof {
            let t = forms@.subrange(1, i + 1);
            assert(t.drop_last() =~= forms@.subrange(1, i as int));
            assert(t.last() == *j);
        }
        match (&j.word, &j.reading) {
            (Some(w), Some(reading)) => {
                let mut f = w.clone();
                f.append(" 【");
                f.append(reading.as_str());
                f.append("】");
                out.push(f);
                assert(views(out@) =~= views(before).push(f@));
            },
            _ => {},
        }
        assert(views(out@) =~= other_forms(forms@.subrange(1, i + 1)));
        i = i + 1;
    }
    assert(forms@.subrange(1, n as int) =~= forms@.skip(1));
    out
}

/// Once a continuation is too long, no later meaning makes the fields well.
pub proof fn lemma_sense_fields_none_stays(senses: Seq<JishoSense>, k: nat, m: nat)
    requires
        k <= m,
        sense_fields(senses, k) is None,
    ensures
        sense_fields(senses, m) is None,
    decreases m - k,
{
    if k < m {
        lemma_sense_fields_none_stays(senses, k, (m - 1) as nat);
    }
}

fn build_sense_fields(senses: &Vec<JishoSense>) -> (r: Option<Vec<EmbedFieldText>>)
    ensures
        match sense_fields(senses@, senses@.len()) {
            None => r is None,
            Some(fs) => r is Some && field_views(r->0@) == fs,
        },
{
    let mut fields: Vec<EmbedFieldText> = Vec::new();
    let n = senses.len();
    let mut i: usize = 0;
    while i < n
        invariant
            n == senses@.len(),
            i <= n,
            sense_fields(senses@, i as nat) == Some(field_views(fields@)),
        decreases n - i,
    {
        let sense = &senses[i];
        let content = format_sense(i as u64, sense);
        let ghost before = fields@;
        let ghost fs = field_views(before);
        assert(sense_fields(senses@, (i + 1) as nat) == {
            let s = senses@[i as int];
            let c = sense_content(i as nat, s);
            if s.parts_of_speech@.len() == 0 && fs.len() > 0 {
                let value = fs.last().1 + "\n"@ + c;
                if utf16_len(value) > FIELD_VALUE_LENGTH {
                    None
                } else {
                    Some(fs.update(fs.len() - 1, (fs.last().0, value)))
                }
            } else {
                Some(fs.push((sense_field_name(s), c)))
            }
        });
        if sense.parts_of_speech.len() == 0 && fields.len() > 0 {
            let mut last = fields.pop().unwrap();
            assert(last.value@ == fs.last().1);
            last.value.append("\n");
            last.value.append(content.as_str());
            if utf16_longer_than(last.value.as_str(), FIELD_VALUE_LENGTH) {
                proof {
                    lemma_sense_fields_none_stays(senses@, (i + 1) as nat, n as nat);
                }
                return None;
            }
            fields.push(last);
            assert(field_views(fields@) =~= fs.update(fs.len() - 1, (fs.last().0, last.value@)));
        } else {
            let name = if sense.parts_of_speech.len() == 0 {
                String::from_str("\u{200b}")
            } else {
                join_strings(&sense.parts_of_speech, ", ")
            };
            let field = EmbedFieldText { name, value: content };
            fields.push(field);
            assert(field_views(fields@) =~= fs.push((field.name@, field.value@)));
        }
        i = i + 1;
    }
    Some(fields)
}

/// The title of a word's embed.
pub open spec fn word_title(word: JishoWord) -> Seq<char> {
    word.slug@
}

/// The page of a word on the dictionary site.
pub open spec fn word_url(word: JishoWord) -> Seq<char> {
    "https://jisho.org/word/"@ + word.slug@
}

/// The description of a word's embed: its labels joined with " - ", in
/// bold; none when there is no label.
pub open spec fn word_description(word: JishoWord) -> Option<Seq<char>> {
    let labels = join(word_labels(word.is_common, views(word.tags@)), " - "@);
    if labels.len() == 0 {
        None
    } else {
        Some("**"@ + labels + "**"@)
    }
}

/// The fields of a word's embed: one per meaning, as [`sense_fields`]
/// builds them, then, when the word has more than one written form, an
/// "Other forms" field listing the others, joined with "、".
pub open spec fn word_fields(word: JishoWord) -> Option<Seq<(Seq<char>, Seq<char>)>> {
    match sense_fields(word.senses@, word.senses@.len()) {
        None => None,
        Some(fs) => Some(
            if word.japanese@.len() > 1 {
                fs.push(("Other forms"@, join(other_forms(word.japanese@.skip(1)), "、"@)))
            } else {
                fs
            },
        ),
    }
}

impl JishoCommand {
    /// The labels shown under a word's title (see [`word_labels`]).
    pub fn process_tags(word: &JishoWord) -> (r: Vec<String>)
        ensures
            views(r@) == word_labels(word.is_common, views(word.tags@)),
    {
        let mut out: Vec<String> = Vec::new();
        let common = match word.is_common {
            Some(b) => b,
            None => false,
        };
        if common {
            out.push(String::from_str("common word"));
        }
        let ghost head = views(out@);
        let n = word.tags.len();
        let mut i: usize = 0;
        while i < n
            invariant
                n == word.tags@.len(),
                i <= n,
                head == (if word.is_common == Some(true) { seq!["common word"@] } else { Seq::<Seq<char>>::empty() }),
                views(out@) == head + tag_labels(views(word.tags@).take(i as int)),
            decreases n - i,
        {
            let tag = word.tags[i].as_str();
            proof {
                let t = views(word.tags@).take(i + 1);
                assert(t.drop_last() =~= views(word.tags@).take(i as int));
                assert(t.last() == tag@);
            }
            let ghost before = out@;
            match strip_prefix(tag, "wanikani") {
                Some(level) => {
                    let mut label = String::from_str("wanikani lvl");
                    label.append(level);
                    assert(tag_label(tag@) == Some(label@));
                    out.push(label);
                    assert(views(out@) =~= views(before).push(label@));
                    assert(views(out@) =~= head + tag_labels(views(word.tags@).take(i + 1)));
                },
                None => {
                    assert(views(out@) =~= head + tag_labels(views(word.tags@).take(i + 1)));
                },
            }
            i = i + 1;
        }
        assert(views(word.tags@).take(n as int) =~= views(word.tags@));
        out
    }

    /// The texts of the embed that shows `word`; fails when a meaning
    /// appended to the field above it makes that field too long.
    pub fn make_embed(word: &JishoWord) -> (r: Result<WordEmbed, JishoError>)
        ensures
            word_fields(*word) is None ==> r == Err::<WordEmbed, JishoError>(JishoError::FieldTooLong),
            word_fields(*word) is Some ==> {
                &&& r is Ok
                &&& r->Ok_0.title@ == word_title(*word)
                &&& r->Ok_0.url@ == word_url(*word)
                &&& r->Ok_0.color == WORD_COLOR
                &&& (match r->Ok_0.description {
                    Some(d) => word_description(*word) == Some(d@),
                    None => word_description(*word) is None,
                })
                &&& Some(field_views(r->Ok_0.fields@)) == word_fields(*word)
            },
    {
        let labels = join_strings(&Self::process_tags(word), " - ");
        let description = if labels.unicode_len() == 0 {
            None
        } else {
            let mut d = String::from_str("**");
            d.append(labels.as_str());
            d.append("**");
            Some(d)
        };
        let mut fields = match build_sense_fields(&word.senses) {
            Some(fields) => fields,
            None => return Err(JishoError::FieldTooLong),
        };
        if word.japanese.len() > 1 {
            let forms = join_strings(&forms_after_first(&word.japanese), "、");
            let ghost before = fields@;
            let field = EmbedFieldText { name: String::from_str("Other forms"), value: forms };
            fields.push(field);
            assert(field_views(fields@) =~= field_views(before).push((field.name@, field.value@)));
        }
        let mut url = String::from_str("https://jisho.org/word/");
        url.append(word.slug.as_str());
        Ok(WordEmbed { title: word.slug.clone(), url, color: WORD_COLOR, description, fields })
    }
}

/// What wana_kana's conversion to hiragana gives for `s`.
pub uninterp spec fn hiragana_of(s: Seq<char>) -> Seq<char>;

/// A half-width voiced or semi-voiced sound mark (U+FF9E, U+FF9F).
pub open spec fn is_halfwidth_sound_mark(c: char) -> bool {
    (c as u32) == 0xFF9E || (c as u32) == 0xFF9F
}

/// A text that wana_kana converts to hiragana: it holds no half-width sound
/// mark, on which the conversion's half-width lookup finds no entry and
/// underflows its index (a panic, or a loop that never ends).
pub open spec fn convertible(s: Seq<char>) -> bool {
    forall|i: int| 0 <= i < s.len() ==> !is_halfwidth_sound_mark(#[trigger] s[i])
}

/// Whether wana_kana can convert `s` (see [`convertible`]).
pub fn is_convertible(s: &str) -> (r: bool)
    ensures
        r == convertible(s@),
{
    let n = s.unicode_len();
    let mut i: usize = 0;
    while i < n
        invariant
            n == s@.len(),
            i <= n,
            forall|k: int| 0 <= k < i ==> !is_halfwidth_sound_mark(#[trigger] s@[k]),
        decreases n - i,
    {
        let u = s.get_char(i) as u32;
        if u == 0xFF9E || u == 0xFF9F {
            assert(is_halfwidth_sound_mark(s@[i as int]));
            return false;
        }
        i = i + 1;
    }
    true
}

/// Relies on wana_kana's `ConvertJapanese::to_hiragana` on `&str`, which
/// converts romaji and katakana to hiragana; the result depends on the text
/// alone. Texts with a half-width sound mark are left out: there the
/// conversion does not return.
#[verifier::external_body]
fn to_hiragana(s: &str) -> (r: String)
    requires
        convertible(s@),
    ensures
        r@ == hiragana_of(s@),
{
    wana_kana::ConvertJapanese::to_hiragana(s)
}

/// A hiragana character, or a prolonged sound mark (full or half width).
pub open spec fn is_hiragana_char(c: char) -> bool {
    let u = c as u32;
    (0x3041 <= u && u <= 0x3096) || u == 0x30FC || u == 0xFF70
}

/// A non-empty text of hiragana characters only.
pub open spec fn all_hiragana(s: Seq<char>) -> bool {
    s.len() > 0 && forall|i: int| 0 <= i < s.len() ==> is_hiragana_char(#[trigger] s[i])
}

/// Whether `s` is a non-empty text of hiragana only.
pub fn is_hiragana(s: &str) -> (r: bool)
    ensures
        r == all_hiragana(s@),
{
    let n = s.unicode_len();
    if n == 0 {
        return false;
    }
    let mut i: usize = 0;
    while i < n
        invariant
            n == s@.len(),
            i <= n,
            forall|k: int| 0 <= k < i ==> is_hiragana_char(#[trigger] s@[k]),
        decreases n - i,
    {
        let u = s.get_char(i) as u32;
        if !((0x3041 <= u && u <= 0x3096) || u == 0x30FC || u == 0xFF70) {
            assert(!is_hiragana_char(s@[i as int]));
            return false;
        }
        i = i + 1;
    }
    true
}

/// The word suggested for an empty input.
pub const EXAMPLE_WORD: &'static str = "例え";

/// The suggestions for a typed `input` whose hiragana conversion is
/// `hiragana`: an example word when nothing is typed; else the input, and,
/// when it reads as hiragana, the input in double quotes (an exact search).
pub open spec fn suggestions(input: Seq<char>, hiragana: Seq<char>) -> Seq<Seq<char>> {
    if input.len() == 0 {
        seq![EXAMPLE_WORD@]
    } else if all_hiragana(hiragana) {
        seq![input, "\""@ + input + "\""@]
    } else {
        seq![input]
    }
}

/// The suggestions for `input`, given its hiragana conversion.
pub fn suggestions_for(input: &str, hiragana: &str) -> (r: Vec<String>)
    ensures
        views(r@) == suggestions(input@, hiragana@),
{
    let mut out: Vec<String> = Vec::new();
    if input.unicode_len() == 0 {
        out.push(String::from_str(EXAMPLE_WORD));
    } else {
        out.push(String::from_str(input));
        if is_hiragana(hiragana) {
            let mut quoted = String::from_str("\"");
            quoted.append(input);
            quoted.append("\"");
            out.push(quoted);
        }
    }
    assert(views(out@) =~= suggestions(input@, hiragana@));
    out
}

/// The suggestions offered while the searched word is being typed. A text
/// that cannot be converted to hiragana is offered alone, without the
/// quoted exact search.
pub fn word_suggestions(input: &str) -> (r: Vec<String>)
    ensures
        convertible(input@) ==> views(r@) == suggestions(input@, hiragana_of(input@)),
        !convertible(input@) ==> views(r@) == seq![input@],
{
    if is_convertible(input) {
        let hiragana = to_hiragana(input);
        suggestions_for(input, hiragana.as_str())
    } else {
        let mut out: Vec<String> = Vec::new();
        out.push(String::from_str(input));
        assert(views(out@) =~= seq![input@]);
        out
    }
}

/// `new` is `old` with furigana `f`, when given, put on its first written
/// form; a word without written form is kept as it is.
pub open spec fn furigana_added(old: JishoWord, new: JishoWord, f: Option<Vec<String>>) -> bool {
    &&& new.slug == old.slug
    &&& new.is_common == old.is_common
    &&& new.tags == old.tags
    &&& new.jlpt == old.jlpt
    &&& new.senses == old.senses
    &&& new.attribution == old.attribution
    &&& if f is Some && old.japanese@.len() > 0 {
        &&& new.japanese@.len() == old.japanese@.len()
        &&& new.japanese@.skip(1) == old.japanese@.skip(1)
        &&& new.japanese@[0].word == old.japanese@[0].word
        &&& new.japanese@[0].reading == old.japanese@[0].reading
        &&& new.japanese@[0].furigana == f->0
    } else {
        new.japanese == old.japanese
    }
}

fn add_furigana(word: JishoWord, f: Option<Vec<String>>) -> (r: JishoWord)
    ensures
        furigana_added(word, r, f),
{
    let mut word = word;
    match f {
        Some(f) => if word.japanese.len() > 0 {
            let ghost before = word.japanese@;
            let mut first = word.japanese.remove(0);
            first.furigana = f;
            word.japanese.insert(0, first);
            assert(word.japanese@.skip(1) =~= before.skip(1));
        },
        None => {},
    }
    word
}

/// Gives each word the furigana scraped for it, in order: the `i`-th list
/// goes to the first written form of the `i`-th word. Words beyond the lists
/// keep theirs, lists beyond the words are ignored.
pub fn attach_furigana(words: Vec<JishoWord>, furiganas: Vec<Vec<String>>) -> (r: Vec<JishoWord>)
    ensures
        r@.len() == words@.len(),
        forall|i: int|
            0 <= i < words@.len() ==> furigana_added(
                words@[i],
                #[trigger] r@[i],
                if i < furiganas@.len() {
                    Some(furiganas@[i])
                } else {
                    None
                },
            ),
{
    let ghost ws = words@;
    let ghost fs = furiganas@;
    let mut rest = words;
    let mut lists = furiganas;
    let mut out: Vec<JishoWord> = Vec::new();
    let n = rest.len();
    let mut i: usize = 0;
    while i < n
        invariant
            n == ws.len(),
            i <= n,
            rest@ == ws.skip(i as int),
            lists@ == if i <= fs.len() { fs.skip(i as int) } else { Seq::empty() },
            out@.len() == i,
            forall|k: int|
                0 <= k < i ==> furigana_added(
                    ws[k],
                    #[trigger] out@[k],
                    if k < fs.len() {
                        Some(fs[k])
                    } else {
                        None
                    },
                ),
        decreases n - i,
    {
        let word = rest.remove(0);
        assert(word == ws[i as int]);
        let f = if lists.len() > 0 {
            assert(lists@[0] == fs[i as int]);
            Some(lists.remove(0))
        } else {
            None
        };
        let added = add_furigana(word, f);
        out.push(added);
        proof {
            assert(rest@ =~= ws.skip(i + 1));
            if i + 1 <= fs.len() {
                assert(lists@ =~= fs.skip(i + 1));
            } else {
                assert(lists@ =~= Seq::<Vec<String>>::empty());
            }
        }
        i = i + 1;
    }
    out
}

} // verus!

