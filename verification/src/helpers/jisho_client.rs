//! The dictionary client: what the dictionary service answers to a word
//! search, and the embed that shows the first entry of an answer.

use crate::embed::{Embed, EmbedField, EmbedFieldView, EmbedView};
use crate::text::join;
use vstd::prelude::*;

verus! {

/// serde_json's `Value`: a piece of JSON of any shape. The library carries
/// such values through and looks at nothing inside them.
#[verifier::external_type_specification]
#[verifier::external_body]
pub struct ExValue(serde_json::Value);

/// The colour of an embed that shows a dictionary entry.
pub const FOUND_COLOR: u32 = 0x00FF00;

/// The colour of an embed that reports that nothing was found.
pub const NOT_FOUND_COLOR: u32 = 0xFF0000;

/// The answer to a word search.
#[derive(Debug, PartialEq, Eq)]
pub struct Response {
    pub meta: Meta,
    pub data: Vec<Data>,
}

/// One dictionary entry.
#[derive(Debug, PartialEq, Eq)]
pub struct Data {
    pub slug: String,
    pub is_common: bool,
    pub tags: Vec<String>,
    pub jlpt: Vec<String>,
    pub japanese: Vec<Japanese>,
    pub senses: Vec<Sense>,
    pub attribution: Attribution,
}

/// Where an entry comes from.
#[derive(Debug, PartialEq, Eq)]
pub struct Attribution {
    pub jmdict: bool,
    pub jmnedict: bool,
    pub dbpedia: serde_json::Value,
}

/// A way of writing a word, with its reading.
#[derive(Clone, Debug, PartialEq, Eq)]
pub struct Japanese {
    pub word: Option<String>,
    pub reading: Option<String>,
}

/// One meaning of a word.
#[derive(Debug, PartialEq, Eq)]
pub struct Sense {
    pub english_definitions: Vec<String>,
    pub parts_of_speech: Vec<String>,
    pub links: Vec<Link>,
    pub tags: Vec<String>,
    pub restrictions: Vec<String>,
    pub see_also: Vec<String>,
    pub antonyms: Vec<serde_json::Value>,
    pub source: Vec<Source>,
    pub info: Vec<String>,
    pub sentences: Option<Vec<serde_json::Value>>,
}

/// A link that goes with a meaning.
#[derive(Clone, Debug, PartialEq, Eq)]
pub struct Link {
    pub text: String,
    pub url: String,
}

/// The foreign word that a loan word comes from.
#[derive(Clone, Debug, PartialEq, Eq)]
pub struct Source {
    pub language: String,
    pub word: String,
}

/// The status of an answer.
#[derive(Clone, Debug, PartialEq, Eq)]
pub struct Meta {
    pub status: usize,
}

/// What a word search asks for.
#[derive(Clone, Debug, PartialEq, Eq)]
pub struct RequestOptions {
    pub word: String,
}

/// A word search with the answer to it, once there is one.
#[derive(Debug, PartialEq, Eq)]
pub struct JishoClient {
    pub options: RequestOptions,
    pub response: Option<Response>,
}

/// The address of the search for `word`.
pub open spec fn search_url_of(word: Seq<char>) -> Seq<char> {
    "https://jisho.org/api/v1/search/words?keyword="@ + word
}

/// The first English definition of the first meaning of an entry.
pub open spec fn english_of(entry: Data) -> Seq<char> {
    if entry.senses@.len() > 0 && entry.senses@[0].english_definitions@.len() > 0 {
        entry.senses@[0].english_definitions@[0]@
    } else {
        "Unknown English Translation"@
    }
}

/// The first way of writing an entry.
pub open spec fn japanese_of(entry: Data) -> Seq<char> {
    if entry.japanese@.len() > 0 && entry.japanese@[0].word is Some {
        entry.japanese@[0].word->0@
    } else {
        "No Kana"@
    }
}

/// The reading of the first way of writing an entry.
pub open spec fn reading_of(entry: Data) -> Seq<char> {
    if entry.japanese@.len() > 0 && entry.japanese@[0].reading is Some {
        entry.japanese@[0].reading->0@
    } else {
        "No Reading"@
    }
}

/// The links to the page of an entry and to the search for a word.
pub open spec fn extras_of(slug: Seq<char>, word: Seq<char>) -> Seq<char> {
    "[📗](https://jisho.org/word/"@ + slug + ") | [🔍](https://jisho.org/search/"@ + word + ")"@
}

/// The embed that shows `entry` as the answer to the search for `word`.
pub open spec fn entry_embed(entry: Data, word: Seq<char>) -> EmbedView {
    EmbedView {
        title: ""@,
        description: ""@,
        url: None,
        thumbnail: None,
        footer: None,
        fields: seq![
            EmbedFieldView { name: "Word searched"@, value: word, inline: Some(false) },
            EmbedFieldView { name: "English"@, value: english_of(entry), inline: Some(true) },
            EmbedFieldView { name: "Japanese"@, value: japanese_of(entry), inline: Some(true) },
            EmbedFieldView { name: "Reading"@, value: reading_of(entry), inline: Some(true) },
            EmbedFieldView {
                name: "Extras"@,
                value: extras_of(entry.slug@, word),
                inline: Some(false),
            },
        ],
        color: Some(FOUND_COLOR),
    }
}

/// The embed that reports that nothing was found.
pub open spec fn not_found_embed() -> EmbedView {
    EmbedView {
        title: "Error"@,
        description: "No data found for that word"@,
        url: None,
        thumbnail: None,
        footer: None,
        fields: Seq::empty(),
        color: Some(NOT_FOUND_COLOR),
    }
}

/// The embed of a word search: that of the first entry of the answer, and
/// that of nothing found where there is no answer or no entry in it.
pub open spec fn search_embed(client: JishoClient) -> EmbedView {
    match client.response {
        Some(response) => if response.data@.len() > 0 {
            entry_embed(response.data@[0], client.options.word@)
        } else {
            not_found_embed()
        },
        None => not_found_embed(),
    }
}

/// The first English definition of the first meaning of `entry`.
fn english(entry: &Data) -> (text: String)
    ensures
        text@ == english_of(*entry),
{
    if entry.senses.len() > 0 && entry.senses[0].english_definitions.len() > 0 {
        entry.senses[0].english_definitions[0].clone()
    } else {
        "Unknown English Translation".to_owned()
    }
}

/// The first way of writing `entry`.
fn japanese(entry: &Data) -> (text: String)
    ensures
        text@ == japanese_of(*entry),
{
    if entry.japanese.len() > 0 {
        match &entry.japanese[0].word {
            Some(word) => word.clone(),
            None => "No Kana".to_owned(),
        }
    } else {
        "No Kana".to_owned()
    }
}

/// The reading of the first way of writing `entry`.
fn reading(entry: &Data) -> (text: String)
    ensures
        text@ == reading_of(*entry),
{
    if entry.japanese.len() > 0 {
        match &entry.japanese[0].reading {
            Some(reading) => reading.clone(),
            None => "No Reading".to_owned(),
        }
    } else {
        "No Reading".to_owned()
    }
}

/// The embed that reports that nothing was found.
fn not_found() -> (embed: Embed)
    ensures
        embed@ == not_found_embed(),
{
    Embed::plain("Error".to_owned(), "No data found for that word".to_owned(), NOT_FOUND_COLOR)
}

impl JishoClient {
    /// A search for `word`, not yet answered.
    pub fn new(word: String) -> (client: JishoClient)
        ensures
            client.options.word == word,
            client.response is None,
    {
        JishoClient { options: RequestOptions { word }, response: None }
    }

    /// The address that the search is sent to.
    pub fn search_url(&self) -> (url: String)
        ensures
            url@ == search_url_of(self.options.word@),
    {
        join("https://jisho.org/api/v1/search/words?keyword=", self.options.word.as_str())
    }

    /// Takes the answer that the dictionary service gave to the search.
    pub fn api_get_word(&mut self, response: Response)
        ensures
            final(self).options == old(self).options,
            final(self).response == Some(response),
    {
        self.response = Some(response);
    }

    /// The embed that shows the first entry of the answer, or that nothing
    /// was found.
    pub fn construct_embed(&self) -> (embed: Embed)
        ensures
            embed@ == search_embed(*self),
    {
        let response = match &self.response {
            Some(response) => response,
            None => {
                return not_found();
            },
        };
        if response.data.len() == 0 {
            return not_found();
        }
        let entry = &response.data[0];
        let word = self.options.word.as_str();
        let mut extras = join("[📗](https://jisho.org/word/", entry.slug.as_str());
        extras.append(") | [🔍](https://jisho.org/search/");
        extras.append(word);
        extras.append(")");
        let mut fields: Vec<EmbedField> = Vec::new();
        fields.push(EmbedField::new("Word searched", word.to_owned(), false));
        fields.push(EmbedField::new("English", english(entry), true));
        fields.push(EmbedField::new("Japanese", japanese(entry), true));
        fields.push(EmbedField::new("Reading", reading(entry), true));
        fields.push(EmbedField::new("Extras", extras, false));
        let embed = Embed {
            title: "".to_owned(),
            description: "".to_owned(),
            url: None,
            thumbnail: None,
            footer: None,
            fields,
            color: Some(FOUND_COLOR),
        };
        assert(embed@.fields =~= entry_embed(*entry, word@).fields);
        embed
    }
}

} // verus!
