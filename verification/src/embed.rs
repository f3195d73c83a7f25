//! The embed structures that responses are rendered into.

use vstd::prelude::*;

verus! {

/// A small picture shown beside an embed.
#[derive(Clone, Debug, PartialEq, Eq)]
pub struct Thumbnail {
    pub url: String,
}

/// The line of text under an embed.
#[derive(Clone, Debug, PartialEq, Eq)]
pub struct EmbedFooter {
    pub text: String,
}

/// One named value of an embed.
#[derive(Clone, Debug, PartialEq, Eq)]
pub struct EmbedField {
    pub name: String,
    pub value: String,
    pub inline: Option<bool>,
}

/// A rich message: a title, a description, fields and decorations.
#[derive(Clone, Debug, PartialEq, Eq)]
pub struct Embed {
    pub title: String,
    pub description: String,
    pub url: Option<String>,
    pub thumbnail: Option<Thumbnail>,
    pub footer: Option<EmbedFooter>,
    pub fields: Vec<EmbedField>,
    pub color: Option<u32>,
}

/// What an `EmbedField` holds, as mathematical values.
pub struct EmbedFieldView {
    pub name: Seq<char>,
    pub value: Seq<char>,
    pub inline: Option<bool>,
}

/// What an `Embed` holds, as mathematical values. A thumbnail stands for its
/// address and a footer for its text.
pub struct EmbedView {
    pub title: Seq<char>,
    pub description: Seq<char>,
    pub url: Option<Seq<char>>,
    pub thumbnail: Option<Seq<char>>,
    pub footer: Option<Seq<char>>,
    pub fields: Seq<EmbedFieldView>,
    pub color: Option<u32>,
}

impl View for EmbedField {
    type V = EmbedFieldView;

    open spec fn view(&self) -> EmbedFieldView {
        EmbedFieldView { name: self.name@, value: self.value@, inline: self.inline }
    }
}

impl View for Embed {
    type V = EmbedView;

    open spec fn view(&self) -> EmbedView {
        EmbedView {
            title: self.title@,
            description: self.description@,
            url: match self.url {
                Some(url) => Some(url@),
                None => None,
            },
            thumbnail: match self.thumbnail {
                Some(thumbnail) => Some(thumbnail.url@),
                None => None,
            },
            footer: match self.footer {
                Some(footer) => Some(footer.text@),
                None => None,
            },
            fields: self.fields@.map_values(|field: EmbedField| field@),
            color: self.color,
        }
    }
}

/// The views of a list of embeds.
pub open spec fn embed_views(embeds: Seq<Embed>) -> Seq<EmbedView> {
    embeds.map_values(|embed: Embed| embed@)
}

/// The colour of the embeds that report on currency exchange.
pub const EXCHANGE_COLOR: u32 = 0xfdc835;

/// An embed without fields or decorations.
pub open spec fn plain_embed(title: Seq<char>, description: Seq<char>, color: u32) -> EmbedView {
    EmbedView {
        title,
        description,
        url: None,
        thumbnail: None,
        footer: None,
        fields: Seq::empty(),
        color: Some(color),
    }
}

impl Embed {
    /// An embed with a title, a description and a colour, and nothing else.
    pub fn plain(title: String, description: String, color: u32) -> (embed: Embed)
        ensures
            embed@ == plain_embed(title@, description@, color),
    {
        let embed = Embed {
            title,
            description,
            url: None,
            thumbnail: None,
            footer: None,
            fields: Vec::new(),
            color: Some(color),
        };
        assert(embed@.fields =~= Seq::empty());
        embed
    }
}

impl EmbedField {
    /// A field with the given name and value.
    pub fn new(name: &str, value: String, inline: bool) -> (field: EmbedField)
        ensures
            field@ == (EmbedFieldView { name: name@, value: value@, inline: Some(inline) }),
    {
        EmbedField { name: name.to_owned(), value, inline: Some(inline) }
    }
}

} // verus!
