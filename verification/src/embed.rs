//! What a command answers with, as plain values: the library decides what
//! stands in an embed, and the caller hands it to the chat service.

use crate::text::opt_chars;
use vstd::prelude::*;

verus! {

/// The characters of an optional string.
pub open spec fn opt_text(o: Option<String>) -> Option<Seq<char>> {
    opt_chars(o)
}

/// The colour of an embed's edge: one given by its red, green and blue, or
/// one that the chat library has under a name.
#[derive(Clone, Copy, Debug, PartialEq, Eq, Structural)]
pub enum Colour {
    Rgb(u32),
    FabledPink,
    Blue,
}

/// Who an embed is shown to come from.
#[derive(Clone, Debug, PartialEq, Eq)]
pub struct EmbedAuthor {
    pub name: String,
    pub icon_url: Option<String>,
}

/// An [`EmbedAuthor`] by its characters.
pub struct AuthorView {
    pub name: Seq<char>,
    pub icon_url: Option<Seq<char>>,
}

impl View for EmbedAuthor {
    type V = AuthorView;

    open spec fn view(&self) -> AuthorView {
        AuthorView { name: self.name@, icon_url: opt_text(self.icon_url) }
    }
}

/// One named value of an embed.
#[derive(Clone, Debug, PartialEq, Eq)]
pub struct EmbedField {
    pub name: String,
    pub value: String,
    pub inline: bool,
}

/// An [`EmbedField`] by its characters.
pub struct FieldView {
    pub name: Seq<char>,
    pub value: Seq<char>,
    pub inline: bool,
}

impl View for EmbedField {
    type V = FieldView;

    open spec fn view(&self) -> FieldView {
        FieldView { name: self.name@, value: self.value@, inline: self.inline }
    }
}

/// The line at the foot of an embed.
#[derive(Clone, Debug, PartialEq, Eq)]
pub struct EmbedFooter {
    pub text: String,
    pub icon_url: Option<String>,
}

/// An [`EmbedFooter`] by its characters.
pub struct FooterView {
    pub text: Seq<char>,
    pub icon_url: Option<Seq<char>>,
}

impl View for EmbedFooter {
    type V = FooterView;

    open spec fn view(&self) -> FooterView {
        FooterView { text: self.text@, icon_url: opt_text(self.icon_url) }
    }
}

/// An embed: every part is optional, the fields keep their order.
/// `timestamp` asks for the time of sending to be shown; `ephemeral` asks
/// for the answer to be shown to the caller of the command alone.
#[derive(Clone, Debug, PartialEq, Eq)]
pub struct Embed {
    pub title: Option<String>,
    pub url: Option<String>,
    pub description: Option<String>,
    pub colour: Option<Colour>,
    pub author: Option<EmbedAuthor>,
    pub fields: Vec<EmbedField>,
    pub thumbnail: Option<String>,
    pub image: Option<String>,
    pub footer: Option<EmbedFooter>,
    pub timestamp: bool,
    pub ephemeral: bool,
}

/// An [`Embed`] by its characters.
pub struct EmbedView {
    pub title: Option<Seq<char>>,
    pub url: Option<Seq<char>>,
    pub description: Option<Seq<char>>,
    pub colour: Option<Colour>,
    pub author: Option<AuthorView>,
    pub fields: Seq<FieldView>,
    pub thumbnail: Option<Seq<char>>,
    pub image: Option<Seq<char>>,
    pub footer: Option<FooterView>,
    pub timestamp: bool,
    pub ephemeral: bool,
}

/// The view of each field, in order.
pub open spec fn field_views(fields: Seq<EmbedField>) -> Seq<FieldView> {
    Seq::new(fields.len(), |i: int| fields[i]@)
}

impl View for Embed {
    type V = EmbedView;

    open spec fn view(&self) -> EmbedView {
        EmbedView {
            title: opt_text(self.title),
            url: opt_text(self.url),
            description: opt_text(self.description),
            colour: self.colour,
            author: match self.author {
                Some(a) => Some(a@),
                None => None,
            },
            fields: field_views(self.fields@),
            thumbnail: opt_text(self.thumbnail),
            image: opt_text(self.image),
            footer: match self.footer {
                Some(f) => Some(f@),
                None => None,
            },
            timestamp: self.timestamp,
            ephemeral: self.ephemeral,
        }
    }
}

/// The embed with nothing in it.
pub open spec fn empty_embed() -> EmbedView {
    EmbedView {
        title: None,
        url: None,
        description: None,
        colour: None,
        author: None,
        fields: Seq::empty(),
        thumbnail: None,
        image: None,
        footer: None,
        timestamp: false,
        ephemeral: false,
    }
}

impl Embed {
    /// An embed with nothing in it.
    pub fn new() -> (e: Embed)
        ensures
            e@ == empty_embed(),
    {
        let e = Embed {
            title: None,
            url: None,
            description: None,
            colour: None,
            author: None,
            fields: Vec::new(),
            thumbnail: None,
            image: None,
            footer: None,
            timestamp: false,
            ephemeral: false,
        };
        assert(e@.fields =~= Seq::<FieldView>::empty());
        e
    }

    /// Adds a field after those that are there.
    pub fn field(&mut self, name: String, value: String, inline: bool)
        ensures
            final(self)@ == (EmbedView {
                fields: old(self)@.fields.push(FieldView { name: name@, value: value@, inline }),
                ..old(self)@
            }),
    {
        self.fields.push(EmbedField { name, value, inline });
        assert(self@.fields =~= old(self)@.fields.push(
            FieldView { name: name@, value: value@, inline },
        ));
    }
}

} // verus!
