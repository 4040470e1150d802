//! The rich messages (embeds) the bot sends, as plain data.
use vstd::prelude::*;

verus! {

/// The colour of an embed's side bar.
#[derive(Clone, Copy, Debug, PartialEq, Eq, Structural)]
pub enum Color {
    Red,
    Gold,
    DarkGreen,
    Orange,
}

/// A titled value shown in an embed, inline or on a line of its own.
#[derive(Clone, Debug)]
pub struct EmbedField {
    pub name: String,
    pub value: String,
    pub inline: bool,
}

/// An embed field, as text.
pub struct EmbedFieldView {
    pub name: Seq<char>,
    pub value: Seq<char>,
    pub inline: bool,
}

impl View for EmbedField {
    type V = EmbedFieldView;

    open spec fn view(&self) -> EmbedFieldView {
        EmbedFieldView { name: self.name@, value: self.value@, inline: self.inline }
    }
}

/// The author line of an embed: a name linking to a page, with an icon.
#[derive(Clone, Debug)]
pub struct EmbedAuthor {
    pub name: String,
    pub url: String,
    pub icon_url: String,
}

/// An embed author, as text.
pub struct EmbedAuthorView {
    pub name: Seq<char>,
    pub url: Seq<char>,
    pub icon_url: Seq<char>,
}

impl View for EmbedAuthor {
    type V = EmbedAuthorView;

    open spec fn view(&self) -> EmbedAuthorView {
        EmbedAuthorView { name: self.name@, url: self.url@, icon_url: self.icon_url@ }
    }
}

/// The footer of an embed: a text and an optional icon.
#[derive(Clone, Debug)]
pub struct EmbedFooter {
    pub text: String,
    pub icon_url: Option<String>,
}

/// An embed footer, as text.
pub struct EmbedFooterView {
    pub text: Seq<char>,
    pub icon_url: Option<Seq<char>>,
}

impl View for EmbedFooter {
    type V = EmbedFooterView;

    open spec fn view(&self) -> EmbedFooterView {
        EmbedFooterView { text: self.text@, icon_url: opt_text(self.icon_url) }
    }
}

/// The text of an optional string.
pub open spec fn opt_text(o: Option<String>) -> Option<Seq<char>> {
    match o {
        Some(s) => Some(s@),
        None => None,
    }
}

/// A rich message. What is `None` or empty is left out of it.
#[derive(Clone, Debug)]
pub struct Embed {
    pub title: Option<String>,
    pub description: Option<String>,
    pub color: Option<Color>,
    pub author: Option<EmbedAuthor>,
    pub image: Option<String>,
    pub attachment: Option<String>,
    pub fields: Vec<EmbedField>,
    pub footer: Option<EmbedFooter>,
}

/// An embed, as text.
pub struct EmbedView {
    pub title: Option<Seq<char>>,
    pub description: Option<Seq<char>>,
    pub color: Option<Color>,
    pub author: Option<EmbedAuthorView>,
    pub image: Option<Seq<char>>,
    pub attachment: Option<Seq<char>>,
    pub fields: Seq<EmbedFieldView>,
    pub footer: Option<EmbedFooterView>,
}

impl View for Embed {
    type V = EmbedView;

    open spec fn view(&self) -> EmbedView {
        EmbedView {
            title: opt_text(self.title),
            description: opt_text(self.description),
            color: self.color,
            author: match self.author {
                Some(a) => Some(a@),
                None => None,
            },
            image: opt_text(self.image),
            attachment: opt_text(self.attachment),
            fields: self.fields@.map_values(|f: EmbedField| f@),
            footer: match self.footer {
                Some(f) => Some(f@),
                None => None,
            },
        }
    }
}

/// An embed with nothing in it.
pub open spec fn empty_view() -> EmbedView {
    EmbedView {
        title: None,
        description: None,
        color: None,
        author: None,
        image: None,
        attachment: None,
        fields: Seq::empty(),
        footer: None,
    }
}

/// A field's view from its parts.
pub open spec fn field_view(name: Seq<char>, value: Seq<char>, inline: bool) -> EmbedFieldView {
    EmbedFieldView { name, value, inline }
}

impl Embed {
    /// An embed with nothing in it.
    pub fn empty() -> (e: Embed)
        ensures
            e@ == empty_view(),
    {
        let e = Embed {
            title: None,
            description: None,
            color: None,
            author: None,
            image: None,
            attachment: None,
            fields: Vec::new(),
            footer: None,
        };
        assert(e@.fields =~= Seq::<EmbedFieldView>::empty());
        e
    }

    /// An embed that holds only a description and a colour.
    pub fn notice(description: &str, color: Color) -> (e: Embed)
        ensures
            e@ == (EmbedView { description: Some(description@), color: Some(color), ..empty_view() }),
    {
        let mut e = Embed::empty();
        e.description = Some(description.to_owned());
        e.color = Some(color);
        e
    }

    /// Appends a field.
    pub fn push_field(&mut self, name: &str, value: String, inline: bool)
        ensures
            final(self)@ == (EmbedView {
                fields: old(self)@.fields.push(field_view(name@, value@, inline)),
                ..old(self)@
            }),
    {
        let f = EmbedField { name: name.to_owned(), value, inline };
        self.fields.push(f);
        assert(self@.fields =~= old(self)@.fields.push(field_view(name@, f.value@, inline)));
    }
}

} // verus!
