//! Multiline strings: text between two lines of three backticks.

use vstd::prelude::*;
use vstd::string::*;
use crate::ast::json::JsonValue;
use crate::ast::primitive::Whitespace;
use crate::ast::template::Template;
use crate::text::push_char;

verus! {

/// A switch that follows the opening backticks.
#[derive(Clone, Copy, Debug, PartialEq, Eq)]
pub enum MultilineStringAttribute {
    Escape,
    NoVariable,
}

impl MultilineStringAttribute {
    pub open spec fn name(&self) -> Seq<char> {
        match self {
            MultilineStringAttribute::Escape => "escape"@,
            MultilineStringAttribute::NoVariable => "novariable"@,
        }
    }

    /// The word that a document writes for this switch.
    pub fn identifier(&self) -> (s: &'static str)
        ensures
            s@ == self.name(),
    {
        match self {
            MultilineStringAttribute::Escape => "escape",
            MultilineStringAttribute::NoVariable => "novariable",
        }
    }
}

/// The variables of a GraphQL query: the word `variables` and a JSON value.
#[derive(Clone, Debug, PartialEq, Eq)]
pub struct GraphQlVariables {
    pub space: Whitespace,
    pub value: JsonValue,
    pub whitespace: Whitespace,
}

impl GraphQlVariables {
    pub open spec fn source(&self) -> Seq<char> {
        "variables"@ + self.space.source() + self.value.source() + self.whitespace.source()
    }

    /// The variables as the document writes them.
    pub fn to_source(&self) -> (s: String)
        ensures
            s@ == self.source(),
    {
        let mut s = "variables".to_string();
        s.append(self.space.as_str());
        let value = self.value.to_source();
        s.append(value.as_str());
        s.append(self.whitespace.as_str());
        s
    }
}

/// The text of optional GraphQL variables: nothing where there are none.
pub open spec fn variables_source(variables: Option<GraphQlVariables>) -> Seq<char> {
    match variables {
        Some(v) => v.source(),
        None => Seq::empty(),
    }
}

/// A GraphQL query, with its variables where it has any.
#[derive(Clone, Debug, PartialEq, Eq)]
pub struct GraphQl {
    pub value: Template,
    pub variables: Option<GraphQlVariables>,
}

impl GraphQl {
    pub open spec fn source(&self) -> Seq<char> {
        self.value.source() + variables_source(self.variables)
    }

    /// The query as the document writes it.
    pub fn to_source(&self) -> (s: String)
        ensures
            s@ == self.source(),
    {
        let mut s = self.value.to_source();
        if let Some(variables) = &self.variables {
            let v = variables.to_source();
            s.append(v.as_str());
        }
        proof {
            assert(s@ =~= self.source());
        }
        s
    }
}

/// What a multiline string holds, by the language named after its backticks.
#[derive(Clone, Debug, PartialEq, Eq)]
pub enum MultilineStringKind {
    Text(Template),
    Json(Template),
    Xml(Template),
    GraphQl(GraphQl),
}

impl MultilineStringKind {
    /// The language as a document names it; plain text has no name.
    pub open spec fn lang(&self) -> Seq<char> {
        match self {
            MultilineStringKind::Text(_) => Seq::empty(),
            MultilineStringKind::Json(_) => "json"@,
            MultilineStringKind::Xml(_) => "xml"@,
            MultilineStringKind::GraphQl(_) => "graphql"@,
        }
    }

    pub open spec fn source(&self) -> Seq<char> {
        match self {
            MultilineStringKind::Text(t) => t.source(),
            MultilineStringKind::Json(t) => t.source(),
            MultilineStringKind::Xml(t) => t.source(),
            MultilineStringKind::GraphQl(g) => g.source(),
        }
    }

    /// The language as a document names it; plain text has no name.
    pub fn identifier(&self) -> (s: &'static str)
        ensures
            s@ == self.lang(),
            (self is Text) == (s@.len() == 0),
    {
        proof {
            reveal_strlit("");
            reveal_strlit("json");
            reveal_strlit("xml");
            reveal_strlit("graphql");
            assert(""@ =~= Seq::<char>::empty());
        }
        match self {
            MultilineStringKind::Text(_) => "",
            MultilineStringKind::Json(_) => "json",
            MultilineStringKind::Xml(_) => "xml",
            MultilineStringKind::GraphQl(_) => "graphql",
        }
    }

    /// The content as the document writes it.
    pub fn to_source(&self) -> (s: String)
        ensures
            s@ == self.source(),
    {
        match self {
            MultilineStringKind::Text(t) => t.to_source(),
            MultilineStringKind::Json(t) => t.to_source(),
            MultilineStringKind::Xml(t) => t.to_source(),
            MultilineStringKind::GraphQl(g) => g.to_source(),
        }
    }
}

/// The switches of a multiline string as a document writes them: separated by
/// commas, and after a comma where a language name stands before them.
pub open spec fn attributes_source(
    lang: Seq<char>,
    attributes: Seq<MultilineStringAttribute>,
) -> Seq<char>
    decreases attributes.len(),
{
    if attributes.len() == 0 {
        Seq::empty()
    } else {
        let front = attributes.drop_last();
        let comma = if front.len() > 0 || lang.len() > 0 {
            seq![',']
        } else {
            Seq::empty()
        };
        attributes_source(lang, front) + comma + attributes.last().name()
    }
}

/// A multiline string: opening backticks, language and switches, the rest of
/// that line, the content, closing backticks.
#[derive(Clone, Debug, PartialEq, Eq)]
pub struct MultilineString {
    pub attributes: Vec<MultilineStringAttribute>,
    pub space: Whitespace,
    pub newline: Whitespace,
    pub kind: MultilineStringKind,
}

impl MultilineString {
    pub open spec fn source(&self) -> Seq<char> {
        seq!['`', '`', '`'] + self.kind.lang() + attributes_source(
            self.kind.lang(),
            self.attributes@,
        ) + self.space.source() + self.newline.source() + self.kind.source() + seq!['`', '`', '`']
    }

    /// The string as the document writes it, backticks included.
    pub fn to_source(&self) -> (s: String)
        ensures
            s@ == self.source(),
    {
        let mut s = String::new();
        push_char(&mut s, '`');
        push_char(&mut s, '`');
        push_char(&mut s, '`');
        let lang = self.kind.identifier();
        s.append(lang);
        let ghost head = s@;
        let mut i: usize = 0;
        while i < self.attributes.len()
            invariant
                i <= self.attributes@.len(),
                lang@ == self.kind.lang(),
                (self.kind is Text) == (lang@.len() == 0),
                s@ == head + attributes_source(lang@, self.attributes@.take(i as int)),
            decreases self.attributes@.len() - i,
        {
            proof {
                assert(self.attributes@.take(i + 1).drop_last() =~= self.attributes@.take(
                    i as int,
                ));
            }
            if i > 0 || !matches!(self.kind, MultilineStringKind::Text(_)) {
                push_char(&mut s, ',');
            }
            s.append(self.attributes[i].identifier());
            i = i + 1;
            proof {
                assert(s@ =~= head + attributes_source(lang@, self.attributes@.take(i as int)));
            }
        }
        proof {
            assert(self.attributes@.take(i as int) =~= self.attributes@);
        }
        s.append(self.space.as_str());
        s.append(self.newline.as_str());
        let content = self.kind.to_source();
        s.append(content.as_str());
        push_char(&mut s, '`');
        push_char(&mut s, '`');
        push_char(&mut s, '`');
        proof {
            assert(s@ =~= self.source());
        }
        s
    }
}

} // verus!
