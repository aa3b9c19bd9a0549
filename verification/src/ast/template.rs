//! Templates: text made of literal pieces and `{{ }}` placeholders.

use vstd::prelude::*;
use vstd::string::*;
use crate::ast::primitive::{SourceInfo, Whitespace};
use crate::text::{joined, lemma_joined_step, push_char};

verus! {

/// A function that a placeholder can call.
#[derive(Clone, Copy, Debug, PartialEq, Eq)]
pub enum Function {
    NewDate,
    NewUuid,
}

impl Function {
    pub open spec fn name(&self) -> Seq<char> {
        match self {
            Function::NewDate => "newDate"@,
            Function::NewUuid => "newUuid"@,
        }
    }

    /// The name that a document calls this function by.
    pub fn identifier(&self) -> (s: &'static str)
        ensures
            s@ == self.name(),
    {
        match self {
            Function::NewDate => "newDate",
            Function::NewUuid => "newUuid",
        }
    }
}

/// A variable named in a placeholder.
#[derive(Debug, PartialEq, Eq)]
pub struct Variable {
    pub name: String,
    pub source_info: SourceInfo,
}

impl Clone for Variable {
    /// A copy of the variable: the same name, read from the same place.
    fn clone(&self) -> (copy: Variable)
        ensures
            copy == *self,
    {
        Variable { name: self.name.clone(), source_info: self.source_info }
    }
}

/// What a placeholder evaluates.
#[derive(Debug, PartialEq, Eq)]
pub enum ExprKind {
    Variable(Variable),
    Function(Function),
}

impl Clone for ExprKind {
    fn clone(&self) -> (copy: ExprKind)
        ensures
            copy == *self,
    {
        match self {
            ExprKind::Variable(v) => ExprKind::Variable(v.clone()),
            ExprKind::Function(f) => ExprKind::Function(*f),
        }
    }
}

/// The expression inside a placeholder.
#[derive(Debug, PartialEq, Eq)]
pub struct Expr {
    pub kind: ExprKind,
    pub source_info: SourceInfo,
}

impl Clone for Expr {
    /// A copy of the expression, equal to it in every part.
    fn clone(&self) -> (copy: Expr)
        ensures
            copy == *self,
    {
        Expr { kind: self.kind.clone(), source_info: self.source_info }
    }
}

impl Expr {
    pub open spec fn source(&self) -> Seq<char> {
        match self.kind {
            ExprKind::Variable(v) => v.name@,
            ExprKind::Function(f) => f.name(),
        }
    }

    /// The expression as the document writes it.
    pub fn to_source(&self) -> (s: String)
        ensures
            s@ == self.source(),
    {
        match &self.kind {
            ExprKind::Variable(v) => v.name.clone(),
            ExprKind::Function(f) => f.identifier().to_string(),
        }
    }
}

/// A placeholder: an expression between `{{` and `}}`.
#[derive(Debug, PartialEq, Eq)]
pub struct Placeholder {
    pub space0: Whitespace,
    pub expr: Expr,
    pub space1: Whitespace,
}

impl Clone for Placeholder {
    /// A copy of the placeholder, equal to it in every part.
    fn clone(&self) -> (copy: Placeholder)
        ensures
            copy == *self,
    {
        Placeholder {
            space0: self.space0.clone(),
            expr: self.expr.clone(),
            space1: self.space1.clone(),
        }
    }
}

impl Placeholder {
    pub open spec fn source(&self) -> Seq<char> {
        seq!['{', '{'] + self.space0.source() + self.expr.source() + self.space1.source() + seq![
            '}',
            '}',
        ]
    }

    /// The placeholder without the blank space inside its braces.
    pub open spec fn display(&self) -> Seq<char> {
        seq!['{', '{'] + self.expr.source() + seq!['}', '}']
    }

    /// The placeholder as the document writes it.
    pub fn to_source(&self) -> (s: String)
        ensures
            s@ == self.source(),
    {
        let mut s = String::new();
        push_char(&mut s, '{');
        push_char(&mut s, '{');
        s.append(self.space0.as_str());
        let expr = self.expr.to_source();
        s.append(expr.as_str());
        s.append(self.space1.as_str());
        push_char(&mut s, '}');
        push_char(&mut s, '}');
        proof {
            assert(s@ =~= self.source());
        }
        s
    }

    /// The placeholder without the blank space inside its braces.
    pub fn to_display(&self) -> (s: String)
        ensures
            s@ == self.display(),
    {
        let mut s = String::new();
        push_char(&mut s, '{');
        push_char(&mut s, '{');
        let expr = self.expr.to_source();
        s.append(expr.as_str());
        push_char(&mut s, '}');
        push_char(&mut s, '}');
        proof {
            assert(s@ =~= self.display());
        }
        s
    }
}

/// One piece of a template. A literal piece keeps both what it means (`value`)
/// and how the document spells it (`source`): the two differ where the
/// document uses an escape.
#[derive(Debug, PartialEq, Eq)]
pub enum TemplateElement {
    String { value: String, source: String },
    Placeholder(Placeholder),
}

impl Clone for TemplateElement {
    /// A copy of the piece, equal to it in every part.
    fn clone(&self) -> (copy: TemplateElement)
        ensures
            copy == *self,
    {
        match self {
            TemplateElement::String { value, source } => TemplateElement::String {
                value: value.clone(),
                source: source.clone(),
            },
            TemplateElement::Placeholder(p) => TemplateElement::Placeholder(p.clone()),
        }
    }
}

impl TemplateElement {
    pub open spec fn source(&self) -> Seq<char> {
        match self {
            TemplateElement::String { value, source } => source@,
            TemplateElement::Placeholder(p) => p.source(),
        }
    }

    pub open spec fn display(&self) -> Seq<char> {
        match self {
            TemplateElement::String { value, source } => value@,
            TemplateElement::Placeholder(p) => p.display(),
        }
    }

    /// The piece as the document writes it.
    pub fn to_source(&self) -> (s: String)
        ensures
            s@ == self.source(),
    {
        match self {
            TemplateElement::String { value, source } => source.clone(),
            TemplateElement::Placeholder(p) => p.to_source(),
        }
    }

    /// The piece as it reads with its escapes resolved.
    pub fn to_display(&self) -> (s: String)
        ensures
            s@ == self.display(),
    {
        match self {
            TemplateElement::String { value, source } => value.clone(),
            TemplateElement::Placeholder(p) => p.to_display(),
        }
    }
}

/// The text of an optional delimiter: nothing where there is none.
pub open spec fn delimiter_source(delimiter: Option<char>) -> Seq<char> {
    match delimiter {
        Some(c) => seq![c],
        None => Seq::empty(),
    }
}

/// A template, with the character that encloses it where it has one.
#[derive(Debug, PartialEq, Eq)]
pub struct Template {
    pub delimiter: Option<char>,
    pub elements: Vec<TemplateElement>,
    pub source_info: SourceInfo,
}

impl Clone for Template {
    /// A copy of the template: the same delimiter, the same pieces in the
    /// same order, read from the same place.
    fn clone(&self) -> (copy: Template)
        ensures
            self.same_as(copy),
    {
        let mut elements: Vec<TemplateElement> = Vec::new();
        let mut i: usize = 0;
        while i < self.elements.len()
            invariant
                i <= self.elements@.len(),
                elements@ == self.elements@.take(i as int),
            decreases self.elements@.len() - i,
        {
            elements.push(self.elements[i].clone());
            i = i + 1;
            proof {
                assert(elements@ =~= self.elements@.take(i as int));
            }
        }
        proof {
            assert(self.elements@.take(i as int) =~= self.elements@);
        }
        Template { delimiter: self.delimiter, elements, source_info: self.source_info }
    }
}

impl Template {
    pub fn new(
        delimiter: Option<char>,
        elements: Vec<TemplateElement>,
        source_info: SourceInfo,
    ) -> (t: Template)
        ensures
            t.delimiter == delimiter,
            t.elements == elements,
            t.source_info == source_info,
    {
        Template { delimiter, elements, source_info }
    }

    /// Whether `other` is this template over again: the same delimiter, the
    /// same pieces in the same order, read from the same place.
    pub open spec fn same_as(&self, other: Template) -> bool {
        &&& self.delimiter == other.delimiter
        &&& self.elements@ == other.elements@
        &&& self.source_info == other.source_info
    }

    /// The template as the document writes it: its pieces between its
    /// delimiters.
    pub open spec fn source(&self) -> Seq<char> {
        delimiter_source(self.delimiter) + joined(
            self.elements@,
            |e: TemplateElement| e.source(),
        ) + delimiter_source(self.delimiter)
    }

    /// The template as it reads with its escapes resolved, without delimiters.
    pub open spec fn display(&self) -> Seq<char> {
        joined(self.elements@, |e: TemplateElement| e.display())
    }

    /// The template as the document writes it.
    pub fn to_source(&self) -> (s: String)
        ensures
            s@ == self.source(),
    {
        let mut s = String::new();
        if let Some(d) = self.delimiter {
            push_char(&mut s, d);
        }
        let ghost f = |e: TemplateElement| e.source();
        let mut i: usize = 0;
        while i < self.elements.len()
            invariant
                i <= self.elements@.len(),
                f == (|e: TemplateElement| e.source()),
                s@ == delimiter_source(self.delimiter) + joined(self.elements@.take(i as int), f),
            decreases self.elements@.len() - i,
        {
            let piece = self.elements[i].to_source();
            proof {
                lemma_joined_step(self.elements@, f, i as int);
            }
            s.append(piece.as_str());
            i = i + 1;
            proof {
                assert(s@ =~= delimiter_source(self.delimiter) + joined(
                    self.elements@.take(i as int),
                    f,
                ));
            }
        }
        if let Some(d) = self.delimiter {
            push_char(&mut s, d);
        }
        proof {
            assert(self.elements@.take(i as int) =~= self.elements@);
            assert(s@ =~= self.source());
        }
        s
    }

    /// The template as it reads with its escapes resolved.
    pub fn to_display(&self) -> (s: String)
        ensures
            s@ == self.display(),
    {
        let mut s = String::new();
        let ghost f = |e: TemplateElement| e.display();
        let mut i: usize = 0;
        while i < self.elements.len()
            invariant
                i <= self.elements@.len(),
                f == (|e: TemplateElement| e.display()),
                s@ == joined(self.elements@.take(i as int), f),
            decreases self.elements@.len() - i,
        {
            let piece = self.elements[i].to_display();
            proof {
                lemma_joined_step(self.elements@, f, i as int);
            }
            s.append(piece.as_str());
            i = i + 1;
        }
        proof {
            assert(self.elements@.take(i as int) =~= self.elements@);
        }
        s
    }
}

} // verus!
