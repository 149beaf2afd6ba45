//! The text of a statement under construction, with the parameters that its
//! placeholders stand for.

use crate::json::{JsonValue, JsonValueView};
use vstd::prelude::*;

verus! {

/// A value handed to the database beside the statement text.
#[derive(Debug)]
pub enum Param {
    /// A literal string.
    String(String),
    /// A variable of the request, by name.
    Variable(String),
    /// A JSON value.
    Value(JsonValue),
}

pub enum ParamView {
    String(Seq<char>),
    Variable(Seq<char>),
    Value(JsonValueView),
}

impl View for Param {
    type V = ParamView;

    open spec fn view(&self) -> ParamView {
        match self {
            Param::String(s) => ParamView::String(s@),
            Param::Variable(name) => ParamView::Variable(name@),
            Param::Value(value) => ParamView::Value(value@),
        }
    }
}

/// Statement text and the parameters of its placeholders, in order.
#[derive(Debug)]
pub struct SQL {
    pub sql: String,
    pub params: Vec<Param>,
}

/// What a rendering has produced: text and parameters.
#[verifier::ext_equal]
pub struct SQLView {
    pub sql: Seq<char>,
    pub params: Seq<ParamView>,
}

/// A statement that is run beside a query.
#[derive(Debug)]
pub struct Statement(pub SQL);

/// The values of a list of parameters, in order.
pub open spec fn params_view(params: Seq<Param>) -> Seq<ParamView> {
    params.map_values(|p: Param| p@)
}

impl View for SQL {
    type V = SQLView;

    open spec fn view(&self) -> SQLView {
        SQLView { sql: self.sql@, params: params_view(self.params@) }
    }
}

impl View for Statement {
    type V = SQLView;

    open spec fn view(&self) -> SQLView {
        self.0@
    }
}

/// An identifier as it stands in statement text: between double quotes.
pub open spec fn quoted(name: Seq<char>) -> Seq<char> {
    "\""@ + name + "\""@
}

/// The placeholder that stands for a parameter in statement text.
pub open spec fn placeholder() -> Seq<char> {
    "?"@
}

impl SQLView {
    /// The rendering with `text` added at the end of the statement text.
    pub open spec fn with_text(self, text: Seq<char>) -> SQLView {
        SQLView { sql: self.sql + text, params: self.params }
    }

    /// The rendering with a placeholder added for one more parameter.
    pub open spec fn with_param(self, param: ParamView) -> SQLView {
        SQLView { sql: self.sql + placeholder(), params: self.params.push(param) }
    }

    /// A rendering that holds nothing.
    pub open spec fn empty() -> SQLView {
        SQLView { sql: Seq::empty(), params: Seq::empty() }
    }
}

impl SQL {
    /// An empty statement.
    pub fn new() -> (sql: SQL)
        ensures
            sql@ == SQLView::empty(),
    {
        let sql = SQL { sql: String::new(), params: Vec::new() };
        assert(sql@.params =~= Seq::empty());
        sql
    }

    /// Adds keywords or punctuation as they are.
    pub fn append_syntax(&mut self, sql: &str)
        ensures
            final(self)@ == old(self)@.with_text(sql@),
    {
        self.sql.append(sql);
    }

    /// Adds the name of a table, a column or a type, between double quotes.
    pub fn append_identifier(&mut self, sql: &String)
        ensures
            final(self)@ == old(self)@.with_text(quoted(sql@)),
    {
        self.sql.append("\"");
        self.sql.append(sql.as_str());
        self.sql.append("\"");
        assert(self.sql@ =~= old(self).sql@ + quoted(sql@));
    }

    /// Adds a placeholder to the text and its value to the parameters.
    pub fn append_param(&mut self, param: Param)
        ensures
            final(self)@ == old(self)@.with_param(param@),
    {
        self.params.push(param);
        self.sql.append("?");
        assert(params_view(self.params@) =~= params_view(old(self).params@).push(param@));
    }
}

} // verus!
