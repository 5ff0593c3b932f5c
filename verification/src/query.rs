use vstd::prelude::*;
use crate::placeholders::placeholders;

verus! {

/// A value bound to one `$name` variable of a statement.
#[derive(Clone, Debug, PartialEq, Eq)]
pub enum Param {
    Text(String),
    Int(i64),
    /// A single-precision float, carried by its IEEE-754 bit pattern.
    Float32(u32),
}

/// What a [`Param`] holds, as a mathematical value.
pub enum ParamView {
    Text(Seq<char>),
    Int(i64),
    Float32(u32),
}

impl View for Param {
    type V = ParamView;

    open spec fn view(&self) -> ParamView {
        match self {
            Param::Text(s) => ParamView::Text(s@),
            Param::Int(i) => ParamView::Int(*i),
            Param::Float32(b) => ParamView::Float32(*b),
        }
    }
}

/// One variable of a statement: its name (without the `$`) and its value.
#[derive(Clone, Debug, PartialEq, Eq)]
pub struct Binding {
    pub name: String,
    pub value: Param,
}

impl View for Binding {
    type V = (Seq<char>, ParamView);

    open spec fn view(&self) -> (Seq<char>, ParamView) {
        (self.name@, self.value@)
    }
}

/// A SurrealQL statement together with the variables it is executed with.
#[derive(Clone, Debug, PartialEq, Eq)]
pub struct DbQuery {
    pub text: String,
    pub vars: Vec<Binding>,
}

/// The mathematical content of a [`DbQuery`].
pub struct QueryView {
    pub text: Seq<char>,
    pub bindings: Seq<(Seq<char>, ParamView)>,
}

impl View for DbQuery {
    type V = QueryView;

    open spec fn view(&self) -> QueryView {
        QueryView { text: self.text@, bindings: self.vars@.map_values(|b: Binding| b@) }
    }
}

impl QueryView {
    /// No variable name is bound twice.
    pub open spec fn names_distinct(self) -> bool {
        forall|i: int, j: int|
            0 <= i < j < self.bindings.len() ==> #[trigger] self.bindings[i].0
                != #[trigger] self.bindings[j].0
    }

    /// The names bound, in order.
    pub open spec fn names(self) -> Seq<Seq<char>> {
        self.bindings.map_values(|b: (Seq<char>, ParamView)| b.0)
    }

    /// Every variable that the statement mentions is bound, and every bound
    /// variable is mentioned by the statement.
    pub open spec fn binds_its_placeholders(self) -> bool {
        placeholders(self.text).to_set() == self.names().to_set()
    }
}

/// A binding of `name` to a text value.
pub fn text_binding(name: &str, value: String) -> (b: Binding)
    ensures
        b@ == (name@, ParamView::Text(value@)),
{
    Binding { name: name.to_owned(), value: Param::Text(value) }
}

/// A binding of `name` to an integer value.
pub fn int_binding(name: &str, value: i64) -> (b: Binding)
    ensures
        b@ == (name@, ParamView::Int(value)),
{
    Binding { name: name.to_owned(), value: Param::Int(value) }
}

/// A binding of `name` to a single-precision float, given by its bits.
pub fn float32_binding(name: &str, bits: u32) -> (b: Binding)
    ensures
        b@ == (name@, ParamView::Float32(bits)),
{
    Binding { name: name.to_owned(), value: Param::Float32(bits) }
}

} // verus!
