//! The parameters of a tool call: named values.

use vstd::prelude::*;

verus! {

/// The value of one parameter.
#[derive(Debug)]
pub enum ParamValue {
    /// A string.
    Text(String),
    /// A whole number that is not negative.
    Number(u64),
    /// Anything else.
    Other,
}

/// The mathematical model of a `ParamValue`.
pub enum ParamValueView {
    Text(Seq<char>),
    Number(nat),
    Other,
}

impl View for ParamValue {
    type V = ParamValueView;

    open spec fn view(&self) -> ParamValueView {
        match self {
            ParamValue::Text(s) => ParamValueView::Text(s@),
            ParamValue::Number(n) => ParamValueView::Number(*n as nat),
            ParamValue::Other => ParamValueView::Other,
        }
    }
}

/// The mathematical model of the parameters of a call.
pub type ParamsView = Map<Seq<char>, ParamValueView>;

/// The value that a list of entries gives to `name`: that of the last entry
/// for it.
pub open spec fn looked_up(entries: Seq<(String, ParamValue)>, name: Seq<char>) -> Option<
    ParamValueView,
>
    decreases entries.len(),
{
    if entries.len() == 0 {
        None
    } else if entries.last().0@ == name {
        Some(entries.last().1@)
    } else {
        looked_up(entries.drop_last(), name)
    }
}

/// The string that `params` give to `name`, if they give it one.
pub open spec fn text_param(params: ParamsView, name: Seq<char>) -> Option<Seq<char>> {
    if params.dom().contains(name) {
        match params[name] {
            ParamValueView::Text(s) => Some(s),
            _ => None,
        }
    } else {
        None
    }
}

/// The number that `params` give to `name`, if they give it one.
pub open spec fn number_param(params: ParamsView, name: Seq<char>) -> Option<nat> {
    if params.dom().contains(name) {
        match params[name] {
            ParamValueView::Number(n) => Some(n),
            _ => None,
        }
    } else {
        None
    }
}

/// The parameters of a tool call.
#[derive(Debug)]
pub struct ToolParams {
    entries: Vec<(String, ParamValue)>,
}

impl View for ToolParams {
    type V = ParamsView;

    closed spec fn view(&self) -> ParamsView {
        Map::new(
            |name: Seq<char>| looked_up(self.entries@, name) is Some,
            |name: Seq<char>| looked_up(self.entries@, name)->0,
        )
    }
}

impl ToolParams {
    /// No parameters.
    pub fn new() -> (p: ToolParams)
        ensures
            p@ == Map::<Seq<char>, ParamValueView>::empty(),
    {
        let p = ToolParams { entries: Vec::new() };
        p
    }

    /// Gives `name` the value `value`, in place of the value it had, if any.
    pub fn insert(&mut self, name: String, value: ParamValue)
        ensures
            final(self)@ == old(self)@.insert(name@, value@),
    {
        let ghost before = self.entries@;
        self.entries.push((name, value));
        assert(self.entries@.drop_last() == before);
    }

    /// Gives `name` the string `value`.
    pub fn with_text(self, name: &str, value: &str) -> (p: ToolParams)
        ensures
            p@ == self@.insert(name@, ParamValueView::Text(value@)),
    {
        let mut p = self;
        p.insert(name.to_owned(), ParamValue::Text(value.to_owned()));
        p
    }

    /// Gives `name` the number `value`.
    pub fn with_number(self, name: &str, value: u64) -> (p: ToolParams)
        ensures
            p@ == self@.insert(name@, ParamValueView::Number(value as nat)),
    {
        let mut p = self;
        p.insert(name.to_owned(), ParamValue::Number(value));
        p
    }

    /// The value of `name`, if it has one.
    pub fn get(&self, name: &str) -> (r: Option<&ParamValue>)
        ensures
            match r {
                Some(v) => self@.dom().contains(name@) && self@[name@] == v@,
                None => !self@.dom().contains(name@),
            },
    {
        let mut i: usize = self.entries.len();
        assert(self.entries@.take(i as int) == self.entries@);
        while i > 0
            invariant
                i <= self.entries@.len(),
                looked_up(self.entries@.take(i as int), name@) == looked_up(self.entries@, name@),
            decreases i,
        {
            assert(self.entries@.take(i as int).drop_last() == self.entries@.take(i - 1));
            if crate::text::str_equal(self.entries[i - 1].0.as_str(), name) {
                return Some(&self.entries[i - 1].1);
            }
            i = i - 1;
        }
        None
    }

    /// The string value of `name`, if it has one.
    pub fn text(&self, name: &str) -> (r: Option<&str>)
        ensures
            crate::text::str_view(r) == text_param(self@, name@),
    {
        match self.get(name) {
            Some(ParamValue::Text(s)) => Some(s.as_str()),
            _ => None,
        }
    }

    /// The number that is the value of `name`, if it has one.
    pub fn number(&self, name: &str) -> (r: Option<u64>)
        ensures
            match r {
                Some(n) => number_param(self@, name@) == Some(n as nat),
                None => number_param(self@, name@) is None,
            },
    {
        match self.get(name) {
            Some(ParamValue::Number(n)) => Some(*n),
            _ => None,
        }
    }
}

} // verus!
