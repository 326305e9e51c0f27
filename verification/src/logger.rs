//! Options of the tables that query results are printed in.

use vstd::prelude::*;

use crate::text::str_eq;

verus! {

/// Colours a table can be drawn in: black on blue, on green, on magenta, or
/// white on black by default.
#[derive(Clone, Copy, Debug, PartialEq, Eq, Structural)]
pub enum TableColor {
    Blue,
    Green,
    Magenta,
    Default,
}

/// How a table is drawn: the colours of its body, first row and first
/// column, and an optional header above it.
#[derive(Debug)]
pub struct TablingOptions {
    pub color: Option<String>,
    pub first_row_color: Option<String>,
    pub first_col_color: Option<String>,
    pub header: Option<String>,
}

/// The colour a colour name stands for.
pub open spec fn color_of(name: Option<Seq<char>>) -> TableColor {
    match name {
        Some(n) => if n == "green"@ {
            TableColor::Green
        } else if n == "magenta"@ {
            TableColor::Magenta
        } else if n == "blue"@ {
            TableColor::Blue
        } else {
            TableColor::Default
        },
        None => TableColor::Default,
    }
}

/// Text of an optional string.
pub open spec fn opt_view(o: Option<String>) -> Option<Seq<char>> {
    match o {
        Some(s) => Some(s@),
        None => None,
    }
}

impl TablingOptions {
    /// The colour a colour name stands for.
    pub fn get_color(&self, color: &Option<String>) -> (r: TableColor)
        ensures
            r == color_of(opt_view(*color)),
    {
        match color {
            Some(c) => if str_eq(c.as_str(), "green") {
                TableColor::Green
            } else if str_eq(c.as_str(), "magenta") {
                TableColor::Magenta
            } else if str_eq(c.as_str(), "blue") {
                TableColor::Blue
            } else {
                TableColor::Default
            },
            None => TableColor::Default,
        }
    }

    /// The colours of the body, the first row and the first column.
    pub fn colors(&self) -> (r: Vec<TableColor>)
        ensures
            r@ == seq![
                color_of(opt_view(self.color)),
                color_of(opt_view(self.first_row_color)),
                color_of(opt_view(self.first_col_color)),
            ],
    {
        let mut v: Vec<TableColor> = Vec::new();
        v.push(self.get_color(&self.color));
        v.push(self.get_color(&self.first_row_color));
        v.push(self.get_color(&self.first_col_color));
        assert(v@ =~= seq![
            color_of(opt_view(self.color)),
            color_of(opt_view(self.first_row_color)),
            color_of(opt_view(self.first_col_color)),
        ]);
        v
    }
}

/// Why a builder could not build: the name of the first field left unset.
#[derive(Debug, Clone, Copy, PartialEq, Eq)]
pub enum TablingOptionsBuilderError {
    UninitializedField(&'static str),
}

/// Builder of `TablingOptions`; every field has to be set before building.
#[derive(Debug)]
pub struct TablingOptionsBuilder {
    pub color: Option<Option<String>>,
    pub first_row_color: Option<Option<String>>,
    pub first_col_color: Option<Option<String>>,
    pub header: Option<Option<String>>,
}

impl Default for TablingOptionsBuilder {
    fn default() -> (r: Self)
        ensures
            r.color is None,
            r.first_row_color is None,
            r.first_col_color is None,
            r.header is None,
    {
        TablingOptionsBuilder { color: None, first_row_color: None, first_col_color: None, header: None }
    }
}

fn clone_opt(o: &Option<String>) -> (r: Option<String>)
    ensures
        opt_view(r) == opt_view(*o),
{
    match o {
        Some(s) => Some(s.clone()),
        None => None,
    }
}

/// Text of a twice optional string.
pub open spec fn opt_opt_view(o: Option<Option<String>>) -> Option<Option<Seq<char>>> {
    match o {
        Some(x) => Some(opt_view(x)),
        None => None,
    }
}

impl TablingOptionsBuilder {
    /// Sets the body colour.
    pub fn color(&mut self, value: Option<String>) -> (r: &mut Self)
        ensures
            opt_opt_view(r.color) == Some(opt_view(value)),
            r.first_row_color == old(self).first_row_color,
            r.first_col_color == old(self).first_col_color,
            r.header == old(self).header,
            *final(self) == *final(r),
    {
        self.color = Some(value);
        self
    }

    /// Sets the first row's colour.
    pub fn first_row_color(&mut self, value: Option<String>) -> (r: &mut Self)
        ensures
            opt_opt_view(r.first_row_color) == Some(opt_view(value)),
            r.color == old(self).color,
            r.first_col_color == old(self).first_col_color,
            r.header == old(self).header,
            *final(self) == *final(r),
    {
        self.first_row_color = Some(value);
        self
    }

    /// Sets the first column's colour.
    pub fn first_col_color(&mut self, value: Option<String>) -> (r: &mut Self)
        ensures
            opt_opt_view(r.first_col_color) == Some(opt_view(value)),
            r.color == old(self).color,
            r.first_row_color == old(self).first_row_color,
            r.header == old(self).header,
            *final(self) == *final(r),
    {
        self.first_col_color = Some(value);
        self
    }

    /// Sets the header.
    pub fn header(&mut self, value: Option<String>) -> (r: &mut Self)
        ensures
            opt_opt_view(r.header) == Some(opt_view(value)),
            r.color == old(self).color,
            r.first_row_color == old(self).first_row_color,
            r.first_col_color == old(self).first_col_color,
            *final(self) == *final(r),
    {
        self.header = Some(value);
        self
    }

    /// The options, once every field is set; otherwise the first field, in
    /// declaration order, that is not.
    pub fn build(&self) -> (r: Result<TablingOptions, TablingOptionsBuilderError>)
        ensures
            match r {
                Ok(o) => opt_opt_view(self.color) == Some(opt_view(o.color)) && opt_opt_view(
                    self.first_row_color,
                ) == Some(opt_view(o.first_row_color)) && opt_opt_view(self.first_col_color)
                    == Some(opt_view(o.first_col_color)) && opt_opt_view(self.header) == Some(
                    opt_view(o.header),
                ),
                Err(TablingOptionsBuilderError::UninitializedField(name)) => (self.color is None && name@
                    == "color"@) || (self.color is Some && self.first_row_color is None && name@
                    == "first_row_color"@) || (self.color is Some && self.first_row_color is Some
                    && self.first_col_color is None && name@ == "first_col_color"@) || (
                self.color is Some && self.first_row_color is Some && self.first_col_color is Some
                    && self.header is None && name@ == "header"@),
            },
    {
        let color = match &self.color {
            Some(c) => clone_opt(c),
            None => return Err(TablingOptionsBuilderError::UninitializedField("color")),
        };
        let first_row_color = match &self.first_row_color {
            Some(c) => clone_opt(c),
            None => return Err(TablingOptionsBuilderError::UninitializedField("first_row_color")),
        };
        let first_col_color = match &self.first_col_color {
            Some(c) => clone_opt(c),
            None => return Err(TablingOptionsBuilderError::UninitializedField("first_col_color")),
        };
        let header = match &self.header {
            Some(c) => clone_opt(c),
            None => return Err(TablingOptionsBuilderError::UninitializedField("header")),
        };
        Ok(TablingOptions { color, first_row_color, first_col_color, header })
    }
}

} // verus!
