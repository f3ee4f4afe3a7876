//! Display options of a series or of a comparison, and the script lines they give.
use vstd::prelude::*;
use crate::text::{decimal, int_text};

verus! {

/// How the render engine draws a curve.
#[derive(Clone, Copy, Debug, PartialEq, Eq, Structural)]
pub enum Style {
    Lines,
    Points,
    LinesPoints,
    Steps,
    Dots,
    Impulses,
}

/// The style that a lower-case name stands for, if any.
pub open spec fn style_named(name: Seq<char>) -> Option<Style> {
    if name == "lines"@ {
        Some(Style::Lines)
    } else if name == "points"@ {
        Some(Style::Points)
    } else if name == "linespoints"@ {
        Some(Style::LinesPoints)
    } else if name == "steps"@ {
        Some(Style::Steps)
    } else if name == "dots"@ {
        Some(Style::Dots)
    } else if name == "impulses"@ {
        Some(Style::Impulses)
    } else {
        None
    }
}

/// Whether two strings hold the same characters.
pub fn same_text(a: &str, b: &str) -> (r: bool)
    ensures
        r == (a@ == b@),
{
    let n = a.unicode_len();
    if n != b.unicode_len() {
        return false;
    }
    let mut i: usize = 0;
    while i < n
        invariant
            n == a@.len(),
            n == b@.len(),
            i <= n,
            a@.subrange(0, i as int) == b@.subrange(0, i as int),
        decreases n - i,
    {
        if a.get_char(i) != b.get_char(i) {
            assert(a@[i as int] != b@[i as int]);
            return false;
        }
        assert(a@.subrange(0, i + 1) == a@.subrange(0, i as int).push(a@[i as int]));
        assert(b@.subrange(0, i + 1) == b@.subrange(0, i as int).push(b@[i as int]));
        i = i + 1;
    }
    assert(a@ == a@.subrange(0, n as int));
    assert(b@ == b@.subrange(0, n as int));
    true
}

impl Style {
    /// The style named `name` (`"lines"`, `"points"`, `"linespoints"`, `"steps"`,
    /// `"dots"`, `"impulses"`), or `None` for any other name.
    pub fn from_name(name: &str) -> (r: Option<Style>)
        ensures
            r == style_named(name@),
    {
        if same_text(name, "lines") {
            Some(Style::Lines)
        } else if same_text(name, "points") {
            Some(Style::Points)
        } else if same_text(name, "linespoints") {
            Some(Style::LinesPoints)
        } else if same_text(name, "steps") {
            Some(Style::Steps)
        } else if same_text(name, "dots") {
            Some(Style::Dots)
        } else if same_text(name, "impulses") {
            Some(Style::Impulses)
        } else {
            None
        }
    }
}

/// Display options. A field that is `None` leaves the render engine's default.
///
/// A log-scale value `<= 0` asks for a log scale with the engine's own base,
/// a value `> 0` for a log scale with that base.
#[derive(Clone, Debug)]
pub struct Configuration {
    pub title: Option<String>,
    pub logx: Option<i64>,
    pub logy: Option<i64>,
    pub style: Option<Style>,
    pub dashtype: Option<usize>,
}

/// Whether every option is left to the render engine.
pub open spec fn unset(c: Configuration) -> bool {
    c.title is None && c.logx is None && c.logy is None && c.style is None && c.dashtype is None
}

impl Configuration {
    /// Options with every field unset.
    pub fn new() -> (r: Configuration)
        ensures
            unset(r),
    {
        Configuration { title: None, logx: None, logy: None, style: None, dashtype: None }
    }

    pub fn set_title(&mut self, title: &str)
        ensures
            final(self).title matches Some(t) && t@ == title@,
            final(self).logx == old(self).logx,
            final(self).logy == old(self).logy,
            final(self).style == old(self).style,
            final(self).dashtype == old(self).dashtype,
    {
        self.title = Some(title.to_owned());
    }

    pub fn set_logx(&mut self, logx: i64)
        ensures
            final(self).title == old(self).title,
            final(self).logx == Some(logx),
            final(self).logy == old(self).logy,
            final(self).style == old(self).style,
            final(self).dashtype == old(self).dashtype,
    {
        self.logx = Some(logx);
    }

    pub fn set_logy(&mut self, logy: i64)
        ensures
            final(self).title == old(self).title,
            final(self).logx == old(self).logx,
            final(self).logy == Some(logy),
            final(self).style == old(self).style,
            final(self).dashtype == old(self).dashtype,
    {
        self.logy = Some(logy);
    }

    /// Sets the style named `name`; a name that stands for no style leaves it as it was.
    pub fn set_style(&mut self, name: &str)
        ensures
            final(self).title == old(self).title,
            final(self).logx == old(self).logx,
            final(self).logy == old(self).logy,
            final(self).style == (match style_named(name@) {
                Some(s) => Some(s),
                None => old(self).style,
            }),
            final(self).dashtype == old(self).dashtype,
    {
        match Style::from_name(name) {
            Some(s) => {
                self.style = Some(s);
            },
            None => {},
        }
    }

    pub fn set_dashtype(&mut self, dashtype: usize)
        ensures
            final(self).title == old(self).title,
            final(self).logx == old(self).logx,
            final(self).logy == old(self).logy,
            final(self).style == old(self).style,
            final(self).dashtype == Some(dashtype),
    {
        self.dashtype = Some(dashtype);
    }
}

/// The title line, when a title is set.
pub open spec fn title_line(title: Option<String>) -> Seq<char> {
    match title {
        Some(t) => "set title \""@ + t@ + "\"\n"@,
        None => Seq::empty(),
    }
}

/// The log-scale line of one axis (`axis` is `"x"` or `"y"`), when its value is set.
pub open spec fn logscale_line(axis: Seq<char>, value: Option<i64>) -> Seq<char> {
    match value {
        Some(b) => if b <= 0 {
            "set logscale "@ + axis + "\n"@
        } else {
            "set logscale "@ + axis + " "@ + decimal(b as int) + "\n"@
        },
        None => Seq::empty(),
    }
}

/// The lines that open every script: the legend, then title and log scales when set.
pub open spec fn preamble(c: Configuration) -> Seq<char> {
    "set key\n"@ + title_line(c.title) + logscale_line("x"@, c.logx) + logscale_line(
        "y"@,
        c.logy,
    )
}

/// The line that closes every script: it keeps the plot window open.
pub open spec fn closing() -> Seq<char> {
    "pause -1\n"@
}

fn push_logscale(out: &mut String, axis: &str, value: Option<i64>)
    ensures
        final(out)@ == old(out)@ + logscale_line(axis@, value),
{
    match value {
        Some(b) => {
            out.append("set logscale ");
            out.append(axis);
            if b <= 0 {
                out.append("\n");
            } else {
                out.append(" ");
                let t = int_text(b);
                out.append(t.as_str());
                out.append("\n");
            }
        },
        None => {},
    }
}

impl Configuration {
    /// Appends the opening lines of a script to `out`.
    pub fn push_preamble(&self, out: &mut String)
        ensures
            final(out)@ == old(out)@ + preamble(*self),
    {
        out.append("set key\n");
        match &self.title {
            Some(t) => {
                out.append("set title \"");
                out.append(t.as_str());
                out.append("\"\n");
            },
            None => {},
        }
        push_logscale(out, "x", self.logx);
        push_logscale(out, "y", self.logy);
    }
}

} // verus!
