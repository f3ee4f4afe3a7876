//! Sequences of values, alone or binned into groups.
use vstd::prelude::*;
use crate::configuration::{Configuration, Style, style_named, unset, preamble, closing};
use crate::series::{data_path, data_file, pair_line};
use crate::text::{int_text, index_text, decimal};
use crate::ScriptError;

verus! {

/// Sequence of values, plotted against their positions.
#[derive(Clone, Debug)]
pub struct Sequence {
    pub data: Vec<i64>,
    pub config: Configuration,
}

/// The data text of a sequence: one line `index<TAB>value` per value, in order.
pub open spec fn sequence_data(s: Seq<i64>) -> Seq<char>
    decreases s.len(),
{
    if s.len() == 0 {
        Seq::empty()
    } else {
        sequence_data(s.drop_last()) + pair_line(s.len() - 1, s.last() as int)
    }
}

/// The script of a sequence named `id`.
pub open spec fn sequence_script(c: Configuration, id: Seq<char>) -> Seq<char> {
    preamble(c) + "plot \""@ + data_path(id) + "\" using 1 with lines\n"@ + closing()
}

impl Sequence {
    pub fn new(data: Vec<i64>) -> (r: Sequence)
        ensures
            r.data@ == data@,
            unset(r.config),
    {
        Sequence { data, config: Configuration::new() }
    }

    pub fn set_title(&mut self, title: &str)
        ensures
            final(self).data@ == old(self).data@,
            final(self).config.title matches Some(t) && t@ == title@,
            final(self).config.logx == old(self).config.logx,
            final(self).config.logy == old(self).config.logy,
            final(self).config.style == old(self).config.style,
            final(self).config.dashtype == old(self).config.dashtype,
    {
        self.config.set_title(title);
    }

    pub fn set_logx(&mut self, logx: i64)
        ensures
            final(self).data@ == old(self).data@,
            final(self).config.title == old(self).config.title,
            final(self).config.logx == Some(logx),
            final(self).config.logy == old(self).config.logy,
            final(self).config.style == old(self).config.style,
            final(self).config.dashtype == old(self).config.dashtype,
    {
        self.config.set_logx(logx);
    }

    pub fn set_logy(&mut self, logy: i64)
        ensures
            final(self).data@ == old(self).data@,
            final(self).config.title == old(self).config.title,
            final(self).config.logx == old(self).config.logx,
            final(self).config.logy == Some(logy),
            final(self).config.style == old(self).config.style,
            final(self).config.dashtype == old(self).config.dashtype,
    {
        self.config.set_logy(logy);
    }

    /// The text written to the data file.
    pub fn plotable_data(&self) -> (r: String)
        ensures
            r@ == sequence_data(self.data@),
    {
        let mut out = String::new();
        let mut i: usize = 0;
        while i < self.data.len()
            invariant
                i <= self.data@.len(),
                out@ == sequence_data(self.data@.take(i as int)),
            decreases self.data@.len() - i,
        {
            assert(self.data@.take(i + 1).drop_last() == self.data@.take(i as int));
            let k = index_text(i);
            out.append(k.as_str());
            out.append("\t");
            let v = int_text(self.data[i]);
            out.append(v.as_str());
            out.append("\n");
            i = i + 1;
        }
        assert(self.data@.take(i as int) == self.data@);
        out
    }

    /// The script that plots this sequence, saved under the identifier `id`.
    pub fn plot_script(&self, id: &str) -> (r: String)
        ensures
            r@ == sequence_script(self.config, id@),
    {
        let mut out = String::new();
        self.config.push_preamble(&mut out);
        out.append("plot \"");
        let p = data_file(id);
        out.append(p.as_str());
        out.append("\" using 1 with lines\n");
        out.append("pause -1\n");
        out
    }
}

} // verus!

verus! {

/// Sequence of values binned into groups, drawn as one violin per group.
#[derive(Clone, Debug)]
pub struct SequenceBin {
    pub data: Vec<Vec<i64>>,
    pub config: Configuration,
}

/// The data lines of the group at position `g`: `g<TAB>value` per value, in order.
pub open spec fn group_data(g: int, s: Seq<i64>) -> Seq<char>
    decreases s.len(),
{
    if s.len() == 0 {
        Seq::empty()
    } else {
        group_data(g, s.drop_last()) + pair_line(g, s.last() as int)
    }
}

/// The data text of a binned sequence: each group's lines, then two blank lines.
pub open spec fn bin_data(d: Seq<Vec<i64>>) -> Seq<char>
    decreases d.len(),
{
    if d.len() == 0 {
        Seq::empty()
    } else {
        bin_data(d.drop_last()) + group_data(d.len() - 1, d.last()@) + "\n\n"@
    }
}

/// Sets the one scale shared by every violin, before any group is looked at.
pub const RENORMALIZE_INIT: &'static str = "renormalize = 2\n";

/// Start of the loop over the groups `0..=last`.
pub const LOOP_HEAD: &'static str = "do for [i=0:";

/// First density estimate of group `i`, over its own range.
pub const VIOLIN_FIRST_PASS: &'static str = "] {\n    # Computing some values\n    set table $_\n    plot ";

/// A density estimate of group `i` of the data file, written to the table that is open.
pub const KDENSITY: &'static str = " index i using 2:(1) smooth kdensity\n    unset table\n";

/// Raises the shared scale to twice the peak of group `i`'s first estimate, if that is larger.
pub const RENORMALIZE_UPDATE: &'static str = "    renormalize = (renormalize < 2 * GPVAL_Y_MAX) ? 2 * GPVAL_Y_MAX : renormalize\n";

/// Opens the table of group `i`'s second estimate.
pub const WIDEN_HEAD: &'static str = "    # Plotting a greater domain\n    set table '";

/// Second density estimate of group `i`, over a range widened by five bandwidths.
pub const VIOLIN_SECOND_PASS: &'static str = "'.'_partial_plot'.i\n    x_min = (GPVAL_X_MIN < GPVAL_X_MIN - 5 * GPVAL_KDENSITY_BANDWIDTH)? GPVAL_X_MIN : GPVAL_X_MIN - 5 * GPVAL_KDENSITY_BANDWIDTH\n    x_max = (GPVAL_X_MAX > GPVAL_X_MAX + 5 * GPVAL_KDENSITY_BANDWIDTH)? GPVAL_X_MAX : GPVAL_X_MAX + 5 * GPVAL_KDENSITY_BANDWIDTH\n    set xrange [x_min:x_max]\n    plot ";

/// End of the loop over the groups.
pub const LOOP_END: &'static str = "    # Clean the plotting\n    unset xrange\n    unset yrange\n}\n\n# Plotting the violins\n";

/// Start of the right halves.
pub const RIGHT_HEAD: &'static str = "# Right side\nplot for [i=0:";

/// How a half violin is drawn from its table, offset `+` or `-` from its group's position.
pub const VIOLIN_TABLE: &'static str = "'.'_partial_plot'.i using (i ";

/// The right half's offset, scaled by the shared `renormalize`.
pub const RIGHT_TAIL: &'static str = "+ $2/renormalize):1 with filledcurve x=i linecolor i\n";

/// Start of the left halves, drawn over the right ones.
pub const LEFT_HEAD: &'static str = "# Left side\nreplot for [i=0:";

/// The left half's offset, scaled by the same `renormalize`.
pub const LEFT_TAIL: &'static str = "- $2/renormalize):1 with filledcurve x=i linecolor i\n";

/// The clause that draws one half of every violin `0..=last`, from the tables at `path`.
pub open spec fn half_violins(last: Seq<char>, path: Seq<char>) -> Seq<char> {
    last + "] '"@ + path + VIOLIN_TABLE@
}

/// The loop that estimates each group's density twice and keeps the shared scale up to date.
pub open spec fn density_loop(last: Seq<char>, path: Seq<char>) -> Seq<char> {
    let q = "\""@ + path + "\""@;
    LOOP_HEAD@ + last + VIOLIN_FIRST_PASS@ + q + KDENSITY@ + RENORMALIZE_UPDATE@ + WIDEN_HEAD@
        + path + VIOLIN_SECOND_PASS@ + q + KDENSITY@ + LOOP_END@
}

/// The right halves of the violins `0..=last`.
pub open spec fn right_halves(last: Seq<char>, path: Seq<char>) -> Seq<char> {
    RIGHT_HEAD@ + half_violins(last, path) + RIGHT_TAIL@
}

/// The left halves of the violins `0..=last`.
pub open spec fn left_halves(last: Seq<char>, path: Seq<char>) -> Seq<char> {
    LEFT_HEAD@ + half_violins(last, path) + LEFT_TAIL@
}

/// The script body of a binned sequence whose last group is at `last`, with data at `path`.
pub open spec fn violin_body(last: int, path: Seq<char>) -> Seq<char> {
    RENORMALIZE_INIT@ + density_loop(decimal(last), path) + right_halves(decimal(last), path)
        + left_halves(decimal(last), path)
}

/// The script of a binned sequence with `n` groups, saved under `id`.
pub open spec fn violin_script(c: Configuration, n: int, id: Seq<char>) -> Seq<char> {
    preamble(c) + violin_body(n - 1, data_path(id)) + closing()
}

fn push_half_violins(out: &mut String, last: &str, path: &str)
    ensures
        final(out)@ == old(out)@ + half_violins(last@, path@),
{
    out.append(last);
    out.append("] '");
    out.append(path);
    out.append(VIOLIN_TABLE);
}

fn push_quoted(out: &mut String, path: &str)
    ensures
        final(out)@ == old(out)@ + ("\""@ + path@ + "\""@),
{
    out.append("\"");
    out.append(path);
    out.append("\"");
}

fn push_density_loop(out: &mut String, last: &str, path: &str)
    ensures
        final(out)@ == old(out)@ + density_loop(last@, path@),
{
    out.append(LOOP_HEAD);
    out.append(last);
    out.append(VIOLIN_FIRST_PASS);
    push_quoted(out, path);
    out.append(KDENSITY);
    out.append(RENORMALIZE_UPDATE);
    out.append(WIDEN_HEAD);
    out.append(path);
    out.append(VIOLIN_SECOND_PASS);
    push_quoted(out, path);
    out.append(KDENSITY);
    out.append(LOOP_END);
}

fn push_halves(out: &mut String, last: &str, path: &str)
    ensures
        final(out)@ == old(out)@ + right_halves(last@, path@) + left_halves(last@, path@),
{
    out.append(RIGHT_HEAD);
    push_half_violins(out, last, path);
    out.append(RIGHT_TAIL);
    out.append(LEFT_HEAD);
    push_half_violins(out, last, path);
    out.append(LEFT_TAIL);
}

impl SequenceBin {
    pub fn new(data: Vec<Vec<i64>>) -> (r: SequenceBin)
        ensures
            r.data@ == data@,
            unset(r.config),
    {
        SequenceBin { data, config: Configuration::new() }
    }

    pub fn configuration(&self) -> (r: &Configuration)
        ensures
            *r == self.config,
    {
        &self.config
    }

    pub fn set_title(&mut self, title: &str)
        ensures
            final(self).data@ == old(self).data@,
            final(self).config.title matches Some(t) && t@ == title@,
            final(self).config.logx == old(self).config.logx,
            final(self).config.logy == old(self).config.logy,
            final(self).config.style == old(self).config.style,
            final(self).config.dashtype == old(self).config.dashtype,
    {
        self.config.set_title(title);
    }

    pub fn set_logx(&mut self, logx: i64)
        ensures
            final(self).data@ == old(self).data@,
            final(self).config.title == old(self).config.title,
            final(self).config.logx == Some(logx),
            final(self).config.logy == old(self).config.logy,
            final(self).config.style == old(self).config.style,
            final(self).config.dashtype == old(self).config.dashtype,
    {
        self.config.set_logx(logx);
    }

    pub fn set_logy(&mut self, logy: i64)
        ensures
            final(self).data@ == old(self).data@,
            final(self).config.title == old(self).config.title,
            final(self).config.logx == old(self).config.logx,
            final(self).config.logy == Some(logy),
            final(self).config.style == old(self).config.style,
            final(self).config.dashtype == old(self).config.dashtype,
    {
        self.config.set_logy(logy);
    }

    /// Sets the style named `name`; a name that stands for no style leaves it as it was.
    pub fn set_style(&mut self, name: &str)
        ensures
            final(self).data@ == old(self).data@,
            final(self).config.title == old(self).config.title,
            final(self).config.logx == old(self).config.logx,
            final(self).config.logy == old(self).config.logy,
            final(self).config.style == (match style_named(name@) {
                Some(s) => Some(s),
                None => old(self).config.style,
            }),
            final(self).config.dashtype == old(self).config.dashtype,
    {
        self.config.set_style(name);
    }

    pub fn style(&self) -> (r: Option<Style>)
        ensures
            r == self.config.style,
    {
        self.config.style
    }

    /// The text written to the data file.
    pub fn plotable_data(&self) -> (r: String)
        ensures
            r@ == bin_data(self.data@),
    {
        let mut out = String::new();
        let mut g: usize = 0;
        while g < self.data.len()
            invariant
                g <= self.data@.len(),
                out@ == bin_data(self.data@.take(g as int)),
            decreases self.data@.len() - g,
        {
            assert(self.data@.take(g + 1).drop_last() == self.data@.take(g as int));
            let group = &self.data[g];
            let gt = index_text(g);
            let ghost start = out@;
            let mut i: usize = 0;
            while i < group.len()
                invariant
                    i <= group@.len(),
                    gt@ == decimal(g as int),
                    out@ == start + group_data(g as int, group@.take(i as int)),
                decreases group@.len() - i,
            {
                assert(group@.take(i + 1).drop_last() == group@.take(i as int));
                out.append(gt.as_str());
                out.append("\t");
                let v = int_text(group[i]);
                out.append(v.as_str());
                out.append("\n");
                assert(out@ == start + group_data(g as int, group@.take(i + 1)));
                i = i + 1;
            }
            assert(group@.take(i as int) == group@);
            out.append("\n\n");
            g = g + 1;
        }
        assert(self.data@.take(g as int) == self.data@);
        out
    }

    /// The script that draws one violin per group, saved under the identifier `id`.
    /// With no group there is nothing to draw.
    pub fn plot_script(&self, id: &str) -> (r: Result<String, ScriptError>)
        ensures
            self.data@.len() == 0 ==> r == Err::<String, ScriptError>(ScriptError::NoGroups),
            self.data@.len() > 0 ==> (r matches Ok(s) && s@ == violin_script(
                self.config,
                self.data@.len() as int,
                id@,
            )),
    {
        if self.data.len() == 0 {
            return Err(ScriptError::NoGroups);
        }
        let mut out = String::new();
        self.config.push_preamble(&mut out);
        let last = index_text(self.data.len() - 1);
        let path = data_file(id);
        out.append(RENORMALIZE_INIT);
        push_density_loop(&mut out, last.as_str(), path.as_str());
        push_halves(&mut out, last.as_str(), path.as_str());
        out.append("pause -1\n");
        Ok(out)
    }
}

} // verus!
