//! Empirical distributions, drawn as normalised histograms, alone or compared.
use vstd::prelude::*;
use crate::configuration::{Configuration, unset, preamble, closing};
use crate::series::{child_id, data_path, data_file, legend, push_child_id, push_legend};
use crate::text::{decimal, int_text, nat_text, index_text};
use crate::ScriptError;

verus! {

/// Number of bins of every histogram.
pub const BIN_COUNT: u64 = 20;

/// Realizations of a random quantity.
#[derive(Clone, Debug)]
pub struct Distribution {
    pub realizations: Vec<i64>,
    pub config: Configuration,
}

/// The smallest value of a non-empty sequence.
pub open spec fn seq_min(s: Seq<i64>) -> int
    decreases s.len(),
{
    if s.len() <= 1 {
        if s.len() == 1 { s[0] as int } else { 0 }
    } else {
        let m = seq_min(s.drop_last());
        if (s.last() as int) < m { s.last() as int } else { m }
    }
}

/// The largest value of a non-empty sequence.
pub open spec fn seq_max(s: Seq<i64>) -> int
    decreases s.len(),
{
    if s.len() <= 1 {
        if s.len() == 1 { s[0] as int } else { 0 }
    } else {
        let m = seq_max(s.drop_last());
        if (s.last() as int) > m { s.last() as int } else { m }
    }
}

/// `seq_min` and `seq_max` are values of the sequence that bound all the others.
pub proof fn lemma_min_max(s: Seq<i64>)
    requires
        s.len() > 0,
    ensures
        exists|k: int| 0 <= k < s.len() && s[k] as int == seq_min(s),
        exists|k: int| 0 <= k < s.len() && s[k] as int == seq_max(s),
        forall|k: int| 0 <= k < s.len() ==> seq_min(s) <= s[k] && s[k] <= seq_max(s),
        i64::MIN <= seq_min(s) <= seq_max(s) <= i64::MAX,
    decreases s.len(),
{
    if s.len() == 1 {
        assert(s[0] as int == seq_min(s));
        assert(s[0] as int == seq_max(s));
    } else {
        let t = s.drop_last();
        lemma_min_max(t);
        let a = choose|k: int| 0 <= k < t.len() && t[k] as int == seq_min(t);
        let b = choose|k: int| 0 <= k < t.len() && t[k] as int == seq_max(t);
        assert(t[a] == s[a]);
        assert(t[b] == s[b]);
        if (s.last() as int) < seq_min(t) {
            assert(s[s.len() - 1] as int == seq_min(s));
        } else {
            assert(s[a] as int == seq_min(s));
        }
        if (s.last() as int) > seq_max(t) {
            assert(s[s.len() - 1] as int == seq_max(s));
        } else {
            assert(s[b] as int == seq_max(s));
        }
        assert forall|k: int| 0 <= k < s.len() implies seq_min(s) <= s[k] && s[k] <= seq_max(
            s,
        ) by {
            if k < s.len() - 1 {
                assert(t[k] == s[k]);
            }
        }
    }
}

/// What a histogram needs of a non-empty set of realizations.
#[derive(Clone, Copy, Debug, PartialEq, Eq, Structural)]
pub struct HistogramStats {
    pub min: i64,
    pub max: i64,
    pub count: usize,
}

impl HistogramStats {
    /// `max - min`; the width of a bin is this spread divided by `BIN_COUNT`.
    pub fn spread(&self) -> (r: u64)
        requires
            self.min <= self.max,
        ensures
            r == self.max - self.min,
    {
        (self.max as i128 - self.min as i128) as u64
    }
}

/// Smallest value, largest value and number of `realizations`, in one pass;
/// `None` when there is no realization.
pub fn histogram_stats(realizations: &Vec<i64>) -> (r: Option<HistogramStats>)
    ensures
        realizations@.len() == 0 <==> r is None,
        r matches Some(h) ==> h.min == seq_min(realizations@) && h.max == seq_max(realizations@)
            && h.count == realizations@.len(),
{
    let n = realizations.len();
    if n == 0 {
        return None;
    }
    let mut min = realizations[0];
    let mut max = realizations[0];
    let mut i: usize = 1;
    while i < n
        invariant
            n == realizations@.len(),
            1 <= i <= n,
            min == seq_min(realizations@.take(i as int)),
            max == seq_max(realizations@.take(i as int)),
        decreases n - i,
    {
        let v = realizations[i];
        assert(realizations@.take(i + 1).drop_last() == realizations@.take(i as int));
        if v < min {
            min = v;
        }
        if v > max {
            max = v;
        }
        i = i + 1;
    }
    assert(realizations@.take(n as int) == realizations@);
    Some(HistogramStats { min, max, count: n })
}

/// A line `{name}{it} = {value}{rest}` that names a constant of one child.
pub open spec fn assignment(name: Seq<char>, it: Seq<char>, value: Seq<char>, rest: Seq<char>) -> Seq<
    char,
> {
    name + it + " = "@ + value + rest
}

/// The named constants of the histogram of the child whose position reads `it`.
pub open spec fn hist_constants(it: Seq<char>, max: int, min: int, count: int) -> Seq<char> {
    assignment("nbins_"@, it, "20"@, ".0 #number of bins\n"@) + assignment(
        "max_"@,
        it,
        decimal(max),
        " #max value\n"@,
    ) + assignment("min_"@, it, decimal(min), " #min value\n"@) + assignment(
        "len_"@,
        it,
        decimal(count),
        ".0 #number of values\n"@,
    ) + assignment("width_"@, it, decimal(max - min), " / nbins_"@ + it + " #width\n\n"@)
}

/// The function that maps a value to the middle of its bin, for the child whose position reads `it`.
pub open spec fn hist_function(it: Seq<char>) -> Seq<char> {
    "#function used to map a value to the intervals\n"@ + "hist_"@ + it + "(x,width_"@ + it
        + ") = width_"@ + it + " * floor(x/width_"@ + it + ") + width_"@ + it + " / 2.0\n\n"@
}

/// The histogram definitions of the child at `index`, with realizations `s`.
pub open spec fn hist_block(index: int, s: Seq<i64>) -> Seq<char> {
    hist_constants(decimal(index), seq_max(s), seq_min(s), s.len() as int) + hist_function(
        decimal(index),
    )
}

/// The histogram definitions of all children, in order.
pub open spec fn hist_blocks(d: Seq<Distribution>) -> Seq<char>
    decreases d.len(),
{
    if d.len() == 0 {
        Seq::empty()
    } else {
        hist_blocks(d.drop_last()) + hist_block(d.len() - 1, d.last().realizations@)
    }
}

/// The plot clause of the child at `index`: its histogram, each value weighted by
/// one over the number of realizations.
pub open spec fn histogram_clause(id: Seq<char>, index: int, title: Option<String>) -> Seq<char> {
    let it = decimal(index);
    "\""@ + data_path(child_id(id, index)) + "\" using (hist_"@ + it + "($1,width_"@ + it
        + ")):(1.0/len_"@ + it + ") smooth frequency with steps title \""@ + legend(title, index)
        + "\", "@
}

/// The plot clauses of all children, in order.
pub open spec fn histogram_clauses(d: Seq<Distribution>, id: Seq<char>) -> Seq<char>
    decreases d.len(),
{
    if d.len() == 0 {
        Seq::empty()
    } else {
        histogram_clauses(d.drop_last(), id) + histogram_clause(
            id,
            d.len() - 1,
            d.last().config.title,
        )
    }
}

/// The script of a comparison of distributions saved under `id`.
pub open spec fn histogram_script(c: Configuration, d: Seq<Distribution>, id: Seq<char>) -> Seq<
    char,
> {
    preamble(c) + hist_blocks(d) + "plot "@ + histogram_clauses(d, id) + "\n"@ + closing()
}

/// Whether every child has at least one realization.
pub open spec fn all_non_empty(d: Seq<Distribution>) -> bool {
    forall|k: int| 0 <= k < d.len() ==> d[k].realizations@.len() > 0
}

/// Whether `k` is the first position of a child without realizations.
pub open spec fn first_empty(d: Seq<Distribution>, k: int) -> bool {
    0 <= k < d.len() && d[k].realizations@.len() == 0 && forall|j: int|
        0 <= j < k ==> d[j].realizations@.len() > 0
}

fn push_assignment(out: &mut String, name: &str, it: &str, value: &str, rest: &str)
    ensures
        final(out)@ == old(out)@ + assignment(name@, it@, value@, rest@),
{
    out.append(name);
    out.append(it);
    out.append(" = ");
    out.append(value);
    out.append(rest);
}

fn push_hist_constants(out: &mut String, it: &str, h: &HistogramStats)
    requires
        h.min <= h.max,
    ensures
        final(out)@ == old(out)@ + hist_constants(it@, h.max as int, h.min as int, h.count as int),
{
    push_assignment(out, "nbins_", it, "20", ".0 #number of bins\n");
    push_assignment(out, "max_", it, int_text(h.max).as_str(), " #max value\n");
    push_assignment(out, "min_", it, int_text(h.min).as_str(), " #min value\n");
    push_assignment(out, "len_", it, index_text(h.count).as_str(), ".0 #number of values\n");
    let mut rest = String::new();
    rest.append(" / nbins_");
    rest.append(it);
    rest.append(" #width\n\n");
    push_assignment(out, "width_", it, nat_text(h.spread()).as_str(), rest.as_str());
}

fn push_hist_function(out: &mut String, it: &str)
    ensures
        final(out)@ == old(out)@ + hist_function(it@),
{
    out.append("#function used to map a value to the intervals\n");
    out.append("hist_");
    out.append(it);
    out.append("(x,width_");
    out.append(it);
    out.append(") = width_");
    out.append(it);
    out.append(" * floor(x/width_");
    out.append(it);
    out.append(") + width_");
    out.append(it);
    out.append(" / 2.0\n\n");
}

fn push_histogram_clause(out: &mut String, id: &str, index: usize, title: &Option<String>)
    ensures
        final(out)@ == old(out)@ + histogram_clause(id@, index as int, *title),
{
    let it = index_text(index);
    out.append("\"");
    out.append("data/");
    push_child_id(out, id, index);
    out.append(".txt");
    out.append("\" using (hist_");
    out.append(it.as_str());
    out.append("($1,width_");
    out.append(it.as_str());
    out.append(")):(1.0/len_");
    out.append(it.as_str());
    out.append(") smooth frequency with steps title \"");
    push_legend(out, title, index);
    out.append("\", ");
}

/// The data text of a distribution: one realization per line, in order.
pub open spec fn realization_data(s: Seq<i64>) -> Seq<char>
    decreases s.len(),
{
    if s.len() == 0 {
        Seq::empty()
    } else {
        realization_data(s.drop_last()) + decimal(s.last() as int) + "\n"@
    }
}

/// How a lone distribution's histogram is drawn, each value weighted by one over the count.
pub const SINGLE_HISTOGRAM: &'static str = "\" using (hist_0($1,width_0)):(1.0/len_0) smooth frequency with steps\n";

/// The script of a lone distribution with realizations `s`, saved under `id`.
pub open spec fn distribution_script(c: Configuration, s: Seq<i64>, id: Seq<char>) -> Seq<char> {
    preamble(c) + hist_constants("0"@, seq_max(s), seq_min(s), s.len() as int) + hist_function(
        "0"@,
    ) + "plot \""@ + data_path(id) + SINGLE_HISTOGRAM@ + closing()
}

impl Distribution {
    pub fn new(realizations: Vec<i64>) -> (r: Distribution)
        ensures
            r.realizations@ == realizations@,
            unset(r.config),
    {
        Distribution { realizations, config: Configuration::new() }
    }

    /// Sets the title, which a comparison uses as this distribution's legend.
    pub fn set_title(&mut self, title: &str)
        ensures
            final(self).realizations@ == old(self).realizations@,
            final(self).config.title matches Some(t) && t@ == title@,
            final(self).config.logx == old(self).config.logx,
            final(self).config.logy == old(self).config.logy,
            final(self).config.style == old(self).config.style,
            final(self).config.dashtype == old(self).config.dashtype,
    {
        self.config.set_title(title);
    }

    pub fn set_logx(&mut self, logx: i64)
        ensures
            final(self).realizations@ == old(self).realizations@,
            final(self).config.title == old(self).config.title,
            final(self).config.logx == Some(logx),
            final(self).config.logy == old(self).config.logy,
            final(self).config.style == old(self).config.style,
            final(self).config.dashtype == old(self).config.dashtype,
    {
        self.config.set_logx(logx);
    }

    pub fn set_logy(&mut self, logy: i64)
        ensures
            final(self).realizations@ == old(self).realizations@,
            final(self).config.title == old(self).config.title,
            final(self).config.logx == old(self).config.logx,
            final(self).config.logy == Some(logy),
            final(self).config.style == old(self).config.style,
            final(self).config.dashtype == old(self).config.dashtype,
    {
        self.config.set_logy(logy);
    }

    /// The script that draws the histogram of this distribution, saved under the identifier
    /// `id`. Without realizations there is no histogram. Realizations that are all equal give
    /// bins of width zero: that script is handed to the render engine as it is, which rejects it.
    pub fn plot_script(&self, id: &str) -> (r: Result<String, ScriptError>)
        ensures
            self.realizations@.len() == 0 ==> r == Err::<String, ScriptError>(
                ScriptError::EmptyDistribution(0),
            ),
            self.realizations@.len() > 0 ==> (r matches Ok(s) && s@ == distribution_script(
                self.config,
                self.realizations@,
                id@,
            )),
    {
        match histogram_stats(&self.realizations) {
            None => Err(ScriptError::EmptyDistribution(0)),
            Some(h) => {
                proof {
                    lemma_min_max(self.realizations@);
                }
                let mut out = String::new();
                self.config.push_preamble(&mut out);
                push_hist_constants(&mut out, "0", &h);
                push_hist_function(&mut out, "0");
                out.append("plot \"");
                let p = data_file(id);
                out.append(p.as_str());
                out.append(SINGLE_HISTOGRAM);
                out.append("pause -1\n");
                Ok(out)
            },
        }
    }

    /// The text written to the data file.
    pub fn plotable_data(&self) -> (r: String)
        ensures
            r@ == realization_data(self.realizations@),
    {
        let mut out = String::new();
        let mut i: usize = 0;
        while i < self.realizations.len()
            invariant
                i <= self.realizations@.len(),
                out@ == realization_data(self.realizations@.take(i as int)),
            decreases self.realizations@.len() - i,
        {
            assert(self.realizations@.take(i + 1).drop_last() == self.realizations@.take(i as int));
            let v = int_text(self.realizations[i]);
            out.append(v.as_str());
            out.append("\n");
            i = i + 1;
        }
        assert(self.realizations@.take(i as int) == self.realizations@);
        out
    }
}

/// Distributions drawn together as histograms in one plot.
#[derive(Clone, Debug)]
pub struct Comparison {
    pub data_set: Vec<Distribution>,
    pub options: Configuration,
}

impl Comparison {
    pub fn new(data_set: Vec<Distribution>) -> (r: Comparison)
        ensures
            r.data_set@ == data_set@,
            unset(r.options),
    {
        Comparison { data_set, options: Configuration::new() }
    }

    /// Sets the title of the whole plot.
    pub fn set_title(self, title: &str) -> (r: Comparison)
        ensures
            r.data_set@ == self.data_set@,
            r.options.title matches Some(t) && t@ == title@,
            r.options.logx == self.options.logx,
            r.options.logy == self.options.logy,
            r.options.style == self.options.style,
            r.options.dashtype == self.options.dashtype,
    {
        let mut c = self;
        c.options.set_title(title);
        c
    }

    pub fn set_logx(self, logx: i64) -> (r: Comparison)
        ensures
            r.data_set@ == self.data_set@,
            r.options.title == self.options.title,
            r.options.logx == Some(logx),
            r.options.logy == self.options.logy,
            r.options.style == self.options.style,
            r.options.dashtype == self.options.dashtype,
    {
        let mut c = self;
        c.options.set_logx(logx);
        c
    }

    /// Appends `anothers` after the distributions already held, in their order.
    pub fn add(&mut self, anothers: Vec<Distribution>)
        ensures
            final(self).data_set@ == old(self).data_set@ + anothers@,
            final(self).options == old(self).options,
    {
        let mut anothers = anothers;
        self.data_set.append(&mut anothers);
    }

    /// The script that draws the histogram of every distribution, the child at position `k`
    /// read from the data saved under `{id}_{k}`. A distribution without realizations has
    /// no histogram: the first one is reported. Realizations that are all equal give bins of
    /// width zero: that script is handed to the render engine as it is, which rejects it.
    pub fn plot_script(&self, id: &str) -> (r: Result<String, ScriptError>)
        ensures
            all_non_empty(self.data_set@) ==> (r matches Ok(s) && s@ == histogram_script(
                self.options,
                self.data_set@,
                id@,
            )),
            !all_non_empty(self.data_set@) ==> (r matches Err(ScriptError::EmptyDistribution(k))
                && first_empty(self.data_set@, k as int)),
    {
        let mut out = String::new();
        self.options.push_preamble(&mut out);
        let ghost start = out@;
        let n = self.data_set.len();
        let mut i: usize = 0;
        while i < n
            invariant
                n == self.data_set@.len(),
                i <= n,
                all_non_empty(self.data_set@.take(i as int)),
                out@ == start + hist_blocks(self.data_set@.take(i as int)),
            decreases n - i,
        {
            let ghost d = self.data_set@.take(i + 1);
            assert(d.drop_last() == self.data_set@.take(i as int));
            assert(d.last() == self.data_set@[i as int]);
            match histogram_stats(&self.data_set[i].realizations) {
                None => {
                    assert(first_empty(self.data_set@, i as int)) by {
                        assert forall|j: int| 0 <= j < i implies self.data_set@[j].realizations@.len() > 0 by {
                            assert(self.data_set@.take(i as int)[j] == self.data_set@[j]);
                        }
                    }
                    return Err(ScriptError::EmptyDistribution(i));
                },
                Some(h) => {
                    proof {
                        lemma_min_max(self.data_set@[i as int].realizations@);
                    }
                    let it = index_text(i);
                    push_hist_constants(&mut out, it.as_str(), &h);
                    push_hist_function(&mut out, it.as_str());
                    assert(out@ == start + hist_blocks(d));
                    assert(all_non_empty(d)) by {
                        assert forall|j: int| 0 <= j < i + 1 implies d[j].realizations@.len() > 0 by {
                            if j < i {
                                assert(self.data_set@.take(i as int)[j] == d[j]);
                            }
                        }
                    }
                },
            }
            i = i + 1;
        }
        assert(self.data_set@.take(n as int) == self.data_set@);
        out.append("plot ");
        let ghost mid = out@;
        let mut i: usize = 0;
        while i < n
            invariant
                n == self.data_set@.len(),
                i <= n,
                out@ == mid + histogram_clauses(self.data_set@.take(i as int), id@),
            decreases n - i,
        {
            let ghost d = self.data_set@.take(i + 1);
            assert(d.drop_last() == self.data_set@.take(i as int));
            assert(d.last() == self.data_set@[i as int]);
            push_histogram_clause(&mut out, id, i, &self.data_set[i].config.title);
            i = i + 1;
        }
        assert(self.data_set@.take(n as int) == self.data_set@);
        out.append("\n");
        out.append("pause -1\n");
        Ok(out)
    }
}

} // verus!
