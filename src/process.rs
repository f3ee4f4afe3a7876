//! Processes: values paired with the points of a domain, alone or compared.
use vstd::prelude::*;
use crate::configuration::{Configuration, unset, preamble, closing};
use crate::series::{child_id, data_path, data_file, pair_line, legend, push_child_id, push_legend};
use crate::text::int_text;

verus! {

/// Values `image` taken at the points `domain`; pairs beyond the shorter of the two are not used.
#[derive(Clone, Debug)]
pub struct Process {
    pub domain: Vec<i64>,
    pub image: Vec<i64>,
    pub config: Configuration,
}

/// The data text of the first `n` pairs: one line `x<TAB>y` per pair, in order.
pub open spec fn process_data(x: Seq<i64>, y: Seq<i64>, n: nat) -> Seq<char>
    decreases n,
{
    if n == 0 {
        Seq::empty()
    } else {
        process_data(x, y, (n - 1) as nat) + pair_line(x[n - 1] as int, y[n - 1] as int)
    }
}

/// How many pairs a process has.
pub open spec fn pair_count(x: Seq<i64>, y: Seq<i64>) -> nat {
    if x.len() <= y.len() { x.len() } else { y.len() }
}

/// The script of a process named `id`.
pub open spec fn process_script(c: Configuration, id: Seq<char>) -> Seq<char> {
    preamble(c) + "plot \""@ + data_path(id) + "\" using 1:2 with lines\n"@ + closing()
}

impl Process {
    pub fn new(domain: Vec<i64>, image: Vec<i64>) -> (r: Process)
        ensures
            r.domain@ == domain@,
            r.image@ == image@,
            unset(r.config),
    {
        Process { domain, image, config: Configuration::new() }
    }

    pub fn set_title(&mut self, title: &str)
        ensures
            final(self).domain@ == old(self).domain@,
            final(self).image@ == old(self).image@,
            final(self).config.title matches Some(t) && t@ == title@,
            final(self).config.logx == old(self).config.logx,
            final(self).config.logy == old(self).config.logy,
            final(self).config.style == old(self).config.style,
            final(self).config.dashtype == old(self).config.dashtype,
    {
        self.config.set_title(title);
    }

    pub fn set_logx(&mut self, logx: i64)
        ensures
            final(self).domain@ == old(self).domain@,
            final(self).image@ == old(self).image@,
            final(self).config.title == old(self).config.title,
            final(self).config.logx == Some(logx),
            final(self).config.logy == old(self).config.logy,
            final(self).config.style == old(self).config.style,
            final(self).config.dashtype == old(self).config.dashtype,
    {
        self.config.set_logx(logx);
    }

    pub fn set_logy(&mut self, logy: i64)
        ensures
            final(self).domain@ == old(self).domain@,
            final(self).image@ == old(self).image@,
            final(self).config.title == old(self).config.title,
            final(self).config.logx == old(self).config.logx,
            final(self).config.logy == Some(logy),
            final(self).config.style == old(self).config.style,
            final(self).config.dashtype == old(self).config.dashtype,
    {
        self.config.set_logy(logy);
    }

    /// The text written to the data file.
    pub fn plotable_data(&self) -> (r: String)
        ensures
            r@ == process_data(
                self.domain@,
                self.image@,
                pair_count(self.domain@, self.image@),
            ),
    {
        let n = if self.domain.len() <= self.image.len() {
            self.domain.len()
        } else {
            self.image.len()
        };
        let mut out = String::new();
        let mut i: usize = 0;
        while i < n
            invariant
                n == pair_count(self.domain@, self.image@),
                i <= n,
                out@ == process_data(self.domain@, self.image@, i as nat),
            decreases n - i,
        {
            let x = int_text(self.domain[i]);
            out.append(x.as_str());
            out.append("\t");
            let y = int_text(self.image[i]);
            out.append(y.as_str());
            out.append("\n");
            i = i + 1;
        }
        out
    }

    /// The script that plots this process, saved under the identifier `id`.
    pub fn plot_script(&self, id: &str) -> (r: String)
        ensures
            r@ == process_script(self.config, id@),
    {
        let mut out = String::new();
        self.config.push_preamble(&mut out);
        out.append("plot \"");
        let p = data_file(id);
        out.append(p.as_str());
        out.append("\" using 1:2 with lines\n");
        out.append("pause -1\n");
        out
    }
}

/// Processes drawn together in one plot.
#[derive(Clone, Debug)]
pub struct Comparison {
    pub data_set: Vec<Process>,
    pub options: Configuration,
}

/// The plot clause of the child at `index`, with data saved under the child's identifier.
pub open spec fn process_clause(id: Seq<char>, index: int, title: Option<String>) -> Seq<char> {
    "\""@ + data_path(child_id(id, index)) + "\" using 1:2 with lines title \""@ + legend(
        title,
        index,
    ) + "\", "@
}

/// The plot clauses of all children, in order.
pub open spec fn process_clauses(d: Seq<Process>, id: Seq<char>) -> Seq<char>
    decreases d.len(),
{
    if d.len() == 0 {
        Seq::empty()
    } else {
        process_clauses(d.drop_last(), id) + process_clause(
            id,
            d.len() - 1,
            d.last().config.title,
        )
    }
}

/// The script of a comparison of processes saved under `id`.
pub open spec fn process_comparison_script(c: Configuration, d: Seq<Process>, id: Seq<char>) -> Seq<
    char,
> {
    preamble(c) + "plot "@ + process_clauses(d, id) + "\n"@ + closing()
}

impl Comparison {
    pub fn new(data_set: Vec<Process>) -> (r: Comparison)
        ensures
            r.data_set@ == data_set@,
            unset(r.options),
    {
        Comparison { data_set, options: Configuration::new() }
    }

    /// Sets the title of the whole plot.
    pub fn set_title(self, title: &str) -> (r: Comparison)
        ensures
            r.data_set@ == self.data_set@,
            r.options.title matches Some(t) && t@ == title@,
            r.options.logx == self.options.logx,
            r.options.logy == self.options.logy,
            r.options.style == self.options.style,
            r.options.dashtype == self.options.dashtype,
    {
        let mut c = self;
        c.options.set_title(title);
        c
    }

    pub fn set_logx(self, logx: i64) -> (r: Comparison)
        ensures
            r.data_set@ == self.data_set@,
            r.options.title == self.options.title,
            r.options.logx == Some(logx),
            r.options.logy == self.options.logy,
            r.options.style == self.options.style,
            r.options.dashtype == self.options.dashtype,
    {
        let mut c = self;
        c.options.set_logx(logx);
        c
    }

    pub fn set_logy(self, logy: i64) -> (r: Comparison)
        ensures
            r.data_set@ == self.data_set@,
            r.options.title == self.options.title,
            r.options.logx == self.options.logx,
            r.options.logy == Some(logy),
            r.options.style == self.options.style,
            r.options.dashtype == self.options.dashtype,
    {
        let mut c = self;
        c.options.set_logy(logy);
        c
    }

    /// Appends `anothers` after the processes already held, in their order.
    pub fn add(&mut self, anothers: Vec<Process>)
        ensures
            final(self).data_set@ == old(self).data_set@ + anothers@,
            final(self).options == old(self).options,
    {
        let mut anothers = anothers;
        self.data_set.append(&mut anothers);
    }

    /// The script that plots every process, the child at position `k` read from the data
    /// saved under `{id}_{k}`.
    pub fn plot_script(&self, id: &str) -> (r: String)
        ensures
            r@ == process_comparison_script(self.options, self.data_set@, id@),
    {
        let mut out = String::new();
        self.options.push_preamble(&mut out);
        out.append("plot ");
        let ghost start = out@;
        let mut i: usize = 0;
        while i < self.data_set.len()
            invariant
                i <= self.data_set@.len(),
                out@ == start + process_clauses(self.data_set@.take(i as int), id@),
            decreases self.data_set@.len() - i,
        {
            assert(self.data_set@.take(i + 1).drop_last() == self.data_set@.take(i as int));
            out.append("\"");
            out.append("data/");
            push_child_id(&mut out, id, i);
            out.append(".txt");
            out.append("\" using 1:2 with lines title \"");
            push_legend(&mut out, &self.data_set[i].config.title, i);
            out.append("\", ");
            let ghost d = self.data_set@.take(i + 1);
            assert(d.last() == self.data_set@[i as int]);
            assert(out@ == start + process_clauses(d, id@));
            i = i + 1;
        }
        assert(self.data_set@.take(i as int) == self.data_set@);
        out.append("\n");
        out.append("pause -1\n");
        out
    }
}

} // verus!
