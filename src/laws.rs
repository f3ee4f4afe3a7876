//! Properties that relate the data text, the scripts and the comparisons.
use vstd::prelude::*;
use vstd::seq_lib::*;
use crate::series::pair_line;
use crate::sequence::{
    sequence_data, group_data, bin_data, violin_script, density_loop, right_halves, left_halves,
    LOOP_HEAD, VIOLIN_FIRST_PASS, KDENSITY, RENORMALIZE_INIT, RENORMALIZE_UPDATE,
};
use crate::configuration::{Configuration, preamble, closing};
use crate::series::data_path;
use crate::text::{decimal, lemma_decimal_no_newline};
use crate::process::{Process, process_clause, process_clauses, process_comparison_script};
use crate::distribution::{Distribution, histogram_clause, histogram_clauses, histogram_script};

verus! {

broadcast use group_seq_properties;

/// Whether `l` is one line of text: it ends with its only line break.
pub open spec fn is_line(l: Seq<char>) -> bool {
    l.len() > 0 && l.last() == '\n' && !l.drop_last().contains('\n')
}

/// Every data line `a<TAB>b` is a single line.
pub proof fn lemma_pair_line_is_line(a: int, b: int)
    ensures
        is_line(pair_line(a, b)),
{
    reveal_strlit("\t");
    reveal_strlit("\n");
    lemma_decimal_no_newline(a);
    lemma_decimal_no_newline(b);
    let l = pair_line(a, b);
    let body = decimal(a) + "\t"@ + decimal(b);
    assert(l == body + seq!['\n']);
    assert(l.drop_last() == body);
    assert forall|k: int| 0 <= k < body.len() implies body[k] != '\n' by {
        let x = decimal(a);
        let y = decimal(b);
        if k < x.len() {
            assert(body[k] == x[k]);
        } else if k == x.len() {
            assert(body[k] == '\t');
        } else {
            assert(body[k] == y[k - x.len() - 1]);
        }
    }
}

/// The data text of a sequence holds one line per value, in input order: line `k`
/// is the index `k`, a tab and the `k`-th value, so the index column counts up from 0.
pub proof fn lemma_sequence_data_lines(s: Seq<i64>)
    ensures
        sequence_data(s) == Seq::new(s.len(), |k: int| pair_line(k, s[k] as int)).flatten(),
        forall|k: int| 0 <= k < s.len() ==> is_line(#[trigger] pair_line(k, s[k] as int)),
    decreases s.len(),
{
    assert forall|k: int| 0 <= k < s.len() implies is_line(#[trigger] pair_line(k, s[k] as int)) by {
        lemma_pair_line_is_line(k, s[k] as int);
    }
    if s.len() > 0 {
        let t = s.drop_last();
        lemma_sequence_data_lines(t);
        let lines = Seq::new(s.len(), |k: int| pair_line(k, s[k] as int));
        let first = Seq::new(t.len(), |k: int| pair_line(k, t[k] as int));
        assert(lines == first.push(pair_line(s.len() - 1, s.last() as int)));
        first.lemma_flatten_push(pair_line(s.len() - 1, s.last() as int));
    }
}

/// A comparison of `n` processes plots exactly `n` clauses, joined by commas; clause `k`
/// reads the data saved under `{id}_{k}`.
pub proof fn lemma_process_clause_per_child(d: Seq<Process>, id: Seq<char>)
    ensures
        process_clauses(d, id) == Seq::new(
            d.len(),
            |k: int| process_clause(id, k, d[k].config.title),
        ).flatten(),
    decreases d.len(),
{
    if d.len() > 0 {
        let t = d.drop_last();
        lemma_process_clause_per_child(t, id);
        let all = Seq::new(d.len(), |k: int| process_clause(id, k, d[k].config.title));
        let first = Seq::new(t.len(), |k: int| process_clause(id, k, t[k].config.title));
        let last = process_clause(id, d.len() - 1, d.last().config.title);
        assert(all == first.push(last));
        first.lemma_flatten_push(last);
    }
}

/// A comparison of `n` distributions plots exactly `n` histogram clauses, joined by
/// commas; clause `k` reads the data saved under `{id}_{k}`.
pub proof fn lemma_histogram_clause_per_child(d: Seq<Distribution>, id: Seq<char>)
    ensures
        histogram_clauses(d, id) == Seq::new(
            d.len(),
            |k: int| histogram_clause(id, k, d[k].config.title),
        ).flatten(),
    decreases d.len(),
{
    if d.len() > 0 {
        let t = d.drop_last();
        lemma_histogram_clause_per_child(t, id);
        let all = Seq::new(d.len(), |k: int| histogram_clause(id, k, d[k].config.title));
        let first = Seq::new(t.len(), |k: int| histogram_clause(id, k, t[k].config.title));
        let last = histogram_clause(id, d.len() - 1, d.last().config.title);
        assert(all == first.push(last));
        first.lemma_flatten_push(last);
    }
}

/// The script of a comparison of processes depends only on the group options, the
/// children and the identifier: rendering the same comparison twice gives the same text.
pub proof fn lemma_process_script_deterministic(
    a: crate::process::Comparison,
    b: crate::process::Comparison,
    id: Seq<char>,
)
    requires
        a.options == b.options,
        a.data_set@ == b.data_set@,
    ensures
        process_comparison_script(a.options, a.data_set@, id) == process_comparison_script(
            b.options,
            b.data_set@,
            id,
        ),
{
}

/// The script of a comparison of distributions depends only on the group options, the
/// children and the identifier: rendering the same comparison twice gives the same text.
pub proof fn lemma_histogram_script_deterministic(
    a: crate::distribution::Comparison,
    b: crate::distribution::Comparison,
    id: Seq<char>,
)
    requires
        a.options == b.options,
        a.data_set@ == b.data_set@,
    ensures
        histogram_script(a.options, a.data_set@, id) == histogram_script(
            b.options,
            b.data_set@,
            id,
        ),
{
}

/// Children appended to a comparison come after those it held, which keep their
/// positions and their own options.
pub proof fn lemma_add_keeps_children(before: Seq<Process>, added: Seq<Process>)
    ensures
        (before + added).len() == before.len() + added.len(),
        forall|k: int| 0 <= k < before.len() ==> (#[trigger] (before + added)[k]) == before[k],
        forall|k: int| 0 <= k < added.len() ==> (#[trigger] (before + added)[before.len() + k]) == added[k],
{
}

/// The lines of the group at position `g` of a binned sequence: one per value, in input
/// order, each the group's position `g`, a tab and the value.
pub proof fn lemma_group_data_lines(g: int, s: Seq<i64>)
    ensures
        group_data(g, s) == Seq::new(s.len(), |j: int| pair_line(g, s[j] as int)).flatten(),
        forall|j: int| 0 <= j < s.len() ==> is_line(#[trigger] pair_line(g, s[j] as int)),
    decreases s.len(),
{
    assert forall|j: int| 0 <= j < s.len() implies is_line(#[trigger] pair_line(g, s[j] as int)) by {
        lemma_pair_line_is_line(g, s[j] as int);
    }
    if s.len() > 0 {
        let t = s.drop_last();
        lemma_group_data_lines(g, t);
        let lines = Seq::new(s.len(), |j: int| pair_line(g, s[j] as int));
        let first = Seq::new(t.len(), |j: int| pair_line(g, t[j] as int));
        assert(lines == first.push(pair_line(g, s.last() as int)));
        first.lemma_flatten_push(pair_line(g, s.last() as int));
    }
}

/// The data text of a binned sequence is one block per group, in input order, each block
/// the group's lines (see `lemma_group_data_lines`) followed by two blank lines.
pub proof fn lemma_bin_data_blocks(d: Seq<Vec<i64>>)
    ensures
        bin_data(d) == Seq::new(d.len(), |g: int| group_data(g, d[g]@) + "\n\n"@).flatten(),
    decreases d.len(),
{
    if d.len() > 0 {
        let t = d.drop_last();
        lemma_bin_data_blocks(t);
        let all = Seq::new(d.len(), |g: int| group_data(g, d[g]@) + "\n\n"@);
        let first = Seq::new(t.len(), |g: int| group_data(g, t[g]@) + "\n\n"@);
        let last = group_data(d.len() - 1, d.last()@) + "\n\n"@;
        assert(all == first.push(last));
        first.lemma_flatten_push(last);
    }
}

/// The violin script of `n` groups sets one scale `renormalize` once, then loops over the
/// groups `0..=n-1`, raising it in each pass to twice that group's first density peak when
/// that is larger; after the loop both the right and the left halves of all `n` violins are
/// drawn over the same groups and divided by that same scale.
pub proof fn lemma_violins_share_one_scale(c: Configuration, n: int, id: Seq<char>)
    requires
        n >= 1,
    ensures
        ({
            let last = decimal(n - 1);
            let path = data_path(id);
            let q = "\""@ + path + "\""@;
            let before = LOOP_HEAD@ + last + VIOLIN_FIRST_PASS@ + q + KDENSITY@;
            &&& violin_script(c, n, id) == preamble(c) + RENORMALIZE_INIT@ + density_loop(last, path)
                + right_halves(last, path) + left_halves(last, path) + closing()
            &&& density_loop(last, path).subrange(
                before.len() as int,
                (before.len() + RENORMALIZE_UPDATE@.len()) as int,
            ) == RENORMALIZE_UPDATE@
        }),
{
    let last = decimal(n - 1);
    let path = data_path(id);
    let q = "\""@ + path + "\""@;
    let before = LOOP_HEAD@ + last + VIOLIN_FIRST_PASS@ + q + KDENSITY@;
    let dl = density_loop(last, path);
    let after = crate::sequence::WIDEN_HEAD@ + path + crate::sequence::VIOLIN_SECOND_PASS@ + q
        + KDENSITY@ + crate::sequence::LOOP_END@;
    assert(dl == before + RENORMALIZE_UPDATE@ + after);
    assert(dl.subrange(before.len() as int, (before.len() + RENORMALIZE_UPDATE@.len()) as int)
        =~= RENORMALIZE_UPDATE@);
}

} // verus!
