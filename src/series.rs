//! Names of the files that a series is written to and that a script reads.
use vstd::prelude::*;
use crate::text::{decimal, index_text};

verus! {

/// The identifier of the child at `index` of a comparison named `id`.
pub open spec fn child_id(id: Seq<char>, index: int) -> Seq<char> {
    id + "_"@ + decimal(index)
}

/// The data file of the series named `id`.
pub open spec fn data_path(id: Seq<char>) -> Seq<char> {
    "data/"@ + id + ".txt"@
}

/// One data line: a first column, a tab, a second column.
pub open spec fn pair_line(a: int, b: int) -> Seq<char> {
    decimal(a) + "\t"@ + decimal(b) + "\n"@
}

/// The legend of the child at `index`: its own title, or its position when it has none.
pub open spec fn legend(title: Option<String>, index: int) -> Seq<char> {
    match title {
        Some(t) => t@,
        None => decimal(index),
    }
}

/// Appends the identifier of the child at `index` of a comparison named `id`.
pub fn push_child_id(out: &mut String, id: &str, index: usize)
    ensures
        final(out)@ == old(out)@ + child_id(id@, index as int),
{
    out.append(id);
    out.append("_");
    let t = index_text(index);
    out.append(t.as_str());
}

/// Appends the legend of the child at `index`.
pub fn push_legend(out: &mut String, title: &Option<String>, index: usize)
    ensures
        final(out)@ == old(out)@ + legend(*title, index as int),
{
    match title {
        Some(t) => out.append(t.as_str()),
        None => {
            let t = index_text(index);
            out.append(t.as_str());
        },
    }
}

/// The path of the data file of the series named `id`.
pub fn data_file(id: &str) -> (r: String)
    ensures
        r@ == data_path(id@),
{
    let mut r = String::new();
    r.append("data/");
    r.append(id);
    r.append(".txt");
    r
}

/// The script file of the plot named `id`.
pub open spec fn script_path(id: Seq<char>) -> Seq<char> {
    "plots/"@ + id + ".gnu"@
}

/// The path of the script file of the plot named `id`.
pub fn script_file(id: &str) -> (r: String)
    ensures
        r@ == script_path(id@),
{
    let mut r = String::new();
    r.append("plots/");
    r.append(id);
    r.append(".gnu");
    r
}

/// The identifier of the child at `index` of a comparison named `id`.
pub fn child_identifier(id: &str, index: usize) -> (r: String)
    ensures
        r@ == child_id(id@, index as int),
{
    let mut r = String::new();
    push_child_id(&mut r, id, index);
    r
}

} // verus!
