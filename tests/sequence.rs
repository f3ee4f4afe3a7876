use preexplorer::configuration::Style;
use preexplorer::sequence::{Sequence, SequenceBin};
use preexplorer::ScriptError;

#[test]
fn set_style() {
    let data: Vec<Vec<i64>> = (0..2).map(|i| (0..4).map(|j| j + i).collect()).collect();
    let mut seq = SequenceBin::new(data);
    seq.set_style("points");

    assert_eq!(Some(Style::Points), seq.style());
}

#[test]
fn unknown_style_name_keeps_style() {
    let mut seq = SequenceBin::new(vec![vec![1]]);
    seq.set_style("lines");
    seq.set_style("curly");
    assert_eq!(Some(Style::Lines), seq.style());
    assert_eq!(Style::from_name("linespoints"), Some(Style::LinesPoints));
    assert_eq!(Style::from_name("Points"), None);
    assert_eq!(Style::from_name(""), None);
}

#[test]
fn sequence_data_one_line_per_value() {
    let seq = Sequence::new(vec![5, -3, 12]);
    assert_eq!(seq.plotable_data(), "0\t5\n1\t-3\n2\t12\n");
    assert_eq!(Sequence::new(vec![]).plotable_data(), "");
}

#[test]
fn sequence_script_with_log_scale_and_title() {
    let mut seq = Sequence::new(vec![1, 2, 4]);
    seq.set_logx(-2);
    seq.set_title("My Title");
    let script = seq.plot_script("my_serie_name");
    assert_eq!(
        script,
        "set key\nset title \"My Title\"\nset logscale x\nplot \"data/my_serie_name.txt\" using 1 with lines\npause -1\n"
    );
    assert!(script.contains("\nset logscale x\n"));
    assert!(script.contains("set title \"My Title\"\n"));
    assert!(script.contains("\"data/my_serie_name.txt\" using 1 "));
}

#[test]
fn sequence_script_with_explicit_bases() {
    let mut seq = Sequence::new(vec![1]);
    seq.set_logx(10);
    seq.set_logy(0);
    assert_eq!(
        seq.plot_script("s"),
        "set key\nset logscale x 10\nset logscale y\nplot \"data/s.txt\" using 1 with lines\npause -1\n"
    );
}

#[test]
fn sequence_script_is_deterministic() {
    let mut seq = Sequence::new(vec![3, 1]);
    seq.set_title("t");
    assert_eq!(seq.plot_script("a"), seq.plot_script("a"));
}

#[test]
fn bin_data_blocks() {
    let seq = SequenceBin::new(vec![vec![1, 2], vec![], vec![-7]]);
    assert_eq!(seq.plotable_data(), "0\t1\n0\t2\n\n\n\n\n2\t-7\n\n\n");
}

#[test]
fn bin_script_without_groups() {
    let seq = SequenceBin::new(vec![]);
    assert_eq!(seq.plot_script("v"), Err(ScriptError::NoGroups));
}

#[test]
fn bin_script_shares_one_scale() {
    let seq = SequenceBin::new(vec![vec![1, 2, 3], vec![0, 10, 20, 30]]);
    let script = seq.plot_script("violin").unwrap();
    assert!(script.starts_with("set key\nrenormalize = 2\ndo for [i=0:1] {\n"));
    assert!(script.contains("    plot \"data/violin.txt\" index i using 2:(1) smooth kdensity\n"));
    assert!(script.contains(
        "    renormalize = (renormalize < 2 * GPVAL_Y_MAX) ? 2 * GPVAL_Y_MAX : renormalize\n"
    ));
    assert!(script.contains("    set table 'data/violin.txt'.'_partial_plot'.i\n"));
    assert!(script.contains(
        "plot for [i=0:1] 'data/violin.txt'.'_partial_plot'.i using (i + $2/renormalize):1 with filledcurve x=i linecolor i\n"
    ));
    assert!(script.contains(
        "replot for [i=0:1] 'data/violin.txt'.'_partial_plot'.i using (i - $2/renormalize):1 with filledcurve x=i linecolor i\n"
    ));
    assert_eq!(script.matches("renormalize = 2\n").count(), 1);
    assert!(script.ends_with("pause -1\n"));
    assert_eq!(script, seq.plot_script("violin").unwrap());
}

#[test]
fn bin_script_with_log_scales() {
    let mut seq = SequenceBin::new(vec![vec![1, 2]]);
    seq.set_logx(2);
    seq.set_logy(-1);
    seq.set_title("V");
    let script = seq.plot_script("b").unwrap();
    assert!(script.starts_with(
        "set key\nset title \"V\"\nset logscale x 2\nset logscale y\nrenormalize = 2\ndo for [i=0:0] {\n"
    ));
    assert!(script.ends_with(
        "replot for [i=0:0] 'data/b.txt'.'_partial_plot'.i using (i - $2/renormalize):1 with filledcurve x=i linecolor i\npause -1\n"
    ));
}
