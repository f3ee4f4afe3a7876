use preexplorer::distribution::{self, histogram_stats, Distribution, HistogramStats, BIN_COUNT};
use preexplorer::process::{self, Process};
use preexplorer::series::{child_identifier, data_file, script_file};
use preexplorer::ScriptError;

#[test]
fn histogram_stats_of_one_to_five() {
    let stats = histogram_stats(&vec![1, 2, 3, 4, 5]).unwrap();
    assert_eq!(stats, HistogramStats { min: 1, max: 5, count: 5 });
    assert_eq!(stats.spread(), 4);
    assert_eq!(stats.spread() as f64 / BIN_COUNT as f64, 0.2);
    assert_eq!(histogram_stats(&vec![]), None);
    let stats = histogram_stats(&vec![-4, 9, -12, 3]).unwrap();
    assert_eq!(stats, HistogramStats { min: -12, max: 9, count: 4 });
    assert_eq!(stats.spread(), 21);
}

#[test]
fn spread_of_extreme_values() {
    let stats = histogram_stats(&vec![i64::MAX, i64::MIN]).unwrap();
    assert_eq!(stats.spread(), u64::MAX);
}

#[test]
fn histogram_script_of_one_to_five() {
    let cmp = distribution::Comparison::new(vec![Distribution::new(vec![1, 2, 3, 4, 5])]);
    assert_eq!(
        cmp.plot_script("d").unwrap(),
        "set key\nnbins_0 = 20.0 #number of bins\nmax_0 = 5 #max value\nmin_0 = 1 #min value\nlen_0 = 5.0 #number of values\nwidth_0 = 4 / nbins_0 #width\n\n#function used to map a value to the intervals\nhist_0(x,width_0) = width_0 * floor(x/width_0) + width_0 / 2.0\n\nplot \"data/d_0.txt\" using (hist_0($1,width_0)):(1.0/len_0) smooth frequency with steps title \"0\", \npause -1\n"
    );
}

#[test]
fn histogram_script_rejects_empty_distribution() {
    let cmp = distribution::Comparison::new(vec![
        Distribution::new(vec![1]),
        Distribution::new(vec![]),
        Distribution::new(vec![]),
    ]);
    assert_eq!(cmp.plot_script("d"), Err(ScriptError::EmptyDistribution(1)));
}

#[test]
fn histogram_script_two_children() {
    let mut second = Distribution::new(vec![7, 7]);
    second.set_title("twins");
    let cmp = distribution::Comparison::new(vec![Distribution::new(vec![3])])
        .set_title("H")
        .set_logx(2);
    let mut cmp = cmp;
    cmp.add(vec![second]);
    let script = cmp.plot_script("h").unwrap();
    assert!(script.starts_with("set key\nset title \"H\"\nset logscale x 2\nnbins_0 = 20.0"));
    assert!(script.contains("width_1 = 0 / nbins_1 #width\n\n"));
    assert!(script.contains("len_1 = 2.0 #number of values\n"));
    assert!(script.contains(
        "\"data/h_1.txt\" using (hist_1($1,width_1)):(1.0/len_1) smooth frequency with steps title \"twins\", \n"
    ));
    assert_eq!(script.matches("smooth frequency with steps").count(), 2);
    assert_eq!(script, cmp.plot_script("h").unwrap());
}

#[test]
fn distribution_data_one_value_per_line() {
    assert_eq!(Distribution::new(vec![3, -1, 3]).plotable_data(), "3\n-1\n3\n");
}

#[test]
fn process_comparison_script() {
    let mut second = Process::new(vec![0, 1], vec![2, 3]);
    second.set_title("Second");
    let cmp = process::Comparison::new(vec![Process::new(vec![1, 10, 100], vec![1, 2, 4]), second])
        .set_title("All")
        .set_logy(10);
    assert_eq!(
        cmp.plot_script("cmp"),
        "set key\nset title \"All\"\nset logscale y 10\nplot \"data/cmp_0.txt\" using 1:2 with lines title \"0\", \"data/cmp_1.txt\" using 1:2 with lines title \"Second\", \npause -1\n"
    );
}

#[test]
fn process_comparison_one_clause_per_child() {
    let children: Vec<Process> = (0..12).map(|k| Process::new(vec![k], vec![k * k])).collect();
    let cmp = process::Comparison::new(children);
    let script = cmp.plot_script("n");
    assert_eq!(script.matches("with lines title").count(), 12);
    for k in 0..12 {
        let clause = format!("\"data/n_{}.txt\" using 1:2 with lines title \"{}\", ", k, k);
        assert_eq!(script.matches(clause.as_str()).count(), 1);
    }
    assert!(!script.contains("n_12.txt"));
    let empty = process::Comparison::new(vec![]).set_logx(-1);
    assert_eq!(empty.plot_script("e"), "set key\nset logscale x\nplot \npause -1\n");
}

#[test]
fn process_comparison_add_appends() {
    let mut first = Process::new(vec![0], vec![0]);
    first.set_title("First");
    let mut cmp = process::Comparison::new(vec![first]);
    let mut third = Process::new(vec![1], vec![1]);
    third.set_title("Third");
    cmp.add(vec![Process::new(vec![2], vec![2]), third]);
    assert_eq!(cmp.data_set.len(), 3);
    assert_eq!(cmp.data_set[0].config.title.as_deref(), Some("First"));
    assert_eq!(cmp.data_set[1].config.title, None);
    assert_eq!(cmp.data_set[1].domain, vec![2]);
    assert_eq!(cmp.data_set[2].config.title.as_deref(), Some("Third"));
    assert!(cmp.options.title.is_none());
}

#[test]
fn process_data_pairs() {
    let p = Process::new(vec![1, 10, 100], vec![1, 2]);
    assert_eq!(p.plotable_data(), "1\t1\n10\t2\n");
    let mut p = Process::new(vec![-5], vec![6]);
    p.set_logx(-2);
    p.set_title("My Title");
    assert_eq!(
        p.plot_script("my_serie_name"),
        "set key\nset title \"My Title\"\nset logscale x\nplot \"data/my_serie_name.txt\" using 1:2 with lines\npause -1\n"
    );
}

#[test]
fn file_names() {
    assert_eq!(data_file("x"), "data/x.txt");
    assert_eq!(child_identifier("run", 17), "run_17");
    assert_eq!(script_file("my_serie_name"), "plots/my_serie_name.gnu");
}

#[test]
fn distribution_script_alone() {
    let mut d = Distribution::new(vec![2, -1, 5]);
    d.set_title("Alone");
    d.set_logy(-1);
    assert_eq!(
        d.plot_script("solo").unwrap(),
        "set key\nset title \"Alone\"\nset logscale y\nnbins_0 = 20.0 #number of bins\nmax_0 = 5 #max value\nmin_0 = -1 #min value\nlen_0 = 3.0 #number of values\nwidth_0 = 6 / nbins_0 #width\n\n#function used to map a value to the intervals\nhist_0(x,width_0) = width_0 * floor(x/width_0) + width_0 / 2.0\n\nplot \"data/solo.txt\" using (hist_0($1,width_0)):(1.0/len_0) smooth frequency with steps\npause -1\n"
    );
}

#[test]
fn distribution_script_alone_edge_cases() {
    assert_eq!(
        Distribution::new(vec![]).plot_script("e"),
        Err(ScriptError::EmptyDistribution(0))
    );
    let mut d = Distribution::new(vec![4, 4]);
    d.set_logx(3);
    let script = d.plot_script("flat").unwrap();
    assert!(script.starts_with("set key\nset logscale x 3\n"));
    assert!(script.contains("width_0 = 0 / nbins_0 #width\n"));
}

#[test]
fn group_setters_keep_other_options() {
    let mut cmp = process::Comparison::new(vec![Process::new(vec![0], vec![1])]);
    cmp.options.set_style("steps");
    cmp.options.set_dashtype(3);
    let cmp = cmp.set_title("T").set_logx(2).set_logy(-4);
    assert_eq!(cmp.options.title.as_deref(), Some("T"));
    assert_eq!(cmp.options.logx, Some(2));
    assert_eq!(cmp.options.logy, Some(-4));
    assert_eq!(cmp.options.style, Some(preexplorer::configuration::Style::Steps));
    assert_eq!(cmp.options.dashtype, Some(3));

    let mut cmp = distribution::Comparison::new(vec![]);
    cmp.options.set_dashtype(5);
    let cmp = cmp.set_title("D").set_logx(0);
    assert_eq!(cmp.options.dashtype, Some(5));
    assert_eq!(cmp.options.logx, Some(0));
}
