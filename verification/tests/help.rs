use cliarg::arg::Arg;
use cliarg::help_writer::HelpWriter;
use cliarg::settings::ArgSettings;

fn writer(l: usize, nlh: bool, skip_pv: bool, term_w: Option<usize>) -> HelpWriter {
    HelpWriter { tab: "  ", l, nlh, skip_pv, term_w }
}

#[test]
fn help_row_flag() {
    let hw = writer(8, false, false, None);
    let a = Arg::with_name("force").short("f").long("force").help("overwrite the target");
    assert_eq!(hw.write(&a), "  -f, --force overwrite the target");
    assert_eq!(hw.writeln(&a), "  -f, --force overwrite the target\n");
}

#[test]
fn help_row_flag_without_short() {
    let hw = writer(8, false, false, None);
    let a = Arg::with_name("force").long("force").help("overwrite the target");
    assert_eq!(hw.write(&a), "    --force overwrite the target");
}

#[test]
fn help_row_opt_aligns_columns() {
    let hw = writer(8, false, false, None);
    let a = Arg::with_name("val").short("o").long("opt").takes_value(true).help("halp");
    // after `, --opt` the value column is padded to l + 4, and after the
    // rendered usage (11 characters) one space remains up to l + 4.
    assert_eq!(hw.write(&a), "  -o, --opt       <val> halp");
}

#[test]
fn help_row_opt_without_long() {
    let hw = writer(8, false, false, None);
    let a = Arg::with_name("n").short("o").takes_value(true).help("h");
    // without a long trigger the whole long column is padding (l + 6), and
    // the usage form `-o <n>` is padded out to l + 8.
    assert_eq!(hw.write(&a), "  -o              <n>          h");

    let a2 = Arg::with_name("v").short("p").number_of_values(2).help("h");
    // an exact arity repeats the name without separators in the value column
    assert_eq!(hw.write(&a2), "  -p              <v><v>      h");
}

#[test]
fn help_row_pos_with_annotations() {
    let hw = writer(8, false, false, None);
    let a = Arg::with_name("pos")
        .index(1)
        .required(true)
        .help("helptext")
        .default_value("x")
        .possible_values(&["a", "b"]);
    assert_eq!(hw.write(&a), "  <pos>       helptext [default: x] [values: a, b]");
}

#[test]
fn help_row_skips_possible_values_on_demand() {
    let hw = writer(8, false, true, None);
    let a = Arg::with_name("pos")
        .index(1)
        .required(true)
        .help("helptext")
        .default_value("x")
        .possible_values(&["a", "b"]);
    assert_eq!(hw.write(&a), "  <pos>       helptext [default: x]");
}

#[test]
fn help_text_wraps_at_terminal_width() {
    let hw = writer(0, false, false, Some(20));
    let a = Arg::with_name("f").short("f").help("aaaaaaaaaa");
    // spcs = l + 12 = 12, width 20: the ten characters exceed the room, so
    // they break into chunks of 8 behind a 12-column re-indentation.
    assert_eq!(hw.write(&a), "  -f aaaaaaaa\n            aa");
}

#[test]
fn help_text_honors_explicit_breaks() {
    let hw = writer(0, true, false, None);
    let a = Arg::with_name("f").short("f").help("x{n}y");
    // next-line mode: the help starts on a fresh double-indented line, and
    // the explicit break re-indents the same way.
    assert_eq!(hw.write(&a), "  -f \n    x\n    y");
}

#[test]
fn view_write_help_rows() {
    let f = Arg::with_name("force").short("f").long("force").help("overwrite the target");
    let fv = cliarg::flag::Flag::from(&f);
    assert_eq!(
        fv.write_help("  ", 8, false, None),
        "  -f, --force overwrite the target\n",
    );

    let o = Arg::with_name("val").short("o").long("opt").takes_value(true).help("halp");
    let ov = cliarg::option::Opt::from(&o);
    assert_eq!(ov.write_help("  ", 8, false, false, None), "  -o, --opt       <val> halp\n");

    let p = Arg::with_name("pos").index(1).required(true).help("helptext");
    let pv = cliarg::positional::Positional::from(&p);
    assert_eq!(pv.write_help("  ", 8, false, false, None), "  <pos>       helptext\n");
}

#[test]
fn setter_built_value_names_render_in_order() {
    let a = Arg::with_name("o").short("o").value_names(&["first", "second"]);
    assert_eq!(a.to_string(), "-o <first> <second>");

    let b = Arg::with_name("p").index(1).value_name("solo").multiple(true);
    let pv = cliarg::positional::Positional::from(&b);
    assert_eq!(pv.to_string(), "[solo]");
}

#[test]
fn help_next_line_setting_applies_per_argument() {
    let hw = writer(8, false, false, None);
    let a = Arg::with_name("force").short("f").long("force").help("overwrite").next_line_help(
        true,
    );
    assert!(a.is_set(ArgSettings::NextLineHelp));
    assert_eq!(hw.write(&a), "  -f, --force \n    overwrite");
}
