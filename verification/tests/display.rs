use cliarg::arg::Arg;
use cliarg::flag::Flag;
use cliarg::option::Opt;
use cliarg::positional::Positional;
use cliarg::settings::ArgSettings;

#[test]
fn flagbuilder_display() {
    let mut f = Arg::with_name("flg");
    f.settings.set(ArgSettings::Multiple);
    f.long = Some("flag".to_string());
    let fv = Flag { a: f };

    assert_eq!(fv.to_string(), "--flag");

    let mut f2 = Arg::with_name("flg");
    f2.short = Some('f');
    let fv2 = Flag { a: f2 };

    assert_eq!(fv2.to_string(), "-f");
}

#[test]
fn optbuilder_display1() {
    let mut a = Arg::with_name("opt");
    a.long = Some("option".to_string());
    a.settings.set(ArgSettings::Multiple);
    let o = Opt::from(&a);

    assert_eq!(o.to_string(), "--option <opt>...");
}

#[test]
fn optbuilder_display2() {
    let mut v_names = vec_map::VecMap::new();
    v_names.insert(0, "file".to_string());
    v_names.insert(1, "name".to_string());

    let mut a2 = Arg::with_name("opt");
    a2.short = Some('o');
    a2.val_names = Some(v_names);
    let o2 = Opt::from(&a2);

    assert_eq!(o2.to_string(), "-o <file> <name>");
}

#[test]
fn optbuilder_display3() {
    let mut v_names = vec_map::VecMap::new();
    v_names.insert(0, "file".to_string());
    v_names.insert(1, "name".to_string());

    let mut a2 = Arg::with_name("opt");
    a2.short = Some('o');
    a2.val_names = Some(v_names);
    a2.settings.set(ArgSettings::Multiple);
    let o2 = Opt::from(&a2);

    assert_eq!(o2.to_string(), "-o <file> <name>");
}

#[test]
fn display_mult() {
    let mut p = Arg::with_name("pos").index(1);
    p.settings.set(ArgSettings::Multiple);
    let pv = Positional::from(&p);

    assert_eq!(pv.to_string(), "[pos]...");
}

#[test]
fn display_required() {
    let mut p2 = Arg::with_name("pos").index(1);
    p2.settings.set(ArgSettings::Required);
    let pv2 = Positional::from(&p2);

    assert_eq!(pv2.to_string(), "<pos>");
}

#[test]
fn display_val_names() {
    let mut p2 = Arg::with_name("pos").index(1);
    let mut vm = vec_map::VecMap::new();
    vm.insert(0, "file1".to_string());
    vm.insert(1, "file2".to_string());
    p2.val_names = Some(vm);
    let pv2 = Positional::from(&p2);

    assert_eq!(pv2.to_string(), "[file1] [file2]");
}

#[test]
fn display_val_names_req() {
    let mut p2 = Arg::with_name("pos").index(1);
    p2.settings.set(ArgSettings::Required);
    let mut vm = vec_map::VecMap::new();
    vm.insert(0, "file1".to_string());
    vm.insert(1, "file2".to_string());
    p2.val_names = Some(vm);
    let pv2 = Positional::from(&p2);

    assert_eq!(pv2.to_string(), "<file1> <file2>");
}

#[test]
fn arg_display_by_kind() {
    let f = Arg::with_name("verbose").short("v");
    assert_eq!(f.to_string(), "-v");

    let o = Arg::with_name("out").long("out").takes_value(true);
    assert_eq!(o.to_string(), "--out <out>");

    let p = Arg::with_name("input").index(1);
    assert_eq!(p.to_string(), "[input]");
}

#[test]
fn opt_display_exact_arity() {
    let o = Arg::with_name("pair").short("p").number_of_values(2);
    let ov = Opt::from(&o);
    assert_eq!(ov.to_string(), "-p <pair> <pair>");
}

#[test]
fn opt_display_multiple_needs_single_slot() {
    let mut v_names = vec_map::VecMap::new();
    v_names.insert(0, "file".to_string());

    let mut a = Arg::with_name("opt");
    a.short = Some('o');
    a.val_names = Some(v_names);
    a.settings.set(ArgSettings::Multiple);
    let o = Opt::from(&a);

    assert_eq!(o.to_string(), "-o <file>...");
}

#[test]
fn builder_and_direct_fields_render_alike() {
    let built = Arg::with_name("opt").long("option").multiple(true);

    let mut direct = Arg::with_name("opt");
    direct.long = Some("option".to_string());
    direct.settings.set(ArgSettings::Multiple);

    assert_eq!(Opt::from(&built).to_string(), Opt::from(&direct).to_string());

    let built_p = Arg::with_name("pos").index(1).required(true);
    let mut direct_p = Arg::with_name("pos");
    direct_p.index = Some(1);
    direct_p.kind = cliarg::kind::ArgKind::Pos;
    direct_p.settings.set(ArgSettings::Required);

    assert_eq!(
        Positional::from(&built_p).to_string(),
        Positional::from(&direct_p).to_string(),
    );
}
