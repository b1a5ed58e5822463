use vertex_sources::node::slabinfo::{parse_slab_info, parse_slab_line, Config};
use vertex_sources::pattern::Pattern;
use vertex_sources::node::Error;

fn slabinfo_fixture() -> String {
    let mut content = String::from(
        "slabinfo - version: 2.1\n# name            <active_objs> <num_objs> <objsize> <objperslab> <pagesperslab> : tunables <limit> <batchcount> <sharedfactor> : slabdata <active_slabs> <num_slabs> <sharedavail>\n",
    );
    content.push_str("pid_3                375    532    576   28    4 : tunables    0    0    0 : slabdata     19     19      0\n");
    for k in 1..300 {
        content.push_str(&format!(
            "cache_{k}  {a} {b} 64 64 1 : tunables 0 0 0 : slabdata {c} {c} 0\n",
            a = k * 10,
            b = k * 12,
            c = k
        ));
    }
    content
}

#[test]
fn slabinfo_parse() {
    let content = slabinfo_fixture();
    let slabs = parse_slab_info(&content).unwrap();

    assert_eq!(slabs.len(), 300);

    assert_eq!(slabs[0].name, b"pid_3");
    assert_eq!(slabs[0].obj_active, 375);
    assert_eq!(slabs[0].obj_num, 532);
    assert_eq!(slabs[0].obj_size, 576);
    assert_eq!(slabs[0].obj_per_slab, 28);
    assert_eq!(slabs[0].pages_per_slab, 4);
    assert_eq!(slabs[0].limit, 0);
    assert_eq!(slabs[0].batch, 0);
    assert_eq!(slabs[0].shared_factor, 0);
    assert_eq!(slabs[0].slab_active, 19);
    assert_eq!(slabs[0].slab_num, 19);
    assert_eq!(slabs[0].shared_avail, 0);
}

#[test]
fn slab_lines_must_have_sixteen_fields() {
    assert_eq!(
        parse_slab_info("v\nh\npid_3 1 2 3\n").unwrap_err(),
        Error::Malformed("slab line")
    );
    assert_eq!(
        parse_slab_line(b"x 1 2 3 4 5 : tunables 0 0 0 : slabdata 1 1 z").unwrap_err(),
        Error::ParseInt
    );
    assert_eq!(parse_slab_info("only a version line").unwrap(), vec![]);
}

#[test]
fn slab_tunables_and_slabdata_fields() {
    let slab = parse_slab_line(b"kmalloc-8 10 20 8 512 1 : tunables 7 8 9 : slabdata 3 4 5").unwrap();
    assert_eq!(slab.name, b"kmalloc-8");
    assert_eq!((slab.limit, slab.batch, slab.shared_factor), (7, 8, 9));
    assert_eq!((slab.slab_active, slab.slab_num, slab.shared_avail), (3, 4, 5));
}

#[test]
fn exclude() {
    for (exclude, keep, name, want) in [
        ("", "", "eth0", false),
        ("", "^💩0$", "💩0", false),
        ("", "^💩0$", "💩1", true),
        ("", "^💩0$", "veth0", true),
        ("^💩", "", "💩3", true),
        ("^💩", "", "veth0", false),
    ] {
        let maybe_exclude = if exclude.is_empty() {
            None
        } else {
            Some(Pattern::new(exclude).unwrap())
        };

        let config = Config {
            keep: Pattern::new(keep).unwrap(),
            exclude: maybe_exclude,
        };

        assert_eq!(
            want,
            config.ignore(name),
            "keep: {keep:?} exclude: {exclude:?}, name: {name}, result: {want}",
        );
    }
}

#[test]
fn pattern_that_does_not_compile_is_refused() {
    assert!(Pattern::new("(").is_none());
    assert_eq!(Pattern::new("^a+$").unwrap().as_str(), "^a+$");
    assert!(Pattern::new("^a+$").unwrap().is_match("aaa"));
    assert!(!Pattern::new("^a+$").unwrap().is_match("aab"));
}
