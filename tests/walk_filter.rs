use findr::{Action, Config, ConfigError, EntryInfo, EntryKind, EntryType, NamePattern, WalkEvent};

fn strings(v: &[&str]) -> Vec<String> {
    v.iter().map(|s| s.to_string()).collect()
}

fn entry(path: &str, name: &str, kind: EntryKind) -> WalkEvent {
    WalkEvent::Entry(EntryInfo { path: path.to_string(), name: name.to_string(), kind })
}

/// The tree `root/{a.txt, sub/, sub/b.txt}` as a walk yields it.
fn sample_tree() -> Vec<WalkEvent> {
    vec![
        entry("root", "root", EntryKind::Dir),
        entry("root/a.txt", "a.txt", EntryKind::File),
        entry("root/sub", "sub", EntryKind::Dir),
        entry("root/sub/b.txt", "b.txt", EntryKind::File),
    ]
}

fn config(names: &[&str], types: &[&str]) -> Config {
    Config::new(strings(&["root"]), strings(names), strings(types)).unwrap()
}

fn printed(actions: &[Action]) -> Vec<String> {
    let mut out = Vec::new();
    for a in actions {
        if let Action::Print(p) = a {
            out.push(p.clone());
        }
    }
    out.sort();
    out
}

#[test]
fn no_filters_print_every_entry() {
    let c = config(&[], &[]);
    let acts = c.route_all(&sample_tree());
    assert_eq!(printed(&acts), strings(&["root", "root/a.txt", "root/sub", "root/sub/b.txt"]));
}

#[test]
fn file_type_filter_prints_files() {
    let c = config(&[], &["f"]);
    let acts = c.route_all(&sample_tree());
    assert_eq!(printed(&acts), strings(&["root/a.txt", "root/sub/b.txt"]));
}

#[test]
fn name_filter_prints_matching_base_names() {
    let c = config(&[r"b\.txt"], &[]);
    let acts = c.route_all(&sample_tree());
    assert_eq!(printed(&acts), strings(&["root/sub/b.txt"]));
}

#[test]
fn name_filter_applies_to_directories() {
    let c = config(&["^sub$"], &[]);
    let acts = c.route_all(&sample_tree());
    assert_eq!(printed(&acts), strings(&["root/sub"]));
}

#[test]
fn name_filter_is_unanchored() {
    let c = config(&["txt"], &[]);
    let acts = c.route_all(&sample_tree());
    assert_eq!(printed(&acts), strings(&["root/a.txt", "root/sub/b.txt"]));
}

#[test]
fn name_filter_reads_base_name_only() {
    let c = config(&["root"], &[]);
    let acts = c.route_all(&sample_tree());
    assert_eq!(printed(&acts), strings(&["root"]));
}

#[test]
fn name_patterns_are_alternatives() {
    let c = config(&["^a", "^sub"], &[]);
    let acts = c.route_all(&sample_tree());
    assert_eq!(printed(&acts), strings(&["root/a.txt", "root/sub"]));
}

#[test]
fn type_filters_are_alternatives() {
    let c = config(&[], &["d", "l"]);
    let mut evs = sample_tree();
    evs.push(entry("root/link", "link", EntryKind::Link));
    evs.push(entry("root/fifo", "fifo", EntryKind::Other));
    let acts = c.route_all(&evs);
    assert_eq!(printed(&acts), strings(&["root", "root/link", "root/sub"]));
}

#[test]
fn both_filters_must_pass() {
    let c = config(&["^b"], &["d"]);
    let mut evs = sample_tree();
    evs.push(entry("root/bdir", "bdir", EntryKind::Dir));
    let acts = c.route_all(&evs);
    assert_eq!(printed(&acts), strings(&["root/bdir"]));
}

#[test]
fn other_kind_passes_only_without_type_filter() {
    let ev = entry("root/sock", "sock", EntryKind::Other);
    assert_eq!(config(&[], &[]).route(&ev), Action::Print("root/sock".to_string()));
    assert_eq!(config(&[], &["f", "d", "l"]).route(&ev), Action::Skip);
}

#[test]
fn without_type_filter_name_filter_decides() {
    let c = config(&["^a"], &[]);
    assert_eq!(c.route(&entry("x/a", "a", EntryKind::Link)), Action::Print("x/a".to_string()));
    assert_eq!(c.route(&entry("x/b", "b", EntryKind::Link)), Action::Skip);
}

#[test]
fn without_name_filter_type_filter_decides() {
    let c = config(&[], &["l"]);
    assert_eq!(c.route(&entry("x/a", "a", EntryKind::Link)), Action::Print("x/a".to_string()));
    assert_eq!(c.route(&entry("x/a", "a", EntryKind::File)), Action::Skip);
}

#[test]
fn walk_error_is_reported_and_walk_goes_on() {
    let c = config(&[], &[]);
    let mut evs = sample_tree();
    evs.insert(2, WalkEvent::Failed("IO error for operation on root/locked: Permission denied".to_string()));
    let acts = c.route_all(&evs);
    assert_eq!(acts.len(), 5);
    assert_eq!(
        acts[2],
        Action::Report("IO error for operation on root/locked: Permission denied".to_string())
    );
    let reports = acts.iter().filter(|a| matches!(a, Action::Report(_))).count();
    assert_eq!(reports, 1);
    assert_eq!(printed(&acts), strings(&["root", "root/a.txt", "root/sub", "root/sub/b.txt"]));
}

#[test]
fn same_items_in_other_order_same_lines() {
    let c = config(&[], &["f"]);
    let mut evs = sample_tree();
    let first = printed(&c.route_all(&evs));
    evs.reverse();
    let second = printed(&c.route_all(&evs));
    assert_eq!(first, second);
}

#[test]
fn route_all_keeps_order() {
    let c = config(&[], &[]);
    let acts = c.route_all(&sample_tree());
    assert_eq!(
        acts,
        vec![
            Action::Print("root".to_string()),
            Action::Print("root/a.txt".to_string()),
            Action::Print("root/sub".to_string()),
            Action::Print("root/sub/b.txt".to_string()),
        ]
    );
}

#[test]
fn invalid_name_pattern_is_rejected() {
    let r = Config::new(strings(&["."]), strings(&["ok", "[a", "("]), strings(&[]));
    match r {
        Err(e) => {
            assert_eq!(e, ConfigError::InvalidName("[a".to_string()));
            assert_eq!(e.message(), "Invalid --name \"[a\"");
            assert!(e.message().contains("[a"));
        }
        Ok(_) => panic!("pattern [a compiled"),
    }
}

#[test]
fn invalid_name_is_reported_before_invalid_type() {
    let r = Config::new(strings(&["."]), strings(&["*"]), strings(&["x"]));
    assert!(matches!(r, Err(ConfigError::InvalidName(ref p)) if p == "*"));
}

#[test]
fn invalid_type_token_is_rejected() {
    let r = Config::new(strings(&["."]), strings(&["a"]), strings(&["f", "dir", "q"]));
    match r {
        Err(e) => {
            assert_eq!(e, ConfigError::InvalidType("dir".to_string()));
            assert_eq!(e.message(), "Invalid --type \"dir\"");
        }
        Ok(_) => panic!("token dir accepted"),
    }
}

#[test]
fn paths_default_to_current_directory() {
    let c = Config::new(vec![], vec![], vec![]).unwrap();
    assert_eq!(c.paths(), &strings(&["."]));
    assert!(c.entry_types().is_empty());
    assert_eq!(c.pattern_count(), 0);
}

#[test]
fn paths_keep_order_and_repeats() {
    let c = Config::new(strings(&["b", "a", "b"]), vec![], vec![]).unwrap();
    assert_eq!(c.paths(), &strings(&["b", "a", "b"]));
}

#[test]
fn configuration_keeps_patterns_and_types_in_order() {
    let c = Config::new(strings(&["."]), strings(&["x+", "^y"]), strings(&["l", "f", "d", "f"])).unwrap();
    assert_eq!(c.pattern_count(), 2);
    assert_eq!(c.pattern(0).as_str(), "x+");
    assert_eq!(c.pattern(1).as_str(), "^y");
    assert_eq!(
        c.entry_types(),
        &vec![EntryType::Link, EntryType::File, EntryType::Dir, EntryType::File]
    );
}

#[test]
fn type_tokens() {
    assert_eq!(EntryType::from_token("d"), Some(EntryType::Dir));
    assert_eq!(EntryType::from_token("f"), Some(EntryType::File));
    assert_eq!(EntryType::from_token("l"), Some(EntryType::Link));
    assert_eq!(EntryType::from_token(""), None);
    assert_eq!(EntryType::from_token("ff"), None);
    assert_eq!(EntryType::from_token("F"), None);
}

#[test]
fn type_selects_its_kind_only() {
    assert!(EntryType::Dir.selects(EntryKind::Dir));
    assert!(!EntryType::Dir.selects(EntryKind::File));
    assert!(EntryType::File.selects(EntryKind::File));
    assert!(!EntryType::File.selects(EntryKind::Link));
    assert!(EntryType::Link.selects(EntryKind::Link));
    assert!(!EntryType::Link.selects(EntryKind::Other));
}

#[test]
fn pattern_compiles_and_matches() {
    let p = NamePattern::new(r"^b\.t.t$").unwrap();
    assert_eq!(p.as_str(), r"^b\.t.t$");
    assert!(p.is_match("b.txt"));
    assert!(!p.is_match("bxtxt"));
    assert!(!p.is_match("ab.txt"));
    assert!(NamePattern::new("[a").is_none());
    assert!(NamePattern::new("a{2,1}").is_none());
}

#[test]
fn filter_checks_directly() {
    let c = config(&["^a"], &["f"]);
    assert!(c.type_filter_passes(EntryKind::File));
    assert!(!c.type_filter_passes(EntryKind::Dir));
    assert!(c.name_filter_passes("a.txt"));
    assert!(!c.name_filter_passes("ba.txt"));
    let info = EntryInfo { path: "r/a.txt".to_string(), name: "a.txt".to_string(), kind: EntryKind::File };
    assert!(c.passes(&info));
}
