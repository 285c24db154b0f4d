use orange_core::span::LayoutTrace;
use orange_core::span::Span;

#[test]
fn trace_root_interval_is_positive() {
    let trace = LayoutTrace::start();
    let root = trace.finish();
    assert!(root.end_time > root.start_time);
    assert!(root.start_time > 0);
    assert_ne!(root.end_time, 0);
    assert_eq!(root.name, "layout");
    assert_eq!(root.children.len(), 0);
}

#[test]
fn trace_children_nested_and_in_order() {
    let mut trace = LayoutTrace::start();
    trace.begin_phase("create_node");
    trace.end_phase();
    trace.begin_phase("compute_layout");
    trace.end_phase();
    trace.begin_phase("collect_nodes");
    trace.end_phase();
    let root = trace.finish();

    assert!(root.end_time > root.start_time);
    assert_eq!(root.children.len(), 3);
    let names: Vec<&str> = root.children.iter().map(|c| c.name.as_str()).collect();
    assert_eq!(names, vec!["create_node", "compute_layout", "collect_nodes"]);

    let mut previous_end = root.start_time;
    for child in &root.children {
        assert!(child.start_time >= previous_end);
        assert!(child.end_time > child.start_time);
        assert!(child.start_time >= root.start_time);
        assert!(child.end_time <= root.end_time);
        assert_eq!(child.children.len(), 0);
        previous_end = child.end_time;
    }
}

#[test]
fn span_end_closes_after_start() {
    let mut span = Span::new("phase");
    span.end();
    assert!(span.end_time > span.start_time);
}

#[test]
fn span_add_child_appends_in_order() {
    let mut parent = Span::new("parent");
    let floor = parent.child_floor();
    let mut first = Span::new_after("first", floor);
    first.end();
    let floor = first.end_time;
    parent.add_child(first);
    let mut second = Span::new_after("second", floor);
    second.end();
    parent.add_child(second);
    parent.end();

    assert_eq!(parent.children.len(), 2);
    assert_eq!(parent.children[0].name, "first");
    assert_eq!(parent.children[1].name, "second");
    assert!(parent.children[1].start_time >= parent.children[0].end_time);
    assert!(parent.end_time >= parent.children[1].end_time);
}
