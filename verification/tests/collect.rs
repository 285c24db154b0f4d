use orange_core::style::Sides;
use orange_core::tree::{
    collect_nodes, GeomNode, InputChildren, InputTreeNode, NodeGeometry, OutputChildren,
    OutputTreeNode,
};

fn sides(v: usize) -> Sides {
    Sides { top: v, right: v, bottom: v, left: v }
}

fn geometry(width: usize, height: usize, x: usize, y: usize) -> NodeGeometry {
    NodeGeometry {
        width,
        height,
        x,
        y,
        content_width: width,
        content_height: height,
        border: sides(0),
        padding: sides(1),
        margin: sides(0),
    }
}

fn text_leaf(id: usize, text: &str) -> InputTreeNode {
    InputTreeNode {
        id,
        children: InputChildren::Text(text.to_string()),
        style: None,
    }
}

fn container(id: usize, children: Vec<InputTreeNode>) -> InputTreeNode {
    InputTreeNode {
        id,
        children: InputChildren::Nodes(children),
        style: None,
    }
}

fn solved_leaf(lines: Vec<&str>) -> GeomNode {
    GeomNode {
        geometry: geometry(5, 2, 1, 1),
        lines: Some(lines.iter().map(|s| s.to_string()).collect()),
        children: vec![],
    }
}

fn solved_container(children: Vec<GeomNode>) -> GeomNode {
    GeomNode {
        geometry: geometry(10, 4, 0, 0),
        lines: None,
        children,
    }
}

#[test]
fn collects_geometry_ids_and_lines() {
    let input = container(7, vec![text_leaf(3, "hi there"), container(9, vec![])]);
    let solved = solved_container(vec![solved_leaf(vec!["hi ", "there"]), solved_container(vec![])]);

    let out = collect_nodes(&input, &solved).expect("shapes match");
    assert_eq!(out.id, 7);
    assert_eq!(out.width, 10);
    assert_eq!(out.height, 4);
    assert_eq!(out.x, 0);
    assert_eq!(out.y, 0);
    assert_eq!(out.content_width, 10);
    assert_eq!(out.padding, sides(1));
    assert!(out.content_text_lines.is_none());

    match &out.children {
        OutputChildren::Nodes(children) => {
            assert_eq!(children.len(), 2);
            let leaf = &children[0];
            assert_eq!(leaf.id, 3);
            assert_eq!(leaf.width, 5);
            assert_eq!(leaf.x, 1);
            assert_eq!(
                leaf.content_text_lines,
                Some(vec!["hi ".to_string(), "there".to_string()])
            );
            assert!(matches!(&leaf.children, OutputChildren::Text(t) if t == "hi there"));

            let inner = &children[1];
            assert_eq!(inner.id, 9);
            assert!(inner.content_text_lines.is_none());
            assert!(matches!(&inner.children, OutputChildren::Nodes(n) if n.is_empty()));
        }
        OutputChildren::Text(_) => panic!("container must stay a container"),
    }
}

#[test]
fn leaf_xor_container_shape_mirrored() {
    let input = container(
        1,
        vec![
            text_leaf(2, "a"),
            container(3, vec![text_leaf(4, "b")]),
        ],
    );
    let solved = solved_container(vec![
        solved_leaf(vec!["a"]),
        solved_container(vec![solved_leaf(vec!["b"])]),
    ]);

    let out = collect_nodes(&input, &solved).expect("shapes match");
    fn check(input: &InputTreeNode, out: &OutputTreeNode) {
        assert_eq!(input.id, out.id);
        match (&input.children, &out.children) {
            (InputChildren::Text(a), OutputChildren::Text(b)) => {
                assert_eq!(a, b);
                assert!(out.content_text_lines.is_some());
            }
            (InputChildren::Nodes(ins), OutputChildren::Nodes(outs)) => {
                assert_eq!(ins.len(), outs.len());
                assert!(out.content_text_lines.is_none());
                for (i, o) in ins.iter().zip(outs.iter()) {
                    check(i, o);
                }
            }
            _ => panic!("output shape does not mirror input shape"),
        }
    }
    check(&input, &out);
}

#[test]
fn mismatched_shapes_are_rejected() {
    // A text leaf whose solved node has no stored lines.
    let input = text_leaf(1, "x");
    let solved = GeomNode { geometry: geometry(1, 1, 0, 0), lines: None, children: vec![] };
    assert!(collect_nodes(&input, &solved).is_none());

    // A container with a different child count.
    let input = container(1, vec![text_leaf(2, "x")]);
    let solved = solved_container(vec![]);
    assert!(collect_nodes(&input, &solved).is_none());

    // A container whose solved node carries lines.
    let input = container(1, vec![]);
    let solved = GeomNode {
        geometry: geometry(1, 1, 0, 0),
        lines: Some(vec!["stray".to_string()]),
        children: vec![],
    };
    assert!(collect_nodes(&input, &solved).is_none());

    // A mismatch deep in the tree.
    let input = container(1, vec![container(2, vec![text_leaf(3, "x")])]);
    let solved = solved_container(vec![solved_container(vec![GeomNode {
        geometry: geometry(1, 1, 0, 0),
        lines: None,
        children: vec![],
    }])]);
    assert!(collect_nodes(&input, &solved).is_none());
}
