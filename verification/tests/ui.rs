use adb_agent::ui::find_ui_nodes;
use adb_agent::ui::first_non_empty;
use adb_agent::ui::format_ui_nodes;
use adb_agent::ui::limit_ui_nodes;
use adb_agent::ui::parse_ui_nodes;
use adb_agent::ui::ui_node_matches;
use adb_agent::ui::ui_nodes_of;
use adb_agent::ui::UiNode;
use adb_agent::ui::XmlNode;

fn element(tag: &str, parent: Option<usize>, attributes: &[(&str, &str)]) -> XmlNode {
    XmlNode {
        tag: tag.to_string(),
        parent,
        attributes: attributes.iter().map(|a| (a.0.to_string(), a.1.to_string())).collect(),
    }
}

fn labelled(texts: &[&str]) -> Vec<UiNode> {
    let mut nodes = vec![element("", None, &[])];
    for text in texts {
        nodes.push(element("node", Some(0), &[("text", text)]));
    }
    ui_nodes_of(&nodes)
}

#[test]
fn parses_uiautomator_nodes() {
    let xml = r#"
<hierarchy rotation="0">
  <node index="0" text="" resource-id="" class="android.widget.FrameLayout" package="com.example" content-desc="" clickable="false" enabled="true" focused="false" selected="false" scrollable="false" bounds="[0,0][1080,2340]">
    <node index="1" text="Settings" resource-id="android:id/title" class="android.widget.TextView" package="com.example" content-desc="Settings title" clickable="true" enabled="true" focused="false" selected="false" scrollable="false" bounds="[10,20][300,80]" />
  </node>
</hierarchy>
"#;

    let nodes = parse_ui_nodes(xml).unwrap();

    assert_eq!(nodes.len(), 2);
    assert_eq!(nodes[1].text, "Settings");
    assert_eq!(nodes[1].content_desc, "Settings title");
    assert!(nodes[1].clickable);
    assert!(ui_node_matches(&nodes[1], "settings"));
}

#[test]
fn depth_counts_only_nodes_of_the_user_interface() {
    let xml = "<hierarchy><node text='a'><group><node text='b'/></group></node>\
               <other/><node text='c'/></hierarchy>";
    let nodes = parse_ui_nodes(xml).unwrap();
    let seen: Vec<(usize, usize, &str)> =
        nodes.iter().map(|n| (n.index, n.depth, n.text.as_str())).collect();
    assert_eq!(seen, vec![(0, 1, "a"), (1, 2, "b"), (2, 1, "c")]);
}

#[test]
fn text_that_is_not_well_formed_is_an_error() {
    assert_eq!(parse_ui_nodes("<a>").unwrap_err(), "failed to parse uiautomator XML");
    assert_eq!(parse_ui_nodes("").unwrap_err(), "failed to parse uiautomator XML");
}

#[test]
fn entities_are_resolved_and_flags_are_exact() {
    let nodes = parse_ui_nodes(
        "<node text='a &amp; b' clickable='TRUE' enabled='true' bounds='[0,0][1,1]'/>",
    )
    .unwrap();
    assert_eq!(nodes[0].text, "a & b");
    assert!(!nodes[0].clickable);
    assert!(nodes[0].enabled);
    assert_eq!(nodes[0].bounds, "[0,0][1,1]");
    assert_eq!(nodes[0].package, "");
}

#[test]
fn nodes_are_built_from_plain_elements() {
    let nodes = ui_nodes_of(&vec![
        element("", None, &[]),
        element("node", Some(0), &[("class", "c"), ("class", "d"), ("focused", "true")]),
        element("x", Some(1), &[]),
        element("node", Some(2), &[("package", "p"), ("scrollable", "true"), ("selected", "")]),
    ]);
    assert_eq!(nodes.len(), 2);
    assert_eq!(nodes[0].class, "c");
    assert!(nodes[0].focused);
    assert_eq!(nodes[1].index, 1);
    assert_eq!(nodes[1].depth, 2);
    assert_eq!(nodes[1].package, "p");
    assert!(nodes[1].scrollable);
    assert!(!nodes[1].selected);
}

#[test]
fn a_limit_of_zero_keeps_all_nodes() {
    let nodes = labelled(&["a", "b", "c"]);
    assert_eq!(limit_ui_nodes(&nodes, 0).len(), 3);
    assert_eq!(limit_ui_nodes(&nodes, 9).len(), 3);
    let two = limit_ui_nodes(&nodes, 2);
    assert_eq!(two.len(), 2);
    assert_eq!(two[1].text, "b");
}

#[test]
fn the_first_answers_are_found_whatever_the_case() {
    let nodes = labelled(&["Wi-Fi", "other", "WIFI wi-fi", "wi-fi"]);
    let found = find_ui_nodes(&nodes, "Wi-fI", 2);
    let texts: Vec<&str> = found.iter().map(|n| n.text.as_str()).collect();
    assert_eq!(texts, vec!["Wi-Fi", "WIFI wi-fi"]);
    assert_eq!(found[1].index, 2);
    assert_eq!(find_ui_nodes(&nodes, "wi-fi", 9).len(), 3);
    assert_eq!(find_ui_nodes(&nodes, "", 9).len(), 4);
    assert!(find_ui_nodes(&nodes, "wi-fi", 0).is_empty());
    assert!(find_ui_nodes(&nodes, "none", 9).is_empty());
}

#[test]
fn a_query_is_matched_against_four_values() {
    let nodes = ui_nodes_of(&vec![
        element("", None, &[]),
        element(
            "node",
            Some(0),
            &[
                ("text", "T1"),
                ("content-desc", "D1"),
                ("resource-id", "R1"),
                ("class", "C1"),
                ("package", "P1"),
                ("bounds", "B1"),
            ],
        ),
    ]);
    for query in ["t1", "d1", "r1", "c1"] {
        assert!(ui_node_matches(&nodes[0], query));
    }
    assert!(!ui_node_matches(&nodes[0], "p1"));
    assert!(!ui_node_matches(&nodes[0], "b1"));
    assert!(!ui_node_matches(&nodes[0], "T1"));
}

#[test]
fn nodes_are_printed_one_per_line() {
    assert_eq!(format_ui_nodes(&[]), "no matching ui nodes\n");
    let nodes = ui_nodes_of(&vec![
        element("", None, &[]),
        element(
            "node",
            Some(0),
            &[("content-desc", "back"), ("bounds", "[1,2][3,4]"), ("clickable", "true")],
        ),
        element("node", Some(1), &[("text", "x"), ("enabled", "true")]),
    ]);
    assert_eq!(
        format_ui_nodes(&nodes),
        "#0   depth=1 bounds=[1,2][3,4] clickable=true enabled=false back\n\
         #1   depth=2 bounds= clickable=false enabled=true x\n"
    );
}

#[test]
fn the_first_value_that_is_not_empty() {
    assert_eq!(first_non_empty(&["", "", "c", "d"]), "c");
    assert_eq!(first_non_empty(&["", ""]), "");
    assert_eq!(first_non_empty(&[]), "");
}
