//! The user interface hierarchy that uiautomator dumps: reading, searching and printing it.

use vstd::prelude::*;

use crate::text::cat2;
use crate::text::contains_text;
use crate::text::decimal;
use crate::text::decimal_text;
use crate::text::found_in;
use crate::text::holds;
use crate::text::law_search_finds_every_occurrence;
use crate::text::lemma_lower_twice;
use crate::text::lower;
use crate::text::pad_right;
use crate::text::padded;
use crate::text::same_text;
use crate::text::str_views;
use crate::text::to_lower;

verus! {

/// One node of an XML document.
#[derive(Debug)]
pub struct XmlNode {
    /// The local name of an element; empty for any other node.
    pub tag: String,
    /// The position of the node around this one.
    pub parent: Option<usize>,
    /// The local names and the values of the attributes.
    pub attributes: Vec<(String, String)>,
}

/// What an `XmlNode` holds.
#[verifier::ext_equal]
pub struct XmlView {
    pub tag: Seq<char>,
    pub parent: Option<usize>,
    pub attributes: Seq<(Seq<char>, Seq<char>)>,
}

/// What the attributes of a list hold.
pub open spec fn attribute_views(list: Seq<(String, String)>) -> Seq<(Seq<char>, Seq<char>)> {
    list.map_values(|a: (String, String)| (a.0@, a.1@))
}

impl View for XmlNode {
    type V = XmlView;

    open spec fn view(&self) -> XmlView {
        XmlView {
            tag: self.tag@,
            parent: self.parent,
            attributes: attribute_views(self.attributes@),
        }
    }
}

/// What the nodes of a list hold.
pub open spec fn xml_views(list: Seq<XmlNode>) -> Seq<XmlView> {
    list.map_values(|n: XmlNode| n@)
}

/// Whether each node stands behind the node around it.
pub open spec fn parents_first(nodes: Seq<XmlView>) -> bool {
    forall|i: int|
        0 <= i < nodes.len() ==> ((#[trigger] nodes[i]).parent matches Some(p) ==> p < i)
}

/// `roxmltree::Error`, carried through unread.
#[verifier::external_type_specification]
#[verifier::external_body]
pub struct ExXmlError(roxmltree::Error);

/// The nodes of the document that `roxmltree::Document::parse` reads out of a text, in document
/// order; nothing where the text is not well-formed.
pub uninterp spec fn xml_document(text: Seq<char>) -> Option<Seq<XmlView>>;

/// Reads a text with `roxmltree::Document::parse` and hands out its nodes in document order. Which
/// texts are well-formed, and what their nodes are, is `roxmltree`'s to say; it is the same for
/// the same text. A node is appended to the document after the node around it.
#[verifier::external_body]
fn parse_xml(text: &str) -> (nodes: Result<Vec<XmlNode>, roxmltree::Error>)
    ensures
        match nodes {
            Ok(nodes) => xml_document(text@) == Some(xml_views(nodes@)) && parents_first(
                xml_views(nodes@),
            ),
            Err(_) => xml_document(text@) is None,
        },
{
    let document = roxmltree::Document::parse(text)?;
    Ok(document.descendants().map(|node| XmlNode {
        tag: node.tag_name().name().to_string(),
        parent: node.parent().map(|parent| parent.id().get_usize()),
        attributes: node
            .attributes()
            .map(|attribute| (attribute.name().to_string(), attribute.value().to_string()))
            .collect(),
    }).collect())
}

/// One node of the user interface.
#[derive(Clone, Debug)]
pub struct UiNode {
    pub index: usize,
    pub depth: usize,
    pub text: String,
    pub content_desc: String,
    pub resource_id: String,
    pub class: String,
    pub package: String,
    pub bounds: String,
    pub clickable: bool,
    pub enabled: bool,
    pub focused: bool,
    pub selected: bool,
    pub scrollable: bool,
}

/// What a `UiNode` holds.
#[verifier::ext_equal]
pub struct UiView {
    pub index: nat,
    pub depth: nat,
    pub text: Seq<char>,
    pub content_desc: Seq<char>,
    pub resource_id: Seq<char>,
    pub class: Seq<char>,
    pub package: Seq<char>,
    pub bounds: Seq<char>,
    pub clickable: bool,
    pub enabled: bool,
    pub focused: bool,
    pub selected: bool,
    pub scrollable: bool,
}

impl View for UiNode {
    type V = UiView;

    open spec fn view(&self) -> UiView {
        UiView {
            index: self.index as nat,
            depth: self.depth as nat,
            text: self.text@,
            content_desc: self.content_desc@,
            resource_id: self.resource_id@,
            class: self.class@,
            package: self.package@,
            bounds: self.bounds@,
            clickable: self.clickable,
            enabled: self.enabled,
            focused: self.focused,
            selected: self.selected,
            scrollable: self.scrollable,
        }
    }
}

/// What the nodes of a list hold.
pub open spec fn ui_views(list: Seq<UiNode>) -> Seq<UiView> {
    list.map_values(|n: UiNode| n@)
}

impl UiNode {
    /// A second node that holds the same.
    pub fn copy(&self) -> (other: UiNode)
        ensures
            other@ == self@,
    {
        UiNode {
            index: self.index,
            depth: self.depth,
            text: self.text.clone(),
            content_desc: self.content_desc.clone(),
            resource_id: self.resource_id.clone(),
            class: self.class.clone(),
            package: self.package.clone(),
            bounds: self.bounds.clone(),
            clickable: self.clickable,
            enabled: self.enabled,
            focused: self.focused,
            selected: self.selected,
            scrollable: self.scrollable,
        }
    }
}

/// Whether an XML node is a node of the user interface.
pub open spec fn is_ui(node: XmlView) -> bool {
    node.tag == "node"@
}

/// The value of the first attribute of that name from position `i` on, if there is one.
pub open spec fn attribute_from(
    attributes: Seq<(Seq<char>, Seq<char>)>,
    name: Seq<char>,
    i: int,
) -> Option<Seq<char>>
    decreases attributes.len() - i,
{
    if 0 <= i < attributes.len() {
        if attributes[i].0 == name {
            Some(attributes[i].1)
        } else {
            attribute_from(attributes, name, i + 1)
        }
    } else {
        None
    }
}

/// The value of an attribute, empty where the node does not have it.
pub open spec fn attribute(node: XmlView, name: Seq<char>) -> Seq<char> {
    match attribute_from(node.attributes, name, 0) {
        Some(value) => value,
        None => Seq::empty(),
    }
}

/// Whether an attribute is set to `true`.
pub open spec fn flag(node: XmlView, name: Seq<char>) -> bool {
    attribute_from(node.attributes, name, 0) == Some("true"@)
}

/// How many nodes of the user interface there are from the XML node at `i` outwards, itself
/// included.
pub open spec fn ui_depth(nodes: Seq<XmlView>, i: int) -> nat
    decreases i,
{
    if 0 <= i < nodes.len() {
        let own: nat = if is_ui(nodes[i]) {
            1
        } else {
            0
        };
        match nodes[i].parent {
            Some(p) => if p < i {
                own + ui_depth(nodes, p as int)
            } else {
                own
            },
            None => own,
        }
    } else {
        0
    }
}

/// The node of the user interface that the XML node at `i` describes.
pub open spec fn ui_node(nodes: Seq<XmlView>, i: int, index: nat) -> UiView {
    let node = nodes[i];
    UiView {
        index,
        depth: ui_depth(nodes, i),
        text: attribute(node, "text"@),
        content_desc: attribute(node, "content-desc"@),
        resource_id: attribute(node, "resource-id"@),
        class: attribute(node, "class"@),
        package: attribute(node, "package"@),
        bounds: attribute(node, "bounds"@),
        clickable: flag(node, "clickable"@),
        enabled: flag(node, "enabled"@),
        focused: flag(node, "focused"@),
        selected: flag(node, "selected"@),
        scrollable: flag(node, "scrollable"@),
    }
}

/// The nodes of the user interface among the first `n` nodes of an XML document, numbered from
/// zero in document order.
pub open spec fn ui_nodes(nodes: Seq<XmlView>, n: int) -> Seq<UiView>
    decreases n,
{
    if n <= 0 {
        Seq::empty()
    } else {
        let rest = ui_nodes(nodes, n - 1);
        if is_ui(nodes[n - 1]) {
            rest.push(ui_node(nodes, n - 1, rest.len()))
        } else {
            rest
        }
    }
}

/// Looks an attribute up.
fn find_attribute<'a>(node: &'a XmlNode, name: &str) -> (found: Option<&'a String>)
    ensures
        match found {
            Some(value) => attribute_from(node@.attributes, name@, 0) == Some(value@),
            None => attribute_from(node@.attributes, name@, 0) is None,
        },
{
    let mut i: usize = 0;
    while i < node.attributes.len()
        invariant
            i <= node.attributes.len(),
            attribute_from(node@.attributes, name@, 0) == attribute_from(
                node@.attributes,
                name@,
                i as int,
            ),
        decreases node.attributes.len() - i,
    {
        assert(node@.attributes[i as int] == (
            node.attributes@[i as int].0@,
            node.attributes@[i as int].1@,
        ));
        if same_text(node.attributes[i].0.as_str(), name) {
            return Some(&node.attributes[i].1);
        }
        i += 1;
    }
    None
}

/// The value of an attribute, empty where the node does not have it.
fn attr(node: &XmlNode, name: &str) -> (value: String)
    ensures
        value@ == attribute(node@, name@),
{
    match find_attribute(node, name) {
        Some(value) => value.clone(),
        None => String::new(),
    }
}

/// Whether an attribute is set to `true`.
fn attr_bool(node: &XmlNode, name: &str) -> (yes: bool)
    ensures
        yes == flag(node@, name@),
{
    match find_attribute(node, name) {
        Some(value) => same_text(value.as_str(), "true"),
        None => false,
    }
}

/// Counts the nodes of the user interface from the XML node at `at` outwards.
fn depth_at(nodes: &Vec<XmlNode>, at: usize) -> (depth: usize)
    requires
        at < nodes.len(),
    ensures
        depth == ui_depth(xml_views(nodes@), at as int),
{
    let ghost views = xml_views(nodes@);
    let mut depth: usize = 0;
    let mut i: usize = at;
    loop
        invariant
            views == xml_views(nodes@),
            i <= at < nodes.len(),
            depth + i <= at,
            ui_depth(views, at as int) == depth + ui_depth(views, i as int),
        decreases i,
    {
        assert(views[i as int] == nodes@[i as int]@);
        if same_text(nodes[i].tag.as_str(), "node") {
            depth += 1;
        }
        match nodes[i].parent {
            Some(parent) => {
                if parent < i {
                    i = parent;
                } else {
                    return depth;
                }
            },
            None => {
                return depth;
            },
        }
    }
}

/// Picks the nodes of the user interface out of an XML document.
pub fn ui_nodes_of(nodes: &Vec<XmlNode>) -> (found: Vec<UiNode>)
    ensures
        ui_views(found@) == ui_nodes(xml_views(nodes@), nodes@.len() as int),
{
    let ghost views = xml_views(nodes@);
    let mut found: Vec<UiNode> = Vec::new();
    let mut i: usize = 0;
    assert(ui_views(found@) =~= Seq::empty());
    while i < nodes.len()
        invariant
            views == xml_views(nodes@),
            i <= nodes.len(),
            ui_views(found@) == ui_nodes(views, i as int),
        decreases nodes.len() - i,
    {
        assert(views[i as int] == nodes@[i as int]@);
        let node = &nodes[i];
        let ghost before = ui_views(found@);
        assert(before.len() == found@.len());
        if same_text(node.tag.as_str(), "node") {
            let entry = UiNode {
                index: found.len(),
                depth: depth_at(nodes, i),
                text: attr(node, "text"),
                content_desc: attr(node, "content-desc"),
                resource_id: attr(node, "resource-id"),
                class: attr(node, "class"),
                package: attr(node, "package"),
                bounds: attr(node, "bounds"),
                clickable: attr_bool(node, "clickable"),
                enabled: attr_bool(node, "enabled"),
                focused: attr_bool(node, "focused"),
                selected: attr_bool(node, "selected"),
                scrollable: attr_bool(node, "scrollable"),
            };
            assert(entry@ =~= ui_node(views, i as int, before.len()));
            found.push(entry);
            assert(ui_views(found@) =~= before.push(entry@));
        }
        i += 1;
    }
    found
}

/// The nodes of the user interface in the XML that uiautomator dumps, or the error where it is not
/// well-formed.
pub open spec fn parsed_ui(xml: Seq<char>) -> Result<Seq<UiView>, Seq<char>> {
    match xml_document(xml) {
        Some(document) => Ok(ui_nodes(document, document.len() as int)),
        None => Err("failed to parse uiautomator XML"@),
    }
}

/// What a list of nodes or an error holds.
pub open spec fn ui_result(nodes: Result<Vec<UiNode>, String>) -> Result<Seq<UiView>, Seq<char>> {
    match nodes {
        Ok(nodes) => Ok(ui_views(nodes@)),
        Err(error) => Err(error@),
    }
}

/// Reads the nodes of the user interface out of the XML that uiautomator dumps.
pub fn parse_ui_nodes(xml: &str) -> (nodes: Result<Vec<UiNode>, String>)
    ensures
        ui_result(nodes) == parsed_ui(xml@),
        xml_document(xml@) matches Some(document) ==> parents_first(document),
{
    match parse_xml(xml) {
        Ok(document) => {
            assert(xml_views(document@).len() == document@.len());
            Ok(ui_nodes_of(&document))
        },
        Err(_) => Err("failed to parse uiautomator XML".to_string()),
    }
}

/// The smaller of two numbers.
pub open spec fn least(a: nat, b: nat) -> nat {
    if a <= b {
        a
    } else {
        b
    }
}

/// The first `max_nodes` nodes of a list; all of them where `max_nodes` is zero.
pub fn limit_ui_nodes(nodes: &[UiNode], max_nodes: usize) -> (kept: Vec<UiNode>)
    ensures
        max_nodes == 0 ==> ui_views(kept@) == ui_views(nodes@),
        max_nodes > 0 ==> ui_views(kept@) == ui_views(nodes@).take(
            least(max_nodes as nat, nodes@.len()) as int,
        ),
{
    let count: usize = if max_nodes == 0 || nodes.len() < max_nodes {
        nodes.len()
    } else {
        max_nodes
    };
    let mut kept: Vec<UiNode> = Vec::new();
    let mut i: usize = 0;
    assert(ui_views(kept@) =~= ui_views(nodes@).take(0));
    while i < count
        invariant
            i <= count <= nodes.len(),
            ui_views(kept@) == ui_views(nodes@).take(i as int),
        decreases count - i,
    {
        let node = nodes[i].copy();
        let ghost before = ui_views(kept@);
        kept.push(node);
        assert(ui_views(kept@) =~= before.push(node@));
        assert(ui_views(nodes@).take(i + 1) =~= before.push(ui_views(nodes@)[i as int]));
        i += 1;
    }
    assert(ui_views(nodes@).take(nodes@.len() as int) =~= ui_views(nodes@));
    kept
}

/// Whether the query stands in the text, the description, the resource id or the class of a node,
/// whatever the case of ASCII letters there.
pub open spec fn ui_matches(node: UiView, query_lower: Seq<char>) -> bool {
    ||| holds(lower(node.text), query_lower)
    ||| holds(lower(node.content_desc), query_lower)
    ||| holds(lower(node.resource_id), query_lower)
    ||| holds(lower(node.class), query_lower)
}

/// Whether a value, in lower case, has the query in it.
fn value_matches(value: &String, query_lower: &str) -> (yes: bool)
    ensures
        yes == holds(lower(value@), query_lower@),
{
    contains_text(to_lower(value.as_str()).as_str(), query_lower)
}

/// Whether a node answers a query that is given in lower case.
pub fn ui_node_matches(node: &UiNode, query_lower: &str) -> (yes: bool)
    ensures
        yes == ui_matches(node@, query_lower@),
{
    value_matches(&node.text, query_lower) || value_matches(&node.content_desc, query_lower)
        || value_matches(&node.resource_id, query_lower) || value_matches(&node.class, query_lower)
}

/// The nodes of a list that answer a query, in order.
pub open spec fn ui_answers(nodes: Seq<UiView>, query_lower: Seq<char>) -> Seq<UiView>
    decreases nodes.len(),
{
    if nodes.len() == 0 {
        Seq::empty()
    } else {
        let rest = ui_answers(nodes.drop_last(), query_lower);
        if ui_matches(nodes.last(), query_lower) {
            rest.push(nodes.last())
        } else {
            rest
        }
    }
}

/// The first nodes, at most `max`, that answer a query.
pub open spec fn first_answers(nodes: Seq<UiView>, query: Seq<char>, max: nat) -> Seq<UiView> {
    let answers = ui_answers(nodes, lower(query));
    answers.take(least(max, answers.len()) as int)
}

/// A longer list of nodes has the answers of a shorter one first.
proof fn lemma_answers_grow(nodes: Seq<UiView>, query_lower: Seq<char>, n: int)
    requires
        0 <= n <= nodes.len(),
    ensures
        ui_answers(nodes.take(n), query_lower).len() <= ui_answers(nodes, query_lower).len(),
        ui_answers(nodes, query_lower).take(
            ui_answers(nodes.take(n), query_lower).len() as int,
        ) == ui_answers(nodes.take(n), query_lower),
    decreases nodes.len(),
{
    let all = ui_answers(nodes, query_lower);
    if n == nodes.len() {
        assert(nodes.take(n) =~= nodes);
        assert(all.take(all.len() as int) =~= all);
    } else {
        let shorter = nodes.drop_last();
        lemma_answers_grow(shorter, query_lower, n);
        assert(shorter.take(n) =~= nodes.take(n));
        let part = ui_answers(nodes.take(n), query_lower);
        assert(all.take(part.len() as int) =~= ui_answers(shorter, query_lower).take(
            part.len() as int,
        ));
    }
}

/// Finds the first nodes, at most `max_results`, that answer a query.
pub fn find_ui_nodes(nodes: &[UiNode], query: &str, max_results: usize) -> (found: Vec<UiNode>)
    ensures
        ui_views(found@) == first_answers(ui_views(nodes@), query@, max_results as nat),
{
    let query_lower = to_lower(query);
    let ghost views = ui_views(nodes@);
    let ghost answers = ui_answers(views, lower(query@));
    let mut found: Vec<UiNode> = Vec::new();
    let mut i: usize = 0;
    assert(views.take(0) =~= Seq::empty());
    assert(ui_views(found@) =~= Seq::empty());
    while i < nodes.len() && found.len() < max_results
        invariant
            views == ui_views(nodes@),
            query_lower@ == lower(query@),
            i <= nodes.len(),
            found.len() <= max_results,
            ui_views(found@) == ui_answers(views.take(i as int), lower(query@)),
        decreases nodes.len() - i,
    {
        assert(views[i as int] == nodes@[i as int]@);
        assert(views.take(i + 1).drop_last() =~= views.take(i as int));
        let ghost before = ui_views(found@);
        if ui_node_matches(&nodes[i], query_lower.as_str()) {
            let node = nodes[i].copy();
            found.push(node);
            assert(ui_views(found@) =~= before.push(node@));
        }
        i += 1;
    }
    proof {
        lemma_answers_grow(views, lower(query@), i as int);
        assert(ui_views(found@).len() == found@.len());
        if i == nodes@.len() {
            assert(views.take(i as int) =~= views);
            assert(answers.take(answers.len() as int) =~= answers);
        }
    }
    found
}

/// The first text that is not empty, from position `i` on; empty where there is none.
pub open spec fn non_empty_from(values: Seq<Seq<char>>, i: int) -> Seq<char>
    decreases values.len() - i,
{
    if 0 <= i < values.len() {
        if values[i].len() > 0 {
            values[i]
        } else {
            non_empty_from(values, i + 1)
        }
    } else {
        Seq::empty()
    }
}

/// The first text that is not empty; empty where there is none.
pub fn first_non_empty<'a>(values: &[&'a str]) -> (first: &'a str)
    ensures
        first@ == non_empty_from(str_views(values@), 0),
{
    let mut i: usize = 0;
    while i < values.len()
        invariant
            i <= values.len(),
            non_empty_from(str_views(values@), 0) == non_empty_from(str_views(values@), i as int),
        decreases values.len() - i,
    {
        assert(str_views(values@)[i as int] == values@[i as int]@);
        if !values[i].is_empty() {
            return values[i];
        }
        i += 1;
    }
    proof {
        reveal_strlit("");
        assert(""@ =~= Seq::<char>::empty());
    }
    ""
}

/// What a node is called: the first that is not empty of its text, its description, its
/// identifier and its class.
pub open spec fn ui_label(node: UiView) -> Seq<char> {
    non_empty_from(seq![node.text, node.content_desc, node.resource_id, node.class], 0)
}

/// A truth value as it is printed.
pub open spec fn bool_text(b: bool) -> Seq<char> {
    if b {
        "true"@
    } else {
        "false"@
    }
}

/// The line on which a node is printed.
pub open spec fn ui_line(node: UiView) -> Seq<char> {
    "#"@ + padded(decimal(node.index), 3) + " depth="@ + decimal(node.depth) + " bounds="@
        + node.bounds + " clickable="@ + bool_text(node.clickable) + " enabled="@ + bool_text(
        node.enabled,
    ) + " "@ + ui_label(node) + "\n"@
}

/// The lines on which nodes are printed, one after the other.
pub open spec fn ui_lines(nodes: Seq<UiView>) -> Seq<char>
    decreases nodes.len(),
{
    if nodes.len() == 0 {
        Seq::empty()
    } else {
        ui_lines(nodes.drop_last()) + ui_line(nodes.last())
    }
}

/// A list of nodes as it is printed.
pub open spec fn ui_table(nodes: Seq<UiView>) -> Seq<char> {
    if nodes.len() == 0 {
        "no matching ui nodes\n"@
    } else {
        ui_lines(nodes)
    }
}

/// A truth value as it is printed.
fn bool_str(b: bool) -> (s: &'static str)
    ensures
        s@ == bool_text(b),
{
    if b {
        "true"
    } else {
        "false"
    }
}

/// Prints a node on a line.
fn format_ui_node(node: &UiNode) -> (line: String)
    ensures
        line@ == ui_line(node@),
{
    let labels: [&str; 4] = [
        node.text.as_str(),
        node.content_desc.as_str(),
        node.resource_id.as_str(),
        node.class.as_str(),
    ];
    let label = first_non_empty(&labels);
    assert(str_views(labels@) =~= seq![
        node@.text,
        node@.content_desc,
        node@.resource_id,
        node@.class,
    ]);
    let mut line = cat2("#", pad_right(decimal_text(node.index as u64), 3).as_str());
    line.append(" depth=");
    line.append(decimal_text(node.depth as u64).as_str());
    line.append(" bounds=");
    line.append(node.bounds.as_str());
    line.append(" clickable=");
    line.append(bool_str(node.clickable));
    line.append(" enabled=");
    line.append(bool_str(node.enabled));
    line.append(" ");
    line.append(label);
    line.append("\n");
    line
}

/// Prints a list of nodes.
pub fn format_ui_nodes(nodes: &[UiNode]) -> (out: String)
    ensures
        out@ == ui_table(ui_views(nodes@)),
{
    if nodes.len() == 0 {
        return "no matching ui nodes\n".to_string();
    }
    let ghost views = ui_views(nodes@);
    let mut out = String::new();
    let mut i: usize = 0;
    assert(views.take(0) =~= Seq::empty());
    while i < nodes.len()
        invariant
            views == ui_views(nodes@),
            i <= nodes.len(),
            out@ == ui_lines(views.take(i as int)),
        decreases nodes.len() - i,
    {
        assert(views.take(i + 1).drop_last() =~= views.take(i as int));
        assert(views.take(i + 1).last() == nodes@[i as int]@);
        out.append(format_ui_node(&nodes[i]).as_str());
        i += 1;
    }
    assert(views.take(nodes@.len() as int) =~= views);
    out
}

/// The nodes of the user interface are numbered in their order, and each counts in its own depth.
pub proof fn law_nodes_are_numbered(nodes: Seq<XmlView>, n: int, i: int)
    requires
        0 <= n <= nodes.len(),
        0 <= i < ui_nodes(nodes, n).len(),
    ensures
        ui_nodes(nodes, n)[i].index == i,
        ui_nodes(nodes, n)[i].depth >= 1,
    decreases n,
{
    let rest = ui_nodes(nodes, n - 1);
    if i < rest.len() {
        law_nodes_are_numbered(nodes, n - 1, i);
    }
}

/// Every node that is found is one of those that were searched, and answers the query; and no more
/// are found than were asked for.
pub proof fn law_found_nodes_answer(nodes: Seq<UiView>, query: Seq<char>, max: nat, i: int)
    ensures
        first_answers(nodes, query, max).len() <= max,
        0 <= i < first_answers(nodes, query, max).len() ==> {
            &&& nodes.contains(first_answers(nodes, query, max)[i])
            &&& ui_matches(first_answers(nodes, query, max)[i], lower(query))
        },
{
    if 0 <= i < first_answers(nodes, query, max).len() {
        lemma_answers_answer(nodes, lower(query), i);
    }
}

proof fn lemma_answers_answer(nodes: Seq<UiView>, query_lower: Seq<char>, i: int)
    requires
        0 <= i < ui_answers(nodes, query_lower).len(),
    ensures
        nodes.contains(ui_answers(nodes, query_lower)[i]),
        ui_matches(ui_answers(nodes, query_lower)[i], query_lower),
    decreases nodes.len(),
{
    let rest = ui_answers(nodes.drop_last(), query_lower);
    if i < rest.len() {
        lemma_answers_answer(nodes.drop_last(), query_lower, i);
        let k = choose|k: int|
            0 <= k < nodes.drop_last().len() && #[trigger] nodes.drop_last()[k] == rest[i];
        assert(nodes[k] == rest[i]);
    } else {
        assert(nodes[nodes.len() - 1] == ui_answers(nodes, query_lower)[i]);
    }
}

/// A node that answers is found, where as many are asked for as there are nodes.
pub proof fn law_answering_nodes_are_found(nodes: Seq<UiView>, query: Seq<char>, max: nat, i: int)
    requires
        max >= nodes.len(),
        0 <= i < nodes.len(),
        ui_matches(nodes[i], lower(query)),
    ensures
        first_answers(nodes, query, max).contains(nodes[i]),
{
    let answers = ui_answers(nodes, lower(query));
    lemma_answers_found(nodes, lower(query), i);
    assert(answers.take(answers.len() as int) =~= answers);
}

proof fn lemma_answers_found(nodes: Seq<UiView>, query_lower: Seq<char>, i: int)
    requires
        0 <= i < nodes.len(),
        ui_matches(nodes[i], query_lower),
    ensures
        ui_answers(nodes, query_lower).contains(nodes[i]),
        ui_answers(nodes, query_lower).len() <= nodes.len(),
    decreases nodes.len(),
{
    let shorter = nodes.drop_last();
    let rest = ui_answers(shorter, query_lower);
    let all = ui_answers(nodes, query_lower);
    lemma_answers_count(shorter, query_lower);
    if i < shorter.len() {
        lemma_answers_found(shorter, query_lower, i);
        let k = choose|k: int| 0 <= k < rest.len() && #[trigger] rest[k] == shorter[i];
        assert(all[k] == nodes[i]);
    } else {
        assert(all.last() == nodes[i]);
        assert(all[all.len() - 1] == nodes[i]);
    }
}

proof fn lemma_answers_count(nodes: Seq<UiView>, query_lower: Seq<char>)
    ensures
        ui_answers(nodes, query_lower).len() <= nodes.len(),
    decreases nodes.len(),
{
    if nodes.len() > 0 {
        lemma_answers_count(nodes.drop_last(), query_lower);
    }
}

/// The case of the ASCII letters in a query does not matter.
pub proof fn law_search_ignores_case(
    nodes: Seq<UiView>,
    query: Seq<char>,
    other: Seq<char>,
    max: nat,
)
    requires
        lower(query) == lower(other),
    ensures
        first_answers(nodes, query, max) == first_answers(nodes, other, max),
        first_answers(nodes, lower(query), max) == first_answers(nodes, query, max),
{
    lemma_lower_twice(query);
}

/// A node answers a query just where, the case of ASCII letters aside, the query stands at some
/// position of its text, its description, its resource id or its class, and nowhere else is
/// looked.
pub proof fn law_nodes_answer_by_four_values(node: UiView, query: Seq<char>)
    ensures
        ui_matches(node, lower(query)) <==> {
            ||| found_in(node.text, query)
            ||| found_in(node.content_desc, query)
            ||| found_in(node.resource_id, query)
            ||| found_in(node.class, query)
        },
{
    let none = Seq::<char>::empty();
    law_search_finds_every_occurrence(node.text, query, none, none);
    law_search_finds_every_occurrence(node.content_desc, query, none, none);
    law_search_finds_every_occurrence(node.resource_id, query, none, none);
    law_search_finds_every_occurrence(node.class, query, none, none);
}

/// A node is among the answers to a query, where as many are asked for as there are nodes, if any
/// of its text, its description, its resource id and its class is something, the query and
/// something.
pub proof fn law_a_value_around_the_query_is_found(
    nodes: Seq<UiView>,
    i: int,
    query: Seq<char>,
    max: nat,
    ahead: Seq<char>,
    behind: Seq<char>,
)
    requires
        0 <= i < nodes.len(),
        max >= nodes.len(),
        ({
            ||| nodes[i].text == ahead + query + behind
            ||| nodes[i].content_desc == ahead + query + behind
            ||| nodes[i].resource_id == ahead + query + behind
            ||| nodes[i].class == ahead + query + behind
        }),
    ensures
        first_answers(nodes, query, max).contains(nodes[i]),
{
    law_search_finds_every_occurrence(ahead + query + behind, query, ahead, behind);
    law_nodes_answer_by_four_values(nodes[i], query);
    law_answering_nodes_are_found(nodes, query, max, i);
}

/// The answers to a query keep the order of the nodes: those of two lists, one behind the other,
/// are the answers of the one and then of the other. Where fewer are asked for, the first are kept.
pub proof fn law_answers_keep_the_order(
    first: Seq<UiView>,
    second: Seq<UiView>,
    query: Seq<char>,
    max: nat,
)
    ensures
        ui_answers(first + second, lower(query)) == ui_answers(first, lower(query)) + ui_answers(
            second,
            lower(query),
        ),
        first_answers(first, query, max).is_prefix_of(ui_answers(first, lower(query))),
        max <= ui_answers(first, lower(query)).len() ==> first_answers(first, query, max).len()
            == max,
        max >= ui_answers(first, lower(query)).len() ==> first_answers(first, query, max)
            == ui_answers(first, lower(query)),
    decreases second.len(),
{
    let q = lower(query);
    let answers = ui_answers(first, q);
    assert(answers.take(answers.len() as int) =~= answers);
    if second.len() == 0 {
        assert(first + second =~= first);
        assert(ui_answers(first + second, q) =~= ui_answers(first, q) + ui_answers(second, q));
    } else {
        law_answers_keep_the_order(first, second.drop_last(), query, max);
        assert((first + second).drop_last() =~= first + second.drop_last());
        assert((first + second).last() == second.last());
        assert(ui_answers(first + second, q) =~= ui_answers(first, q) + ui_answers(second, q));
    }
}

/// Whether an attribute of a node says a value: it is the first of its name, and has the value.
pub open spec fn says(node: XmlView, name: Seq<char>, value: Seq<char>) -> bool {
    exists|k: int|
        0 <= k < node.attributes.len() && #[trigger] node.attributes[k] == (name, value) && (
        forall|j: int| 0 <= j < k ==> (#[trigger] node.attributes[j]).0 != name)
}

/// Whether a node has an attribute of that name.
pub open spec fn names(node: XmlView, name: Seq<char>) -> bool {
    exists|k: int| 0 <= k < node.attributes.len() && (#[trigger] node.attributes[k]).0 == name
}

proof fn lemma_attribute_from(node: XmlView, name: Seq<char>, i: int)
    requires
        0 <= i <= node.attributes.len(),
        forall|j: int| 0 <= j < i ==> (#[trigger] node.attributes[j]).0 != name,
    ensures
        match attribute_from(node.attributes, name, i) {
            Some(value) => says(node, name, value) && names(node, name),
            None => !names(node, name),
        },
        forall|value: Seq<char>| says(node, name, value) ==> attribute_from(
            node.attributes,
            name,
            i,
        ) == Some(value),
    decreases node.attributes.len() - i,
{
    if i < node.attributes.len() {
        if node.attributes[i].0 == name {
            assert(node.attributes[i] == (name, node.attributes[i].1));
            assert forall|value: Seq<char>| says(node, name, value) implies node.attributes[i].1
                == value by {
                let k = choose|k: int|
                    0 <= k < node.attributes.len() && #[trigger] node.attributes[k] == (
                        name,
                        value,
                    ) && (forall|j: int|
                        0 <= j < k ==> (#[trigger] node.attributes[j]).0 != name);
                if k < i {
                    assert(node.attributes[k].0 != name);
                } else if i < k {
                    assert(node.attributes[i].0 != name);
                }
            }
        } else {
            lemma_attribute_from(node, name, i + 1);
        }
    }
}

/// Whether `value` is what an attribute of the node says, or empty where there is no such
/// attribute.
pub open spec fn said_by(node: XmlView, name: Seq<char>, value: Seq<char>) -> bool {
    says(node, name, value) || (!names(node, name) && value == Seq::<char>::empty())
}

/// A node of the user interface tells what the attributes of its XML node say, each under its own
/// name: a value, empty where there is none; and a flag just where the attribute says `true`. It
/// is one deeper than the node around it, if that is a node of the user interface, else as deep as
/// what is around that.
pub proof fn law_nodes_tell_their_attributes(nodes: Seq<XmlView>, i: int, index: nat)
    requires
        0 <= i < nodes.len(),
        parents_first(nodes),
    ensures
        ({
            let node = nodes[i];
            let told = ui_node(nodes, i, index);
            &&& said_by(node, "text"@, told.text)
            &&& said_by(node, "content-desc"@, told.content_desc)
            &&& said_by(node, "resource-id"@, told.resource_id)
            &&& said_by(node, "class"@, told.class)
            &&& said_by(node, "package"@, told.package)
            &&& said_by(node, "bounds"@, told.bounds)
            &&& told.clickable <==> says(node, "clickable"@, "true"@)
            &&& told.enabled <==> says(node, "enabled"@, "true"@)
            &&& told.focused <==> says(node, "focused"@, "true"@)
            &&& told.selected <==> says(node, "selected"@, "true"@)
            &&& told.scrollable <==> says(node, "scrollable"@, "true"@)
            &&& told.index == index
            &&& node.tag == "node"@ && node.parent is None ==> told.depth == 1
            &&& node.tag == "node"@ ==> (node.parent matches Some(p) ==> told.depth == 1
                + ui_depth(nodes, p as int))
            &&& node.tag != "node"@ ==> (node.parent matches Some(p) ==> ui_depth(nodes, i)
                == ui_depth(nodes, p as int))
        }),
{
    let node = nodes[i];
    lemma_attribute_from(node, "text"@, 0);
    lemma_attribute_from(node, "content-desc"@, 0);
    lemma_attribute_from(node, "resource-id"@, 0);
    lemma_attribute_from(node, "class"@, 0);
    lemma_attribute_from(node, "package"@, 0);
    lemma_attribute_from(node, "bounds"@, 0);
    lemma_attribute_from(node, "clickable"@, 0);
    lemma_attribute_from(node, "enabled"@, 0);
    lemma_attribute_from(node, "focused"@, 0);
    lemma_attribute_from(node, "selected"@, 0);
    lemma_attribute_from(node, "scrollable"@, 0);
}

/// Just the elements named `node` are nodes of the user interface: one more XML node adds one where
/// it is such an element, numbered next, and leaves those before it as they are.
pub proof fn law_every_node_element_is_told(nodes: Seq<XmlView>, n: int)
    requires
        0 <= n < nodes.len(),
    ensures
        nodes[n].tag == "node"@ ==> ui_nodes(nodes, n + 1) == ui_nodes(nodes, n).push(
            ui_node(nodes, n, ui_nodes(nodes, n).len()),
        ),
        nodes[n].tag != "node"@ ==> ui_nodes(nodes, n + 1) == ui_nodes(nodes, n),
        ui_nodes(nodes, 0).len() == 0,
{
}

/// A node is called by its text; where that is empty by its description, then by its resource id,
/// then by its class.
pub proof fn law_labels_prefer_what_users_see(node: UiView)
    ensures
        ({
            let label = ui_label(node);
            &&& node.text.len() > 0 ==> label == node.text
            &&& node.text.len() == 0 && node.content_desc.len() > 0 ==> label == node.content_desc
            &&& node.text.len() == 0 && node.content_desc.len() == 0 && node.resource_id.len() > 0
                ==> label == node.resource_id
            &&& node.text.len() == 0 && node.content_desc.len() == 0 && node.resource_id.len() == 0
                ==> label =~= node.class
        }),
{
    reveal_with_fuel(non_empty_from, 6);
}

/// The line of a node ends with what it is called, and holds its depth, its bounds and whether it
/// can be clicked and is enabled, each behind its own word; its number stands first.
pub proof fn law_lines_tell_the_node(node: UiView)
    ensures
        ({
            let line = ui_line(node);
            let number = padded(decimal(node.index), 3);
            let state = " clickable="@ + if node.clickable {
                "true"@
            } else {
                "false"@
            } + " enabled="@ + if node.enabled {
                "true"@
            } else {
                "false"@
            } + " "@;
            &&& number.len() >= 3
            &&& decimal(node.index).is_prefix_of(number)
            &&& line == "#"@ + number + " depth="@ + decimal(node.depth) + " bounds="@ + node.bounds
                + state + ui_label(node) + "\n"@
        }),
{
    let number = padded(decimal(node.index), 3);
    assert(decimal(node.index) =~= number.take(decimal(node.index).len() as int));
    assert(ui_line(node) =~= "#"@ + number + " depth="@ + decimal(node.depth) + " bounds="@
        + node.bounds + (" clickable="@ + bool_text(node.clickable) + " enabled="@ + bool_text(
        node.enabled,
    ) + " "@) + ui_label(node) + "\n"@);
}

/// The nodes of two lists are printed one after the other, each on its line; where there is none,
/// that is said.
pub proof fn law_nodes_are_printed_in_order(first: Seq<UiView>, second: Seq<UiView>)
    ensures
        ui_lines(first + second) == ui_lines(first) + ui_lines(second),
        first.len() == 1 ==> ui_table(first) == ui_line(first[0]),
        first.len() > 0 ==> ui_table(first) == ui_lines(first),
        ui_table(Seq::empty()) == "no matching ui nodes\n"@,
    decreases second.len(),
{
    reveal_with_fuel(ui_lines, 2);
    if first.len() == 1 {
        assert(first.drop_last() =~= Seq::<UiView>::empty());
        assert(ui_lines(first) =~= ui_line(first[0]));
    }
    if second.len() == 0 {
        assert(first + second =~= first);
        assert(ui_lines(first + second) =~= ui_lines(first) + ui_lines(second));
    } else {
        law_nodes_are_printed_in_order(first, second.drop_last());
        assert((first + second).drop_last() =~= first + second.drop_last());
        assert((first + second).last() == second.last());
        assert(ui_lines(first + second) =~= ui_lines(first) + ui_lines(second));
    }
}

} // verus!
