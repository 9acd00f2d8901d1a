//! The list of registered nodes with their elements, as the external
//! interface asks for it: two queries, joined here.

use vstd::prelude::*;

use crate::external_interface::{ElementsFiltered, ElementsFilteredView, NodeFiltered, NodeFilteredView};

verus! {

/// Query for the registered nodes.
pub const SQL_SELECT_NODES: &'static str = "SELECT identifier, name, category, state FROM blackbox_nodes;";

/// Query for the elements of all registered nodes.
pub const SQL_SELECT_ELEMENTS: &'static str = "SELECT node_id, address, name, element_type, data FROM blackbox_elements;";

/// A row of the nodes query.
pub struct NodeRow {
    pub identifier: String,
    pub name: String,
    pub category: String,
    pub state: bool,
}

/// The mathematical value of a row of the nodes query.
pub struct NodeRowView {
    pub identifier: Seq<char>,
    pub name: Seq<char>,
    pub category: Seq<char>,
    pub state: bool,
}

impl View for NodeRow {
    type V = NodeRowView;

    open spec fn view(&self) -> NodeRowView {
        NodeRowView {
            identifier: self.identifier@,
            name: self.name@,
            category: self.category@,
            state: self.state,
        }
    }
}

/// The elements of the node `identifier`, in the order of the list.
pub open spec fn elements_of(elements: Seq<ElementsFilteredView>, identifier: Seq<char>) -> Seq<ElementsFilteredView>
    decreases elements.len(),
{
    if elements.len() == 0 {
        Seq::empty()
    } else {
        let rest = elements_of(elements.drop_last(), identifier);
        if elements.last().node_identifier == identifier {
            rest.push(elements.last())
        } else {
            rest
        }
    }
}

/// A node row together with its elements.
pub open spec fn node_with_elements(row: NodeRowView, elements: Seq<ElementsFilteredView>) -> NodeFilteredView {
    NodeFilteredView {
        identifier: row.identifier,
        name: row.name,
        category: row.category,
        state: row.state,
        elements: elements_of(elements, row.identifier),
    }
}

/// Each node, in order, with the elements whose node identifier is its
/// identifier.
pub open spec fn node_element_list_spec(nodes: Seq<NodeRowView>, elements: Seq<ElementsFilteredView>) -> Seq<NodeFilteredView> {
    nodes.map_values(|n: NodeRowView| node_with_elements(n, elements))
}

fn copy_element(e: &ElementsFiltered) -> (r: ElementsFiltered)
    ensures
        r@ == e@,
{
    ElementsFiltered {
        node_identifier: e.node_identifier.clone(),
        address: e.address.clone(),
        name: e.name.clone(),
        element_type: e.element_type.clone(),
        category: e.category.clone(),
        zone: e.zone.clone(),
        data: e.data.clone(),
    }
}

fn elements_of_node(elements: &Vec<ElementsFiltered>, identifier: &String) -> (r: Vec<ElementsFiltered>)
    ensures
        r@.map_values(|e: ElementsFiltered| e@) == elements_of(
            elements@.map_values(|e: ElementsFiltered| e@),
            identifier@,
        ),
{
    let ghost all = elements@.map_values(|e: ElementsFiltered| e@);
    let mut r: Vec<ElementsFiltered> = Vec::new();
    let n = elements.len();
    let mut i: usize = 0;
    while i < n
        invariant
            n == elements@.len(),
            all == elements@.map_values(|e: ElementsFiltered| e@),
            i <= n,
            r@.map_values(|e: ElementsFiltered| e@) == elements_of(all.subrange(0, i as int), identifier@),
        decreases n - i,
    {
        let ghost before = r@.map_values(|e: ElementsFiltered| e@);
        assert(all.subrange(0, i + 1).drop_last() =~= all.subrange(0, i as int));
        assert(all.subrange(0, i + 1).last() == elements@[i as int]@);
        if crate::text::str_eq(elements[i].node_identifier.as_str(), identifier.as_str()) {
            r.push(copy_element(&elements[i]));
            assert(r@.map_values(|e: ElementsFiltered| e@) =~= before.push(elements@[i as int]@));
        }
        i = i + 1;
    }
    assert(all.subrange(0, n as int) =~= all);
    r
}

/// Joins the rows of the two queries: each node with its elements. When
/// the nodes query failed (`None`) there is no list; when the elements
/// query failed, every node is listed without elements.
pub fn get_node_element_list(nodes: Option<Vec<NodeRow>>, elements: Option<Vec<ElementsFiltered>>) -> (list: Option<Vec<NodeFiltered>>)
    ensures
        nodes is None ==> list is None,
        nodes matches Some(ns) ==> (list matches Some(l) && l@.map_values(|n: NodeFiltered| n@)
            == node_element_list_spec(
            ns@.map_values(|r: NodeRow| r@),
            match elements {
                Some(es) => es@.map_values(|e: ElementsFiltered| e@),
                None => Seq::empty(),
            },
        )),
{
    let elements = match elements {
        Some(es) => es,
        None => Vec::new(),
    };
    let ghost all = elements@.map_values(|e: ElementsFiltered| e@);
    match nodes {
        None => None,
        Some(ns) => {
            let ghost rows = ns@.map_values(|r: NodeRow| r@);
            let mut list: Vec<NodeFiltered> = Vec::new();
            let n = ns.len();
            let mut i: usize = 0;
            while i < n
                invariant
                    n == ns@.len(),
                    rows == ns@.map_values(|r: NodeRow| r@),
                    all == elements@.map_values(|e: ElementsFiltered| e@),
                    i <= n,
                    list@.map_values(|x: NodeFiltered| x@) == node_element_list_spec(rows.subrange(0, i as int), all),
                decreases n - i,
            {
                let row = &ns[i];
                let own = elements_of_node(&elements, &row.identifier);
                let item = NodeFiltered {
                    identifier: row.identifier.clone(),
                    name: row.name.clone(),
                    category: row.category.clone(),
                    state: row.state,
                    elements: own,
                };
                assert(item@ == node_with_elements(rows[i as int], all));
                let ghost before = list@.map_values(|x: NodeFiltered| x@);
                list.push(item);
                assert(list@.map_values(|x: NodeFiltered| x@) =~= before.push(item@));
                assert(rows.subrange(0, i + 1) =~= rows.subrange(0, i as int).push(rows[i as int]));
                assert(node_element_list_spec(rows.subrange(0, i + 1), all) =~= node_element_list_spec(rows.subrange(0, i as int), all).push(node_with_elements(rows[i as int], all)));
                i = i + 1;
            }
            assert(rows.subrange(0, n as int) =~= rows);
            Some(list)
        },
    }
}

proof fn lemma_elements_of_is_filter(elements: Seq<ElementsFilteredView>, identifier: Seq<char>)
    ensures
        elements_of(elements, identifier) == elements.filter(
            |e: ElementsFilteredView| e.node_identifier == identifier,
        ),
    decreases elements.len(),
{
    reveal_with_fuel(Seq::filter, 1);
    if elements.len() > 0 {
        lemma_elements_of_is_filter(elements.drop_last(), identifier);
    }
}

/// Each listed node is its own row: the list has one node per row, in
/// order, each with the identifier, name, category and state of that row,
/// and with exactly the elements whose node identifier is that row's
/// identifier, in the order of the elements query.
pub proof fn lemma_listed_nodes_match_rows(nodes: Seq<NodeRowView>, elements: Seq<ElementsFilteredView>)
    ensures
        node_element_list_spec(nodes, elements).len() == nodes.len(),
        forall|i: int| 0 <= i < nodes.len() ==> {
            let n = #[trigger] node_element_list_spec(nodes, elements)[i];
            &&& n.identifier == nodes[i].identifier
            &&& n.name == nodes[i].name
            &&& n.category == nodes[i].category
            &&& n.state == nodes[i].state
            &&& n.elements == elements.filter(|e: ElementsFilteredView| e.node_identifier == nodes[i].identifier)
        },
{
    assert forall|i: int| 0 <= i < nodes.len() implies {
        let n = #[trigger] node_element_list_spec(nodes, elements)[i];
        &&& n.identifier == nodes[i].identifier
        &&& n.name == nodes[i].name
        &&& n.category == nodes[i].category
        &&& n.state == nodes[i].state
        &&& n.elements == elements.filter(|e: ElementsFilteredView| e.node_identifier == nodes[i].identifier)
    } by {
        lemma_elements_of_is_filter(elements, nodes[i].identifier);
    }
}

} // verus!
