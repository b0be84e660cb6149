//! The tree that `lshw -json` prints, and the figures drawn from it.

use vstd::prelude::*;
use crate::json::{JsonValue, JsonView};
use crate::text::{parse_i32, same_text};

verus! {

/// Whether a node declares itself to be of a class.
pub open spec fn has_class(node: JsonView, class: Seq<char>) -> bool {
    match node.get("class"@) {
        Some(declared) => declared.text() == Some(class),
        None => false,
    }
}

/// The nodes below a node.
pub open spec fn children(node: JsonView) -> Seq<JsonView> {
    match node.get("children"@) {
        Some(list) => match list.items() {
            Some(items) => items,
            None => Seq::empty(),
        },
        None => Seq::empty(),
    }
}

/// The nodes below a node are structurally smaller than it.
pub proof fn lemma_children_decrease(node: JsonView)
    ensures
        children(node).len() > 0 ==> decreases_to!(node => children(node)),
{
    if children(node).len() > 0 {
        let members = node->Object_0;
        assert(decreases_to!(node => node->Object_0));
        crate::json::lemma_member_decreases(members, "children"@);
        let list = crate::json::member(members, "children"@)->0;
        assert(decreases_to!(list => list->Array_0));
    }
}

/// The nodes of a class in a tree, each before what lies below it.
pub open spec fn nodes_by_class(node: JsonView, class: Seq<char>) -> Seq<JsonView>
    decreases node,
{
    let own = if has_class(node, class) {
        seq![node]
    } else {
        Seq::empty()
    };
    if children(node).len() > 0 {
        proof {
            lemma_children_decrease(node);
        }
        own + nodes_below(children(node), class)
    } else {
        own
    }
}

/// The nodes of a class in several trees, one tree after the other.
pub open spec fn nodes_below(trees: Seq<JsonView>, class: Seq<char>) -> Seq<JsonView>
    decreases trees,
{
    if trees.len() == 0 {
        Seq::empty()
    } else {
        nodes_below(trees.drop_last(), class) + nodes_by_class(trees.last(), class)
    }
}

/// What the nodes of a list say.
pub open spec fn views(nodes: Seq<&JsonValue>) -> Seq<JsonView> {
    nodes.map_values(|node: &JsonValue| node@)
}

/// Searches a tree for the nodes of a class.
pub fn find_nodes_by_class<'a>(
    node: &'a JsonValue,
    class_name: &str,
    results: &mut Vec<&'a JsonValue>,
)
    ensures
        views(final(results)@) == views(old(results)@) + nodes_by_class(node@, class_name@),
    decreases node@,
{
    if let Some(class) = node.get("class") {
        if let Some(declared) = class.as_str() {
            if same_text(declared, class_name) {
                results.push(node);
            }
        }
    }
    let ghost own = if has_class(node@, class_name@) {
        seq![node@]
    } else {
        Seq::empty()
    };
    assert(views(results@) =~= views(old(results)@) + own);
    if let Some(list) = node.get("children") {
        if let Some(trees) = list.as_array() {
            proof {
                lemma_children_decrease(node@);
            }
            let ghost below = children(node@);
            let mut i: usize = 0;
            assert(below.take(0) == Seq::<JsonView>::empty());
            while i < trees.len()
                invariant
                    i <= trees@.len(),
                    below == children(node@),
                    below == trees@.map_values(|v: JsonValue| v@),
                    below.len() > 0 ==> decreases_to!(node@ => below),
                    views(results@) == views(old(results)@) + own + nodes_below(
                        below.take(i as int),
                        class_name@,
                    ),
                decreases trees@.len() - i,
            {
                let ghost before = results@;
                assert(decreases_to!(below => below[i as int]));
                find_nodes_by_class(&trees[i], class_name, results);
                assert(below.take(i + 1).drop_last() == below.take(i as int));
                assert(views(results@) =~= views(old(results)@) + own + nodes_below(
                    below.take(i + 1),
                    class_name@,
                ));
                i += 1;
            }
            assert(below.take(i as int) == below);
        }
    }
    assert(children(node@).len() == 0 ==> nodes_by_class(node@, class_name@) == own);
    assert(views(results@) =~= views(old(results)@) + nodes_by_class(node@, class_name@));
}

/// The product name of a node.
pub open spec fn product(node: JsonView) -> Option<Seq<char>> {
    match node.get("product"@) {
        Some(name) => name.text(),
        None => None,
    }
}

/// The core count that a processor's configuration writes.
pub open spec fn cores(node: JsonView) -> Option<i32> {
    match node.get("configuration"@) {
        Some(configuration) => match configuration.get("cores"@) {
            Some(count) => match count.text() {
                Some(written) => crate::text::written_i32(written),
                None => None,
            },
            None => None,
        },
        None => None,
    }
}

/// The size of a node in bytes.
pub open spec fn size(node: JsonView) -> Option<i64> {
    match node.get("size"@) {
        Some(bytes) => bytes.signed(),
        None => None,
    }
}

/// Whether a node is the one that stands for the whole memory, not for a bank
/// of it.
pub open spec fn is_system_memory(node: JsonView) -> bool {
    match node.get("description"@) {
        Some(description) => description.text() == Some("System Memory"@),
        None => false,
    }
}

/// The sizes of the nodes that have one, added up.
pub open spec fn total_size(nodes: Seq<JsonView>) -> int
    decreases nodes.len(),
{
    if nodes.len() == 0 {
        0
    } else {
        total_size(nodes.drop_last()) + (match size(nodes.last()) {
            Some(bytes) => bytes as int,
            None => 0,
        })
    }
}

/// The core counts of the nodes that have one, added up.
pub open spec fn total_cores(nodes: Seq<JsonView>) -> int
    decreases nodes.len(),
{
    if nodes.len() == 0 {
        0
    } else {
        total_cores(nodes.drop_last()) + (match cores(nodes.last()) {
            Some(count) => count as int,
            None => 0,
        })
    }
}

/// Whether sizes can be added up from the front in 64-bit signed integers.
pub open spec fn sizes_fit(nodes: Seq<JsonView>) -> bool {
    forall|k: int|
        0 <= k <= nodes.len() ==> i64::MIN <= #[trigger] total_size(nodes.take(k)) <= i64::MAX
}

/// Whether core counts can be added up from the front in 32-bit signed
/// integers.
pub open spec fn cores_fit(nodes: Seq<JsonView>) -> bool {
    forall|k: int|
        0 <= k <= nodes.len() ==> i32::MIN <= #[trigger] total_cores(nodes.take(k)) <= i32::MAX
}

/// The size of the first node that stands for the whole memory and has one;
/// zero if there is none.
pub open spec fn system_memory_size(nodes: Seq<JsonView>) -> int
    decreases nodes.len(),
{
    if nodes.len() == 0 {
        0
    } else if is_system_memory(nodes[0]) && size(nodes[0]) is Some {
        size(nodes[0])->0 as int
    } else {
        system_memory_size(nodes.drop_first())
    }
}

/// Reads the product name of a node.
pub fn product_of(node: &JsonValue) -> (r: Option<String>)
    ensures
        match r {
            Some(name) => product(node@) == Some(name@),
            None => product(node@) is None,
        },
{
    if let Some(value) = node.get("product") {
        if let Some(name) = value.as_str() {
            return Some(name.to_owned());
        }
    }
    None
}

/// Reads the core count of a processor.
pub fn cores_of(node: &JsonValue) -> (r: Option<i32>)
    ensures
        r == cores(node@),
{
    if let Some(configuration) = node.get("configuration") {
        if let Some(value) = configuration.get("cores") {
            if let Some(written) = value.as_str() {
                return parse_i32(written);
            }
        }
    }
    None
}

/// Reads the size of a node.
pub fn size_of_node(node: &JsonValue) -> (r: Option<i64>)
    ensures
        r == size(node@),
{
    match node.get("size") {
        Some(value) => value.as_i64(),
        None => None,
    }
}

/// Tells the node that stands for the whole memory from the others.
pub fn stands_for_system_memory(node: &JsonValue) -> (r: bool)
    ensures
        r == is_system_memory(node@),
{
    if let Some(value) = node.get("description") {
        if let Some(description) = value.as_str() {
            return same_text(description, "System Memory");
        }
    }
    false
}

/// Adds up sizes, unless a running total leaves the range of its type.
pub fn sum_sizes(nodes: &Vec<&JsonValue>) -> (r: Option<i64>)
    ensures
        match r {
            Some(total) => sizes_fit(views(nodes@)) && total == total_size(views(nodes@)),
            None => !sizes_fit(views(nodes@)),
        },
{
    let ghost all = views(nodes@);
    let mut total: i64 = 0;
    let mut i: usize = 0;
    assert(all.take(0) == Seq::<JsonView>::empty());
    while i < nodes.len()
        invariant
            i <= nodes@.len(),
            all == views(nodes@),
            total == total_size(all.take(i as int)),
            forall|k: int|
                0 <= k <= i ==> i64::MIN <= #[trigger] total_size(all.take(k)) <= i64::MAX,
        decreases nodes@.len() - i,
    {
        assert(all.take(i + 1).drop_last() == all.take(i as int));
        if let Some(bytes) = size_of_node(nodes[i]) {
            match total.checked_add(bytes) {
                Some(next) => {
                    total = next;
                },
                None => {
                    assert(!(i64::MIN <= total_size(all.take(i + 1)) <= i64::MAX));
                    return None;
                },
            }
        }
        assert(total == total_size(all.take(i + 1)));
        i += 1;
    }
    assert(all.take(i as int) == all);
    Some(total)
}

/// Adds up core counts, unless a running total leaves the range of its type.
pub fn sum_cores(nodes: &Vec<&JsonValue>) -> (r: Option<i32>)
    ensures
        match r {
            Some(total) => cores_fit(views(nodes@)) && total == total_cores(views(nodes@)),
            None => !cores_fit(views(nodes@)),
        },
{
    let ghost all = views(nodes@);
    let mut total: i32 = 0;
    let mut i: usize = 0;
    assert(all.take(0) == Seq::<JsonView>::empty());
    while i < nodes.len()
        invariant
            i <= nodes@.len(),
            all == views(nodes@),
            total == total_cores(all.take(i as int)),
            forall|k: int|
                0 <= k <= i ==> i32::MIN <= #[trigger] total_cores(all.take(k)) <= i32::MAX,
        decreases nodes@.len() - i,
    {
        assert(all.take(i + 1).drop_last() == all.take(i as int));
        if let Some(count) = cores_of(nodes[i]) {
            match total.checked_add(count) {
                Some(next) => {
                    total = next;
                },
                None => {
                    assert(!(i32::MIN <= total_cores(all.take(i + 1)) <= i32::MAX));
                    return None;
                },
            }
        }
        assert(total == total_cores(all.take(i + 1)));
        i += 1;
    }
    assert(all.take(i as int) == all);
    Some(total)
}

/// Finds the size of the whole memory; zero if no node gives it.
pub fn find_system_memory_size(nodes: &Vec<&JsonValue>) -> (r: i64)
    ensures
        r == system_memory_size(views(nodes@)),
{
    let ghost all = views(nodes@);
    let mut i: usize = 0;
    assert(all.skip(0) == all);
    while i < nodes.len()
        invariant
            i <= nodes@.len(),
            all == views(nodes@),
            system_memory_size(all) == system_memory_size(all.skip(i as int)),
        decreases nodes@.len() - i,
    {
        assert(all.skip(i as int)[0] == nodes@[i as int]@);
        if stands_for_system_memory(nodes[i]) {
            if let Some(bytes) = size_of_node(nodes[i]) {
                return bytes;
            }
        }
        assert(all.skip(i as int).drop_first() == all.skip(i + 1));
        i += 1;
    }
    0
}

/// Whether a node stands somewhere in a tree.
pub open spec fn in_tree(node: JsonView, root: JsonView) -> bool
    decreases root,
{
    ||| node == root
    ||| children(root).len() > 0 && {
        proof {
            lemma_children_decrease(root);
        }
        exists|i: int| 0 <= i < children(root).len() && in_tree(node, #[trigger] children(root)[i])
    }
}

/// Whether a node stands somewhere in one of several trees.
pub open spec fn in_trees(node: JsonView, trees: Seq<JsonView>) -> bool {
    exists|i: int| 0 <= i < trees.len() && in_tree(node, #[trigger] trees[i])
}

proof fn lemma_search_below(trees: Seq<JsonView>, class: Seq<char>, node: JsonView)
    ensures
        nodes_below(trees, class).contains(node) <==> in_trees(node, trees) && has_class(
            node,
            class,
        ),
    decreases trees,
{
    if trees.len() > 0 {
        let before = trees.drop_last();
        let head = nodes_below(before, class);
        let tail = nodes_by_class(trees.last(), class);
        assert(decreases_to!(trees => trees[trees.len() - 1]));
        lemma_search_below(before, class, node);
        law_search_finds_the_class(trees.last(), class, node);
        if head.contains(node) {
            let k = choose|k: int| 0 <= k < head.len() && head[k] == node;
            assert((head + tail)[k] == node);
        }
        if tail.contains(node) {
            let k = choose|k: int| 0 <= k < tail.len() && tail[k] == node;
            assert((head + tail)[head.len() + k] == node);
        }
        if in_trees(node, before) {
            let i = choose|i: int| 0 <= i < before.len() && in_tree(node, #[trigger] before[i]);
            assert(in_tree(node, trees[i]));
        }
        if in_trees(node, trees) {
            let i = choose|i: int| 0 <= i < trees.len() && in_tree(node, #[trigger] trees[i]);
            if i < before.len() {
                assert(in_tree(node, before[i]));
            }
        }
        assert(in_tree(node, trees.last()) ==> in_tree(node, trees[trees.len() - 1]));
    }
}

/// A search finds the nodes of its class that stand in the tree, all of them
/// and no others.
pub proof fn law_search_finds_the_class(root: JsonView, class: Seq<char>, node: JsonView)
    ensures
        nodes_by_class(root, class).contains(node) <==> in_tree(node, root) && has_class(
            node,
            class,
        ),
    decreases root,
{
    let own = if has_class(root, class) {
        seq![root]
    } else {
        Seq::empty()
    };
    assert(own.contains(node) <==> node == root && has_class(root, class)) by {
        if has_class(root, class) {
            assert(own[0] == root);
        }
    }
    if children(root).len() > 0 {
        lemma_children_decrease(root);
        let below = nodes_below(children(root), class);
        lemma_search_below(children(root), class, node);
        if own.contains(node) {
            assert((own + below)[0] == node);
        }
        if below.contains(node) {
            let k = choose|k: int| 0 <= k < below.len() && below[k] == node;
            assert((own + below)[own.len() + k] == node);
        }
    }
}

/// Sizes add up over lists that are put together.
pub proof fn law_sizes_add_up(a: Seq<JsonView>, b: Seq<JsonView>)
    ensures
        total_size(a + b) == total_size(a) + total_size(b),
    decreases b.len(),
{
    if b.len() == 0 {
        assert(a + b == a);
    } else {
        law_sizes_add_up(a, b.drop_last());
        assert((a + b).drop_last() == a + b.drop_last());
    }
}

/// Core counts add up over lists that are put together.
pub proof fn law_cores_add_up(a: Seq<JsonView>, b: Seq<JsonView>)
    ensures
        total_cores(a + b) == total_cores(a) + total_cores(b),
    decreases b.len(),
{
    if b.len() == 0 {
        assert(a + b == a);
    } else {
        law_cores_add_up(a, b.drop_last());
        assert((a + b).drop_last() == a + b.drop_last());
    }
}

/// The banks of the memory are not counted beside the memory as a whole: a
/// node that does not stand for the latter makes no difference.
pub proof fn law_banks_are_not_counted(before: Seq<JsonView>, bank: JsonView, after: Seq<JsonView>)
    requires
        !is_system_memory(bank),
    ensures
        system_memory_size(before + seq![bank] + after) == system_memory_size(before + after),
    decreases before.len(),
{
    let whole = before + seq![bank] + after;
    if before.len() == 0 {
        assert(whole.drop_first() == before + after);
    } else {
        law_banks_are_not_counted(before.drop_first(), bank, after);
        assert(whole.drop_first() == before.drop_first() + seq![bank] + after);
        assert((before + after).drop_first() == before.drop_first() + after);
    }
}

/// The sizes of the nodes that stand for the whole memory, in order.
pub open spec fn system_sizes(nodes: Seq<JsonView>) -> Seq<Option<i64>>
    decreases nodes.len(),
{
    if nodes.len() == 0 {
        Seq::empty()
    } else {
        system_sizes(nodes.drop_last()) + (if is_system_memory(nodes.last()) {
            seq![size(nodes.last())]
        } else {
            Seq::empty()
        })
    }
}

/// The first size that is known; zero if none is.
pub open spec fn first_known(sizes: Seq<Option<i64>>) -> int
    decreases sizes.len(),
{
    if sizes.len() == 0 {
        0
    } else {
        match sizes[0] {
            Some(bytes) => bytes as int,
            None => first_known(sizes.drop_first()),
        }
    }
}

proof fn lemma_system_sizes_add(a: Seq<JsonView>, b: Seq<JsonView>)
    ensures
        system_sizes(a + b) == system_sizes(a) + system_sizes(b),
    decreases b.len(),
{
    if b.len() == 0 {
        assert(a + b == a);
    } else {
        lemma_system_sizes_add(a, b.drop_last());
        assert((a + b).drop_last() == a + b.drop_last());
        assert(system_sizes(a + b) =~= system_sizes(a) + system_sizes(b));
    }
}

/// The size of the whole memory depends on the sizes of the nodes that stand
/// for it, and on nothing else.
pub proof fn law_only_system_memory_counts(nodes: Seq<JsonView>)
    ensures
        system_memory_size(nodes) == first_known(system_sizes(nodes)),
    decreases nodes.len(),
{
    if nodes.len() > 0 {
        let first = seq![nodes[0]];
        let rest = nodes.drop_first();
        law_only_system_memory_counts(rest);
        assert(nodes == first + rest);
        lemma_system_sizes_add(first, rest);
        assert(first.drop_last() == Seq::<JsonView>::empty());
        assert(system_sizes(first.drop_last()) == Seq::<Option<i64>>::empty());
        if is_system_memory(nodes[0]) {
            assert(system_sizes(first) =~= seq![size(nodes[0])]);
            assert(system_sizes(nodes).drop_first() == system_sizes(rest));
        } else {
            assert(system_sizes(first) =~= Seq::<Option<i64>>::empty());
            assert(system_sizes(nodes) == system_sizes(rest));
        }
    }
}

/// The figures that a profile takes from a node.
pub struct Figures {
    pub product: Option<Seq<char>>,
    pub cores: Option<i32>,
    pub size: Option<i64>,
}

/// The figures of a node.
pub open spec fn figures(node: JsonView) -> Figures {
    Figures { product: product(node), cores: cores(node), size: size(node) }
}

/// The figures of several nodes.
pub open spec fn all_figures(nodes: Seq<JsonView>) -> Seq<Figures> {
    nodes.map_values(|node: JsonView| figures(node))
}

/// Totals depend on the figures of the nodes, and on nothing else.
pub proof fn law_totals_rest_on_figures(a: Seq<JsonView>, b: Seq<JsonView>)
    requires
        all_figures(a) == all_figures(b),
    ensures
        total_cores(a) == total_cores(b),
        total_size(a) == total_size(b),
    decreases a.len(),
{
    assert(a.len() == all_figures(a).len() && b.len() == all_figures(b).len());
    if a.len() > 0 {
        assert(all_figures(a.drop_last()) =~= all_figures(a).drop_last());
        assert(all_figures(b.drop_last()) =~= all_figures(b).drop_last());
        assert(all_figures(a).last() == figures(a.last()));
        assert(all_figures(b).last() == figures(b.last()));
        law_totals_rest_on_figures(a.drop_last(), b.drop_last());
    }
}

proof fn lemma_fitting_carries_over(a: Seq<JsonView>, b: Seq<JsonView>)
    requires
        all_figures(a) == all_figures(b),
    ensures
        cores_fit(a) ==> cores_fit(b),
        sizes_fit(a) ==> sizes_fit(b),
{
    assert(a.len() == all_figures(a).len() && b.len() == all_figures(b).len());
    assert forall|k: int| 0 <= k <= b.len() implies total_cores(a.take(k)) == total_cores(
        #[trigger] b.take(k),
    ) && total_size(a.take(k)) == total_size(b.take(k)) by {
        assert(all_figures(a.take(k)) =~= all_figures(a).take(k));
        assert(all_figures(b.take(k)) =~= all_figures(b).take(k));
        law_totals_rest_on_figures(a.take(k), b.take(k));
    }
}

/// Whether totals fit their types depends on the figures, and on nothing else.
pub proof fn law_fitting_rests_on_figures(a: Seq<JsonView>, b: Seq<JsonView>)
    requires
        all_figures(a) == all_figures(b),
    ensures
        cores_fit(a) == cores_fit(b),
        sizes_fit(a) == sizes_fit(b),
{
    lemma_fitting_carries_over(a, b);
    lemma_fitting_carries_over(b, a);
}

/// The members of an object with another value for the first that is called
/// `key`.
pub open spec fn with_member(
    members: Seq<(Seq<char>, JsonView)>,
    key: Seq<char>,
    value: JsonView,
) -> Seq<(Seq<char>, JsonView)>
    decreases members.len(),
{
    if members.len() == 0 {
        members
    } else if members[0].0 == key {
        seq![(key, value)] + members.drop_first()
    } else {
        seq![members[0]] + with_member(members.drop_first(), key, value)
    }
}

proof fn lemma_with_member(
    members: Seq<(Seq<char>, JsonView)>,
    key: Seq<char>,
    value: JsonView,
    other: Seq<char>,
)
    ensures
        other != key ==> crate::json::member(with_member(members, key, value), other) == crate::json::member(members, other),
        crate::json::member(members, key) is Some ==> crate::json::member(with_member(members, key, value), key) == Some(
            value,
        ),
    decreases members.len(),
{
    if members.len() > 0 {
        let changed = with_member(members, key, value);
        lemma_with_member(members.drop_first(), key, value, other);
        if members[0].0 == key {
            assert(changed.drop_first() == members.drop_first());
        } else {
            assert(changed.drop_first() == with_member(members.drop_first(), key, value));
        }
    }
}

/// Whether a node has a list of nodes below it, be it empty.
pub open spec fn has_children(node: JsonView) -> bool {
    node.get("children"@) matches Some(list) && list is Array
}

/// A node with another list of nodes below it.
pub open spec fn with_children(node: JsonView, below: Seq<JsonView>) -> JsonView {
    JsonView::Object(with_member(node->Object_0, "children"@, JsonView::Array(below)))
}

proof fn lemma_with_children(node: JsonView, below: Seq<JsonView>, class: Seq<char>)
    requires
        has_children(node),
    ensures
        children(with_children(node, below)) == below,
        has_class(with_children(node, below), class) == has_class(node, class),
        figures(with_children(node, below)) == figures(node),
        is_system_memory(with_children(node, below)) == is_system_memory(node),
{
    let members = node->Object_0;
    let list = JsonView::Array(below);
    reveal_strlit("children");
    reveal_strlit("class");
    reveal_strlit("product");
    reveal_strlit("configuration");
    reveal_strlit("size");
    reveal_strlit("description");
    assert("children"@.len() == 8);
    assert("class"@.len() == 5 && "product"@.len() == 7 && "configuration"@.len() == 13
        && "size"@.len() == 4 && "description"@.len() == 11);
    lemma_with_member(members, "children"@, list, "class"@);
    lemma_with_member(members, "children"@, list, "product"@);
    lemma_with_member(members, "children"@, list, "configuration"@);
    lemma_with_member(members, "children"@, list, "size"@);
    lemma_with_member(members, "children"@, list, "description"@);
}

/// Whether a path leads from a node to a list of nodes that has a place `at`:
/// each step names the next node by its place below the one before.
pub open spec fn leads_to_place(node: JsonView, path: Seq<int>, at: int) -> bool
    decreases path.len(),
{
    &&& has_children(node)
    &&& if path.len() == 0 {
        0 <= at <= children(node).len()
    } else {
        &&& 0 <= path[0] < children(node).len()
        &&& leads_to_place(children(node)[path[0]], path.drop_first(), at)
    }
}

/// A tree with one more node, put in at a place that a path leads to.
pub open spec fn with_node(node: JsonView, path: Seq<int>, at: int, added: JsonView) -> JsonView
    decreases path.len(),
{
    let below = children(node);
    if path.len() == 0 {
        with_children(node, below.insert(at, added))
    } else {
        with_children(
            node,
            below.update(path[0], with_node(below[path[0]], path.drop_first(), at, added)),
        )
    }
}

proof fn lemma_nodes_below_add(a: Seq<JsonView>, b: Seq<JsonView>, class: Seq<char>)
    ensures
        nodes_below(a + b, class) == nodes_below(a, class) + nodes_below(b, class),
    decreases b.len(),
{
    if b.len() == 0 {
        assert(a + b == a);
        assert(nodes_below(b, class) == Seq::<JsonView>::empty());
    } else {
        lemma_nodes_below_add(a, b.drop_last(), class);
        assert((a + b).drop_last() == a + b.drop_last());
        assert(nodes_below(a + b, class) =~= nodes_below(a, class) + nodes_below(b, class));
    }
}

/// What a search finds of a node itself.
pub open spec fn own_node(node: JsonView, class: Seq<char>) -> Seq<JsonView> {
    if has_class(node, class) {
        seq![node]
    } else {
        Seq::empty()
    }
}

proof fn lemma_nodes_by_class(node: JsonView, class: Seq<char>)
    ensures
        nodes_by_class(node, class) == own_node(node, class) + nodes_below(children(node), class),
{
    if children(node).len() == 0 {
        assert(own_node(node, class) + nodes_below(children(node), class) =~= own_node(
            node,
            class,
        ));
    }
}

proof fn lemma_one_tree(tree: JsonView, class: Seq<char>)
    ensures
        nodes_below(seq![tree], class) == nodes_by_class(tree, class),
{
    assert(seq![tree].drop_last() == Seq::<JsonView>::empty());
    assert(nodes_below(seq![tree].drop_last(), class) == Seq::<JsonView>::empty());
    assert(nodes_below(seq![tree], class) =~= nodes_by_class(tree, class));
}

proof fn lemma_parts_of_search(
    node: JsonView,
    a: Seq<JsonView>,
    middle: Seq<JsonView>,
    b: Seq<JsonView>,
    class: Seq<char>,
)
    requires
        children(node) == a + middle + b,
    ensures
        all_figures(nodes_by_class(node, class)) == all_figures(own_node(node, class))
            + all_figures(nodes_below(a, class)) + all_figures(nodes_below(middle, class))
            + all_figures(nodes_below(b, class)),
        system_sizes(nodes_by_class(node, class)) == system_sizes(own_node(node, class))
            + system_sizes(nodes_below(a, class)) + system_sizes(nodes_below(middle, class))
            + system_sizes(nodes_below(b, class)),
{
    let own = own_node(node, class);
    let x = nodes_below(a, class);
    let y = nodes_below(middle, class);
    let z = nodes_below(b, class);
    lemma_nodes_by_class(node, class);
    lemma_nodes_below_add(a + middle, b, class);
    lemma_nodes_below_add(a, middle, class);
    assert(nodes_by_class(node, class) == own + (x + y + z));
    assert(all_figures(own + (x + y + z)) =~= all_figures(own) + all_figures(x) + all_figures(y)
        + all_figures(z));
    lemma_system_sizes_add(own, x + y + z);
    lemma_system_sizes_add(x + y, z);
    lemma_system_sizes_add(x, y);
    assert(system_sizes(own + (x + y + z)) =~= system_sizes(own) + system_sizes(x) + system_sizes(y)
        + system_sizes(z));
}

proof fn lemma_own_figures(node: JsonView, below: Seq<JsonView>, class: Seq<char>)
    requires
        has_children(node),
    ensures
        all_figures(own_node(with_children(node, below), class)) == all_figures(
            own_node(node, class),
        ),
        system_sizes(own_node(with_children(node, below), class)) == system_sizes(
            own_node(node, class),
        ),
{
    let changed = with_children(node, below);
    lemma_with_children(node, below, class);
    assert(all_figures(own_node(changed, class)) =~= all_figures(own_node(node, class)));
    if has_class(node, class) {
        assert(own_node(node, class).drop_last() == own_node(changed, class).drop_last());
        assert(figures(changed).size == figures(node).size);
    }
}

/// A node that is put into a tree changes nothing of what a search yields that
/// the node does not add to: neither the figures of what is found, if nothing
/// of the class stands in it, nor the sizes of the whole memory, if nothing in
/// it stands for that.
pub proof fn law_added_node_adds_only_its_own(
    root: JsonView,
    path: Seq<int>,
    at: int,
    added: JsonView,
    class: Seq<char>,
)
    requires
        leads_to_place(root, path, at),
    ensures
        nodes_by_class(added, class).len() == 0 ==> all_figures(
            nodes_by_class(with_node(root, path, at, added), class),
        ) == all_figures(nodes_by_class(root, class)),
        system_sizes(nodes_by_class(added, class)).len() == 0 ==> system_sizes(
            nodes_by_class(with_node(root, path, at, added), class),
        ) == system_sizes(nodes_by_class(root, class)),
    decreases path.len(),
{
    let below = children(root);
    let grown = with_node(root, path, at, added);
    if path.len() == 0 {
        let a = below.take(at);
        let b = below.skip(at);
        let nothing = Seq::<JsonView>::empty();
        lemma_with_children(root, below.insert(at, added), class);
        lemma_own_figures(root, below.insert(at, added), class);
        assert(below.insert(at, added) =~= a + seq![added] + b);
        assert(below =~= a + nothing + b);
        lemma_parts_of_search(root, a, nothing, b, class);
        lemma_parts_of_search(grown, a, seq![added], b, class);
        lemma_one_tree(added, class);
        assert(nodes_below(nothing, class) == nothing);
        if nodes_by_class(added, class).len() == 0 {
            assert(nodes_by_class(added, class) =~= nothing);
        }
        if system_sizes(nodes_by_class(added, class)).len() == 0 {
            assert(system_sizes(nodes_by_class(added, class)) =~= system_sizes(nothing));
        }
    } else {
        let k = path[0];
        let next = with_node(below[k], path.drop_first(), at, added);
        let a = below.take(k);
        let b = below.skip(k + 1);
        law_added_node_adds_only_its_own(below[k], path.drop_first(), at, added, class);
        lemma_with_children(root, below.update(k, next), class);
        lemma_own_figures(root, below.update(k, next), class);
        assert(below.update(k, next) =~= a + seq![next] + b);
        assert(below =~= a + seq![below[k]] + b);
        lemma_parts_of_search(root, a, seq![below[k]], b, class);
        lemma_parts_of_search(grown, a, seq![next], b, class);
        lemma_one_tree(next, class);
        lemma_one_tree(below[k], class);
    }
}

/// A processor has the number of cores that the text under `configuration`,
/// `cores` writes, whatever other members it and its configuration have.
pub proof fn law_cores_are_as_written(
    node: JsonValue,
    configuration: JsonView,
    n: int,
    r: Option<i32>,
)
    requires
        crate::json::has_member(node@, "configuration"@, configuration),
        crate::json::has_member(
            configuration,
            "cores"@,
            JsonView::Text(crate::text::signed_decimal(n)),
        ),
        call_ensures(cores_of, (&node,), r),
    ensures
        -2147483648 <= n <= 2147483647 ==> r == Some(n as i32),
        !(-2147483648 <= n <= 2147483647) ==> r is None,
{
    let written = crate::text::signed_decimal(n);
    crate::json::law_lookup_gives_the_member(node@, "configuration"@, configuration);
    crate::json::law_lookup_gives_the_member(configuration, "cores"@, JsonView::Text(written));
    crate::text::law_written_integers_are_read(n);
}

/// Two nodes whose configurations say the same under `cores` have the same
/// number of cores, however they differ otherwise; and a node has one only if
/// there is a text that writes it.
pub proof fn law_only_the_written_cores_count(
    node: JsonValue,
    other: JsonValue,
    configuration: JsonView,
    other_configuration: JsonView,
    value: JsonView,
    r: Option<i32>,
    of_other: Option<i32>,
)
    requires
        call_ensures(cores_of, (&node,), r),
        call_ensures(cores_of, (&other,), of_other),
    ensures
        ({
            &&& crate::json::has_member(node@, "configuration"@, configuration)
            &&& crate::json::has_member(other@, "configuration"@, other_configuration)
            &&& crate::json::has_member(configuration, "cores"@, value)
            &&& crate::json::has_member(other_configuration, "cores"@, value)
        }) ==> r == of_other,
        r matches Some(n) ==> exists|c: JsonView, written: Seq<char>|
            #![trigger crate::json::has_member(c, "cores"@, JsonView::Text(written))]
            {
                &&& crate::json::has_member(node@, "configuration"@, c)
                &&& crate::json::has_member(c, "cores"@, JsonView::Text(written))
                &&& crate::text::written_int(written) == Some(n as int)
            },
{
    crate::json::law_lookup_gives_the_member(node@, "configuration"@, configuration);
    crate::json::law_lookup_gives_the_member(other@, "configuration"@, other_configuration);
    crate::json::law_lookup_gives_the_member(configuration, "cores"@, value);
    crate::json::law_lookup_gives_the_member(other_configuration, "cores"@, value);
    if let Some(n) = r {
        let c = node@.get("configuration"@)->0;
        let count = c.get("cores"@)->0;
        let written = count->Text_0;
        crate::json::law_lookup_gives_the_member(node@, "configuration"@, c);
        crate::json::law_lookup_gives_the_member(c, "cores"@, count);
        crate::text::law_only_digits_write_integers(written, n);
        assert(crate::json::has_member(c, "cores"@, JsonView::Text(written)));
    }
}

/// A node has the product name and the size that stand under `product` and
/// `size`, and none where no text or no 64-bit signed integer stands there.
pub proof fn law_name_and_size_are_as_given(
    node: JsonValue,
    name: Option<String>,
    bytes: Option<i64>,
    chars: Seq<char>,
    n: int,
)
    requires
        call_ensures(product_of, (&node,), name),
        call_ensures(size_of_node, (&node,), bytes),
    ensures
        (name matches Some(s) && s@ == chars) <==> crate::json::has_member(
            node@,
            "product"@,
            JsonView::Text(chars),
        ),
        0 <= n <= 0x7fff_ffff_ffff_ffff && crate::json::has_member(
            node@,
            "size"@,
            JsonView::Number(crate::json::JsonNumber::Unsigned(n as u64)),
        ) ==> bytes == Some(n as i64),
        -0x8000_0000_0000_0000 <= n < 0 && crate::json::has_member(
            node@,
            "size"@,
            JsonView::Number(crate::json::JsonNumber::Negative(n as i64)),
        ) ==> bytes == Some(n as i64),
        bytes matches Some(b) ==> {
            ||| b >= 0 && crate::json::has_member(
                node@,
                "size"@,
                JsonView::Number(crate::json::JsonNumber::Unsigned(b as u64)),
            )
            ||| crate::json::has_member(
                node@,
                "size"@,
                JsonView::Number(crate::json::JsonNumber::Negative(b)),
            )
        },
{
    crate::json::law_lookup_gives_the_member(node@, "product"@, JsonView::Text(chars));
    crate::json::law_lookup_gives_the_member(
        node@,
        "size"@,
        JsonView::Number(crate::json::JsonNumber::Unsigned(n as u64)),
    );
    crate::json::law_lookup_gives_the_member(
        node@,
        "size"@,
        JsonView::Number(crate::json::JsonNumber::Negative(n as i64)),
    );
    if let Some(b) = bytes {
        crate::json::law_lookup_gives_the_member(
            node@,
            "size"@,
            JsonView::Number(crate::json::JsonNumber::Unsigned(b as u64)),
        );
        crate::json::law_lookup_gives_the_member(
            node@,
            "size"@,
            JsonView::Number(crate::json::JsonNumber::Negative(b)),
        );
    }
}

/// A node stands for the whole memory exactly if its description says so, and
/// is of a class exactly if it declares that class.
pub proof fn law_descriptions_and_classes_are_as_declared(
    node: JsonValue,
    class: Seq<char>,
    whole: bool,
)
    requires
        call_ensures(stands_for_system_memory, (&node,), whole),
    ensures
        whole <==> crate::json::has_member(
            node@,
            "description"@,
            JsonView::Text("System Memory"@),
        ),
        has_class(node@, class) <==> crate::json::has_member(
            node@,
            "class"@,
            JsonView::Text(class),
        ),
{
    crate::json::law_lookup_gives_the_member(
        node@,
        "description"@,
        JsonView::Text("System Memory"@),
    );
    crate::json::law_lookup_gives_the_member(node@, "class"@, JsonView::Text(class));
}

/// A search lists a node of its class once, before all that it finds below;
/// what it finds in one tree it lists before what it finds in the next; and
/// below a node it searches the whole list under `children`.
pub proof fn law_search_goes_in_order(
    node: JsonView,
    list: Seq<JsonView>,
    one: Seq<JsonView>,
    other: Seq<JsonView>,
    class: Seq<char>,
)
    ensures
        crate::json::has_member(node, "children"@, JsonView::Array(list)) ==> nodes_by_class(
            node,
            class,
        ) == (if crate::json::has_member(node, "class"@, JsonView::Text(class)) {
            seq![node] + nodes_below(list, class)
        } else {
            nodes_below(list, class)
        }),
        (forall|l: Seq<JsonView>|
            !#[trigger] crate::json::has_member(node, "children"@, JsonView::Array(l)))
            ==> nodes_by_class(node, class) == (if crate::json::has_member(
            node,
            "class"@,
            JsonView::Text(class),
        ) {
            seq![node]
        } else {
            Seq::<JsonView>::empty()
        }),
        nodes_below(one + other, class) == nodes_below(one, class) + nodes_below(other, class),
        nodes_below(seq![node], class) == nodes_by_class(node, class),
        nodes_below(Seq::empty(), class) == Seq::<JsonView>::empty(),
{
    crate::json::law_lookup_gives_the_member(node, "class"@, JsonView::Text(class));
    crate::json::law_lookup_gives_the_member(node, "children"@, JsonView::Array(list));
    if let Some(JsonView::Array(l)) = node.get("children"@) {
        crate::json::law_lookup_gives_the_member(node, "children"@, JsonView::Array(l));
    }
    lemma_nodes_by_class(node, class);
    lemma_nodes_below_add(one, other, class);
    lemma_one_tree(node, class);
    assert(own_node(node, class) + Seq::<JsonView>::empty() =~= own_node(node, class));
    assert(Seq::<JsonView>::empty() + nodes_below(list, class) =~= nodes_below(list, class));
    if crate::json::has_member(node, "children"@, JsonView::Array(list)) {
        assert(children(node) == list);
    }
    if children(node).len() == 0 {
        assert(nodes_by_class(node, class) =~= own_node(node, class));
    }
}

/// What the nodes of a list say is what each of them says, in order.
pub proof fn law_found_nodes_keep_their_places(nodes: Seq<&JsonValue>, i: int)
    requires
        0 <= i < nodes.len(),
    ensures
        views(nodes).len() == nodes.len(),
        views(nodes)[i] == nodes[i]@,
{
}

/// A list of one node totals to the node's own figures, which count as zero
/// where the node has none; no nodes total to zero.
pub proof fn law_totals_of_one_node(node: JsonValue, bytes: Option<i64>, count: Option<i32>)
    requires
        call_ensures(size_of_node, (&node,), bytes),
        call_ensures(cores_of, (&node,), count),
    ensures
        total_size(seq![node@]) == (match bytes {
            Some(b) => b as int,
            None => 0,
        }),
        total_cores(seq![node@]) == (match count {
            Some(n) => n as int,
            None => 0,
        }),
        total_size(Seq::empty()) == 0,
        total_cores(Seq::empty()) == 0,
{
    assert(seq![node@].drop_last() == Seq::<JsonView>::empty());
    reveal_with_fuel(total_size, 2);
    reveal_with_fuel(total_cores, 2);
}

/// Sums are the totals wherever every total from the front keeps within 64 or
/// 32 bits; nothing is summed up otherwise.
pub proof fn law_sums_are_totals(
    nodes: Vec<&JsonValue>,
    bytes: Option<i64>,
    count: Option<i32>,
    k: int,
)
    requires
        call_ensures(sum_sizes, (&nodes,), bytes),
        call_ensures(sum_cores, (&nodes,), count),
        0 <= k <= nodes@.len(),
    ensures
        bytes matches Some(b) ==> {
            &&& b == total_size(views(nodes@))
            &&& -0x8000_0000_0000_0000 <= total_size(views(nodes@).take(k))
                <= 0x7fff_ffff_ffff_ffff
        },
        bytes is None ==> exists|j: int|
            0 <= j <= nodes@.len() && !(-0x8000_0000_0000_0000 <= #[trigger] total_size(
                views(nodes@).take(j),
            ) <= 0x7fff_ffff_ffff_ffff),
        count matches Some(n) ==> {
            &&& n == total_cores(views(nodes@))
            &&& -0x8000_0000 <= total_cores(views(nodes@).take(k)) <= 0x7fff_ffff
        },
        count is None ==> exists|j: int|
            0 <= j <= nodes@.len() && !(-0x8000_0000 <= #[trigger] total_cores(
                views(nodes@).take(j),
            ) <= 0x7fff_ffff),
{
    assert(views(nodes@).len() == nodes@.len());
}

/// The size of the whole memory is that of the first node whose description
/// says that it stands for it and that has a size, whatever stands after it; it
/// is zero if there is no such node.
pub proof fn law_first_whole_memory_counts(nodes: Vec<&JsonValue>, r: i64, k: int)
    requires
        call_ensures(find_system_memory_size, (&nodes,), r),
    ensures
        0 <= k < nodes@.len() && size(nodes@[k]@) is Some && crate::json::has_member(
            nodes@[k]@,
            "description"@,
            JsonView::Text("System Memory"@),
        ) && (forall|j: int|
            0 <= j < k ==> size((#[trigger] nodes@[j])@) is None || !crate::json::has_member(
                nodes@[j]@,
                "description"@,
                JsonView::Text("System Memory"@),
            )) ==> size(nodes@[k]@) == Some(r),
        (forall|j: int|
            0 <= j < nodes@.len() ==> size((#[trigger] nodes@[j])@) is None
                || !crate::json::has_member(
                nodes@[j]@,
                "description"@,
                JsonView::Text("System Memory"@),
            )) ==> r == 0,
{
    let all = views(nodes@);
    let text = JsonView::Text("System Memory"@);
    assert forall|j: int| 0 <= j < all.len() implies is_system_memory(#[trigger] all[j])
        == crate::json::has_member(nodes@[j]@, "description"@, text) && all[j] == nodes@[j]@ by {
        crate::json::law_lookup_gives_the_member(all[j], "description"@, text);
    }
    lemma_first_whole_memory(all, k);
    lemma_no_whole_memory(all);
}

proof fn lemma_first_whole_memory(nodes: Seq<JsonView>, k: int)
    ensures
        0 <= k < nodes.len() && size(nodes[k]) is Some && is_system_memory(nodes[k]) && (forall|
            j: int,
        |
            0 <= j < k ==> size(#[trigger] nodes[j]) is None || !is_system_memory(nodes[j]))
            ==> system_memory_size(nodes) == size(nodes[k])->0,
    decreases nodes.len(),
{
    if 0 < k < nodes.len() && (forall|j: int|
        0 <= j < k ==> size(#[trigger] nodes[j]) is None || !is_system_memory(nodes[j])) {
        let rest = nodes.drop_first();
        lemma_first_whole_memory(rest, k - 1);
        assert forall|j: int| 0 <= j < k - 1 implies size(#[trigger] rest[j]) is None
            || !is_system_memory(rest[j]) by {
            assert(rest[j] == nodes[j + 1]);
        }
        assert(size(nodes[0]) is None || !is_system_memory(nodes[0]));
    }
}

proof fn lemma_no_whole_memory(nodes: Seq<JsonView>)
    ensures
        (forall|j: int|
            0 <= j < nodes.len() ==> size(#[trigger] nodes[j]) is None || !is_system_memory(
                nodes[j],
            )) ==> system_memory_size(nodes) == 0,
    decreases nodes.len(),
{
    if nodes.len() > 0 && (forall|j: int|
        0 <= j < nodes.len() ==> size(#[trigger] nodes[j]) is None || !is_system_memory(nodes[j])) {
        let rest = nodes.drop_first();
        lemma_no_whole_memory(rest);
        assert forall|j: int| 0 <= j < rest.len() implies size(#[trigger] rest[j]) is None
            || !is_system_memory(rest[j]) by {
            assert(rest[j] == nodes[j + 1]);
        }
        assert(size(nodes[0]) is None || !is_system_memory(nodes[0]));
    }
}

proof fn lemma_totals_of_parts(
    node: JsonView,
    a: Seq<JsonView>,
    middle: Seq<JsonView>,
    b: Seq<JsonView>,
    class: Seq<char>,
)
    requires
        children(node) == a + middle + b,
    ensures
        total_cores(nodes_by_class(node, class)) == total_cores(own_node(node, class))
            + total_cores(nodes_below(a, class)) + total_cores(nodes_below(middle, class))
            + total_cores(nodes_below(b, class)),
        total_size(nodes_by_class(node, class)) == total_size(own_node(node, class)) + total_size(
            nodes_below(a, class),
        ) + total_size(nodes_below(middle, class)) + total_size(nodes_below(b, class)),
{
    let own = own_node(node, class);
    let x = nodes_below(a, class);
    let y = nodes_below(middle, class);
    let z = nodes_below(b, class);
    lemma_nodes_by_class(node, class);
    lemma_nodes_below_add(a + middle, b, class);
    lemma_nodes_below_add(a, middle, class);
    law_cores_add_up(own, x + y + z);
    law_cores_add_up(x + y, z);
    law_cores_add_up(x, y);
    law_sizes_add_up(own, x + y + z);
    law_sizes_add_up(x + y, z);
    law_sizes_add_up(x, y);
}

/// A node that is put into a tree, at whatever place, adds to the totals of a
/// class exactly what a search finds in the node itself.
pub proof fn law_added_node_adds_its_totals(
    root: JsonView,
    path: Seq<int>,
    at: int,
    added: JsonView,
    class: Seq<char>,
)
    requires
        leads_to_place(root, path, at),
    ensures
        total_cores(nodes_by_class(with_node(root, path, at, added), class)) == total_cores(
            nodes_by_class(root, class),
        ) + total_cores(nodes_by_class(added, class)),
        total_size(nodes_by_class(with_node(root, path, at, added), class)) == total_size(
            nodes_by_class(root, class),
        ) + total_size(nodes_by_class(added, class)),
    decreases path.len(),
{
    let below = children(root);
    let grown = with_node(root, path, at, added);
    if path.len() == 0 {
        let a = below.take(at);
        let b = below.skip(at);
        let nothing = Seq::<JsonView>::empty();
        lemma_with_children(root, below.insert(at, added), class);
        lemma_own_figures(root, below.insert(at, added), class);
        assert(below.insert(at, added) =~= a + seq![added] + b);
        assert(below =~= a + nothing + b);
        lemma_totals_of_parts(root, a, nothing, b, class);
        lemma_totals_of_parts(grown, a, seq![added], b, class);
        lemma_one_tree(added, class);
        assert(nodes_below(nothing, class) == nothing);
    } else {
        let k = path[0];
        let next = with_node(below[k], path.drop_first(), at, added);
        let a = below.take(k);
        let b = below.skip(k + 1);
        law_added_node_adds_its_totals(below[k], path.drop_first(), at, added, class);
        lemma_with_children(root, below.update(k, next), class);
        lemma_own_figures(root, below.update(k, next), class);
        assert(below.update(k, next) =~= a + seq![next] + b);
        assert(below =~= a + seq![below[k]] + b);
        lemma_totals_of_parts(root, a, seq![below[k]], b, class);
        lemma_totals_of_parts(grown, a, seq![next], b, class);
        lemma_one_tree(next, class);
        lemma_one_tree(below[k], class);
    }
    law_totals_rest_on_figures(own_node(grown, class), own_node(root, class));
}

} // verus!
