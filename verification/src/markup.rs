//! Board markup tools and the document transactions they produce.
use vstd::prelude::*;

use crate::board::{format_sgf_vertex, sgf_encodable, sgf_point, Color, Vertex};
use crate::properties::Properties;
use crate::text::{chars_of, push_char, str_eq};

verus! {

/// Identifier of a game-tree node.
pub type NodeId = String;

/// The markup tools exposed by the shell toolbar. `Play` falls through to the
/// normal board interaction; the markup tools attach a marker to the clicked
/// vertex via the `AddMarkup` transaction; the setup tools write `AB`/`AW`/
/// `AE`-style setup properties via `SetNodeProperty`.
#[derive(Clone, Copy, Debug, Eq, PartialEq, Structural)]
pub enum MarkupTool {
    Play,
    Circle,
    Square,
    Triangle,
    Cross,
    Label,
    Line,
    Arrow,
    SetupBlack,
    SetupWhite,
    SetupClear,
}

/// Kinds of document transactions the markup tools produce.
#[derive(Clone, Copy, Debug, Eq, PartialEq, Structural)]
pub enum GameTransactionType {
    AddMarkup,
    SetNodeProperty,
    ApplyScoringOverride,
}

/// A board marker: its semantic type (`circle`, `square`, `triangle`,
/// `cross`, `label`) and, for labels, the text.
#[derive(Clone, Debug, Eq, PartialEq)]
pub struct MarkerSnapshot {
    pub marker_type: String,
    pub label: Option<String>,
}

/// A document edit request.
#[derive(Clone, Debug, Eq, PartialEq)]
pub struct GameTransaction {
    pub transaction_type: GameTransactionType,
    pub color: Option<Color>,
    pub vertex: Option<Vertex>,
    pub node_id: Option<NodeId>,
    pub property: Option<String>,
    pub values: Vec<String>,
    pub marker: Option<MarkerSnapshot>,
    pub score_override: Option<i8>,
}

impl MarkupTool {
    pub open spec fn spec_label(self) -> &'static str {
        match self {
            MarkupTool::Play => "Play move",
            MarkupTool::Circle => "Circle",
            MarkupTool::Square => "Square",
            MarkupTool::Triangle => "Triangle",
            MarkupTool::Cross => "Cross",
            MarkupTool::Label => "Label",
            MarkupTool::Line => "Line",
            MarkupTool::Arrow => "Arrow",
            MarkupTool::SetupBlack => "Setup black",
            MarkupTool::SetupWhite => "Setup white",
            MarkupTool::SetupClear => "Setup clear",
        }
    }

    pub open spec fn spec_setup_property(self) -> Option<&'static str> {
        match self {
            MarkupTool::SetupBlack => Some("AB"),
            MarkupTool::SetupWhite => Some("AW"),
            MarkupTool::SetupClear => Some("AE"),
            _ => None,
        }
    }

    pub open spec fn spec_line_property(self) -> Option<&'static str> {
        match self {
            MarkupTool::Line => Some("LN"),
            MarkupTool::Arrow => Some("AR"),
            _ => None,
        }
    }

    /// The marker type a markup tool attaches (`None` for other tools).
    pub open spec fn marker_type(self) -> Option<&'static str> {
        match self {
            MarkupTool::Circle => Some("circle"),
            MarkupTool::Square => Some("square"),
            MarkupTool::Triangle => Some("triangle"),
            MarkupTool::Cross => Some("cross"),
            MarkupTool::Label => Some("label"),
            _ => None,
        }
    }

    /// The toolbar caption.
    pub fn label(self) -> (l: &'static str)
        ensures
            l == self.spec_label(),
    {
        match self {
            MarkupTool::Play => "Play move",
            MarkupTool::Circle => "Circle",
            MarkupTool::Square => "Square",
            MarkupTool::Triangle => "Triangle",
            MarkupTool::Cross => "Cross",
            MarkupTool::Label => "Label",
            MarkupTool::Line => "Line",
            MarkupTool::Arrow => "Arrow",
            MarkupTool::SetupBlack => "Setup black",
            MarkupTool::SetupWhite => "Setup white",
            MarkupTool::SetupClear => "Setup clear",
        }
    }

    /// The SGF setup property for this tool (`AB`, `AW`, `AE`).
    pub fn setup_property(self) -> (p: Option<&'static str>)
        ensures
            p == self.spec_setup_property(),
    {
        match self {
            MarkupTool::SetupBlack => Some("AB"),
            MarkupTool::SetupWhite => Some("AW"),
            MarkupTool::SetupClear => Some("AE"),
            _ => None,
        }
    }

    /// The SGF line property for drag-drawn board annotations.
    pub fn line_property(self) -> (p: Option<&'static str>)
        ensures
            p == self.spec_line_property(),
    {
        match self {
            MarkupTool::Line => Some("LN"),
            MarkupTool::Arrow => Some("AR"),
            _ => None,
        }
    }

    /// Whether this tool drives line/arrow drawing.
    pub fn is_line_tool(self) -> (b: bool)
        ensures
            b == self.spec_line_property() is Some,
    {
        self.line_property().is_some()
    }

    /// Whether this tool drives setup-stone editing instead of markup.
    pub fn is_setup_tool(self) -> (b: bool)
        ensures
            b == self.spec_setup_property() is Some,
    {
        self.setup_property().is_some()
    }
}

/// `t` is the `SetNodeProperty` transaction that sets `property` of node
/// `node_id` to `values`.
pub open spec fn is_property_transaction(
    t: GameTransaction,
    node_id: Seq<char>,
    property: Seq<char>,
    values: Seq<Seq<char>>,
) -> bool {
    &&& t.transaction_type == GameTransactionType::SetNodeProperty
    &&& t.color is None
    &&& t.vertex is None
    &&& t.node_id matches Some(n) && n@ == node_id
    &&& t.property matches Some(p) && p@ == property
    &&& t.values.deep_view() == values
    &&& t.marker is None
    &&& t.score_override is None
}

/// The values already stored for `property`, or none.
pub open spec fn stored_values(props: Map<Seq<char>, Seq<Seq<char>>>, property: Seq<char>) -> Seq<
    Seq<char>,
> {
    if props.contains_key(property) {
        props[property]
    } else {
        Seq::empty()
    }
}

/// `values` with `value` appended unless already present.
pub open spec fn append_unique(values: Seq<Seq<char>>, value: Seq<char>) -> Seq<Seq<char>> {
    if values.contains(value) {
        values
    } else {
        values.push(value)
    }
}

/// `values` without any occurrence of `value`, order kept.
pub open spec fn without_value(values: Seq<Seq<char>>, value: Seq<char>) -> Seq<Seq<char>>
    decreases values.len(),
{
    if values.len() == 0 {
        values
    } else if values.last() == value {
        without_value(values.drop_last(), value)
    } else {
        without_value(values.drop_last(), value).push(values.last())
    }
}

/// The SGF value of a line from `start` to `end`, like `dd:ee`.
pub open spec fn line_point(start: Vertex, end: Vertex) -> Seq<char> {
    sgf_point(start) + seq![':'] + sgf_point(end)
}

/// Builds the `AddMarkup` transaction for the current node, or `None` when the
/// tool is not a marker tool (`Play` is handled as a normal move instead).
pub fn create_markup_transaction(
    node_id: &NodeId,
    vertex: Vertex,
    tool: MarkupTool,
    label: &str,
) -> (t: Option<GameTransaction>)
    ensures
        t is None <==> tool.marker_type() is None,
        t matches Some(t) ==> {
            &&& t.transaction_type == GameTransactionType::AddMarkup
            &&& t.color is None
            &&& t.vertex == Some(vertex)
            &&& t.node_id matches Some(n) && n@ == node_id@
            &&& t.property is None
            &&& t.values@.len() == 0
            &&& t.score_override is None
            &&& t.marker matches Some(m) && m.marker_type@ == tool.marker_type().unwrap()@ && (
            if tool == MarkupTool::Label {
                m.label matches Some(l) && l@ == label@
            } else {
                m.label is None
            })
        },
{
    let marker_type = match tool {
        MarkupTool::Circle => "circle",
        MarkupTool::Square => "square",
        MarkupTool::Triangle => "triangle",
        MarkupTool::Cross => "cross",
        MarkupTool::Label => "label",
        _ => {
            return None;
        },
    };
    let marker_label = if tool == MarkupTool::Label {
        Some(label.to_owned())
    } else {
        None
    };
    Some(
        GameTransaction {
            transaction_type: GameTransactionType::AddMarkup,
            color: None,
            vertex: Some(vertex),
            node_id: Some(node_id.clone()),
            property: None,
            values: Vec::new(),
            marker: Some(MarkerSnapshot { marker_type: marker_type.to_owned(), label: marker_label }),
            score_override: None,
        },
    )
}

fn set_property_transaction(node_id: &NodeId, property: &str, values: Vec<String>) -> (t:
    GameTransaction)
    ensures
        is_property_transaction(t, node_id@, property@, values.deep_view()),
{
    GameTransaction {
        transaction_type: GameTransactionType::SetNodeProperty,
        color: None,
        vertex: None,
        node_id: Some(node_id.clone()),
        property: Some(property.to_owned()),
        values,
        marker: None,
        score_override: None,
    }
}

/// A copy of the values stored for `property`.
fn stored_values_of(props: &Properties, property: &str) -> (values: Vec<String>)
    ensures
        values.deep_view() == stored_values(props@, property@),
{
    match props.get(property) {
        Some(v) => {
            let mut out: Vec<String> = Vec::new();
            let mut i: usize = 0;
            while i < v.len()
                invariant
                    i <= v.len(),
                    out.deep_view() == v.deep_view().take(i as int),
                decreases v.len() - i,
            {
                let ghost before = out.deep_view();
                let item = v[i].clone();
                assert(item@ == v.deep_view()[i as int]);
                out.push(item);
                assert(out.deep_view() =~= before.push(item@));
                i += 1;
                assert(out.deep_view() =~= v.deep_view().take(i as int));
            }
            assert(v.deep_view().take(v.len() as int) =~= v.deep_view());
            out
        },
        None => {
            let out: Vec<String> = Vec::new();
            assert(out.deep_view() =~= Seq::<Seq<char>>::empty());
            out
        },
    }
}

/// `values` with `value` appended unless already present.
fn push_unique(values: &mut Vec<String>, value: String)
    ensures
        final(values).deep_view() == append_unique(old(values).deep_view(), value@),
{
    let mut i: usize = 0;
    while i < values.len()
        invariant
            i <= values.len(),
            forall|j: int| 0 <= j < i ==> values.deep_view()[j] != value@,
        decreases values.len() - i,
    {
        if values[i] == value {
            assert(values.deep_view()[i as int] == value@);
            return;
        }
        i += 1;
    }
    let ghost before = values.deep_view();
    values.push(value);
    assert(values.deep_view() =~= before.push(value@));
}

/// `values` without any occurrence of `value`.
fn remove_value(values: &Vec<String>, value: &String) -> (out: Vec<String>)
    ensures
        out.deep_view() == without_value(values.deep_view(), value@),
{
    let mut out: Vec<String> = Vec::new();
    let mut i: usize = 0;
    while i < values.len()
        invariant
            i <= values.len(),
            out.deep_view() == without_value(values.deep_view().take(i as int), value@),
        decreases values.len() - i,
    {
        let ghost before = out.deep_view();
        assert(values.deep_view().take(i + 1).drop_last() =~= values.deep_view().take(i as int));
        if values[i] != *value {
            out.push(values[i].clone());
            assert(out.deep_view() =~= before.push(values.deep_view()[i as int]));
        }
        i += 1;
    }
    assert(values.deep_view().take(values.len() as int) =~= values.deep_view());
    out
}

/// Builds a `SetNodeProperty` transaction that appends one `start:end` point
/// pair to the current node's `LN` (line) or `AR` (arrow) property, unless
/// the pair is already there.
pub fn create_line_transaction(
    node_id: &NodeId,
    start: Vertex,
    end: Vertex,
    tool: MarkupTool,
    node_properties: &Properties,
) -> (t: Option<GameTransaction>)
    requires
        sgf_encodable(start),
        sgf_encodable(end),
    ensures
        t is None <==> tool.spec_line_property() is None,
        t matches Some(t) ==> is_property_transaction(
            t,
            node_id@,
            tool.spec_line_property().unwrap()@,
            append_unique(
                stored_values(node_properties@, tool.spec_line_property().unwrap()@),
                line_point(start, end),
            ),
        ),
{
    let property = match tool.line_property() {
        Some(p) => p,
        None => {
            return None;
        },
    };
    let mut point = format_sgf_vertex(start);
    push_char(&mut point, ':');
    let end_chars = chars_of(format_sgf_vertex(end).as_str());
    push_char(&mut point, end_chars[0]);
    push_char(&mut point, end_chars[1]);
    assert(point@ =~= line_point(start, end));
    let mut values = stored_values_of(node_properties, property);
    push_unique(&mut values, point);
    Some(set_property_transaction(node_id, property, values))
}

/// The `(property, values)` updates a setup tool makes to a node with
/// properties `props` when applied at the SGF point `point`.
pub open spec fn setup_updates(
    tool: MarkupTool,
    props: Map<Seq<char>, Seq<Seq<char>>>,
    point: Seq<char>,
) -> Seq<(Seq<char>, Seq<Seq<char>>)> {
    match tool {
        MarkupTool::SetupBlack => seq![("AB"@, append_unique(stored_values(props, "AB"@), point))],
        MarkupTool::SetupWhite => seq![("AW"@, append_unique(stored_values(props, "AW"@), point))],
        MarkupTool::SetupClear => {
            let ab = if props.contains_key("AB"@) {
                seq![("AB"@, without_value(props["AB"@], point))]
            } else {
                Seq::empty()
            };
            let aw = if props.contains_key("AW"@) {
                seq![("AW"@, without_value(props["AW"@], point))]
            } else {
                Seq::empty()
            };
            ab + aw
        },
        _ => Seq::empty(),
    }
}

/// Builds the setup-stone transactions for the current node. Placing a black
/// or white setup stone appends the vertex to the node's `AB`/`AW` property
/// (deduplicated); clearing removes the vertex from both properties that
/// exist. A property that ends up empty gets empty `values`, which removes it.
pub fn create_setup_transactions(
    node_id: &NodeId,
    vertex: Vertex,
    tool: MarkupTool,
    node_properties: &Properties,
) -> (ts: Vec<GameTransaction>)
    requires
        sgf_encodable(vertex),
    ensures
        ts@.len() == setup_updates(tool, node_properties@, sgf_point(vertex)).len(),
        forall|i: int|
            0 <= i < ts@.len() ==> is_property_transaction(
                #[trigger] ts@[i],
                node_id@,
                setup_updates(tool, node_properties@, sgf_point(vertex))[i].0,
                setup_updates(tool, node_properties@, sgf_point(vertex))[i].1,
            ),
{
    let point = format_sgf_vertex(vertex);
    let ghost updates = setup_updates(tool, node_properties@, sgf_point(vertex));
    match tool {
        MarkupTool::SetupBlack | MarkupTool::SetupWhite => {
            let property = if tool == MarkupTool::SetupBlack {
                "AB"
            } else {
                "AW"
            };
            let mut values = stored_values_of(node_properties, property);
            push_unique(&mut values, point);
            let t = set_property_transaction(node_id, property, values);
            let mut ts: Vec<GameTransaction> = Vec::new();
            ts.push(t);
            ts
        },
        MarkupTool::SetupClear => {
            let mut transactions: Vec<GameTransaction> = Vec::new();
            if node_properties.contains_key("AB") {
                let stored = stored_values_of(node_properties, "AB");
                let values = remove_value(&stored, &point);
                transactions.push(set_property_transaction(node_id, "AB", values));
            }
            let ghost first = transactions@;
            if node_properties.contains_key("AW") {
                let stored = stored_values_of(node_properties, "AW");
                let values = remove_value(&stored, &point);
                transactions.push(set_property_transaction(node_id, "AW", values));
                assert(transactions@[transactions@.len() - 1] == transactions@.last());
            }
            transactions
        },
        _ => Vec::new(),
    }
}

/// The properties cleared by the one-click markup reset, in order.
pub open spec fn markup_properties() -> Seq<Seq<char>> {
    seq!["CR"@, "SQ"@, "TR"@, "MA"@, "LB"@, "LN"@, "AR"@]
}

/// Builds transactions that clear every markup/label/line property from the
/// current node: each property is reset to an empty value list, which
/// removes it.
pub fn create_clear_markup_transactions(node_id: &NodeId) -> (ts: Vec<GameTransaction>)
    ensures
        ts@.len() == markup_properties().len(),
        forall|i: int|
            0 <= i < ts@.len() ==> is_property_transaction(
                #[trigger] ts@[i],
                node_id@,
                markup_properties()[i],
                Seq::empty(),
            ),
{
    let properties = ["CR", "SQ", "TR", "MA", "LB", "LN", "AR"];
    let mut ts: Vec<GameTransaction> = Vec::new();
    let mut i: usize = 0;
    while i < 7
        invariant
            i <= 7,
            properties@ == seq!["CR", "SQ", "TR", "MA", "LB", "LN", "AR"],
            ts@.len() == i,
            forall|j: int|
                0 <= j < i ==> is_property_transaction(
                    #[trigger] ts@[j],
                    node_id@,
                    markup_properties()[j],
                    Seq::empty(),
                ),
        decreases 7 - i,
    {
        let empty: Vec<String> = Vec::new();
        assert(empty.deep_view() =~= Seq::<Seq<char>>::empty());
        ts.push(set_property_transaction(node_id, properties[i], empty));
        i += 1;
    }
    ts
}

/// The scoring override after one more click: none or clear → alive black
/// (1) → alive white (-1) → clear (0); unknown values restart at 1.
pub open spec fn spec_next_scoring_override(current: Option<i8>) -> i8 {
    match current {
        Some(v) => if v == 1 {
            -1i8
        } else if v == -1 {
            0i8
        } else {
            1i8
        },
        None => 1i8,
    }
}

/// Cycles the scoring override for a vertex.
pub fn next_scoring_override(current: Option<i8>) -> (next: i8)
    ensures
        next == spec_next_scoring_override(current),
{
    match current {
        None => 1,
        Some(0) => 1,
        Some(1) => -1,
        Some(-1) => 0,
        Some(_) => 1,
    }
}

/// Three clicks on a vertex that has no override bring it back to the cleared
/// state, visiting alive black and alive white on the way.
pub proof fn law_scoring_override_cycle(current: Option<i8>)
    requires
        current is None || current == Some(0i8),
    ensures
        spec_next_scoring_override(current) == 1,
        spec_next_scoring_override(Some(spec_next_scoring_override(current))) == -1,
        spec_next_scoring_override(
            Some(spec_next_scoring_override(Some(spec_next_scoring_override(current)))),
        ) == 0,
{
}

/// Builds the `ApplyScoringOverride` transaction for the current position.
pub fn create_scoring_transaction(vertex: Vertex, override_value: i8) -> (t: GameTransaction)
    ensures
        t.transaction_type == GameTransactionType::ApplyScoringOverride,
        t.color is None,
        t.vertex == Some(vertex),
        t.node_id is None,
        t.property is None,
        t.values@.len() == 0,
        t.marker is None,
        t.score_override == Some(override_value),
{
    GameTransaction {
        transaction_type: GameTransactionType::ApplyScoringOverride,
        color: None,
        vertex: Some(vertex),
        node_id: None,
        property: None,
        values: Vec::new(),
        marker: None,
        score_override: Some(override_value),
    }
}

/// The single-character symbol drawn for a marker type; labels show their
/// text (`?` when missing).
pub open spec fn spec_markup_symbol(marker_type: Seq<char>, label: Option<Seq<char>>) -> Seq<char> {
    if marker_type == "point"@ {
        "●"@
    } else if marker_type == "circle"@ {
        "◯"@
    } else if marker_type == "square"@ {
        "□"@
    } else if marker_type == "triangle"@ {
        "△"@
    } else if marker_type == "cross"@ {
        "✕"@
    } else if marker_type == "label"@ {
        match label {
            Some(l) => l,
            None => "?"@,
        }
    } else {
        "•"@
    }
}

/// Renders a compact symbol for a marker type.
pub fn markup_symbol(marker_type: &str, label: Option<&str>) -> (s: String)
    ensures
        s@ == spec_markup_symbol(
            marker_type@,
            match label {
                Some(l) => Some(l@),
                None => None,
            },
        ),
{
    if str_eq(marker_type, "point") {
        "●".to_owned()
    } else if str_eq(marker_type, "circle") {
        "◯".to_owned()
    } else if str_eq(marker_type, "square") {
        "□".to_owned()
    } else if str_eq(marker_type, "triangle") {
        "△".to_owned()
    } else if str_eq(marker_type, "cross") {
        "✕".to_owned()
    } else if str_eq(marker_type, "label") {
        match label {
            Some(l) => l.to_owned(),
            None => "?".to_owned(),
        }
    } else {
        "•".to_owned()
    }
}

} // verus!

verus! {

proof fn lemma_without_value(values: Seq<Seq<char>>, value: Seq<char>)
    ensures
        forall|x: Seq<char>| #[trigger] without_value(values, value).contains(x) <==> (values.contains(x) && x != value),
    decreases values.len(),
{
    if values.len() > 0 {
        let d = values.drop_last();
        lemma_without_value(d, value);
        assert forall|x: Seq<char>| #[trigger] without_value(values, value).contains(x) <==> (values.contains(x) && x != value) by {
            if values.contains(x) && x != value {
                let i = choose|i: int| 0 <= i < values.len() && values[i] == x;
                if i < d.len() {
                    assert(d[i] == x);
                    assert(d.contains(x));
                    let w = without_value(d, value);
                    assert(w.contains(x));
                    if values.last() != value {
                        let k = choose|k: int| 0 <= k < w.len() && w[k] == x;
                        assert(w.push(values.last())[k] == x);
                    }
                } else {
                    let w = without_value(d, value);
                    assert(w.push(values.last())[w.len() as int] == x);
                }
            }
            if without_value(values, value).contains(x) {
                let w = without_value(d, value);
                if values.last() != value && x == values.last() {
                    assert(values[values.len() - 1] == x);
                } else {
                    if values.last() != value {
                        let k = choose|k: int| 0 <= k < w.len() + 1 && w.push(values.last())[k] == x;
                        assert(w[k] == x);
                    }
                    assert(w.contains(x));
                    let j = choose|j: int| 0 <= j < d.len() && d[j] == x;
                    assert(values[j] == x);
                }
            }
        }
    }
}

/// Placing a black or white setup stone writes one property, `AB` or `AW`,
/// that keeps every value already stored for it, in order, and holds the new
/// point once: appended when it was not there yet, the values unchanged when
/// it was.
pub proof fn law_setup_placement_keeps_stored_stones(
    tool: MarkupTool,
    props: Map<Seq<char>, Seq<Seq<char>>>,
    point: Seq<char>,
)
    requires
        tool == MarkupTool::SetupBlack || tool == MarkupTool::SetupWhite,
    ensures
        ({
            let property = if tool == MarkupTool::SetupBlack { "AB"@ } else { "AW"@ };
            let stored = if props.contains_key(property) { props[property] } else { Seq::empty() };
            let updates = setup_updates(tool, props, point);
            &&& updates.len() == 1
            &&& updates[0].0 == property
            &&& updates[0].1.contains(point)
            &&& stored.len() <= updates[0].1.len() <= stored.len() + 1
            &&& forall|i: int| 0 <= i < stored.len() ==> #[trigger] updates[0].1[i] == stored[i]
            &&& (updates[0].1.len() == stored.len() + 1 <==> !stored.contains(point))
        }),
{
    let property = if tool == MarkupTool::SetupBlack { "AB"@ } else { "AW"@ };
    let stored = if props.contains_key(property) { props[property] } else { Seq::empty() };
    if !stored.contains(point) {
        assert(stored.push(point)[stored.len() as int] == point);
    }
}

/// Clearing a setup stone writes `AB` and `AW` (those that are stored) without
/// the point, keeping every other stored value.
pub proof fn law_setup_clear_removes_only_the_point(props: Map<Seq<char>, Seq<Seq<char>>>, point: Seq<char>)
    ensures
        forall|k: int|
            0 <= k < setup_updates(MarkupTool::SetupClear, props, point).len() ==> {
                let u = #[trigger] setup_updates(MarkupTool::SetupClear, props, point)[k];
                &&& (u.0 == "AB"@ || u.0 == "AW"@)
                &&& props.contains_key(u.0)
                &&& !u.1.contains(point)
                &&& forall|x: Seq<char>| props[u.0].contains(x) && x != point ==> #[trigger] u.1.contains(x)
            },
        props.contains_key("AB"@) ==> exists|k: int|
            0 <= k < setup_updates(MarkupTool::SetupClear, props, point).len()
                && #[trigger] setup_updates(MarkupTool::SetupClear, props, point)[k].0 == "AB"@,
        props.contains_key("AW"@) ==> exists|k: int|
            0 <= k < setup_updates(MarkupTool::SetupClear, props, point).len()
                && #[trigger] setup_updates(MarkupTool::SetupClear, props, point)[k].0 == "AW"@,
{
    if props.contains_key("AB"@) {
        lemma_without_value(props["AB"@], point);
    }
    if props.contains_key("AW"@) {
        lemma_without_value(props["AW"@], point);
    }
    let ups = setup_updates(MarkupTool::SetupClear, props, point);
    if props.contains_key("AB"@) {
        assert(ups[0].0 == "AB"@);
    }
    if props.contains_key("AW"@) {
        let k = if props.contains_key("AB"@) { 1int } else { 0int };
        assert(ups[k].0 == "AW"@);
    }
}

} // verus!

verus! {

/// Adding a value once keeps every value already there, in order, and holds
/// the new value; the list grows by one exactly when the value was missing.
pub proof fn law_append_unique_keeps_values(values: Seq<Seq<char>>, value: Seq<char>)
    ensures
        append_unique(values, value).contains(value),
        values.len() <= append_unique(values, value).len() <= values.len() + 1,
        forall|i: int| 0 <= i < values.len() ==> #[trigger] append_unique(values, value)[i] == values[i],
        append_unique(values, value).len() == values.len() + 1 <==> !values.contains(value),
{
    if !values.contains(value) {
        assert(values.push(value)[values.len() as int] == value);
    }
}

/// A drawn line or arrow is stored as the start point, `:`, and the end point,
/// each of which reads back as its vertex.
pub proof fn law_line_point_reads_back(start: Vertex, end: Vertex)
    requires
        start.column < 26 && start.row < 26,
        end.column < 26 && end.row < 26,
    ensures
        line_point(start, end).len() == 5,
        line_point(start, end)[2] == ':',
        crate::board::parse_sgf_point(line_point(start, end).subrange(0, 2)) == Some(start),
        crate::board::parse_sgf_point(line_point(start, end).subrange(3, 5)) == Some(end),
{
    crate::board::law_sgf_point_round_trip(start);
    crate::board::law_sgf_point_round_trip(end);
    assert(line_point(start, end).subrange(0, 2) =~= sgf_point(start));
    assert(line_point(start, end).subrange(3, 5) =~= sgf_point(end));
}

} // verus!
