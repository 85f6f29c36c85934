//! Decisions of the shell window: close confirmation, batch review plans,
//! the bottom deck and its popovers, pinned plugins and text-field key
//! routing.
use vstd::prelude::*;

use crate::markup::NodeId;
use crate::text::str_eq;
use crate::text_input::{InputKeyResult, NativeTextInput};

verus! {

/// How the user answered the close confirmation for a dirty document.
#[derive(Clone, Copy, Debug, Eq, PartialEq, Structural)]
pub enum CloseChoice {
    Save,
    Discard,
    Cancel,
}

/// Maps a user's close-confirmation choice to the final allow-close decision.
/// A successful save (or an explicit discard) closes the window; a cancelled
/// or failed save keeps it open.
pub fn close_decision(choice: CloseChoice, save_succeeded: bool) -> (allow: bool)
    ensures
        allow == (choice == CloseChoice::Discard || (choice == CloseChoice::Save
            && save_succeeded)),
{
    match choice {
        CloseChoice::Discard => true,
        CloseChoice::Save => save_succeeded,
        CloseChoice::Cancel => false,
    }
}

/// A whole-game review in progress: the node the user started from, the
/// nodes to analyse in order, and the position of the one being analysed.
pub struct BatchReviewState {
    original_node_id: NodeId,
    node_ids: Vec<NodeId>,
    next_index: usize,
}

impl BatchReviewState {
    /// The nodes of the plan.
    pub closed spec fn plan(&self) -> Seq<Seq<char>> {
        self.node_ids.deep_view()
    }

    /// The node the review started from.
    pub closed spec fn original(&self) -> Seq<char> {
        self.original_node_id@
    }

    /// Position of the node under review.
    pub closed spec fn position(&self) -> nat {
        self.next_index as nat
    }

    /// The position always designates a node of the plan.
    pub open spec fn wf(&self) -> bool {
        self.position() < self.plan().len()
    }

    /// Starts a review of `node_ids` at the first node; an empty plan is
    /// rejected.
    pub fn new(original_node_id: NodeId, node_ids: Vec<NodeId>) -> (state: Option<Self>)
        ensures
            node_ids@.len() == 0 <==> state is None,
            state matches Some(s) ==> {
                &&& s.wf()
                &&& s.original() == original_node_id@
                &&& s.plan() == node_ids.deep_view()
                &&& s.position() == 0
            },
    {
        if node_ids.len() == 0 {
            None
        } else {
            Some(Self { original_node_id, node_ids, next_index: 0 })
        }
    }

    /// The node the review started from (restored when the review ends).
    pub fn original_node_id(&self) -> (id: &NodeId)
        ensures
            id@ == self.original(),
    {
        &self.original_node_id
    }

    /// The node under review.
    pub fn current_node_id(&self) -> (id: Option<&NodeId>)
        requires
            self.wf(),
        ensures
            id matches Some(i) && i@ == self.plan()[self.position() as int],
    {
        Some(&self.node_ids[self.next_index])
    }

    /// Moves to the next node of the plan and returns it; at the last node
    /// nothing changes and `None` is returned.
    pub fn advance(&mut self) -> (id: Option<&NodeId>)
        requires
            old(self).wf(),
        ensures
            final(self).wf(),
            final(self).plan() == old(self).plan(),
            final(self).original() == old(self).original(),
            old(self).position() + 1 >= old(self).plan().len() ==> id is None
                && final(self).position() == old(self).position(),
            old(self).position() + 1 < old(self).plan().len() ==> {
                &&& final(self).position() == old(self).position() + 1
                &&& id matches Some(i) && i@ == old(self).plan()[old(self).position() as int + 1]
            },
    {
        assert(self.node_ids.deep_view().len() == self.node_ids@.len());
        let n = self.node_ids.len();
        if self.next_index + 1 >= n {
            return None;
        }
        self.next_index += 1;
        Some(&self.node_ids[self.next_index])
    }
}

/// Engine-configuration surfaces hosted in the left engine sidebar.
#[derive(Clone, Copy, Debug, Eq, PartialEq, Structural)]
pub enum EngineConfigPanel {
    KataGo,
    Engines,
    FoxSync,
    PositionSgf,
}

/// Tabs of the left sidebar.
#[derive(Clone, Copy, Debug, Default, Eq, PartialEq, Structural)]
pub enum LeftSidebarTab {
    #[default]
    AiEvaluation,
    Library,
}

/// Tabs of the bottom deck; `Generic` carries a plugin popover id.
#[derive(Clone, Debug, Eq, PartialEq)]
pub enum BottomDeckTab {
    WinrateGraph,
    VariationTree,
    GtpTerminal,
    KataGo,
    FoxSync,
    PositionSgf,
    PluginManager,
    Engines,
    Generic(String),
}

/// Abstract bottom-deck tab, with the popover id as characters.
pub enum DeckTabView {
    WinrateGraph,
    VariationTree,
    GtpTerminal,
    KataGo,
    FoxSync,
    PositionSgf,
    PluginManager,
    Engines,
    Generic(Seq<char>),
}

impl View for BottomDeckTab {
    type V = DeckTabView;

    open spec fn view(&self) -> DeckTabView {
        match self {
            BottomDeckTab::WinrateGraph => DeckTabView::WinrateGraph,
            BottomDeckTab::VariationTree => DeckTabView::VariationTree,
            BottomDeckTab::GtpTerminal => DeckTabView::GtpTerminal,
            BottomDeckTab::KataGo => DeckTabView::KataGo,
            BottomDeckTab::FoxSync => DeckTabView::FoxSync,
            BottomDeckTab::PositionSgf => DeckTabView::PositionSgf,
            BottomDeckTab::PluginManager => DeckTabView::PluginManager,
            BottomDeckTab::Engines => DeckTabView::Engines,
            BottomDeckTab::Generic(id) => DeckTabView::Generic(id@),
        }
    }
}

/// The left-sidebar panel that replaced a legacy engine/tool popover id.
pub open spec fn spec_engine_sidebar_panel_for(id: Seq<char>) -> Option<EngineConfigPanel> {
    if id == "org.ryusei.katago-setup-hub"@ {
        Some(EngineConfigPanel::KataGo)
    } else if id == "org.ryusei.fox-kifu-sync"@ {
        Some(EngineConfigPanel::FoxSync)
    } else if id == "org.ryusei.position-to-sgf"@ {
        Some(EngineConfigPanel::PositionSgf)
    } else if id == "engines"@ {
        Some(EngineConfigPanel::Engines)
    } else {
        None
    }
}

/// Maps a legacy engine/tool popover id to its left-sidebar panel.
pub fn engine_sidebar_panel_for(id: &str) -> (panel: Option<EngineConfigPanel>)
    ensures
        panel == spec_engine_sidebar_panel_for(id@),
{
    if str_eq(id, "org.ryusei.katago-setup-hub") {
        Some(EngineConfigPanel::KataGo)
    } else if str_eq(id, "org.ryusei.fox-kifu-sync") {
        Some(EngineConfigPanel::FoxSync)
    } else if str_eq(id, "org.ryusei.position-to-sgf") {
        Some(EngineConfigPanel::PositionSgf)
    } else if str_eq(id, "engines") {
        Some(EngineConfigPanel::Engines)
    } else {
        None
    }
}

/// What the shell does besides updating the deck.
#[derive(Clone, Copy, Debug, Eq, PartialEq, Structural)]
pub enum DeckEffect {
    /// Nothing more.
    Nothing,
    /// Focus the GTP console input.
    FocusGtpInput,
    /// Expand this engine-configuration panel in the left sidebar.
    OpenEngineConfigPanel(EngineConfigPanel),
    /// Collapse this panel if it is expanded, expand it otherwise.
    ToggleEngineConfigPanel(EngineConfigPanel),
}

/// Abstract deck state: whether the GTP console is open and which plugin
/// popover (if any) is shown.
pub struct DeckView {
    pub gtp_terminal_open: bool,
    pub popover: Option<Seq<char>>,
}

/// Open/closed state of the bottom deck.
#[derive(Clone, Debug, Default, Eq, PartialEq)]
pub struct BottomDeck {
    pub gtp_terminal_open: bool,
    pub active_plugin_popover: Option<String>,
}

impl View for BottomDeck {
    type V = DeckView;

    open spec fn view(&self) -> DeckView {
        DeckView {
            gtp_terminal_open: self.gtp_terminal_open,
            popover: match self.active_plugin_popover {
                Some(id) => Some(id@),
                None => None,
            },
        }
    }
}

/// Whether the deck shows anything.
pub open spec fn deck_is_open(d: DeckView) -> bool {
    d.gtp_terminal_open || d.popover is Some
}

/// The tab the deck shows. Engine/tool popover ids that moved to the left
/// sidebar (and a closed deck) fall back to the winrate graph.
pub open spec fn deck_active_tab(d: DeckView) -> DeckTabView {
    if d.gtp_terminal_open {
        DeckTabView::GtpTerminal
    } else {
        match d.popover {
            Some(id) => if id == "winrate-graph"@ {
                DeckTabView::WinrateGraph
            } else if id == "variation-tree"@ {
                DeckTabView::VariationTree
            } else if id == "all"@ {
                DeckTabView::PluginManager
            } else if spec_engine_sidebar_panel_for(id) is Some {
                DeckTabView::WinrateGraph
            } else {
                DeckTabView::Generic(id)
            },
            None => DeckTabView::WinrateGraph,
        }
    }
}

/// The deck after switching to `tab`, and what else the shell does. The
/// engine/tool tabs live in the left sidebar: switching to them leaves the
/// deck unchanged and opens the sidebar panel instead.
pub open spec fn deck_switch(d: DeckView, tab: DeckTabView) -> (DeckView, DeckEffect) {
    match tab {
        DeckTabView::WinrateGraph => (
            DeckView { gtp_terminal_open: false, popover: Some("winrate-graph"@) },
            DeckEffect::Nothing,
        ),
        DeckTabView::VariationTree => (
            DeckView { gtp_terminal_open: false, popover: Some("variation-tree"@) },
            DeckEffect::Nothing,
        ),
        DeckTabView::GtpTerminal => (
            DeckView { gtp_terminal_open: true, popover: None },
            DeckEffect::FocusGtpInput,
        ),
        DeckTabView::KataGo => (d, DeckEffect::OpenEngineConfigPanel(EngineConfigPanel::KataGo)),
        DeckTabView::FoxSync => (d, DeckEffect::OpenEngineConfigPanel(EngineConfigPanel::FoxSync)),
        DeckTabView::PositionSgf => (
            d,
            DeckEffect::OpenEngineConfigPanel(EngineConfigPanel::PositionSgf),
        ),
        DeckTabView::PluginManager => (
            DeckView { gtp_terminal_open: false, popover: Some("all"@) },
            DeckEffect::Nothing,
        ),
        DeckTabView::Engines => (d, DeckEffect::OpenEngineConfigPanel(EngineConfigPanel::Engines)),
        DeckTabView::Generic(id) => (
            DeckView { gtp_terminal_open: false, popover: Some(id) },
            DeckEffect::Nothing,
        ),
    }
}

/// The closed deck.
pub open spec fn deck_closed() -> DeckView {
    DeckView { gtp_terminal_open: false, popover: None }
}

/// Clicking a deck tab: closes the deck when it already shows that tab,
/// switches to it otherwise.
pub open spec fn deck_toggle(d: DeckView, tab: DeckTabView) -> (DeckView, DeckEffect) {
    if deck_is_open(d) && deck_active_tab(d) == tab {
        (deck_closed(), DeckEffect::Nothing)
    } else {
        deck_switch(d, tab)
    }
}

/// Clicking a plugin popover button: engine/tool ids toggle their sidebar
/// panel; other ids close their popover when it is shown and show it (closing
/// the GTP console) otherwise.
pub open spec fn deck_toggle_popover(d: DeckView, id: Seq<char>) -> (DeckView, DeckEffect) {
    match spec_engine_sidebar_panel_for(id) {
        Some(panel) => (d, DeckEffect::ToggleEngineConfigPanel(panel)),
        None => if d.popover == Some(id) {
            (DeckView { popover: None, ..d }, DeckEffect::Nothing)
        } else {
            (DeckView { gtp_terminal_open: false, popover: Some(id) }, DeckEffect::Nothing)
        },
    }
}

/// Whether two tabs are the same tab.
fn same_tab(a: &BottomDeckTab, b: &BottomDeckTab) -> (same: bool)
    ensures
        same == (a@ == b@),
{
    match (a, b) {
        (BottomDeckTab::WinrateGraph, BottomDeckTab::WinrateGraph) => true,
        (BottomDeckTab::VariationTree, BottomDeckTab::VariationTree) => true,
        (BottomDeckTab::GtpTerminal, BottomDeckTab::GtpTerminal) => true,
        (BottomDeckTab::KataGo, BottomDeckTab::KataGo) => true,
        (BottomDeckTab::FoxSync, BottomDeckTab::FoxSync) => true,
        (BottomDeckTab::PositionSgf, BottomDeckTab::PositionSgf) => true,
        (BottomDeckTab::PluginManager, BottomDeckTab::PluginManager) => true,
        (BottomDeckTab::Engines, BottomDeckTab::Engines) => true,
        (BottomDeckTab::Generic(x), BottomDeckTab::Generic(y)) => str_eq(x.as_str(), y.as_str()),
        _ => false,
    }
}

impl BottomDeck {
    pub fn is_bottom_deck_open(&self) -> (open: bool)
        ensures
            open == deck_is_open(self@),
    {
        self.gtp_terminal_open || self.active_plugin_popover.is_some()
    }

    pub fn active_bottom_tab(&self) -> (tab: BottomDeckTab)
        ensures
            tab@ == deck_active_tab(self@),
    {
        if self.gtp_terminal_open {
            BottomDeckTab::GtpTerminal
        } else {
            match &self.active_plugin_popover {
                Some(target) => {
                    if str_eq(target.as_str(), "winrate-graph") {
                        BottomDeckTab::WinrateGraph
                    } else if str_eq(target.as_str(), "variation-tree") {
                        BottomDeckTab::VariationTree
                    } else if str_eq(target.as_str(), "all") {
                        BottomDeckTab::PluginManager
                    } else if engine_sidebar_panel_for(target.as_str()).is_some() {
                        BottomDeckTab::WinrateGraph
                    } else {
                        BottomDeckTab::Generic(target.clone())
                    }
                },
                None => BottomDeckTab::WinrateGraph,
            }
        }
    }

    pub fn switch_bottom_tab(&mut self, tab: BottomDeckTab) -> (effect: DeckEffect)
        ensures
            (final(self)@, effect) == deck_switch(old(self)@, tab@),
    {
        match tab {
            BottomDeckTab::WinrateGraph => {
                self.gtp_terminal_open = false;
                self.active_plugin_popover = Some("winrate-graph".to_owned());
                DeckEffect::Nothing
            },
            BottomDeckTab::VariationTree => {
                self.gtp_terminal_open = false;
                self.active_plugin_popover = Some("variation-tree".to_owned());
                DeckEffect::Nothing
            },
            BottomDeckTab::GtpTerminal => {
                self.gtp_terminal_open = true;
                self.active_plugin_popover = None;
                DeckEffect::FocusGtpInput
            },
            BottomDeckTab::KataGo => DeckEffect::OpenEngineConfigPanel(EngineConfigPanel::KataGo),
            BottomDeckTab::FoxSync => DeckEffect::OpenEngineConfigPanel(EngineConfigPanel::FoxSync),
            BottomDeckTab::PositionSgf => DeckEffect::OpenEngineConfigPanel(
                EngineConfigPanel::PositionSgf,
            ),
            BottomDeckTab::PluginManager => {
                self.gtp_terminal_open = false;
                self.active_plugin_popover = Some("all".to_owned());
                DeckEffect::Nothing
            },
            BottomDeckTab::Engines => DeckEffect::OpenEngineConfigPanel(EngineConfigPanel::Engines),
            BottomDeckTab::Generic(id) => {
                self.gtp_terminal_open = false;
                self.active_plugin_popover = Some(id);
                DeckEffect::Nothing
            },
        }
    }

    pub fn toggle_bottom_deck_tab(&mut self, tab: BottomDeckTab) -> (effect: DeckEffect)
        ensures
            (final(self)@, effect) == deck_toggle(old(self)@, tab@),
    {
        let active = self.active_bottom_tab();
        if self.is_bottom_deck_open() && same_tab(&active, &tab) {
            self.close_bottom_deck();
            DeckEffect::Nothing
        } else {
            self.switch_bottom_tab(tab)
        }
    }

    pub fn close_bottom_deck(&mut self)
        ensures
            final(self)@ == deck_closed(),
    {
        self.gtp_terminal_open = false;
        self.active_plugin_popover = None;
    }

    pub fn toggle_plugin_popover(&mut self, id: &str) -> (effect: DeckEffect)
        ensures
            (final(self)@, effect) == deck_toggle_popover(old(self)@, id@),
    {
        match engine_sidebar_panel_for(id) {
            Some(panel) => DeckEffect::ToggleEngineConfigPanel(panel),
            None => {
                let shown = match &self.active_plugin_popover {
                    Some(current) => str_eq(current.as_str(), id),
                    None => false,
                };
                if shown {
                    self.active_plugin_popover = None;
                } else {
                    self.active_plugin_popover = Some(id.to_owned());
                    self.gtp_terminal_open = false;
                }
                DeckEffect::Nothing
            },
        }
    }
}

/// Switching to a tab that the deck hosts opens the deck on that tab.
pub proof fn law_switch_shows_the_tab(d: DeckView, tab: DeckTabView)
    requires
        match tab {
            DeckTabView::WinrateGraph | DeckTabView::VariationTree | DeckTabView::GtpTerminal
            | DeckTabView::PluginManager => true,
            DeckTabView::Generic(id) => id != "winrate-graph"@ && id != "variation-tree"@ && id
                != "all"@ && spec_engine_sidebar_panel_for(id) is None,
            _ => false,
        },
    ensures
        deck_is_open(deck_switch(d, tab).0),
        deck_active_tab(deck_switch(d, tab).0) == tab,
{
    reveal_strlit("winrate-graph");
    reveal_strlit("variation-tree");
    reveal_strlit("all");
    reveal_strlit("org.ryusei.katago-setup-hub");
    reveal_strlit("org.ryusei.fox-kifu-sync");
    reveal_strlit("org.ryusei.position-to-sgf");
    reveal_strlit("engines");
    assert("winrate-graph"@ != "variation-tree"@) by {
        assert("winrate-graph"@.len() != "variation-tree"@.len());
    }
    assert("winrate-graph"@ != "all"@) by {
        assert("winrate-graph"@.len() != "all"@.len());
    }
    assert("variation-tree"@ != "all"@) by {
        assert("variation-tree"@.len() != "all"@.len());
    }
    assert(spec_engine_sidebar_panel_for("all"@) is None) by {
        assert("all"@.len() != "org.ryusei.katago-setup-hub"@.len());
        assert("all"@.len() != "org.ryusei.fox-kifu-sync"@.len());
        assert("all"@.len() != "org.ryusei.position-to-sgf"@.len());
        assert("all"@.len() != "engines"@.len());
    }
    assert(spec_engine_sidebar_panel_for("variation-tree"@) is None) by {
        assert("variation-tree"@.len() != "org.ryusei.katago-setup-hub"@.len());
        assert("variation-tree"@.len() != "org.ryusei.fox-kifu-sync"@.len());
        assert("variation-tree"@.len() != "org.ryusei.position-to-sgf"@.len());
        assert("variation-tree"@.len() != "engines"@.len());
    }
}

/// Clicking the tab the open deck shows closes the deck.
pub proof fn law_toggle_active_tab_closes(d: DeckView)
    requires
        deck_is_open(d),
    ensures
        deck_toggle(d, deck_active_tab(d)).0 == deck_closed(),
{
}

/// Clicking a deck-hosted tab twice from a closed deck leaves it closed.
pub proof fn law_toggle_twice_closes(tab: DeckTabView)
    requires
        match tab {
            DeckTabView::WinrateGraph | DeckTabView::VariationTree | DeckTabView::GtpTerminal
            | DeckTabView::PluginManager => true,
            DeckTabView::Generic(id) => id != "winrate-graph"@ && id != "variation-tree"@ && id
                != "all"@ && spec_engine_sidebar_panel_for(id) is None,
            _ => false,
        },
    ensures
        deck_toggle(deck_toggle(deck_closed(), tab).0, tab).0 == deck_closed(),
{
    law_switch_shows_the_tab(deck_closed(), tab);
}

/// Holds of every id except `id`.
pub open spec fn other_than(id: Seq<char>) -> spec_fn(Seq<char>) -> bool {
    |p: Seq<char>| p != id
}

/// The pinned plugin list after toggling `id`: removed (every occurrence)
/// when pinned, appended otherwise.
pub open spec fn spec_toggle_pinned(pinned: Seq<Seq<char>>, id: Seq<char>) -> Seq<Seq<char>> {
    if pinned.contains(id) {
        pinned.filter(other_than(id))
    } else {
        pinned.push(id)
    }
}

/// Toggles whether the plugin `plugin_id` is pinned.
pub fn toggle_pinned_plugin(pinned: &Vec<String>, plugin_id: &str) -> (next: Vec<String>)
    ensures
        next.deep_view() == spec_toggle_pinned(pinned.deep_view(), plugin_id@),
{
    let ghost target = plugin_id@;
    let mut found = false;
    let mut kept: Vec<String> = Vec::new();
    let mut i: usize = 0;
    assert(pinned.deep_view().take(0) =~= Seq::<Seq<char>>::empty());
    assert(kept.deep_view() =~= Seq::<Seq<char>>::empty().filter(other_than(target)));
    while i < pinned.len()
        invariant
            target == plugin_id@,
            i <= pinned.len(),
            found == pinned.deep_view().take(i as int).contains(target),
            kept.deep_view() == pinned.deep_view().take(i as int).filter(other_than(target)),
        decreases pinned.len() - i,
    {
        let ghost before = kept.deep_view();
        let ghost prefix = pinned.deep_view().take(i as int);
        assert(pinned.deep_view().len() == pinned@.len());
        let ghost item = pinned.deep_view()[i as int];
        assert(item == pinned@[i as int]@);
        assert(prefix.len() == i);
        assert(pinned.deep_view().take(i + 1) =~= prefix.push(item));
        proof {
            reveal_with_fuel(Seq::filter, 1);
            assert(prefix.push(item).drop_last() =~= prefix);
        }
        let current: &String = &pinned[i];
        assert(current@ == item);
        if str_eq(current.as_str(), plugin_id) {
            found = true;
            assert(prefix.push(item)[i as int] == target);
        } else {
            let copy = pinned[i].clone();
            kept.push(copy);
            assert(kept.deep_view() =~= before.push(item));
            assert(prefix.push(item).contains(target) == prefix.contains(target)) by {
                if prefix.push(item).contains(target) {
                    let k = choose|k: int| 0 <= k < prefix.len() + 1 && prefix.push(item)[k] == target;
                    assert(k < prefix.len());
                    assert(prefix[k] == target);
                }
                if prefix.contains(target) {
                    let k = choose|k: int| 0 <= k < prefix.len() && prefix[k] == target;
                    assert(prefix.push(item)[k] == target);
                }
            }
        }
        i += 1;
    }
    assert(pinned.deep_view().len() == pinned@.len());
    assert(pinned.deep_view().take(pinned.len() as int) =~= pinned.deep_view());
    if found {
        kept
    } else {
        let mut next: Vec<String> = Vec::new();
        let mut j: usize = 0;
        while j < pinned.len()
            invariant
                target == plugin_id@,
                j <= pinned.len(),
                next.deep_view() == pinned.deep_view().take(j as int),
            decreases pinned.len() - j,
        {
            let ghost before = next.deep_view();
            let copy = pinned[j].clone();
            next.push(copy);
            assert(next.deep_view() =~= before.push(pinned.deep_view()[j as int]));
            j += 1;
            assert(next.deep_view() =~= pinned.deep_view().take(j as int));
        }
        assert(pinned.deep_view().len() == pinned@.len());
        assert(pinned.deep_view().take(pinned.len() as int) =~= pinned.deep_view());
        let ghost before = next.deep_view();
        next.push(plugin_id.to_owned());
        assert(next.deep_view() =~= before.push(target));
        next
    }
}

/// Toggling a plugin flips whether it is pinned and leaves every other
/// plugin's pinned state as it was.
pub proof fn law_toggle_pinned_flips_membership(pinned: Seq<Seq<char>>, id: Seq<char>, other: Seq<
    char,
>)
    requires
        other != id,
    ensures
        spec_toggle_pinned(pinned, id).contains(id) == !pinned.contains(id),
        spec_toggle_pinned(pinned, id).contains(other) == pinned.contains(other),
{
    if pinned.contains(id) {
        let f = pinned.filter(other_than(id));
        assert(!f.contains(id)) by {
            if f.contains(id) {
                let k = choose|k: int| 0 <= k < f.len() && f[k] == id;
                pinned.lemma_filter_pred(other_than(id), k);
            }
        }
        if pinned.contains(other) {
            let k = choose|k: int| 0 <= k < pinned.len() && pinned[k] == other;
            pinned.lemma_filter_contains(other_than(id), k);
        }
        if f.contains(other) {
            pinned.lemma_filter_contains_rev(other_than(id), other);
        }
    } else {
        assert(pinned.push(id)[pinned.len() as int] == id);
        if pinned.contains(other) {
            let k = choose|k: int| 0 <= k < pinned.len() && pinned[k] == other;
            assert(pinned.push(id)[k] == other);
        }
        if pinned.push(id).contains(other) {
            let k = choose|k: int| 0 <= k < pinned.len() + 1 && pinned.push(id)[k] == other;
            assert(pinned[k] == other);
        }
    }
}

/// The outcome of a key press in a focused text field: `secondary` is the
/// platform command modifier, `has_key_char` whether the key types text
/// (typed text reaches the field through the platform input bridge instead).
pub open spec fn spec_route_text_key(
    m: crate::text_input::TextInputModel,
    key: Seq<char>,
    secondary: bool,
    shift: bool,
    has_key_char: bool,
) -> (InputKeyResult, crate::text_input::TextInputModel) {
    if secondary && key == "a"@ {
        (InputKeyResult::Changed, m.with_selection(0, m.text.len()))
    } else if secondary && key == "z"@ && shift {
        let (changed, next) = m.redo();
        (
            if changed {
                InputKeyResult::Changed
            } else {
                InputKeyResult::Ignored
            },
            next,
        )
    } else if secondary && key == "z"@ {
        let (changed, next) = m.undo();
        (
            if changed {
                InputKeyResult::Changed
            } else {
                InputKeyResult::Ignored
            },
            next,
        )
    } else if has_key_char {
        (InputKeyResult::Ignored, m)
    } else {
        m.handle_key(key, None)
    }
}

/// Routes a key press to a focused text field: select-all, undo and redo
/// shortcuts first, then editing and navigation keys.
pub fn handle_text_input_key(
    input: &mut NativeTextInput,
    key: &str,
    secondary: bool,
    shift: bool,
    has_key_char: bool,
) -> (result: InputKeyResult)
    requires
        old(input).wf(),
    ensures
        (result, final(input)@) == spec_route_text_key(
            old(input)@,
            key@,
            secondary,
            shift,
            has_key_char,
        ),
        final(input).wf(),
{
    if secondary {
        if str_eq(key, "a") {
            input.select_all();
            return InputKeyResult::Changed;
        }
        if str_eq(key, "z") && shift {
            return if input.redo() {
                InputKeyResult::Changed
            } else {
                InputKeyResult::Ignored
            };
        }
        if str_eq(key, "z") {
            return if input.undo() {
                InputKeyResult::Changed
            } else {
                InputKeyResult::Ignored
            };
        }
    }
    if has_key_char {
        return InputKeyResult::Ignored;
    }
    input.handle_key(key, None)
}

} // verus!
